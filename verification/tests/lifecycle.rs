use messages::actor::{ActorAction, Quiet};
use messages::context::{Context, Event, Signal};
use messages::lifecycle::Phase;

struct Silent;

impl Quiet for Silent {}

#[test]
fn default_actor_stops_when_asked() {
    let mut context: Context<Silent> = Context::new();
    let mut actor = Silent;
    assert_eq!(context.phase(), Phase::Created);
    context.start(&mut actor);
    assert_eq!(context.phase(), Phase::Running);
    assert!(!context.step(&mut actor, Event::Signal(Signal::Stop)));
    assert_eq!(context.phase(), Phase::Stopping);
    let lifecycle = context.finish(&mut actor);
    assert_eq!(lifecycle.phase(), Phase::Stopped);
    let _ = ActorAction::Stop;
}
