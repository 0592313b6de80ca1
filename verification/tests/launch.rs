use std::cell::RefCell;
use std::rc::Rc;

use messages::actor::Quiet;
use messages::address::{Address, Delivery};
use messages::context::{Context, Event, Signal, DEFAULT_CAPACITY};
use messages::envelope::{InputHandle, NotificationEnvelope};
use messages::handler::Notifiable;
use messages::lifecycle::Phase;
use messages::registry::Registry;
use messages::runtime::{spawn, RuntimeActorExt};

/// An actor that forwards what it is told to itself, once.
struct Echo {
    own: Option<Address<Echo>>,
    heard: Vec<u8>,
}

impl Quiet for Echo {}

impl Notifiable<u8> for Echo {
    fn notify(&mut self, input: u8, context: &Context<Self>) {
        self.heard.push(input);
        if input < 10 {
            let address = match &self.own {
                Some(address) => address.clone(),
                None => context.address(),
            };
            assert!(matches!(address.notify(input + 10), Delivery::Accepted));
        }
    }
}

type Slot = Rc<RefCell<Option<(Context<Echo>, Echo)>>>;

fn park(slot: &Slot) -> impl FnOnce(Context<Echo>, Echo) {
    let slot = slot.clone();
    move |context, actor| {
        *slot.borrow_mut() = Some((context, actor));
    }
}

fn drain(slot: &Slot) -> Vec<u8> {
    let (mut context, mut actor) = slot.borrow_mut().take().expect("nothing was launched");
    context.start(&mut actor);
    while context.poll(&mut actor).is_some() {}
    actor.heard
}

#[test]
fn default_context_has_the_default_capacity() {
    let context: Context<Echo> = Context::default();
    assert_eq!(context.capacity(), DEFAULT_CAPACITY);
    assert_eq!(context.phase(), Phase::Created);
    assert_eq!(Registry::default().len(), 0);
}

#[test]
fn spawn_hands_the_actor_over() {
    let slot: Slot = Rc::new(RefCell::new(None));
    let address = spawn(Context::with_capacity(2), Echo { own: None, heard: Vec::new() }, park(&slot));
    assert!(matches!(address.notify(1), Delivery::Accepted));
    assert_eq!(drain(&slot), vec![1, 11]);
}

#[test]
fn actor_can_be_spawned_directly() {
    let slot: Slot = Rc::new(RefCell::new(None));
    let address = Echo { own: None, heard: Vec::new() }.spawn(park(&slot));
    assert!(matches!(address.notify(12), Delivery::Accepted));
    assert!(matches!(address.notify(2), Delivery::Accepted));
    assert_eq!(drain(&slot), vec![12, 2, 12]);
}

#[test]
fn actor_can_be_created_from_its_context() {
    let slot: Slot = Rc::new(RefCell::new(None));
    let address = Echo::create_and_spawn(
        |context: &Context<Echo>| Echo { own: Some(context.address()), heard: Vec::new() },
        park(&slot),
    );
    assert!(matches!(address.notify(3), Delivery::Accepted));
    assert_eq!(drain(&slot), vec![3, 13]);
}

#[test]
fn actor_runs_on_what_arrives() {
    let arrivals = vec![
        Event::Message(InputHandle::new(NotificationEnvelope::new(20u8))),
        Event::Message(InputHandle::new(NotificationEnvelope::new(30u8))),
        Event::Signal(Signal::Stop),
        Event::Message(InputHandle::new(NotificationEnvelope::new(40u8))),
    ];
    match (Echo { own: None, heard: Vec::new() }).run(arrivals) {
        Ok((lifecycle, actor)) => {
            assert_eq!(lifecycle.phase(), Phase::Stopped);
            assert_eq!(actor.heard, vec![20, 30]);
        }
        Err(_) => panic!("the actor agrees to stop"),
    }
}

#[test]
fn created_actor_runs_on_what_arrives() {
    let arrivals = vec![Event::Message(InputHandle::new(NotificationEnvelope::new(50u8)))];
    let outcome = Echo::create_and_run(
        |context: &Context<Echo>| Echo { own: Some(context.address()), heard: Vec::new() },
        arrivals,
    );
    match outcome {
        Ok(_) => panic!("nothing asked the actor to stop"),
        Err((context, actor)) => {
            assert_eq!(context.phase(), Phase::Running);
            assert_eq!(actor.heard, vec![50]);
        }
    }
}
