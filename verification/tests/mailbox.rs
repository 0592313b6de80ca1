use messages::actor::{Actor, ActorAction};
use messages::address::{Address, Delivery};
use messages::channel::Rejected;
use messages::context::{Context, Event, Signal, Source, DEFAULT_CAPACITY};
use std::sync::{Arc, Mutex};

use messages::envelope::{work, InputHandle, NotificationEnvelope};
use messages::errors::SendError;
use messages::handler::{Coroutine, Handler, Notifiable};
use messages::lifecycle::Phase;
use messages::mailbox::Mailbox;
use messages::runner::ActorRunner;

#[derive(Debug, Default, Clone)]
struct Recorder {
    seen: Vec<u32>,
    stops_refused: u32,
}

impl Actor for Recorder {
    fn started(&mut self) {}

    fn stopped(&mut self) {}

    fn stopping(&mut self) -> ActorAction {
        if self.stops_refused > 0 {
            self.stops_refused -= 1;
            ActorAction::KeepRunning
        } else {
            ActorAction::Stop
        }
    }
}

impl Notifiable<u32> for Recorder {
    fn notify(&mut self, input: u32, _context: &Context<Self>) {
        self.seen.push(input);
    }
}

impl Handler<u32> for Recorder {
    type Result = usize;

    fn handle(&mut self, input: u32, _context: &Context<Self>) -> usize {
        self.seen.push(input);
        self.seen.len()
    }
}

impl Coroutine<u32> for Recorder {
    type Result = u32;

    fn calculate(mut self, input: u32) -> u32 {
        self.seen.push(input);
        self.seen.iter().sum()
    }
}

fn note(value: u32) -> Event<Recorder> {
    Event::Message(InputHandle::new(NotificationEnvelope::new(value)))
}

#[test]
fn notifications_are_handled_in_the_order_they_were_sent() {
    let mut context: Context<Recorder> = Context::with_capacity(8);
    let address = context.address();
    let mut actor = Recorder::default();
    context.start(&mut actor);
    for value in [3, 1, 4, 1, 5, 9, 2, 6] {
        assert!(matches!(address.notify(value), Delivery::Accepted));
    }
    for _ in 0..8 {
        assert_eq!(context.poll(&mut actor), Some(true));
    }
    assert_eq!(context.poll(&mut actor), None);
    assert_eq!(actor.seen, vec![3, 1, 4, 1, 5, 9, 2, 6]);
}

#[test]
fn full_mailbox_suspends_the_sender() {
    let mut context: Context<Recorder> = Context::with_capacity(2);
    assert_eq!(context.capacity(), 2);
    let address = context.address();
    let mut actor = Recorder::default();
    context.start(&mut actor);

    assert!(matches!(address.notify(1), Delivery::Accepted));
    assert!(matches!(address.notify(2), Delivery::Accepted));
    let suspended = address.notify(3);
    assert_eq!(suspended.outcome(), None);
    let envelope = match suspended {
        Delivery::Suspended(envelope) => envelope,
        _ => panic!("a full mailbox suspends the sender"),
    };
    let envelope = match address.offer(envelope) {
        Delivery::Suspended(envelope) => envelope,
        _ => panic!("the mailbox is still full"),
    };

    assert_eq!(context.poll(&mut actor), Some(true));
    assert!(matches!(address.offer(envelope), Delivery::Accepted));
    assert_eq!(context.poll(&mut actor), Some(true));
    assert_eq!(context.poll(&mut actor), Some(true));
    assert_eq!(context.poll(&mut actor), None);
    assert_eq!(actor.seen, vec![1, 2, 3]);
}

#[test]
fn stop_is_not_held_back_by_a_full_mailbox() {
    let mut context: Context<Recorder> = Context::with_capacity(1);
    let address = context.address();
    let mut actor = Recorder::default();
    context.start(&mut actor);

    assert!(matches!(address.notify(1), Delivery::Accepted));
    assert!(matches!(address.notify(2), Delivery::Suspended(_)));
    assert!(matches!(address.stop(), Delivery::Accepted));
    // The first poll looks at the mailbox first, the second at the signals.
    assert_eq!(context.poll(&mut actor), Some(true));
    assert_eq!(context.poll(&mut actor), Some(false));
    assert_eq!(context.phase(), Phase::Stopping);
    assert_eq!(actor.seen, vec![1]);
}

#[test]
fn polls_take_turns_between_signals_and_messages() {
    let mut context: Context<Recorder> = Context::with_capacity(4);
    let address = context.address();
    let mut actor = Recorder { seen: Vec::new(), stops_refused: 2 };
    context.start(&mut actor);
    assert!(matches!(address.stop(), Delivery::Accepted));
    assert!(matches!(address.stop(), Delivery::Accepted));
    assert!(matches!(address.notify(7), Delivery::Accepted));
    assert!(matches!(address.notify(8), Delivery::Accepted));

    // Mailbox first, then signals first, and so on.
    assert_eq!(context.poll(&mut actor), Some(true));
    assert_eq!(actor.seen, vec![7]);
    assert_eq!(context.poll(&mut actor), Some(true));
    assert_eq!(actor.stops_refused, 1);
    assert_eq!(context.poll(&mut actor), Some(true));
    assert_eq!(actor.seen, vec![7, 8]);
    assert_eq!(context.poll(&mut actor), Some(true));
    assert_eq!(actor.stops_refused, 0);
    assert_eq!(context.poll(&mut actor), None);
    assert_eq!(context.phase(), Phase::Running);
}

#[test]
fn refused_stop_keeps_the_actor_answering() {
    let mut context: Context<Recorder> = Context::new();
    assert_eq!(context.capacity(), DEFAULT_CAPACITY);
    assert_eq!(DEFAULT_CAPACITY, 128);
    let address = context.address();
    let mut actor = Recorder { seen: Vec::new(), stops_refused: 1 };
    context.start(&mut actor);

    assert!(context.step(&mut actor, Event::Signal(Signal::Stop)));
    assert_eq!(context.phase(), Phase::Running);
    let (delivery, mut response) = address.send(11);
    assert!(matches!(delivery, Delivery::Accepted));
    assert_eq!(context.poll(&mut actor), Some(true));
    assert_eq!(response.try_recv(), Ok(Some(1)));
    assert!(!context.step(&mut actor, Event::Closed));
    assert_eq!(context.phase(), Phase::Stopping);
}

#[test]
fn stale_address_is_disconnected() {
    let context: Context<Recorder> = Context::new();
    let address = context.address();
    let clone = address.clone();
    assert!(address.connected());
    assert!(!address.wait_for_stop());
    drop(context);
    assert!(!address.connected());
    assert!(!clone.connected());
    assert!(address.wait_for_stop());
    assert_eq!(address.notify(1).outcome(), Some(Err(SendError::ReceiverDisconnected)));
    let (delivery, mut response) = clone.send(2);
    assert_eq!(delivery.outcome(), Some(Err(SendError::ReceiverDisconnected)));
    assert!(response.try_recv().is_err());
    assert!(matches!(clone.stop(), Delivery::Disconnected));
}

#[test]
fn response_is_lost_when_the_mailbox_goes_away() {
    let context: Context<Recorder> = Context::new();
    let address = context.address();
    let (delivery, mut response) = address.send(2);
    assert!(matches!(delivery, Delivery::Accepted));
    assert_eq!(response.try_recv(), Ok(None));
    drop(context);
    drop(address);
    assert!(response.try_recv().is_err());
    assert_eq!(
        messages::response::received(response.try_recv().ok().flatten()),
        Err(SendError::ReceiverDisconnected)
    );
}

#[test]
fn delivery_tells_what_an_attempt_amounts_to() {
    assert!(matches!(Delivery::<u8>::of(Ok(())), Delivery::Accepted));
    assert!(matches!(Delivery::of(Err(Rejected::Full(5u8))), Delivery::Suspended(5)));
    assert!(matches!(Delivery::of(Err(Rejected::Closed(5u8))), Delivery::Disconnected));
    assert_eq!(Delivery::<u8>::Accepted.outcome(), Some(Ok(())));
    assert_eq!(Delivery::Suspended(1u8).outcome(), None);
    assert_eq!(
        Delivery::<u8>::Disconnected.outcome(),
        Some(Err(SendError::ReceiverDisconnected))
    );
}

#[test]
fn stream_is_forwarded_until_the_mailbox_is_full() {
    let mut context: Context<Recorder> = Context::with_capacity(3);
    let address = context.address();
    let mut actor = Recorder::default();
    context.start(&mut actor);

    let (delivery, rest) = address.clone().into_stream_forwarder(vec![1, 2, 3, 4, 5, 6]);
    let suspended = match delivery {
        Delivery::Suspended(envelope) => envelope,
        _ => panic!("the fourth item finds the mailbox full"),
    };
    assert_eq!(rest, vec![5, 6]);
    for _ in 0..3 {
        assert_eq!(context.poll(&mut actor), Some(true));
    }
    assert!(matches!(address.offer(suspended), Delivery::Accepted));
    let (delivery, rest) = address.clone().into_stream_forwarder(rest);
    assert!(matches!(delivery, Delivery::Accepted));
    assert!(rest.is_empty());
    for _ in 0..3 {
        assert_eq!(context.poll(&mut actor), Some(true));
    }
    assert_eq!(actor.seen, vec![1, 2, 3, 4, 5, 6]);
}

#[test]
fn stream_stops_at_a_closed_mailbox() {
    let context: Context<Recorder> = Context::with_capacity(3);
    let address = context.address();
    drop(context);
    let (delivery, rest) = address.into_stream_forwarder(vec![1, 2, 3]);
    assert_eq!(delivery.outcome(), Some(Err(SendError::ReceiverDisconnected)));
    assert_eq!(rest, vec![2, 3]);
}

#[test]
fn empty_stream_is_forwarded_at_once() {
    let context: Context<Recorder> = Context::with_capacity(3);
    let (delivery, rest) = context.address().into_stream_forwarder(Vec::<u32>::new());
    assert_eq!(delivery.outcome(), Some(Ok(())));
    assert!(rest.is_empty());
}

#[test]
fn coroutine_works_on_a_copy() {
    let mut context: Context<Recorder> = Context::new();
    let address = context.address();
    let mut actor = Recorder { seen: vec![1, 2], stops_refused: 0 };
    context.start(&mut actor);
    let (delivery, mut response) = address.calculate(4u32, |copy, message, response| {
        let _ = work(copy, message, response);
    });
    assert!(matches!(delivery, Delivery::Accepted));
    assert_eq!(context.poll(&mut actor), Some(true));
    assert_eq!(response.try_recv(), Ok(Some(7)));
    assert_eq!(actor.seen, vec![1, 2]);
}

#[test]
fn coroutine_work_can_be_done_outside_the_loop() {
    type Job = Box<dyn FnOnce() + Send>;
    let jobs: Arc<Mutex<Vec<Job>>> = Arc::new(Mutex::new(Vec::new()));
    let mut context: Context<Recorder> = Context::new();
    let address = context.address();
    let mut actor = Recorder { seen: vec![10], stops_refused: 0 };
    context.start(&mut actor);

    let queue = jobs.clone();
    let (delivery, mut first) = address.calculate(1u32, move |copy, message, response| {
        queue.lock().unwrap().push(Box::new(move || {
            let _ = work(copy, message, response);
        }));
    });
    assert!(matches!(delivery, Delivery::Accepted));
    assert!(matches!(address.notify(20), Delivery::Accepted));

    // The loop goes on while the work waits to be done.
    assert_eq!(context.poll(&mut actor), Some(true));
    assert_eq!(context.poll(&mut actor), Some(true));
    assert_eq!(actor.seen, vec![10, 20]);
    assert_eq!(first.try_recv(), Ok(None));

    // The work was handed a copy of the actor as it was at delivery.
    let job = jobs.lock().unwrap().pop().expect("the work was scheduled");
    job();
    assert_eq!(first.try_recv(), Ok(Some(11)));
}

#[test]
fn mailbox_stops_on_signal() {
    let mut mailbox = Mailbox::new(Recorder::default());
    assert!(mailbox.address().connected());
    let outcome = mailbox.run(vec![note(1), note(2), Event::Signal(Signal::Stop), note(3)]);
    assert_eq!(outcome, Ok(()));
    assert_eq!(mailbox.actor().seen, vec![1, 2]);
}

#[test]
fn mailbox_ends_well_without_senders() {
    let mut mailbox = Mailbox::with_capacity(Recorder::default(), 2);
    assert_eq!(mailbox.run(vec![note(1), Event::Closed, note(2)]), Ok(()));
    assert_eq!(mailbox.actor().seen, vec![1]);
    assert_eq!(mailbox.run(vec![note(5)]), Ok(()));
    assert_eq!(mailbox.run(Vec::new()), Ok(()));
    assert_eq!(mailbox.actor().seen, vec![1, 5]);
}

#[test]
fn mailbox_calls_no_hook() {
    let mut mailbox = Mailbox::new(Recorder { seen: Vec::new(), stops_refused: 3 });
    assert_eq!(mailbox.run(vec![Event::Signal(Signal::Stop)]), Ok(()));
    assert_eq!(mailbox.actor().stops_refused, 3);
    assert!(mailbox.actor().seen.is_empty());
}

#[test]
fn runner_does_not_ask_the_actor() {
    let runner = ActorRunner::new(Recorder { seen: Vec::new(), stops_refused: 5 });
    let address = runner.address();
    let outcome = runner.run(vec![note(1), note(2), Event::Signal(Signal::Stop), note(3)]);
    let (lifecycle, actor) = outcome.expect("a runner never fails");
    assert_eq!(lifecycle.phase(), Phase::Stopped);
    assert_eq!(actor.seen, vec![1, 2]);
    assert_eq!(actor.stops_refused, 5);
    assert!(!address.connected());
}

#[test]
fn runner_stops_when_nothing_is_left() {
    let runner = ActorRunner::with_capacity(Recorder::default(), 1);
    let (lifecycle, actor) = runner.run(vec![note(1), note(2)]).expect("a runner never fails");
    assert_eq!(lifecycle.phase(), Phase::Stopped);
    assert_eq!(actor.seen, vec![1, 2]);
}

#[test]
fn connection_follows_the_mailbox() {
    assert!(Address::<Recorder>::reaches(false));
    assert!(!Address::<Recorder>::reaches(true));
    assert!(Address::<Recorder>::gone(false));
    assert!(!Address::<Recorder>::gone(true));
}

#[test]
fn polls_look_at_both_channels_in_turn() {
    assert_eq!(Source::first(true), Source::Signals);
    assert_eq!(Source::first(false), Source::Mailbox);
    assert_eq!(Source::Signals.second(), Source::Mailbox);
    assert_eq!(Source::Mailbox.second(), Source::Signals);

    let context: Context<Recorder> = Context::with_capacity(2);
    let address = context.address();
    assert!(context.look(Source::Signals).is_none());
    assert!(context.look(Source::Mailbox).is_none());
    assert!(matches!(address.stop(), Delivery::Accepted));
    assert!(matches!(address.notify(1), Delivery::Accepted));
    assert!(matches!(context.look(Source::Signals), Some(Event::Signal(Signal::Stop))));
    assert!(context.look(Source::Signals).is_none());
    assert!(matches!(context.look(Source::Mailbox), Some(Event::Message(_))));
    assert!(context.look(Source::Mailbox).is_none());
}
