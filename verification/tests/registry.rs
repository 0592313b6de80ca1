use std::cell::RefCell;
use std::rc::Rc;

use messages::actor::{Actor, Quiet};
use messages::address::Delivery;
use messages::context::Context;
use messages::handler::Handler;
use messages::lifecycle::Phase;
use messages::registry::{NameCollision, Plan, Registry, Standing};
use messages::service::Service;

#[derive(Debug, Default)]
struct PingActor {
    pings: u8,
}

impl Quiet for PingActor {}

impl Handler<u8> for PingActor {
    type Result = u8;

    fn handle(&mut self, input: u8, _: &Context<Self>) -> u8 {
        self.pings += 1;
        input
    }
}

impl Service for PingActor {
    const NAME: &'static str = "Ping";
}

#[derive(Debug, Default)]
struct Impostor;

impl Quiet for Impostor {}

impl Service for Impostor {
    const NAME: &'static str = "Ping";
}

#[derive(Debug, Default)]
struct Pong;

impl Quiet for Pong {}

impl Service for Pong {
    const NAME: &'static str = "Pong";
}

type Running<A> = Rc<RefCell<Vec<(Context<A>, A)>>>;

fn launcher<A: Actor>(running: &Running<A>) -> impl FnOnce(Context<A>, A) {
    let running = running.clone();
    move |context, actor| {
        let mut context = context;
        let mut actor = actor;
        context.start(&mut actor);
        running.borrow_mut().push((context, actor));
    }
}

fn poll_last(running: &Running<PingActor>) -> Option<bool> {
    let (mut context, mut actor) = running.borrow_mut().pop().expect("nothing is running");
    let progress = context.poll(&mut actor);
    if context.phase() == Phase::Stopping {
        context.finish(&mut actor);
    } else {
        running.borrow_mut().push((context, actor));
    }
    progress
}

#[test]
fn get_from_registry() {
    let running: Running<PingActor> = Rc::new(RefCell::new(Vec::new()));
    let mut registry = Registry::new();

    let address = registry.service::<PingActor, _>(launcher(&running)).unwrap();
    let (delivery, mut response) = address.send(10);
    assert!(matches!(delivery, Delivery::Accepted));
    assert_eq!(poll_last(&running), Some(true));
    assert_eq!(response.try_recv(), Ok(Some(10)));
    assert!(matches!(address.stop(), Delivery::Accepted));
    while !address.wait_for_stop() {
        poll_last(&running);
    }

    // Service must be restarted after stopping.
    let address = registry.service::<PingActor, _>(launcher(&running)).unwrap();
    let (delivery, mut response) = address.send(10);
    assert!(matches!(delivery, Delivery::Accepted));
    assert_eq!(poll_last(&running), Some(true));
    assert_eq!(response.try_recv(), Ok(Some(10)));
    assert!(matches!(address.stop(), Delivery::Accepted));
    assert_eq!(registry.len(), 1);
}

#[test]
fn second_request_reaches_the_same_actor() {
    let running: Running<PingActor> = Rc::new(RefCell::new(Vec::new()));
    let mut registry = Registry::new();

    let first = registry.service::<PingActor, _>(launcher(&running)).unwrap();
    let second = registry.service::<PingActor, _>(launcher(&running)).unwrap();
    assert_eq!(running.borrow().len(), 1);
    assert_eq!(registry.len(), 1);

    assert!(matches!(first.notify_ping(), Delivery::Accepted));
    assert!(matches!(second.notify_ping(), Delivery::Accepted));
    assert_eq!(poll_last(&running), Some(true));
    assert_eq!(poll_last(&running), Some(true));
    assert_eq!(running.borrow()[0].1.pings, 2);
}

trait Ping {
    fn notify_ping(&self) -> Delivery<messages::envelope::InputHandle<PingActor>>;
}

impl Ping for messages::address::Address<PingActor> {
    fn notify_ping(&self) -> Delivery<messages::envelope::InputHandle<PingActor>> {
        self.send(1).0
    }
}

#[test]
fn stopped_service_is_launched_anew() {
    let running: Running<PingActor> = Rc::new(RefCell::new(Vec::new()));
    let mut registry = Registry::new();

    let first = registry.service::<PingActor, _>(launcher(&running)).unwrap();
    assert!(matches!(first.stop(), Delivery::Accepted));
    assert_eq!(poll_last(&running), Some(false));
    assert!(!first.connected());
    assert_eq!(running.borrow().len(), 0);

    let second = registry.service::<PingActor, _>(launcher(&running)).unwrap();
    assert!(second.connected());
    assert!(!first.connected());
    assert_eq!(running.borrow().len(), 1);
    assert_eq!(registry.len(), 1);
}

#[test]
fn shared_name_is_refused() {
    let running: Running<PingActor> = Rc::new(RefCell::new(Vec::new()));
    let impostors: Running<Impostor> = Rc::new(RefCell::new(Vec::new()));
    let mut registry = Registry::new();

    assert!(registry.service::<PingActor, _>(launcher(&running)).is_ok());
    let refused = registry.service::<Impostor, _>(launcher(&impostors));
    assert_eq!(refused.err(), Some(NameCollision));
    assert_eq!(impostors.borrow().len(), 0);
    assert_eq!(registry.len(), 1);
}

#[test]
fn services_are_kept_side_by_side() {
    let pings: Running<PingActor> = Rc::new(RefCell::new(Vec::new()));
    let pongs: Running<Pong> = Rc::new(RefCell::new(Vec::new()));
    let mut registry = Registry::new();
    assert_eq!(registry.len(), 0);

    assert!(registry.service::<PingActor, _>(launcher(&pings)).is_ok());
    assert!(registry.service::<Pong, _>(launcher(&pongs)).is_ok());
    assert!(registry.service::<PingActor, _>(launcher(&pings)).is_ok());
    assert_eq!(registry.len(), 2);
    assert_eq!(pings.borrow().len(), 1);
    assert_eq!(pongs.borrow().len(), 1);
    assert_eq!(registry.position(&"Pong".to_string()), Some(1));
    assert_eq!(registry.position(&"Ping".to_string()), Some(0));
    assert_eq!(registry.position(&"Pang".to_string()), None);
}

#[test]
fn standing_decides_the_plan() {
    assert_eq!(Standing::of(false, false, false), Standing::Absent);
    assert_eq!(Standing::of(false, true, true), Standing::Absent);
    assert_eq!(Standing::of(true, false, true), Standing::Foreign);
    assert_eq!(Standing::of(true, true, false), Standing::Stopped);
    assert_eq!(Standing::of(true, true, true), Standing::Running);
    assert_eq!(Standing::Absent.plan(), Plan::Launch);
    assert_eq!(Standing::Stopped.plan(), Plan::Launch);
    assert_eq!(Standing::Running.plan(), Plan::Reuse);
    assert_eq!(Standing::Foreign.plan(), Plan::Refuse);
}

#[test]
fn standing_is_found_out() {
    let running: Running<PingActor> = Rc::new(RefCell::new(Vec::new()));
    let mut registry = Registry::new();

    let (place, standing, address) = registry.standing::<PingActor>();
    assert_eq!(place, None);
    assert_eq!(standing, Standing::Absent);
    assert!(address.is_none());

    let first = registry.service::<PingActor, _>(launcher(&running)).unwrap();
    let (place, standing, address) = registry.standing::<PingActor>();
    assert_eq!(place, Some(0));
    assert_eq!(standing, Standing::Running);
    assert!(address.expect("a running service has an address").connected());

    let (place, standing, address) = registry.standing::<Impostor>();
    assert_eq!(place, Some(0));
    assert_eq!(standing, Standing::Foreign);
    assert!(address.is_none());

    assert!(matches!(first.stop(), Delivery::Accepted));
    assert_eq!(poll_last(&running), Some(false));
    let (place, standing, address) = registry.standing::<PingActor>();
    assert_eq!(place, Some(0));
    assert_eq!(standing, Standing::Stopped);
    assert!(address.is_none());
}

#[test]
fn settle_reuses_a_running_service() {
    let running: Running<PingActor> = Rc::new(RefCell::new(Vec::new()));
    let mut registry = Registry::new();
    let first = registry.service::<PingActor, _>(launcher(&running)).unwrap();
    assert_eq!(running.borrow().len(), 1);

    let address = registry.settle::<PingActor, _>(
        Some(0),
        Standing::Running,
        Some(first.clone()),
        launcher(&running),
    );
    assert_eq!(running.borrow().len(), 1);
    assert_eq!(registry.len(), 1);
    assert!(matches!(address.send(4).0, Delivery::Accepted));
    assert_eq!(poll_last(&running), Some(true));
    assert_eq!(running.borrow()[0].1.pings, 1);
}

#[test]
fn settle_launches_what_is_absent_or_stopped() {
    let running: Running<PingActor> = Rc::new(RefCell::new(Vec::new()));
    let mut registry = Registry::new();

    let first = registry.settle::<PingActor, _>(None, Standing::Absent, None, launcher(&running));
    assert!(first.connected());
    assert_eq!(running.borrow().len(), 1);
    assert_eq!(registry.len(), 1);
    assert_eq!(registry.position(&"Ping".to_string()), Some(0));

    let second =
        registry.settle::<PingActor, _>(Some(0), Standing::Stopped, None, launcher(&running));
    assert!(second.connected());
    assert_eq!(running.borrow().len(), 2);
    assert_eq!(registry.len(), 1);

    // The entry was replaced: a request now finds the second instance.
    let found = registry.service::<PingActor, _>(launcher(&running)).unwrap();
    assert_eq!(running.borrow().len(), 2);
    assert!(matches!(found.send(1).0, Delivery::Accepted));
    assert_eq!(poll_last(&running), Some(true));
    assert_eq!(running.borrow()[1].1.pings, 1);
    assert_eq!(running.borrow()[0].1.pings, 0);
}
