use ludi::futures::ResponseFuture;
use ludi::{
    mailbox, run, Actor, Context, Dispatch, Envelope, Error, Handler, Message, Runner,
};
use std::collections::VecDeque;
use std::task::{Poll, Waker};

enum Command {
    Add(u32),
    Stop,
    Fail(&'static str),
    StopAndFail(&'static str),
}

impl Message for Command {
    type Return = u32;
}

impl<A: Actor + Handler<Command>> Dispatch<A> for Command {
    fn dispatch<R: FnOnce(u32) + Send>(self, actor: &mut A, ctx: &mut Context<A>, ret: R) {
        actor.process(self, ctx, ret);
    }
}

#[derive(Default)]
struct Machine {
    total: u32,
    handled: usize,
    stops: usize,
    refuse_start: bool,
    refuse_stop: bool,
}

impl Actor for Machine {
    type Stop = u32;
    type Error = &'static str;

    fn started(&mut self, _ctx: &mut Context<Self>) -> Result<(), &'static str> {
        if self.refuse_start {
            Err("no start")
        } else {
            Ok(())
        }
    }

    fn stopped(&mut self) -> Result<u32, &'static str> {
        self.stops += 1;
        if self.refuse_stop {
            Err("no stop")
        } else {
            Ok(self.total)
        }
    }
}

impl Handler<Command> for Machine {
    fn handle(&mut self, msg: Command, ctx: &mut Context<Self>) -> u32 {
        self.handled += 1;
        match msg {
            Command::Add(n) => self.total += n,
            Command::Stop => ctx.stop(),
            Command::Fail(why) => ctx.set_error(why),
            Command::StopAndFail(why) => {
                ctx.stop();
                ctx.set_error(why);
            }
        }
        self.total
    }
}

fn envelopes(commands: Vec<Command>) -> VecDeque<Envelope<Command>> {
    commands.into_iter().map(Envelope::new).collect()
}

fn poll_response(future: &mut ResponseFuture<Command>) -> Poll<Result<u32, Error>> {
    let mut cx = std::task::Context::from_waker(Waker::noop());
    future.poll(&mut cx)
}

#[test]
fn run_handles_every_envelope_then_stops() {
    let mut actor = Machine::default();
    let mut mailbox = envelopes(vec![Command::Add(1), Command::Add(2), Command::Add(3)]);

    assert_eq!(run(&mut actor, &mut mailbox), Ok(6));
    assert_eq!(actor.handled, 3);
    assert_eq!(actor.stops, 1);
    assert!(mailbox.is_empty());
}

#[test]
fn run_on_an_empty_mailbox_runs_both_hooks() {
    let mut actor = Machine::default();
    let mut mailbox = envelopes(vec![]);

    assert_eq!(run(&mut actor, &mut mailbox), Ok(0));
    assert_eq!(actor.handled, 0);
    assert_eq!(actor.stops, 1);
}

#[test]
fn stop_ends_the_run_after_the_message_that_asked_for_it() {
    let mut actor = Machine::default();
    let mut mailbox = envelopes(vec![Command::Add(5), Command::Stop, Command::Add(7)]);

    assert_eq!(run(&mut actor, &mut mailbox), Ok(5));
    assert_eq!(actor.handled, 2);
    assert_eq!(actor.stops, 1);
    assert_eq!(mailbox.len(), 1);
}

#[test]
fn propagated_error_ends_the_run_without_the_stop_hook() {
    let mut actor = Machine::default();
    let mut mailbox = envelopes(vec![Command::Add(5), Command::Fail("broken"), Command::Add(7)]);

    assert_eq!(run(&mut actor, &mut mailbox), Err("broken"));
    assert_eq!(actor.handled, 2);
    assert_eq!(actor.stops, 0);
    assert_eq!(mailbox.len(), 1);
}

#[test]
fn propagated_error_comes_before_a_stop_request() {
    let mut actor = Machine::default();
    let mut mailbox = envelopes(vec![Command::StopAndFail("both"), Command::Add(1)]);

    assert_eq!(run(&mut actor, &mut mailbox), Err("both"));
    assert_eq!(actor.stops, 0);
    assert_eq!(mailbox.len(), 1);
}

#[test]
fn failed_start_hook_ends_the_run_at_once() {
    let mut actor = Machine { refuse_start: true, ..Machine::default() };
    let mut mailbox = envelopes(vec![Command::Add(1)]);

    assert_eq!(run(&mut actor, &mut mailbox), Err("no start"));
    assert_eq!(actor.handled, 0);
    assert_eq!(actor.stops, 0);
    assert_eq!(mailbox.len(), 1);
}

#[test]
fn failed_stop_hook_fails_the_run() {
    let mut actor = Machine { refuse_stop: true, ..Machine::default() };
    let mut mailbox = envelopes(vec![Command::Add(1)]);

    assert_eq!(run(&mut actor, &mut mailbox), Err("no stop"));
    assert_eq!(actor.stops, 1);
}

#[test]
fn runner_walks_through_the_phases() {
    let mut actor = Machine::default();
    let mut runner = Runner::new();
    assert!(runner.is_fresh());
    assert!(!runner.is_running());

    assert_eq!(runner.start(&mut actor), Ok(()));
    assert!(runner.is_running());
    assert!(!runner.is_fresh());

    assert_eq!(runner.deliver(&mut actor, Some(Envelope::new(Command::Add(2)))), Ok(()));
    assert!(runner.is_running());

    assert_eq!(runner.deliver(&mut actor, Some(Envelope::new(Command::Stop))), Ok(()));
    assert!(!runner.is_running());
    assert!(runner.is_stopping());

    assert_eq!(runner.finish(&mut actor), Ok(2));
    assert!(!runner.is_stopping());
    assert!(!runner.is_running());
    assert_eq!(actor.stops, 1);
}

#[test]
fn runner_stops_at_the_end_of_the_mailbox() {
    let mut actor = Machine::default();
    let mut runner = Runner::new();
    runner.start(&mut actor).unwrap();

    assert_eq!(runner.deliver(&mut actor, None::<Envelope<Command>>), Ok(()));
    assert!(runner.is_stopping());
    assert_eq!(actor.handled, 0);
    assert_eq!(runner.finish(&mut actor), Ok(0));
}

#[test]
fn runner_fails_on_a_propagated_error() {
    let mut actor = Machine::default();
    let mut runner = Runner::new();
    runner.start(&mut actor).unwrap();

    assert_eq!(runner.deliver(&mut actor, Some(Envelope::new(Command::Fail("bad")))), Err("bad"));
    assert!(!runner.is_running());
    assert!(!runner.is_stopping());
}

#[test]
fn drain_leaves_what_follows_a_stop() {
    let mut actor = Machine::default();
    let mut runner = Runner::new();
    runner.start(&mut actor).unwrap();
    let mut mailbox = envelopes(vec![Command::Stop, Command::Add(1), Command::Add(2)]);

    assert_eq!(runner.drain(&mut actor, &mut mailbox), Ok(()));
    assert!(runner.is_stopping());
    assert_eq!(actor.handled, 1);
    assert_eq!(mailbox.len(), 2);
}

#[test]
fn run_answers_the_senders_that_wait() {
    let mut actor = Machine::default();
    let (first, mut first_response) = Envelope::new_with_response(Command::Add(4));
    let (second, mut second_response) = Envelope::new_with_response(Command::Stop);
    let (third, mut third_response) = Envelope::new_with_response(Command::Add(1));
    let mut mailbox = VecDeque::from(vec![first, second, third]);

    assert_eq!(run(&mut actor, &mut mailbox), Ok(4));

    assert_eq!(poll_response(&mut first_response), Poll::Ready(Ok(4)));
    assert_eq!(poll_response(&mut second_response), Poll::Ready(Ok(4)));
    assert_eq!(poll_response(&mut third_response), Poll::Pending);
    drop(mailbox);
    assert_eq!(poll_response(&mut third_response), Poll::Ready(Err(Error::Interrupted)));
}

#[test]
fn turn_takes_one_answer_of_the_mailbox() {
    let mut cx = std::task::Context::from_waker(Waker::noop());
    let (mut mailbox, mut address) = mailbox::<Command>(4);
    let mut actor = Machine::default();
    let mut runner = Runner::new();
    runner.start(&mut actor).unwrap();

    assert_eq!(runner.turn(&mut actor, &mut mailbox, &mut cx), Poll::Pending);
    assert!(runner.is_running());
    assert_eq!(actor.handled, 0);

    for command in [Command::Add(3), Command::Stop, Command::Add(9)] {
        assert_eq!(address.start_send(Envelope::new(command)), Ok(()));
    }

    assert_eq!(runner.turn(&mut actor, &mut mailbox, &mut cx), Poll::Ready(Ok(())));
    assert!(runner.is_running());
    assert_eq!(actor.total, 3);

    assert_eq!(runner.turn(&mut actor, &mut mailbox, &mut cx), Poll::Ready(Ok(())));
    assert!(runner.is_stopping());
    assert_eq!(actor.handled, 2);
    assert_eq!(runner.finish(&mut actor), Ok(3));
}

#[test]
fn turn_ends_the_taking_when_the_mailbox_has_ended() {
    let mut cx = std::task::Context::from_waker(Waker::noop());
    let (mut mailbox, address) = mailbox::<Command>(1);
    let mut actor = Machine::default();
    let mut runner = Runner::new();
    runner.start(&mut actor).unwrap();

    drop(address);
    assert_eq!(runner.turn(&mut actor, &mut mailbox, &mut cx), Poll::Ready(Ok(())));
    assert!(runner.is_stopping());
    assert_eq!(runner.finish(&mut actor), Ok(0));
    assert_eq!(actor.stops, 1);
}

#[test]
fn turn_fails_the_actor_on_a_propagated_error() {
    let mut cx = std::task::Context::from_waker(Waker::noop());
    let (mut mailbox, mut address) = mailbox::<Command>(1);
    let mut actor = Machine::default();
    let mut runner = Runner::new();
    runner.start(&mut actor).unwrap();

    assert_eq!(address.start_send(Envelope::new(Command::Fail("down"))), Ok(()));
    assert_eq!(runner.turn(&mut actor, &mut mailbox, &mut cx), Poll::Ready(Err("down")));
    assert!(!runner.is_running());
    assert!(!runner.is_stopping());
}
