use ludi::futures::SendFuture;
use ludi::{
    assert_message, assert_wrap, mailbox, Actor, Context, Dispatch, Envelope, Error, Handler,
    Mailbox, Message, Runner, Wrap,
};
use std::task::{Poll, Waker};

struct Ping;

impl Message for Ping {
    type Return = String;
}

impl<A: Actor + Handler<Ping>> Dispatch<A> for Ping {
    fn dispatch<R: FnOnce(String) + Send>(self, actor: &mut A, ctx: &mut Context<A>, ret: R) {
        Handler::<Ping>::process(actor, self, ctx, ret);
    }
}

struct Pong;

impl Message for Pong {
    type Return = ();
}

impl<A: Actor + Handler<Pong>> Dispatch<A> for Pong {
    fn dispatch<R: FnOnce(()) + Send>(self, actor: &mut A, ctx: &mut Context<A>, ret: R) {
        Handler::<Pong>::process(actor, self, ctx, ret);
    }
}

enum PingMessage {
    Ping(Ping),
    Pong(Pong),
}

#[derive(Debug, PartialEq)]
enum PingMessageReturn {
    Ping(String),
    Pong(()),
}

impl Message for PingMessage {
    type Return = PingMessageReturn;
}

impl From<Ping> for PingMessage {
    fn from(value: Ping) -> Self {
        Self::Ping(value)
    }
}

impl From<Pong> for PingMessage {
    fn from(value: Pong) -> Self {
        Self::Pong(value)
    }
}

impl Wrap<Ping> for PingMessage {
    fn unwrap_return(ret: PingMessageReturn) -> Result<String, Error> {
        match ret {
            PingMessageReturn::Ping(value) => Ok(value),
            _ => Err(Error::Wrapper),
        }
    }
}

impl Wrap<Pong> for PingMessage {
    fn unwrap_return(ret: PingMessageReturn) -> Result<(), Error> {
        match ret {
            PingMessageReturn::Pong(value) => Ok(value),
            _ => Err(Error::Wrapper),
        }
    }
}

impl<A> Dispatch<A> for PingMessage
where
    A: Actor,
    Ping: Dispatch<A>,
    Pong: Dispatch<A>,
{
    fn dispatch<R: FnOnce(PingMessageReturn) + Send>(
        self,
        actor: &mut A,
        ctx: &mut Context<A>,
        ret: R,
    ) {
        match self {
            PingMessage::Ping(msg) => {
                msg.dispatch(actor, ctx, |value| ret(PingMessageReturn::Ping(value)));
            }
            PingMessage::Pong(msg) => {
                msg.dispatch(actor, ctx, |value| ret(PingMessageReturn::Pong(value)));
            }
        }
    }
}

#[derive(Default)]
struct PingActor {
    pings: usize,
    pongs: usize,
    sent_pongs: usize,
}

impl Actor for PingActor {
    type Stop = ();
    type Error = ();

    fn stopped(&mut self) -> Result<(), ()> {
        Ok(())
    }
}

impl Handler<Ping> for PingActor {
    fn handle(&mut self, _msg: Ping, _ctx: &mut Context<Self>) -> String {
        self.pings += 1;
        "pong".to_string()
    }
}

impl Handler<Pong> for PingActor {
    fn handle(&mut self, _msg: Pong, _ctx: &mut Context<Self>) {
        self.pongs += 1;
    }

    fn process<R: FnOnce(()) + Send>(&mut self, msg: Pong, ctx: &mut Context<Self>, ret: R) {
        ret(self.handle(msg, ctx));
        self.sent_pongs += 1;
    }
}

fn handle_ready(
    runner: &mut Runner<PingActor>,
    actor: &mut PingActor,
    mailbox: &mut Mailbox<PingMessage>,
) {
    let mut cx = std::task::Context::from_waker(Waker::noop());
    while let Poll::Ready(next) = mailbox.poll_next(&mut cx) {
        runner.deliver(actor, next).unwrap();
        if !runner.is_running() {
            break;
        }
    }
}

fn poll_send<U: Message>(
    future: &mut SendFuture<PingMessage, U>,
) -> Poll<Result<U::Return, Error>>
where
    PingMessage: Wrap<U>,
{
    let mut cx = std::task::Context::from_waker(Waker::noop());
    assert!(future.holds_response());
    future.poll(&mut cx)
}

#[test]
fn composed_carrier_returns_each_reply_under_its_own_type() {
    let (mut mailbox, address) = mailbox::<PingMessage>(4);
    let mut actor = PingActor::default();
    let mut runner = Runner::new();
    runner.start(&mut actor).unwrap();

    let mut ping = address.send(Ping);
    let mut pong = address.send(Pong);
    assert_eq!(poll_send(&mut ping), Poll::Pending);
    assert_eq!(poll_send(&mut pong), Poll::Pending);

    handle_ready(&mut runner, &mut actor, &mut mailbox);

    assert_eq!(poll_send(&mut ping), Poll::Ready(Ok("pong".to_string())));
    assert_eq!(poll_send(&mut pong), Poll::Ready(Ok(())));
    assert_eq!(actor.pings, 1);
    assert_eq!(actor.pongs, 1);
    assert_eq!(actor.sent_pongs, 1);
}

#[test]
fn projection_gives_back_what_the_handler_computed() {
    let mut actor = PingActor::default();
    let (envelope, mut response) = Envelope::new_with_response(PingMessage::from(Ping));
    envelope.dispatch(&mut actor, &mut Context::default());

    let mut cx = std::task::Context::from_waker(Waker::noop());
    let composed = match response.poll(&mut cx) {
        Poll::Ready(Ok(composed)) => composed,
        _ => panic!("the response was sent while the envelope was dispatched"),
    };
    assert_eq!(composed, PingMessageReturn::Ping("pong".to_string()));
    assert_eq!(
        <PingMessage as Wrap<Ping>>::unwrap_return(composed),
        Ok("pong".to_string())
    );
}

#[test]
fn projection_under_the_wrong_tag_is_a_wrapper_error() {
    assert_eq!(
        <PingMessage as Wrap<Ping>>::unwrap_return(PingMessageReturn::Pong(())),
        Err(Error::Wrapper)
    );
    assert_eq!(
        <PingMessage as Wrap<Pong>>::unwrap_return(PingMessageReturn::Ping("x".to_string())),
        Err(Error::Wrapper)
    );
}

#[test]
fn a_message_wraps_itself_and_always_unwraps() {
    assert_wrap::<Ping, Ping>();
    assert_eq!(<Ping as Wrap<Ping>>::unwrap_return("same".to_string()), Ok("same".to_string()));
    assert_eq!(<Pong as Wrap<Pong>>::unwrap_return(()), Ok(()));
}

#[test]
fn send_outcomes_follow_the_reply() {
    assert_eq!(SendFuture::<PingMessage, Ping>::on_reply(Poll::Pending), Poll::Pending);
    assert_eq!(
        SendFuture::<PingMessage, Ping>::on_reply(Poll::Ready(Err(Error::Interrupted))),
        Poll::Ready(Err(Error::Interrupted))
    );
    assert_eq!(
        SendFuture::<PingMessage, Ping>::on_reply(Poll::Ready(Ok(PingMessageReturn::Ping(
            "a".to_string()
        )))),
        Poll::Ready(Ok("a".to_string()))
    );
    assert_eq!(
        SendFuture::<PingMessage, Ping>::on_reply(Poll::Ready(Ok(PingMessageReturn::Pong(())))),
        Poll::Ready(Err(Error::Wrapper))
    );
}

#[test]
fn send_on_a_dropped_mailbox_is_disconnected() {
    let (mailbox, address) = mailbox::<PingMessage>(1);
    drop(mailbox);
    assert_eq!(poll_send(&mut address.send(Ping)), Poll::Ready(Err(Error::Disconnected)));
}

struct Foo;

impl Message for Foo {
    type Return = usize;
}

struct Bar;

impl Message for Bar {
    type Return = ();
}

enum Baz {
    Foo(Foo),
    Bar(Bar),
}

#[derive(Clone)]
enum BazReturn {
    Foo(<Foo as Message>::Return),
    Bar(<Bar as Message>::Return),
}

impl Message for Baz {
    type Return = BazReturn;
}

impl From<Foo> for Baz {
    fn from(value: Foo) -> Self {
        Self::Foo(value)
    }
}

impl From<Bar> for Baz {
    fn from(value: Bar) -> Self {
        Self::Bar(value)
    }
}

impl Wrap<Foo> for Baz {
    fn unwrap_return(ret: BazReturn) -> Result<usize, Error> {
        match ret {
            BazReturn::Foo(value) => Ok(value),
            _ => Err(Error::Wrapper),
        }
    }
}

impl Wrap<Bar> for Baz {
    fn unwrap_return(ret: BazReturn) -> Result<(), Error> {
        match ret {
            BazReturn::Bar(value) => Ok(value),
            _ => Err(Error::Wrapper),
        }
    }
}

fn assert_clone<T: Clone>() {}

#[test]
fn test_wrap() {
    assert_message::<Foo, usize>();
    assert_message::<Bar, ()>();
    assert_message::<Baz, BazReturn>();
    assert_wrap::<Baz, Foo>();
    assert_wrap::<Baz, Bar>();
    assert_clone::<BazReturn>();
}

#[test]
fn test_api() {
    let (mut mailbox, address) = mailbox::<PingMessage>(1);
    let mut actor = PingActor::default();
    let mut runner = Runner::new();
    runner.start(&mut actor).unwrap();

    let mut sent = address.send(Pong);
    assert_eq!(poll_send(&mut sent), Poll::Pending);
    handle_ready(&mut runner, &mut actor, &mut mailbox);
    assert_eq!(poll_send(&mut sent), Poll::Ready(Ok(())));
}
