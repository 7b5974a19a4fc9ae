#![allow(dead_code)]

use ludi::{
    assert_handler, assert_message, assert_wrap, Actor, Context, Dispatch, Error, Handler,
    Message, Wrap,
};

#[derive(Default)]
pub struct Foo;

impl Actor for Foo {
    type Stop = ();
    type Error = ();

    fn stopped(&mut self) -> Result<Self::Stop, Self::Error> {
        Ok(())
    }
}

struct BarMsgFoo;

impl Message for BarMsgFoo {
    type Return = u32;
}

impl<A> Dispatch<A> for BarMsgFoo
where
    A: Actor + Handler<BarMsgFoo>,
{
    fn dispatch<R: FnOnce(u32) + Send>(self, actor: &mut A, ctx: &mut Context<A>, ret: R) {
        Handler::<BarMsgFoo>::process(actor, self, ctx, ret);
    }
}

struct BarMsgBar;

impl Message for BarMsgBar {
    type Return = String;
}

impl<A> Dispatch<A> for BarMsgBar
where
    A: Actor + Handler<BarMsgBar>,
{
    fn dispatch<R: FnOnce(String) + Send>(self, actor: &mut A, ctx: &mut Context<A>, ret: R) {
        Handler::<BarMsgBar>::process(actor, self, ctx, ret);
    }
}

struct BarMsgBaz;

impl Message for BarMsgBaz {
    type Return = ();
}

impl<A> Dispatch<A> for BarMsgBaz
where
    A: Actor + Handler<BarMsgBaz>,
{
    fn dispatch<R: FnOnce(()) + Send>(self, actor: &mut A, ctx: &mut Context<A>, ret: R) {
        Handler::<BarMsgBaz>::process(actor, self, ctx, ret);
    }
}

enum BarMsg {
    Foo(BarMsgFoo),
    Bar(BarMsgBar),
    Baz(BarMsgBaz),
}

enum BarMsgReturn {
    Foo(<BarMsgFoo as Message>::Return),
    Bar(<BarMsgBar as Message>::Return),
    Baz(<BarMsgBaz as Message>::Return),
}

impl Message for BarMsg {
    type Return = BarMsgReturn;
}

impl From<BarMsgFoo> for BarMsg {
    fn from(value: BarMsgFoo) -> Self {
        Self::Foo(value)
    }
}

impl From<BarMsgBar> for BarMsg {
    fn from(value: BarMsgBar) -> Self {
        Self::Bar(value)
    }
}

impl From<BarMsgBaz> for BarMsg {
    fn from(value: BarMsgBaz) -> Self {
        Self::Baz(value)
    }
}

impl Wrap<BarMsgFoo> for BarMsg {
    fn unwrap_return(ret: Self::Return) -> Result<<BarMsgFoo as Message>::Return, Error> {
        match ret {
            BarMsgReturn::Foo(value) => Ok(value),
            _ => Err(Error::Wrapper),
        }
    }
}

impl Wrap<BarMsgBar> for BarMsg {
    fn unwrap_return(ret: Self::Return) -> Result<<BarMsgBar as Message>::Return, Error> {
        match ret {
            BarMsgReturn::Bar(value) => Ok(value),
            _ => Err(Error::Wrapper),
        }
    }
}

impl Wrap<BarMsgBaz> for BarMsg {
    fn unwrap_return(ret: Self::Return) -> Result<<BarMsgBaz as Message>::Return, Error> {
        match ret {
            BarMsgReturn::Baz(value) => Ok(value),
            _ => Err(Error::Wrapper),
        }
    }
}

impl<A> Dispatch<A> for BarMsg
where
    A: Actor,
    BarMsgFoo: Dispatch<A>,
    BarMsgBar: Dispatch<A>,
    BarMsgBaz: Dispatch<A>,
{
    fn dispatch<R: FnOnce(Self::Return) + Send>(self, actor: &mut A, ctx: &mut Context<A>, ret: R) {
        match self {
            BarMsg::Foo(msg) => {
                msg.dispatch(actor, ctx, |value| ret(BarMsgReturn::Foo(value)));
            }
            BarMsg::Bar(msg) => {
                msg.dispatch(actor, ctx, |value| ret(BarMsgReturn::Bar(value)));
            }
            BarMsg::Baz(msg) => {
                msg.dispatch(actor, ctx, |value| ret(BarMsgReturn::Baz(value)));
            }
        }
    }
}

impl Handler<BarMsgBar> for Foo {
    fn handle(&mut self, _msg: BarMsgBar, _ctx: &mut Context<Self>) -> String {
        String::new()
    }
}

impl Handler<BarMsgBaz> for Foo {
    fn handle(&mut self, _msg: BarMsgBaz, _ctx: &mut Context<Self>) {}
}

impl Handler<BarMsgFoo> for Foo {
    fn handle(&mut self, _msg: BarMsgFoo, _ctx: &mut Context<Self>) -> u32 {
        0
    }
}

#[test]
fn implement_trait_test_implement_trait() {
    assert_message::<BarMsg, BarMsgReturn>();
    assert_message::<BarMsgFoo, u32>();
    assert_message::<BarMsgBar, String>();
    assert_message::<BarMsgBaz, ()>();
    assert_wrap::<BarMsg, BarMsgFoo>();
    assert_wrap::<BarMsg, BarMsgBar>();
    assert_wrap::<BarMsg, BarMsgBaz>();
    assert_handler::<Foo, BarMsgFoo>();
    assert_handler::<Foo, BarMsgBar>();
    assert_handler::<Foo, BarMsgBaz>();
}
