#![allow(dead_code)]

use ludi::{assert_message, assert_wrap, Actor, Context, Dispatch, Error, Handler, Message, Wrap};

pub struct BarMsgBar;

impl Message for BarMsgBar {
    type Return = String;
}

impl<A> Dispatch<A> for BarMsgBar
where
    A: Actor + Handler<BarMsgBar>,
{
    fn dispatch<R: FnOnce(String) + Send>(self, actor: &mut A, ctx: &mut Context<A>, ret: R) {
        Handler::<BarMsgBar>::process(actor, self, ctx, ret);
    }
}

pub enum BarMsg {
    Bar(BarMsgBar),
}

impl Message for BarMsg {
    type Return = BarMsgReturn;
}

pub enum BarMsgReturn {
    Bar(<BarMsgBar as Message>::Return),
}

impl From<BarMsgBar> for BarMsg {
    fn from(value: BarMsgBar) -> Self {
        Self::Bar(value)
    }
}

impl Wrap<BarMsgBar> for BarMsg {
    fn unwrap_return(ret: Self::Return) -> Result<<BarMsgBar as Message>::Return, Error> {
        match ret {
            BarMsgReturn::Bar(value) => Ok(value),
        }
    }
}

impl<A> Dispatch<A> for BarMsg
where
    A: Actor,
    BarMsgBar: Dispatch<A>,
{
    fn dispatch<R: FnOnce(Self::Return) + Send>(self, actor: &mut A, ctx: &mut Context<A>, ret: R) {
        match self {
            BarMsg::Bar(msg) => {
                msg.dispatch(actor, ctx, |value| ret(BarMsgReturn::Bar(value)));
            }
        }
    }
}

#[test]
fn interface_async_trait_test_implement_trait() {
    assert_message::<BarMsg, BarMsgReturn>();
    assert_message::<BarMsgBar, String>();
    assert_wrap::<BarMsg, BarMsgBar>();
}
