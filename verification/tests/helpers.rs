use ludi::actor::handle_and_return;
use ludi::address::connected_from;
use ludi::channel::closed_from;
use ludi::envelope::hand_over;
use ludi::futures::both_done;
use ludi::{Actor, Context, Dispatch, Handler, Message};
use std::sync::mpsc;

struct Add(u32);

impl Message for Add {
    type Return = u32;
}

impl<A: Actor + Handler<Add>> Dispatch<A> for Add {
    fn dispatch<R: FnOnce(u32) + Send>(self, actor: &mut A, ctx: &mut Context<A>, ret: R) {
        handle_and_return(actor, self, ctx, ret);
    }
}

#[derive(Default)]
struct Sum {
    total: u32,
}

impl Actor for Sum {
    type Stop = ();
    type Error = ();

    fn stopped(&mut self) -> Result<(), ()> {
        Ok(())
    }
}

impl Handler<Add> for Sum {
    fn handle(&mut self, msg: Add, ctx: &mut Context<Self>) -> u32 {
        self.total += msg.0;
        if self.total > 10 {
            ctx.stop();
        }
        self.total
    }
}

#[test]
fn connected_is_the_negation_of_closed() {
    assert!(connected_from(false));
    assert!(!connected_from(true));
}

#[test]
fn closed_if_remembered_or_answered() {
    assert!(!closed_from(false, false));
    assert!(closed_from(true, false));
    assert!(closed_from(false, true));
    assert!(closed_from(true, true));
}

#[test]
fn done_only_when_both_steps_are() {
    assert!(both_done(true, true));
    assert!(!both_done(true, false));
    assert!(!both_done(false, true));
    assert!(!both_done(false, false));
}

#[test]
fn handle_and_return_hands_the_handled_value_to_the_callback() {
    let (tell, told) = mpsc::channel();
    let mut sum = Sum { total: 4 };
    let mut ctx = Context::default();

    handle_and_return(&mut sum, Add(3), &mut ctx, move |value| tell.send(value).unwrap());

    assert_eq!(told.try_recv(), Ok(7));
    assert!(told.try_recv().is_err());
    assert_eq!(sum.total, 7);
    assert!(!ctx.stopped());
}

#[test]
fn hand_over_gives_message_actor_context_and_callback_to_the_dispatch() {
    let (tell, told) = mpsc::channel();
    let mut sum = Sum { total: 9 };
    let mut ctx = Context::default();

    hand_over(Add(5), &mut sum, &mut ctx, move |value| tell.send(value).unwrap());

    assert_eq!(told.try_recv(), Ok(14));
    assert_eq!(sum.total, 14);
    assert!(ctx.stopped());
}

#[test]
fn default_process_does_what_handle_and_return_does() {
    let (tell, told) = mpsc::channel();
    let mut sum = Sum::default();
    let mut ctx = Context::default();

    sum.process(Add(2), &mut ctx, move |value| tell.send(value).unwrap());

    assert_eq!(told.try_recv(), Ok(2));
    assert_eq!(sum.total, 2);
}
