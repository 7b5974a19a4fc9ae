//! The life of an actor: started once, fed the envelopes of its mailbox one
//! by one, and stopped once.
//!
//! Waiting for the next envelope is not this library's to do. A [`Runner`]
//! holds what the run loop has to remember between two envelopes and makes
//! its decisions; whoever drives it decides when to ask the mailbox again.
//! [`run`] drives it over the envelopes that are at hand.

use crate::actor::{Actor, Context, ContextView};
use crate::envelope::Envelope;
use crate::mailbox::Mailbox;
use crate::message::Dispatch;
use std::collections::VecDeque;
use std::task::Poll;
use vstd::prelude::*;

verus! {

/// Where an actor stands in its life.
#[derive(Debug, Clone, Copy, PartialEq, Eq, Structural)]
pub enum Phase {
    /// The start hook has not run yet.
    NotStarted,
    /// The actor takes envelopes.
    Running,
    /// The actor takes no more envelopes; the stop hook is still to run.
    Stopping,
    /// The stop hook has run and has given the terminal value.
    Stopped,
    /// A hook has failed, or handling logic has propagated an error.
    Failed,
}

/// The phase that follows the handling of one message, judged by what the
/// handling has left in the context: a propagated error comes first and
/// fails the actor, a stop request comes second and ends the taking of
/// envelopes, and otherwise the actor runs on.
pub open spec fn verdict<E>(ctx: ContextView<E>) -> Phase {
    if ctx.error is Some {
        Phase::Failed
    } else if ctx.stopped {
        Phase::Stopping
    } else {
        Phase::Running
    }
}

/// What the context holds once the run loop has judged it: the stop flag as
/// it was, and no error, because a pending error is taken out.
pub open spec fn settled<E>(ctx: ContextView<E>) -> ContextView<E> {
    ContextView { stopped: ctx.stopped, error: None }
}

/// What the run loop makes of the context that the handling of one message
/// has left: the pending error as a failure, and success if there is none.
pub open spec fn judged<E>(ctx: ContextView<E>) -> Result<(), E> {
    match ctx.error {
        Some(err) => Err(err),
        None => Ok(()),
    }
}

/// What the context held before the run loop judged it, given what it holds
/// now and what the judging gave: the stop flag as it is, and the error that
/// was taken out, if one was.
pub open spec fn unsettled<E>(ctx: ContextView<E>, r: Result<(), E>) -> ContextView<E> {
    ContextView {
        stopped: ctx.stopped,
        error: match r {
            Ok(_) => None,
            Err(err) => Some(err),
        },
    }
}

/// An actor and what its context holds, at one moment of its run.
pub struct Moment<A: Actor> {
    pub actor: A,
    pub context: ContextView<A::Error>,
}

/// The moment at which step `i` of a run begins, where the run began at
/// `start` and `moments[j]` is what the dispatch of step `j` has left: the
/// first step begins at `start`, and each later one where the one before has
/// left the actor, with the context as the run loop has settled it. With
/// `i` the number of steps, it is the moment at which the run has ended.
pub open spec fn step_begins<A: Actor>(start: Moment<A>, moments: Seq<Moment<A>>, i: int) -> Moment<
    A,
> {
    if i <= 0 {
        start
    } else {
        Moment { actor: moments[i - 1].actor, context: settled(moments[i - 1].context) }
    }
}

/// Whether `i` is one of the steps of a run through `moments`.
pub open spec fn is_step<A: Actor>(moments: Seq<Moment<A>>, i: int) -> bool {
    0 <= i < moments.len()
}

/// Whether a run of the loop that has dispatched the first `moments.len()`
/// of `total` envelopes went on and ended when it had to:
/// - after every dispatch but the last, no error was pending and no stop was
///   requested, or the next envelope would not have been taken;
/// - envelopes are left over only where the last dispatch has left an error
///   or a stop request.
///
/// That each of those envelopes was dispatched, once and where the one
/// before had left off, is said where a run is said to be one.
pub open spec fn stopped_in_time<A: Actor>(moments: Seq<Moment<A>>, total: nat) -> bool {
    &&& moments.len() <= total
    &&& forall|i: int|
        0 <= i < moments.len() - 1 ==> verdict((#[trigger] moments[i]).context) == Phase::Running
    &&& moments.len() < total ==> moments.len() > 0 && verdict(moments.last().context)
        != Phase::Running
}

/// What a run of the loop through `moments` ends with: the failure that the
/// last dispatch has left pending, and success if there is none or nothing
/// was dispatched.
pub open spec fn drained<A: Actor>(moments: Seq<Moment<A>>) -> Result<(), A::Error> {
    if moments.len() > 0 {
        judged(moments.last().context)
    } else {
        Ok(())
    }
}

/// What the run loop of one actor remembers: the phase the actor is in, and
/// the context that its handling logic talks to.
pub struct Runner<A: Actor> {
    ctx: Context<A>,
    phase: Phase,
}

impl<A: Actor> Runner<A> {
    /// The phase that the actor is in.
    pub closed spec fn phase(&self) -> Phase {
        self.phase
    }

    /// What the context of the actor holds.
    pub closed spec fn context(&self) -> ContextView<A::Error> {
        self.ctx@
    }

    /// A runner for an actor that has not been started, with a fresh
    /// context.
    pub fn new() -> (runner: Self)
        ensures
            runner.phase() == Phase::NotStarted,
            !runner.context().stopped,
            runner.context().error is None,
    {
        Self { ctx: Context::default(), phase: Phase::NotStarted }
    }

    /// Returns `true` while the actor takes envelopes.
    pub fn is_running(&self) -> (running: bool)
        ensures
            running == (self.phase() == Phase::Running),
    {
        match self.phase {
            Phase::Running => true,
            _ => false,
        }
    }

    /// Returns `true` if the stop hook is what is left to run.
    pub fn is_stopping(&self) -> (stopping: bool)
        ensures
            stopping == (self.phase() == Phase::Stopping),
    {
        match self.phase {
            Phase::Stopping => true,
            _ => false,
        }
    }

    /// Returns `true` if the actor has not been started yet.
    pub fn is_fresh(&self) -> (fresh: bool)
        ensures
            fresh == (self.phase() == Phase::NotStarted),
    {
        match self.phase {
            Phase::NotStarted => true,
            _ => false,
        }
    }

    /// Runs the start hook of the actor. Where the hook fails the actor has
    /// failed before it took any envelope, and no stop hook will run;
    /// otherwise the actor takes envelopes from now on.
    ///
    /// The result, the actor and the context are as `Actor::started` gives
    /// and leaves them.
    pub fn start(&mut self, actor: &mut A) -> (r: Result<(), A::Error>)
        requires
            old(self).phase() == Phase::NotStarted,
        ensures
            final(self).phase() == if r is Ok {
                Phase::Running
            } else {
                Phase::Failed
            },
            exists|a: &mut A, c: &mut Context<A>|
                {
                    &&& *a == *old(actor)
                    &&& c@ == old(self).context()
                    &&& #[trigger] call_ensures(A::started, (a, c), r)
                    &&& *final(actor) == *final(a)
                    &&& final(self).context() == final(c)@
                },
    {
        let r = actor.started(&mut self.ctx);
        self.phase = match &r {
            Ok(_) => Phase::Running,
            Err(_) => Phase::Failed,
        };
        r
    }

    /// Decides how the actor goes on after one message was handled, by what
    /// the handling has left in the context: see [`verdict`]. A propagated
    /// error is taken out of the context and returned.
    pub fn settle(&mut self) -> (r: Result<(), A::Error>)
        requires
            old(self).phase() == Phase::Running,
        ensures
            final(self).phase() == verdict(old(self).context()),
            r == judged(old(self).context()),
            final(self).context() == settled(old(self).context()),
    {
        if let Some(err) = self.ctx.take_error() {
            self.phase = Phase::Failed;
            Err(err)
        } else {
            if self.ctx.stopped() {
                self.phase = Phase::Stopping;
            }
            Ok(())
        }
    }

    /// Takes what the mailbox gave next. The end of the mailbox ends the
    /// taking of envelopes and touches neither the actor nor the context. An
    /// envelope is dispatched to the actor, and then [`Runner::settle`]
    /// decides how the actor goes on.
    ///
    /// An envelope is dispatched once, by `Envelope::dispatch`, to this
    /// actor and to the context of this runner. The actor is as the dispatch
    /// has left it, and the phase, the result and the context are what
    /// [`verdict`], [`judged`] and [`settled`] make of the context as the
    /// dispatch has left it.
    pub fn deliver<T: Dispatch<A>>(&mut self, actor: &mut A, next: Option<Envelope<T>>) -> (r:
        Result<(), A::Error>)
        requires
            old(self).phase() == Phase::Running,
        ensures
            next is None ==> {
                &&& r is Ok
                &&& final(self).phase() == Phase::Stopping
                &&& final(self).context() == old(self).context()
                &&& *final(actor) == *old(actor)
            },
            next matches Some(envelope) ==> exists|a: &mut A, c: &mut Context<A>|
                {
                    &&& *a == *old(actor)
                    &&& c@ == old(self).context()
                    &&& #[trigger] call_ensures(Envelope::<T>::dispatch::<A>, (envelope, a, c), ())
                    &&& *final(actor) == *final(a)
                    &&& final(self).phase() == verdict(final(c)@)
                    &&& r == judged(final(c)@)
                    &&& final(self).context() == settled(final(c)@)
                },
    {
        match next {
            None => {
                self.phase = Phase::Stopping;
                Ok(())
            },
            Some(envelope) => {
                envelope.dispatch(actor, &mut self.ctx);
                self.settle()
            },
        }
    }

    /// Asks the mailbox once for its next envelope and, where the mailbox
    /// answers, takes the answer as [`Runner::deliver`] says: the end of the
    /// mailbox ends the taking of envelopes, and an envelope is dispatched
    /// once and judged. While the mailbox is empty and open the answer is
    /// pending, and nothing has happened to the actor or to the context. A
    /// mailbox that has ended before ends the taking of envelopes too.
    pub fn turn<T: Dispatch<A>>(
        &mut self,
        actor: &mut A,
        mailbox: &mut Mailbox<T>,
        cx: &mut std::task::Context<'_>,
    ) -> (r: Poll<Result<(), A::Error>>)
        requires
            old(self).phase() == Phase::Running,
        ensures
            final(mailbox).bounded() == old(mailbox).bounded(),
            old(mailbox).ended() ==> {
                &&& r matches Poll::Ready(Ok(_))
                &&& final(self).phase() == Phase::Stopping
                &&& final(self).context() == old(self).context()
                &&& *final(actor) == *old(actor)
            },
            r is Pending ==> {
                &&& final(self).phase() == Phase::Running
                &&& final(self).context() == old(self).context()
                &&& *final(actor) == *old(actor)
                &&& !final(mailbox).ended()
            },
            r matches Poll::Ready(taken) ==> (final(mailbox).ended() ==> {
                &&& taken is Ok
                &&& final(self).phase() == Phase::Stopping
                &&& final(self).context() == old(self).context()
                &&& *final(actor) == *old(actor)
            }),
            r matches Poll::Ready(taken) ==> (!final(mailbox).ended() ==> exists|
                envelope: Envelope<T>,
                a: &mut A,
                c: &mut Context<A>,
            |
                {
                    &&& *a == *old(actor)
                    &&& c@ == old(self).context()
                    &&& #[trigger] call_ensures(Envelope::<T>::dispatch::<A>, (envelope, a, c), ())
                    &&& *final(actor) == *final(a)
                    &&& final(self).phase() == verdict(final(c)@)
                    &&& taken == judged(final(c)@)
                    &&& final(self).context() == settled(final(c)@)
                }),
    {
        match mailbox.poll_next(cx) {
            Poll::Pending => Poll::Pending,
            Poll::Ready(next) => Poll::Ready(self.deliver(actor, next)),
        }
    }

    /// Runs the stop hook of the actor, which gives the terminal value or
    /// fails the actor. It runs once: afterwards the actor is stopped or has
    /// failed, and neither phase admits the hook again.
    ///
    /// The result and the actor are as `Actor::stopped` gives and leaves
    /// them.
    pub fn finish(&mut self, actor: &mut A) -> (r: Result<A::Stop, A::Error>)
        requires
            old(self).phase() == Phase::Stopping,
        ensures
            final(self).phase() == if r is Ok {
                Phase::Stopped
            } else {
                Phase::Failed
            },
            final(self).context() == old(self).context(),
            exists|a: &mut A|
                {
                    &&& *a == *old(actor)
                    &&& #[trigger] call_ensures(A::stopped, (a,), r)
                    &&& *final(actor) == *final(a)
                },
    {
        let r = actor.stopped();
        self.phase = match &r {
            Ok(_) => Phase::Stopped,
            Err(_) => Phase::Failed,
        };
        r
    }

    /// Feeds the actor the envelopes that are at hand, from the front and
    /// one by one, until they run out, a stop is requested or an error is
    /// propagated.
    ///
    /// There is a run `moments`, with `moments[i]` the actor and the context
    /// as the dispatch of the envelope at `i` has left them, of which all
    /// this holds:
    /// - as many envelopes have left the front of the mailbox as there are
    ///   moments, and the rest is as it was;
    /// - each of them was dispatched once, by `Envelope::dispatch`, where
    ///   the one before had left the actor, with the context as the run loop
    ///   had settled it: see [`step_begins`];
    /// - no envelope was taken after a dispatch that left an error or a stop
    ///   request, and none was left over without one: see
    ///   [`stopped_in_time`];
    /// - the result is the error that the last dispatch has left, if any,
    ///   whether or not a stop was requested too: see [`drained`]; a failure
    ///   has failed the actor, and without one the stop hook is what is left
    ///   to run;
    /// - the actor and the context are as the run has left them.
    pub fn drain<T: Dispatch<A>>(&mut self, actor: &mut A, mailbox: &mut VecDeque<Envelope<T>>) -> (r:
        Result<(), A::Error>)
        requires
            old(self).phase() == Phase::Running,
        ensures
            final(self).phase() == if r is Ok {
                Phase::Stopping
            } else {
                Phase::Failed
            },
            exists|moments: Seq<Moment<A>>|
                {
                    let start = Moment { actor: *old(actor), context: old(self).context() };
                    &&& #[trigger] stopped_in_time(moments, old(mailbox)@.len())
                    &&& final(mailbox)@ == old(mailbox)@.skip(moments.len() as int)
                    &&& forall|i: int|
                        #[trigger] is_step(moments, i) ==> exists|a: &mut A, c: &mut Context<A>|
                            {
                                &&& *a == step_begins(start, moments, i).actor
                                &&& c@ == step_begins(start, moments, i).context
                                &&& #[trigger] call_ensures(
                                    Envelope::<T>::dispatch::<A>,
                                    (old(mailbox)@[i], a, c),
                                    (),
                                )
                                &&& *final(a) == moments[i].actor
                                &&& final(c)@ == moments[i].context
                            }
                    &&& r == drained(moments)
                    &&& *final(actor) == step_begins(start, moments, moments.len() as int).actor
                    &&& final(self).context() == step_begins(
                        start,
                        moments,
                        moments.len() as int,
                    ).context
                },
    {
        let ghost start = Moment { actor: *actor, context: self.context() };
        let ghost mut moments: Seq<Moment<A>> = Seq::empty();
        while self.is_running()
            invariant
                self.phase() == Phase::Running || self.phase() == Phase::Stopping,
                start == (Moment { actor: *old(actor), context: old(self).context() }),
                moments.len() <= old(mailbox)@.len(),
                mailbox@ == old(mailbox)@.skip(moments.len() as int),
                forall|i: int|
                    #[trigger] is_step(moments, i) ==> exists|a: &mut A, c: &mut Context<A>|
                        {
                            &&& *a == step_begins(start, moments, i).actor
                            &&& c@ == step_begins(start, moments, i).context
                            &&& #[trigger] call_ensures(
                                Envelope::<T>::dispatch::<A>,
                                (old(mailbox)@[i], a, c),
                                (),
                            )
                            &&& *final(a) == moments[i].actor
                            &&& final(c)@ == moments[i].context
                        },
                forall|i: int|
                    0 <= i < moments.len() - 1 ==> verdict((#[trigger] moments[i]).context)
                        == Phase::Running,
                self.phase() == Phase::Running && moments.len() > 0 ==> verdict(
                    moments.last().context,
                ) == Phase::Running,
                moments.len() > 0 ==> verdict(moments.last().context) != Phase::Failed,
                self.phase() == Phase::Stopping && moments.len() < old(mailbox)@.len() ==> {
                    &&& moments.len() > 0
                    &&& verdict(moments.last().context) == Phase::Stopping
                },
                *actor == step_begins(start, moments, moments.len() as int).actor,
                self.context() == step_begins(start, moments, moments.len() as int).context,
            decreases mailbox@.len() + if self.phase() == Phase::Running { 1nat } else { 0nat },
        {
            let ghost before = moments;
            let ghost actor_before = *actor;
            let ghost context_before = self.context();
            let next = mailbox.pop_front();
            let ghost taken = next;
            let r = self.deliver(actor, next);
            proof {
                if taken is Some {
                    let (a, c) = choose|a: &mut A, c: &mut Context<A>|
                        {
                            &&& *a == actor_before
                            &&& c@ == context_before
                            &&& #[trigger] call_ensures(
                                Envelope::<T>::dispatch::<A>,
                                (taken->0, a, c),
                                (),
                            )
                            &&& *actor == *final(a)
                            &&& self.phase() == verdict(final(c)@)
                            &&& r == judged(final(c)@)
                            &&& self.context() == settled(final(c)@)
                        };
                    lemma_unsettled(final(c)@);
                    let after = Moment { actor: *actor, context: unsettled(self.context(), r) };
                    assert(after.context == final(c)@);
                    assert(taken->0 == old(mailbox)@[before.len() as int]);
                    lemma_run_goes_on(start, old(mailbox)@, before, after);
                    moments = before.push(after);
                    assert(moments.last() == after);
                }
            }
            match r {
                Ok(()) => {},
                Err(err) => {
                    proof {
                        assert(stopped_in_time(moments, old(mailbox)@.len()));
                    }
                    return Err(err);
                },
            }
        }
        proof {
            assert(stopped_in_time(moments, old(mailbox)@.len()));
        }
        Ok(())
    }
}

/// Runs an actor until it receives a stop signal or an error occurs, or the
/// envelopes at hand run out.
///
/// The start hook runs first, once, on the actor as it is and on a fresh
/// context.
/// - Where the hook fails, its error is the result, the mailbox is as it
///   was, and the actor is as the hook has left it: nothing was dispatched,
///   and the stop hook has not run.
/// - Else the loop runs where the hook has left the actor and the context,
///   and there is a run `moments` of which all holds that
///   [`Runner::drain`] says: the envelopes are dispatched from the front,
///   each once and each where the one before had left off; none is taken
///   after a stop request or an error, and none is left over without one.
/// - Where the last dispatch has left an error, that error is the result,
///   whether or not a stop was requested too, and the actor is as that
///   dispatch has left it: the stop hook has not run.
/// - Else the stop hook runs, once, on the actor as the last dispatch has
///   left it. What it returns is the result, a failure too, and the actor is
///   as it has left it.
///
/// # Arguments
///
/// * `actor` - The actor to run.
/// * `mailbox` - The envelopes that the actor is to handle.
pub fn run<A, T>(actor: &mut A, mailbox: &mut VecDeque<Envelope<T>>) -> (r: Result<
    A::Stop,
    A::Error,
>) where A: Actor, T: Dispatch<A>
    ensures
        exists|a: &mut A, c: &mut Context<A>, started: Result<(), A::Error>|
            {
                let begun = Moment { actor: *final(a), context: final(c)@ };
                &&& *a == *old(actor)
                &&& !c@.stopped
                &&& c@.error is None
                &&& #[trigger] call_ensures(A::started, (a, c), started)
                &&& match started {
                    Err(err) => {
                        &&& r == Err::<A::Stop, A::Error>(err)
                        &&& final(mailbox)@ == old(mailbox)@
                        &&& *final(actor) == begun.actor
                    },
                    Ok(_) => exists|moments: Seq<Moment<A>>|
                        {
                            let end = step_begins(begun, moments, moments.len() as int);
                            &&& #[trigger] stopped_in_time(moments, old(mailbox)@.len())
                            &&& final(mailbox)@ == old(mailbox)@.skip(moments.len() as int)
                            &&& forall|i: int|
                                #[trigger] is_step(moments, i) ==> exists|
                                    a: &mut A,
                                    c: &mut Context<A>,
                                |
                                    {
                                        &&& *a == step_begins(begun, moments, i).actor
                                        &&& c@ == step_begins(begun, moments, i).context
                                        &&& #[trigger] call_ensures(
                                            Envelope::<T>::dispatch::<A>,
                                            (old(mailbox)@[i], a, c),
                                            (),
                                        )
                                        &&& *final(a) == moments[i].actor
                                        &&& final(c)@ == moments[i].context
                                    }
                            &&& match drained(moments) {
                                Err(err) => {
                                    &&& r == Err::<A::Stop, A::Error>(err)
                                    &&& *final(actor) == end.actor
                                },
                                Ok(_) => exists|s: &mut A|
                                    {
                                        &&& *s == end.actor
                                        &&& #[trigger] call_ensures(A::stopped, (s,), r)
                                        &&& *final(actor) == *final(s)
                                    },
                            }
                        },
                }
            },
{
    let mut runner = Runner::new();
    assert(mailbox@ == mailbox@.skip(0));
    match runner.start(actor) {
        Ok(()) => {},
        Err(err) => {
            return Err(err);
        },
    }
    match runner.drain(actor, mailbox) {
        Ok(()) => {},
        Err(err) => {
            return Err(err);
        },
    }
    runner.finish(actor)
}

/// A run that has gone through `before` and goes on with one more dispatch,
/// which leaves `after`, is a run through `before` and `after`: each of its
/// envelopes was dispatched where the one before had left off.
pub proof fn lemma_run_goes_on<A: Actor, T: Dispatch<A>>(
    start: Moment<A>,
    envelopes: Seq<Envelope<T>>,
    before: Seq<Moment<A>>,
    after: Moment<A>,
)
    requires
        forall|i: int|
            #[trigger] is_step(before, i) ==> exists|a: &mut A, c: &mut Context<A>|
                {
                    &&& *a == step_begins(start, before, i).actor
                    &&& c@ == step_begins(start, before, i).context
                    &&& #[trigger] call_ensures(
                        Envelope::<T>::dispatch::<A>,
                        (envelopes[i], a, c),
                        (),
                    )
                    &&& *final(a) == before[i].actor
                    &&& final(c)@ == before[i].context
                },
        exists|a: &mut A, c: &mut Context<A>|
            {
                &&& *a == step_begins(start, before, before.len() as int).actor
                &&& c@ == step_begins(start, before, before.len() as int).context
                &&& #[trigger] call_ensures(
                    Envelope::<T>::dispatch::<A>,
                    (envelopes[before.len() as int], a, c),
                    (),
                )
                &&& *final(a) == after.actor
                &&& final(c)@ == after.context
            },
    ensures
        forall|i: int|
            #[trigger] is_step(before.push(after), i) ==> exists|a: &mut A, c: &mut Context<A>|
                {
                    &&& *a == step_begins(start, before.push(after), i).actor
                    &&& c@ == step_begins(start, before.push(after), i).context
                    &&& #[trigger] call_ensures(
                        Envelope::<T>::dispatch::<A>,
                        (envelopes[i], a, c),
                        (),
                    )
                    &&& *final(a) == before.push(after)[i].actor
                    &&& final(c)@ == before.push(after)[i].context
                },
{
    let moments = before.push(after);
    assert forall|i: int| #[trigger] is_step(moments, i) implies exists|
        a: &mut A,
        c: &mut Context<A>,
    |
        {
            &&& *a == step_begins(start, moments, i).actor
            &&& c@ == step_begins(start, moments, i).context
            &&& #[trigger] call_ensures(Envelope::<T>::dispatch::<A>, (envelopes[i], a, c), ())
            &&& *final(a) == moments[i].actor
            &&& final(c)@ == moments[i].context
        } by {
        if i < before.len() {
            assert(is_step(before, i));
            assert(moments[i] == before[i]);
            assert(step_begins(start, moments, i) == step_begins(start, before, i));
        } else {
            assert(moments[i] == after);
            assert(step_begins(start, moments, i) == step_begins(
                start,
                before,
                before.len() as int,
            ));
        }
    }
}

/// Stop semantics. In a run, the dispatch that leaves a stop request or an
/// error is the last: no envelope after it is taken.
pub proof fn lemma_nothing_taken_after_a_stop<A: Actor>(
    moments: Seq<Moment<A>>,
    total: nat,
    k: int,
)
    requires
        stopped_in_time(moments, total),
        is_step(moments, k),
        moments[k].context.stopped || moments[k].context.error is Some,
    ensures
        moments.len() == k + 1,
{
    if k < moments.len() - 1 {
        assert(verdict(moments[k].context) == Phase::Running);
    }
}

/// In a run in which no dispatch leaves a stop request or an error, every
/// envelope is taken, and the run ends without a failure.
pub proof fn lemma_all_taken_unless_stopped<A: Actor>(moments: Seq<Moment<A>>, total: nat)
    requires
        stopped_in_time(moments, total),
        forall|i: int|
            #[trigger] is_step(moments, i) ==> verdict(moments[i].context) == Phase::Running,
    ensures
        moments.len() == total,
        drained(moments) is Ok,
{
    if moments.len() > 0 {
        assert(is_step(moments, moments.len() - 1));
    }
}

/// A pending error wins over a stop request: a run whose last dispatch has
/// left an error ends with that error, whether a stop was requested or not,
/// and a run ends with an error only so.
pub proof fn lemma_error_wins<A: Actor>(moments: Seq<Moment<A>>)
    ensures
        moments.len() > 0 && moments.last().context.error is Some ==> drained(moments) == Err::<
            (),
            A::Error,
        >(moments.last().context.error->0),
        drained(moments) is Err ==> moments.len() > 0 && verdict(moments.last().context)
            == Phase::Failed,
{
}

/// What the run loop makes of a context loses nothing: from the settled
/// context and the result, the context is had again as it was.
pub proof fn lemma_unsettled<E>(ctx: ContextView<E>)
    ensures
        unsettled(settled(ctx), judged(ctx)) == ctx,
{
}

/// Once a stop is requested while a message is handled, the actor takes no
/// further envelope: it leaves the running phase, for the stop hook if no
/// error is pending, and as failed if one is. A pending error always fails
/// the actor, whether a stop was requested or not.
pub proof fn lemma_stop_ends_running<E>(ctx: ContextView<E>)
    ensures
        ctx.stopped ==> verdict(ctx) != Phase::Running,
        ctx.stopped && ctx.error is None ==> verdict(ctx) == Phase::Stopping,
        ctx.error is Some ==> verdict(ctx) == Phase::Failed,
        verdict(ctx) == Phase::Running <==> !ctx.stopped && ctx.error is None,
{
}

} // verus!
