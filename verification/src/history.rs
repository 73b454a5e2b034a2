//! What holds of every sequence of steps that a broker can take.
//!
//! A history is the sequence of inputs that a broker has been given, from
//! some starting state on. It is admissible when each input was what the
//! broker waited for when it came. Everything here is stated of the
//! broker's transition function, `BrokerState::step`, which is what
//! `Broker::step` computes.

use vstd::prelude::*;
use vstd::utf8::*;
use crate::broker::{ActionView, BrokerState, InputView, Phase};
use crate::codec::{decode_reply, request_line};
use crate::error::Failure;
use crate::event::EventView;

verus! {

/// The state after `inputs`, and what the driver was asked at each step.
pub open spec fn run<S>(start: BrokerState<S>, inputs: Seq<InputView<S>>) -> (
    BrokerState<S>,
    Seq<ActionView>,
)
    decreases inputs.len(),
{
    if inputs.len() == 0 {
        (start, Seq::empty())
    } else {
        let (before, actions) = run(start, inputs.drop_last());
        let (after, action) = before.step(inputs.last());
        (after, actions.push(action))
    }
}

/// Each of `inputs` is what the broker waited for when it came.
pub open spec fn admissible<S>(start: BrokerState<S>, inputs: Seq<InputView<S>>) -> bool
    decreases inputs.len(),
{
    inputs.len() == 0 || {
        &&& admissible(start, inputs.drop_last())
        &&& run(start, inputs.drop_last()).0.accepts(inputs.last())
    }
}

/// How many of `items` satisfy `which`.
pub open spec fn count<T>(items: Seq<T>, which: spec_fn(T) -> bool) -> nat
    decreases items.len(),
{
    if items.len() == 0 {
        0
    } else {
        count(items.drop_last(), which) + if which(items.last()) {
            1nat
        } else {
            0nat
        }
    }
}

/// The calls that were begun.
pub open spec fn begun<S>(inputs: Seq<InputView<S>>) -> nat {
    count(inputs, |i: InputView<S>| i is Begin)
}

/// The output lines that were read from the worker.
pub open spec fn lines_read<S>(inputs: Seq<InputView<S>>) -> nat {
    count(inputs, |i: InputView<S>| i matches InputView::Event(Some(EventView::OutputLine(_))))
}

/// The workers that the driver was asked to start.
pub open spec fn spawns(actions: Seq<ActionView>) -> nat {
    count(actions, |a: ActionView| a is Spawn)
}

/// The request lines that the driver was asked to write.
pub open spec fn writes(actions: Seq<ActionView>) -> nat {
    count(actions, |a: ActionView| a is Write)
}

/// The calls that ended.
pub open spec fn finished(actions: Seq<ActionView>) -> nat {
    count(actions, |a: ActionView| a is Done)
}

/// The calls that ended with the text of an output line, or with the
/// finding that the line was no text.
pub open spec fn answered(actions: Seq<ActionView>) -> nat {
    count(
        actions,
        |a: ActionView|
            a matches ActionView::Done(reply) && (reply is Ok || reply matches Err(
                Failure::Decode(_),
            )),
    )
}

/// The calls that ended because no worker could be started.
pub open spec fn failed_spawns(actions: Seq<ActionView>) -> nat {
    count(actions, |a: ActionView| a matches ActionView::Done(Err(Failure::Spawn(_))))
}

/// The calls that ended with a failure that leaves the broker without a
/// worker.
pub open spec fn losses(actions: Seq<ActionView>) -> nat {
    count(actions, |a: ActionView| a matches ActionView::Done(Err(f)) && f.loses_worker())
}

/// 1 when the next call has to start a worker, else 0.
pub open spec fn needs_worker<S>(state: BrokerState<S>) -> nat {
    if state.session is None && !(state.phase is Spawning) {
        1
    } else {
        0
    }
}

/// 1 while a call is under way, else 0.
pub open spec fn busy<S>(state: BrokerState<S>) -> nat {
    if state.phase is Idle {
        0
    } else {
        1
    }
}

/// 1 while a request line is out and its call has not ended, else 0.
pub open spec fn in_exchange<S>(state: BrokerState<S>) -> nat {
    if state.phase is Writing || state.phase is Awaiting {
        1
    } else {
        0
    }
}

/// The payload of the call that was begun last.
pub open spec fn current_request<S>(inputs: Seq<InputView<S>>) -> Seq<char>
    decreases inputs.len(),
{
    if inputs.len() == 0 {
        Seq::empty()
    } else {
        match inputs.last() {
            InputView::Begin(payload) => payload,
            _ => current_request(inputs.drop_last()),
        }
    }
}

/// The inputs by which the driver reports `events`, one after the other.
pub open spec fn reports<S>(events: Seq<EventView>) -> Seq<InputView<S>> {
    Seq::new(events.len(), |k: int| InputView::Event(Some(events[k])))
}

/// The books balance over every admissible history, whatever the state it
/// starts in:
/// - workers started, plus the one still wanting, are the one wanted at
///   the start plus the workers lost;
/// - calls begun are calls ended, plus the one under way;
/// - request lines written are exchanges ended, plus the one under way,
///   where an exchange is a call that got as far as a worker;
/// - each output line read ended a call, and no call was answered
///   otherwise.
pub proof fn lemma_ledger<S>(start: BrokerState<S>, inputs: Seq<InputView<S>>)
    requires
        start.wf(),
        admissible(start, inputs),
    ensures
        ({
            let (end, actions) = run(start, inputs);
            &&& end.wf()
            &&& actions.len() == inputs.len()
            &&& spawns(actions) + needs_worker(end) == needs_worker(start) + losses(actions)
            &&& begun(inputs) + busy(start) == finished(actions) + busy(end)
            &&& writes(actions) + failed_spawns(actions) + in_exchange(start) == finished(actions)
                + in_exchange(end)
            &&& lines_read(inputs) == answered(actions)
        }),
    decreases inputs.len(),
{
    if inputs.len() > 0 {
        lemma_ledger(start, inputs.drop_last());
        let (before, earlier) = run(start, inputs.drop_last());
        let (after, action) = before.step(inputs.last());
        let actions = run(start, inputs).1;
        assert(actions.drop_last() =~= earlier);
        assert(actions.last() == action);
    }
}

/// An admissible history is admissible up to each of its moments, and
/// what the driver was asked up to a moment is what it was asked in the
/// history that ends there.
pub proof fn lemma_prefix<S>(start: BrokerState<S>, inputs: Seq<InputView<S>>, k: int)
    requires
        0 <= k <= inputs.len(),
    ensures
        admissible(start, inputs) ==> admissible(start, inputs.take(k)),
        run(start, inputs).1.len() == inputs.len(),
        run(start, inputs.take(k)).1 == run(start, inputs).1.take(k),
    decreases inputs.len(),
{
    if k == inputs.len() {
        assert(inputs.take(k) =~= inputs);
        if inputs.len() > 0 {
            lemma_prefix(start, inputs.drop_last(), k - 1);
        }
        assert(run(start, inputs).1.take(k) =~= run(start, inputs).1);
    } else {
        lemma_prefix(start, inputs.drop_last(), k);
        assert(inputs.take(k) =~= inputs.drop_last().take(k));
        assert(run(start, inputs).1.take(k) =~= run(start, inputs.drop_last()).1.take(k));
    }
}

/// A worker is started only for a call that finds none, and a worker that
/// is held is used again.
///
/// Over an admissible history the driver is asked to start a worker once
/// for the first call, if the broker holds none, and once more for each
/// worker lost since; the last may still be wanting. So a fresh broker
/// starts nothing before its first call, and as long as no call fails in
/// a way that loses the worker, one worker serves every call.
pub proof fn lemma_spawn_only_when_needed<S>(start: BrokerState<S>, inputs: Seq<InputView<S>>)
    requires
        start.wf(),
        admissible(start, inputs),
    ensures
        ({
            let (end, actions) = run(start, inputs);
            &&& spawns(actions) + needs_worker(end) == needs_worker(start) + losses(actions)
            &&& inputs.len() == 0 ==> spawns(actions) == 0
            &&& losses(actions) == 0 ==> spawns(actions) <= 1
            &&& losses(actions) == 0 && start.session is Some ==> spawns(actions) == 0
            &&& forall|k: int|
                0 <= k < inputs.len() && #[trigger] actions[k] is Spawn ==> inputs[k] is Begin
                    && run(start, inputs.take(k)).0.session is None
        }),
{
    lemma_ledger(start, inputs);
    let actions = run(start, inputs).1;
    assert forall|k: int| 0 <= k < inputs.len() && #[trigger] actions[k] is Spawn implies inputs[k]
        is Begin && run(start, inputs.take(k)).0.session is None by {
        lemma_prefix(start, inputs, k + 1);
        let upto = inputs.take(k + 1);
        assert(upto.drop_last() =~= inputs.take(k));
        assert(upto.last() == inputs[k]);
        assert(run(start, upto).1.last() == actions[k]);
    }
}

/// Calls take the worker in turn.
///
/// At every moment of an admissible history that starts with no call under
/// way:
/// - at most one call is under way;
/// - each call that got a worker has had its request line written, once,
///   so a history of calls that all got a worker and ended has as many
///   request lines as calls;
/// - a request line is written only when the exchange before it has
///   ended, and each output line read ends the exchange it is read in:
///   between two request lines at most one output line is read.
pub proof fn lemma_one_exchange_at_a_time<S>(start: BrokerState<S>, inputs: Seq<InputView<S>>)
    requires
        start.wf(),
        start.phase is Idle,
        admissible(start, inputs),
    ensures
        forall|k: int|
            0 <= k <= inputs.len() ==> ({
                let seen = #[trigger] inputs.take(k);
                let (now, asked) = run(start, seen);
                let exchanges_ended = finished(asked) - failed_spawns(asked);
                &&& begun(seen) == finished(asked) + busy(now)
                &&& writes(asked) + failed_spawns(asked) + (if now.phase is Spawning {
                    1nat
                } else {
                    0nat
                }) == begun(seen)
                &&& exchanges_ended <= writes(asked) <= exchanges_ended + 1
                &&& lines_read(seen) == answered(asked)
                &&& lines_read(seen) <= exchanges_ended
            }),
{
    assert forall|k: int| 0 <= k <= inputs.len() implies ({
        let seen = #[trigger] inputs.take(k);
        let (now, asked) = run(start, seen);
        let exchanges_ended = finished(asked) - failed_spawns(asked);
        &&& begun(seen) == finished(asked) + busy(now)
        &&& writes(asked) + failed_spawns(asked) + (if now.phase is Spawning {
            1nat
        } else {
            0nat
        }) == begun(seen)
        &&& exchanges_ended <= writes(asked) <= exchanges_ended + 1
        &&& lines_read(seen) == answered(asked)
        &&& lines_read(seen) <= exchanges_ended
    }) by {
        lemma_prefix(start, inputs, k);
        lemma_ledger(start, inputs.take(k));
        lemma_answered_within_exchanges(run(start, inputs.take(k)).1);
    }
}

/// A call that was answered did not fail to get a worker.
proof fn lemma_answered_within_exchanges(actions: Seq<ActionView>)
    ensures
        answered(actions) + failed_spawns(actions) <= finished(actions),
    decreases actions.len(),
{
    if actions.len() > 0 {
        lemma_answered_within_exchanges(actions.drop_last());
    }
}

/// What is written to the worker is one whole request line, and it is the
/// line of the call under way: the payload of the call begun last, then
/// one newline. No line mixes the bytes of two requests.
pub proof fn lemma_whole_request_lines<S>(start: BrokerState<S>, inputs: Seq<InputView<S>>)
    requires
        start.wf(),
        start.phase is Idle,
        admissible(start, inputs),
    ensures
        ({
            let (end, actions) = run(start, inputs);
            &&& end.phase is Spawning ==> end.pending == request_line(current_request(inputs))
            &&& forall|k: int|
                0 <= k < inputs.len() ==> (#[trigger] actions[k] matches ActionView::Write(line)
                    ==> line == request_line(current_request(inputs.take(k + 1))))
        }),
    decreases inputs.len(),
{
    if inputs.len() > 0 {
        let head = inputs.drop_last();
        lemma_whole_request_lines(start, head);
        lemma_ledger(start, head);
        let (before, earlier) = run(start, head);
        let actions = run(start, inputs).1;
        assert forall|k: int| 0 <= k < inputs.len() implies (#[trigger] actions[k] matches ActionView::Write(
            line,
        ) ==> line == request_line(current_request(inputs.take(k + 1)))) by {
            if k < head.len() {
                assert(actions[k] == earlier[k]);
                assert(inputs.take(k + 1) =~= head.take(k + 1));
            } else {
                assert(inputs.take(k + 1) =~= inputs);
            }
        }
    }
}

/// Lines from the worker's error output, and events of no known kind, are
/// passed over: the broker stays as it is and asks for the next event.
pub proof fn lemma_noise_is_passed_over<S>(state: BrokerState<S>, noise: Seq<EventView>)
    requires
        state.wf(),
        state.phase is Awaiting,
        forall|k: int| 0 <= k < noise.len() ==> !(#[trigger] noise[k]).settles(),
    ensures
        admissible(state, reports::<S>(noise)),
        run(state, reports::<S>(noise)) == (state, Seq::new(noise.len(), |k: int| ActionView::Await)),
    decreases noise.len(),
{
    let inputs = reports::<S>(noise);
    if noise.len() > 0 {
        let head = noise.drop_last();
        lemma_noise_is_passed_over(state, head);
        assert(inputs.drop_last() =~= reports::<S>(head));
        assert(inputs.last() == InputView::<S>::Event(Some(noise.last())));
        assert(!noise[noise.len() - 1].settles());
        assert(run(state, inputs).1 =~= Seq::new(noise.len(), |k: int| ActionView::Await));
    } else {
        assert(run(state, inputs).1 =~= Seq::new(noise.len(), |k: int| ActionView::Await));
    }
}

/// The response is the first output line, whatever the worker says on its
/// error output before it. The worker is kept.
pub proof fn lemma_first_output_line_answers<S>(
    state: BrokerState<S>,
    noise: Seq<EventView>,
    bytes: Seq<u8>,
)
    requires
        state.wf(),
        state.phase is Awaiting,
        forall|k: int| 0 <= k < noise.len() ==> !(#[trigger] noise[k]).settles(),
    ensures
        ({
            let inputs = reports::<S>(noise.push(EventView::OutputLine(bytes)));
            let (end, actions) = run(state, inputs);
            &&& admissible(state, inputs)
            &&& end == BrokerState { phase: Phase::Idle, ..state }
            &&& actions.last() == ActionView::Done(decode_reply(bytes))
            &&& forall|k: int| 0 <= k < noise.len() ==> actions[k] == ActionView::Await
        }),
{
    let inputs = reports::<S>(noise.push(EventView::OutputLine(bytes)));
    lemma_noise_is_passed_over(state, noise);
    assert(inputs.drop_last() =~= reports::<S>(noise));
    assert(inputs.last() == InputView::<S>::Event(Some(EventView::OutputLine(bytes))));
}

/// A worker that dies, or whose output ends, before it has answered fails
/// the call under way and is dropped; the next call starts a new worker
/// and is served by that one.
pub proof fn lemma_lost_worker_is_replaced<S>(
    state: BrokerState<S>,
    noise: Seq<EventView>,
    ending: Option<EventView>,
    payload: Seq<char>,
    handle: S,
)
    requires
        state.wf(),
        state.phase is Awaiting,
        forall|k: int| 0 <= k < noise.len() ==> !(#[trigger] noise[k]).settles(),
        ending is None || ending matches Some(EventView::Terminated(_)),
    ensures
        ({
            let (lost, failure) = run(state, reports::<S>(noise)).0.observed(ending);
            let (starting, ask) = lost.begin(payload);
            let (serving, write) = starting.spawned(Ok(handle));
            &&& failure == ActionView::Done(
                Err(
                    if ending is None {
                        Failure::NoResponse
                    } else {
                        Failure::Terminated
                    },
                ),
            )
            &&& lost == BrokerState::<S>::fresh()
            &&& ask == ActionView::Spawn
            &&& serving.session == Some(handle)
            &&& serving.phase is Writing
            &&& write == ActionView::Write(request_line(payload))
        }),
{
    lemma_noise_is_passed_over(state, noise);
}

/// A worker that answers each request line with that line, less its
/// newline, gives every caller its own payload back, and is kept.
pub proof fn lemma_echo_round_trip<S>(state: BrokerState<S>, payload: Seq<char>)
    requires
        state.wf(),
        state.phase is Idle,
        state.session is Some,
    ensures
        ({
            let line = request_line(payload);
            let (writing, write) = state.begin(payload);
            let (awaiting, wait) = writing.wrote(Ok(()));
            let (end, done) = awaiting.observed(Some(EventView::OutputLine(line.drop_last())));
            &&& write == ActionView::Write(line)
            &&& wait == ActionView::Await
            &&& done == ActionView::Done(Ok(payload))
            &&& end == state
        }),
{
    assert(request_line(payload).drop_last() =~= encode_utf8(payload));
    encode_utf8_valid_utf8(payload);
    encode_utf8_decode_utf8(payload);
}

} // verus!
