//! The retry bridge: the per-turn decision rules that turn a
//! synchronous retry-on-would-block call into one cooperatively
//! scheduled unit of work.
//!
//! On each scheduling turn the operation is invoked exactly once.  A
//! ready value or a terminal error completes the unit at once; the
//! would-block signal suspends it until the readiness notifier wakes
//! the scheduler, or fails it outright when no notifier is attached.
//! The unit never assumes that a wakeup implies progress: after any
//! wakeup it simply invokes the operation again.
//!
//! The asynchronous shell owns the closure and the notifier; this
//! module holds every decision the shell takes, as functions from the
//! classified outcome of one invocation to the action of that turn,
//! together with runners over whole scripts of outcomes that state the
//! bridge's laws.

use vstd::prelude::*;

use crate::errors::{ProtoError, SftpError, StreamError, StreamErrorKind, WOULD_BLOCK_CODE};

verus! {

/// The classified outcome of one invocation of a retryable operation.
#[derive(Debug, PartialEq, Eq)]
pub enum Turn<R, E> {
    /// The call completed with a value.
    Ready(R),
    /// The transport cannot make progress yet: retry on readiness.
    Block,
    /// The call failed with a terminal error.
    Fail(E),
}

/// A terminal failure of a bridged unit of work.
#[derive(Debug, PartialEq, Eq)]
pub enum Failure<E> {
    /// The operation's own terminal error, propagated verbatim.
    Terminal(E),
    /// The operation signalled would-block but no readiness notifier
    /// is attached, so there is no way to learn when to retry.
    NotifierAbsent,
}

/// What a bridged unit of work does on one scheduling turn.
#[derive(Debug, PartialEq, Eq)]
pub enum Step<R, E> {
    /// The unit completes; it is never invoked again.
    Done(Result<R, Failure<E>>),
    /// The unit registers with the readiness notifier and yields.
    Suspend,
}

/// The state of a bridged unit after a finite number of turns.
#[derive(Debug, PartialEq, Eq)]
pub enum RunOutcome<R, E> {
    /// A turn completed the unit with this result.
    Finished(Result<R, Failure<E>>),
    /// Every turn so far suspended; the unit is still waiting.
    StillPending,
}

/// The decision of one scheduling turn: complete on a ready value or a
/// terminal error, suspend on would-block while a notifier is present,
/// and escalate would-block to a failure when none is.
pub open spec fn step_spec<R, E>(t: Turn<R, E>, notifier_present: bool) -> Step<R, E> {
    match t {
        Turn::Ready(r) => Step::Done(Ok(r)),
        Turn::Fail(e) => Step::Done(Err(Failure::Terminal(e))),
        Turn::Block => if notifier_present {
            Step::Suspend
        } else {
            Step::Done(Err(Failure::NotifierAbsent))
        },
    }
}

/// One scheduling turn of a bridged unit of work.
pub fn step<R, E>(t: Turn<R, E>, notifier_present: bool) -> (s: Step<R, E>)
    ensures
        s == step_spec(t, notifier_present),
{
    match t {
        Turn::Ready(r) => Step::Done(Ok(r)),
        Turn::Fail(e) => Step::Done(Err(Failure::Terminal(e))),
        Turn::Block => if notifier_present {
            Step::Suspend
        } else {
            Step::Done(Err(Failure::NotifierAbsent))
        },
    }
}

/// The state of a bridged unit after the whole script of classified
/// outcomes has been offered to it, one per scheduling turn: the first
/// turn whose step completes decides the result, and later turns are
/// never looked at.
pub open spec fn run_spec<R, E>(turns: Seq<Turn<R, E>>, notifier_present: bool) -> RunOutcome<
    R,
    E,
>
    decreases turns.len(),
{
    if turns.len() == 0 {
        RunOutcome::StillPending
    } else {
        match step_spec(turns[0], notifier_present) {
            Step::Done(res) => RunOutcome::Finished(res),
            Step::Suspend => run_spec(turns.drop_first(), notifier_present),
        }
    }
}

/// How many invocations of the operation a script of outcomes costs:
/// one per turn up to and including the turn that completes the unit,
/// or the whole script when every turn suspends.
pub open spec fn turns_used<R, E>(turns: Seq<Turn<R, E>>, notifier_present: bool) -> nat
    decreases turns.len(),
{
    if turns.len() == 0 {
        0
    } else {
        match step_spec(turns[0], notifier_present) {
            Step::Done(res) => 1,
            Step::Suspend => 1 + turns_used(turns.drop_first(), notifier_present),
        }
    }
}

/// Drive one bridged unit through a script of classified outcomes,
/// one outcome per scheduling turn.  Returns the unit's state and the
/// number of invocations made: the operation is invoked exactly once
/// per turn, and never again once a turn has completed the unit.
#[verifier::loop_isolation(false)]
pub fn run_script<R, E>(turns: Vec<Turn<R, E>>, notifier_present: bool) -> (r: (
    RunOutcome<R, E>,
    usize,
))
    ensures
        r.0 == run_spec(turns@, notifier_present),
        r.1 == turns_used(turns@, notifier_present),
{
    let ghost all = turns@;
    let mut rest = turns;
    let initial_len: usize = rest.len();
    let mut used: usize = 0;
    while rest.len() > 0
        invariant
            all.len() == initial_len,
            used == all.len() - rest@.len(),
            run_spec(all, notifier_present) == run_spec(rest@, notifier_present),
            turns_used(all, notifier_present) == used + turns_used(rest@, notifier_present),
        decreases rest@.len(),
    {
        let ghost before = rest@;
        let t = rest.remove(0);
        proof {
            assert(before.remove(0) =~= before.drop_first());
        }
        match step(t, notifier_present) {
            Step::Done(res) => {
                proof {
                    assert(run_spec(before, notifier_present) == RunOutcome::<R, E>::Finished(
                        res,
                    ));
                    assert(turns_used(before, notifier_present) == 1);
                }
                return (RunOutcome::Finished(res), used + 1);
            },
            Step::Suspend => {
                used = used + 1;
            },
        }
    }
    (RunOutcome::StillPending, used)
}

/// How one raw outcome of a protocol call is classified: the reserved
/// would-block code becomes the suspension signal, everything else is
/// terminal.
pub open spec fn classify_proto_spec<R>(outcome: Result<R, ProtoError>) -> Turn<R, ProtoError> {
    match outcome {
        Ok(r) => Turn::Ready(r),
        Err(e) => if e.code == WOULD_BLOCK_CODE {
            Turn::Block
        } else {
            Turn::Fail(e)
        },
    }
}

/// Classify the raw outcome of one protocol call.
pub fn classify_proto<R>(outcome: Result<R, ProtoError>) -> (t: Turn<R, ProtoError>)
    ensures
        t == classify_proto_spec(outcome),
{
    match outcome {
        Ok(r) => Turn::Ready(r),
        Err(e) => if e.is_would_block() {
            Turn::Block
        } else {
            Turn::Fail(e)
        },
    }
}

/// How one raw outcome of a streaming read, write or flush is
/// classified: the would-block kind suspends, everything else is
/// terminal.
pub open spec fn classify_stream_spec<R>(outcome: Result<R, StreamError>) -> Turn<
    R,
    StreamError,
> {
    match outcome {
        Ok(r) => Turn::Ready(r),
        Err(e) => if e.kind is WouldBlock {
            Turn::Block
        } else {
            Turn::Fail(e)
        },
    }
}

/// Classify the raw outcome of one streaming transport call.
pub fn classify_stream<R>(outcome: Result<R, StreamError>) -> (t: Turn<R, StreamError>)
    ensures
        t == classify_stream_spec(outcome),
{
    match outcome {
        Ok(r) => Turn::Ready(r),
        Err(e) => match e.kind {
            StreamErrorKind::WouldBlock => Turn::Block,
            StreamErrorKind::Other => Turn::Fail(e),
        },
    }
}

/// One scheduling turn of a bridged protocol call: classify the raw
/// outcome of the single invocation made this turn, then complete or
/// suspend.
pub fn poll_bridged<R>(outcome: Result<R, ProtoError>, notifier_present: bool) -> (s: Step<
    R,
    ProtoError,
>)
    ensures
        s == step_spec(classify_proto_spec(outcome), notifier_present),
{
    step(classify_proto(outcome), notifier_present)
}

/// Translate the terminal state of a bridged protocol call into the
/// unified error surfaced to callers: a terminal protocol error is
/// propagated verbatim, and the missing-notifier escalation becomes
/// the explicit configuration error.
pub fn finish<R>(outcome: RunOutcome<R, ProtoError>) -> (r: Result<R, SftpError>)
    requires
        outcome is Finished,
    ensures
        match outcome {
            RunOutcome::Finished(res) => match res {
                Ok(v) => r == Ok::<R, SftpError>(v),
                Err(Failure::Terminal(e)) => r == Err::<R, SftpError>(SftpError::Protocol(e)),
                Err(Failure::NotifierAbsent) => r == Err::<R, SftpError>(
                    SftpError::NotifierAbsent,
                ),
            },
            RunOutcome::StillPending => false,
        },
{
    match outcome {
        RunOutcome::Finished(res) => match res {
            Ok(v) => Ok(v),
            Err(Failure::Terminal(e)) => Err(SftpError::Protocol(e)),
            Err(Failure::NotifierAbsent) => Err(SftpError::NotifierAbsent),
        },
        RunOutcome::StillPending => unreached(),
    }
}

/// Law: a terminal protocol error — any code other than the reserved
/// would-block code — is surfaced to the caller unchanged, code and
/// message both, on the very turn it appears.
pub proof fn lemma_terminal_error_unchanged<R>(e: ProtoError, notifier_present: bool)
    requires
        e.code != WOULD_BLOCK_CODE,
    ensures
        step_spec(classify_proto_spec(Err::<R, ProtoError>(e)), notifier_present) == Step::<
            R,
            ProtoError,
        >::Done(Err(Failure::Terminal(e))),
{
}

/// The state of a bridged protocol call after a script of raw
/// outcomes, one per scheduling turn, each classified by the reserved
/// would-block code.
pub open spec fn run_proto_spec<R>(
    outcomes: Seq<Result<R, ProtoError>>,
    notifier_present: bool,
) -> RunOutcome<R, ProtoError>
    decreases outcomes.len(),
{
    if outcomes.len() == 0 {
        RunOutcome::StillPending
    } else {
        match step_spec(classify_proto_spec(outcomes[0]), notifier_present) {
            Step::Done(res) => RunOutcome::Finished(res),
            Step::Suspend => run_proto_spec(outcomes.drop_first(), notifier_present),
        }
    }
}

/// How many invocations a script of raw outcomes costs the bridged
/// protocol call.
pub open spec fn proto_turns_used<R>(
    outcomes: Seq<Result<R, ProtoError>>,
    notifier_present: bool,
) -> nat
    decreases outcomes.len(),
{
    if outcomes.len() == 0 {
        0
    } else {
        match step_spec(classify_proto_spec(outcomes[0]), notifier_present) {
            Step::Done(res) => 1,
            Step::Suspend => 1 + proto_turns_used(outcomes.drop_first(), notifier_present),
        }
    }
}

/// Drive one bridged protocol call through a script of raw outcomes,
/// one per scheduling turn: the retry future itself, over scripted
/// invocations.
#[verifier::loop_isolation(false)]
pub fn run_protocol_script<R>(outcomes: Vec<Result<R, ProtoError>>, notifier_present: bool) -> (r:
    (RunOutcome<R, ProtoError>, usize))
    ensures
        r.0 == run_proto_spec(outcomes@, notifier_present),
        r.1 == proto_turns_used(outcomes@, notifier_present),
{
    let ghost all = outcomes@;
    let mut rest = outcomes;
    let initial_len: usize = rest.len();
    let mut used: usize = 0;
    while rest.len() > 0
        invariant
            all.len() == initial_len,
            used == all.len() - rest@.len(),
            run_proto_spec(all, notifier_present) == run_proto_spec(rest@, notifier_present),
            proto_turns_used(all, notifier_present) == used + proto_turns_used(
                rest@,
                notifier_present,
            ),
        decreases rest@.len(),
    {
        let ghost before = rest@;
        let outcome = rest.remove(0);
        proof {
            assert(before.remove(0) =~= before.drop_first());
        }
        match poll_bridged(outcome, notifier_present) {
            Step::Done(res) => {
                proof {
                    assert(run_proto_spec(before, notifier_present) == RunOutcome::<
                        R,
                        ProtoError,
                    >::Finished(res));
                    assert(proto_turns_used(before, notifier_present) == 1);
                }
                return (RunOutcome::Finished(res), used + 1);
            },
            Step::Suspend => {
                used = used + 1;
            },
        }
    }
    (RunOutcome::StillPending, used)
}

/// Law: a sequence of would-block responses followed by a success
/// completes the bridged call with exactly that success value, on the
/// turn after the last would-block — invoking the operation once per
/// scheduling turn, never skipping or duplicating the final result.
pub proof fn lemma_would_blocks_then_success<R>(
    outcomes: Seq<Result<R, ProtoError>>,
    k: int,
    v: R,
)
    requires
        0 <= k < outcomes.len(),
        forall|i: int|
            0 <= i < k ==> ((#[trigger] outcomes[i]) matches Err(e) && e.code
                == WOULD_BLOCK_CODE),
        outcomes[k] == Ok::<R, ProtoError>(v),
    ensures
        run_proto_spec(outcomes, true) == RunOutcome::<R, ProtoError>::Finished(Ok(v)),
        proto_turns_used(outcomes, true) == k + 1,
    decreases k,
{
    if k == 0 {
    } else {
        assert(outcomes.drop_first()[k - 1] == outcomes[k]);
        assert(forall|i: int| 0 <= i < k - 1 ==> outcomes.drop_first()[i] == outcomes[i + 1]);
        lemma_would_blocks_then_success(outcomes.drop_first(), k - 1, v);
    }
}

/// Law: a sequence of would-block responses followed by a terminal
/// error — any code but the reserved would-block code — surfaces that
/// error unchanged to the caller.
pub proof fn lemma_would_blocks_then_terminal_error<R>(
    outcomes: Seq<Result<R, ProtoError>>,
    k: int,
    e: ProtoError,
)
    requires
        0 <= k < outcomes.len(),
        forall|i: int|
            0 <= i < k ==> ((#[trigger] outcomes[i]) matches Err(e) && e.code
                == WOULD_BLOCK_CODE),
        outcomes[k] == Err::<R, ProtoError>(e),
        e.code != WOULD_BLOCK_CODE,
    ensures
        run_proto_spec(outcomes, true) == RunOutcome::<R, ProtoError>::Finished(
            Err(Failure::Terminal(e)),
        ),
        proto_turns_used(outcomes, true) == k + 1,
    decreases k,
{
    if k == 0 {
    } else {
        assert(outcomes.drop_first()[k - 1] == outcomes[k]);
        assert(forall|i: int| 0 <= i < k - 1 ==> outcomes.drop_first()[i] == outcomes[i + 1]);
        lemma_would_blocks_then_terminal_error(outcomes.drop_first(), k - 1, e);
    }
}

/// Law: when a notifier is present, a script of would-block outcomes
/// followed by a ready value completes the unit with exactly that
/// value, on the turn after the last would-block, having invoked the
/// operation once per turn — the value is neither skipped nor
/// duplicated, and no turn beyond the deciding one is consumed.
pub proof fn lemma_blocks_then_ready_completes<R, E>(turns: Seq<Turn<R, E>>, k: int, v: R)
    requires
        0 <= k < turns.len(),
        forall|i: int| 0 <= i < k ==> turns[i] is Block,
        turns[k] == Turn::<R, E>::Ready(v),
    ensures
        run_spec(turns, true) == RunOutcome::<R, E>::Finished(Ok(v)),
        turns_used(turns, true) == k + 1,
    decreases k,
{
    if k == 0 {
    } else {
        assert(turns[0] is Block);
        assert(turns.drop_first()[k - 1] == turns[k]);
        assert(forall|i: int| 0 <= i < k - 1 ==> turns.drop_first()[i] == turns[i + 1]);
        lemma_blocks_then_ready_completes(turns.drop_first(), k - 1, v);
    }
}

/// Law: when a notifier is present, a script of would-block outcomes
/// followed by a terminal error completes the unit with exactly that
/// error, unchanged, whatever its code.  The reserved end-of-entries
/// code is no exception here: only the directory-listing loop
/// reinterprets it, never the bridge.
pub proof fn lemma_blocks_then_error_surfaced<R, E>(turns: Seq<Turn<R, E>>, k: int, e: E)
    requires
        0 <= k < turns.len(),
        forall|i: int| 0 <= i < k ==> turns[i] is Block,
        turns[k] == Turn::<R, E>::Fail(e),
    ensures
        run_spec(turns, true) == RunOutcome::<R, E>::Finished(Err(Failure::Terminal(e))),
        turns_used(turns, true) == k + 1,
    decreases k,
{
    if k == 0 {
    } else {
        assert(turns.drop_first()[k - 1] == turns[k]);
        assert(forall|i: int| 0 <= i < k - 1 ==> turns.drop_first()[i] == turns[i + 1]);
        lemma_blocks_then_error_surfaced(turns.drop_first(), k - 1, e);
    }
}

/// Law: without a notifier the unit never suspends.  Its very first
/// turn decides, and a would-block outcome is escalated to the
/// explicit configuration error rather than busy-looping.
pub proof fn lemma_no_notifier_never_suspends<R, E>(turns: Seq<Turn<R, E>>)
    requires
        turns.len() > 0,
    ensures
        turns_used(turns, false) == 1,
        turns[0] is Block ==> run_spec(turns, false) == RunOutcome::<R, E>::Finished(
            Err(Failure::NotifierAbsent),
        ),
{
}

/// How many turns of a schedule go to the first of two units.
pub open spec fn count_true(schedule: Seq<bool>) -> nat
    decreases schedule.len(),
{
    if schedule.len() == 0 {
        0
    } else {
        count_true(schedule.drop_last()) + if schedule.last() {
            1nat
        } else {
            0nat
        }
    }
}

/// How many turns of a schedule go to the second of two units.
pub open spec fn count_false(schedule: Seq<bool>) -> nat
    decreases schedule.len(),
{
    if schedule.len() == 0 {
        0
    } else {
        count_false(schedule.drop_last()) + if schedule.last() {
            0nat
        } else {
            1nat
        }
    }
}

/// Drive two independent bridged units that share one notifier, under
/// an arbitrary interleaving: each `true` in the schedule re-polls the
/// first unit, each `false` the second.  A poll of a unit that has
/// already completed, or whose script is exhausted, does nothing.
///
/// Law: interleaving cannot corrupt either unit's retry state.  Each
/// unit's result is exactly what its own script alone determines:
/// whenever a unit is granted at least as many turns as its script
/// needs, it finishes with precisely the result of running its own
/// script, and with fewer turns it is still pending.
#[verifier::loop_isolation(false)]
pub fn run_two_interleaved<R, E>(
    first: Vec<Turn<R, E>>,
    second: Vec<Turn<R, E>>,
    schedule: Vec<bool>,
    notifier_present: bool,
) -> (r: (RunOutcome<R, E>, RunOutcome<R, E>))
    ensures
        count_true(schedule@) >= turns_used(first@, notifier_present) ==> r.0 == run_spec(
            first@,
            notifier_present,
        ),
        count_true(schedule@) < turns_used(first@, notifier_present) ==> r.0
            == RunOutcome::<R, E>::StillPending,
        count_false(schedule@) >= turns_used(second@, notifier_present) ==> r.1 == run_spec(
            second@,
            notifier_present,
        ),
        count_false(schedule@) < turns_used(second@, notifier_present) ==> r.1
            == RunOutcome::<R, E>::StillPending,
{
    let ghost all_a = first@;
    let ghost all_b = second@;
    let mut rest_a = first;
    let mut rest_b = second;
    let len_a: usize = rest_a.len();
    let len_b: usize = rest_b.len();
    let mut res_a: Option<Result<R, Failure<E>>> = None;
    let mut res_b: Option<Result<R, Failure<E>>> = None;
    let mut i: usize = 0;
    while i < schedule.len()
        invariant
            i <= schedule@.len(),
            rest_a@.len() <= all_a.len() == len_a,
            rest_b@.len() <= all_b.len() == len_b,
            res_a is None ==> {
                &&& run_spec(all_a, notifier_present) == run_spec(rest_a@, notifier_present)
                &&& turns_used(all_a, notifier_present) == (all_a.len() - rest_a@.len())
                    + turns_used(rest_a@, notifier_present)
                &&& count_true(schedule@.take(i as int)) >= all_a.len() - rest_a@.len()
                &&& rest_a@.len() > 0 ==> count_true(schedule@.take(i as int)) == all_a.len()
                    - rest_a@.len()
            },
            res_a matches Some(res) ==> {
                &&& run_spec(all_a, notifier_present) == RunOutcome::<R, E>::Finished(res)
                &&& count_true(schedule@.take(i as int)) >= turns_used(all_a, notifier_present)
            },
            res_b is None ==> {
                &&& run_spec(all_b, notifier_present) == run_spec(rest_b@, notifier_present)
                &&& turns_used(all_b, notifier_present) == (all_b.len() - rest_b@.len())
                    + turns_used(rest_b@, notifier_present)
                &&& count_false(schedule@.take(i as int)) >= all_b.len() - rest_b@.len()
                &&& rest_b@.len() > 0 ==> count_false(schedule@.take(i as int)) == all_b.len()
                    - rest_b@.len()
            },
            res_b matches Some(res) ==> {
                &&& run_spec(all_b, notifier_present) == RunOutcome::<R, E>::Finished(res)
                &&& count_false(schedule@.take(i as int)) >= turns_used(all_b, notifier_present)
            },
        decreases schedule@.len() - i,
    {
        proof {
            assert(schedule@.take(i + 1).drop_last() =~= schedule@.take(i as int));
            assert(schedule@.take(i + 1).last() == schedule@[i as int]);
        }
        if schedule[i] {
            if res_a.is_none() && rest_a.len() > 0 {
                let ghost before = rest_a@;
                let t = rest_a.remove(0);
                proof {
                    assert(before.remove(0) =~= before.drop_first());
                }
                match step(t, notifier_present) {
                    Step::Done(res) => {
                        proof {
                            assert(run_spec(before, notifier_present) == RunOutcome::<
                                R,
                                E,
                            >::Finished(res));
                            assert(turns_used(before, notifier_present) == 1);
                        }
                        res_a = Some(res);
                    },
                    Step::Suspend => {
                        proof {
                            assert(turns_used(before, notifier_present) == 1 + turns_used(
                                before.drop_first(),
                                notifier_present,
                            ));
                        }
                    },
                }
            }
        } else {
            if res_b.is_none() && rest_b.len() > 0 {
                let ghost before = rest_b@;
                let t = rest_b.remove(0);
                proof {
                    assert(before.remove(0) =~= before.drop_first());
                }
                match step(t, notifier_present) {
                    Step::Done(res) => {
                        proof {
                            assert(run_spec(before, notifier_present) == RunOutcome::<
                                R,
                                E,
                            >::Finished(res));
                            assert(turns_used(before, notifier_present) == 1);
                        }
                        res_b = Some(res);
                    },
                    Step::Suspend => {
                        proof {
                            assert(turns_used(before, notifier_present) == 1 + turns_used(
                                before.drop_first(),
                                notifier_present,
                            ));
                        }
                    },
                }
            }
        }
        i = i + 1;
    }
    proof {
        assert(schedule@.take(schedule@.len() as int) =~= schedule@);
        if res_a is None && rest_a@.len() > 0 {
            assert(turns_used(rest_a@, notifier_present) >= 1);
        }
        if res_b is None && rest_b@.len() > 0 {
            assert(turns_used(rest_b@, notifier_present) >= 1);
        }
    }
    let out_a = match res_a {
        Some(res) => RunOutcome::Finished(res),
        None => RunOutcome::StillPending,
    };
    let out_b = match res_b {
        Some(res) => RunOutcome::Finished(res),
        None => RunOutcome::StillPending,
    };
    (out_a, out_b)
}

} // verus!
