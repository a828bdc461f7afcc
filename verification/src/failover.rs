//! The laws of retry and failover: what holds of every call, whatever the
//! hosts answer.
//!
//! Each law speaks of [`DispatchView::run`] and [`DispatchView::attempts`],
//! the values that [`crate::Dispatch::record`] and
//! [`crate::Dispatch::replay`] compute.

use crate::dispatch::{
    api_error, is_retryable_status, is_success, DispatchView, OutcomeView, ReplyView, StepView,
};
use crate::error::{DecodeFailure, Error, ErrorView, TransportFailureView};
use vstd::prelude::*;
use vstd::std_specs::convert::FromSpec;

verus! {

/// A call makes at most one attempt for each host that it has not tried yet,
/// and never more attempts than there are replies.
pub proof fn lemma_attempts_bounded(call: DispatchView, replies: Seq<ReplyView>)
    requires
        call.wf(),
    ensures
        call.attempts(replies) <= call.slots - call.tried,
        call.attempts(replies) <= replies.len(),
    decreases replies.len(),
{
    if replies.len() > 0 {
        match call.step(replies[0]) {
            StepView::Attempt(next) => {
                lemma_attempts_bounded(next, replies.skip(1));
            },
            StepView::Done(_) => {},
        }
    }
}

/// A call that is still open has made an attempt for every reply, each of
/// them failed in a retryable way, and the call remembers the error of the
/// last.
pub proof fn lemma_open_call(call: DispatchView, replies: Seq<ReplyView>)
    requires
        call.run(replies) is Attempt,
    ensures
        call.attempts(replies) == replies.len(),
        forall|i: int| 0 <= i < replies.len() ==> (#[trigger] replies[i]).outcome() is Retryable,
        call.run(replies)->Attempt_0.start == call.start,
        call.run(replies)->Attempt_0.slots == call.slots,
        call.run(replies)->Attempt_0.tried == call.tried + replies.len(),
        replies.len() > 0 ==> call.run(replies)->Attempt_0.last_error == Some(
            replies.last().outcome()->Retryable_0,
        ),
        replies.len() == 0 ==> call.run(replies)->Attempt_0 == call,
    decreases replies.len(),
{
    if replies.len() > 0 {
        let next = call.step(replies[0])->Attempt_0;
        let rest = replies.skip(1);
        lemma_open_call(next, rest);
        assert forall|i: int| 0 <= i < replies.len() implies (#[trigger] replies[i]).outcome() is Retryable by {
            if i > 0 {
                assert(replies[i] == rest[i - 1]);
            }
        }
        if rest.len() > 0 {
            assert(rest.last() == replies.last());
        }
    }
}

/// Within one call no host is tried twice: two different attempts go to two
/// different hosts.
pub proof fn lemma_attempts_hosts_differ(call: DispatchView, later: DispatchView)
    requires
        call.wf(),
        later.wf(),
        later.start == call.start,
        later.slots == call.slots,
        call.tried < later.tried,
    ensures
        call.host_index() != later.host_index(),
{
    let n = call.slots as int;
    let a = (call.start + call.tried) as int;
    let b = (later.start + later.tried) as int;
    vstd::arithmetic::div_mod::lemma_fundamental_div_mod(a, n);
    vstd::arithmetic::div_mod::lemma_fundamental_div_mod(b, n);
    if a % n == b % n {
        assert(b - a == n * (b / n - a / n)) by (nonlinear_arith)
            requires
                a == n * (a / n) + a % n,
                b == n * (b / n) + b % n,
                a % n == b % n,
        ;
        let q = b / n - a / n;
        assert(false) by (nonlinear_arith)
            requires
                0 < b - a < n,
                b - a == n * q,
        ;
    }
}

/// The first success wins: an answer with a 2xx status ends the call with its
/// body, and no further host is tried. The body is not looked at, so one that
/// the caller then fails to decode is not retried on another host either.
pub proof fn lemma_success_ends_call(
    call: DispatchView,
    status: u16,
    body: Seq<char>,
    rest: Seq<ReplyView>,
)
    requires
        is_success(status),
    ensures
        call.run(seq![ReplyView::Answer { status, body }] + rest) == StepView::Done(
            Ok::<Seq<char>, ErrorView>(body),
        ),
        call.attempts(seq![ReplyView::Answer { status, body }] + rest) == 1,
{
}

/// A decode failure is terminal: an answer with a 2xx status ends the call
/// whatever its body holds, so where the body then fails to decode no host
/// is left to try, and the failure becomes the error of the call as it is.
pub proof fn lemma_decode_failure_is_terminal(
    call: DispatchView,
    status: u16,
    body: Seq<char>,
    rest: Seq<ReplyView>,
    failure: DecodeFailure,
)
    requires
        is_success(status),
    ensures
        call.run(seq![ReplyView::Answer { status, body }] + rest) is Done,
        call.attempts(seq![ReplyView::Answer { status, body }] + rest) == 1,
        Error::from_spec(failure)@ == ErrorView::Serde(failure@),
{
}

/// An answer with a status that is neither 2xx, 5xx nor 429 ends the call
/// with the error of that answer, and no further host is tried.
pub proof fn lemma_terminal_status_ends_call(
    call: DispatchView,
    status: u16,
    body: Seq<char>,
    rest: Seq<ReplyView>,
)
    requires
        !is_success(status),
        !is_retryable_status(status),
    ensures
        call.run(seq![ReplyView::Answer { status, body }] + rest) == StepView::Done(
            Err::<Seq<char>, ErrorView>(api_error(status, body)),
        ),
        call.attempts(seq![ReplyView::Answer { status, body }] + rest) == 1,
        api_error(status, body).status_code() == status,
{
}

/// A transport failure that is neither a failure to connect, a timeout nor a
/// failure to build or send the request ends the call with that failure, and
/// no further host is tried.
pub proof fn lemma_terminal_failure_ends_call(
    call: DispatchView,
    failure: TransportFailureView,
    rest: Seq<ReplyView>,
)
    requires
        !failure.is_retryable(),
    ensures
        call.run(seq![ReplyView::Failure(failure)] + rest) == StepView::Done(
            Err::<Seq<char>, ErrorView>(ErrorView::Http(failure)),
        ),
        call.attempts(seq![ReplyView::Failure(failure)] + rest) == 1,
{
}

/// Retry on a server error: where a host answers with 5xx or 429, another
/// host is left, and that one answers with 2xx, the call returns the body of
/// the second after exactly two attempts.
pub proof fn lemma_retry_after_server_error(
    call: DispatchView,
    status: u16,
    body: Seq<char>,
    next_status: u16,
    next_body: Seq<char>,
    rest: Seq<ReplyView>,
)
    requires
        call.tried + 1 < call.slots,
        is_retryable_status(status),
        is_success(next_status),
    ensures
        call.run(
            seq![
                ReplyView::Answer { status, body },
                ReplyView::Answer { status: next_status, body: next_body },
            ] + rest,
        ) == StepView::Done(Ok::<Seq<char>, ErrorView>(next_body)),
        call.attempts(
            seq![
                ReplyView::Answer { status, body },
                ReplyView::Answer { status: next_status, body: next_body },
            ] + rest,
        ) == 2,
{
    let replies = seq![
        ReplyView::Answer { status, body },
        ReplyView::Answer { status: next_status, body: next_body },
    ] + rest;
    lemma_retry_then_success(call, replies);
}

/// Retry on a transport failure: where a host cannot be reached, times out
/// or cannot be sent the request, another host is left, and that one answers
/// with 2xx, the call returns the body of the second after exactly two
/// attempts.
pub proof fn lemma_retry_after_transport_failure(
    call: DispatchView,
    failure: TransportFailureView,
    next_status: u16,
    next_body: Seq<char>,
    rest: Seq<ReplyView>,
)
    requires
        call.tried + 1 < call.slots,
        failure.is_retryable(),
        is_success(next_status),
    ensures
        call.run(
            seq![
                ReplyView::Failure(failure),
                ReplyView::Answer { status: next_status, body: next_body },
            ] + rest,
        ) == StepView::Done(Ok::<Seq<char>, ErrorView>(next_body)),
        call.attempts(
            seq![
                ReplyView::Failure(failure),
                ReplyView::Answer { status: next_status, body: next_body },
            ] + rest,
        ) == 2,
{
    let replies = seq![
        ReplyView::Failure(failure),
        ReplyView::Answer { status: next_status, body: next_body },
    ] + rest;
    lemma_retry_then_success(call, replies);
}

/// A retryable failure followed by a success on the next host makes two
/// attempts and returns the body of the second.
proof fn lemma_retry_then_success(call: DispatchView, replies: Seq<ReplyView>)
    requires
        call.tried + 1 < call.slots,
        replies.len() >= 2,
        replies[0].outcome() is Retryable,
        replies[1].outcome() is Success,
    ensures
        call.run(replies) == StepView::Done(
            Ok::<Seq<char>, ErrorView>(replies[1].outcome()->Success_0),
        ),
        call.attempts(replies) == 2,
{
    let next = call.step(replies[0])->Attempt_0;
    assert(replies.skip(1)[0] == replies[1]);
    assert(next.run(replies.skip(1)) == StepView::Done(
        Ok::<Seq<char>, ErrorView>(replies[1].outcome()->Success_0),
    ));
    assert(next.attempts(replies.skip(1)) == 1);
}

/// Exhaustion: where every host that the call has not tried yet fails in a
/// retryable way, the call makes one attempt on each of them and fails with
/// the error of the last.
pub proof fn lemma_exhaustion(call: DispatchView, replies: Seq<ReplyView>)
    requires
        call.wf(),
        replies.len() >= call.slots - call.tried,
        forall|i: int| 0 <= i < call.slots - call.tried ==> (#[trigger] replies[i]).outcome() is Retryable,
    ensures
        call.run(replies) == StepView::Done(
            Err::<Seq<char>, ErrorView>(
                replies[call.slots - call.tried - 1].outcome()->Retryable_0,
            ),
        ),
        call.attempts(replies) == call.slots - call.tried,
    decreases call.slots - call.tried,
{
    if call.tried + 1 < call.slots {
        let next = call.step(replies[0])->Attempt_0;
        let rest = replies.skip(1);
        assert forall|i: int| 0 <= i < next.slots - next.tried implies (#[trigger] rest[i]).outcome() is Retryable by {
            assert(rest[i] == replies[i + 1]);
        }
        lemma_exhaustion(next, rest);
        assert(rest[next.slots - next.tried - 1] == replies[call.slots - call.tried - 1]);
    }
}

/// Exhaustion on server errors: where every host of the pool answers with
/// 5xx, a fresh call makes one attempt on each host and fails with the error
/// of the answer of the host that it tried last.
pub proof fn lemma_exhaustion_on_server_errors(
    ticket: nat,
    hosts: nat,
    statuses: Seq<u16>,
    bodies: Seq<Seq<char>>,
)
    requires
        hosts > 0,
        statuses.len() == hosts,
        bodies.len() == hosts,
        forall|i: int| 0 <= i < hosts ==> 500 <= #[trigger] statuses[i] < 600,
    ensures
        ({
            let call = DispatchView::fresh(ticket, hosts);
            let replies = Seq::new(
                hosts,
                |i: int| ReplyView::Answer { status: statuses[i], body: bodies[i] },
            );
            &&& call.run(replies) == StepView::Done(
                Err::<Seq<char>, ErrorView>(api_error(statuses[hosts - 1], bodies[hosts - 1])),
            )
            &&& call.attempts(replies) == hosts
        }),
{
    let call = DispatchView::fresh(ticket, hosts);
    let replies = Seq::new(
        hosts,
        |i: int| ReplyView::Answer { status: statuses[i], body: bodies[i] },
    );
    assert(ticket % hosts < hosts) by (nonlinear_arith)
        requires
            hosts > 0,
    ;
    lemma_exhaustion(call, replies);
}

/// A pool of one host: whatever ticket a call draws, it starts at the one
/// host, and whatever that host brings, the call is over after exactly one
/// attempt.
pub proof fn lemma_single_host(ticket: nat, reply: ReplyView, rest: Seq<ReplyView>)
    ensures
        DispatchView::fresh(ticket, 1).start == 0,
        DispatchView::fresh(ticket, 1).host_index() == 0,
        DispatchView::fresh(ticket, 1).step(reply) is Done,
        DispatchView::fresh(ticket, 1).attempts(seq![reply] + rest) == 1,
        DispatchView::fresh(ticket, 1).run(seq![reply] + rest) == DispatchView::fresh(
            ticket,
            1,
        ).step(reply),
{
    assert(ticket % 1 == 0) by (nonlinear_arith);
}

} // verus!
