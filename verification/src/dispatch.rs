//! One call against the pool: the answer of each attempt is classified, and
//! the classification decides whether the call ends or moves to the next
//! host in rotation order.
//!
//! Nothing here sends anything. The caller posts to the host that a
//! [`Dispatch`] points at and hands what came back to [`Dispatch::record`].

use crate::error::{all_hosts_failed, Error, ErrorView, TransportFailure, TransportFailureView};
use crate::hosts::{slots_for, start_for};
use crate::json::{json_string_member, string_member};
use vstd::prelude::*;
use vstd::string::*;

verus! {

/// What came back from one attempt.
#[derive(Debug)]
pub enum Reply {
    /// The host answered: the status code and the text of the body.
    Answer { status: u16, body: String },
    /// No answer was read: the transport failed.
    Failure(TransportFailure),
}

/// The mathematical value of a [`Reply`].
pub enum ReplyView {
    Answer { status: u16, body: Seq<char> },
    Failure(TransportFailureView),
}

impl View for Reply {
    type V = ReplyView;

    open spec fn view(&self) -> ReplyView {
        match *self {
            Reply::Answer { status, body } => ReplyView::Answer { status, body: body@ },
            Reply::Failure(failure) => ReplyView::Failure(failure@),
        }
    }
}

impl DeepView for Reply {
    type V = ReplyView;

    open spec fn deep_view(&self) -> ReplyView {
        self@
    }
}

/// The classification of one attempt.
#[derive(Debug)]
pub enum Outcome {
    /// The host answered with a 2xx status; the body is the caller's to
    /// decode.
    Success(String),
    /// The attempt failed in a way that another host may not share.
    Retryable(Error),
    /// The attempt failed in a way that ends the call.
    Terminal(Error),
}

/// The mathematical value of an [`Outcome`].
pub enum OutcomeView {
    Success(Seq<char>),
    Retryable(ErrorView),
    Terminal(ErrorView),
}

impl View for Outcome {
    type V = OutcomeView;

    open spec fn view(&self) -> OutcomeView {
        match *self {
            Outcome::Success(body) => OutcomeView::Success(body@),
            Outcome::Retryable(error) => OutcomeView::Retryable(error@),
            Outcome::Terminal(error) => OutcomeView::Terminal(error@),
        }
    }
}

/// `status` is a 2xx status.
pub open spec fn is_success(status: u16) -> bool {
    200 <= status < 300
}

/// `status` is a server error (5xx) or 429, too many requests.
pub open spec fn is_retryable_status(status: u16) -> bool {
    500 <= status < 600 || status == 429
}

/// The error that stands for an answer with `status` and `body`: the message
/// is the string member `message` of the body where the body is a JSON object
/// that has one, and the body is kept as it came.
pub open spec fn api_error(status: u16, body: Seq<char>) -> ErrorView {
    ErrorView::Api { status, message: json_string_member(body, "message"@), body }
}

impl ReplyView {
    /// The classification of a reply.
    pub open spec fn outcome(self) -> OutcomeView {
        match self {
            ReplyView::Answer { status, body } => {
                if is_success(status) {
                    OutcomeView::Success(body)
                } else if is_retryable_status(status) {
                    OutcomeView::Retryable(api_error(status, body))
                } else {
                    OutcomeView::Terminal(api_error(status, body))
                }
            },
            ReplyView::Failure(failure) => {
                if failure.is_retryable() {
                    OutcomeView::Retryable(ErrorView::Http(failure))
                } else {
                    OutcomeView::Terminal(ErrorView::Http(failure))
                }
            },
        }
    }
}

/// Tells whether `status` is a 2xx status.
pub fn status_is_success(status: u16) -> (yes: bool)
    ensures
        yes == is_success(status),
{
    200 <= status && status < 300
}

/// Tells whether an answer with `status` sends the call to the next host.
pub fn status_is_retryable(status: u16) -> (yes: bool)
    ensures
        yes == is_retryable_status(status),
{
    (500 <= status && status < 600) || status == 429
}

impl Error {
    /// The error for an answer with a status outside 2xx.
    pub fn from_answer(status: u16, body: String) -> (error: Error)
        ensures
            error@ == api_error(status, body@),
    {
        let message = string_member(body.as_str(), "message");
        Error::Api { status, message, body }
    }
}

impl TransportFailure {
    /// Tells whether the failure sends the call to the next host.
    pub fn is_retryable(&self) -> (yes: bool)
        ensures
            yes == self@.is_retryable(),
    {
        self.connect || self.timeout || self.request
    }
}

impl Reply {
    /// Classifies what came back from one attempt.
    pub fn classify(self) -> (outcome: Outcome)
        ensures
            outcome@ == self@.outcome(),
    {
        match self {
            Reply::Answer { status, body } => {
                if status_is_success(status) {
                    Outcome::Success(body)
                } else if status_is_retryable(status) {
                    Outcome::Retryable(Error::from_answer(status, body))
                } else {
                    Outcome::Terminal(Error::from_answer(status, body))
                }
            },
            Reply::Failure(failure) => {
                if failure.is_retryable() {
                    Outcome::Retryable(Error::Http(failure))
                } else {
                    Outcome::Terminal(Error::Http(failure))
                }
            },
        }
    }
}

/// The state of one call: where in the pool it started, how many attempts
/// have failed, and the error of the last of them.
#[derive(Debug)]
pub struct Dispatch {
    start: usize,
    slots: usize,
    tried: usize,
    last_error: Option<Error>,
}

/// The mathematical value of a [`Dispatch`].
pub struct DispatchView {
    /// The rotation offset: the host index of the first attempt.
    pub start: nat,
    /// The number of attempts that the call may make.
    pub slots: nat,
    /// The number of attempts that have failed so far.
    pub tried: nat,
    /// The error of the last failed attempt.
    pub last_error: Option<ErrorView>,
}

/// What a call does after an attempt.
#[derive(Debug)]
pub enum Step {
    /// The attempt failed and another host is left: post to it next.
    Attempt(Dispatch),
    /// The call is over: the body of the answer, or the error of the call.
    Done(Result<String, Error>),
}

/// The mathematical value of a [`Step`].
pub enum StepView {
    Attempt(DispatchView),
    Done(Result<Seq<char>, ErrorView>),
}

impl DispatchView {
    /// A call always has an attempt ahead of it, and starts inside the pool.
    pub open spec fn wf(self) -> bool {
        self.start < self.slots && self.tried < self.slots
    }

    /// The state of a call that drew `ticket`, against a pool of `hosts`
    /// hosts.
    pub open spec fn fresh(ticket: nat, hosts: nat) -> DispatchView {
        DispatchView {
            start: start_for(ticket, hosts),
            slots: slots_for(hosts),
            tried: 0,
            last_error: None,
        }
    }

    /// The index of the host of the next attempt: the hosts are tried in
    /// rotation order from the offset.
    pub open spec fn host_index(self) -> nat {
        (self.start + self.tried) % self.slots
    }

    /// What the call does after the next attempt brought `reply`. A success
    /// and a terminal failure end it at once. A retryable failure moves it to
    /// the next host, and ends it with that failure's error when every host
    /// has been tried.
    pub open spec fn step(self, reply: ReplyView) -> StepView {
        match reply.outcome() {
            OutcomeView::Success(body) => StepView::Done(Ok(body)),
            OutcomeView::Terminal(error) => StepView::Done(Err(error)),
            OutcomeView::Retryable(error) => {
                if self.tried + 1 < self.slots {
                    StepView::Attempt(
                        DispatchView {
                            start: self.start,
                            slots: self.slots,
                            tried: self.tried + 1,
                            last_error: Some(error),
                        },
                    )
                } else {
                    StepView::Done(Err(error))
                }
            },
        }
    }

    /// What the call has come to after its next attempts brought `replies`,
    /// in this order. Replies behind the one that ends the call are those
    /// of attempts that are never made.
    pub open spec fn run(self, replies: Seq<ReplyView>) -> StepView
        decreases replies.len(),
    {
        if replies.len() == 0 {
            StepView::Attempt(self)
        } else {
            match self.step(replies[0]) {
                StepView::Attempt(next) => next.run(replies.skip(1)),
                StepView::Done(result) => StepView::Done(result),
            }
        }
    }

    /// The number of attempts that the call makes when its next attempts
    /// bring `replies`, in this order.
    pub open spec fn attempts(self, replies: Seq<ReplyView>) -> nat
        decreases replies.len(),
    {
        if replies.len() == 0 {
            0
        } else {
            match self.step(replies[0]) {
                StepView::Attempt(next) => 1 + next.attempts(replies.skip(1)),
                StepView::Done(_) => 1,
            }
        }
    }

    /// The error of a call that is given up before it is decided.
    pub open spec fn abandoned(self) -> ErrorView {
        match self.last_error {
            Some(error) => error,
            None => all_hosts_failed(),
        }
    }
}

impl View for Dispatch {
    type V = DispatchView;

    closed spec fn view(&self) -> DispatchView {
        DispatchView {
            start: self.start as nat,
            slots: self.slots as nat,
            tried: self.tried as nat,
            last_error: self.last_error.deep_view(),
        }
    }
}

impl View for Step {
    type V = StepView;

    open spec fn view(&self) -> StepView {
        match *self {
            Step::Attempt(dispatch) => StepView::Attempt(dispatch@),
            Step::Done(Ok(body)) => StepView::Done(Ok(body@)),
            Step::Done(Err(error)) => StepView::Done(Err(error@)),
        }
    }
}

impl Dispatch {
    #[verifier::type_invariant]
    spec fn inv(self) -> bool {
        self.start < self.slots && self.tried < self.slots
    }

    /// Starts a call that drew `ticket` from the cursor, against a pool of
    /// `hosts` hosts.
    pub fn begin(ticket: usize, hosts: usize) -> (dispatch: Dispatch)
        ensures
            dispatch@ == DispatchView::fresh(ticket as nat, hosts as nat),
            dispatch@.wf(),
    {
        if hosts == 0 {
            Dispatch { start: 0, slots: 1, tried: 0, last_error: None }
        } else {
            Dispatch { start: ticket % hosts, slots: hosts, tried: 0, last_error: None }
        }
    }

    /// The index of the host of the next attempt.
    pub fn host_index(&self) -> (index: usize)
        ensures
            self@.wf(),
            index == self@.host_index(),
            index < self@.slots,
    {
        proof {
            use_type_invariant(self);
        }
        let room = self.slots - self.start;
        if self.tried < room {
            let index = self.start + self.tried;
            assert(index as nat == (self.start + self.tried) as nat % (self.slots as nat))
                by (nonlinear_arith)
                requires
                    index == self.start + self.tried,
                    index < self.slots,
            ;
            index
        } else {
            let index = self.tried - room;
            assert(index as nat == (self.start + self.tried) as nat % (self.slots as nat))
                by (nonlinear_arith)
                requires
                    index + self.slots == self.start + self.tried,
                    index < self.slots,
            ;
            index
        }
    }

    /// The number of attempts that have failed so far.
    pub fn attempts_made(&self) -> (tried: usize)
        ensures
            tried == self@.tried,
    {
        self.tried
    }

    /// Takes in what the attempt at [`Dispatch::host_index`] brought, and
    /// says what the call does next.
    pub fn record(self, reply: Reply) -> (step: Step)
        ensures
            self@.wf(),
            step@ == self@.step(reply@),
            step@ matches StepView::Attempt(next) ==> next.wf(),
    {
        proof {
            use_type_invariant(&self);
        }
        match reply.classify() {
            Outcome::Success(body) => Step::Done(Ok(body)),
            Outcome::Terminal(error) => Step::Done(Err(error)),
            Outcome::Retryable(error) => {
                if self.tried + 1 < self.slots {
                    Step::Attempt(
                        Dispatch {
                            start: self.start,
                            slots: self.slots,
                            tried: self.tried + 1,
                            last_error: Some(error),
                        },
                    )
                } else {
                    Step::Done(Err(error))
                }
            },
        }
    }

    /// Plays the call through against the replies that its next attempts
    /// would bring, in this order: the step that the call has come to when it
    /// is over or the replies have run out, and the number of replies that
    /// were used.
    #[verifier::loop_isolation(false)]
    pub fn replay(self, replies: Vec<Reply>) -> (end: (Step, usize))
        ensures
            end.0@ == self@.run(replies.deep_view()),
            end.1 == self@.attempts(replies.deep_view()),
    {
        let ghost all = replies.deep_view();
        let ghost first = self@;
        let mut rest = replies;
        let mut current = self;
        let mut used: usize = 0;
        while rest.len() > 0
            invariant
                used + rest.len() <= usize::MAX,
                current@.run(rest.deep_view()) == first.run(all),
                used + current@.attempts(rest.deep_view()) == first.attempts(all),
            decreases rest.len(),
        {
            let ghost before = rest.deep_view();
            let reply = rest.remove(0);
            assert(rest.deep_view() =~= before.skip(1));
            assert(reply@ == before[0]);
            used = used + 1;
            match current.record(reply) {
                Step::Attempt(next) => {
                    current = next;
                },
                Step::Done(result) => {
                    return (Step::Done(result), used);
                },
            }
        }
        (Step::Attempt(current), used)
    }

    /// Gives the call up before it is decided: the error of the last failed
    /// attempt, or, where no attempt was made, the error that says that all
    /// hosts failed.
    pub fn abandon(self) -> (error: Error)
        ensures
            error@ == self@.abandoned(),
    {
        match self.last_error {
            Some(error) => error,
            None => Error::Api {
                status: 0,
                message: Some(String::from_str("all hosts failed")),
                body: String::new(),
            },
        }
    }
}

} // verus!
