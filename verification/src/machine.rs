//! The decisions of one issuance: which step the client is in, what it waits
//! for, and what it does next when something arrives. Nothing here performs
//! I/O; the driver turns a decision into a request.

use crate::types::StatusType;
use vstd::prelude::*;

verus! {

/// The seconds between two polls where the server names no other delay.
pub const POLL_INTERVAL: u64 = 2;

/// The polls that one polling loop may make.
pub const MAX_POLLS: u32 = 30;

/// The seconds that one polling loop may sleep in all.
pub const POLL_DEADLINE: u64 = 120;

/// The seconds before the one retry of a request that failed in transit or
/// at the server.
pub const RETRY_DELAY: u64 = 1;

/// The seconds that one HTTP request may take.
pub const REQUEST_TIMEOUT: u64 = 30;

/// The steps of an issuance, in their order.
#[derive(Clone, Copy, Debug, PartialEq, Eq, Structural)]
pub enum Step {
    Directory,
    NewAccount,
    NewOrder,
    FetchAuthorization,
    ServeChallenge,
    Poll,
    Finalize,
    PollOrder,
    Download,
}

/// What the client waits for.
#[derive(Clone, Copy, Debug, PartialEq, Eq, Structural)]
pub enum Phase {
    /// Nothing was asked for yet.
    Idle,
    /// Whether port 80 is free.
    Port,
    /// A fresh nonce; the request of the step follows.
    Nonce,
    /// The response to the request of the step.
    Response,
    /// The end of the pause before the one retry.
    RetryDelay,
    /// The responder to be listening.
    Responder,
    /// The end of the pause before the next poll.
    PollDelay,
    /// The responder to have stopped.
    Stopping,
    /// Nothing: the issuance is over.
    Finished,
}

/// The state of the decisions.
#[derive(Clone, Copy, Debug, PartialEq, Eq, Structural)]
pub struct Control {
    pub step: Step,
    pub phase: Phase,
    /// Whether the client runs the responder itself.
    pub standalone: bool,
    /// Whether a nonce is at hand that no request has used.
    pub has_nonce: bool,
    /// Whether the request of the step was retried after a transient failure.
    pub retried_transient: bool,
    /// Whether the request of the step was retried after a bad nonce.
    pub retried_nonce: bool,
    /// The polls that the polling loop has scheduled.
    pub attempts: u32,
    /// The seconds that the polling loop has taken: the pauses that it
    /// scheduled, and the time that its requests took.
    pub waited: u64,
    /// Whether the responder is listening.
    pub responder_running: bool,
    /// Whether the responder is stopped because the issuance failed.
    pub failing: bool,
}

/// Which challenge an authorization offers for HTTP validation.
#[derive(Clone, Copy, Debug, PartialEq, Eq, Structural)]
pub enum Offer {
    /// One of the type `http-01` with a usable token.
    Http01,
    /// None of the type `http-01`.
    Missing,
    /// One of the type `http-01` whose token cannot be served.
    BadToken,
}

/// What a response says, as far as the decisions depend on it.
#[derive(Clone, Copy, Debug, PartialEq, Eq, Structural)]
pub enum Answer {
    /// A status of 500 or more, or a body that could not be read.
    Transient,
    /// The problem `badNonce`.
    BadNonce,
    /// Any other problem or error status.
    Problem,
    /// A directory whose URLs are absolute `https`.
    Directory,
    /// An account with its URL.
    Account,
    /// An order, with its status, whether it names an authorization, and
    /// whether the response named the URL of the order.
    Order { status: StatusType, authorized: bool, located: bool },
    /// An authorization, with its status and the challenge it offers.
    Authorization { status: StatusType, offer: Offer },
    /// A certificate chain.
    Certificate,
    /// A success without anything of these.
    Accepted,
    /// Anything else.
    Unexpected,
}

/// What arrived, as far as the decisions depend on it.
#[derive(Clone, Copy, Debug, PartialEq, Eq, Structural)]
pub enum Seen {
    Start,
    PortAvailable,
    PortUnavailable,
    ResponderReady,
    ResponderStopped,
    Woke,
    TransportFailure,
    /// A response: whether it carried a nonce, the delay it asks for, and
    /// what it says.
    Response { nonce: bool, retry_after: Option<u64>, answer: Answer },
}

/// Why an issuance fails.
#[derive(Clone, Copy, Debug, PartialEq, Eq, Structural)]
pub enum Cause {
    /// The server reported a problem, or the request failed in transit: the
    /// error is the one that arrived.
    Reported,
    /// A response was not what the step expects.
    Incorrect,
    /// The authorization offers no HTTP challenge.
    NoHttpChallenge,
    /// Port 80 is taken.
    PortUnavailable,
    /// Polling went on beyond its attempts or its deadline.
    Timeout,
    /// The server handed out no nonce.
    NoNonce,
    /// What arrived is nothing the client was waiting for.
    OutOfTurn,
}

/// What the client does next.
#[derive(Clone, Copy, Debug, PartialEq, Eq, Structural)]
pub enum Decision {
    /// Ask whether port 80 is free.
    ProbePort,
    /// Fetch the directory.
    FetchDirectory,
    /// Fetch a fresh nonce.
    FetchNonce,
    /// Send the signed request of the step, with the nonce at hand.
    Send,
    /// Start the responder.
    StartResponder,
    /// Stop the responder: because the challenge is settled, or because
    /// the issuance fails for the given cause.
    StopResponder(Option<Cause>),
    /// Sleep for so many seconds.
    Sleep(u64),
    /// Hand out the certificate chain.
    Done,
    /// Report the failure.
    Fail(Cause),
    /// Report the failure that was kept while the responder stopped.
    FailKept,
}

/// The state before anything was asked for.
pub open spec fn initial(standalone: bool) -> Control {
    Control {
        step: Step::Directory,
        phase: Phase::Idle,
        standalone,
        has_nonce: false,
        retried_transient: false,
        retried_nonce: false,
        attempts: 0,
        waited: 0,
        responder_running: false,
        failing: false,
    }
}

/// Issues the request of the current step: the directory is fetched as it
/// is; every other request is signed, and needs a nonce first.
pub open spec fn send_next(c: Control) -> (Control, Decision) {
    if c.step == Step::Directory {
        (Control { phase: Phase::Response, ..c }, Decision::FetchDirectory)
    } else if !c.has_nonce {
        (Control { phase: Phase::Nonce, ..c }, Decision::FetchNonce)
    } else {
        (Control { phase: Phase::Response, has_nonce: false, ..c }, Decision::Send)
    }
}

/// Begins a step: its request has not been retried yet.
pub open spec fn begin_next(c: Control, step: Step) -> (Control, Decision) {
    send_next(Control { step, retried_transient: false, retried_nonce: false, ..c })
}

/// Fails: at once where no responder runs, and after the responder was
/// stopped where one does.
pub open spec fn fail_next(c: Control, cause: Cause) -> (Control, Decision) {
    if c.responder_running {
        (
            Control { phase: Phase::Stopping, failing: true, ..c },
            Decision::StopResponder(Some(cause)),
        )
    } else {
        (Control { phase: Phase::Finished, ..c }, Decision::Fail(cause))
    }
}

/// The state once so many more seconds have gone by. The count stops at
/// the largest number that it can hold.
pub open spec fn spent(c: Control, seconds: u64) -> Control {
    Control {
        waited: if c.waited + seconds > u64::MAX {
            u64::MAX
        } else {
            (c.waited + seconds) as u64
        },
        ..c
    }
}

/// The one retry after a transient failure: a pause first, and a failure
/// where the request was retried before.
pub open spec fn retry_next(c: Control) -> (Control, Decision) {
    if c.retried_transient {
        fail_next(c, Cause::Reported)
    } else {
        (
            Control { phase: Phase::RetryDelay, retried_transient: true, ..spent(c, RETRY_DELAY) },
            Decision::Sleep(RETRY_DELAY),
        )
    }
}

/// The delay before the next poll: what the server asks for, or the fixed
/// interval.
pub open spec fn poll_delay(retry_after: Option<u64>) -> u64 {
    match retry_after {
        Some(seconds) => seconds,
        None => POLL_INTERVAL,
    }
}

/// Whether one more poll after the given delay stays within the attempts
/// and, with the time that the loop has taken, within the deadline.
pub open spec fn may_poll(c: Control, delay: u64) -> bool {
    c.attempts < MAX_POLLS && c.waited + delay <= POLL_DEADLINE
}

/// Schedules the next poll of a step, or fails with a timeout.
pub open spec fn poll_next(c: Control, step: Step, retry_after: Option<u64>) -> (Control, Decision) {
    let delay = poll_delay(retry_after);
    if may_poll(c, delay) {
        (
            Control {
                step,
                phase: Phase::PollDelay,
                retried_transient: false,
                retried_nonce: false,
                attempts: (c.attempts + 1) as u32,
                waited: (c.waited + delay) as u64,
                ..c
            },
            Decision::Sleep(delay),
        )
    } else {
        fail_next(c, Cause::Timeout)
    }
}

/// Leaves the polling of the authorization: the responder is stopped before
/// anything else happens.
pub open spec fn settle_next(c: Control) -> (Control, Decision) {
    if c.responder_running {
        (Control { phase: Phase::Stopping, failing: false, ..c }, Decision::StopResponder(None))
    } else {
        begin_next(c, Step::Finalize)
    }
}

/// What a success means for the step that was waiting for it.
pub open spec fn accept_next(c: Control, retry_after: Option<u64>, answer: Answer) -> (
    Control,
    Decision,
) {
    match (c.step, answer) {
        (Step::Directory, Answer::Directory) => begin_next(c, Step::NewAccount),
        (Step::NewAccount, Answer::Account) => begin_next(c, Step::NewOrder),
        (Step::NewOrder, Answer::Order { status, authorized, located }) => {
            if !located || !(status == StatusType::Pending || status == StatusType::Ready) {
                fail_next(c, Cause::Incorrect)
            } else if !authorized {
                fail_next(c, Cause::NoHttpChallenge)
            } else {
                begin_next(c, Step::FetchAuthorization)
            }
        },
        (Step::FetchAuthorization, Answer::Authorization { status, offer }) => {
            if status == StatusType::Valid {
                begin_next(c, Step::Finalize)
            } else if status != StatusType::Pending {
                fail_next(c, Cause::Incorrect)
            } else {
                match offer {
                    Offer::Missing => fail_next(c, Cause::NoHttpChallenge),
                    Offer::BadToken => fail_next(c, Cause::Incorrect),
                    Offer::Http01 => if c.standalone {
                        (
                            Control {
                                step: Step::ServeChallenge,
                                phase: Phase::Responder,
                                retried_transient: false,
                                retried_nonce: false,
                                ..c
                            },
                            Decision::StartResponder,
                        )
                    } else {
                        begin_next(c, Step::ServeChallenge)
                    },
                }
            }
        },
        (Step::ServeChallenge, Answer::Accepted) => poll_next(
            Control { attempts: 0, waited: 0, ..c },
            Step::Poll,
            retry_after,
        ),
        (Step::Poll, Answer::Authorization { status, offer }) => {
            if status == StatusType::Valid {
                settle_next(c)
            } else if status == StatusType::Pending || status == StatusType::Processing {
                poll_next(c, Step::Poll, retry_after)
            } else {
                fail_next(c, Cause::Incorrect)
            }
        },
        (Step::Finalize, Answer::Order { status, authorized, located }) => {
            if status == StatusType::Valid {
                begin_next(c, Step::Download)
            } else if status == StatusType::Invalid {
                fail_next(c, Cause::Incorrect)
            } else {
                poll_next(Control { attempts: 0, waited: 0, ..c }, Step::PollOrder, retry_after)
            }
        },
        (Step::PollOrder, Answer::Order { status, authorized, located }) => {
            if status == StatusType::Valid {
                begin_next(c, Step::Download)
            } else if status == StatusType::Invalid {
                fail_next(c, Cause::Incorrect)
            } else {
                poll_next(c, Step::PollOrder, retry_after)
            }
        },
        (Step::Download, Answer::Certificate) => (
            Control { phase: Phase::Finished, ..c },
            Decision::Done,
        ),
        _ => fail_next(c, Cause::Incorrect),
    }
}

/// What a response means while the client waits for the response to the
/// request of the step. The client has the nonce of the response from here
/// on.
pub open spec fn response_next(c: Control, nonce: bool, retry_after: Option<u64>, answer: Answer)
    -> (Control, Decision) {
    let c = Control { has_nonce: nonce, ..c };
    match answer {
        Answer::Transient => retry_next(c),
        Answer::BadNonce => if c.retried_nonce || c.step == Step::Directory {
            fail_next(c, Cause::Reported)
        } else {
            (
                Control { phase: Phase::Nonce, retried_nonce: true, has_nonce: false, ..c },
                Decision::FetchNonce,
            )
        },
        Answer::Problem => fail_next(c, Cause::Reported),
        Answer::Unexpected => fail_next(c, Cause::Incorrect),
        _ => accept_next(c, retry_after, answer),
    }
}

/// What a response means while the client waits for a fresh nonce: with the
/// nonce, the request of the step goes out.
pub open spec fn nonce_next(c: Control, nonce: bool, answer: Answer) -> (Control, Decision) {
    let c = Control { has_nonce: nonce, ..c };
    if answer == Answer::Transient {
        retry_next(c)
    } else if nonce {
        send_next(c)
    } else {
        fail_next(c, Cause::NoNonce)
    }
}

/// The next state and the next thing to do, given the state and what
/// arrived.
pub open spec fn next(c: Control, seen: Seen) -> (Control, Decision) {
    match (c.phase, seen) {
        (Phase::Idle, Seen::Start) => if c.standalone {
            (Control { phase: Phase::Port, ..c }, Decision::ProbePort)
        } else {
            begin_next(c, Step::Directory)
        },
        (Phase::Port, Seen::PortAvailable) => begin_next(c, Step::Directory),
        (Phase::Port, Seen::PortUnavailable) => fail_next(c, Cause::PortUnavailable),
        (Phase::Responder, Seen::ResponderReady) => send_next(
            Control { responder_running: true, ..c },
        ),
        (Phase::Responder, Seen::PortUnavailable) => fail_next(c, Cause::PortUnavailable),
        (Phase::Stopping, Seen::ResponderStopped) => if c.failing {
            (
                Control { phase: Phase::Finished, responder_running: false, ..c },
                Decision::FailKept,
            )
        } else {
            begin_next(Control { responder_running: false, ..c }, Step::Finalize)
        },
        (Phase::RetryDelay, Seen::Woke) => send_next(c),
        (Phase::PollDelay, Seen::Woke) => send_next(c),
        (Phase::Nonce, Seen::Response { nonce, retry_after, answer }) => nonce_next(c, nonce, answer),
        (Phase::Nonce, Seen::TransportFailure) => retry_next(c),
        (Phase::Response, Seen::Response { nonce, retry_after, answer }) => response_next(
            c,
            nonce,
            retry_after,
            answer,
        ),
        (Phase::Response, Seen::TransportFailure) => retry_next(c),
        (Phase::Finished, _) => (c, Decision::Fail(Cause::OutOfTurn)),
        _ => fail_next(c, Cause::OutOfTurn),
    }
}

/// Whether a state is in one of the two polling loops.
pub open spec fn is_polling(c: Control) -> bool {
    (c.step == Step::Poll || c.step == Step::PollOrder) && (c.phase == Phase::PollDelay || c.phase
        == Phase::Nonce || c.phase == Phase::Response || c.phase == Phase::RetryDelay)
}

/// How far a state is from the end of its polling loop at most: the polls
/// that are left count most, then the retries that are left, then what the
/// client waits for.
pub open spec fn polling_rank(c: Control) -> nat {
    let polls = if c.attempts <= MAX_POLLS {
        MAX_POLLS - c.attempts
    } else {
        0
    };
    let transient: nat = if c.retried_transient {
        0
    } else {
        16
    };
    let nonce: nat = if c.retried_nonce {
        0
    } else {
        8
    };
    let phase: nat = match c.phase {
        Phase::PollDelay => 3,
        Phase::RetryDelay => 3,
        Phase::Nonce => 2,
        Phase::Response => 1,
        _ => 0,
    };
    (polls * 32 + transient + nonce + phase) as nat
}

/// What holds of every state that the client can be in, from the first on.
pub open spec fn consistent(c: Control) -> bool {
    let serving = c.step == Step::ServeChallenge || c.step == Step::Poll;
    &&& c.attempts <= MAX_POLLS
    &&& c.responder_running ==> c.standalone && serving
    &&& c.phase == Phase::Stopping ==> c.responder_running
    &&& c.phase == Phase::Finished ==> !c.responder_running
    &&& c.phase == Phase::Responder ==> c.step == Step::ServeChallenge && c.standalone
        && !c.responder_running
    &&& c.standalone && serving && (c.phase == Phase::Nonce || c.phase == Phase::Response
        || c.phase == Phase::RetryDelay || c.phase == Phase::PollDelay) ==> c.responder_running
    &&& c.phase == Phase::PollDelay ==> c.step == Step::Poll || c.step == Step::PollOrder
    &&& c.phase == Phase::Idle || c.phase == Phase::Port ==> c.step == Step::Directory
        && !c.retried_transient && !c.retried_nonce
    &&& c.phase == Phase::Nonce ==> c.step != Step::Directory
    &&& c.phase == Phase::Nonce ==> !c.has_nonce
}

proof fn lemma_consistent_accept(c: Control, retry_after: Option<u64>, answer: Answer)
    requires
        consistent(c),
        c.phase == Phase::Response,
    ensures
        consistent(accept_next(c, retry_after, answer).0),
        accept_next(c, retry_after, answer).0.standalone == c.standalone,
        accept_next(c, retry_after, answer).1 == Decision::Send && accept_next(
            c,
            retry_after,
            answer,
        ).0.step == Step::ServeChallenge && c.standalone ==> accept_next(
            c,
            retry_after,
            answer,
        ).0.responder_running,
        accept_next(c, retry_after, answer).1 == Decision::FetchNonce || accept_next(
            c,
            retry_after,
            answer,
        ).1 == Decision::Send ==> accept_next(c, retry_after, answer).0.step != Step::Directory,
{
    let out = accept_next(c, retry_after, answer);
    match c.step {
        Step::Directory => {
            assert(consistent(out.0));
        },
        Step::NewAccount => {
            assert(consistent(out.0));
        },
        Step::NewOrder => {
            assert(consistent(out.0));
        },
        Step::FetchAuthorization => {
            assert(consistent(out.0));
        },
        Step::ServeChallenge => {
            assert(consistent(out.0));
        },
        Step::Poll => {
            assert(consistent(out.0));
        },
        Step::Finalize => {
            assert(consistent(out.0));
        },
        Step::PollOrder => {
            assert(consistent(out.0));
        },
        Step::Download => {
            assert(consistent(out.0));
        },
    }
}

proof fn lemma_consistent_response(c: Control, nonce: bool, retry_after: Option<u64>, answer: Answer)
    requires
        consistent(c),
        c.phase == Phase::Response,
    ensures
        consistent(response_next(c, nonce, retry_after, answer).0),
        response_next(c, nonce, retry_after, answer).0.standalone == c.standalone,
        response_next(c, nonce, retry_after, answer).1 == Decision::Send && response_next(
            c,
            nonce,
            retry_after,
            answer,
        ).0.step == Step::ServeChallenge && c.standalone ==> response_next(
            c,
            nonce,
            retry_after,
            answer,
        ).0.responder_running,
        response_next(c, nonce, retry_after, answer).1 == Decision::FetchNonce || response_next(
            c,
            nonce,
            retry_after,
            answer,
        ).1 == Decision::Send ==> response_next(c, nonce, retry_after, answer).0.step
            != Step::Directory,
{
    let c1 = Control { has_nonce: nonce, ..c };
    assert(consistent(c1));
    match answer {
        Answer::Transient => {},
        Answer::BadNonce => {},
        Answer::Problem => {},
        Answer::Unexpected => {},
        _ => {
            lemma_consistent_accept(c1, retry_after, answer);
        },
    }
}

/// The first state is consistent, and every step keeps the state
/// consistent. So the responder never listens once the issuance is over, is
/// only ever running while the challenge is served and polled, and is
/// running whenever the request that asks for validation goes out of a
/// client that serves the challenge itself.
pub proof fn lemma_consistent(c: Control, seen: Seen)
    requires
        consistent(c),
    ensures
        consistent(initial(c.standalone)),
        consistent(next(c, seen).0),
        next(c, seen).0.standalone == c.standalone,
        next(c, seen).1 == Decision::Send && next(c, seen).0.step == Step::ServeChallenge
            && c.standalone ==> next(c, seen).0.responder_running,
        next(c, seen).1 == Decision::FetchNonce || next(c, seen).1 == Decision::Send ==> next(
            c,
            seen,
        ).0.step != Step::Directory,
{
    match c.phase {
        Phase::Response => {
            match seen {
                Seen::Response { nonce, retry_after, answer } => {
                    lemma_consistent_response(c, nonce, retry_after, answer);
                },
                _ => {},
            }
        },
        Phase::Idle => {},
        Phase::Port => {},
        Phase::Nonce => {},
        Phase::RetryDelay => {},
        Phase::Responder => {},
        Phase::PollDelay => {},
        Phase::Stopping => {},
        Phase::Finished => {},
    }
}

/// What a response says, if what arrived is a response.
pub open spec fn answer_in(seen: Seen) -> Option<Answer> {
    match seen {
        Seen::Response { nonce, retry_after, answer } => Some(answer),
        _ => None,
    }
}

/// Whether what arrived is a response with a nonce.
pub open spec fn brings_nonce(seen: Seen) -> bool {
    match seen {
        Seen::Response { nonce, retry_after, answer } => nonce,
        _ => false,
    }
}

/// Whether a success carries a step over into another.
pub open spec fn advances(from: Step, answer: Answer, to: Step) -> bool {
    match (from, answer) {
        (Step::Directory, Answer::Directory) => to == Step::NewAccount,
        (Step::NewAccount, Answer::Account) => to == Step::NewOrder,
        (Step::NewOrder, Answer::Order { status, authorized, located }) => authorized && located
            && to == Step::FetchAuthorization,
        (Step::FetchAuthorization, Answer::Authorization { status, offer }) => (status
            == StatusType::Valid && to == Step::Finalize) || (status == StatusType::Pending
            && offer == Offer::Http01 && to == Step::ServeChallenge),
        (Step::ServeChallenge, Answer::Accepted) => to == Step::Poll,
        (Step::Poll, Answer::Authorization { status, offer }) => status == StatusType::Valid && to
            == Step::Finalize,
        (Step::Finalize, Answer::Order { status, authorized, located }) => (status
            == StatusType::Valid && to == Step::Download) || (status != StatusType::Valid && to
            == Step::PollOrder),
        (Step::PollOrder, Answer::Order { status, authorized, located }) => status
            == StatusType::Valid && to == Step::Download,
        _ => false,
    }
}

proof fn lemma_accept_moves(c: Control, retry_after: Option<u64>, answer: Answer)
    requires
        c.phase == Phase::Response,
    ensures
        accept_next(c, retry_after, answer).0.step == c.step || advances(
            c.step,
            answer,
            accept_next(c, retry_after, answer).0.step,
        ),
        accept_next(c, retry_after, answer).0.has_nonce ==> c.has_nonce,
        accept_next(c, retry_after, answer).1 == Decision::Send ==> c.has_nonce,
        accept_next(c, retry_after, answer).1 == Decision::StartResponder ==> c.step
            == Step::FetchAuthorization && answer == (Answer::Authorization {
            status: StatusType::Pending,
            offer: Offer::Http01,
        }),
        accept_next(c, retry_after, answer).1 == Decision::Done ==> answer == Answer::Certificate,
        accept_next(c, retry_after, answer).1 != Decision::FailKept,
        accept_next(c, retry_after, answer).1 != Decision::FetchDirectory,
        accept_next(c, retry_after, answer).1 == Decision::Send ==> !accept_next(
            c,
            retry_after,
            answer,
        ).0.has_nonce,
{
    match c.step {
        Step::Directory => {},
        Step::NewAccount => {},
        Step::NewOrder => {},
        Step::FetchAuthorization => {},
        Step::ServeChallenge => {},
        Step::Poll => {},
        Step::Finalize => {},
        Step::PollOrder => {},
        Step::Download => {},
    }
}

/// How a step changes what the driver counts on. The step in progress
/// changes only with the success that carries it over, or to finalization
/// once the responder has stopped. A nonce is at hand afterwards only if
/// the response brought one, or if one was at hand and nothing arrived from
/// the server. And the decisions that need something of what arrived are
/// only taken when it arrived.
pub proof fn lemma_moves(c: Control, seen: Seen)
    requires
        consistent(c),
    ensures
        ({
            let (c2, d) = next(c, seen);
            let waiting = c.phase == Phase::Response || c.phase == Phase::Nonce;
            &&& c2.step == c.step || (c.phase == Phase::Response && answer_in(seen) is Some
                && advances(c.step, answer_in(seen)->0, c2.step)) || (c.phase == Phase::Stopping
                && c2.step == Step::Finalize)
            &&& c2.has_nonce || d == Decision::Send ==> if waiting && seen is Response {
                brings_nonce(seen)
            } else {
                c.has_nonce
            }
            &&& d == Decision::StartResponder ==> c.phase == Phase::Response && c.step
                == Step::FetchAuthorization && answer_in(seen) == Some(
                Answer::Authorization { status: StatusType::Pending, offer: Offer::Http01 },
            )
            &&& d == Decision::Done ==> c.phase == Phase::Response && answer_in(seen) == Some(
                Answer::Certificate,
            )
            &&& d == Decision::FailKept ==> c.phase == Phase::Stopping && c.failing
            &&& d == Decision::FetchDirectory ==> c2.step == Step::Directory
            &&& d == Decision::Send ==> !c2.has_nonce
        }),
{
    match c.phase {
        Phase::Response => {
            match seen {
                Seen::Response { nonce, retry_after, answer } => {
                    let c1 = Control { has_nonce: nonce, ..c };
                    lemma_accept_moves(c1, retry_after, answer);
                },
                _ => {},
            }
        },
        Phase::Idle => {},
        Phase::Port => {},
        Phase::Nonce => {},
        Phase::RetryDelay => {},
        Phase::Responder => {},
        Phase::PollDelay => {},
        Phase::Stopping => {},
        Phase::Finished => {},
    }
}

proof fn lemma_poll_ranks(c: Control, retry_after: Option<u64>)
    requires
        is_polling(c),
        c.phase == Phase::Response,
        c.attempts <= MAX_POLLS,
    ensures
        ({
            let out = poll_next(c, c.step, retry_after).0;
            &&& is_polling(out) ==> polling_rank(out) < polling_rank(c)
            &&& out.attempts <= MAX_POLLS
        }),
{
}

proof fn lemma_accept_ranks(c: Control, retry_after: Option<u64>, answer: Answer)
    requires
        is_polling(c),
        c.phase == Phase::Response,
        c.attempts <= MAX_POLLS,
    ensures
        ({
            let out = accept_next(c, retry_after, answer).0;
            &&& is_polling(out) ==> polling_rank(out) < polling_rank(c)
            &&& out.attempts <= MAX_POLLS
        }),
{
    lemma_poll_ranks(c, retry_after);
    match answer {
        Answer::Authorization { status, offer } => {},
        Answer::Order { status, authorized, located } => {},
        _ => {},
    }
}

proof fn lemma_response_ranks(c: Control, nonce: bool, retry_after: Option<u64>, answer: Answer)
    requires
        is_polling(c),
        c.phase == Phase::Response,
        c.attempts <= MAX_POLLS,
    ensures
        ({
            let out = response_next(c, nonce, retry_after, answer).0;
            &&& is_polling(out) ==> polling_rank(out) < polling_rank(c)
            &&& out.attempts <= MAX_POLLS
        }),
{
    let c1 = Control { has_nonce: nonce, ..c };
    assert(polling_rank(c1) == polling_rank(c));
    match answer {
        Answer::Transient => {},
        Answer::BadNonce => {},
        Answer::Problem => {},
        Answer::Unexpected => {},
        _ => {
            lemma_accept_ranks(c1, retry_after, answer);
        },
    }
}

/// Polling ends: every step that stays inside a polling loop brings the
/// state closer to the end of the loop, so no loop goes on for ever, and no
/// more than `MAX_POLLS` polls are scheduled.
pub proof fn lemma_polling_ends(c: Control, seen: Seen)
    requires
        is_polling(c),
        c.attempts <= MAX_POLLS,
    ensures
        is_polling(next(c, seen).0) ==> polling_rank(next(c, seen).0) < polling_rank(c),
        next(c, seen).0.attempts <= MAX_POLLS,
{
    match c.phase {
        Phase::Response => {
            match seen {
                Seen::Response { nonce, retry_after, answer } => {
                    lemma_response_ranks(c, nonce, retry_after, answer);
                },
                _ => {},
            }
        },
        Phase::Nonce => {},
        Phase::RetryDelay => {},
        Phase::PollDelay => {},
        _ => {},
    }
}

/// Whether what arrived is an answer to what the client was waiting for.
pub open spec fn in_turn(phase: Phase, seen: Seen) -> bool {
    match phase {
        Phase::Idle => seen == Seen::Start,
        Phase::Port => seen == Seen::PortAvailable || seen == Seen::PortUnavailable,
        Phase::Nonce => seen is Response || seen == Seen::TransportFailure,
        Phase::Response => seen is Response || seen == Seen::TransportFailure,
        Phase::RetryDelay => seen == Seen::Woke,
        Phase::Responder => seen == Seen::ResponderReady || seen == Seen::PortUnavailable,
        Phase::PollDelay => seen == Seen::Woke,
        Phase::Stopping => seen == Seen::ResponderStopped,
        Phase::Finished => false,
    }
}

/// How many steps are still to come, counted from the end.
pub open spec fn steps_left(step: Step) -> nat {
    match step {
        Step::Directory => 8,
        Step::NewAccount => 7,
        Step::NewOrder => 6,
        Step::FetchAuthorization => 5,
        Step::ServeChallenge => 4,
        Step::Poll => 3,
        Step::Finalize => 2,
        Step::PollOrder => 1,
        Step::Download => 0,
    }
}

/// How far a state is from the end of the issuance at most: the steps that
/// are left count most, then the polls, then the retries, then what the
/// client waits for.
pub open spec fn issuance_rank(c: Control) -> nat {
    let polls = if (c.step == Step::Poll || c.step == Step::PollOrder) && c.attempts <= MAX_POLLS {
        MAX_POLLS - c.attempts
    } else {
        0
    };
    let transient: nat = if c.retried_transient {
        0
    } else {
        16
    };
    let nonce: nat = if c.retried_nonce {
        0
    } else {
        8
    };
    let phase: nat = match c.phase {
        Phase::Idle => 7,
        Phase::Port => 6,
        Phase::Responder => 4,
        Phase::PollDelay => 3,
        Phase::RetryDelay => 3,
        Phase::Nonce => 2,
        Phase::Response => 1,
        Phase::Stopping => 0,
        Phase::Finished => 0,
    };
    (steps_left(c.step) * 2048 + polls * 32 + transient + nonce + phase) as nat
}

proof fn lemma_accept_advances(c: Control, retry_after: Option<u64>, answer: Answer)
    requires
        consistent(c),
        c.phase == Phase::Response,
    ensures
        accept_next(c, retry_after, answer).0.phase != Phase::Finished ==> issuance_rank(
            accept_next(c, retry_after, answer).0,
        ) < issuance_rank(c),
{
    match c.step {
        Step::Directory => {},
        Step::NewAccount => {},
        Step::NewOrder => {},
        Step::FetchAuthorization => {},
        Step::ServeChallenge => {},
        Step::Poll => {},
        Step::Finalize => {},
        Step::PollOrder => {},
        Step::Download => {},
    }
}

/// Every step brings the issuance closer to its end, as long as what
/// arrives answers what the client was waiting for.
pub proof fn lemma_issuance_advances(c: Control, seen: Seen)
    requires
        consistent(c),
        in_turn(c.phase, seen),
    ensures
        next(c, seen).0.phase != Phase::Finished ==> issuance_rank(next(c, seen).0)
            < issuance_rank(c),
{
    match c.phase {
        Phase::Response => {
            match seen {
                Seen::Response { nonce, retry_after, answer } => {
                    let c1 = Control { has_nonce: nonce, ..c };
                    assert(issuance_rank(c1) == issuance_rank(c));
                    match answer {
                        Answer::Transient => {},
                        Answer::BadNonce => {},
                        Answer::Problem => {},
                        Answer::Unexpected => {},
                        _ => {
                            lemma_accept_advances(c1, retry_after, answer);
                        },
                    }
                },
                _ => {},
            }
        },
        Phase::Idle => {},
        Phase::Port => {},
        Phase::Nonce => {},
        Phase::RetryDelay => {},
        Phase::Responder => {},
        Phase::PollDelay => {},
        Phase::Stopping => {},
        Phase::Finished => {},
    }
}

/// Whether a run of events keeps the issuance going: every event answers
/// what the client is waiting for, and the issuance is not over before the
/// last of them.
pub open spec fn keeps_going(c: Control, events: Seq<Seen>) -> bool
    decreases events.len(),
{
    events.len() == 0 || (in_turn(c.phase, events[0]) && (events.len() == 1 || (next(
        c,
        events[0],
    ).0.phase != Phase::Finished && keeps_going(next(c, events[0]).0, events.skip(1)))))
}

/// Every issuance ends. Whatever the server answers and however long it
/// takes, no run of events keeps the issuance going for more steps than the
/// rank of the state it starts in, which is 16415 for the first state.
pub proof fn lemma_issuance_ends(c: Control, events: Seq<Seen>)
    requires
        consistent(c),
        keeps_going(c, events),
    ensures
        events.len() <= issuance_rank(c) + 1,
        issuance_rank(initial(c.standalone)) == 16415,
    decreases events.len(),
{
    if events.len() > 1 {
        lemma_issuance_advances(c, events[0]);
        lemma_consistent(c, events[0]);
        lemma_issuance_ends(next(c, events[0]).0, events.skip(1));
    }
}

/// The decisions that a run of events leads to, one after the other.
pub open spec fn decisions(c: Control, events: Seq<Seen>) -> Seq<Decision>
    decreases events.len(),
{
    if events.len() == 0 {
        Seq::empty()
    } else {
        seq![next(c, events[0]).1] + decisions(next(c, events[0]).0, events.skip(1))
    }
}

/// A response with a nonce that asks for no delay.
pub open spec fn answered(answer: Answer) -> Seen {
    Seen::Response { nonce: true, retry_after: None, answer }
}

/// What arrives where the server conforms and validates the challenge at
/// once, and the client does not serve the challenge itself: the directory,
/// a first nonce, the account, a pending order, a pending authorization
/// with an HTTP challenge, the acceptance of the challenge, the end of the
/// pause, the valid authorization, the valid order and the certificate
/// chain.
pub open spec fn conforming_answers() -> Seq<Seen> {
    seq![
        Seen::Start,
        Seen::Response { nonce: false, retry_after: None, answer: Answer::Directory },
        answered(Answer::Accepted),
        answered(Answer::Account),
        answered(Answer::Order { status: StatusType::Pending, authorized: true, located: true }),
        answered(Answer::Authorization { status: StatusType::Pending, offer: Offer::Http01 }),
        answered(Answer::Accepted),
        Seen::Woke,
        answered(Answer::Authorization { status: StatusType::Valid, offer: Offer::Http01 }),
        answered(Answer::Order { status: StatusType::Valid, authorized: true, located: false }),
        answered(Answer::Certificate),
    ]
}

/// What arrives where the server conforms and validates the challenge at
/// once, and the client serves the challenge itself: as without a
/// responder, and the free port, the responder that listens and the
/// responder that has stopped in their places.
pub open spec fn conforming_answers_with_responder() -> Seq<Seen> {
    seq![
        Seen::Start,
        Seen::PortAvailable,
        Seen::Response { nonce: false, retry_after: None, answer: Answer::Directory },
        answered(Answer::Accepted),
        answered(Answer::Account),
        answered(Answer::Order { status: StatusType::Pending, authorized: true, located: true }),
        answered(Answer::Authorization { status: StatusType::Pending, offer: Offer::Http01 }),
        Seen::ResponderReady,
        answered(Answer::Accepted),
        Seen::Woke,
        answered(Answer::Authorization { status: StatusType::Valid, offer: Offer::Http01 }),
        Seen::ResponderStopped,
        answered(Answer::Order { status: StatusType::Valid, authorized: true, located: false }),
        answered(Answer::Certificate),
    ]
}

/// Against a server that conforms and validates the challenge at once, the
/// issuance goes through its steps and ends with the certificate chain: the
/// directory and a nonce are fetched, then the requests for the account, the
/// order, the authorization, the validation, one poll after a pause of
/// `POLL_INTERVAL` seconds, the finalization and the download go out, and
/// the chain is handed out. A client that serves the challenge itself
/// probes the port first, starts the responder before it asks for
/// validation, and stops it before it finalizes.
pub proof fn lemma_conforming_issuance_ends_in_done()
    ensures
        decisions(initial(false), conforming_answers()) == seq![
            Decision::FetchDirectory,
            Decision::FetchNonce,
            Decision::Send,
            Decision::Send,
            Decision::Send,
            Decision::Send,
            Decision::Sleep(POLL_INTERVAL),
            Decision::Send,
            Decision::Send,
            Decision::Send,
            Decision::Done,
        ],
        decisions(initial(true), conforming_answers_with_responder()) == seq![
            Decision::ProbePort,
            Decision::FetchDirectory,
            Decision::FetchNonce,
            Decision::Send,
            Decision::Send,
            Decision::Send,
            Decision::StartResponder,
            Decision::Send,
            Decision::Sleep(POLL_INTERVAL),
            Decision::Send,
            Decision::StopResponder(None),
            Decision::Send,
            Decision::Send,
            Decision::Done,
        ],
{
    reveal_with_fuel(decisions, 16);
    assert(decisions(initial(false), conforming_answers()) =~= seq![
        Decision::FetchDirectory,
        Decision::FetchNonce,
        Decision::Send,
        Decision::Send,
        Decision::Send,
        Decision::Send,
        Decision::Sleep(POLL_INTERVAL),
        Decision::Send,
        Decision::Send,
        Decision::Send,
        Decision::Done,
    ]);
    assert(decisions(initial(true), conforming_answers_with_responder()) =~= seq![
        Decision::ProbePort,
        Decision::FetchDirectory,
        Decision::FetchNonce,
        Decision::Send,
        Decision::Send,
        Decision::Send,
        Decision::StartResponder,
        Decision::Send,
        Decision::Sleep(POLL_INTERVAL),
        Decision::Send,
        Decision::StopResponder(None),
        Decision::Send,
        Decision::Send,
        Decision::Done,
    ]);
}

/// A poll is only scheduled within the deadline: where a response that the
/// client was polling for leads to a pause before the next poll, the time
/// that the loop has taken and the pause together are no more than
/// `POLL_DEADLINE` seconds, and the pause is counted.
pub proof fn lemma_polls_stay_within_the_deadline(
    c: Control,
    nonce: bool,
    retry_after: Option<u64>,
    answer: Answer,
    seconds: u64,
)
    requires
        c.step == Step::Poll || c.step == Step::PollOrder,
        c.phase == Phase::Response,
        answer != Answer::Transient,
        next(c, Seen::Response { nonce, retry_after, answer }).1 == Decision::Sleep(seconds),
    ensures
        seconds == poll_delay(retry_after),
        c.waited + seconds <= POLL_DEADLINE,
        next(c, Seen::Response { nonce, retry_after, answer }).0.waited == c.waited + seconds,
{
    let c1 = Control { has_nonce: nonce, ..c };
    match answer {
        Answer::Authorization { status, offer } => {},
        Answer::Order { status, authorized, located } => {},
        _ => {},
    }
}

/// A poll that finds the authorization valid leaves the loop towards
/// finalization, one that finds it invalid fails, and one that finds it
/// pending when no further poll is allowed fails with a timeout.
pub proof fn lemma_poll_outcomes(c: Control, nonce: bool, retry_after: Option<u64>, offer: Offer)
    requires
        c.step == Step::Poll,
        c.phase == Phase::Response,
    ensures
        ({
            let seen = Seen::Response {
                nonce,
                retry_after,
                answer: Answer::Authorization { status: StatusType::Valid, offer },
            };
            !is_polling(next(c, seen).0) && (next(c, seen).1 == Decision::StopResponder(None)
                || next(c, seen).0.step == Step::Finalize)
        }),
        ({
            let seen = Seen::Response {
                nonce,
                retry_after,
                answer: Answer::Authorization { status: StatusType::Invalid, offer },
            };
            !is_polling(next(c, seen).0) && (next(c, seen).1 == Decision::StopResponder(
                Some(Cause::Incorrect),
            ) || next(c, seen).1 == Decision::Fail(Cause::Incorrect))
        }),
        ({
            let seen = Seen::Response {
                nonce,
                retry_after,
                answer: Answer::Authorization { status: StatusType::Pending, offer },
            };
            let c1 = Control { has_nonce: nonce, ..c };
            if may_poll(c1, poll_delay(retry_after)) {
                next(c, seen).1 == Decision::Sleep(poll_delay(retry_after))
            } else {
                !is_polling(next(c, seen).0) && (next(c, seen).1 == Decision::StopResponder(
                    Some(Cause::Timeout),
                ) || next(c, seen).1 == Decision::Fail(Cause::Timeout))
            }
        }),
{
}

/// A bad nonce is answered by fetching a fresh one and sending the request
/// of the same step again, once: the first `badNonce` leads to the nonce
/// request, the fresh nonce to the request of the step, and a second
/// `badNonce` for the same request to a failure.
pub proof fn lemma_bad_nonce_recovery(c: Control, first: bool, retry_after: Option<u64>)
    requires
        c.phase == Phase::Response,
        c.step != Step::Directory,
    ensures
        ({
            let bad = Seen::Response { nonce: first, retry_after, answer: Answer::BadNonce };
            let fresh = Seen::Response { nonce: true, retry_after, answer: Answer::Accepted };
            let (c1, d1) = next(c, bad);
            let (c2, d2) = next(c1, fresh);
            let (c3, d3) = next(c2, bad);
            if c.retried_nonce {
                d1 == Decision::Fail(Cause::Reported) || d1 == Decision::StopResponder(
                    Some(Cause::Reported),
                )
            } else {
                &&& d1 == Decision::FetchNonce
                &&& c1.step == c.step
                &&& d2 == Decision::Send
                &&& c2.step == c.step
                &&& c2.phase == Phase::Response
                &&& (d3 == Decision::Fail(Cause::Reported) || d3 == Decision::StopResponder(
                    Some(Cause::Reported),
                ))
            }
        }),
{
}

/// A problem that the server reports, other than a bad nonce, ends the
/// issuance without a retry: the failure is reported at once, or as soon as
/// the responder has stopped.
pub proof fn lemma_problem_is_not_retried(c: Control, nonce: bool, retry_after: Option<u64>)
    requires
        c.phase == Phase::Response,
    ensures
        ({
            let seen = Seen::Response { nonce, retry_after, answer: Answer::Problem };
            let (c1, d1) = next(c, seen);
            if c.responder_running {
                d1 == Decision::StopResponder(Some(Cause::Reported)) && c1.failing && next(
                    c1,
                    Seen::ResponderStopped,
                ).1 == Decision::FailKept
            } else {
                d1 == Decision::Fail(Cause::Reported) && c1.phase == Phase::Finished
            }
        }),
{
}

/// A request that fails in transit or at the server is sent again once,
/// after `RETRY_DELAY` seconds, and fails the issuance the second time.
pub proof fn lemma_transient_retry(c: Control)
    requires
        c.phase == Phase::Response || c.phase == Phase::Nonce,
    ensures
        ({
            let (c1, d1) = next(c, Seen::TransportFailure);
            if c.retried_transient {
                d1 == Decision::Fail(Cause::Reported) || d1 == Decision::StopResponder(
                    Some(Cause::Reported),
                )
            } else {
                &&& d1 == Decision::Sleep(RETRY_DELAY)
                &&& c1.step == c.step
                &&& c1.retried_transient
                &&& next(c1, Seen::Woke).0.step == c.step
                &&& next(c1, Seen::Woke).1 != Decision::Sleep(RETRY_DELAY)
            }
        }),
{
}

/// An authorization without a challenge of the type `http-01` fails the
/// issuance with `NoHttpChallenge`; the responder is not started.
pub proof fn lemma_missing_http_challenge(c: Control, nonce: bool, retry_after: Option<u64>)
    requires
        consistent(c),
        c.step == Step::FetchAuthorization,
        c.phase == Phase::Response,
    ensures
        ({
            let seen = Seen::Response {
                nonce,
                retry_after,
                answer: Answer::Authorization { status: StatusType::Pending, offer: Offer::Missing },
            };
            next(c, seen).1 == Decision::Fail(Cause::NoHttpChallenge) && next(c, seen).0.phase
                == Phase::Finished
        }),
{
}

/// A client that serves the challenge itself asks for port 80 before
/// anything else, and fails with `PortUnavailable` where the port is taken:
/// no request has gone out by then.
pub proof fn lemma_port_is_probed_first(standalone: bool)
    ensures
        ({
            let (c1, d1) = next(initial(standalone), Seen::Start);
            if standalone {
                d1 == Decision::ProbePort && next(c1, Seen::PortUnavailable).1 == Decision::Fail(
                    Cause::PortUnavailable,
                ) && next(c1, Seen::PortAvailable).1 == Decision::FetchDirectory
            } else {
                d1 == Decision::FetchDirectory
            }
        }),
{
}

impl Control {
    /// The state before anything was asked for.
    pub fn new(standalone: bool) -> (c: Control)
        ensures
            c == initial(standalone),
    {
        Control {
            step: Step::Directory,
            phase: Phase::Idle,
            standalone,
            has_nonce: false,
            retried_transient: false,
            retried_nonce: false,
            attempts: 0,
            waited: 0,
            responder_running: false,
            failing: false,
        }
    }

    fn send(self) -> (out: (Control, Decision))
        ensures
            out == send_next(self),
    {
        if self.step == Step::Directory {
            (Control { phase: Phase::Response, ..self }, Decision::FetchDirectory)
        } else if !self.has_nonce {
            (Control { phase: Phase::Nonce, ..self }, Decision::FetchNonce)
        } else {
            (Control { phase: Phase::Response, has_nonce: false, ..self }, Decision::Send)
        }
    }

    fn begin(self, step: Step) -> (out: (Control, Decision))
        ensures
            out == begin_next(self, step),
    {
        (Control { step, retried_transient: false, retried_nonce: false, ..self }).send()
    }

    /// Fails: at once where no responder runs, and after the responder was
    /// stopped where one does.
    pub fn fail(self, cause: Cause) -> (out: (Control, Decision))
        ensures
            out == fail_next(self, cause),
    {
        if self.responder_running {
            (
                Control { phase: Phase::Stopping, failing: true, ..self },
                Decision::StopResponder(Some(cause)),
            )
        } else {
            (Control { phase: Phase::Finished, ..self }, Decision::Fail(cause))
        }
    }

    /// Counts so many more seconds for the polling loop.
    pub fn spend(self, seconds: u64) -> (out: Control)
        ensures
            out == spent(self, seconds),
    {
        let waited = if seconds > u64::MAX - self.waited {
            u64::MAX
        } else {
            self.waited + seconds
        };
        Control { waited, ..self }
    }

    fn retry(self) -> (out: (Control, Decision))
        ensures
            out == retry_next(self),
    {
        if self.retried_transient {
            self.fail(Cause::Reported)
        } else {
            (
                Control {
                    phase: Phase::RetryDelay,
                    retried_transient: true,
                    ..self.spend(RETRY_DELAY)
                },
                Decision::Sleep(RETRY_DELAY),
            )
        }
    }

    fn poll(self, step: Step, retry_after: Option<u64>) -> (out: (Control, Decision))
        ensures
            out == poll_next(self, step, retry_after),
    {
        let delay = match retry_after {
            Some(seconds) => seconds,
            None => POLL_INTERVAL,
        };
        if self.attempts < MAX_POLLS && delay <= POLL_DEADLINE && self.waited <= POLL_DEADLINE
            - delay {
            (
                Control {
                    step,
                    phase: Phase::PollDelay,
                    retried_transient: false,
                    retried_nonce: false,
                    attempts: self.attempts + 1,
                    waited: self.waited + delay,
                    ..self
                },
                Decision::Sleep(delay),
            )
        } else {
            self.fail(Cause::Timeout)
        }
    }

    fn settle(self) -> (out: (Control, Decision))
        ensures
            out == settle_next(self),
    {
        if self.responder_running {
            (
                Control { phase: Phase::Stopping, failing: false, ..self },
                Decision::StopResponder(None),
            )
        } else {
            self.begin(Step::Finalize)
        }
    }

    fn accept(self, retry_after: Option<u64>, answer: Answer) -> (out: (Control, Decision))
        ensures
            out == accept_next(self, retry_after, answer),
    {
        match (self.step, answer) {
            (Step::Directory, Answer::Directory) => self.begin(Step::NewAccount),
            (Step::NewAccount, Answer::Account) => self.begin(Step::NewOrder),
            (Step::NewOrder, Answer::Order { status, authorized, located }) => {
                if !located || !(status == StatusType::Pending || status == StatusType::Ready) {
                    self.fail(Cause::Incorrect)
                } else if !authorized {
                    self.fail(Cause::NoHttpChallenge)
                } else {
                    self.begin(Step::FetchAuthorization)
                }
            },
            (Step::FetchAuthorization, Answer::Authorization { status, offer }) => {
                if status == StatusType::Valid {
                    self.begin(Step::Finalize)
                } else if status != StatusType::Pending {
                    self.fail(Cause::Incorrect)
                } else {
                    match offer {
                        Offer::Missing => self.fail(Cause::NoHttpChallenge),
                        Offer::BadToken => self.fail(Cause::Incorrect),
                        Offer::Http01 => if self.standalone {
                            (
                                Control {
                                    step: Step::ServeChallenge,
                                    phase: Phase::Responder,
                                    retried_transient: false,
                                    retried_nonce: false,
                                    ..self
                                },
                                Decision::StartResponder,
                            )
                        } else {
                            self.begin(Step::ServeChallenge)
                        },
                    }
                }
            },
            (Step::ServeChallenge, Answer::Accepted) => (Control {
                attempts: 0,
                waited: 0,
                ..self
            }).poll(Step::Poll, retry_after),
            (Step::Poll, Answer::Authorization { status, .. }) => {
                if status == StatusType::Valid {
                    self.settle()
                } else if status == StatusType::Pending || status == StatusType::Processing {
                    self.poll(Step::Poll, retry_after)
                } else {
                    self.fail(Cause::Incorrect)
                }
            },
            (Step::Finalize, Answer::Order { status, .. }) => {
                if status == StatusType::Valid {
                    self.begin(Step::Download)
                } else if status == StatusType::Invalid {
                    self.fail(Cause::Incorrect)
                } else {
                    (Control { attempts: 0, waited: 0, ..self }).poll(Step::PollOrder, retry_after)
                }
            },
            (Step::PollOrder, Answer::Order { status, .. }) => {
                if status == StatusType::Valid {
                    self.begin(Step::Download)
                } else if status == StatusType::Invalid {
                    self.fail(Cause::Incorrect)
                } else {
                    self.poll(Step::PollOrder, retry_after)
                }
            },
            (Step::Download, Answer::Certificate) => (
                Control { phase: Phase::Finished, ..self },
                Decision::Done,
            ),
            _ => self.fail(Cause::Incorrect),
        }
    }

    fn response(self, nonce: bool, retry_after: Option<u64>, answer: Answer) -> (out: (
        Control,
        Decision,
    ))
        ensures
            out == response_next(self, nonce, retry_after, answer),
    {
        let c = Control { has_nonce: nonce, ..self };
        match answer {
            Answer::Transient => c.retry(),
            Answer::BadNonce => if c.retried_nonce || c.step == Step::Directory {
                c.fail(Cause::Reported)
            } else {
                (
                    Control { phase: Phase::Nonce, retried_nonce: true, has_nonce: false, ..c },
                    Decision::FetchNonce,
                )
            },
            Answer::Problem => c.fail(Cause::Reported),
            Answer::Unexpected => c.fail(Cause::Incorrect),
            _ => c.accept(retry_after, answer),
        }
    }

    fn fresh_nonce(self, nonce: bool, answer: Answer) -> (out: (Control, Decision))
        ensures
            out == nonce_next(self, nonce, answer),
    {
        let c = Control { has_nonce: nonce, ..self };
        if answer == Answer::Transient {
            c.retry()
        } else if nonce {
            c.send()
        } else {
            c.fail(Cause::NoNonce)
        }
    }

    /// Decides what to do next: the next state and the next thing to do,
    /// given what arrived.
    pub fn decide(self, seen: Seen) -> (out: (Control, Decision))
        ensures
            out == next(self, seen),
    {
        match (self.phase, seen) {
            (Phase::Idle, Seen::Start) => if self.standalone {
                (Control { phase: Phase::Port, ..self }, Decision::ProbePort)
            } else {
                self.begin(Step::Directory)
            },
            (Phase::Port, Seen::PortAvailable) => self.begin(Step::Directory),
            (Phase::Port, Seen::PortUnavailable) => self.fail(Cause::PortUnavailable),
            (Phase::Responder, Seen::ResponderReady) => (Control {
                responder_running: true,
                ..self
            }).send(),
            (Phase::Responder, Seen::PortUnavailable) => self.fail(Cause::PortUnavailable),
            (Phase::Stopping, Seen::ResponderStopped) => if self.failing {
                (
                    Control { phase: Phase::Finished, responder_running: false, ..self },
                    Decision::FailKept,
                )
            } else {
                (Control { responder_running: false, ..self }).begin(Step::Finalize)
            },
            (Phase::RetryDelay, Seen::Woke) => self.send(),
            (Phase::PollDelay, Seen::Woke) => self.send(),
            (Phase::Nonce, Seen::Response { nonce, answer, .. }) => self.fresh_nonce(nonce, answer),
            (Phase::Nonce, Seen::TransportFailure) => self.retry(),
            (Phase::Response, Seen::Response { nonce, retry_after, answer }) => self.response(
                nonce,
                retry_after,
                answer,
            ),
            (Phase::Response, Seen::TransportFailure) => self.retry(),
            (Phase::Finished, _) => (self, Decision::Fail(Cause::OutOfTurn)),
            _ => self.fail(Cause::OutOfTurn),
        }
    }
}

} // verus!
