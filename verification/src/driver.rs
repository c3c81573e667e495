//! The driver of one issuance. It owns the directory, the current nonce and
//! the progress of account and order, takes what arrived from the network
//! and from the responder, and hands back the next thing to do.

use crate::crypto::{
    carries_key, csr_by, same_bytes, KeyPair, KeyPairView, RsaKey, RsaKeyView,
};
use crate::error::{failure_line, problem_kind, Error};
use crate::jose::{jwk_of, key_authorization_text, KeyIdView, PayloadView};
use crate::machine::{
    answer_in, consistent, fail_next, initial, lemma_consistent, lemma_moves, next, spent, Answer,
    Cause, Control, Decision, Offer, Phase, Seen, Step,
};
use crate::types::{
    finalize_payload, first_http01, is_account_status, is_token, lemma_first_http01,
    new_account_payload, new_order_payload, order_is_consistent, pem_chain_media_type, post_as_get,
    post_request, ready_payload, Account, AccountView, Challenge, ChallengeAuthorisation,
    ChallengeView,
    Directory, DirectoryView, Order, OrderView, SignedRequest, SignedRequestView, StatusType,
    UpdatedOrder,
};
use crate::util::{jwk, Certificate, Nonce, Response};
use vstd::prelude::*;

verus! {

/// A problem document, as a server sends it with an error.
#[derive(Debug)]
pub struct Problem {
    pub problem_type: String,
    pub detail: String,
}

/// The body of a response, read as what the step expects.
#[derive(Debug)]
pub enum Body {
    /// No body that matters.
    Empty,
    Directory(Directory),
    Account(Account),
    Order(Order),
    Authorization(ChallengeAuthorisation),
    /// A certificate chain in PEM.
    Certificate(Certificate),
    Problem(Problem),
    /// A body that could not be read, with the reason.
    Unreadable(String),
}

/// What can arrive.
#[derive(Debug)]
pub enum Event {
    /// The issuance is asked for.
    Start,
    /// Port 80 is free.
    PortAvailable,
    /// Port 80 is taken.
    PortUnavailable,
    /// The responder is listening.
    ResponderReady,
    /// The responder has stopped and released its port.
    ResponderStopped,
    /// A pause is over.
    Woke,
    /// The request did not get an answer, with the reason and the whole
    /// seconds that it took.
    TransportFailure { reason: String, elapsed: u64 },
    /// The answer to the request.
    Response(Response<Body>),
}

/// What the body of a response is to be read as.
#[derive(Clone, Copy, Debug, PartialEq, Eq, Structural)]
pub enum Expect {
    Nothing,
    Directory,
    Account,
    Order,
    Authorization,
    Certificate,
    Problem,
}

/// What the body of a response is read as, given its status and what the
/// request was sent for: a problem document where the status is an error,
/// and what was expected where it is not.
pub open spec fn reading_of(expect: Expect, status: u16) -> Expect {
    if status >= 400 {
        Expect::Problem
    } else {
        expect
    }
}

impl Expect {
    /// What the body of a response with the given status is read as.
    pub fn reading(self, status: u16) -> (out: Expect)
        ensures
            out == reading_of(self, status),
    {
        if status >= 400 {
            Expect::Problem
        } else {
            self
        }
    }
}

/// The value of a decimal digit.
pub open spec fn digit_value(c: char) -> Option<nat> {
    if '0' <= c && c <= '9' {
        Some((c as nat - 48) as nat)
    } else {
        None
    }
}

/// The number that a text of decimal digits writes. A text that is empty
/// or holds anything but digits writes none.
pub open spec fn decimal(text: Seq<char>) -> Option<nat>
    decreases text.len(),
{
    if text.len() == 0 {
        None
    } else if text.len() == 1 {
        digit_value(text[0])
    } else {
        match (decimal(text.drop_last()), digit_value(text.last())) {
            (Some(n), Some(d)) => Some(n * 10 + d),
            _ => None,
        }
    }
}

/// The seconds that a `Retry-After` header asks for: the number that it
/// writes in decimal digits, if it writes one that fits. A date asks for
/// none.
pub open spec fn retry_after_of(value: Seq<char>) -> Option<u64> {
    match decimal(value) {
        Some(n) => if n <= u64::MAX {
            Some(n as u64)
        } else {
            None
        },
        None => None,
    }
}

/// The number that a text writes is no smaller than the number that any
/// beginning of the text writes, and every beginning writes one.
proof fn lemma_decimal_grows(text: Seq<char>, k: int)
    requires
        decimal(text) is Some,
        1 <= k <= text.len(),
    ensures
        decimal(text.take(k)) is Some,
        decimal(text.take(k))->0 <= decimal(text)->0,
    decreases text.len(),
{
    if k == text.len() {
        assert(text.take(k) =~= text);
    } else {
        let front = text.drop_last();
        lemma_decimal_grows(front, k);
        assert(front.take(k) =~= text.take(k));
    }
}

/// Reads the seconds that a `Retry-After` header asks for.
pub fn retry_after_seconds(value: &str) -> (out: Option<u64>)
    ensures
        out == retry_after_of(value@),
{
    let chars = crate::text::chars_of(value);
    let n = chars.len();
    if n == 0 {
        return None;
    }
    let mut total: u64 = 0;
    let mut i: usize = 0;
    while i < n
        invariant
            n == chars@.len(),
            chars@ == value@,
            0 <= i <= n,
            i > 0 ==> decimal(chars@.take(i as int)) == Some(total as nat),
            i == 0 ==> total == 0,
        decreases n - i,
    {
        let c = chars[i];
        let ghost front = chars@.take(i as int);
        let ghost more = chars@.take(i + 1);
        assert(more.drop_last() =~= front);
        assert(more.last() == c);
        if !('0' <= c && c <= '9') {
            proof {
                if decimal(chars@) is Some {
                    lemma_decimal_grows(chars@, i + 1);
                }
            }
            return None;
        }
        let digit = (c as u8 - 48) as u64;
        if total > (u64::MAX - digit) / 10 {
            proof {
                if decimal(chars@) is Some {
                    lemma_decimal_grows(chars@, i + 1);
                }
            }
            return None;
        }
        total = total * 10 + digit;
        i = i + 1;
    }
    assert(chars@.take(n as int) =~= chars@);
    Some(total)
}


/// The challenge that an authorization offers for HTTP validation.
pub open spec fn offer_of(challenges: Seq<ChallengeView>) -> Offer {
    match first_http01(challenges) {
        Some(i) => if is_token(challenges[i].token) {
            Offer::Http01
        } else {
            Offer::BadToken
        },
        None => Offer::Missing,
    }
}

/// What a response says. A status of 500 or more and a body that could not
/// be read are transient; a problem document is `badNonce` or another
/// problem; any other status than a success is unexpected; and a success is
/// what its body is.
pub open spec fn answer_of(response: Response<Body>) -> Answer {
    if response.status >= 500 {
        Answer::Transient
    } else {
        match response.body {
            Body::Unreadable(_) => Answer::Transient,
            Body::Problem(problem) => if problem_kind(problem.problem_type@) == Some(
                Error::BadNonce,
            ) {
                Answer::BadNonce
            } else {
                Answer::Problem
            },
            _ => if response.status < 200 || response.status >= 300 {
                Answer::Unexpected
            } else {
                match response.body {
                    Body::Directory(directory) => if response.status == 200 && directory.wf() {
                        Answer::Directory
                    } else {
                        Answer::Unexpected
                    },
                    Body::Account(account) => if (response.status == 200 || response.status == 201)
                        && is_account_status(account.status) && response.location is Some {
                        Answer::Account
                    } else {
                        Answer::Unexpected
                    },
                    Body::Order(order) => Answer::Order {
                        status: order@.status,
                        authorized: order@.authorizations.len() > 0,
                        located: response.location is Some,
                    },
                    Body::Authorization(authorization) => Answer::Authorization {
                        status: authorization.status,
                        offer: offer_of(authorization@.challenges),
                    },
                    Body::Certificate(_) => if response.status == 200 {
                        Answer::Certificate
                    } else {
                        Answer::Unexpected
                    },
                    _ => Answer::Accepted,
                }
            },
        }
    }
}

/// The whole seconds that went by on the request that an event answers.
pub open spec fn elapsed_in(event: Event) -> u64 {
    match event {
        Event::TransportFailure { reason, elapsed } => elapsed,
        Event::Response(response) => response.elapsed,
        _ => 0,
    }
}

/// What arrived, as far as the decisions depend on it.
pub open spec fn seen_of(event: Event) -> Seen {
    match event {
        Event::Start => Seen::Start,
        Event::PortAvailable => Seen::PortAvailable,
        Event::PortUnavailable => Seen::PortUnavailable,
        Event::ResponderReady => Seen::ResponderReady,
        Event::ResponderStopped => Seen::ResponderStopped,
        Event::Woke => Seen::Woke,
        Event::TransportFailure { reason, elapsed } => Seen::TransportFailure,
        Event::Response(response) => Seen::Response {
            nonce: response.replay_nonce is Some,
            retry_after: response.retry_after,
            answer: answer_of(response),
        },
    }
}

/// What a response says, as far as the decisions depend on it.
pub fn classify(response: &Response<Body>) -> (answer: Answer)
    ensures
        answer == answer_of(*response),
{
    if response.status >= 500 {
        return Answer::Transient;
    }
    match &response.body {
        Body::Unreadable(_) => {
            return Answer::Transient;
        },
        Body::Problem(problem) => {
            match Error::from_problem_type(problem.problem_type.as_str()) {
                Some(Error::BadNonce) => {
                    return Answer::BadNonce;
                },
                _ => {
                    return Answer::Problem;
                },
            }
        },
        _ => {},
    }
    if response.status < 200 || response.status >= 300 {
        return Answer::Unexpected;
    }
    match &response.body {
        Body::Directory(directory) => if response.status == 200 && directory.is_valid() {
            Answer::Directory
        } else {
            Answer::Unexpected
        },
        Body::Account(account) => {
            let known = match account.status {
                StatusType::Valid | StatusType::Deactivated | StatusType::Revoked => true,
                _ => false,
            };
            if (response.status == 200 || response.status == 201) && known
                && response.location.is_some() {
                Answer::Account
            } else {
                Answer::Unexpected
            }
        },
        Body::Order(order) => Answer::Order {
            status: order.status(),
            authorized: order.authorizations().len() > 0,
            located: response.location.is_some(),
        },
        Body::Authorization(authorization) => {
            let offer = match authorization.http_challenge() {
                Ok(_) => Offer::Http01,
                Err(Error::NoHttpChallengePresent) => Offer::Missing,
                Err(_) => Offer::BadToken,
            };
            Answer::Authorization { status: authorization.status, offer }
        },
        Body::Certificate(_) => if response.status == 200 {
            Answer::Certificate
        } else {
            Answer::Unexpected
        },
        _ => Answer::Accepted,
    }
}

impl Event {
    /// The whole seconds that went by on the request that the event answers.
    pub fn elapsed(&self) -> (seconds: u64)
        ensures
            seconds == elapsed_in(*self),
    {
        match self {
            Event::TransportFailure { elapsed, .. } => *elapsed,
            Event::Response(response) => response.elapsed,
            _ => 0,
        }
    }

    /// What arrived, as far as the decisions depend on it.
    pub fn seen(&self) -> (seen: Seen)
        ensures
            seen == seen_of(*self),
    {
        match self {
            Event::Start => Seen::Start,
            Event::PortAvailable => Seen::PortAvailable,
            Event::PortUnavailable => Seen::PortUnavailable,
            Event::ResponderReady => Seen::ResponderReady,
            Event::ResponderStopped => Seen::ResponderStopped,
            Event::Woke => Seen::Woke,
            Event::TransportFailure { .. } => Seen::TransportFailure,
            Event::Response(response) => Seen::Response {
                nonce: response.replay_nonce.is_some(),
                retry_after: response.retry_after,
                answer: classify(response),
            },
        }
    }
}

/// The name of a step, as a diagnostic line shows it.
pub open spec fn stage_name(step: Step) -> Seq<char> {
    match step {
        Step::Directory => "directory"@,
        Step::NewAccount => "newAccount"@,
        Step::NewOrder => "newOrder"@,
        Step::FetchAuthorization => "authorization"@,
        Step::ServeChallenge => "challenge"@,
        Step::Poll => "poll"@,
        Step::Finalize => "finalize"@,
        Step::PollOrder => "finalize"@,
        Step::Download => "download"@,
    }
}

pub struct FailureView {
    pub stage: Step,
    pub error: Error,
    pub detail: Seq<char>,
}

/// Why an issuance failed: the step that failed, the error, and the detail
/// that the server gave.
#[derive(Debug)]
pub struct Failure {
    pub stage: Step,
    pub error: Error,
    pub detail: String,
}

impl View for Failure {
    type V = FailureView;

    open spec fn view(&self) -> FailureView {
        FailureView { stage: self.stage, error: self.error, detail: self.detail@ }
    }
}

impl Failure {
    /// The line that reports the failure: the stage, the kind of the error,
    /// and the detail.
    pub fn line(&self) -> (out: String)
        ensures
            out@ == failure_line(stage_name(self.stage), self.error, self.detail@),
    {
        let stage = match self.stage {
            Step::Directory => "directory",
            Step::NewAccount => "newAccount",
            Step::NewOrder => "newOrder",
            Step::FetchAuthorization => "authorization",
            Step::ServeChallenge => "challenge",
            Step::Poll => "poll",
            Step::Finalize => "finalize",
            Step::PollOrder => "finalize",
            Step::Download => "download",
        };
        self.error.report(stage, self.detail.as_str())
    }
}

/// The error that a problem document stands for: the kind that its type
/// names, and `IncorrectResponse` where it names none.
pub open spec fn problem_error(problem_type: Seq<char>) -> Error {
    match problem_kind(problem_type) {
        Some(error) => error,
        None => Error::IncorrectResponse,
    }
}

/// The failure that a cause stands for at a step, given what arrived.
pub open spec fn failure_of(cause: Cause, stage: Step, event: Event) -> FailureView {
    match cause {
        Cause::Reported => match event {
            Event::TransportFailure { reason, elapsed } => FailureView {
                stage,
                error: Error::FromReqwestError(reason),
                detail: Seq::empty(),
            },
            Event::Response(response) => match response.body {
                Body::Problem(problem) => FailureView {
                    stage,
                    error: problem_error(problem.problem_type@),
                    detail: problem.detail@,
                },
                Body::Unreadable(reason) => FailureView {
                    stage,
                    error: Error::FromSerdeError(reason),
                    detail: Seq::empty(),
                },
                _ => FailureView { stage, error: Error::ServerInternal, detail: Seq::empty() },
            },
            _ => FailureView { stage, error: Error::IncorrectResponse, detail: Seq::empty() },
        },
        Cause::Incorrect => FailureView {
            stage,
            error: Error::IncorrectResponse,
            detail: Seq::empty(),
        },
        Cause::NoHttpChallenge => FailureView {
            stage,
            error: Error::NoHttpChallengePresent,
            detail: Seq::empty(),
        },
        Cause::PortUnavailable => FailureView {
            stage,
            error: Error::PortUnavailable,
            detail: Seq::empty(),
        },
        Cause::Timeout => FailureView {
            stage,
            error: Error::ValidationTimeout,
            detail: Seq::empty(),
        },
        Cause::NoNonce => FailureView { stage, error: Error::BadNonce, detail: Seq::empty() },
        Cause::OutOfTurn => FailureView {
            stage,
            error: Error::IncorrectResponse,
            detail: Seq::empty(),
        },
    }
}

/// Makes the failure that a cause stands for at a step, given what arrived.
pub fn failure(cause: Cause, stage: Step, event: &Event) -> (out: Failure)
    ensures
        out@ == failure_of(cause, stage, *event),
{
    let error = match cause {
        Cause::Reported => match event {
            Event::TransportFailure { reason, .. } => Error::FromReqwestError(reason.clone()),
            Event::Response(response) => match &response.body {
                Body::Problem(problem) => {
                    return Failure {
                        stage,
                        error: match Error::from_problem_type(problem.problem_type.as_str()) {
                            Some(error) => error,
                            None => Error::IncorrectResponse,
                        },
                        detail: problem.detail.clone(),
                    };
                },
                Body::Unreadable(reason) => Error::FromSerdeError(reason.clone()),
                _ => Error::ServerInternal,
            },
            _ => Error::IncorrectResponse,
        },
        Cause::Incorrect => Error::IncorrectResponse,
        Cause::NoHttpChallenge => Error::NoHttpChallengePresent,
        Cause::PortUnavailable => Error::PortUnavailable,
        Cause::Timeout => Error::ValidationTimeout,
        Cause::NoNonce => Error::BadNonce,
        Cause::OutOfTurn => Error::IncorrectResponse,
    };
    Failure { stage, error, detail: String::new() }
}

pub enum ActionView {
    ProbePort,
    Get { url: Seq<char> },
    Head { url: Seq<char> },
    Post { request: SignedRequestView, nonce: Seq<char>, expect: Expect },
    StartResponder { token: Seq<char>, key_authorization: Seq<char> },
    StopResponder,
    Sleep { seconds: u64 },
    Done { certificate_chain: Seq<char> },
    Fail(FailureView),
}

/// What the driver asks to be done next.
#[derive(Debug)]
pub enum Action {
    /// Find out whether port 80 is free, and answer with `PortAvailable` or
    /// `PortUnavailable`.
    ProbePort,
    /// Send a GET and answer with the response.
    Get { url: String },
    /// Send a HEAD and answer with the response.
    Head { url: String },
    /// Send the signed request and answer with the response, its body read
    /// as `expect` says. `nonce` is the nonce that the request has used up.
    Post { request: SignedRequest, nonce: Nonce, expect: Expect },
    /// Start the responder for the token, and answer with `ResponderReady`
    /// once it listens, or with `PortUnavailable`.
    StartResponder { token: String, key_authorization: String },
    /// Stop the responder, and answer with `ResponderStopped` once the port
    /// is released.
    StopResponder,
    /// Sleep, and answer with `Woke`.
    Sleep { seconds: u64 },
    /// The issuance is over: this is the certificate chain.
    Done { certificate_chain: Certificate },
    /// The issuance is over: it failed.
    Fail(Failure),
}

impl View for Action {
    type V = ActionView;

    open spec fn view(&self) -> ActionView {
        match self {
            Action::ProbePort => ActionView::ProbePort,
            Action::Get { url } => ActionView::Get { url: url@ },
            Action::Head { url } => ActionView::Head { url: url@ },
            Action::Post { request, nonce, expect } => ActionView::Post {
                request: request@,
                nonce: nonce@,
                expect: *expect,
            },
            Action::StartResponder { token, key_authorization } => ActionView::StartResponder {
                token: token@,
                key_authorization: key_authorization@,
            },
            Action::StopResponder => ActionView::StopResponder,
            Action::Sleep { seconds } => ActionView::Sleep { seconds: *seconds },
            Action::Done { certificate_chain } => ActionView::Done {
                certificate_chain: certificate_chain@,
            },
            Action::Fail(failure) => ActionView::Fail(failure@),
        }
    }
}

/// What the driver holds.
pub struct DriverView {
    pub control: Control,
    pub server: Seq<char>,
    pub email: Seq<char>,
    pub domain: Seq<char>,
    /// A certificate signing request that the caller made, DER encoded.
    pub csr: Option<Seq<u8>>,
    pub account_key: RsaKeyView,
    pub subject: KeyPairView,
    /// The nonce that the next signed request uses.
    pub nonce: Option<Seq<char>>,
    pub directory: Option<DirectoryView>,
    /// The account; its URL is the `kid` of every request after
    /// `newAccount`.
    pub account: Option<AccountView>,
    /// The order as `newOrder` made it.
    pub order: Option<OrderView>,
    pub order_url: Option<Seq<char>>,
    pub authorization_url: Option<Seq<char>>,
    /// The challenge that the client answers.
    pub challenge: Option<ChallengeView>,
    /// The order as the server reported it after finalization.
    pub updated: Option<OrderView>,
    /// The failure that is reported once the responder has stopped.
    pub kept: Option<FailureView>,
}

/// Whether a step comes after the account was made.
pub open spec fn has_account(step: Step) -> bool {
    step != Step::Directory && step != Step::NewAccount
}

/// Whether a step comes after the order was made.
pub open spec fn has_order(step: Step) -> bool {
    has_account(step) && step != Step::NewOrder
}

/// What holds of everything that a driver can hold: the decisions are in a
/// consistent state, the two keys differ, a certificate signing request
/// that the caller made carries the subject key, a nonce is at hand exactly
/// when
/// the decisions count on one, and what a step needs of the steps before it
/// is there.
#[verifier::opaque]
pub open spec fn well_formed(v: DriverView) -> bool {
    let step = v.control.step;
    &&& consistent(v.control)
    &&& v.account_key.n != v.subject.private.n
    &&& v.csr matches Some(der) ==> carries_key(der, v.subject.private)
    &&& v.control.has_nonce <==> v.nonce is Some
    &&& step != Step::Directory ==> v.directory is Some
    &&& has_account(step) ==> v.account is Some
    &&& has_order(step) ==> v.order is Some && v.order_url is Some && v.authorization_url is Some
    &&& step == Step::FetchAuthorization ==> v.order->0.authorizations.len() > 0
        && v.order->0.authorizations[0] == v.authorization_url->0
    &&& step == Step::ServeChallenge || step == Step::Poll ==> v.challenge is Some
    &&& step == Step::Download ==> v.updated is Some && v.updated->0.certificate is Some
    &&& v.control.phase == Phase::Stopping && v.control.failing ==> v.kept is Some
}

/// What the body of the response to the signed request of a step is read
/// as.
pub open spec fn expect_of(step: Step) -> Expect {
    match step {
        Step::Directory => Expect::Directory,
        Step::NewAccount => Expect::Account,
        Step::NewOrder => Expect::Order,
        Step::FetchAuthorization => Expect::Authorization,
        Step::ServeChallenge => Expect::Nothing,
        Step::Poll => Expect::Authorization,
        Step::Finalize => Expect::Order,
        Step::PollOrder => Expect::Order,
        Step::Download => Expect::Certificate,
    }
}

/// The certificate signing request that finalization sends: the one that
/// the caller made, or one for the domain under the subject key pair, where
/// OpenSSL builds one.
pub open spec fn csr_of(v: DriverView) -> Option<Seq<u8>> {
    match v.csr {
        Some(der) => Some(der),
        None => csr_by(v.subject.private.pem, v.subject.public_pem, v.domain),
    }
}

/// The URL that the signed request of the step goes to.
pub open spec fn target_of(v: DriverView) -> Seq<char> {
    match v.control.step {
        Step::Directory => v.server,
        Step::NewAccount => v.directory->0.new_account,
        Step::NewOrder => v.directory->0.new_order,
        Step::FetchAuthorization => v.authorization_url->0,
        Step::ServeChallenge => v.challenge->0.url,
        Step::Poll => v.authorization_url->0,
        Step::Finalize => v.order->0.finalize,
        Step::PollOrder => v.order_url->0,
        Step::Download => v.updated->0.certificate->0,
    }
}

/// How the signed request of the step names the account key: by the key
/// itself for `newAccount`, by the account URL for every other step.
pub open spec fn key_id_of(v: DriverView) -> KeyIdView {
    match v.control.step {
        Step::NewAccount => KeyIdView::Jwk(jwk_of(v.account_key)),
        _ => KeyIdView::Kid(v.account->0.account_location),
    }
}

/// The payload of the signed request of the step. The requests that only
/// fetch have none.
pub open spec fn payload_of(v: DriverView) -> PayloadView {
    match v.control.step {
        Step::NewAccount => PayloadView::Json(new_account_payload(v.email)),
        Step::NewOrder => PayloadView::Json(new_order_payload(v.domain)),
        Step::ServeChallenge => PayloadView::Json(ready_payload()),
        Step::Finalize => PayloadView::Json(finalize_payload(csr_of(v)->0)),
        _ => PayloadView::Empty,
    }
}

/// The media type that the signed request of the step accepts, if it names
/// one.
pub open spec fn accept_of(v: DriverView) -> Option<Seq<char>> {
    match v.control.step {
        Step::Download => Some(pem_chain_media_type()),
        _ => None,
    }
}

/// The signed request of the step that the driver is in, with a nonce: the
/// protected header names the nonce, the target and the account key, and
/// the account key signs. There is none where finalization has no
/// certificate signing request to send, or where the account key gives no
/// signature.
pub open spec fn request_of(v: DriverView, nonce: Seq<char>) -> Option<SignedRequestView> {
    if v.control.step == Step::Finalize && csr_of(v) is None {
        None
    } else {
        post_request(
            target_of(v),
            nonce,
            key_id_of(v),
            payload_of(v),
            v.account_key.pem,
            accept_of(v),
        )
    }
}

/// What the driver holds once it has taken in what arrived: the nonce of a
/// response it was waiting for, and what the response brings for the step.
pub open spec fn absorbed(v: DriverView, event: Event) -> DriverView {
    match event {
        Event::Response(response) => {
            if v.control.phase == Phase::Nonce {
                DriverView { nonce: response.replay_nonce.deep_view(), ..v }
            } else if v.control.phase == Phase::Response {
                let v = DriverView { nonce: response.replay_nonce.deep_view(), ..v };
                match (v.control.step, answer_of(response), response.body) {
                    (Step::Directory, Answer::Directory, Body::Directory(directory)) => DriverView {
                        directory: Some(directory@),
                        ..v
                    },
                    (Step::NewAccount, Answer::Account, Body::Account(account)) => DriverView {
                        account: Some(
                            AccountView { account_location: response.location->0@, ..account@ },
                        ),
                        ..v
                    },
                    (
                        Step::NewOrder,
                        Answer::Order { status, authorized, located },
                        Body::Order(order),
                    ) => if authorized && located {
                        DriverView {
                            order: Some(order@),
                            order_url: response.location.deep_view(),
                            authorization_url: Some(order@.authorizations[0]),
                            ..v
                        }
                    } else {
                        v
                    },
                    (
                        Step::FetchAuthorization,
                        Answer::Authorization { status, offer },
                        Body::Authorization(authorization),
                    ) => if offer == Offer::Http01 {
                        DriverView {
                            challenge: Some(
                                authorization@.challenges[first_http01(
                                    authorization@.challenges,
                                )->0],
                            ),
                            ..v
                        }
                    } else {
                        v
                    },
                    (
                        Step::Finalize,
                        Answer::Order { status, authorized, located },
                        Body::Order(order),
                    ) => DriverView { updated: Some(order@), ..v },
                    (
                        Step::PollOrder,
                        Answer::Order { status, authorized, located },
                        Body::Order(order),
                    ) => DriverView { updated: Some(order@), ..v },
                    _ => v,
                }
            } else {
                v
            }
        },
        _ => v,
    }
}

/// The nonce that is at hand once an event arrived: the one that a
/// response carries, where the driver was waiting for a response; else the
/// one that the driver held.
pub open spec fn latest_nonce(v: DriverView, event: Event) -> Option<Seq<char>> {
    match event {
        Event::Response(response) => if v.control.phase == Phase::Response || v.control.phase
            == Phase::Nonce {
            response.replay_nonce.deep_view()
        } else {
            v.nonce
        },
        _ => v.nonce,
    }
}

/// The certificate chain that a response carries, or the empty text.
pub open spec fn chain_of(event: Event) -> Seq<char> {
    match event {
        Event::Response(response) => match response.body {
            Body::Certificate(chain) => chain@,
            _ => Seq::empty(),
        },
        _ => Seq::empty(),
    }
}

/// What a failure that may be there holds.
pub open spec fn view_of(failed: Option<Failure>) -> Option<FailureView> {
    match failed {
        Some(failure) => Some(failure@),
        None => None,
    }
}

/// The failure that a decision reports or keeps, given the step and what
/// arrived.
pub open spec fn failure_for(decision: Decision, stage: Step, event: Event) -> Option<FailureView> {
    match decision {
        Decision::Fail(cause) => Some(failure_of(cause, stage, event)),
        Decision::StopResponder(Some(cause)) => Some(failure_of(cause, stage, event)),
        _ => None,
    }
}

/// What the driver holds once a decision is taken, given what it held when
/// the event was taken in: the new state of the decisions; the nonce, unless
/// the decisions count on none any more; and the failure to report later.
pub open spec fn settled(
    taken: DriverView,
    control: Control,
    decision: Decision,
    failed: Option<FailureView>,
) -> DriverView {
    DriverView {
        control,
        nonce: if control.has_nonce {
            taken.nonce
        } else {
            None
        },
        kept: match decision {
            Decision::StopResponder(Some(cause)) => failed,
            Decision::FailKept => None,
            _ => taken.kept,
        },
        ..taken
    }
}

/// What the driver asks for once a decision is taken, given what it held
/// when the event was taken in. A signed request uses up the nonce that was
/// at hand then.
pub open spec fn acted(
    taken: DriverView,
    control: Control,
    decision: Decision,
    failed: Option<FailureView>,
    chain: Seq<char>,
) -> ActionView {
    match decision {
        Decision::ProbePort => ActionView::ProbePort,
        Decision::FetchDirectory => ActionView::Get { url: taken.server },
        Decision::FetchNonce => ActionView::Head { url: taken.directory->0.new_nonce },
        Decision::Send => ActionView::Post {
            request: request_of(settled(taken, control, decision, failed), taken.nonce->0)->0,
            nonce: taken.nonce->0,
            expect: expect_of(control.step),
        },
        Decision::StartResponder => ActionView::StartResponder {
            token: taken.challenge->0.token,
            key_authorization: key_authorization_text(
                taken.challenge->0.token,
                jwk_of(taken.account_key),
            ),
        },
        Decision::StopResponder(_) => ActionView::StopResponder,
        Decision::Sleep(seconds) => ActionView::Sleep { seconds },
        Decision::Done => ActionView::Done { certificate_chain: chain },
        Decision::Fail(cause) => ActionView::Fail(failed->0),
        Decision::FailKept => ActionView::Fail(taken.kept->0),
    }
}

/// The state of the decisions and the decision after an event: the time
/// that the request took is counted, and then `next` decides.
pub open spec fn decided(v: DriverView, event: Event) -> (Control, Decision) {
    next(spent(v.control, elapsed_in(event)), seen_of(event))
}

/// What the driver holds after a step, and what it decides, where the
/// request that it decides to send can be made.
pub open spec fn planned(v: DriverView, event: Event) -> (DriverView, Decision) {
    let (control, decision) = decided(v, event);
    (
        settled(
            absorbed(v, event),
            control,
            decision,
            failure_for(decision, v.control.step, event),
        ),
        decision,
    )
}

/// What the driver asks for, given what it held, what arrived and what it
/// decided.
pub open spec fn action_of(v: DriverView, event: Event, decision: Decision) -> ActionView {
    acted(
        absorbed(v, event),
        decided(v, event).0,
        decision,
        failure_for(decision, v.control.step, event),
        chain_of(event),
    )
}

/// The request that goes out where the driver decides to send one, if it
/// can be made: the request of the step that the driver is in after the
/// decision, with the nonce that was at hand.
pub open spec fn request_to_send(v: DriverView, event: Event) -> Option<SignedRequestView> {
    request_of(planned(v, event).0, absorbed(v, event).nonce->0)
}

/// What holds where the request that was to go out cannot be made: the
/// issuance fails with `FromRsaError` at the step, as any failure does: at
/// once, or once the responder has stopped.
#[verifier::opaque]
pub open spec fn signing_failed(plan: DriverView, after: DriverView, action: ActionView) -> bool {
    let (control, decision) = fail_next(plan.control, Cause::Reported);
    match decision {
        Decision::StopResponder(_) => {
            &&& action == ActionView::StopResponder
            &&& after.kept matches Some(failure)
            &&& failure.stage == plan.control.step
            &&& failure.error is FromRsaError
            &&& after == DriverView { control, kept: after.kept, ..plan }
        },
        _ => {
            &&& action matches ActionView::Fail(failure)
            &&& failure.stage == plan.control.step
            &&& failure.error is FromRsaError
            &&& after == DriverView { control, ..plan }
        },
    }
}

/// Whether an order that arrives names its certificate exactly when it is
/// valid, as every order does.
pub open spec fn brings_consistent_order(event: Event) -> bool {
    match event {
        Event::Response(response) => match response.body {
            Body::Order(order) => order_is_consistent(order@.status, order@.certificate is Some),
            _ => true,
        },
        _ => true,
    }
}

/// A step keeps what the driver holds well formed.
proof fn lemma_plan_is_well_formed(v: DriverView, event: Event)
    requires
        well_formed(v),
        brings_consistent_order(event),
    ensures
        well_formed(planned(v, event).0),
        ({
            let (control, decision) = decided(v, event);
            let taken = absorbed(v, event);
            &&& decision == Decision::Send ==> taken.nonce is Some && !control.has_nonce
                && control.step != Step::Directory
            &&& decision == Decision::FetchNonce ==> control.step != Step::Directory
            &&& decision == Decision::StartResponder ==> taken.challenge is Some
            &&& decision == Decision::FailKept ==> taken.kept is Some
        }),
{
    reveal(well_formed);
    let seen = seen_of(event);
    let before = spent(v.control, elapsed_in(event));
    lemma_consistent(before, seen);
    lemma_moves(before, seen);
    match event {
        Event::Response(response) => {
            match response.body {
                Body::Authorization(authorization) => {
                    lemma_first_http01(authorization@.challenges);
                },
                _ => {},
            }
        },
        _ => {},
    }
}

/// The nonce of a signed request is the latest one that the server handed
/// out. Where the driver was waiting for a response and a response arrives,
/// the nonce at hand is the one that the response carries; where anything
/// else arrives, it is the one that the driver held. A signed request that
/// goes out next names that nonce in its protected header and uses it up;
/// and where no request goes out, the driver holds that nonce or none.
pub proof fn lemma_nonce_follows_the_response(v: DriverView, event: Event)
    requires
        well_formed(v),
        brings_consistent_order(event),
    ensures
        ({
            let (plan, decision) = planned(v, event);
            let latest = latest_nonce(v, event);
            &&& decision == Decision::Send ==> latest is Some && plan.nonce is None
            &&& decision == Decision::Send && request_to_send(v, event) is Some ==> action_of(
                v,
                event,
                decision,
            ) == (ActionView::Post {
                request: post_request(
                    target_of(plan),
                    latest->0,
                    key_id_of(plan),
                    payload_of(plan),
                    v.account_key.pem,
                    accept_of(plan),
                )->0,
                nonce: latest->0,
                expect: expect_of(plan.control.step),
            })
            &&& plan.nonce is Some ==> plan.nonce == latest
        }),
{
    lemma_plan_is_well_formed(v, event);
}

/// The certificate is asked for the key pair that the caller supplied. No
/// step changes the key pair, the account key or the signing request that
/// the caller made; and the signing request that finalization sends is the
/// caller's, which carries the public key of the key pair, or the one that
/// OpenSSL builds for the domain of the key pair itself.
pub proof fn lemma_subject_key_is_kept(v: DriverView, event: Event)
    requires
        well_formed(v),
        brings_consistent_order(event),
    ensures
        ({
            let (plan, decision) = planned(v, event);
            &&& plan.subject == v.subject
            &&& plan.account_key == v.account_key
            &&& plan.csr == v.csr
            &&& plan.domain == v.domain
            &&& match v.csr {
                Some(der) => csr_of(plan) == Some(der) && carries_key(der, v.subject.private),
                None => csr_of(plan) == csr_by(
                    v.subject.private.pem,
                    v.subject.public_pem,
                    v.domain,
                ),
            }
            &&& decision == Decision::Send && plan.control.step == Step::Finalize
                && request_to_send(v, event) is Some ==> csr_of(plan) is Some && payload_of(plan)
                == PayloadView::Json(finalize_payload(csr_of(plan)->0))
        }),
{
    reveal(well_formed);
    lemma_plan_is_well_formed(v, event);
}

/// An account that existed is taken up like one that was made: the
/// response to `newAccount` is accepted with status 201 and with status 200
/// alike, the account URL is the `Location` of the response either way, and
/// the issuance goes on with the order.
pub proof fn lemma_existing_account_is_reused(
    v: DriverView,
    created: Response<Body>,
    found: Response<Body>,
)
    requires
        well_formed(v),
        v.control.step == Step::NewAccount,
        v.control.phase == Phase::Response,
        created.status == 201,
        found.status == 200,
        created.body matches Body::Account(account) && is_account_status(account.status),
        found.body matches Body::Account(account) && is_account_status(account.status),
        created.location is Some,
        found.location == created.location,
    ensures
        planned(v, Event::Response(created)).0.account matches Some(account)
            && account.account_location == created.location->0@,
        planned(v, Event::Response(found)).0.account matches Some(account)
            && account.account_location == created.location->0@,
        planned(v, Event::Response(created)).0.control.step == Step::NewOrder,
        planned(v, Event::Response(found)).0.control.step == Step::NewOrder,
{
    reveal(well_formed);
}

/// A driver whose request could not be made is still well formed.
proof fn lemma_failed_signing_is_well_formed(plan: DriverView, after: DriverView, action: ActionView)
    requires
        well_formed(plan),
        signing_failed(plan, after, action),
    ensures
        well_formed(after),
{
    reveal(well_formed);
    reveal(signing_failed);
}

/// What the driver holds while the issuance goes on.
struct Progress {
    control: Control,
    server: String,
    email: String,
    domain: String,
    csr: Option<Vec<u8>>,
    account_key: RsaKey,
    subject: KeyPair,
    nonce: Option<Nonce>,
    directory: Option<Directory>,
    account: Option<Account>,
    order: Option<Order>,
    order_url: Option<String>,
    authorization_url: Option<String>,
    challenge: Option<Challenge>,
    updated: Option<UpdatedOrder>,
    kept: Option<Failure>,
}

impl View for Progress {
    type V = DriverView;

    closed spec fn view(&self) -> DriverView {
        DriverView {
            control: self.control,
            server: self.server@,
            email: self.email@,
            domain: self.domain@,
            csr: match self.csr {
                Some(der) => Some(der@),
                None => None,
            },
            account_key: self.account_key@,
            subject: self.subject@,
            nonce: self.nonce.deep_view(),
            directory: match self.directory {
                Some(directory) => Some(directory@),
                None => None,
            },
            account: match self.account {
                Some(account) => Some(account@),
                None => None,
            },
            order: match self.order {
                Some(order) => Some(order@),
                None => None,
            },
            order_url: self.order_url.deep_view(),
            authorization_url: self.authorization_url.deep_view(),
            challenge: match self.challenge {
                Some(challenge) => Some(challenge@),
                None => None,
            },
            updated: match self.updated {
                Some(updated) => Some(updated@),
                None => None,
            },
            kept: view_of(self.kept),
        }
    }
}

/// What a driver holds before the issuance starts.
pub open spec fn fresh(
    server: Seq<char>,
    email: Seq<char>,
    domain: Seq<char>,
    standalone: bool,
    csr: Option<Seq<u8>>,
    account_key: RsaKeyView,
    subject: KeyPairView,
) -> DriverView {
    DriverView {
        control: initial(standalone),
        server,
        email,
        domain,
        csr,
        account_key,
        subject,
        nonce: None,
        directory: None,
        account: None,
        order: None,
        order_url: None,
        authorization_url: None,
        challenge: None,
        updated: None,
        kept: None,
    }
}

impl Progress {
    /// Builds the signed request of the step that the driver is in.
    fn build(&self, nonce: Nonce) -> (out: Result<SignedRequest, Error>)
        requires
            well_formed(self@),
            self@.control.step != Step::Directory,
        ensures
            match out {
                Ok(request) => request_of(self@, nonce@) == Some(request@),
                Err(error) => error is FromRsaError && request_of(self@, nonce@) is None,
            },
    {
        proof {
            reveal(well_formed);
        }
        let key = &self.account_key;
        match self.control.step {
            Step::Directory => post_as_get(
                self.server.as_str(),
                nonce,
                self.account.as_ref().unwrap().account_location.as_str(),
                key,
                None,
            ),
            Step::NewAccount => self.directory.as_ref().unwrap().create_account(
                nonce,
                key,
                self.email.as_str(),
            ),
            Step::NewOrder => self.account.as_ref().unwrap().create_new_order(
                nonce,
                self.directory.as_ref().unwrap().new_order.as_str(),
                key,
                self.domain.as_str(),
            ),
            Step::FetchAuthorization => self.order.as_ref().unwrap().fetch_auth_challenges(
                nonce,
                self.account.as_ref().unwrap().account_location.as_str(),
                key,
            ),
            Step::ServeChallenge => ChallengeAuthorisation::kick_off_http_challenge(
                self.challenge.as_ref().unwrap(),
                nonce,
                self.account.as_ref().unwrap().account_location.as_str(),
                key,
            ),
            Step::Poll => post_as_get(
                self.authorization_url.as_ref().unwrap().as_str(),
                nonce,
                self.account.as_ref().unwrap().account_location.as_str(),
                key,
                None,
            ),
            Step::Finalize => match &self.csr {
                Some(der) => self.order.as_ref().unwrap().finalize_with_csr(
                    self.account.as_ref().unwrap().account_location.as_str(),
                    nonce,
                    key,
                    der.as_slice(),
                ),
                None => self.order.as_ref().unwrap().finalize_order(
                    self.account.as_ref().unwrap().account_location.as_str(),
                    nonce,
                    key,
                    &self.subject,
                    self.domain.as_str(),
                ),
            },
            Step::PollOrder => post_as_get(
                self.order_url.as_ref().unwrap().as_str(),
                nonce,
                self.account.as_ref().unwrap().account_location.as_str(),
                key,
                None,
            ),
            Step::Download => self.updated.as_ref().unwrap().download_certificate(
                nonce,
                self.account.as_ref().unwrap().account_location.as_str(),
                key,
            ),
        }
    }

    /// Takes in what arrived: the nonce of a response that the driver was
    /// waiting for, and what the response brings for the step. The result is
    /// the certificate chain, where one arrived.
    fn absorb(&mut self, event: Event, answer: Option<Answer>) -> (chain: Certificate)
        requires
            answer == answer_in(seen_of(event)),
        ensures
            final(self)@ == absorbed(old(self)@, event),
            chain@ == chain_of(event),
            brings_consistent_order(event),
    {
        match event {
            Event::Response(response) => {
                let waiting = self.control.phase == Phase::Response;
                if waiting || self.control.phase == Phase::Nonce {
                    self.nonce = response.replay_nonce;
                }
                let location = response.location;
                let step = self.control.step;
                match response.body {
                    Body::Directory(directory) => {
                        if waiting && step == Step::Directory && answer == Some(Answer::Directory) {
                            self.directory = Some(directory);
                        }
                        String::new()
                    },
                    Body::Account(account) => {
                        if waiting && step == Step::NewAccount && answer == Some(Answer::Account) {
                            self.account = Some(
                                Account {
                                    status: account.status,
                                    contact: account.contact,
                                    orders: account.orders,
                                    account_location: location.unwrap(),
                                },
                            );
                        }
                        String::new()
                    },
                    Body::Order(order) => {
                        // an order names its certificate exactly when it is valid
                        let _ = order.status();
                        match answer {
                            Some(Answer::Order { authorized, located, .. }) => {
                                if waiting && step == Step::NewOrder {
                                    if authorized && located {
                                        let first = order.authorizations()[0].clone();
                                        assert(first@ == order@.authorizations[0]);
                                        self.authorization_url = Some(first);
                                        self.order_url = location;
                                        self.order = Some(order);
                                    }
                                } else if waiting && (step == Step::Finalize || step
                                    == Step::PollOrder) {
                                    self.updated = Some(UpdatedOrder::new(order));
                                }
                            },
                            _ => {},
                        }
                        String::new()
                    },
                    Body::Authorization(authorization) => {
                        match answer {
                            Some(Answer::Authorization { offer, .. }) => {
                                if waiting && step == Step::FetchAuthorization && offer
                                    == Offer::Http01 {
                                    match authorization.http_challenge() {
                                        Ok(challenge) => {
                                            self.challenge = Some(challenge);
                                        },
                                        Err(_) => {},
                                    }
                                }
                            },
                            _ => {},
                        }
                        String::new()
                    },
                    Body::Certificate(chain) => chain,
                    _ => String::new(),
                }
            },
            _ => String::new(),
        }
    }

    /// Settles what the driver holds once a decision is taken. The result is
    /// the nonce that leaves the driver, and the failure that was kept where
    /// the decision is to report it.
    fn settle(&mut self, control: Control, decision: Decision, failed: Option<Failure>) -> (out: (
        Option<Nonce>,
        Option<Failure>,
    ))
        ensures
            final(self)@ == settled(old(self)@, control, decision, view_of(failed)),
            !control.has_nonce ==> out.0.deep_view() == old(self)@.nonce,
            match decision {
                Decision::StopResponder(Some(cause)) => out.1 is None,
                Decision::FailKept => view_of(out.1) == old(self)@.kept,
                _ => view_of(out.1) == view_of(failed),
            },
    {
        self.control = control;
        let at_hand = if control.has_nonce {
            None
        } else {
            self.nonce.take()
        };
        let report = match decision {
            Decision::StopResponder(Some(_)) => {
                self.kept = failed;
                None
            },
            Decision::FailKept => self.kept.take(),
            _ => failed,
        };
        (at_hand, report)
    }

    /// Sends the signed request of the step with a nonce, or fails where
    /// the request cannot be made.
    fn send(&mut self, nonce: Nonce) -> (action: Action)
        requires
            well_formed(old(self)@),
            old(self)@.control.step != Step::Directory,
        ensures
            match request_of(old(self)@, nonce@) {
                Some(request) => final(self)@ == old(self)@ && action@ == (ActionView::Post {
                    request,
                    nonce: nonce@,
                    expect: expect_of(old(self)@.control.step),
                }),
                None => signing_failed(old(self)@, final(self)@, action@),
            },
    {
        proof {
            reveal(signing_failed);
        }
        let step = self.control.step;
        match self.build(nonce.clone()) {
            Ok(request) => Action::Post {
                request,
                nonce,
                expect: match step {
                    Step::Directory => Expect::Directory,
                    Step::NewAccount => Expect::Account,
                    Step::NewOrder => Expect::Order,
                    Step::FetchAuthorization => Expect::Authorization,
                    Step::ServeChallenge => Expect::Nothing,
                    Step::Poll => Expect::Authorization,
                    Step::Finalize => Expect::Order,
                    Step::PollOrder => Expect::Order,
                    Step::Download => Expect::Certificate,
                },
            },
            Err(error) => {
                let (stopped, verdict) = self.control.fail(Cause::Reported);
                self.control = stopped;
                let failure = Failure { stage: step, error, detail: String::new() };
                match verdict {
                    Decision::StopResponder(_) => {
                        self.kept = Some(failure);
                        Action::StopResponder
                    },
                    _ => Action::Fail(failure),
                }
            },
        }
    }

    /// Carries out a decision: settles what the driver holds, and makes the
    /// action.
    fn act(
        &mut self,
        control: Control,
        decision: Decision,
        failed: Option<Failure>,
        chain: Certificate,
    ) -> (action: Action)
        requires
            well_formed(settled(old(self)@, control, decision, view_of(failed))),
            decision == Decision::Send ==> old(self)@.nonce is Some && !control.has_nonce
                && control.step != Step::Directory,
            decision == Decision::FetchNonce ==> control.step != Step::Directory,
            decision == Decision::StartResponder ==> old(self)@.challenge is Some,
            decision == Decision::FailKept ==> old(self)@.kept is Some,
            decision is Fail ==> failed is Some,
        ensures
            ({
                let failure = view_of(failed);
                let plan = settled(old(self)@, control, decision, failure);
                if decision == Decision::Send && request_of(plan, old(self)@.nonce->0) is None {
                    signing_failed(plan, final(self)@, action@)
                } else {
                    final(self)@ == plan && action@ == acted(
                        old(self)@,
                        control,
                        decision,
                        failure,
                        chain@,
                    )
                }
            }),
    {
        proof {
            reveal(well_formed);
        }
        let (at_hand, report) = self.settle(control, decision, failed);
        match decision {
            Decision::ProbePort => Action::ProbePort,
            Decision::FetchDirectory => Action::Get { url: self.server.clone() },
            Decision::FetchNonce => Action::Head {
                url: self.directory.as_ref().unwrap().new_nonce.clone(),
            },
            Decision::Send => self.send(at_hand.unwrap()),
            Decision::StartResponder => {
                let token = self.challenge.as_ref().unwrap().token.clone();
                let key_authorization = match jwk(&self.account_key) {
                    Ok(key) => key.key_authorization(token.as_str()),
                    Err(_) => String::new(),
                };
                Action::StartResponder { token, key_authorization }
            },
            Decision::StopResponder(_) => Action::StopResponder,
            Decision::Sleep(seconds) => Action::Sleep { seconds },
            Decision::Done => Action::Done { certificate_chain: chain },
            Decision::Fail(_) => Action::Fail(report.unwrap()),
            Decision::FailKept => Action::Fail(report.unwrap()),
        }
    }

    /// Takes what arrived and hands back the next thing to do.
    fn step(&mut self, event: Event) -> (action: Action)
        requires
            well_formed(old(self)@),
        ensures
            well_formed(final(self)@),
            ({
                let (plan, decision) = planned(old(self)@, event);
                if decision == Decision::Send && request_to_send(old(self)@, event) is None {
                    signing_failed(plan, final(self)@, action@)
                } else {
                    final(self)@ == plan && action@ == action_of(old(self)@, event, decision)
                }
            }),
    {
        let seen = event.seen();
        let stage = self.control.step;
        let (control, decision) = self.control.spend(event.elapsed()).decide(seen);
        let failed: Option<Failure> = match decision {
            Decision::Fail(cause) => Some(failure(cause, stage, &event)),
            Decision::StopResponder(Some(cause)) => Some(failure(cause, stage, &event)),
            _ => None,
        };
        let answer = match seen {
            Seen::Response { answer, .. } => Some(answer),
            _ => None,
        };
        let chain = self.absorb(event, answer);
        proof {
            lemma_plan_is_well_formed(old(self)@, event);
        }
        let action = self.act(control, decision, failed, chain);
        proof {
            let plan = planned(old(self)@, event).0;
            if decision == Decision::Send && request_to_send(old(self)@, event) is None {
                lemma_failed_signing_is_well_formed(plan, self@, action@);
            }
        }
        action
    }
}

/// The driver of one issuance. What it holds is well formed at all times.
pub struct Driver {
    progress: Progress,
}

impl View for Driver {
    type V = DriverView;

    closed spec fn view(&self) -> DriverView {
        self.progress@
    }
}

impl Driver {
    #[verifier::type_invariant]
    spec fn sound(self) -> bool {
        well_formed(self.progress@)
    }

    /// Makes the driver of an issuance for one domain: the server's
    /// directory URL, the contact address, the domain, whether the client
    /// serves the challenge itself, a certificate signing request if the
    /// caller has one, the account key and the key pair of the certificate.
    /// The two keys have to differ: where they have the same modulus, the
    /// result is `BadPublicKey`. A certificate signing request of the caller
    /// has to carry the public key of the key pair: where it does not, the
    /// result is `BadCSR`.
    pub fn new(
        server: String,
        email: String,
        domain: String,
        standalone: bool,
        csr: Option<Vec<u8>>,
        account_key: RsaKey,
        subject: KeyPair,
    ) -> (out: Result<Driver, Error>)
        ensures
            if account_key@.n == subject@.private.n {
                out matches Err(error) && error == Error::BadPublicKey
            } else if csr matches Some(der) && !carries_key(der@, subject@.private) {
                out matches Err(error) && error == Error::BadCSR
            } else {
                out matches Ok(driver) && well_formed(driver@) && driver@ == fresh(
                    server@,
                    email@,
                    domain@,
                    standalone,
                    match csr {
                        Some(der) => Some(der@),
                        None => None,
                    },
                    account_key@,
                    subject@,
                )
            },
    {
        proof {
            reveal(well_formed);
        }
        if same_bytes(account_key.modulus(), subject.private().modulus()) {
            return Err(Error::BadPublicKey);
        }
        match &csr {
            Some(der) => {
                if !subject.private().is_key_of(der.as_slice()) {
                    return Err(Error::BadCSR);
                }
            },
            None => {},
        }
        Ok(
            Driver {
                progress: Progress {
                    control: Control::new(standalone),
                    server,
                    email,
                    domain,
                    csr,
                    account_key,
                    subject,
                    nonce: None,
                    directory: None,
                    account: None,
                    order: None,
                    order_url: None,
                    authorization_url: None,
                    challenge: None,
                    updated: None,
                    kept: None,
                },
            },
        )
    }

    /// The state of the decisions.
    pub fn control(&self) -> (control: Control)
        ensures
            control == self@.control,
    {
        self.progress.control
    }

    /// Whether the issuance is over.
    pub fn is_finished(&self) -> (finished: bool)
        ensures
            finished == (self@.control.phase == Phase::Finished),
    {
        self.progress.control.phase == Phase::Finished
    }

    /// Takes what arrived and hands back the driver as it goes on, and the
    /// next thing to do. The decision is the one that `decided` states; what
    /// the driver holds afterwards and what it asks for are what `planned`
    /// and `action_of` state. Only where the request that was to go out
    /// cannot be made, which `request_to_send` states, the issuance fails
    /// instead, as `signing_failed` states.
    pub fn step(self, event: Event) -> (out: (Driver, Action))
        ensures
            well_formed(self@),
            well_formed(out.0@),
            ({
                let (plan, decision) = planned(self@, event);
                if decision == Decision::Send && request_to_send(self@, event) is None {
                    signing_failed(plan, out.0@, out.1@)
                } else {
                    out.0@ == plan && out.1@ == action_of(self@, event, decision)
                }
            }),
    {
        proof {
            use_type_invariant(&self);
        }
        let mut progress = self.progress;
        let action = progress.step(event);
        (Driver { progress }, action)
    }
}

} // verus!
