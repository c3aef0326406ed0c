use vstd::prelude::*;
use vstd::string::StringExecFns;
use crate::auth::{AUTHORIZATION_PENDING, DEVICE_GRANT_TYPE, SLOW_DOWN, SLOW_DOWN_PAUSE, TokenRequest};
use crate::config::{TokenStorage, TokenStorageView};
use crate::error::{Error, ErrorView};
use crate::http::{is_success, status_is_success};

verus! {

/// Text of the `ProtocolError` for an answer whose body does not go with
/// its status: a grant under a failure status, or an error code under a
/// successful one.
pub const BODY_AGAINST_STATUS: &'static str = "Token response body does not match its status";

/// Text of the `ProtocolError` for a grant whose lifetime, added to the time
/// of receipt, is past the last second that can be stored.
pub const LIFETIME_OUT_OF_RANGE: &'static str = "Token lifetime is out of range";

/// The tokens of a successful answer of the token endpoint, as decoded: the
/// refresh token may be missing, and the lifetime counts seconds from
/// receipt.
#[derive(Debug, Clone, PartialEq, Eq)]
pub struct TokenGrant {
    pub access_token: String,
    pub refresh_token: Option<String>,
    pub expires_in: u64,
}

/// What the host decoded from the body of an answer of the token endpoint.
#[derive(Debug, Clone, PartialEq, Eq)]
pub enum TokenBody {
    /// The body grants tokens.
    Grant(TokenGrant),
    /// The body carries this error code.
    Denial(String),
    /// The body is neither; the text is the decoder's complaint.
    Malformed(String),
}

/// What the host reports to the poll loop.
#[derive(Debug, Clone, PartialEq, Eq)]
pub enum PollEvent {
    /// The login has just begun and nothing was sent yet.
    Started,
    /// The last poll got no answer; the text says why.
    Unreachable(String),
    /// The last poll was answered with this status and body, at this Unix
    /// time in seconds.
    Replied { status: u16, body: TokenBody, received_at: i64 },
}

/// One poll for the host to perform: sleep each of `pauses` in turn, in
/// seconds, then post `request` to the token endpoint and report the answer.
#[derive(Debug, Clone, PartialEq, Eq)]
pub struct PollAttempt {
    pub pauses: Vec<u64>,
    pub request: TokenRequest,
}

/// What the poll loop does next.
#[derive(Debug, PartialEq, Eq)]
pub enum PollStep {
    /// Poll once more.
    Attempt(PollAttempt),
    /// The login succeeded with this credential. The loop is over.
    Granted(TokenStorage),
    /// The login failed. The loop is over.
    Failed(Error),
}

/// A [`TokenBody`] as mathematical values.
pub enum TokenBodyView {
    Grant { access_token: Seq<char>, refresh_token: Option<Seq<char>>, expires_in: u64 },
    Denial(Seq<char>),
    Malformed(Seq<char>),
}

impl View for TokenBody {
    type V = TokenBodyView;

    open spec fn view(&self) -> TokenBodyView {
        match *self {
            TokenBody::Grant(grant) => TokenBodyView::Grant {
                access_token: grant.access_token@,
                refresh_token: match grant.refresh_token {
                    Some(token) => Some(token@),
                    None => None,
                },
                expires_in: grant.expires_in,
            },
            TokenBody::Denial(code) => TokenBodyView::Denial(code@),
            TokenBody::Malformed(why) => TokenBodyView::Malformed(why@),
        }
    }
}

/// A [`PollEvent`] as mathematical values.
pub enum PollEventView {
    Started,
    Unreachable(Seq<char>),
    Replied { status: u16, body: TokenBodyView, received_at: i64 },
}

impl View for PollEvent {
    type V = PollEventView;

    open spec fn view(&self) -> PollEventView {
        match *self {
            PollEvent::Started => PollEventView::Started,
            PollEvent::Unreachable(why) => PollEventView::Unreachable(why@),
            PollEvent::Replied { status, body, received_at } => PollEventView::Replied {
                status,
                body: body@,
                received_at,
            },
        }
    }
}

/// A [`PollStep`] as mathematical values.
pub enum PollStepView {
    Attempt {
        pauses: Seq<u64>,
        grant_type: Seq<char>,
        device_code: Seq<char>,
        client_id: Seq<char>,
    },
    Granted(TokenStorageView),
    Failed(ErrorView),
}

impl View for PollStep {
    type V = PollStepView;

    open spec fn view(&self) -> PollStepView {
        match *self {
            PollStep::Attempt(attempt) => PollStepView::Attempt {
                pauses: attempt.pauses@,
                grant_type: attempt.request.grant_type@,
                device_code: attempt.request.device_code@,
                client_id: attempt.request.client_id@,
            },
            PollStep::Granted(tokens) => PollStepView::Granted(tokens@),
            PollStep::Failed(error) => PollStepView::Failed(error@),
        }
    }
}

/// The poll that sleeps `pauses` and then asks for the tokens of
/// `device_code` in the name of `client_id`.
pub open spec fn attempt_after(
    pauses: Seq<u64>,
    device_code: Seq<char>,
    client_id: Seq<char>,
) -> PollStepView {
    PollStepView::Attempt { pauses, grant_type: DEVICE_GRANT_TYPE@, device_code, client_id }
}

/// The credential that a grant received at `received_at` gives, or the
/// `ProtocolError` for a lifetime that ends past the last storable second.
/// A missing refresh token is stored as the empty text.
pub open spec fn spec_granted(
    access_token: Seq<char>,
    refresh_token: Option<Seq<char>>,
    expires_in: u64,
    received_at: i64,
) -> PollStepView {
    if received_at + expires_in <= i64::MAX {
        PollStepView::Granted(
            TokenStorageView {
                access_token,
                refresh_token: match refresh_token {
                    Some(token) => token,
                    None => Seq::<char>::empty(),
                },
                expires_at: received_at + expires_in,
            },
        )
    } else {
        PollStepView::Failed(ErrorView::ProtocolError(LIFETIME_OUT_OF_RANGE@))
    }
}

/// The next step of the poll loop for `device_code`, polled every `interval`
/// seconds in the name of `client_id`, once `event` has happened.
///
/// - At the start: sleep the interval, then poll.
/// - No answer: fail with `TransportError`.
/// - A successful status with a grant: the credential of [`spec_granted`].
/// - A failure status with the code `authorization_pending`: sleep the
///   interval, then poll.
/// - A failure status with the code `slow_down`: sleep five seconds, then
///   the interval, then poll.
/// - A failure status with any other code: fail with `AuthenticationFailed`
///   and that code.
/// - A body that could not be decoded, or one that does not go with its
///   status: fail with `ProtocolError`.
pub open spec fn spec_poll(
    device_code: Seq<char>,
    interval: u64,
    client_id: Seq<char>,
    event: PollEventView,
) -> PollStepView {
    match event {
        PollEventView::Started => attempt_after(seq![interval], device_code, client_id),
        PollEventView::Unreachable(why) => PollStepView::Failed(ErrorView::TransportError(why)),
        PollEventView::Replied { status, body, received_at } => match body {
            TokenBodyView::Malformed(why) => PollStepView::Failed(ErrorView::ProtocolError(why)),
            TokenBodyView::Grant { access_token, refresh_token, expires_in } => if is_success(
                status,
            ) {
                spec_granted(access_token, refresh_token, expires_in, received_at)
            } else {
                PollStepView::Failed(ErrorView::ProtocolError(BODY_AGAINST_STATUS@))
            },
            TokenBodyView::Denial(code) => if is_success(status) {
                PollStepView::Failed(ErrorView::ProtocolError(BODY_AGAINST_STATUS@))
            } else if code == AUTHORIZATION_PENDING@ {
                attempt_after(seq![interval], device_code, client_id)
            } else if code == SLOW_DOWN@ {
                attempt_after(seq![SLOW_DOWN_PAUSE, interval], device_code, client_id)
            } else {
                PollStepView::Failed(ErrorView::AuthenticationFailed(code))
            },
        },
    }
}

/// The poll request for `device_code` in the name of `client_id`.
fn token_request(device_code: &str, client_id: &str) -> (request: TokenRequest)
    ensures
        request.grant_type@ == DEVICE_GRANT_TYPE@,
        request.device_code@ == device_code@,
        request.client_id@ == client_id@,
{
    TokenRequest {
        grant_type: String::from_str(DEVICE_GRANT_TYPE),
        device_code: String::from_str(device_code),
        client_id: String::from_str(client_id),
    }
}

/// The credential of a grant received at `received_at`: see
/// [`spec_granted`].
pub fn accept_grant(grant: TokenGrant, received_at: i64) -> (step: PollStep)
    ensures
        step@ == spec_granted(
            grant.access_token@,
            match grant.refresh_token {
                Some(token) => Some(token@),
                None => None,
            },
            grant.expires_in,
            received_at,
        ),
{
    let end: i128 = received_at as i128 + grant.expires_in as i128;
    if end <= i64::MAX as i128 {
        let refresh_token = match grant.refresh_token {
            Some(token) => token,
            None => String::new(),
        };
        PollStep::Granted(
            TokenStorage {
                access_token: grant.access_token,
                refresh_token,
                expires_at: end as i64,
            },
        )
    } else {
        PollStep::Failed(Error::ProtocolError(String::from_str(LIFETIME_OUT_OF_RANGE)))
    }
}

/// Decides the next step of the poll loop: see [`spec_poll`].
///
/// The host begins with [`PollEvent::Started`], performs each
/// [`PollStep::Attempt`] it is given and reports what came of it, and stops
/// at the first other step. Between two steps it is free to give up.
pub fn poll_for_token(device_code: &str, interval: u64, client_id: &str, event: PollEvent) -> (step:
    PollStep)
    ensures
        step@ == spec_poll(device_code@, interval, client_id@, event@),
{
    match event {
        PollEvent::Started => {
            let mut pauses: Vec<u64> = Vec::new();
            pauses.push(interval);
            assert(pauses@ =~= seq![interval]);
            PollStep::Attempt(PollAttempt { pauses, request: token_request(device_code, client_id) })
        },
        PollEvent::Unreachable(why) => PollStep::Failed(Error::TransportError(why)),
        PollEvent::Replied { status, body, received_at } => {
            let success = status_is_success(status);
            match body {
                TokenBody::Malformed(why) => PollStep::Failed(Error::ProtocolError(why)),
                TokenBody::Grant(grant) => {
                    if success {
                        accept_grant(grant, received_at)
                    } else {
                        PollStep::Failed(
                            Error::ProtocolError(String::from_str(BODY_AGAINST_STATUS)),
                        )
                    }
                },
                TokenBody::Denial(code) => {
                    if success {
                        PollStep::Failed(
                            Error::ProtocolError(String::from_str(BODY_AGAINST_STATUS)),
                        )
                    } else if code == String::from_str(AUTHORIZATION_PENDING) {
                        let mut pauses: Vec<u64> = Vec::new();
                        pauses.push(interval);
                        assert(pauses@ =~= seq![interval]);
                        PollStep::Attempt(
                            PollAttempt { pauses, request: token_request(device_code, client_id) },
                        )
                    } else if code == String::from_str(SLOW_DOWN) {
                        let mut pauses: Vec<u64> = Vec::new();
                        pauses.push(SLOW_DOWN_PAUSE);
                        pauses.push(interval);
                        assert(pauses@ =~= seq![SLOW_DOWN_PAUSE, interval]);
                        PollStep::Attempt(
                            PollAttempt { pauses, request: token_request(device_code, client_id) },
                        )
                    } else {
                        PollStep::Failed(Error::AuthenticationFailed(code))
                    }
                },
            }
        },
    }
}

/// Whether `event` is an answer with a failure status that carries the error
/// code `code`.
pub open spec fn denies_with(event: PollEventView, code: Seq<char>) -> bool {
    &&& event matches PollEventView::Replied { status, body, .. }
    &&& !is_success(status)
    &&& body == TokenBodyView::Denial(code)
}

/// The steps that follow `step` while the host reports `answers` in turn:
/// `step` itself, then, as long as the step before asks for a poll and an
/// answer is left, the step that [`spec_poll`] gives for that answer.
pub open spec fn spec_steps_from(
    device_code: Seq<char>,
    interval: u64,
    client_id: Seq<char>,
    step: PollStepView,
    answers: Seq<PollEventView>,
) -> Seq<PollStepView>
    decreases answers.len(),
{
    if step is Attempt && answers.len() > 0 {
        seq![step] + spec_steps_from(
            device_code,
            interval,
            client_id,
            spec_poll(device_code, interval, client_id, answers[0]),
            answers.drop_first(),
        )
    } else {
        seq![step]
    }
}

/// Every step of a login whose polls are answered by `answers` in turn, from
/// the first poll to the step that ends the loop or to the poll that no
/// answer is left for.
pub open spec fn spec_run(
    device_code: Seq<char>,
    interval: u64,
    client_id: Seq<char>,
    answers: Seq<PollEventView>,
) -> Seq<PollStepView> {
    spec_steps_from(
        device_code,
        interval,
        client_id,
        spec_poll(device_code, interval, client_id, PollEventView::Started),
        answers,
    )
}

proof fn lemma_steps_from(
    device_code: Seq<char>,
    interval: u64,
    client_id: Seq<char>,
    step: PollStepView,
    answers: Seq<PollEventView>,
    i: int,
)
    requires
        0 <= i < answers.len(),
        step is Attempt,
        forall|j: int|
            0 <= j < i ==> (#[trigger] spec_poll(
                device_code,
                interval,
                client_id,
                answers[j],
            )) is Attempt,
    ensures
        spec_steps_from(device_code, interval, client_id, step, answers).len() >= i + 2,
        spec_steps_from(device_code, interval, client_id, step, answers)[0] == step,
        spec_steps_from(device_code, interval, client_id, step, answers)[i + 1] == spec_poll(
            device_code,
            interval,
            client_id,
            answers[i],
        ),
        !(spec_poll(device_code, interval, client_id, answers[i]) is Attempt) ==> spec_steps_from(
            device_code,
            interval,
            client_id,
            step,
            answers,
        ).len() == i + 2,
    decreases i,
{
    let next = spec_poll(device_code, interval, client_id, answers[0]);
    let rest = answers.drop_first();
    let tail = spec_steps_from(device_code, interval, client_id, next, rest);
    assert(spec_steps_from(device_code, interval, client_id, step, answers) == seq![step] + tail);
    if i == 0 {
        assert(tail[0] == next);
    } else {
        assert forall|j: int| 0 <= j < i - 1 implies (#[trigger] spec_poll(
            device_code,
            interval,
            client_id,
            rest[j],
        )) is Attempt by {
            assert(rest[j] == answers[j + 1]);
        }
        assert(rest[i - 1] == answers[i]);
        lemma_steps_from(device_code, interval, client_id, next, rest, i - 1);
    }
}

/// A login runs as its answers say, one step for each: while every answer
/// so far asked for another poll, the step after the `i`-th answer is the
/// one that [`spec_poll`] gives for it alone, whatever came before; and if
/// that step is no poll, it is the last, whatever answers are left.
pub proof fn lemma_run_follows_answers(
    device_code: Seq<char>,
    interval: u64,
    client_id: Seq<char>,
    answers: Seq<PollEventView>,
    i: int,
)
    requires
        0 <= i < answers.len(),
        forall|j: int|
            0 <= j < i ==> (#[trigger] spec_poll(
                device_code,
                interval,
                client_id,
                answers[j],
            )) is Attempt,
    ensures
        spec_run(device_code, interval, client_id, answers).len() >= i + 2,
        spec_run(device_code, interval, client_id, answers)[0] == attempt_after(
            seq![interval],
            device_code,
            client_id,
        ),
        spec_run(device_code, interval, client_id, answers)[i + 1] == spec_poll(
            device_code,
            interval,
            client_id,
            answers[i],
        ),
        !(spec_poll(device_code, interval, client_id, answers[i]) is Attempt) ==> spec_run(
            device_code,
            interval,
            client_id,
            answers,
        ).len() == i + 2,
{
    lemma_steps_from(
        device_code,
        interval,
        client_id,
        spec_poll(device_code, interval, client_id, PollEventView::Started),
        answers,
        i,
    );
}

/// A provider that answers `authorization_pending` `n` times and then
/// grants tokens is polled exactly `n + 1` times, each poll after one sleep
/// of the interval, and the step after the last poll is the credential of
/// the grant.
pub proof fn lemma_pending_then_granted(
    device_code: Seq<char>,
    interval: u64,
    client_id: Seq<char>,
    answers: Seq<PollEventView>,
    n: int,
)
    requires
        0 <= n < answers.len(),
        forall|j: int| 0 <= j < n ==> denies_with(#[trigger] answers[j], AUTHORIZATION_PENDING@),
        answers[n] is Replied,
        is_success(answers[n]->Replied_status),
        answers[n]->Replied_body is Grant,
    ensures
        spec_run(device_code, interval, client_id, answers).len() == n + 2,
        forall|k: int|
            0 <= k <= n ==> #[trigger] spec_run(device_code, interval, client_id, answers)[k]
                == attempt_after(seq![interval], device_code, client_id),
        spec_run(device_code, interval, client_id, answers)[n + 1] == spec_granted(
            answers[n]->Replied_body->Grant_access_token,
            answers[n]->Replied_body->Grant_refresh_token,
            answers[n]->Replied_body->Grant_expires_in,
            answers[n]->Replied_received_at,
        ),
{
    let run = spec_run(device_code, interval, client_id, answers);
    assert forall|j: int| 0 <= j < n implies (#[trigger] spec_poll(
        device_code,
        interval,
        client_id,
        answers[j],
    )) == attempt_after(seq![interval], device_code, client_id) by {
        assert(denies_with(answers[j], AUTHORIZATION_PENDING@));
    }
    lemma_run_follows_answers(device_code, interval, client_id, answers, n);
    assert forall|k: int| 0 <= k <= n implies #[trigger] run[k] == attempt_after(
        seq![interval],
        device_code,
        client_id,
    ) by {
        if k > 0 {
            lemma_run_follows_answers(device_code, interval, client_id, answers, k - 1);
        }
    }
}

/// The two error codes after which the loop polls again are different texts.
pub proof fn lemma_codes_differ()
    ensures
        AUTHORIZATION_PENDING@ != SLOW_DOWN@,
{
    reveal_strlit("authorization_pending");
    reveal_strlit("slow_down");
    assert(AUTHORIZATION_PENDING@.len() == 21);
    assert(SLOW_DOWN@.len() == 9);
}

/// A `slow_down` answer puts one pause of [`SLOW_DOWN_PAUSE`] seconds in
/// front of the next poll's sleep of the interval, and the poll after that
/// one is again what its own answer asks for: after `authorization_pending`
/// it sleeps the interval alone.
pub proof fn lemma_slow_down_pauses_once(
    device_code: Seq<char>,
    interval: u64,
    client_id: Seq<char>,
    answers: Seq<PollEventView>,
    i: int,
)
    requires
        0 <= i < answers.len(),
        forall|j: int|
            0 <= j < i ==> (#[trigger] spec_poll(
                device_code,
                interval,
                client_id,
                answers[j],
            )) is Attempt,
        denies_with(answers[i], SLOW_DOWN@),
    ensures
        spec_run(device_code, interval, client_id, answers)[i + 1] == attempt_after(
            seq![SLOW_DOWN_PAUSE, interval],
            device_code,
            client_id,
        ),
        i + 1 < answers.len() && denies_with(answers[i + 1], AUTHORIZATION_PENDING@)
            ==> spec_run(device_code, interval, client_id, answers)[i + 2] == attempt_after(
            seq![interval],
            device_code,
            client_id,
        ),
{
    lemma_codes_differ();
    lemma_run_follows_answers(device_code, interval, client_id, answers, i);
    if i + 1 < answers.len() && denies_with(answers[i + 1], AUTHORIZATION_PENDING@) {
        lemma_run_follows_answers(device_code, interval, client_id, answers, i + 1);
    }
}

/// An answer with a failure status and an error code other than
/// `authorization_pending` and `slow_down` ends the login at once with
/// `AuthenticationFailed` and that code: no step follows it, whatever
/// answers a further poll would have had.
pub proof fn lemma_other_code_is_terminal(
    device_code: Seq<char>,
    interval: u64,
    client_id: Seq<char>,
    answers: Seq<PollEventView>,
    i: int,
    code: Seq<char>,
)
    requires
        0 <= i < answers.len(),
        forall|j: int|
            0 <= j < i ==> (#[trigger] spec_poll(
                device_code,
                interval,
                client_id,
                answers[j],
            )) is Attempt,
        denies_with(answers[i], code),
        code != AUTHORIZATION_PENDING@,
        code != SLOW_DOWN@,
    ensures
        spec_run(device_code, interval, client_id, answers).len() == i + 2,
        spec_run(device_code, interval, client_id, answers)[i + 1] == PollStepView::Failed(
            ErrorView::AuthenticationFailed(code),
        ),
{
    lemma_run_follows_answers(device_code, interval, client_id, answers, i);
}

} // verus!
