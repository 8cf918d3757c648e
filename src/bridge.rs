//! The call to the speech endpoint, split around the transport: a session
//! gate and call plan before it, and the reading of its outcome after it.

use vstd::prelude::*;
use vstd::string::*;
use crate::request::SynthesisRequest;
use crate::wire::{encode_request, prompt_fits, request_bytes, EncodeError};

verus! {

/// Where a session stands in its single authentication.
#[derive(Clone, Copy, Debug, PartialEq, Eq, Structural)]
pub enum AuthState {
    Pending,
    Authenticated,
    Failed,
}

/// Why authentication failed; fatal to the process either way.
#[derive(Clone, Copy, Debug, PartialEq, Eq, Structural)]
pub enum AuthError {
    Network,
    Rejected,
    /// The session was already established or had failed: it is made once.
    AlreadySettled,
}

/// What the transport reported for the authentication handshake.
#[derive(Clone, Copy, Debug, PartialEq, Eq, Structural)]
pub enum AuthOutcome {
    Accepted,
    NetworkFailure,
    CredentialsRejected,
}

/// The one session of the process: it authenticates once and is then only
/// read by the calls made through it.
#[derive(Debug)]
pub struct SessionHolder {
    state: AuthState,
}

/// The verb of the call.
#[derive(Clone, Copy, Debug, PartialEq, Eq, Structural)]
pub enum Method {
    Post,
}

/// A call ready for the transport: verb, path and encoded body.
#[derive(Debug)]
pub struct RpcCall {
    pub method: Method,
    pub endpoint: String,
    pub body: Vec<u8>,
}

/// What went wrong with a call.
#[derive(Clone, Debug)]
pub enum CallFailure {
    /// The session had not completed authentication.
    NotAuthenticated,
    Encoding(EncodeError),
    /// The remote service answered with a non-success status.
    Status(u16),
    /// The transport failed; the text is its own description.
    Transport(String),
}

/// A failed call, with the endpoint it was aimed at.
#[derive(Clone, Debug)]
pub struct RpcError {
    pub endpoint: String,
    pub cause: CallFailure,
}

/// What the transport handed back for a call.
#[derive(Clone, Debug)]
pub enum TransportOutcome {
    Response { status: u16, body: Vec<u8> },
    Failed { cause: String },
}

/// The private path of the speech endpoint.
pub open spec fn tts_endpoint_path() -> Seq<char> {
    seq![
        '/', 'c', 'l', 'i', 'e', 'n', 't', '-', 't', 't', 's', '/', 'v', '1', '/', 'f', 'u', 'l',
        'f', 'i', 'l', 'l',
    ]
}

/// The state after one authentication outcome: only a pending session
/// moves, and only acceptance authenticates it.
pub open spec fn auth_step(s: AuthState, o: AuthOutcome) -> AuthState {
    match s {
        AuthState::Pending => match o {
            AuthOutcome::Accepted => AuthState::Authenticated,
            _ => AuthState::Failed,
        },
        _ => s,
    }
}

/// The state after a run of outcomes.
pub open spec fn auth_run(s: AuthState, os: Seq<AuthOutcome>) -> AuthState
    decreases os.len(),
{
    if os.len() == 0 {
        s
    } else {
        auth_run(auth_step(s, os[0]), os.drop_first())
    }
}

/// A status in the success class.
pub open spec fn is_success(status: u16) -> bool {
    200 <= status <= 299
}

/// The path of the speech endpoint.
pub fn tts_endpoint() -> (r: String)
    ensures
        r@ == tts_endpoint_path(),
{
    let r = String::from_str("/client-tts/v1/fulfill");
    proof {
        reveal_strlit("/client-tts/v1/fulfill");
        assert(r@ =~= tts_endpoint_path());
    }
    r
}

impl SessionHolder {
    /// The authentication state.
    pub closed spec fn state(&self) -> AuthState {
        self.state
    }

    /// A session that has not authenticated yet.
    pub fn new() -> (r: SessionHolder)
        ensures
            r.state() == AuthState::Pending,
    {
        SessionHolder { state: AuthState::Pending }
    }

    /// Whether calls may go through this session.
    pub fn is_authenticated(&self) -> (r: bool)
        ensures
            r == (self.state() == AuthState::Authenticated),
    {
        match self.state {
            AuthState::Authenticated => true,
            _ => false,
        }
    }

    /// Records the outcome of the one authentication. A pending session
    /// takes it; a settled one keeps its state and refuses.
    pub fn complete_auth(&mut self, outcome: AuthOutcome) -> (r: Result<(), AuthError>)
        ensures
            final(self).state() == auth_step(old(self).state(), outcome),
            old(self).state() != AuthState::Pending ==> final(self).state() == old(self).state()
                && r == Err::<(), AuthError>(AuthError::AlreadySettled),
            old(self).state() == AuthState::Pending ==> match outcome {
                AuthOutcome::Accepted => final(self).state() == AuthState::Authenticated && r
                    is Ok,
                AuthOutcome::NetworkFailure => final(self).state() == AuthState::Failed && r
                    == Err::<(), AuthError>(AuthError::Network),
                AuthOutcome::CredentialsRejected => final(self).state() == AuthState::Failed && r
                    == Err::<(), AuthError>(AuthError::Rejected),
            },
    {
        match self.state {
            AuthState::Pending => match outcome {
                AuthOutcome::Accepted => {
                    self.state = AuthState::Authenticated;
                    Ok(())
                },
                AuthOutcome::NetworkFailure => {
                    self.state = AuthState::Failed;
                    Err(AuthError::Network)
                },
                AuthOutcome::CredentialsRejected => {
                    self.state = AuthState::Failed;
                    Err(AuthError::Rejected)
                },
            },
            _ => Err(AuthError::AlreadySettled),
        }
    }

    /// Prepares the call for `req`. Before authentication has completed it
    /// fails at once, and nothing reaches the transport.
    pub fn prepare_call(&self, req: &SynthesisRequest) -> (r: Result<RpcCall, RpcError>)
        ensures
            r is Ok <==> self.state() == AuthState::Authenticated && prompt_fits(req@.prompt),
            r is Ok ==> r->Ok_0.method == Method::Post && r->Ok_0.endpoint@ == tts_endpoint_path()
                && r->Ok_0.body@ == request_bytes(req@),
            r is Err ==> r->Err_0.endpoint@ == tts_endpoint_path(),
            self.state() != AuthState::Authenticated ==> r is Err && r->Err_0.cause
                is NotAuthenticated,
            self.state() == AuthState::Authenticated && !prompt_fits(req@.prompt) ==> r is Err
                && r->Err_0.cause == CallFailure::Encoding(EncodeError::TooLarge),
    {
        let endpoint = tts_endpoint();
        if !self.is_authenticated() {
            return Err(RpcError { endpoint, cause: CallFailure::NotAuthenticated });
        }
        match encode_request(req) {
            Ok(body) => Ok(RpcCall { method: Method::Post, endpoint, body }),
            Err(e) => Err(RpcError { endpoint, cause: CallFailure::Encoding(e) }),
        }
    }
}

/// Reads what the transport handed back: the body of a success, else an
/// error naming the endpoint and the cause.
pub fn finish_call(outcome: TransportOutcome) -> (r: Result<Vec<u8>, RpcError>)
    ensures
        match outcome {
            TransportOutcome::Response { status, body } => if is_success(status) {
                r is Ok && r->Ok_0@ == body@
            } else {
                r is Err && r->Err_0.endpoint@ == tts_endpoint_path() && r->Err_0.cause
                    == CallFailure::Status(status)
            },
            TransportOutcome::Failed { cause } => r is Err && r->Err_0.endpoint@
                == tts_endpoint_path() && r->Err_0.cause == CallFailure::Transport(cause),
        },
{
    match outcome {
        TransportOutcome::Response { status, body } => {
            if 200 <= status && status <= 299 {
                Ok(body)
            } else {
                Err(RpcError { endpoint: tts_endpoint(), cause: CallFailure::Status(status) })
            }
        },
        TransportOutcome::Failed { cause } => Err(
            RpcError { endpoint: tts_endpoint(), cause: CallFailure::Transport(cause) },
        ),
    }
}

/// A session authenticates once: whatever outcomes follow, a new session
/// can carry calls exactly when its first outcome was an acceptance, and a
/// session that failed never can.
pub proof fn lemma_authenticated_once(os: Seq<AuthOutcome>)
    ensures
        os.len() == 0 ==> auth_run(AuthState::Pending, os) == AuthState::Pending,
        os.len() > 0 ==> (auth_run(AuthState::Pending, os) == AuthState::Authenticated <==> os[0]
            == AuthOutcome::Accepted),
        auth_run(AuthState::Failed, os) == AuthState::Failed,
    decreases os.len(),
{
    lemma_settled_stays(AuthState::Failed, os);
    if os.len() > 0 {
        lemma_settled_stays(auth_step(AuthState::Pending, os[0]), os.drop_first());
    }
}

/// A settled session keeps its state.
proof fn lemma_settled_stays(s: AuthState, os: Seq<AuthOutcome>)
    requires
        s != AuthState::Pending,
    ensures
        auth_run(s, os) == s,
    decreases os.len(),
{
    if os.len() > 0 {
        lemma_settled_stays(s, os.drop_first());
    }
}

} // verus!
