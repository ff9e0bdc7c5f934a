//! The handshake of one login attempt, as a state machine that the
//! backend drives.

use crate::correlator::correlate;
use crate::correlator::spec_correlate;
use crate::correlator::ErrorSignal;
use crate::correlator::HandshakeStep;
use crate::errors::DecodeFailure;
use crate::raw::RawTaggedObject;
use crate::types::authorization_state::TGAuthorization;
use crate::types::authorization_state::TGAuthorizationState;
use vstd::prelude::*;

verus! {

/// Where a session stands in the handshake.
#[derive(Debug, Clone, Copy, PartialEq, Eq, Hash, Structural)]
pub enum SessionState {
    /// Nothing has arrived from the backend yet.
    Unauthenticated,
    /// The backend waits for the session parameters.
    WaitParameters,
    /// The backend waits for the key of the local database.
    WaitEncryptionKey,
    /// The backend waits for the phone number.
    WaitPhoneNumber,
    /// The backend waits for the authentication code.
    WaitCode,
    /// The backend waits for the password.
    WaitPassword,
    /// The session is authorized.
    Ready,
    /// The session is logging out.
    LoggingOut,
    /// The session is closing.
    Closing,
    /// The session is closed. It cannot be started again.
    Closed,
}

/// Whether a session is authorized, as an observer sees it.
#[derive(Debug, Clone, Copy, PartialEq, Eq, Hash, Structural)]
pub enum AuthFlag {
    /// The session has not been authorized yet.
    Unauthenticated,
    /// The session is authorized.
    Ready,
    /// The session was ended: it is logging out, closing or closed.
    Ended,
}

/// What the session asks its owner to send to the backend.
#[derive(Debug, Clone, Copy, PartialEq, Eq, Hash, Structural)]
pub enum AuthCommand {
    /// Send the session parameters.
    SendParameters,
    /// Confirm the key of the local database.
    CheckEncryptionKey,
    /// Ask the operator for the phone number and send it.
    SubmitPhoneNumber,
    /// Ask the operator for the authentication code and send it.
    SubmitCode,
    /// Ask the operator for a name and the authentication code, and send
    /// both: the phone number is not registered yet.
    SubmitNameAndCode,
    /// Ask the operator for the password and send it.
    SubmitPassword,
}

/// What a backend error did to a session.
#[derive(Debug, Clone, Copy, PartialEq, Eq, Hash, Structural)]
pub struct ErrorOutcome {
    /// What the error means.
    pub signal: ErrorSignal,
    /// The command of the step that was entered again, if one was.
    pub command: Option<AuthCommand>,
}

/// The flag that an observer sees in state `state`.
pub open spec fn spec_flag_of(state: SessionState) -> AuthFlag {
    match state {
        SessionState::Ready => AuthFlag::Ready,
        SessionState::LoggingOut | SessionState::Closing | SessionState::Closed => AuthFlag::Ended,
        _ => AuthFlag::Unauthenticated,
    }
}

/// The state that a pushed authorization state puts an open session in.
pub open spec fn spec_target(input: TGAuthorization) -> SessionState {
    match input {
        TGAuthorization::WaitTdlibParameters => SessionState::WaitParameters,
        TGAuthorization::WaitEncryptionKey(_) => SessionState::WaitEncryptionKey,
        TGAuthorization::WaitPhoneNumber => SessionState::WaitPhoneNumber,
        TGAuthorization::WaitCode(_) => SessionState::WaitCode,
        TGAuthorization::WaitPassword(_) => SessionState::WaitPassword,
        TGAuthorization::Ready => SessionState::Ready,
        TGAuthorization::LoggingOut => SessionState::LoggingOut,
        TGAuthorization::Closing => SessionState::Closing,
        TGAuthorization::Closed => SessionState::Closed,
    }
}

/// The one command that answers a pushed authorization state, or `None`
/// for a state that asks for nothing. An account counts as registered only
/// where the state says so.
pub open spec fn spec_command(input: TGAuthorization) -> Option<AuthCommand> {
    match input {
        TGAuthorization::WaitTdlibParameters => Some(AuthCommand::SendParameters),
        TGAuthorization::WaitEncryptionKey(_) => Some(AuthCommand::CheckEncryptionKey),
        TGAuthorization::WaitPhoneNumber => Some(AuthCommand::SubmitPhoneNumber),
        TGAuthorization::WaitCode(wait) => if wait.is_registered == Some(true) {
            Some(AuthCommand::SubmitCode)
        } else {
            Some(AuthCommand::SubmitNameAndCode)
        },
        TGAuthorization::WaitPassword(_) => Some(AuthCommand::SubmitPassword),
        TGAuthorization::Ready => None,
        TGAuthorization::LoggingOut => None,
        TGAuthorization::Closing => None,
        TGAuthorization::Closed => None,
    }
}

/// One step of the machine: the next state and the command to issue, for a
/// session in state `state` that is pushed `input`. A closed session stays
/// closed and issues nothing.
pub open spec fn spec_step(state: SessionState, input: TGAuthorization) -> (
    SessionState,
    Option<AuthCommand>,
) {
    if state == SessionState::Closed {
        (SessionState::Closed, None)
    } else {
        (spec_target(input), spec_command(input))
    }
}

/// The state that entering `step` again puts a session in.
pub open spec fn spec_reentry_state(step: HandshakeStep) -> SessionState {
    match step {
        HandshakeStep::PhoneNumber => SessionState::WaitPhoneNumber,
        HandshakeStep::Code => SessionState::WaitCode,
    }
}

/// The command that entering `step` again issues.
pub open spec fn spec_reentry_command(step: HandshakeStep) -> AuthCommand {
    match step {
        HandshakeStep::PhoneNumber => AuthCommand::SubmitPhoneNumber,
        HandshakeStep::Code => AuthCommand::SubmitCode,
    }
}

/// What the signal `signal` does to a session in state `state`: a
/// recoverable error sends an open session back to its step and issues the
/// command of that step; anything else, and anything at all once the
/// session is closed, changes nothing and issues nothing.
pub open spec fn spec_react(state: SessionState, signal: ErrorSignal) -> (
    SessionState,
    Option<AuthCommand>,
) {
    match signal {
        ErrorSignal::Recoverable(step) if state != SessionState::Closed => (
            spec_reentry_state(step),
            Some(spec_reentry_command(step)),
        ),
        _ => (state, None),
    }
}

/// The state of one login attempt.
///
/// The flag always says what the state says: it is `Ready` in state `Ready`
/// and nowhere else.
#[derive(Debug)]
pub struct AuthorizationSession {
    state: SessionState,
    flag: AuthFlag,
}

impl View for AuthorizationSession {
    type V = SessionState;

    /// The state that the session is in.
    closed spec fn view(&self) -> SessionState {
        self.state
    }
}

impl AuthorizationSession {
    #[verifier::type_invariant]
    spec fn well_formed(self) -> bool {
        self.flag == spec_flag_of(self.state)
    }

    /// A new session, which has heard nothing from the backend.
    pub fn new() -> (r: AuthorizationSession)
        ensures
            r@ == SessionState::Unauthenticated,
    {
        AuthorizationSession { state: SessionState::Unauthenticated, flag: AuthFlag::Unauthenticated }
    }

    /// The state that the session is in.
    pub fn state(&self) -> (r: SessionState)
        ensures
            r == self@,
    {
        self.state
    }

    /// Whether the session is authorized, ended, or neither yet.
    pub fn flag(&self) -> (r: AuthFlag)
        ensures
            r == spec_flag_of(self@),
    {
        proof {
            use_type_invariant(self);
        }
        self.flag
    }

    /// Whether the session is authorized: true in state `Ready` only.
    pub fn is_authenticated(&self) -> (r: bool)
        ensures
            r == (self@ == SessionState::Ready),
    {
        proof {
            use_type_invariant(self);
        }
        match self.flag {
            AuthFlag::Ready => true,
            _ => false,
        }
    }

    fn enter(&mut self, state: SessionState)
        ensures
            final(self)@ == state,
    {
        let flag = match state {
            SessionState::Ready => AuthFlag::Ready,
            SessionState::LoggingOut | SessionState::Closing | SessionState::Closed => {
                AuthFlag::Ended
            },
            _ => AuthFlag::Unauthenticated,
        };
        *self = AuthorizationSession { state, flag };
    }

    /// Takes one authorization state that the backend pushed: moves to the
    /// state it names and returns the one command that answers it, if it
    /// asks for one. A closed session stays closed and returns `None`.
    pub fn advance(&mut self, input: &TGAuthorization) -> (r: Option<AuthCommand>)
        ensures
            (final(self)@, r) == spec_step(old(self)@, *input),
            old(self)@ == SessionState::Closed ==> final(self)@ == SessionState::Closed && r is None,
    {
        if let SessionState::Closed = self.state {
            return None;
        }
        match input {
            TGAuthorization::WaitTdlibParameters => {
                self.enter(SessionState::WaitParameters);
                Some(AuthCommand::SendParameters)
            },
            TGAuthorization::WaitEncryptionKey(_) => {
                self.enter(SessionState::WaitEncryptionKey);
                Some(AuthCommand::CheckEncryptionKey)
            },
            TGAuthorization::WaitPhoneNumber => {
                self.enter(SessionState::WaitPhoneNumber);
                Some(AuthCommand::SubmitPhoneNumber)
            },
            TGAuthorization::WaitCode(wait) => {
                self.enter(SessionState::WaitCode);
                match wait.is_registered {
                    Some(true) => Some(AuthCommand::SubmitCode),
                    _ => Some(AuthCommand::SubmitNameAndCode),
                }
            },
            TGAuthorization::WaitPassword(_) => {
                self.enter(SessionState::WaitPassword);
                Some(AuthCommand::SubmitPassword)
            },
            TGAuthorization::Ready => {
                self.enter(SessionState::Ready);
                None
            },
            TGAuthorization::LoggingOut => {
                self.enter(SessionState::LoggingOut);
                None
            },
            TGAuthorization::Closing => {
                self.enter(SessionState::Closing);
                None
            },
            TGAuthorization::Closed => {
                self.enter(SessionState::Closed);
                None
            },
        }
    }

    /// What taking an update decoded from `raw` does to a session in state
    /// `state`: an update that carries a state is one step of the machine;
    /// one that carries none changes nothing and asks for nothing.
    pub open spec fn spec_receive(state: SessionState, raw: RawTaggedObject) -> (
        SessionState,
        Option<AuthCommand>,
    ) {
        match TGAuthorizationState::spec_state_of(raw) {
            Some(input) => spec_step(state, input),
            None => (state, None),
        }
    }

    /// Takes one decoded update. An update that carries no state changes
    /// nothing and asks for nothing.
    pub fn receive(&mut self, update: &TGAuthorizationState) -> (r: Option<AuthCommand>)
        ensures
            (final(self)@, r) == Self::spec_receive(old(self)@, update@),
            old(self)@ == SessionState::Closed ==> final(self)@ == SessionState::Closed && r is None,
    {
        match update.state() {
            Some(input) => self.advance(&input),
            None => None,
        }
    }

    /// Takes one object from the backend: decodes it as an update of the
    /// authorization state and takes the update. An object that does not
    /// decode changes nothing; the failure is returned and no command is.
    pub fn deliver(&mut self, raw: RawTaggedObject) -> (r: Result<Option<AuthCommand>, DecodeFailure>)
        ensures
            match TGAuthorizationState::spec_failure(raw) {
                Some(e) => r == Err::<Option<AuthCommand>, _>(e) && final(self)@ == old(self)@,
                None => r is Ok && (final(self)@, r->Ok_0) == Self::spec_receive(old(self)@, raw),
            },
            old(self)@ == SessionState::Closed ==> final(self)@ == SessionState::Closed && !(
            r matches Ok(Some(_))),
    {
        match TGAuthorizationState::decode(raw) {
            Ok(update) => {
                let command = self.receive(&update);
                Ok(command)
            },
            Err(e) => Err(e),
        }
    }

    /// Takes one backend error, judged by [`correlate`]. A recoverable
    /// error sends an open session back to the step it names and returns
    /// the command of that step; any other error, and any error once the
    /// session is closed, changes nothing.
    pub fn on_error(&mut self, code: i32, message: &str) -> (r: ErrorOutcome)
        ensures
            r.signal == spec_correlate(code, message@),
            (final(self)@, r.command) == spec_react(old(self)@, r.signal),
    {
        let signal = correlate(code, message);
        let command = match signal {
            ErrorSignal::Recoverable(step) => {
                if let SessionState::Closed = self.state {
                    None
                } else {
                    match step {
                        HandshakeStep::PhoneNumber => {
                            self.enter(SessionState::WaitPhoneNumber);
                            Some(AuthCommand::SubmitPhoneNumber)
                        },
                        HandshakeStep::Code => {
                            self.enter(SessionState::WaitCode);
                            Some(AuthCommand::SubmitCode)
                        },
                    }
                }
            },
            _ => None,
        };
        ErrorOutcome { signal, command }
    }
}

/// What a session that starts in state `state` comes to when it is pushed
/// `inputs` one after the other: the state it ends in, and the commands it
/// issues, in the order in which it issues them.
pub open spec fn spec_run(state: SessionState, inputs: Seq<TGAuthorization>) -> (
    SessionState,
    Seq<AuthCommand>,
)
    decreases inputs.len(),
{
    if inputs.len() == 0 {
        (state, Seq::empty())
    } else {
        let (before, issued) = spec_run(state, inputs.drop_last());
        let (after, command) = spec_step(before, inputs.last());
        (
            after,
            match command {
                Some(command) => issued.push(command),
                None => issued,
            },
        )
    }
}

/// Once a session has been closed, nothing that is pushed afterwards
/// changes its state or makes it issue another command.
pub proof fn lemma_nothing_after_closed(
    state: SessionState,
    before: Seq<TGAuthorization>,
    after: Seq<TGAuthorization>,
)
    requires
        spec_run(state, before).0 == SessionState::Closed,
    ensures
        spec_run(state, before + after) == spec_run(state, before),
    decreases after.len(),
{
    if after.len() == 0 {
        assert(before + after =~= before);
    } else {
        lemma_nothing_after_closed(state, before, after.drop_last());
        assert((before + after).drop_last() =~= before + after.drop_last());
        assert((before + after).last() == after.last());
    }
}

/// A closed session is closed for good: whatever is pushed, it stays closed
/// and issues no command; and no error opens it again.
pub proof fn lemma_closed_is_terminal(input: TGAuthorization, signal: ErrorSignal)
    ensures
        spec_step(SessionState::Closed, input) == (SessionState::Closed, None::<AuthCommand>),
        spec_react(SessionState::Closed, signal) == (SessionState::Closed, None::<AuthCommand>),
{
}

/// The flag says `Ready` in state `Ready` and in no other; the states that
/// wait for something leave it at `Unauthenticated`, and the three states
/// that end a session set it to `Ended`.
pub proof fn lemma_flag_follows_state(state: SessionState)
    ensures
        spec_flag_of(state) == AuthFlag::Ready <==> state == SessionState::Ready,
        spec_flag_of(state) == AuthFlag::Ended <==> state == SessionState::LoggingOut || state
            == SessionState::Closing || state == SessionState::Closed,
{
}

/// An open session issues exactly one command for each state that waits
/// for something, and none for `Ready`, `LoggingOut`, `Closing` and
/// `Closed`; the state it moves to is the one that was pushed.
pub proof fn lemma_one_command_per_waiting_state(state: SessionState, input: TGAuthorization)
    requires
        state != SessionState::Closed,
    ensures
        spec_step(state, input).0 == spec_target(input),
        spec_step(state, input).1 is Some <==> input is WaitTdlibParameters || input
            is WaitEncryptionKey || input is WaitPhoneNumber || input is WaitCode || input
            is WaitPassword,
        input matches TGAuthorization::WaitCode(wait) ==> spec_step(state, input).1 == Some(
            if wait.is_registered == Some(true) {
                AuthCommand::SubmitCode
            } else {
                AuthCommand::SubmitNameAndCode
            },
        ),
{
}

} // verus!
