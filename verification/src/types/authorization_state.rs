//! The authorization state of a session, as the backend pushes it.

use crate::errors::DecodeFailure;
use crate::family::check_class;
use crate::family::outsider;
use crate::family::spec_class_failure;
use crate::family::spec_known_tag;
use crate::family::spec_outsider;
use crate::family::AuthorizationStateKind;
use crate::family::Class;
use crate::family::Family;
use crate::raw::RawTaggedObject;
use vstd::pervasive::unreached;
use vstd::prelude::*;

verus! {

/// What the backend says when it waits for the key of the local database.
/// The field is handed on as it came: `None` where the object did not
/// carry it.
#[derive(Debug, Clone, Copy, PartialEq, Eq, Structural)]
pub struct TGAuthorizationStateWaitEncryptionKey {
    /// Whether the database is currently encrypted.
    pub is_encrypted: Option<bool>,
}

/// What the backend says when it waits for an authentication code. The
/// field is handed on as it came: `None` where the object did not carry it.
#[derive(Debug, Clone, Copy, PartialEq, Eq, Structural)]
pub struct TGAuthorizationStateWaitCode {
    /// Whether the phone number belongs to a registered account.
    pub is_registered: Option<bool>,
}

/// What the backend says when it waits for the password of the account.
/// Each field is handed on as it came: `None` where the object did not
/// carry it.
#[derive(Debug, Clone)]
pub struct TGAuthorizationStateWaitPassword {
    /// A hint for the password.
    pub password_hint: Option<String>,
    /// Whether a recovery e-mail address has been set up.
    pub has_recovery_email_address: Option<bool>,
    /// The pattern of the e-mail address that a recovery code was sent to.
    pub recovery_email_address_pattern: Option<String>,
}

/// An authorization state: one member of the closed family of states that
/// the backend can push.
#[derive(Debug, Clone)]
pub enum TGAuthorization {
    /// The backend needs the session parameters.
    WaitTdlibParameters,
    /// The backend needs the key of the local database.
    WaitEncryptionKey(TGAuthorizationStateWaitEncryptionKey),
    /// The backend needs the phone number of the account.
    WaitPhoneNumber,
    /// The backend needs the authentication code it has sent.
    WaitCode(TGAuthorizationStateWaitCode),
    /// The backend needs the password of the account.
    WaitPassword(TGAuthorizationStateWaitPassword),
    /// The session is authorized.
    Ready,
    /// The session is logging out.
    LoggingOut,
    /// The session is closing.
    Closing,
    /// The session is closed. Nothing follows.
    Closed,
}

impl TGAuthorizationStateWaitPassword {
    /// What the fields of `raw` say of a wait for the password.
    pub open spec fn spec_of(raw: RawTaggedObject) -> TGAuthorizationStateWaitPassword {
        TGAuthorizationStateWaitPassword {
            password_hint: raw.spec_string("password_hint"@),
            has_recovery_email_address: raw.spec_flag("has_recovery_email_address"@),
            recovery_email_address_pattern: raw.spec_string("recovery_email_address_pattern"@),
        }
    }

    /// Reads the fields of a wait for the password from `raw`, whatever its
    /// tag is.
    pub fn of(raw: &RawTaggedObject) -> (r: TGAuthorizationStateWaitPassword)
        ensures
            r == Self::spec_of(*raw),
    {
        let password_hint = match raw.get_text("password_hint") {
            Some(text) => Some(text.clone()),
            None => None,
        };
        let recovery_email_address_pattern = match raw.get_text(
            "recovery_email_address_pattern",
        ) {
            Some(text) => Some(text.clone()),
            None => None,
        };
        TGAuthorizationStateWaitPassword {
            password_hint,
            has_recovery_email_address: raw.get_flag("has_recovery_email_address"),
            recovery_email_address_pattern,
        }
    }
}

impl TGAuthorization {
    /// The member of the authorization-state family that this value is.
    pub open spec fn spec_kind(self) -> AuthorizationStateKind {
        match self {
            TGAuthorization::WaitTdlibParameters => AuthorizationStateKind::WaitTdlibParameters,
            TGAuthorization::WaitEncryptionKey(_) => AuthorizationStateKind::WaitEncryptionKey,
            TGAuthorization::WaitPhoneNumber => AuthorizationStateKind::WaitPhoneNumber,
            TGAuthorization::WaitCode(_) => AuthorizationStateKind::WaitCode,
            TGAuthorization::WaitPassword(_) => AuthorizationStateKind::WaitPassword,
            TGAuthorization::Ready => AuthorizationStateKind::Ready,
            TGAuthorization::LoggingOut => AuthorizationStateKind::LoggingOut,
            TGAuthorization::Closing => AuthorizationStateKind::Closing,
            TGAuthorization::Closed => AuthorizationStateKind::Closed,
        }
    }

    /// What `raw` holds for a state of kind `kind`. No member has a field
    /// that must be there.
    pub open spec fn spec_member(raw: RawTaggedObject, kind: AuthorizationStateKind)
        -> TGAuthorization {
        match kind {
            AuthorizationStateKind::WaitTdlibParameters => TGAuthorization::WaitTdlibParameters,
            AuthorizationStateKind::WaitEncryptionKey => TGAuthorization::WaitEncryptionKey(
                TGAuthorizationStateWaitEncryptionKey {
                    is_encrypted: raw.spec_flag("is_encrypted"@),
                },
            ),
            AuthorizationStateKind::WaitPhoneNumber => TGAuthorization::WaitPhoneNumber,
            AuthorizationStateKind::WaitCode => TGAuthorization::WaitCode(
                TGAuthorizationStateWaitCode { is_registered: raw.spec_flag("is_registered"@) },
            ),
            AuthorizationStateKind::WaitPassword => TGAuthorization::WaitPassword(
                TGAuthorizationStateWaitPassword::spec_of(raw),
            ),
            AuthorizationStateKind::Ready => TGAuthorization::Ready,
            AuthorizationStateKind::LoggingOut => TGAuthorization::LoggingOut,
            AuthorizationStateKind::Closing => TGAuthorization::Closing,
            AuthorizationStateKind::Closed => TGAuthorization::Closed,
        }
    }

    /// What decoding `raw` as an authorization state gives.
    pub open spec fn spec_of(raw: RawTaggedObject) -> Result<TGAuthorization, DecodeFailure> {
        match AuthorizationStateKind::spec_of_tag(raw.tag@) {
            None => Err(spec_outsider(raw.tag@)),
            Some(kind) => Ok(Self::spec_member(raw, kind)),
        }
    }

    /// Decodes a tagged object as an authorization state. The tag alone
    /// selects the member; a member with fields carries them with it.
    pub fn of(raw: &RawTaggedObject) -> (r: Result<TGAuthorization, DecodeFailure>)
        ensures
            r == Self::spec_of(*raw),
            r matches Ok(state) ==> state.spec_kind().spec_tag() == raw.tag@,
            r is Ok <==> exists|k: AuthorizationStateKind| k.spec_tag() == raw.tag@,
            r matches Err(e) ==> e == spec_outsider(raw.tag@),
    {
        match AuthorizationStateKind::of_tag(raw.tag.as_str()) {
            None => Err(outsider(raw.tag.as_str())),
            Some(AuthorizationStateKind::WaitTdlibParameters) => Ok(
                TGAuthorization::WaitTdlibParameters,
            ),
            Some(AuthorizationStateKind::WaitEncryptionKey) => Ok(
                TGAuthorization::WaitEncryptionKey(
                    TGAuthorizationStateWaitEncryptionKey {
                        is_encrypted: raw.get_flag("is_encrypted"),
                    },
                ),
            ),
            Some(AuthorizationStateKind::WaitPhoneNumber) => Ok(TGAuthorization::WaitPhoneNumber),
            Some(AuthorizationStateKind::WaitCode) => Ok(
                TGAuthorization::WaitCode(
                    TGAuthorizationStateWaitCode { is_registered: raw.get_flag("is_registered") },
                ),
            ),
            Some(AuthorizationStateKind::WaitPassword) => Ok(
                TGAuthorization::WaitPassword(TGAuthorizationStateWaitPassword::of(raw)),
            ),
            Some(AuthorizationStateKind::Ready) => Ok(TGAuthorization::Ready),
            Some(AuthorizationStateKind::LoggingOut) => Ok(TGAuthorization::LoggingOut),
            Some(AuthorizationStateKind::Closing) => Ok(TGAuthorization::Closing),
            Some(AuthorizationStateKind::Closed) => Ok(TGAuthorization::Closed),
        }
    }

    /// Decoding follows the tag: an object that carries the tag of a member
    /// decodes to that member and to no other.
    pub proof fn lemma_known_tag_decodes(raw: RawTaggedObject, kind: AuthorizationStateKind)
        requires
            raw.tag@ == kind.spec_tag(),
        ensures
            Self::spec_of(raw) == Ok::<_, DecodeFailure>(Self::spec_member(raw, kind)),
            Self::spec_member(raw, kind).spec_kind() == kind,
    {
        let found = choose|k: AuthorizationStateKind| k.spec_tag() == raw.tag@;
        AuthorizationStateKind::lemma_tags_distinct(found, kind);
    }

    /// An object whose tag is none that this library decodes never
    /// decodes: it is rejected as an unknown tag.
    pub proof fn lemma_unknown_tag_fails(raw: RawTaggedObject)
        requires
            !spec_known_tag(raw.tag@),
        ensures
            Self::spec_of(raw) == Err::<TGAuthorization, _>(DecodeFailure::UnknownTag),
    {
        if Family::AuthorizationState.spec_has_member(raw.tag@) {
            Family::lemma_home(Family::AuthorizationState, raw.tag@);
        }
    }
}

/// An update of the authorization state, decoded from an object tagged
/// `updateAuthorizationState`.
///
/// Every value of this type holds an object whose nested state, where it
/// has one, decodes as an authorization state.
#[derive(Debug)]
pub struct TGAuthorizationState {
    origin: RawTaggedObject,
}

impl View for TGAuthorizationState {
    type V = RawTaggedObject;

    /// The object that the update was decoded from.
    closed spec fn view(&self) -> RawTaggedObject {
        self.origin
    }
}

impl TGAuthorizationState {
    #[verifier::type_invariant]
    spec fn well_formed(self) -> bool {
        Self::spec_failure(self.origin) is None
    }

    /// Why `raw` does not decode as an update of the authorization state,
    /// or `None` where it does. The update need not carry a state; one that
    /// it carries must decode.
    pub open spec fn spec_failure(raw: RawTaggedObject) -> Option<DecodeFailure> {
        if spec_class_failure(raw.tag@, Class::UpdateAuthorizationState) is Some {
            spec_class_failure(raw.tag@, Class::UpdateAuthorizationState)
        } else {
            match raw.spec_object("authorization_state"@) {
                None => None,
                Some(nested) => match TGAuthorization::spec_of(nested) {
                    Ok(_) => None,
                    Err(e) => Some(e),
                },
            }
        }
    }

    /// The state that an update decoded from `raw` carries, if it carries
    /// one.
    pub open spec fn spec_state_of(raw: RawTaggedObject) -> Option<TGAuthorization> {
        match raw.spec_object("authorization_state"@) {
            None => None,
            Some(nested) => Some(TGAuthorization::spec_of(nested)->Ok_0),
        }
    }

    /// The state that the update carries, if it carries one.
    pub open spec fn spec_state(self) -> Option<TGAuthorization> {
        Self::spec_state_of(self@)
    }

    /// Decodes a tagged object as an update of the authorization state.
    ///
    /// Succeeds exactly where the tag is `updateAuthorizationState` and the
    /// nested `authorization_state`, if there is one, decodes.
    pub fn decode(raw: RawTaggedObject) -> (r: Result<TGAuthorizationState, DecodeFailure>)
        ensures
            match r {
                Ok(update) => update@ == raw && Self::spec_failure(raw) is None,
                Err(e) => Self::spec_failure(raw) == Some(e),
            },
    {
        if let Some(e) = check_class(raw.tag.as_str(), Class::UpdateAuthorizationState) {
            return Err(e);
        }
        if let Some(nested) = raw.get_object("authorization_state") {
            if let Err(e) = TGAuthorization::of(nested) {
                return Err(e);
            }
        }
        Ok(TGAuthorizationState { origin: raw })
    }

    /// The object that the update was decoded from.
    pub fn origin(&self) -> (r: &RawTaggedObject)
        ensures
            *r == self@,
            Self::spec_failure(self@) is None,
    {
        proof {
            use_type_invariant(self);
        }
        &self.origin
    }

    /// The state that the update carries, if it carries one.
    pub fn state(&self) -> (r: Option<TGAuthorization>)
        ensures
            r == self.spec_state(),
    {
        proof {
            use_type_invariant(self);
        }
        match self.origin.get_object("authorization_state") {
            None => None,
            Some(nested) => match TGAuthorization::of(nested) {
                Ok(state) => Some(state),
                Err(_) => unreached(),
            },
        }
    }

    /// Calls `fnc` once if the update waits for the session parameters, and not
    /// at all otherwise. Returns `self`, so that calls can be chained.
    pub fn on_wait_tdlibparameters<F: FnOnce()>(&self, fnc: F) -> (r: &Self)
        requires
            self.spec_state() == Some(TGAuthorization::WaitTdlibParameters) ==> call_requires(fnc, ()),
        ensures
            r == self,
            self.spec_state() == Some(TGAuthorization::WaitTdlibParameters) ==> call_ensures(
                fnc,
                (),
                (),
            ),
    {
        match self.state() {
            Some(TGAuthorization::WaitTdlibParameters) => {
                fnc();
            },
            _ => {},
        }
        self
    }

    /// Calls `fnc` once, with what the state carries, if the update waits for
    /// the key of the local database, and not at all otherwise. Returns `self`,
    /// so that calls can be chained.
    pub fn on_wait_encryption_key<F: FnOnce(&TGAuthorizationStateWaitEncryptionKey)>(&self, fnc: F) -> (r: &Self)
        requires
            self.spec_state() matches Some(TGAuthorization::WaitEncryptionKey(payload)) ==> call_requires(
                fnc,
                (&payload,),
            ),
        ensures
            r == self,
            self.spec_state() matches Some(TGAuthorization::WaitEncryptionKey(payload)) ==> call_ensures(
                fnc,
                (&payload,),
                (),
            ),
    {
        match self.state() {
            Some(TGAuthorization::WaitEncryptionKey(payload)) => {
                fnc(&payload);
            },
            _ => {},
        }
        self
    }

    /// Calls `fnc` once if the update waits for the phone number of the
    /// account, and not at all otherwise. Returns `self`, so that calls can be
    /// chained.
    pub fn on_wait_phone_number<F: FnOnce()>(&self, fnc: F) -> (r: &Self)
        requires
            self.spec_state() == Some(TGAuthorization::WaitPhoneNumber) ==> call_requires(fnc, ()),
        ensures
            r == self,
            self.spec_state() == Some(TGAuthorization::WaitPhoneNumber) ==> call_ensures(
                fnc,
                (),
                (),
            ),
    {
        match self.state() {
            Some(TGAuthorization::WaitPhoneNumber) => {
                fnc();
            },
            _ => {},
        }
        self
    }

    /// Calls `fnc` once, with what the state carries, if the update waits for
    /// an authentication code, and not at all otherwise. Returns `self`, so
    /// that calls can be chained.
    pub fn on_wait_code<F: FnOnce(&TGAuthorizationStateWaitCode)>(&self, fnc: F) -> (r: &Self)
        requires
            self.spec_state() matches Some(TGAuthorization::WaitCode(payload)) ==> call_requires(
                fnc,
                (&payload,),
            ),
        ensures
            r == self,
            self.spec_state() matches Some(TGAuthorization::WaitCode(payload)) ==> call_ensures(
                fnc,
                (&payload,),
                (),
            ),
    {
        match self.state() {
            Some(TGAuthorization::WaitCode(payload)) => {
                fnc(&payload);
            },
            _ => {},
        }
        self
    }

    /// Calls `fnc` once, with what the state carries, if the update waits for
    /// the password of the account, and not at all otherwise. Returns `self`,
    /// so that calls can be chained.
    pub fn on_wait_password<F: FnOnce(&TGAuthorizationStateWaitPassword)>(&self, fnc: F) -> (r: &Self)
        requires
            self.spec_state() matches Some(TGAuthorization::WaitPassword(payload)) ==> call_requires(
                fnc,
                (&payload,),
            ),
        ensures
            r == self,
            self.spec_state() matches Some(TGAuthorization::WaitPassword(payload)) ==> call_ensures(
                fnc,
                (&payload,),
                (),
            ),
    {
        match self.state() {
            Some(TGAuthorization::WaitPassword(payload)) => {
                fnc(&payload);
            },
            _ => {},
        }
        self
    }

    /// Calls `fnc` once if the update says that the session is authorized, and
    /// not at all otherwise. Returns `self`, so that calls can be chained.
    pub fn on_state_ready<F: FnOnce()>(&self, fnc: F) -> (r: &Self)
        requires
            self.spec_state() == Some(TGAuthorization::Ready) ==> call_requires(fnc, ()),
        ensures
            r == self,
            self.spec_state() == Some(TGAuthorization::Ready) ==> call_ensures(
                fnc,
                (),
                (),
            ),
    {
        match self.state() {
            Some(TGAuthorization::Ready) => {
                fnc();
            },
            _ => {},
        }
        self
    }

    /// Calls `fnc` once if the update says that the session is logging out, and
    /// not at all otherwise. Returns `self`, so that calls can be chained.
    pub fn on_state_logging_out<F: FnOnce()>(&self, fnc: F) -> (r: &Self)
        requires
            self.spec_state() == Some(TGAuthorization::LoggingOut) ==> call_requires(fnc, ()),
        ensures
            r == self,
            self.spec_state() == Some(TGAuthorization::LoggingOut) ==> call_ensures(
                fnc,
                (),
                (),
            ),
    {
        match self.state() {
            Some(TGAuthorization::LoggingOut) => {
                fnc();
            },
            _ => {},
        }
        self
    }

    /// Calls `fnc` once if the update says that the session is closing, and not
    /// at all otherwise. Returns `self`, so that calls can be chained.
    pub fn on_state_closing<F: FnOnce()>(&self, fnc: F) -> (r: &Self)
        requires
            self.spec_state() == Some(TGAuthorization::Closing) ==> call_requires(fnc, ()),
        ensures
            r == self,
            self.spec_state() == Some(TGAuthorization::Closing) ==> call_ensures(
                fnc,
                (),
                (),
            ),
    {
        match self.state() {
            Some(TGAuthorization::Closing) => {
                fnc();
            },
            _ => {},
        }
        self
    }

    /// Calls `fnc` once if the update says that the session is closed, and not
    /// at all otherwise. Returns `self`, so that calls can be chained.
    pub fn on_state_closed<F: FnOnce()>(&self, fnc: F) -> (r: &Self)
        requires
            self.spec_state() == Some(TGAuthorization::Closed) ==> call_requires(fnc, ()),
        ensures
            r == self,
            self.spec_state() == Some(TGAuthorization::Closed) ==> call_ensures(
                fnc,
                (),
                (),
            ),
    {
        match self.state() {
            Some(TGAuthorization::Closed) => {
                fnc();
            },
            _ => {},
        }
        self
    }
}

} // verus!
