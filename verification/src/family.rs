//! The closed families of tagged objects: which tags belong to which
//! family, and what a tag outside a family is rejected with.

use crate::errors::DecodeFailure;
use vstd::prelude::*;

verus! {

/// The members of the authorization-state family.
#[derive(Debug, Clone, Copy, PartialEq, Eq, Hash, Structural)]
pub enum AuthorizationStateKind {
    WaitTdlibParameters,
    WaitEncryptionKey,
    WaitPhoneNumber,
    WaitCode,
    WaitPassword,
    Ready,
    LoggingOut,
    Closing,
    Closed,
}

/// The members of the chat-type family.
#[derive(Debug, Clone, Copy, PartialEq, Eq, Hash, Structural)]
pub enum ChatTypeKind {
    Private,
    BasicGroup,
    Supergroup,
    Secret,
}

/// The members of the link-state family.
#[derive(Debug, Clone, Copy, PartialEq, Eq, Hash, Structural)]
pub enum LinkStateKind {
    IsContact,
    KnowsPhoneNumber,
    Unknown,
}

/// The members of the user-status family.
#[derive(Debug, Clone, Copy, PartialEq, Eq, Hash, Structural)]
pub enum UserStatusKind {
    Empty,
    LastMonth,
    LastWeek,
    Offline,
    Online,
    Recently,
}

/// The members of the user-type family.
#[derive(Debug, Clone, Copy, PartialEq, Eq, Hash, Structural)]
pub enum UserTypeKind {
    Bot,
    Deleted,
    Regular,
    Unknown,
}

/// The classes that are decoded on their own, outside any family.
#[derive(Debug, Clone, Copy, PartialEq, Eq, Hash, Structural)]
pub enum Class {
    Error,
    Invoice,
    UpdateAuthorizationState,
    User,
}

/// A closed family of tagged objects.
#[derive(Debug, Clone, Copy, PartialEq, Eq, Hash, Structural)]
pub enum Family {
    AuthorizationState,
    ChatType,
    LinkState,
    UserStatus,
    UserType,
}

impl AuthorizationStateKind {
    /// The tag that the backend writes for this member.
    pub open spec fn spec_tag(self) -> Seq<char> {
        match self {
            AuthorizationStateKind::WaitTdlibParameters => "authorizationStateWaitTdlibParameters"@,
            AuthorizationStateKind::WaitEncryptionKey => "authorizationStateWaitEncryptionKey"@,
            AuthorizationStateKind::WaitPhoneNumber => "authorizationStateWaitPhoneNumber"@,
            AuthorizationStateKind::WaitCode => "authorizationStateWaitCode"@,
            AuthorizationStateKind::WaitPassword => "authorizationStateWaitPassword"@,
            AuthorizationStateKind::Ready => "authorizationStateReady"@,
            AuthorizationStateKind::LoggingOut => "authorizationStateLoggingOut"@,
            AuthorizationStateKind::Closing => "authorizationStateClosing"@,
            AuthorizationStateKind::Closed => "authorizationStateClosed"@,
        }
    }

    /// The member whose tag is exactly `tag`, if there is one.
    pub open spec fn spec_of_tag(tag: Seq<char>) -> Option<Self> {
        if exists|k: Self| k.spec_tag() == tag {
            Some(choose|k: Self| k.spec_tag() == tag)
        } else {
            None
        }
    }

    /// The tag that the backend writes for this member.
    pub fn tag(&self) -> (s: &'static str)
        ensures
            s@ == self.spec_tag(),
    {
        match self {
            AuthorizationStateKind::WaitTdlibParameters => "authorizationStateWaitTdlibParameters",
            AuthorizationStateKind::WaitEncryptionKey => "authorizationStateWaitEncryptionKey",
            AuthorizationStateKind::WaitPhoneNumber => "authorizationStateWaitPhoneNumber",
            AuthorizationStateKind::WaitCode => "authorizationStateWaitCode",
            AuthorizationStateKind::WaitPassword => "authorizationStateWaitPassword",
            AuthorizationStateKind::Ready => "authorizationStateReady",
            AuthorizationStateKind::LoggingOut => "authorizationStateLoggingOut",
            AuthorizationStateKind::Closing => "authorizationStateClosing",
            AuthorizationStateKind::Closed => "authorizationStateClosed",
        }
    }

    /// No two members of the family share a tag.
    pub proof fn lemma_tags_distinct(a: Self, b: Self)
        ensures
            a.spec_tag() == b.spec_tag() ==> a == b,
    {
        reveal_strlit("authorizationStateWaitTdlibParameters");
        reveal_strlit("authorizationStateWaitEncryptionKey");
        reveal_strlit("authorizationStateWaitPhoneNumber");
        reveal_strlit("authorizationStateWaitCode");
        reveal_strlit("authorizationStateWaitPassword");
        reveal_strlit("authorizationStateReady");
        reveal_strlit("authorizationStateLoggingOut");
        reveal_strlit("authorizationStateClosing");
        reveal_strlit("authorizationStateClosed");
        if a != b {
            assert(a.spec_tag().len() != b.spec_tag().len());
        }
    }

    /// Every member is found by its own tag.
    pub proof fn lemma_of_own_tag(kind: Self)
        ensures
            Self::spec_of_tag(kind.spec_tag()) == Some(kind),
    {
        let found = choose|k: Self| k.spec_tag() == kind.spec_tag();
        Self::lemma_tags_distinct(found, kind);
    }

    /// Finds the member of the authorization-state family whose tag is exactly
    /// `tag`. Matching is equality of strings: no prefix, no change of case,
    /// and nothing stands in for a tag that is not found.
    pub fn of_tag(tag: &str) -> (r: Option<Self>)
        ensures
            r == Self::spec_of_tag(tag@),
            r matches Some(k) ==> k.spec_tag() == tag@,
            r is None ==> forall|k: Self| k.spec_tag() != tag@,
    {
        let found = if *tag == *"authorizationStateWaitTdlibParameters" {
            Some(AuthorizationStateKind::WaitTdlibParameters)
        } else if *tag == *"authorizationStateWaitEncryptionKey" {
            Some(AuthorizationStateKind::WaitEncryptionKey)
        } else if *tag == *"authorizationStateWaitPhoneNumber" {
            Some(AuthorizationStateKind::WaitPhoneNumber)
        } else if *tag == *"authorizationStateWaitCode" {
            Some(AuthorizationStateKind::WaitCode)
        } else if *tag == *"authorizationStateWaitPassword" {
            Some(AuthorizationStateKind::WaitPassword)
        } else if *tag == *"authorizationStateReady" {
            Some(AuthorizationStateKind::Ready)
        } else if *tag == *"authorizationStateLoggingOut" {
            Some(AuthorizationStateKind::LoggingOut)
        } else if *tag == *"authorizationStateClosing" {
            Some(AuthorizationStateKind::Closing)
        } else if *tag == *"authorizationStateClosed" {
            Some(AuthorizationStateKind::Closed)
        } else {
            None
        };
        proof {
            match found {
                Some(k) => {
                    assert(k.spec_tag() == tag@);
                    let c = choose|c: Self| c.spec_tag() == tag@;
                    Self::lemma_tags_distinct(c, k);
                },
                None => {
                    assert forall|k: Self| k.spec_tag() != tag@ by {
                        match k {
                            AuthorizationStateKind::WaitTdlibParameters => {},
                            AuthorizationStateKind::WaitEncryptionKey => {},
                            AuthorizationStateKind::WaitPhoneNumber => {},
                            AuthorizationStateKind::WaitCode => {},
                            AuthorizationStateKind::WaitPassword => {},
                            AuthorizationStateKind::Ready => {},
                            AuthorizationStateKind::LoggingOut => {},
                            AuthorizationStateKind::Closing => {},
                            AuthorizationStateKind::Closed => {},
                        }
                    }
                },
            }
        }
        found
    }
}

impl ChatTypeKind {
    /// The tag that the backend writes for this member.
    pub open spec fn spec_tag(self) -> Seq<char> {
        match self {
            ChatTypeKind::Private => "chatTypePrivate"@,
            ChatTypeKind::BasicGroup => "chatTypeBasicGroup"@,
            ChatTypeKind::Supergroup => "chatTypeSupergroup"@,
            ChatTypeKind::Secret => "chatTypeSecret"@,
        }
    }

    /// The member whose tag is exactly `tag`, if there is one.
    pub open spec fn spec_of_tag(tag: Seq<char>) -> Option<Self> {
        if exists|k: Self| k.spec_tag() == tag {
            Some(choose|k: Self| k.spec_tag() == tag)
        } else {
            None
        }
    }

    /// The tag that the backend writes for this member.
    pub fn tag(&self) -> (s: &'static str)
        ensures
            s@ == self.spec_tag(),
    {
        match self {
            ChatTypeKind::Private => "chatTypePrivate",
            ChatTypeKind::BasicGroup => "chatTypeBasicGroup",
            ChatTypeKind::Supergroup => "chatTypeSupergroup",
            ChatTypeKind::Secret => "chatTypeSecret",
        }
    }

    /// No two members of the family share a tag.
    pub proof fn lemma_tags_distinct(a: Self, b: Self)
        ensures
            a.spec_tag() == b.spec_tag() ==> a == b,
    {
        reveal_strlit("chatTypePrivate");
        reveal_strlit("chatTypeBasicGroup");
        reveal_strlit("chatTypeSupergroup");
        reveal_strlit("chatTypeSecret");
        if a != b {
            assert(a.spec_tag().len() != b.spec_tag().len() || a.spec_tag()[8] != b.spec_tag()[8]);
        }
    }

    /// Every member is found by its own tag.
    pub proof fn lemma_of_own_tag(kind: Self)
        ensures
            Self::spec_of_tag(kind.spec_tag()) == Some(kind),
    {
        let found = choose|k: Self| k.spec_tag() == kind.spec_tag();
        Self::lemma_tags_distinct(found, kind);
    }

    /// Finds the member of the chat-type family whose tag is exactly
    /// `tag`. Matching is equality of strings: no prefix, no change of case,
    /// and nothing stands in for a tag that is not found.
    pub fn of_tag(tag: &str) -> (r: Option<Self>)
        ensures
            r == Self::spec_of_tag(tag@),
            r matches Some(k) ==> k.spec_tag() == tag@,
            r is None ==> forall|k: Self| k.spec_tag() != tag@,
    {
        let found = if *tag == *"chatTypePrivate" {
            Some(ChatTypeKind::Private)
        } else if *tag == *"chatTypeBasicGroup" {
            Some(ChatTypeKind::BasicGroup)
        } else if *tag == *"chatTypeSupergroup" {
            Some(ChatTypeKind::Supergroup)
        } else if *tag == *"chatTypeSecret" {
            Some(ChatTypeKind::Secret)
        } else {
            None
        };
        proof {
            match found {
                Some(k) => {
                    assert(k.spec_tag() == tag@);
                    let c = choose|c: Self| c.spec_tag() == tag@;
                    Self::lemma_tags_distinct(c, k);
                },
                None => {
                    assert forall|k: Self| k.spec_tag() != tag@ by {
                        match k {
                            ChatTypeKind::Private => {},
                            ChatTypeKind::BasicGroup => {},
                            ChatTypeKind::Supergroup => {},
                            ChatTypeKind::Secret => {},
                        }
                    }
                },
            }
        }
        found
    }
}

impl LinkStateKind {
    /// The tag that the backend writes for this member.
    pub open spec fn spec_tag(self) -> Seq<char> {
        match self {
            LinkStateKind::IsContact => "linkStateIsContact"@,
            LinkStateKind::KnowsPhoneNumber => "linkStateKnowsPhoneNumber"@,
            LinkStateKind::Unknown => "linkStateNone"@,
        }
    }

    /// The member whose tag is exactly `tag`, if there is one.
    pub open spec fn spec_of_tag(tag: Seq<char>) -> Option<Self> {
        if exists|k: Self| k.spec_tag() == tag {
            Some(choose|k: Self| k.spec_tag() == tag)
        } else {
            None
        }
    }

    /// The tag that the backend writes for this member.
    pub fn tag(&self) -> (s: &'static str)
        ensures
            s@ == self.spec_tag(),
    {
        match self {
            LinkStateKind::IsContact => "linkStateIsContact",
            LinkStateKind::KnowsPhoneNumber => "linkStateKnowsPhoneNumber",
            LinkStateKind::Unknown => "linkStateNone",
        }
    }

    /// No two members of the family share a tag.
    pub proof fn lemma_tags_distinct(a: Self, b: Self)
        ensures
            a.spec_tag() == b.spec_tag() ==> a == b,
    {
        reveal_strlit("linkStateIsContact");
        reveal_strlit("linkStateKnowsPhoneNumber");
        reveal_strlit("linkStateNone");
        if a != b {
            assert(a.spec_tag().len() != b.spec_tag().len());
        }
    }

    /// Every member is found by its own tag.
    pub proof fn lemma_of_own_tag(kind: Self)
        ensures
            Self::spec_of_tag(kind.spec_tag()) == Some(kind),
    {
        let found = choose|k: Self| k.spec_tag() == kind.spec_tag();
        Self::lemma_tags_distinct(found, kind);
    }

    /// Finds the member of the link-state family whose tag is exactly
    /// `tag`. Matching is equality of strings: no prefix, no change of case,
    /// and nothing stands in for a tag that is not found.
    pub fn of_tag(tag: &str) -> (r: Option<Self>)
        ensures
            r == Self::spec_of_tag(tag@),
            r matches Some(k) ==> k.spec_tag() == tag@,
            r is None ==> forall|k: Self| k.spec_tag() != tag@,
    {
        let found = if *tag == *"linkStateIsContact" {
            Some(LinkStateKind::IsContact)
        } else if *tag == *"linkStateKnowsPhoneNumber" {
            Some(LinkStateKind::KnowsPhoneNumber)
        } else if *tag == *"linkStateNone" {
            Some(LinkStateKind::Unknown)
        } else {
            None
        };
        proof {
            match found {
                Some(k) => {
                    assert(k.spec_tag() == tag@);
                    let c = choose|c: Self| c.spec_tag() == tag@;
                    Self::lemma_tags_distinct(c, k);
                },
                None => {
                    assert forall|k: Self| k.spec_tag() != tag@ by {
                        match k {
                            LinkStateKind::IsContact => {},
                            LinkStateKind::KnowsPhoneNumber => {},
                            LinkStateKind::Unknown => {},
                        }
                    }
                },
            }
        }
        found
    }
}

impl UserStatusKind {
    /// The tag that the backend writes for this member.
    pub open spec fn spec_tag(self) -> Seq<char> {
        match self {
            UserStatusKind::Empty => "userStatusEmpty"@,
            UserStatusKind::LastMonth => "userStatusLastMonth"@,
            UserStatusKind::LastWeek => "userStatusLastWeek"@,
            UserStatusKind::Offline => "userStatusOffline"@,
            UserStatusKind::Online => "userStatusOnline"@,
            UserStatusKind::Recently => "userStatusRecently"@,
        }
    }

    /// The member whose tag is exactly `tag`, if there is one.
    pub open spec fn spec_of_tag(tag: Seq<char>) -> Option<Self> {
        if exists|k: Self| k.spec_tag() == tag {
            Some(choose|k: Self| k.spec_tag() == tag)
        } else {
            None
        }
    }

    /// The tag that the backend writes for this member.
    pub fn tag(&self) -> (s: &'static str)
        ensures
            s@ == self.spec_tag(),
    {
        match self {
            UserStatusKind::Empty => "userStatusEmpty",
            UserStatusKind::LastMonth => "userStatusLastMonth",
            UserStatusKind::LastWeek => "userStatusLastWeek",
            UserStatusKind::Offline => "userStatusOffline",
            UserStatusKind::Online => "userStatusOnline",
            UserStatusKind::Recently => "userStatusRecently",
        }
    }

    /// No two members of the family share a tag.
    pub proof fn lemma_tags_distinct(a: Self, b: Self)
        ensures
            a.spec_tag() == b.spec_tag() ==> a == b,
    {
        reveal_strlit("userStatusEmpty");
        reveal_strlit("userStatusLastMonth");
        reveal_strlit("userStatusLastWeek");
        reveal_strlit("userStatusOffline");
        reveal_strlit("userStatusOnline");
        reveal_strlit("userStatusRecently");
        if a != b {
            assert(a.spec_tag().len() != b.spec_tag().len() || a.spec_tag()[10] != b.spec_tag()[10]);
        }
    }

    /// Every member is found by its own tag.
    pub proof fn lemma_of_own_tag(kind: Self)
        ensures
            Self::spec_of_tag(kind.spec_tag()) == Some(kind),
    {
        let found = choose|k: Self| k.spec_tag() == kind.spec_tag();
        Self::lemma_tags_distinct(found, kind);
    }

    /// Finds the member of the user-status family whose tag is exactly
    /// `tag`. Matching is equality of strings: no prefix, no change of case,
    /// and nothing stands in for a tag that is not found.
    pub fn of_tag(tag: &str) -> (r: Option<Self>)
        ensures
            r == Self::spec_of_tag(tag@),
            r matches Some(k) ==> k.spec_tag() == tag@,
            r is None ==> forall|k: Self| k.spec_tag() != tag@,
    {
        let found = if *tag == *"userStatusEmpty" {
            Some(UserStatusKind::Empty)
        } else if *tag == *"userStatusLastMonth" {
            Some(UserStatusKind::LastMonth)
        } else if *tag == *"userStatusLastWeek" {
            Some(UserStatusKind::LastWeek)
        } else if *tag == *"userStatusOffline" {
            Some(UserStatusKind::Offline)
        } else if *tag == *"userStatusOnline" {
            Some(UserStatusKind::Online)
        } else if *tag == *"userStatusRecently" {
            Some(UserStatusKind::Recently)
        } else {
            None
        };
        proof {
            match found {
                Some(k) => {
                    assert(k.spec_tag() == tag@);
                    let c = choose|c: Self| c.spec_tag() == tag@;
                    Self::lemma_tags_distinct(c, k);
                },
                None => {
                    assert forall|k: Self| k.spec_tag() != tag@ by {
                        match k {
                            UserStatusKind::Empty => {},
                            UserStatusKind::LastMonth => {},
                            UserStatusKind::LastWeek => {},
                            UserStatusKind::Offline => {},
                            UserStatusKind::Online => {},
                            UserStatusKind::Recently => {},
                        }
                    }
                },
            }
        }
        found
    }
}

impl UserTypeKind {
    /// The tag that the backend writes for this member.
    pub open spec fn spec_tag(self) -> Seq<char> {
        match self {
            UserTypeKind::Bot => "userTypeBot"@,
            UserTypeKind::Deleted => "userTypeDeleted"@,
            UserTypeKind::Regular => "userTypeRegular"@,
            UserTypeKind::Unknown => "userTypeUnknown"@,
        }
    }

    /// The member whose tag is exactly `tag`, if there is one.
    pub open spec fn spec_of_tag(tag: Seq<char>) -> Option<Self> {
        if exists|k: Self| k.spec_tag() == tag {
            Some(choose|k: Self| k.spec_tag() == tag)
        } else {
            None
        }
    }

    /// The tag that the backend writes for this member.
    pub fn tag(&self) -> (s: &'static str)
        ensures
            s@ == self.spec_tag(),
    {
        match self {
            UserTypeKind::Bot => "userTypeBot",
            UserTypeKind::Deleted => "userTypeDeleted",
            UserTypeKind::Regular => "userTypeRegular",
            UserTypeKind::Unknown => "userTypeUnknown",
        }
    }

    /// No two members of the family share a tag.
    pub proof fn lemma_tags_distinct(a: Self, b: Self)
        ensures
            a.spec_tag() == b.spec_tag() ==> a == b,
    {
        reveal_strlit("userTypeBot");
        reveal_strlit("userTypeDeleted");
        reveal_strlit("userTypeRegular");
        reveal_strlit("userTypeUnknown");
        if a != b {
            assert(a.spec_tag().len() != b.spec_tag().len() || a.spec_tag()[8] != b.spec_tag()[8]);
        }
    }

    /// Every member is found by its own tag.
    pub proof fn lemma_of_own_tag(kind: Self)
        ensures
            Self::spec_of_tag(kind.spec_tag()) == Some(kind),
    {
        let found = choose|k: Self| k.spec_tag() == kind.spec_tag();
        Self::lemma_tags_distinct(found, kind);
    }

    /// Finds the member of the user-type family whose tag is exactly
    /// `tag`. Matching is equality of strings: no prefix, no change of case,
    /// and nothing stands in for a tag that is not found.
    pub fn of_tag(tag: &str) -> (r: Option<Self>)
        ensures
            r == Self::spec_of_tag(tag@),
            r matches Some(k) ==> k.spec_tag() == tag@,
            r is None ==> forall|k: Self| k.spec_tag() != tag@,
    {
        let found = if *tag == *"userTypeBot" {
            Some(UserTypeKind::Bot)
        } else if *tag == *"userTypeDeleted" {
            Some(UserTypeKind::Deleted)
        } else if *tag == *"userTypeRegular" {
            Some(UserTypeKind::Regular)
        } else if *tag == *"userTypeUnknown" {
            Some(UserTypeKind::Unknown)
        } else {
            None
        };
        proof {
            match found {
                Some(k) => {
                    assert(k.spec_tag() == tag@);
                    let c = choose|c: Self| c.spec_tag() == tag@;
                    Self::lemma_tags_distinct(c, k);
                },
                None => {
                    assert forall|k: Self| k.spec_tag() != tag@ by {
                        match k {
                            UserTypeKind::Bot => {},
                            UserTypeKind::Deleted => {},
                            UserTypeKind::Regular => {},
                            UserTypeKind::Unknown => {},
                        }
                    }
                },
            }
        }
        found
    }
}

impl Class {
    /// The tag that the backend writes for this class.
    pub open spec fn spec_tag(self) -> Seq<char> {
        match self {
            Class::Error => "error"@,
            Class::Invoice => "invoice"@,
            Class::UpdateAuthorizationState => "updateAuthorizationState"@,
            Class::User => "user"@,
        }
    }

    /// The class whose tag is exactly `tag`, if there is one.
    pub open spec fn spec_of_tag(tag: Seq<char>) -> Option<Self> {
        if exists|k: Self| k.spec_tag() == tag {
            Some(choose|k: Self| k.spec_tag() == tag)
        } else {
            None
        }
    }

    /// The tag that the backend writes for this class.
    pub fn tag(&self) -> (s: &'static str)
        ensures
            s@ == self.spec_tag(),
    {
        match self {
            Class::Error => "error",
            Class::Invoice => "invoice",
            Class::UpdateAuthorizationState => "updateAuthorizationState",
            Class::User => "user",
        }
    }

    /// No two classes share a tag.
    pub proof fn lemma_tags_distinct(a: Self, b: Self)
        ensures
            a.spec_tag() == b.spec_tag() ==> a == b,
    {
        reveal_strlit("error");
        reveal_strlit("invoice");
        reveal_strlit("updateAuthorizationState");
        reveal_strlit("user");
        if a != b {
            assert(a.spec_tag().len() != b.spec_tag().len());
        }
    }

    /// Every class is found by its own tag.
    pub proof fn lemma_of_own_tag(kind: Self)
        ensures
            Self::spec_of_tag(kind.spec_tag()) == Some(kind),
    {
        let found = choose|k: Self| k.spec_tag() == kind.spec_tag();
        Self::lemma_tags_distinct(found, kind);
    }

    /// Finds the class whose tag is exactly `tag`. Matching is equality of
    /// strings: no prefix, no change of case, and nothing stands in for a
    /// tag that is not found.
    pub fn of_tag(tag: &str) -> (r: Option<Self>)
        ensures
            r == Self::spec_of_tag(tag@),
            r matches Some(k) ==> k.spec_tag() == tag@,
            r is None ==> forall|k: Self| k.spec_tag() != tag@,
    {
        let found = if *tag == *"error" {
            Some(Class::Error)
        } else if *tag == *"invoice" {
            Some(Class::Invoice)
        } else if *tag == *"updateAuthorizationState" {
            Some(Class::UpdateAuthorizationState)
        } else if *tag == *"user" {
            Some(Class::User)
        } else {
            None
        };
        proof {
            match found {
                Some(k) => {
                    assert(k.spec_tag() == tag@);
                    let c = choose|c: Self| c.spec_tag() == tag@;
                    Self::lemma_tags_distinct(c, k);
                },
                None => {
                    assert forall|k: Self| k.spec_tag() != tag@ by {
                        match k {
                            Class::Error => {},
                            Class::Invoice => {},
                            Class::UpdateAuthorizationState => {},
                            Class::User => {},
                        }
                    }
                },
            }
        }
        found
    }
}

impl Family {
    /// Whether `tag` is exactly the tag of a member of the family.
    pub open spec fn spec_has_member(self, tag: Seq<char>) -> bool {
        match self {
            Family::AuthorizationState => AuthorizationStateKind::spec_of_tag(tag) is Some,
            Family::ChatType => ChatTypeKind::spec_of_tag(tag) is Some,
            Family::LinkState => LinkStateKind::spec_of_tag(tag) is Some,
            Family::UserStatus => UserStatusKind::spec_of_tag(tag) is Some,
            Family::UserType => UserTypeKind::spec_of_tag(tag) is Some,
        }
    }

    /// The family that `tag` is a member tag of, if there is one.
    pub open spec fn spec_of_tag(tag: Seq<char>) -> Option<Family> {
        if exists|family: Family| family.spec_has_member(tag) {
            Some(choose|family: Family| family.spec_has_member(tag))
        } else {
            None
        }
    }

    /// A tag that is the tag of a member of a family has that family, and
    /// no other, for its family.
    pub proof fn lemma_home(family: Family, tag: Seq<char>)
        requires
            family.spec_has_member(tag),
        ensures
            Family::spec_of_tag(tag) == Some(family),
    {
        let chosen = choose|chosen: Family| chosen.spec_has_member(tag);
        if chosen != family {
            lemma_tags_of_families_differ(family, chosen, tag);
        }
    }

    /// Whether `tag` is exactly the tag of a member of the family.
    pub fn has_member(&self, tag: &str) -> (r: bool)
        ensures
            r == self.spec_has_member(tag@),
    {
        match self {
            Family::AuthorizationState => AuthorizationStateKind::of_tag(tag).is_some(),
            Family::ChatType => ChatTypeKind::of_tag(tag).is_some(),
            Family::LinkState => LinkStateKind::of_tag(tag).is_some(),
            Family::UserStatus => UserStatusKind::of_tag(tag).is_some(),
            Family::UserType => UserTypeKind::of_tag(tag).is_some(),
        }
    }

    /// Finds the family that `tag` is a member tag of.
    pub fn of_tag(tag: &str) -> (r: Option<Family>)
        ensures
            r == Self::spec_of_tag(tag@),
            r matches Some(family) ==> family.spec_has_member(tag@),
            r is None ==> forall|family: Family| !family.spec_has_member(tag@),
    {
        let found = if Family::AuthorizationState.has_member(tag) {
            Some(Family::AuthorizationState)
        } else if Family::ChatType.has_member(tag) {
            Some(Family::ChatType)
        } else if Family::LinkState.has_member(tag) {
            Some(Family::LinkState)
        } else if Family::UserStatus.has_member(tag) {
            Some(Family::UserStatus)
        } else if Family::UserType.has_member(tag) {
            Some(Family::UserType)
        } else {
            None
        };
        proof {
            match found {
                Some(family) => {
                    Self::lemma_home(family, tag@);
                },
                None => {
                    assert forall|family: Family| !family.spec_has_member(tag@) by {
                        match family {
                            Family::AuthorizationState => {},
                            Family::ChatType => {},
                            Family::LinkState => {},
                            Family::UserStatus => {},
                            Family::UserType => {},
                        }
                    }
                },
            }
        }
        found
    }
}

/// The first and the fifth letter of every tag of the family.
pub open spec fn spec_initials(family: Family) -> (char, char) {
    match family {
        Family::AuthorizationState => ('a', 'o'),
        Family::ChatType => ('c', 'T'),
        Family::LinkState => ('l', 'S'),
        Family::UserStatus => ('u', 'S'),
        Family::UserType => ('u', 'T'),
    }
}

/// Every tag of a family has the initials of the family, and no tag of a
/// class that stands alone has the initials of any family.
pub proof fn lemma_tags_have_initials(family: Family, tag: Seq<char>)
    ensures
        family.spec_has_member(tag) ==> tag.len() > 4 && spec_initials(family) == (tag[0], tag[4]),
        Class::spec_of_tag(tag) is Some ==> !(tag.len() > 4 && spec_initials(family) == (
            tag[0],
            tag[4],
        )),
{
    reveal_strlit("authorizationStateWaitTdlibParameters");
    reveal_strlit("authorizationStateWaitEncryptionKey");
    reveal_strlit("authorizationStateWaitPhoneNumber");
    reveal_strlit("authorizationStateWaitCode");
    reveal_strlit("authorizationStateWaitPassword");
    reveal_strlit("authorizationStateReady");
    reveal_strlit("authorizationStateLoggingOut");
    reveal_strlit("authorizationStateClosing");
    reveal_strlit("authorizationStateClosed");
    reveal_strlit("chatTypePrivate");
    reveal_strlit("chatTypeBasicGroup");
    reveal_strlit("chatTypeSupergroup");
    reveal_strlit("chatTypeSecret");
    reveal_strlit("linkStateIsContact");
    reveal_strlit("linkStateKnowsPhoneNumber");
    reveal_strlit("linkStateNone");
    reveal_strlit("userStatusEmpty");
    reveal_strlit("userStatusLastMonth");
    reveal_strlit("userStatusLastWeek");
    reveal_strlit("userStatusOffline");
    reveal_strlit("userStatusOnline");
    reveal_strlit("userStatusRecently");
    reveal_strlit("userTypeBot");
    reveal_strlit("userTypeDeleted");
    reveal_strlit("userTypeRegular");
    reveal_strlit("userTypeUnknown");
    reveal_strlit("error");
    reveal_strlit("invoice");
    reveal_strlit("updateAuthorizationState");
    reveal_strlit("user");
}

/// No tag is the tag of a member of two families.
pub proof fn lemma_tags_of_families_differ(first: Family, second: Family, tag: Seq<char>)
    requires
        first != second,
        first.spec_has_member(tag),
    ensures
        !second.spec_has_member(tag),
{
    lemma_tags_have_initials(first, tag);
    lemma_tags_have_initials(second, tag);
}

/// No tag is both the tag of a member of a family and the tag of a class
/// that stands alone.
pub proof fn lemma_classes_stand_alone(family: Family, tag: Seq<char>)
    ensures
        !(family.spec_has_member(tag) && Class::spec_of_tag(tag) is Some),
{
    lemma_tags_have_initials(family, tag);
}

/// Whether `tag` is a tag that this library decodes: that of a member of
/// one of the families, or of a class that stands alone.
pub open spec fn spec_known_tag(tag: Seq<char>) -> bool {
    Family::spec_of_tag(tag) is Some || Class::spec_of_tag(tag) is Some
}

/// Whether `tag` is a tag that this library decodes.
pub fn is_known_tag(tag: &str) -> (r: bool)
    ensures
        r == spec_known_tag(tag@),
{
    Family::of_tag(tag).is_some() || Class::of_tag(tag).is_some()
}

/// The failure that a decoder gives for `tag` when it has no member for
/// it: the tag belongs elsewhere where it is known, and is unknown where
/// it is not.
pub open spec fn spec_outsider(tag: Seq<char>) -> DecodeFailure {
    if spec_known_tag(tag) {
        DecodeFailure::WrongFamily
    } else {
        DecodeFailure::UnknownTag
    }
}

/// The failure for `tag`, which the caller has found to be no member of
/// the family it decodes.
pub fn outsider(tag: &str) -> (e: DecodeFailure)
    ensures
        e == spec_outsider(tag@),
{
    if is_known_tag(tag) {
        DecodeFailure::WrongFamily
    } else {
        DecodeFailure::UnknownTag
    }
}

/// The failure, if any, of decoding an object tagged `tag` as the single
/// class `class`.
pub open spec fn spec_class_failure(tag: Seq<char>, class: Class) -> Option<DecodeFailure> {
    if tag == class.spec_tag() {
        None
    } else {
        Some(spec_outsider(tag))
    }
}

/// Checks that `tag` is exactly the tag of `class`, the one class that the
/// caller decodes.
pub fn check_class(tag: &str, class: Class) -> (r: Option<DecodeFailure>)
    ensures
        r == spec_class_failure(tag@, class),
{
    if *tag == *class.tag() {
        None
    } else {
        Some(outsider(tag))
    }
}

/// The failure, if any, of decoding an object tagged `tag` as the single
/// member `kind` of the chat-type family.
pub open spec fn spec_member_failure(tag: Seq<char>, kind: ChatTypeKind) -> Option<DecodeFailure> {
    if tag == kind.spec_tag() {
        None
    } else {
        Some(spec_outsider(tag))
    }
}

/// Checks that `tag` is exactly the tag of the member `kind` of the
/// chat-type family.
pub fn check_member(tag: &str, kind: ChatTypeKind) -> (r: Option<DecodeFailure>)
    ensures
        r == spec_member_failure(tag@, kind),
{
    if *tag == *kind.tag() {
        None
    } else {
        Some(outsider(tag))
    }
}

} // verus!
