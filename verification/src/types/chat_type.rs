//! The type of a chat.

use crate::errors::DecodeFailure;
use crate::family::check_member;
use crate::family::outsider;
use crate::family::spec_known_tag;
use crate::family::spec_member_failure;
use crate::family::spec_outsider;
use crate::family::ChatTypeKind;
use crate::family::Family;
use crate::raw::RawTaggedObject;
use vstd::pervasive::unreached;
use vstd::prelude::*;

verus! {

/// An ordinary chat with a user, decoded from an object tagged
/// `chatTypePrivate`.
///
/// Every value of this type holds an object that carries `user_id`.
#[derive(Debug)]
pub struct TGChatTypePrivate {
    origin: RawTaggedObject,
}

impl View for TGChatTypePrivate {
    type V = RawTaggedObject;

    /// The object that the value was decoded from.
    closed spec fn view(&self) -> RawTaggedObject {
        self.origin
    }
}

impl TGChatTypePrivate {
    #[verifier::type_invariant]
    spec fn well_formed(self) -> bool {
        Self::spec_failure(self.origin) is None
    }

    /// Why `raw` does not decode as this type of chat, or `None` where it
    /// does. The tag is judged first, then the mandatory fields.
    pub open spec fn spec_failure(raw: RawTaggedObject) -> Option<DecodeFailure> {
        if spec_member_failure(raw.tag@, ChatTypeKind::Private) is Some {
            spec_member_failure(raw.tag@, ChatTypeKind::Private)
        } else if raw.spec_int("user_id"@) is None {
            Some(DecodeFailure::MissingRequiredField)
        } else {
            None
        }
    }

    /// Judges whether `raw` decodes as this type of chat, and why not where
    /// it does not.
    pub fn check(raw: &RawTaggedObject) -> (r: Option<DecodeFailure>)
        ensures
            r == Self::spec_failure(*raw),
    {
        if let Some(e) = check_member(raw.tag.as_str(), ChatTypeKind::Private) {
            return Some(e);
        }
        if raw.get_int("user_id").is_none() {
            return Some(DecodeFailure::MissingRequiredField);
        }
        None
    }

    /// Decodes a tagged object as this type of chat. Succeeds exactly where
    /// the tag is `chatTypePrivate` and the object carries `user_id`.
    pub fn decode(raw: RawTaggedObject) -> (r: Result<TGChatTypePrivate, DecodeFailure>)
        ensures
            match r {
                Ok(chat) => chat@ == raw && Self::spec_failure(raw) is None,
                Err(e) => Self::spec_failure(raw) == Some(e),
            },
    {
        match Self::check(&raw) {
            Some(e) => Err(e),
            None => Ok(TGChatTypePrivate { origin: raw }),
        }
    }

    /// The object that the value was decoded from.
    pub fn td_origin(&self) -> (r: &RawTaggedObject)
        ensures
            *r == self@,
            Self::spec_failure(self@) is None,
    {
        proof {
            use_type_invariant(self);
        }
        &self.origin
    }

    /// The identifier of the user. Always present.
    pub fn user_id(&self) -> (r: i32)
        ensures
            self@.spec_int("user_id"@) == Some(r),
    {
        proof {
            use_type_invariant(self);
        }
        match self.origin.get_int("user_id") {
            Some(id) => id,
            None => unreached(),
        }
    }
}

/// A basic group, a chat with up to 200 members, decoded from an object
/// tagged `chatTypeBasicGroup`.
///
/// Every value of this type holds an object that carries `basic_group_id`.
#[derive(Debug)]
pub struct TGChatTypeBasicGroup {
    origin: RawTaggedObject,
}

impl View for TGChatTypeBasicGroup {
    type V = RawTaggedObject;

    /// The object that the value was decoded from.
    closed spec fn view(&self) -> RawTaggedObject {
        self.origin
    }
}

impl TGChatTypeBasicGroup {
    #[verifier::type_invariant]
    spec fn well_formed(self) -> bool {
        Self::spec_failure(self.origin) is None
    }

    /// Why `raw` does not decode as this type of chat, or `None` where it
    /// does. The tag is judged first, then the mandatory fields.
    pub open spec fn spec_failure(raw: RawTaggedObject) -> Option<DecodeFailure> {
        if spec_member_failure(raw.tag@, ChatTypeKind::BasicGroup) is Some {
            spec_member_failure(raw.tag@, ChatTypeKind::BasicGroup)
        } else if raw.spec_int("basic_group_id"@) is None {
            Some(DecodeFailure::MissingRequiredField)
        } else {
            None
        }
    }

    /// Judges whether `raw` decodes as this type of chat, and why not where
    /// it does not.
    pub fn check(raw: &RawTaggedObject) -> (r: Option<DecodeFailure>)
        ensures
            r == Self::spec_failure(*raw),
    {
        if let Some(e) = check_member(raw.tag.as_str(), ChatTypeKind::BasicGroup) {
            return Some(e);
        }
        if raw.get_int("basic_group_id").is_none() {
            return Some(DecodeFailure::MissingRequiredField);
        }
        None
    }

    /// Decodes a tagged object as this type of chat. Succeeds exactly where
    /// the tag is `chatTypeBasicGroup` and the object carries `basic_group_id`.
    pub fn decode(raw: RawTaggedObject) -> (r: Result<TGChatTypeBasicGroup, DecodeFailure>)
        ensures
            match r {
                Ok(chat) => chat@ == raw && Self::spec_failure(raw) is None,
                Err(e) => Self::spec_failure(raw) == Some(e),
            },
    {
        match Self::check(&raw) {
            Some(e) => Err(e),
            None => Ok(TGChatTypeBasicGroup { origin: raw }),
        }
    }

    /// The object that the value was decoded from.
    pub fn td_origin(&self) -> (r: &RawTaggedObject)
        ensures
            *r == self@,
            Self::spec_failure(self@) is None,
    {
        proof {
            use_type_invariant(self);
        }
        &self.origin
    }

    /// The identifier of the basic group. Always present.
    pub fn basic_group_id(&self) -> (r: i32)
        ensures
            self@.spec_int("basic_group_id"@) == Some(r),
    {
        proof {
            use_type_invariant(self);
        }
        match self.origin.get_int("basic_group_id") {
            Some(id) => id,
            None => unreached(),
        }
    }
}

/// A supergroup, a chat with any number of members, or a channel, decoded
/// from an object tagged `chatTypeSupergroup`.
///
/// Every value of this type holds an object that carries `supergroup_id`.
#[derive(Debug)]
pub struct TGChatTypeSupergroup {
    origin: RawTaggedObject,
}

impl View for TGChatTypeSupergroup {
    type V = RawTaggedObject;

    /// The object that the value was decoded from.
    closed spec fn view(&self) -> RawTaggedObject {
        self.origin
    }
}

impl TGChatTypeSupergroup {
    #[verifier::type_invariant]
    spec fn well_formed(self) -> bool {
        Self::spec_failure(self.origin) is None
    }

    /// Why `raw` does not decode as this type of chat, or `None` where it
    /// does. The tag is judged first, then the mandatory fields.
    pub open spec fn spec_failure(raw: RawTaggedObject) -> Option<DecodeFailure> {
        if spec_member_failure(raw.tag@, ChatTypeKind::Supergroup) is Some {
            spec_member_failure(raw.tag@, ChatTypeKind::Supergroup)
        } else if raw.spec_int("supergroup_id"@) is None {
            Some(DecodeFailure::MissingRequiredField)
        } else {
            None
        }
    }

    /// Judges whether `raw` decodes as this type of chat, and why not where
    /// it does not.
    pub fn check(raw: &RawTaggedObject) -> (r: Option<DecodeFailure>)
        ensures
            r == Self::spec_failure(*raw),
    {
        if let Some(e) = check_member(raw.tag.as_str(), ChatTypeKind::Supergroup) {
            return Some(e);
        }
        if raw.get_int("supergroup_id").is_none() {
            return Some(DecodeFailure::MissingRequiredField);
        }
        None
    }

    /// Decodes a tagged object as this type of chat. Succeeds exactly where
    /// the tag is `chatTypeSupergroup` and the object carries `supergroup_id`.
    pub fn decode(raw: RawTaggedObject) -> (r: Result<TGChatTypeSupergroup, DecodeFailure>)
        ensures
            match r {
                Ok(chat) => chat@ == raw && Self::spec_failure(raw) is None,
                Err(e) => Self::spec_failure(raw) == Some(e),
            },
    {
        match Self::check(&raw) {
            Some(e) => Err(e),
            None => Ok(TGChatTypeSupergroup { origin: raw }),
        }
    }

    /// The object that the value was decoded from.
    pub fn td_origin(&self) -> (r: &RawTaggedObject)
        ensures
            *r == self@,
            Self::spec_failure(self@) is None,
    {
        proof {
            use_type_invariant(self);
        }
        &self.origin
    }

    /// The identifier of the supergroup or channel. Always present.
    pub fn supergroup_id(&self) -> (r: i32)
        ensures
            self@.spec_int("supergroup_id"@) == Some(r),
    {
        proof {
            use_type_invariant(self);
        }
        match self.origin.get_int("supergroup_id") {
            Some(id) => id,
            None => unreached(),
        }
    }

    /// Whether the supergroup is a channel: the field `is_channel`, or
    /// `false` where the backend sent none.
    pub fn is_channel(&self) -> (r: bool)
        ensures
            r == self@.spec_flag("is_channel"@).unwrap_or(false),
    {
        match self.origin.get_flag("is_channel") {
            Some(flag) => flag,
            None => false,
        }
    }
}

/// A secret chat with a user, decoded from an object tagged
/// `chatTypeSecret`.
///
/// Every value of this type holds an object that carries `secret_chat_id` and
/// `user_id`.
#[derive(Debug)]
pub struct TGChatTypeSecret {
    origin: RawTaggedObject,
}

impl View for TGChatTypeSecret {
    type V = RawTaggedObject;

    /// The object that the value was decoded from.
    closed spec fn view(&self) -> RawTaggedObject {
        self.origin
    }
}

impl TGChatTypeSecret {
    #[verifier::type_invariant]
    spec fn well_formed(self) -> bool {
        Self::spec_failure(self.origin) is None
    }

    /// Why `raw` does not decode as this type of chat, or `None` where it
    /// does. The tag is judged first, then the mandatory fields.
    pub open spec fn spec_failure(raw: RawTaggedObject) -> Option<DecodeFailure> {
        if spec_member_failure(raw.tag@, ChatTypeKind::Secret) is Some {
            spec_member_failure(raw.tag@, ChatTypeKind::Secret)
        } else if raw.spec_int("secret_chat_id"@) is None || raw.spec_int("user_id"@) is None {
            Some(DecodeFailure::MissingRequiredField)
        } else {
            None
        }
    }

    /// Judges whether `raw` decodes as this type of chat, and why not where
    /// it does not.
    pub fn check(raw: &RawTaggedObject) -> (r: Option<DecodeFailure>)
        ensures
            r == Self::spec_failure(*raw),
    {
        if let Some(e) = check_member(raw.tag.as_str(), ChatTypeKind::Secret) {
            return Some(e);
        }
        if raw.get_int("secret_chat_id").is_none() || raw.get_int("user_id").is_none() {
            return Some(DecodeFailure::MissingRequiredField);
        }
        None
    }

    /// Decodes a tagged object as this type of chat. Succeeds exactly where the
    /// tag is `chatTypeSecret` and the object carries `secret_chat_id` and
    /// `user_id`.
    pub fn decode(raw: RawTaggedObject) -> (r: Result<TGChatTypeSecret, DecodeFailure>)
        ensures
            match r {
                Ok(chat) => chat@ == raw && Self::spec_failure(raw) is None,
                Err(e) => Self::spec_failure(raw) == Some(e),
            },
    {
        match Self::check(&raw) {
            Some(e) => Err(e),
            None => Ok(TGChatTypeSecret { origin: raw }),
        }
    }

    /// The object that the value was decoded from.
    pub fn td_origin(&self) -> (r: &RawTaggedObject)
        ensures
            *r == self@,
            Self::spec_failure(self@) is None,
    {
        proof {
            use_type_invariant(self);
        }
        &self.origin
    }

    /// The identifier of the secret chat. Always present.
    pub fn secret_chat_id(&self) -> (r: i32)
        ensures
            self@.spec_int("secret_chat_id"@) == Some(r),
    {
        proof {
            use_type_invariant(self);
        }
        match self.origin.get_int("secret_chat_id") {
            Some(id) => id,
            None => unreached(),
        }
    }

    /// The identifier of the user at the other end. Always present.
    pub fn user_id(&self) -> (r: i32)
        ensures
            self@.spec_int("user_id"@) == Some(r),
    {
        proof {
            use_type_invariant(self);
        }
        match self.origin.get_int("user_id") {
            Some(id) => id,
            None => unreached(),
        }
    }
}

/// The type of a chat: one member of the closed chat-type family.
#[derive(Debug)]
pub enum TGChatType {
    Private(TGChatTypePrivate),
    BasicGroup(TGChatTypeBasicGroup),
    Supergroup(TGChatTypeSupergroup),
    Secret(TGChatTypeSecret),
}

impl TGChatType {
    /// The member of the chat-type family that this value is.
    pub open spec fn spec_kind(self) -> ChatTypeKind {
        match self {
            TGChatType::Private(_) => ChatTypeKind::Private,
            TGChatType::BasicGroup(_) => ChatTypeKind::BasicGroup,
            TGChatType::Supergroup(_) => ChatTypeKind::Supergroup,
            TGChatType::Secret(_) => ChatTypeKind::Secret,
        }
    }

    /// The object that the value was decoded from.
    pub open spec fn spec_origin(self) -> RawTaggedObject {
        match self {
            TGChatType::Private(chat) => chat@,
            TGChatType::BasicGroup(chat) => chat@,
            TGChatType::Supergroup(chat) => chat@,
            TGChatType::Secret(chat) => chat@,
        }
    }

    /// Whether `raw` carries every identifier that a chat of kind `kind`
    /// must have.
    pub open spec fn spec_has_mandatory(raw: RawTaggedObject, kind: ChatTypeKind) -> bool {
        match kind {
            ChatTypeKind::Private => raw.spec_int("user_id"@) is Some,
            ChatTypeKind::BasicGroup => raw.spec_int("basic_group_id"@) is Some,
            ChatTypeKind::Supergroup => raw.spec_int("supergroup_id"@) is Some,
            ChatTypeKind::Secret => raw.spec_int("secret_chat_id"@) is Some && raw.spec_int(
                "user_id"@,
            ) is Some,
        }
    }

    /// Why `raw` does not decode as a chat of kind `kind`, or `None` where
    /// it does.
    pub open spec fn spec_member_failure(raw: RawTaggedObject, kind: ChatTypeKind) -> Option<
        DecodeFailure,
    > {
        match kind {
            ChatTypeKind::Private => TGChatTypePrivate::spec_failure(raw),
            ChatTypeKind::BasicGroup => TGChatTypeBasicGroup::spec_failure(raw),
            ChatTypeKind::Supergroup => TGChatTypeSupergroup::spec_failure(raw),
            ChatTypeKind::Secret => TGChatTypeSecret::spec_failure(raw),
        }
    }

    /// Why `raw` does not decode as a chat type, or `None` where it does.
    pub open spec fn spec_failure(raw: RawTaggedObject) -> Option<DecodeFailure> {
        match ChatTypeKind::spec_of_tag(raw.tag@) {
            None => Some(spec_outsider(raw.tag@)),
            Some(kind) => Self::spec_member_failure(raw, kind),
        }
    }

    /// Judges whether `raw` decodes as a chat type, and why not where it
    /// does not.
    pub fn check(raw: &RawTaggedObject) -> (r: Option<DecodeFailure>)
        ensures
            r == Self::spec_failure(*raw),
    {
        match ChatTypeKind::of_tag(raw.tag.as_str()) {
            None => Some(outsider(raw.tag.as_str())),
            Some(ChatTypeKind::Private) => TGChatTypePrivate::check(raw),
            Some(ChatTypeKind::BasicGroup) => TGChatTypeBasicGroup::check(raw),
            Some(ChatTypeKind::Supergroup) => TGChatTypeSupergroup::check(raw),
            Some(ChatTypeKind::Secret) => TGChatTypeSecret::check(raw),
        }
    }

    /// Decodes a tagged object as a chat type. The tag alone selects the
    /// member; the member then asks for its mandatory fields.
    pub fn of(raw: RawTaggedObject) -> (r: Result<TGChatType, DecodeFailure>)
        ensures
            match r {
                Ok(chat) => chat.spec_origin() == raw && Self::spec_failure(raw) is None
                    && chat.spec_kind().spec_tag() == raw.tag@,
                Err(e) => Self::spec_failure(raw) == Some(e),
            },
    {
        match ChatTypeKind::of_tag(raw.tag.as_str()) {
            None => Err(outsider(raw.tag.as_str())),
            Some(ChatTypeKind::Private) => match TGChatTypePrivate::decode(raw) {
                Ok(chat) => Ok(TGChatType::Private(chat)),
                Err(e) => Err(e),
            },
            Some(ChatTypeKind::BasicGroup) => match TGChatTypeBasicGroup::decode(raw) {
                Ok(chat) => Ok(TGChatType::BasicGroup(chat)),
                Err(e) => Err(e),
            },
            Some(ChatTypeKind::Supergroup) => match TGChatTypeSupergroup::decode(raw) {
                Ok(chat) => Ok(TGChatType::Supergroup(chat)),
                Err(e) => Err(e),
            },
            Some(ChatTypeKind::Secret) => match TGChatTypeSecret::decode(raw) {
                Ok(chat) => Ok(TGChatType::Secret(chat)),
                Err(e) => Err(e),
            },
        }
    }

    /// Decoding follows the tag: an object that carries the tag of a member
    /// decodes as that member does, and to no other member.
    pub proof fn lemma_known_tag_decodes(raw: RawTaggedObject, kind: ChatTypeKind)
        requires
            raw.tag@ == kind.spec_tag(),
        ensures
            Self::spec_failure(raw) == Self::spec_member_failure(raw, kind),
            Self::spec_failure(raw) is None || Self::spec_failure(raw) == Some(
                DecodeFailure::MissingRequiredField,
            ),
    {
        let found = choose|k: ChatTypeKind| k.spec_tag() == raw.tag@;
        ChatTypeKind::lemma_tags_distinct(found, kind);
    }

    /// Each member has identifiers that must be there: an object that
    /// carries the tag of a member decodes exactly where it carries them
    /// all, and fails for the missing field where it does not.
    pub proof fn lemma_mandatory_fields(raw: RawTaggedObject, kind: ChatTypeKind)
        requires
            raw.tag@ == kind.spec_tag(),
        ensures
            Self::spec_failure(raw) is None <==> Self::spec_has_mandatory(raw, kind),
            !Self::spec_has_mandatory(raw, kind) ==> Self::spec_failure(raw) == Some(
                DecodeFailure::MissingRequiredField,
            ),
    {
        Self::lemma_known_tag_decodes(raw, kind);
    }

    /// An object whose tag is none that this library decodes never
    /// decodes: it is rejected as an unknown tag.
    pub proof fn lemma_unknown_tag_fails(raw: RawTaggedObject)
        requires
            !spec_known_tag(raw.tag@),
        ensures
            Self::spec_failure(raw) == Some(DecodeFailure::UnknownTag),
    {
        if Family::ChatType.spec_has_member(raw.tag@) {
            Family::lemma_home(Family::ChatType, raw.tag@);
        }
    }
}

} // verus!
