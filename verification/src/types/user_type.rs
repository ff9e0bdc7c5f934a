//! The kind of account a user is.

use crate::errors::DecodeFailure;
use crate::family::outsider;
use crate::family::spec_known_tag;
use crate::family::spec_outsider;
use crate::family::Family;
use crate::family::UserTypeKind;
use crate::raw::RawTaggedObject;
use vstd::prelude::*;

verus! {

/// What the backend says of a bot. Each field is handed on as it came:
/// `None` where the object did not carry it.
#[derive(Debug, Clone)]
pub struct TGUserTypeBot {
    /// Whether the bot can be invited to basic group and supergroup chats.
    pub can_join_groups: Option<bool>,
    /// Whether the bot can read all messages in group chats, and not only
    /// those addressed to it.
    pub can_read_all_group_messages: Option<bool>,
    /// Whether the bot supports inline queries.
    pub is_inline: Option<bool>,
    /// The placeholder shown in the input field for inline queries.
    pub inline_query_placeholder: Option<String>,
    /// Whether the user's location is sent with every inline query.
    pub need_location: Option<bool>,
}

/// The type of a user: a bot, a deleted account, a regular account, or an
/// account of which nothing but the identifier is known.
#[derive(Debug, Clone)]
pub enum TGUserType {
    /// A bot.
    Bot(TGUserTypeBot),
    /// A deleted user or deleted bot.
    Deleted,
    /// A regular user.
    Regular,
    /// No information on the user besides the identifier is available.
    Unknown,
}

impl TGUserTypeBot {
    /// What the fields of `raw` say of a bot.
    pub open spec fn spec_of(raw: RawTaggedObject) -> TGUserTypeBot {
        TGUserTypeBot {
            can_join_groups: raw.spec_flag("can_join_groups"@),
            can_read_all_group_messages: raw.spec_flag("can_read_all_group_messages"@),
            is_inline: raw.spec_flag("is_inline"@),
            inline_query_placeholder: raw.spec_string("inline_query_placeholder"@),
            need_location: raw.spec_flag("need_location"@),
        }
    }

    /// Reads the fields of a bot from `raw`, whatever its tag is.
    pub fn of(raw: &RawTaggedObject) -> (r: TGUserTypeBot)
        ensures
            r == Self::spec_of(*raw),
    {
        let inline_query_placeholder = match raw.get_text("inline_query_placeholder") {
            Some(text) => Some(text.clone()),
            None => None,
        };
        TGUserTypeBot {
            can_join_groups: raw.get_flag("can_join_groups"),
            can_read_all_group_messages: raw.get_flag("can_read_all_group_messages"),
            is_inline: raw.get_flag("is_inline"),
            inline_query_placeholder,
            need_location: raw.get_flag("need_location"),
        }
    }
}

impl TGUserType {
    /// The member of the user-type family that this value is.
    pub open spec fn spec_kind(self) -> UserTypeKind {
        match self {
            TGUserType::Bot(_) => UserTypeKind::Bot,
            TGUserType::Deleted => UserTypeKind::Deleted,
            TGUserType::Regular => UserTypeKind::Regular,
            TGUserType::Unknown => UserTypeKind::Unknown,
        }
    }

    /// What `raw` holds for a user type of kind `kind`. No member has a
    /// field that must be there.
    pub open spec fn spec_member(raw: RawTaggedObject, kind: UserTypeKind) -> TGUserType {
        match kind {
            UserTypeKind::Bot => TGUserType::Bot(TGUserTypeBot::spec_of(raw)),
            UserTypeKind::Deleted => TGUserType::Deleted,
            UserTypeKind::Regular => TGUserType::Regular,
            UserTypeKind::Unknown => TGUserType::Unknown,
        }
    }

    /// What decoding `raw` as a user type gives.
    pub open spec fn spec_of(raw: RawTaggedObject) -> Result<TGUserType, DecodeFailure> {
        match UserTypeKind::spec_of_tag(raw.tag@) {
            None => Err(spec_outsider(raw.tag@)),
            Some(kind) => Ok(Self::spec_member(raw, kind)),
        }
    }

    /// Decodes a tagged object as a user type. The tag alone selects the
    /// member; a bot carries the fields of the object with it.
    pub fn of(raw: &RawTaggedObject) -> (r: Result<TGUserType, DecodeFailure>)
        ensures
            r == Self::spec_of(*raw),
            r matches Ok(user_type) ==> user_type.spec_kind().spec_tag() == raw.tag@,
            r is Ok <==> exists|k: UserTypeKind| k.spec_tag() == raw.tag@,
            r matches Err(e) ==> e == spec_outsider(raw.tag@),
    {
        match UserTypeKind::of_tag(raw.tag.as_str()) {
            None => Err(outsider(raw.tag.as_str())),
            Some(UserTypeKind::Bot) => Ok(TGUserType::Bot(TGUserTypeBot::of(raw))),
            Some(UserTypeKind::Deleted) => Ok(TGUserType::Deleted),
            Some(UserTypeKind::Regular) => Ok(TGUserType::Regular),
            Some(UserTypeKind::Unknown) => Ok(TGUserType::Unknown),
        }
    }

    /// Decoding follows the tag: an object that carries the tag of a member
    /// decodes to that member and to no other.
    pub proof fn lemma_known_tag_decodes(raw: RawTaggedObject, kind: UserTypeKind)
        requires
            raw.tag@ == kind.spec_tag(),
        ensures
            Self::spec_of(raw) == Ok::<_, DecodeFailure>(Self::spec_member(raw, kind)),
            Self::spec_member(raw, kind).spec_kind() == kind,
    {
        let found = choose|k: UserTypeKind| k.spec_tag() == raw.tag@;
        UserTypeKind::lemma_tags_distinct(found, kind);
    }

    /// An object whose tag is none that this library decodes never
    /// decodes: it is rejected as an unknown tag.
    pub proof fn lemma_unknown_tag_fails(raw: RawTaggedObject)
        requires
            !spec_known_tag(raw.tag@),
        ensures
            Self::spec_of(raw) == Err::<TGUserType, _>(DecodeFailure::UnknownTag),
    {
        if Family::UserType.spec_has_member(raw.tag@) {
            Family::lemma_home(Family::UserType, raw.tag@);
        }
    }
}

} // verus!
