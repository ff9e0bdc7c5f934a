//! Decoding by family: one entry point that takes the family to decode in
//! as a value.

use crate::errors::DecodeFailure;
use crate::family::lemma_tags_of_families_differ;
use crate::family::spec_known_tag;
use crate::family::spec_outsider;
use crate::family::ChatTypeKind;
use crate::family::Family;
use crate::raw::RawTaggedObject;
use crate::types::authorization_state::TGAuthorization;
use crate::types::chat_type::TGChatType;
use crate::types::link_state::TGLinkState;
use crate::types::user_status::TGUserStatus;
use crate::types::user_type::TGUserType;
use vstd::prelude::*;

verus! {

/// A decoded member of one of the families.
#[derive(Debug)]
pub enum TypedVariant {
    AuthorizationState(TGAuthorization),
    ChatType(TGChatType),
    LinkState(TGLinkState),
    UserStatus(TGUserStatus),
    UserType(TGUserType),
}

impl TypedVariant {
    /// The family that the value is a member of.
    pub open spec fn spec_family(self) -> Family {
        match self {
            TypedVariant::AuthorizationState(_) => Family::AuthorizationState,
            TypedVariant::ChatType(_) => Family::ChatType,
            TypedVariant::LinkState(_) => Family::LinkState,
            TypedVariant::UserStatus(_) => Family::UserStatus,
            TypedVariant::UserType(_) => Family::UserType,
        }
    }

    /// The tag of the member that the value is.
    pub open spec fn spec_tag(self) -> Seq<char> {
        match self {
            TypedVariant::AuthorizationState(state) => state.spec_kind().spec_tag(),
            TypedVariant::ChatType(chat) => chat.spec_kind().spec_tag(),
            TypedVariant::LinkState(link) => link.spec_kind().spec_tag(),
            TypedVariant::UserStatus(status) => status.spec_kind().spec_tag(),
            TypedVariant::UserType(user_type) => user_type.spec_kind().spec_tag(),
        }
    }

    /// The family that the value is a member of.
    pub fn family(&self) -> (r: Family)
        ensures
            r == self.spec_family(),
    {
        match self {
            TypedVariant::AuthorizationState(_) => Family::AuthorizationState,
            TypedVariant::ChatType(_) => Family::ChatType,
            TypedVariant::LinkState(_) => Family::LinkState,
            TypedVariant::UserStatus(_) => Family::UserStatus,
            TypedVariant::UserType(_) => Family::UserType,
        }
    }
}

/// Why `raw` does not decode in the family `family`, or `None` where it
/// does.
pub open spec fn spec_failure(family: Family, raw: RawTaggedObject) -> Option<DecodeFailure> {
    match family {
        Family::AuthorizationState => match TGAuthorization::spec_of(raw) {
            Ok(_) => None,
            Err(e) => Some(e),
        },
        Family::ChatType => TGChatType::spec_failure(raw),
        Family::LinkState => match TGLinkState::spec_of(raw) {
            Ok(_) => None,
            Err(e) => Some(e),
        },
        Family::UserStatus => match TGUserStatus::spec_of(raw) {
            Ok(_) => None,
            Err(e) => Some(e),
        },
        Family::UserType => match TGUserType::spec_of(raw) {
            Ok(_) => None,
            Err(e) => Some(e),
        },
    }
}

/// What `raw` decodes to in the family `family`, where it decodes.
pub open spec fn spec_decodes_to(family: Family, raw: RawTaggedObject, variant: TypedVariant) -> bool {
    match family {
        Family::AuthorizationState => variant matches TypedVariant::AuthorizationState(state)
            && TGAuthorization::spec_of(raw) == Ok::<_, DecodeFailure>(state),
        Family::ChatType => variant matches TypedVariant::ChatType(chat) && chat.spec_origin()
            == raw,
        Family::LinkState => variant matches TypedVariant::LinkState(link) && TGLinkState::spec_of(
            raw,
        ) == Ok::<_, DecodeFailure>(link),
        Family::UserStatus => variant matches TypedVariant::UserStatus(status)
            && TGUserStatus::spec_of(raw) == Ok::<_, DecodeFailure>(status),
        Family::UserType => variant matches TypedVariant::UserType(user_type)
            && TGUserType::spec_of(raw) == Ok::<_, DecodeFailure>(user_type),
    }
}

/// Judges whether `raw` decodes in the family `family`, and why not where
/// it does not.
pub fn check(family: Family, raw: &RawTaggedObject) -> (r: Option<DecodeFailure>)
    ensures
        r == spec_failure(family, *raw),
        r is None ==> family.spec_has_member(raw.tag@),
{
    match family {
        Family::AuthorizationState => match TGAuthorization::of(raw) {
            Ok(_) => None,
            Err(e) => Some(e),
        },
        Family::ChatType => TGChatType::check(raw),
        Family::LinkState => match TGLinkState::of(raw) {
            Ok(_) => None,
            Err(e) => Some(e),
        },
        Family::UserStatus => match TGUserStatus::of(raw) {
            Ok(_) => None,
            Err(e) => Some(e),
        },
        Family::UserType => match TGUserType::of(raw) {
            Ok(_) => None,
            Err(e) => Some(e),
        },
    }
}

/// Decodes `raw` in the family `family`: gives the one member of that
/// family whose tag is the tag of `raw`, or the reason why there is none.
/// Nothing is ever decoded into another family than the one asked for.
pub fn decode(family: Family, raw: RawTaggedObject) -> (r: Result<TypedVariant, DecodeFailure>)
    ensures
        match r {
            Ok(variant) => spec_failure(family, raw) is None && spec_decodes_to(family, raw, variant)
                && variant.spec_family() == family && variant.spec_tag() == raw.tag@,
            Err(e) => spec_failure(family, raw) == Some(e),
        },
{
    match family {
        Family::AuthorizationState => match TGAuthorization::of(&raw) {
            Ok(state) => Ok(TypedVariant::AuthorizationState(state)),
            Err(e) => Err(e),
        },
        Family::ChatType => match TGChatType::of(raw) {
            Ok(chat) => Ok(TypedVariant::ChatType(chat)),
            Err(e) => Err(e),
        },
        Family::LinkState => match TGLinkState::of(&raw) {
            Ok(link) => Ok(TypedVariant::LinkState(link)),
            Err(e) => Err(e),
        },
        Family::UserStatus => match TGUserStatus::of(&raw) {
            Ok(status) => Ok(TypedVariant::UserStatus(status)),
            Err(e) => Err(e),
        },
        Family::UserType => match TGUserType::of(&raw) {
            Ok(user_type) => Ok(TypedVariant::UserType(user_type)),
            Err(e) => Err(e),
        },
    }
}

/// An object decodes in a family only if its tag is that of a member of
/// the family: whatever carries another tag is rejected, as a tag of
/// another family where the tag is known and as an unknown tag where it is
/// not.
pub proof fn lemma_family_boundary(family: Family, raw: RawTaggedObject)
    ensures
        spec_failure(family, raw) is None ==> family.spec_has_member(raw.tag@),
        !family.spec_has_member(raw.tag@) ==> spec_failure(family, raw) == Some(
            spec_outsider(raw.tag@),
        ),
        !family.spec_has_member(raw.tag@) && !spec_known_tag(raw.tag@)
            ==> spec_failure(family, raw) == Some(DecodeFailure::UnknownTag),
        !family.spec_has_member(raw.tag@) && spec_known_tag(raw.tag@)
            ==> spec_failure(family, raw) == Some(DecodeFailure::WrongFamily),
        family.spec_has_member(raw.tag@) ==> spec_failure(family, raw) is None || spec_failure(
            family,
            raw,
        ) == Some(DecodeFailure::MissingRequiredField),
{
    if family == Family::ChatType && family.spec_has_member(raw.tag@) {
        let kind = choose|k: ChatTypeKind| k.spec_tag() == raw.tag@;
        TGChatType::lemma_known_tag_decodes(raw, kind);
    }
}

/// No tag belongs to two families: an object that decodes in one family
/// decodes in no other.
pub proof fn lemma_families_are_disjoint(first: Family, second: Family, raw: RawTaggedObject)
    requires
        spec_failure(first, raw) is None,
        first != second,
    ensures
        spec_failure(second, raw) is Some,
        !second.spec_has_member(raw.tag@),
{
    lemma_family_boundary(first, raw);
    lemma_family_boundary(second, raw);
    lemma_tags_of_families_differ(first, second, raw.tag@);
}

} // verus!
