//! When a user was last seen.

use crate::errors::DecodeFailure;
use crate::family::outsider;
use crate::family::spec_known_tag;
use crate::family::spec_outsider;
use crate::family::Family;
use crate::family::UserStatusKind;
use crate::raw::RawTaggedObject;
use vstd::prelude::*;

verus! {

/// The last time a user was online.
#[derive(Debug, Clone, Copy, PartialEq, Eq, PartialOrd, Ord, Hash, Structural)]
pub enum TGUserStatus {
    /// The status was never changed.
    Empty,
    /// The user is offline, but was online within the last month.
    LastMonth,
    /// The user is offline, but was online within the last week.
    LastWeek,
    /// The user is offline; the Unix time at which the user was last online.
    Offline(i32),
    /// The user is online; the Unix time at which the online status expires.
    Online(i32),
    /// The user was online recently.
    Recently,
}

impl TGUserStatus {
    /// The member of the user-status family that this value is.
    pub open spec fn spec_kind(self) -> UserStatusKind {
        match self {
            TGUserStatus::Empty => UserStatusKind::Empty,
            TGUserStatus::LastMonth => UserStatusKind::LastMonth,
            TGUserStatus::LastWeek => UserStatusKind::LastWeek,
            TGUserStatus::Offline(_) => UserStatusKind::Offline,
            TGUserStatus::Online(_) => UserStatusKind::Online,
            TGUserStatus::Recently => UserStatusKind::Recently,
        }
    }

    /// What `raw` holds for a status of kind `kind`: the status, where the
    /// field that the kind must carry is there.
    pub open spec fn spec_member(raw: RawTaggedObject, kind: UserStatusKind) -> Option<
        TGUserStatus,
    > {
        match kind {
            UserStatusKind::Empty => Some(TGUserStatus::Empty),
            UserStatusKind::LastMonth => Some(TGUserStatus::LastMonth),
            UserStatusKind::LastWeek => Some(TGUserStatus::LastWeek),
            UserStatusKind::Offline => match raw.spec_int("was_online"@) {
                Some(at) => Some(TGUserStatus::Offline(at)),
                None => None,
            },
            UserStatusKind::Online => match raw.spec_int("expires"@) {
                Some(at) => Some(TGUserStatus::Online(at)),
                None => None,
            },
            UserStatusKind::Recently => Some(TGUserStatus::Recently),
        }
    }

    /// What decoding `raw` as a user status gives.
    pub open spec fn spec_of(raw: RawTaggedObject) -> Result<TGUserStatus, DecodeFailure> {
        match UserStatusKind::spec_of_tag(raw.tag@) {
            None => Err(spec_outsider(raw.tag@)),
            Some(kind) => match Self::spec_member(raw, kind) {
                Some(status) => Ok(status),
                None => Err(DecodeFailure::MissingRequiredField),
            },
        }
    }

    /// Decodes a tagged object as a user status.
    ///
    /// The tag alone selects the member. `userStatusOffline` must carry the
    /// integer `was_online`, and `userStatusOnline` the integer `expires`.
    pub fn of(raw: &RawTaggedObject) -> (r: Result<TGUserStatus, DecodeFailure>)
        ensures
            r == Self::spec_of(*raw),
            r matches Ok(status) ==> status.spec_kind().spec_tag() == raw.tag@,
            (forall|k: UserStatusKind| k.spec_tag() != raw.tag@) ==> r == Err::<TGUserStatus, _>(
                spec_outsider(raw.tag@),
            ),
    {
        match UserStatusKind::of_tag(raw.tag.as_str()) {
            None => Err(outsider(raw.tag.as_str())),
            Some(UserStatusKind::Empty) => Ok(TGUserStatus::Empty),
            Some(UserStatusKind::LastMonth) => Ok(TGUserStatus::LastMonth),
            Some(UserStatusKind::LastWeek) => Ok(TGUserStatus::LastWeek),
            Some(UserStatusKind::Offline) => match raw.get_int("was_online") {
                Some(at) => Ok(TGUserStatus::Offline(at)),
                None => Err(DecodeFailure::MissingRequiredField),
            },
            Some(UserStatusKind::Online) => match raw.get_int("expires") {
                Some(at) => Ok(TGUserStatus::Online(at)),
                None => Err(DecodeFailure::MissingRequiredField),
            },
            Some(UserStatusKind::Recently) => Ok(TGUserStatus::Recently),
        }
    }

    /// Decoding follows the tag: an object that carries the tag of a member
    /// decodes to that member and to no other, provided the field that the
    /// member must carry is there; where it is missing, decoding fails.
    pub proof fn lemma_known_tag_decodes(raw: RawTaggedObject, kind: UserStatusKind)
        requires
            raw.tag@ == kind.spec_tag(),
        ensures
            Self::spec_of(raw) matches Ok(status) ==> status.spec_kind() == kind,
            Self::spec_member(raw, kind) is Some <==> Self::spec_of(raw) is Ok,
            Self::spec_member(raw, kind) is None ==> Self::spec_of(raw) == Err::<TGUserStatus, _>(
                DecodeFailure::MissingRequiredField,
            ),
    {
        let found = choose|k: UserStatusKind| k.spec_tag() == raw.tag@;
        UserStatusKind::lemma_tags_distinct(found, kind);
    }

    /// An object whose tag is none that this library decodes never
    /// decodes: it is rejected as an unknown tag.
    pub proof fn lemma_unknown_tag_fails(raw: RawTaggedObject)
        requires
            !spec_known_tag(raw.tag@),
        ensures
            Self::spec_of(raw) == Err::<TGUserStatus, _>(DecodeFailure::UnknownTag),
    {
        if Family::UserStatus.spec_has_member(raw.tag@) {
            Family::lemma_home(Family::UserStatus, raw.tag@);
        }
    }
}

} // verus!
