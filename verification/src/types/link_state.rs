//! What one user knows of another user's phone number.

use crate::errors::DecodeFailure;
use crate::family::outsider;
use crate::family::spec_known_tag;
use crate::family::spec_outsider;
use crate::family::Family;
use crate::family::LinkStateKind;
use crate::raw::RawTaggedObject;
use vstd::prelude::*;

verus! {

/// The relationship between user A and user B. For an incoming link, user A
/// is the current user; for an outgoing link, user B is.
#[derive(Debug, Clone, Copy, PartialEq, Eq, Hash, Structural)]
pub enum TGLinkState {
    /// The phone number of user A has been saved to the contact list of
    /// user B.
    IsContact,
    /// The phone number of user A is known to user B, but has not been
    /// saved to the contact list of user B.
    KnowsPhoneNumber,
    /// The phone number of user A is not known to user B.
    Unknown,
}

impl TGLinkState {
    /// The member of the link-state family that this value is.
    pub open spec fn spec_kind(self) -> LinkStateKind {
        match self {
            TGLinkState::IsContact => LinkStateKind::IsContact,
            TGLinkState::KnowsPhoneNumber => LinkStateKind::KnowsPhoneNumber,
            TGLinkState::Unknown => LinkStateKind::Unknown,
        }
    }

    /// The link state of kind `kind`. No member carries a field.
    pub open spec fn spec_member(kind: LinkStateKind) -> TGLinkState {
        match kind {
            LinkStateKind::IsContact => TGLinkState::IsContact,
            LinkStateKind::KnowsPhoneNumber => TGLinkState::KnowsPhoneNumber,
            LinkStateKind::Unknown => TGLinkState::Unknown,
        }
    }

    /// What decoding `raw` as a link state gives.
    pub open spec fn spec_of(raw: RawTaggedObject) -> Result<TGLinkState, DecodeFailure> {
        match LinkStateKind::spec_of_tag(raw.tag@) {
            None => Err(spec_outsider(raw.tag@)),
            Some(kind) => Ok(Self::spec_member(kind)),
        }
    }

    /// Decodes a tagged object as a link state. The tag alone selects the
    /// member; the fields are not read.
    pub fn of(raw: &RawTaggedObject) -> (r: Result<TGLinkState, DecodeFailure>)
        ensures
            r == Self::spec_of(*raw),
            r matches Ok(link) ==> link.spec_kind().spec_tag() == raw.tag@,
            r is Ok <==> exists|k: LinkStateKind| k.spec_tag() == raw.tag@,
            r matches Err(e) ==> e == spec_outsider(raw.tag@),
    {
        match LinkStateKind::of_tag(raw.tag.as_str()) {
            None => Err(outsider(raw.tag.as_str())),
            Some(LinkStateKind::IsContact) => Ok(TGLinkState::IsContact),
            Some(LinkStateKind::KnowsPhoneNumber) => Ok(TGLinkState::KnowsPhoneNumber),
            Some(LinkStateKind::Unknown) => Ok(TGLinkState::Unknown),
        }
    }

    /// Decoding follows the tag: an object that carries the tag of a member
    /// decodes to that member and to no other.
    pub proof fn lemma_known_tag_decodes(raw: RawTaggedObject, kind: LinkStateKind)
        requires
            raw.tag@ == kind.spec_tag(),
        ensures
            Self::spec_of(raw) == Ok::<_, DecodeFailure>(Self::spec_member(kind)),
            Self::spec_member(kind).spec_kind() == kind,
    {
        let found = choose|k: LinkStateKind| k.spec_tag() == raw.tag@;
        LinkStateKind::lemma_tags_distinct(found, kind);
    }

    /// An object whose tag is none that this library decodes never
    /// decodes: it is rejected as an unknown tag.
    pub proof fn lemma_unknown_tag_fails(raw: RawTaggedObject)
        requires
            !spec_known_tag(raw.tag@),
        ensures
            Self::spec_of(raw) == Err::<TGLinkState, _>(DecodeFailure::UnknownTag),
    {
        if Family::LinkState.spec_has_member(raw.tag@) {
            Family::lemma_home(Family::LinkState, raw.tag@);
        }
    }
}

} // verus!
