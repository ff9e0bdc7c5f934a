//! A user of the messaging service.

use crate::errors::DecodeFailure;
use crate::family::check_class;
use crate::family::spec_class_failure;
use crate::family::Class;
use crate::family::UserTypeKind;
use crate::raw::RawTaggedObject;
use crate::text::spec_chars;
use crate::types::link_state::TGLinkState;
use crate::types::user_status::TGUserStatus;
use crate::types::user_type::TGUserType;
use vstd::pervasive::unreached;
use vstd::prelude::*;

verus! {

/// A string field used as a flag: an empty string says the same as no
/// string at all.
pub open spec fn spec_collapse(text: Option<Seq<char>>) -> Option<Seq<char>> {
    match text {
        Some(s) if s.len() > 0 => Some(s),
        _ => None,
    }
}

/// A user, decoded from an object tagged `user`.
///
/// Every value of this type holds an object that has all the fields a user
/// must have, each nested object of which decodes in its own family. The
/// accessors therefore cannot fail.
#[derive(Debug)]
pub struct TGUser {
    origin: RawTaggedObject,
}

impl View for TGUser {
    type V = RawTaggedObject;

    /// The object that the user was decoded from.
    closed spec fn view(&self) -> RawTaggedObject {
        self.origin
    }
}

impl TGUser {
    #[verifier::type_invariant]
    spec fn well_formed(self) -> bool {
        Self::spec_failure(self.origin) is None
    }

    /// Whether `raw` carries every field that a user must have, each with a
    /// value of the field's type.
    pub open spec fn spec_has_mandatory(raw: RawTaggedObject) -> bool {
        &&& raw.spec_int("id"@) is Some
        &&& raw.spec_string("phone_number"@) is Some
        &&& raw.spec_object("status"@) is Some
        &&& raw.spec_object("outgoing_link"@) is Some
        &&& raw.spec_object("incoming_link"@) is Some
        &&& raw.spec_flag("is_verified"@) is Some
        &&& raw.spec_flag("is_support"@) is Some
        &&& raw.spec_flag("have_access"@) is Some
        &&& raw.spec_object("type"@) is Some
    }

    /// Why `raw` does not decode as a user, or `None` where it does.
    ///
    /// The tag is judged first, then the presence of the mandatory fields,
    /// then the nested objects in the order status, outgoing link, incoming
    /// link, type.
    pub open spec fn spec_failure(raw: RawTaggedObject) -> Option<DecodeFailure> {
        if spec_class_failure(raw.tag@, Class::User) is Some {
            spec_class_failure(raw.tag@, Class::User)
        } else if !Self::spec_has_mandatory(raw) {
            Some(DecodeFailure::MissingRequiredField)
        } else if TGUserStatus::spec_of(raw.spec_object("status"@).unwrap()) is Err {
            Some(TGUserStatus::spec_of(raw.spec_object("status"@).unwrap())->Err_0)
        } else if TGLinkState::spec_of(raw.spec_object("outgoing_link"@).unwrap()) is Err {
            Some(TGLinkState::spec_of(raw.spec_object("outgoing_link"@).unwrap())->Err_0)
        } else if TGLinkState::spec_of(raw.spec_object("incoming_link"@).unwrap()) is Err {
            Some(TGLinkState::spec_of(raw.spec_object("incoming_link"@).unwrap())->Err_0)
        } else if TGUserType::spec_of(raw.spec_object("type"@).unwrap()) is Err {
            Some(TGUserType::spec_of(raw.spec_object("type"@).unwrap())->Err_0)
        } else {
            None
        }
    }

    /// The type of the user.
    pub open spec fn spec_type(self) -> TGUserType {
        TGUserType::spec_of(self@.spec_object("type"@).unwrap())->Ok_0
    }

    /// Whether the user is a bot.
    pub open spec fn spec_is_bot(self) -> bool {
        self.spec_type() is Bot
    }

    /// Whether the user is a deleted account.
    pub open spec fn spec_is_deleted(self) -> bool {
        self.spec_type() is Deleted
    }

    /// Whether the user is a regular account.
    pub open spec fn spec_is_regular(self) -> bool {
        self.spec_type() is Regular
    }

    /// Why access to the user must be restricted, if a reason is given.
    pub open spec fn spec_restriction_reason(self) -> Option<Seq<char>> {
        spec_collapse(self@.spec_text("restriction_reason"@))
    }

    /// The language of the user, if one is given.
    pub open spec fn spec_language_code(self) -> Option<Seq<char>> {
        spec_collapse(self@.spec_text("language_code"@))
    }

    /// Judges whether `raw` decodes as a user, and why not where it does
    /// not.
    pub fn check(raw: &RawTaggedObject) -> (r: Option<DecodeFailure>)
        ensures
            r == Self::spec_failure(*raw),
    {
        if let Some(e) = check_class(raw.tag.as_str(), Class::User) {
            return Some(e);
        }
        let status = raw.get_object("status");
        let outgoing = raw.get_object("outgoing_link");
        let incoming = raw.get_object("incoming_link");
        let user_type = raw.get_object("type");
        if raw.get_int("id").is_none() || raw.get_text("phone_number").is_none()
            || status.is_none() || outgoing.is_none() || incoming.is_none()
            || raw.get_flag("is_verified").is_none() || raw.get_flag("is_support").is_none()
            || raw.get_flag("have_access").is_none() || user_type.is_none() {
            return Some(DecodeFailure::MissingRequiredField);
        }
        if let Err(e) = TGUserStatus::of(status.unwrap()) {
            return Some(e);
        }
        if let Err(e) = TGLinkState::of(outgoing.unwrap()) {
            return Some(e);
        }
        if let Err(e) = TGLinkState::of(incoming.unwrap()) {
            return Some(e);
        }
        if let Err(e) = TGUserType::of(user_type.unwrap()) {
            return Some(e);
        }
        None
    }

    /// Decodes a tagged object as a user.
    ///
    /// Succeeds exactly where the tag is `user`, the fields `id`,
    /// `phone_number`, `status`, `outgoing_link`, `incoming_link`,
    /// `is_verified`, `is_support`, `have_access` and `type` are all there,
    /// and the four nested objects decode. No default stands in for a
    /// missing one.
    pub fn decode(raw: RawTaggedObject) -> (r: Result<TGUser, DecodeFailure>)
        ensures
            match r {
                Ok(user) => user@ == raw && Self::spec_failure(raw) is None,
                Err(e) => Self::spec_failure(raw) == Some(e),
            },
    {
        match Self::check(&raw) {
            Some(e) => Err(e),
            None => Ok(TGUser { origin: raw }),
        }
    }

    /// The object that the user was decoded from.
    pub fn origin(&self) -> (r: &RawTaggedObject)
        ensures
            *r == self@,
            Self::spec_failure(self@) is None,
    {
        proof {
            use_type_invariant(self);
        }
        &self.origin
    }

    /// The identifier of the user. Always present.
    pub fn id(&self) -> (r: i32)
        ensures
            self@.spec_int("id"@) == Some(r),
    {
        proof {
            use_type_invariant(self);
        }
        match self.origin.get_int("id") {
            Some(id) => id,
            None => unreached(),
        }
    }

    /// The first name of the user, or `None` where the backend sent none.
    pub fn first_name(&self) -> (r: Option<&String>)
        ensures
            r.is_some() == self@.spec_string("first_name"@).is_some(),
            r matches Some(s) ==> self@.spec_string("first_name"@) == Some(*s),
    {
        self.origin.get_text("first_name")
    }

    /// The last name of the user, or `None` where the backend sent none.
    pub fn last_name(&self) -> (r: Option<&String>)
        ensures
            r.is_some() == self@.spec_string("last_name"@).is_some(),
            r matches Some(s) ==> self@.spec_string("last_name"@) == Some(*s),
    {
        self.origin.get_text("last_name")
    }

    /// The username of the user, or `None` where the backend sent none.
    pub fn username(&self) -> (r: Option<&String>)
        ensures
            r.is_some() == self@.spec_string("username"@).is_some(),
            r matches Some(s) ==> self@.spec_string("username"@) == Some(*s),
    {
        self.origin.get_text("username")
    }

    /// The phone number of the user. Always present.
    pub fn phone_number(&self) -> (r: String)
        ensures
            self@.spec_string("phone_number"@) == Some(r),
    {
        proof {
            use_type_invariant(self);
        }
        match self.origin.get_text("phone_number") {
            Some(number) => number.clone(),
            None => unreached(),
        }
    }

    /// When the user was last online. Always present.
    pub fn status(&self) -> (r: TGUserStatus)
        ensures
            TGUserStatus::spec_of(self@.spec_object("status"@).unwrap()) == Ok::<_, DecodeFailure>(r),
    {
        proof {
            use_type_invariant(self);
        }
        match self.origin.get_object("status") {
            Some(nested) => match TGUserStatus::of(nested) {
                Ok(status) => status,
                Err(_) => unreached(),
            },
            None => unreached(),
        }
    }

    /// The profile photo of the user, handed on as the backend sent it, or
    /// `None` where it sent none.
    pub fn profile_photo(&self) -> (r: Option<&RawTaggedObject>)
        ensures
            r.is_some() == self@.spec_object("profile_photo"@).is_some(),
            r matches Some(photo) ==> self@.spec_object("profile_photo"@) == Some(*photo),
    {
        self.origin.get_object("profile_photo")
    }

    /// The relationship from the current user to this user. Always present.
    pub fn outgoing_link(&self) -> (r: TGLinkState)
        ensures
            TGLinkState::spec_of(self@.spec_object("outgoing_link"@).unwrap()) == Ok::<_, DecodeFailure>(r),
    {
        proof {
            use_type_invariant(self);
        }
        match self.origin.get_object("outgoing_link") {
            Some(nested) => match TGLinkState::of(nested) {
                Ok(link) => link,
                Err(_) => unreached(),
            },
            None => unreached(),
        }
    }

    /// The relationship from this user to the current user. Always present.
    pub fn incoming_link(&self) -> (r: TGLinkState)
        ensures
            TGLinkState::spec_of(self@.spec_object("incoming_link"@).unwrap()) == Ok::<_, DecodeFailure>(r),
    {
        proof {
            use_type_invariant(self);
        }
        match self.origin.get_object("incoming_link") {
            Some(nested) => match TGLinkState::of(nested) {
                Ok(link) => link,
                Err(_) => unreached(),
            },
            None => unreached(),
        }
    }

    /// Whether the user is verified. Always present.
    pub fn is_verified(&self) -> (r: bool)
        ensures
            self@.spec_flag("is_verified"@) == Some(r),
    {
        proof {
            use_type_invariant(self);
        }
        match self.origin.get_flag("is_verified") {
            Some(flag) => flag,
            None => unreached(),
        }
    }

    /// Whether the user is a support account of the service. Always present.
    pub fn is_support(&self) -> (r: bool)
        ensures
            self@.spec_flag("is_support"@) == Some(r),
    {
        proof {
            use_type_invariant(self);
        }
        match self.origin.get_flag("is_support") {
            Some(flag) => flag,
            None => unreached(),
        }
    }

    /// Why access to the user must be restricted. An empty reason is no
    /// reason: it gives `None`, as an absent one does.
    pub fn restriction_reason(&self) -> (r: Option<String>)
        ensures
            spec_chars(r) == self.spec_restriction_reason(),
    {
        match self.origin.get_text("restriction_reason") {
            Some(reason) => if reason.as_str().is_empty() {
                None
            } else {
                Some(reason.clone())
            },
            None => None,
        }
    }

    /// Whether the user is accessible. Always present.
    pub fn have_access(&self) -> (r: bool)
        ensures
            self@.spec_flag("have_access"@) == Some(r),
    {
        proof {
            use_type_invariant(self);
        }
        match self.origin.get_flag("have_access") {
            Some(flag) => flag,
            None => unreached(),
        }
    }

    /// The type of the user. Always present.
    pub fn type_(&self) -> (r: TGUserType)
        ensures
            r == self.spec_type(),
            TGUserType::spec_of(self@.spec_object("type"@).unwrap()) == Ok::<_, DecodeFailure>(r),
    {
        proof {
            use_type_invariant(self);
        }
        match self.origin.get_object("type") {
            Some(nested) => match TGUserType::of(nested) {
                Ok(user_type) => user_type,
                Err(_) => unreached(),
            },
            None => unreached(),
        }
    }

    /// The language of the user, as an IETF tag. An empty tag is no tag: it
    /// gives `None`, as an absent one does.
    pub fn language_code(&self) -> (r: Option<String>)
        ensures
            spec_chars(r) == self.spec_language_code(),
    {
        match self.origin.get_text("language_code") {
            Some(code) => if code.as_str().is_empty() {
                None
            } else {
                Some(code.clone())
            },
            None => None,
        }
    }

    /// Whether the user is a bot, as the decoded type says.
    pub fn is_bot(&self) -> (r: bool)
        ensures
            r == self.spec_is_bot(),
    {
        match self.type_() {
            TGUserType::Bot(_) => true,
            _ => false,
        }
    }

    /// Whether the user is a deleted account, as the decoded type says.
    pub fn is_deleted(&self) -> (r: bool)
        ensures
            r == self.spec_is_deleted(),
    {
        match self.type_() {
            TGUserType::Deleted => true,
            _ => false,
        }
    }

    /// Whether the user is a regular account, as the decoded type says.
    pub fn is_regular(&self) -> (r: bool)
        ensures
            r == self.spec_is_regular(),
    {
        match self.type_() {
            TGUserType::Regular => true,
            _ => false,
        }
    }

    /// An object tagged `user` that lacks a mandatory field never decodes:
    /// it fails for the missing field, whatever else it carries. One that
    /// decodes has them all.
    pub proof fn lemma_mandatory_fields(raw: RawTaggedObject)
        requires
            raw.tag@ == "user"@,
        ensures
            !Self::spec_has_mandatory(raw) ==> Self::spec_failure(raw) == Some(
                DecodeFailure::MissingRequiredField,
            ),
            Self::spec_failure(raw) is None ==> Self::spec_has_mandatory(raw),
    {
    }

    /// For the two strings that are used as flags, an empty string and no
    /// string at all are one and the same to the accessor: both give
    /// `None`.
    pub proof fn lemma_empty_is_absent(with_empty: TGUser, without: TGUser)
        ensures
            with_empty@.spec_text("restriction_reason"@) == Some(Seq::<char>::empty())
                && without@.spec_text("restriction_reason"@) is None
                ==> with_empty.spec_restriction_reason() == without.spec_restriction_reason()
                && without.spec_restriction_reason() is None,
            with_empty@.spec_text("language_code"@) == Some(Seq::<char>::empty())
                && without@.spec_text("language_code"@) is None ==> with_empty.spec_language_code()
                == without.spec_language_code() && without.spec_language_code() is None,
    {
    }

    /// Of a decoded user, the three predicates follow the tag of the type
    /// object: each holds for its own tag and for no other, so no two hold
    /// together; for `userTypeUnknown` none holds, and for every other tag
    /// exactly one does.
    pub proof fn lemma_type_predicates(user: TGUser)
        requires
            Self::spec_failure(user@) is None,
        ensures
            user.spec_is_bot() <==> user@.spec_object("type"@).unwrap().tag@ == "userTypeBot"@,
            user.spec_is_deleted() <==> user@.spec_object("type"@).unwrap().tag@
                == "userTypeDeleted"@,
            user.spec_is_regular() <==> user@.spec_object("type"@).unwrap().tag@
                == "userTypeRegular"@,
            !(user.spec_is_bot() && user.spec_is_deleted()),
            !(user.spec_is_bot() && user.spec_is_regular()),
            !(user.spec_is_deleted() && user.spec_is_regular()),
            user@.spec_object("type"@).unwrap().tag@ == "userTypeUnknown"@ ==> !user.spec_is_bot()
                && !user.spec_is_deleted() && !user.spec_is_regular(),
            user@.spec_object("type"@).unwrap().tag@ != "userTypeUnknown"@ ==> user.spec_is_bot()
                || user.spec_is_deleted() || user.spec_is_regular(),
    {
        let nested = user@.spec_object("type"@).unwrap();
        let found = choose|k: UserTypeKind| k.spec_tag() == nested.tag@;
        UserTypeKind::lemma_tags_distinct(found, UserTypeKind::Bot);
        UserTypeKind::lemma_tags_distinct(found, UserTypeKind::Deleted);
        UserTypeKind::lemma_tags_distinct(found, UserTypeKind::Regular);
        UserTypeKind::lemma_tags_distinct(found, UserTypeKind::Unknown);
    }
}

} // verus!
