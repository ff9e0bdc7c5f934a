use telegram_client::errors::DecodeFailure;
use telegram_client::raw::RawTaggedObject;
use telegram_client::types::TGLinkState;
use telegram_client::types::TGUser;
use telegram_client::types::TGUserStatus;
use telegram_client::types::TGUserType;

fn full_user(type_tag: &str) -> RawTaggedObject {
    RawTaggedObject::new("user")
        .with_int("id", 777000)
        .with_text("first_name", "Ada")
        .with_text("last_name", "Lovelace")
        .with_text("username", "ada")
        .with_text("phone_number", "4420000000")
        .with_object("status", RawTaggedObject::new("userStatusOffline").with_int("was_online", 1_555_000_000))
        .with_object("profile_photo", RawTaggedObject::new("profilePhoto").with_text("id", "42"))
        .with_object("outgoing_link", RawTaggedObject::new("linkStateIsContact"))
        .with_object("incoming_link", RawTaggedObject::new("linkStateKnowsPhoneNumber"))
        .with_flag("is_verified", true)
        .with_flag("is_support", false)
        .with_text("restriction_reason", "terms-ios: not here")
        .with_flag("have_access", true)
        .with_object("type", RawTaggedObject::new(type_tag))
        .with_text("language_code", "en")
}

fn without(raw: RawTaggedObject, name: &str) -> RawTaggedObject {
    let mut fields = raw.fields;
    fields.retain(|field| field.name != name);
    RawTaggedObject { tag: raw.tag, fields }
}

fn failure(raw: RawTaggedObject) -> Option<DecodeFailure> {
    let judged = TGUser::check(&raw);
    let decoded = TGUser::decode(raw).err();
    assert_eq!(judged, decoded);
    decoded
}

#[test]
fn a_full_user_decodes_and_hands_out_what_was_supplied() {
    let user = TGUser::decode(full_user("userTypeRegular")).unwrap();
    assert_eq!(user.id(), 777000);
    assert_eq!(user.first_name(), Some(&"Ada".to_string()));
    assert_eq!(user.last_name(), Some(&"Lovelace".to_string()));
    assert_eq!(user.username(), Some(&"ada".to_string()));
    assert_eq!(user.phone_number(), "4420000000");
    assert_eq!(user.status(), TGUserStatus::Offline(1_555_000_000));
    assert_eq!(user.profile_photo().unwrap().tag, "profilePhoto");
    assert_eq!(user.profile_photo().unwrap().get_text("id"), Some(&"42".to_string()));
    assert_eq!(user.outgoing_link(), TGLinkState::IsContact);
    assert_eq!(user.incoming_link(), TGLinkState::KnowsPhoneNumber);
    assert!(user.is_verified());
    assert!(!user.is_support());
    assert_eq!(user.restriction_reason(), Some("terms-ios: not here".to_string()));
    assert!(user.have_access());
    assert!(matches!(user.type_(), TGUserType::Regular));
    assert_eq!(user.language_code(), Some("en".to_string()));
    assert_eq!(user.origin().tag, "user");
    assert_eq!(user.origin().get_int("id"), Some(777000));
}

#[test]
fn each_mandatory_field_is_needed() {
    let mandatory = [
        "id",
        "phone_number",
        "status",
        "outgoing_link",
        "incoming_link",
        "is_verified",
        "is_support",
        "have_access",
        "type",
    ];
    for name in mandatory {
        let raw = without(full_user("userTypeRegular"), name);
        assert_eq!(failure(raw), Some(DecodeFailure::MissingRequiredField), "without {}", name);
    }
    assert_eq!(failure(full_user("userTypeRegular")), None);
}

#[test]
fn a_mandatory_field_is_never_defaulted() {
    let raw = without(full_user("userTypeRegular"), "id");
    assert!(TGUser::decode(raw).is_err());
    let raw = without(full_user("userTypeRegular"), "is_verified");
    assert!(TGUser::decode(raw).is_err());
    let raw = without(full_user("userTypeRegular"), "id").with_text("id", "777000");
    assert_eq!(failure(raw), Some(DecodeFailure::MissingRequiredField));
    let raw = without(full_user("userTypeRegular"), "id").with_int("id", 0);
    assert_eq!(TGUser::decode(raw).unwrap().id(), 0);
}

#[test]
fn optional_fields_may_be_absent() {
    let mut raw = full_user("userTypeRegular");
    for name in ["first_name", "last_name", "username", "profile_photo", "restriction_reason", "language_code"] {
        raw = without(raw, name);
    }
    let user = TGUser::decode(raw).unwrap();
    assert_eq!(user.first_name(), None);
    assert_eq!(user.last_name(), None);
    assert_eq!(user.username(), None);
    assert!(user.profile_photo().is_none());
    assert_eq!(user.restriction_reason(), None);
    assert_eq!(user.language_code(), None);
}

#[test]
fn descriptive_strings_keep_an_empty_value() {
    let raw = without(full_user("userTypeRegular"), "first_name").with_text("first_name", "");
    let user = TGUser::decode(raw).unwrap();
    assert_eq!(user.first_name(), Some(&String::new()));
}

#[test]
fn empty_flag_strings_collapse_to_absent() {
    let empty = without(without(full_user("userTypeRegular"), "restriction_reason"), "language_code")
        .with_text("restriction_reason", "")
        .with_text("language_code", "");
    let absent = without(without(full_user("userTypeRegular"), "restriction_reason"), "language_code");
    let empty = TGUser::decode(empty).unwrap();
    let absent = TGUser::decode(absent).unwrap();
    assert_eq!(empty.restriction_reason(), None);
    assert_eq!(empty.language_code(), None);
    assert_eq!(empty.restriction_reason(), absent.restriction_reason());
    assert_eq!(empty.language_code(), absent.language_code());
    let blank = without(full_user("userTypeRegular"), "language_code").with_text("language_code", " ");
    assert_eq!(TGUser::decode(blank).unwrap().language_code(), Some(" ".to_string()));
}

#[test]
fn the_tag_must_be_user() {
    let mut raw = full_user("userTypeRegular");
    raw.tag = "userFullInfo".to_string();
    assert_eq!(failure(raw), Some(DecodeFailure::UnknownTag));
    let mut raw = full_user("userTypeRegular");
    raw.tag = "invoice".to_string();
    assert_eq!(failure(raw), Some(DecodeFailure::WrongFamily));
    let mut raw = full_user("userTypeRegular");
    raw.tag = "userTypeRegular".to_string();
    assert_eq!(failure(raw), Some(DecodeFailure::WrongFamily));
    let mut raw = full_user("userTypeRegular");
    raw.tag = "User".to_string();
    assert_eq!(failure(raw), Some(DecodeFailure::UnknownTag));
}

#[test]
fn the_tag_is_judged_before_the_fields() {
    let raw = RawTaggedObject::new("nobody");
    assert_eq!(failure(raw), Some(DecodeFailure::UnknownTag));
    let raw = RawTaggedObject::new("user");
    assert_eq!(failure(raw), Some(DecodeFailure::MissingRequiredField));
}

#[test]
fn nested_objects_must_decode_in_their_families() {
    let raw = without(full_user("userTypeRegular"), "status")
        .with_object("status", RawTaggedObject::new("userStatusAway"));
    assert_eq!(failure(raw), Some(DecodeFailure::UnknownTag));
    let raw = without(full_user("userTypeRegular"), "status")
        .with_object("status", RawTaggedObject::new("userStatusOnline"));
    assert_eq!(failure(raw), Some(DecodeFailure::MissingRequiredField));
    let raw = without(full_user("userTypeRegular"), "outgoing_link")
        .with_object("outgoing_link", RawTaggedObject::new("userStatusEmpty"));
    assert_eq!(failure(raw), Some(DecodeFailure::WrongFamily));
    let raw = without(full_user("userTypeRegular"), "incoming_link")
        .with_object("incoming_link", RawTaggedObject::new("linkStateFriend"));
    assert_eq!(failure(raw), Some(DecodeFailure::UnknownTag));
    assert_eq!(failure(full_user("userTypeRobot")), Some(DecodeFailure::UnknownTag));
    assert_eq!(failure(full_user("linkStateNone")), Some(DecodeFailure::WrongFamily));
}

#[test]
fn missing_fields_are_reported_before_nested_failures() {
    let raw = without(full_user("userTypeRobot"), "id");
    assert_eq!(failure(raw), Some(DecodeFailure::MissingRequiredField));
}

#[test]
fn a_bot_is_only_a_bot() {
    let user = TGUser::decode(full_user("userTypeBot")).unwrap();
    assert!(user.is_bot());
    assert!(!user.is_deleted());
    assert!(!user.is_regular());
    assert!(matches!(user.type_(), TGUserType::Bot(_)));
}

#[test]
fn a_deleted_user_is_only_deleted() {
    let user = TGUser::decode(full_user("userTypeDeleted")).unwrap();
    assert!(!user.is_bot());
    assert!(user.is_deleted());
    assert!(!user.is_regular());
}

#[test]
fn a_regular_user_is_only_regular() {
    let user = TGUser::decode(full_user("userTypeRegular")).unwrap();
    assert!(!user.is_bot());
    assert!(!user.is_deleted());
    assert!(user.is_regular());
}

#[test]
fn an_unknown_user_is_none_of_the_three() {
    let user = TGUser::decode(full_user("userTypeUnknown")).unwrap();
    assert!(!user.is_bot());
    assert!(!user.is_deleted());
    assert!(!user.is_regular());
    assert!(matches!(user.type_(), TGUserType::Unknown));
}

#[test]
fn the_bot_of_a_user_carries_its_fields() {
    let bot = RawTaggedObject::new("userTypeBot").with_flag("need_location", true);
    let raw = without(full_user("userTypeRegular"), "type").with_object("type", bot);
    match TGUser::decode(raw).unwrap().type_() {
        TGUserType::Bot(bot) => {
            assert_eq!(bot.need_location, Some(true));
            assert_eq!(bot.is_inline, None);
        }
        _ => panic!("a bot was expected"),
    }
}

#[test]
fn statuses_are_ordered_as_declared() {
    assert!(TGUserStatus::Empty < TGUserStatus::LastMonth);
    assert!(TGUserStatus::LastWeek < TGUserStatus::Offline(0));
    assert!(TGUserStatus::Offline(5) < TGUserStatus::Offline(6));
    assert!(TGUserStatus::Offline(i32::MAX) < TGUserStatus::Online(i32::MIN));
    assert!(TGUserStatus::Online(9) < TGUserStatus::Recently);
}
