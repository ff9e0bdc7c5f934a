use telegram_client::decoder::check;
use telegram_client::decoder::decode;
use telegram_client::decoder::TypedVariant;
use telegram_client::errors::DecodeFailure;
use telegram_client::family::outsider;
use telegram_client::family::is_known_tag;
use telegram_client::family::check_class;
use telegram_client::family::Class;
use telegram_client::family::Family;
use telegram_client::raw::RawTaggedObject;
use telegram_client::family::AuthorizationStateKind;
use telegram_client::family::ChatTypeKind;
use telegram_client::family::LinkStateKind;
use telegram_client::family::UserStatusKind;
use telegram_client::family::UserTypeKind;
use telegram_client::types::TGLinkState;
use telegram_client::types::TGUserStatus;
use telegram_client::types::TGUserType;

#[test]
fn user_status_without_payload_follows_the_tag() {
    assert_eq!(TGUserStatus::of(&RawTaggedObject::new("userStatusEmpty")), Ok(TGUserStatus::Empty));
    assert_eq!(
        TGUserStatus::of(&RawTaggedObject::new("userStatusLastMonth")),
        Ok(TGUserStatus::LastMonth)
    );
    assert_eq!(
        TGUserStatus::of(&RawTaggedObject::new("userStatusLastWeek")),
        Ok(TGUserStatus::LastWeek)
    );
    assert_eq!(
        TGUserStatus::of(&RawTaggedObject::new("userStatusRecently")),
        Ok(TGUserStatus::Recently)
    );
}

#[test]
fn user_status_offline_carries_was_online() {
    let raw = RawTaggedObject::new("userStatusOffline").with_int("was_online", 1_555_000_000);
    assert_eq!(TGUserStatus::of(&raw), Ok(TGUserStatus::Offline(1_555_000_000)));
}

#[test]
fn user_status_online_carries_expires() {
    let raw = RawTaggedObject::new("userStatusOnline").with_int("expires", 1_555_000_300);
    assert_eq!(TGUserStatus::of(&raw), Ok(TGUserStatus::Online(1_555_000_300)));
}

#[test]
fn user_status_offline_reads_its_own_field_only() {
    let raw = RawTaggedObject::new("userStatusOffline").with_int("expires", 7);
    assert_eq!(TGUserStatus::of(&raw), Err(DecodeFailure::MissingRequiredField));
    let raw = RawTaggedObject::new("userStatusOnline").with_int("was_online", 7);
    assert_eq!(TGUserStatus::of(&raw), Err(DecodeFailure::MissingRequiredField));
}

#[test]
fn user_status_field_of_another_type_counts_as_missing() {
    let raw = RawTaggedObject::new("userStatusOnline").with_text("expires", "soon");
    assert_eq!(TGUserStatus::of(&raw), Err(DecodeFailure::MissingRequiredField));
}

#[test]
fn user_status_unknown_tag_fails() {
    let raw = RawTaggedObject::new("userStatusYesterday").with_int("expires", 1);
    assert_eq!(TGUserStatus::of(&raw), Err(DecodeFailure::UnknownTag));
    assert_eq!(TGUserStatus::of(&RawTaggedObject::new("")), Err(DecodeFailure::UnknownTag));
}

#[test]
fn user_status_tag_of_another_family_fails() {
    assert_eq!(
        TGUserStatus::of(&RawTaggedObject::new("linkStateNone")),
        Err(DecodeFailure::WrongFamily)
    );
    assert_eq!(TGUserStatus::of(&RawTaggedObject::new("user")), Err(DecodeFailure::WrongFamily));
}

#[test]
fn tags_match_letter_for_letter() {
    assert!(TGUserStatus::of(&RawTaggedObject::new("UserStatusEmpty")).is_err());
    assert!(TGUserStatus::of(&RawTaggedObject::new("userStatusEmpty ")).is_err());
    assert!(TGUserStatus::of(&RawTaggedObject::new("userStatus")).is_err());
    assert!(TGUserStatus::of(&RawTaggedObject::new("userstatusempty")).is_err());
    assert!(TGLinkState::of(&RawTaggedObject::new("LinkStateNone")).is_err());
    assert!(TGUserType::of(&RawTaggedObject::new("UserTypeBot")).is_err());
    assert_eq!(UserStatusKind::of_tag("UserStatusEmpty"), None);
    assert_eq!(UserTypeKind::of_tag("userTypeBots"), None);
}

#[test]
fn link_state_follows_the_tag() {
    assert_eq!(
        TGLinkState::of(&RawTaggedObject::new("linkStateIsContact")),
        Ok(TGLinkState::IsContact)
    );
    assert_eq!(
        TGLinkState::of(&RawTaggedObject::new("linkStateKnowsPhoneNumber")),
        Ok(TGLinkState::KnowsPhoneNumber)
    );
    assert_eq!(TGLinkState::of(&RawTaggedObject::new("linkStateNone")), Ok(TGLinkState::Unknown));
}

#[test]
fn link_state_rejects_other_tags() {
    assert_eq!(
        TGLinkState::of(&RawTaggedObject::new("linkStateStranger")),
        Err(DecodeFailure::UnknownTag)
    );
    assert_eq!(
        TGLinkState::of(&RawTaggedObject::new("userStatusEmpty")),
        Err(DecodeFailure::WrongFamily)
    );
}

#[test]
fn user_type_follows_the_tag() {
    assert!(matches!(TGUserType::of(&RawTaggedObject::new("userTypeDeleted")), Ok(TGUserType::Deleted)));
    assert!(matches!(TGUserType::of(&RawTaggedObject::new("userTypeRegular")), Ok(TGUserType::Regular)));
    assert!(matches!(TGUserType::of(&RawTaggedObject::new("userTypeUnknown")), Ok(TGUserType::Unknown)));
    assert!(matches!(TGUserType::of(&RawTaggedObject::new("userTypeBot")), Ok(TGUserType::Bot(_))));
}

#[test]
fn user_type_bot_carries_its_fields() {
    let raw = RawTaggedObject::new("userTypeBot")
        .with_flag("can_join_groups", true)
        .with_flag("is_inline", false)
        .with_text("inline_query_placeholder", "Search...");
    match TGUserType::of(&raw) {
        Ok(TGUserType::Bot(bot)) => {
            assert_eq!(bot.can_join_groups, Some(true));
            assert_eq!(bot.can_read_all_group_messages, None);
            assert_eq!(bot.is_inline, Some(false));
            assert_eq!(bot.inline_query_placeholder, Some("Search...".to_string()));
            assert_eq!(bot.need_location, None);
        }
        _ => panic!("a bot was expected"),
    }
}

#[test]
fn user_type_rejects_other_tags() {
    assert!(matches!(
        TGUserType::of(&RawTaggedObject::new("userTypeRobot")),
        Err(DecodeFailure::UnknownTag)
    ));
    assert!(matches!(
        TGUserType::of(&RawTaggedObject::new("chatTypePrivate")),
        Err(DecodeFailure::WrongFamily)
    ));
}

#[test]
fn every_kind_is_found_by_its_own_tag() {
    let states = [
        AuthorizationStateKind::WaitTdlibParameters,
        AuthorizationStateKind::WaitEncryptionKey,
        AuthorizationStateKind::WaitPhoneNumber,
        AuthorizationStateKind::WaitCode,
        AuthorizationStateKind::WaitPassword,
        AuthorizationStateKind::Ready,
        AuthorizationStateKind::LoggingOut,
        AuthorizationStateKind::Closing,
        AuthorizationStateKind::Closed,
    ];
    for kind in states {
        assert_eq!(AuthorizationStateKind::of_tag(kind.tag()), Some(kind));
    }
    let chats =
        [ChatTypeKind::Private, ChatTypeKind::BasicGroup, ChatTypeKind::Supergroup, ChatTypeKind::Secret];
    for kind in chats {
        assert_eq!(ChatTypeKind::of_tag(kind.tag()), Some(kind));
    }
    let links = [LinkStateKind::IsContact, LinkStateKind::KnowsPhoneNumber, LinkStateKind::Unknown];
    for kind in links {
        assert_eq!(LinkStateKind::of_tag(kind.tag()), Some(kind));
    }
    let statuses = [
        UserStatusKind::Empty,
        UserStatusKind::LastMonth,
        UserStatusKind::LastWeek,
        UserStatusKind::Offline,
        UserStatusKind::Online,
        UserStatusKind::Recently,
    ];
    for kind in statuses {
        assert_eq!(UserStatusKind::of_tag(kind.tag()), Some(kind));
    }
    let types = [UserTypeKind::Bot, UserTypeKind::Deleted, UserTypeKind::Regular, UserTypeKind::Unknown];
    for kind in types {
        assert_eq!(UserTypeKind::of_tag(kind.tag()), Some(kind));
    }
}

#[test]
fn kinds_have_the_tags_of_the_backend() {
    assert_eq!(AuthorizationStateKind::WaitTdlibParameters.tag(), "authorizationStateWaitTdlibParameters");
    assert_eq!(AuthorizationStateKind::Closed.tag(), "authorizationStateClosed");
    assert_eq!(ChatTypeKind::BasicGroup.tag(), "chatTypeBasicGroup");
    assert_eq!(LinkStateKind::Unknown.tag(), "linkStateNone");
    assert_eq!(UserStatusKind::LastWeek.tag(), "userStatusLastWeek");
    assert_eq!(UserTypeKind::Bot.tag(), "userTypeBot");
}

#[test]
fn a_tag_belongs_to_one_family_only() {
    let families = [
        Family::AuthorizationState,
        Family::ChatType,
        Family::LinkState,
        Family::UserStatus,
        Family::UserType,
    ];
    let tags = [
        ("authorizationStateReady", Family::AuthorizationState),
        ("chatTypeSecret", Family::ChatType),
        ("linkStateIsContact", Family::LinkState),
        ("userStatusRecently", Family::UserStatus),
        ("userTypeRegular", Family::UserType),
    ];
    for (tag, home) in tags {
        for family in families {
            assert_eq!(family.has_member(tag), family == home);
        }
    }
    for family in families {
        assert!(!family.has_member("user"));
        assert!(!family.has_member("nothing"));
    }
}

#[test]
fn outsiders_are_told_apart_by_whether_the_tag_is_known() {
    assert_eq!(outsider("user"), DecodeFailure::WrongFamily);
    assert_eq!(outsider("updateAuthorizationState"), DecodeFailure::WrongFamily);
    assert_eq!(outsider("userStatusEmpty"), DecodeFailure::WrongFamily);
    assert_eq!(outsider("noSuchClass"), DecodeFailure::UnknownTag);
    assert_eq!(outsider("User"), DecodeFailure::UnknownTag);
    assert_eq!(outsider(""), DecodeFailure::UnknownTag);
    assert!(is_known_tag("invoice"));
    assert!(is_known_tag("error"));
    assert!(is_known_tag("chatTypeSecret"));
    assert!(!is_known_tag("chatTypeOpen"));
}

#[test]
fn classes_are_found_by_their_own_tags() {
    let classes = [Class::Error, Class::Invoice, Class::UpdateAuthorizationState, Class::User];
    for class in classes {
        assert_eq!(Class::of_tag(class.tag()), Some(class));
        assert_eq!(check_class(class.tag(), class), None);
    }
    assert_eq!(Class::User.tag(), "user");
    assert_eq!(Class::UpdateAuthorizationState.tag(), "updateAuthorizationState");
    assert_eq!(Class::of_tag("users"), None);
    assert_eq!(Class::of_tag("userTypeBot"), None);
    assert_eq!(check_class("invoice", Class::User), Some(DecodeFailure::WrongFamily));
    assert_eq!(check_class("userTypeBot", Class::User), Some(DecodeFailure::WrongFamily));
    assert_eq!(check_class("usr", Class::User), Some(DecodeFailure::UnknownTag));
}

#[test]
fn decode_by_family_gives_the_member_of_that_family() {
    let raw = RawTaggedObject::new("userStatusOnline").with_int("expires", 9);
    match decode(Family::UserStatus, raw) {
        Ok(TypedVariant::UserStatus(status)) => assert_eq!(status, TGUserStatus::Online(9)),
        _ => panic!("a user status was expected"),
    }
    match decode(Family::LinkState, RawTaggedObject::new("linkStateNone")) {
        Ok(variant) => {
            assert_eq!(variant.family(), Family::LinkState);
            assert!(matches!(variant, TypedVariant::LinkState(TGLinkState::Unknown)));
        }
        Err(_) => panic!("a link state was expected"),
    }
}

#[test]
fn decode_by_family_keeps_the_family_boundary() {
    let status = || RawTaggedObject::new("userStatusEmpty");
    assert!(matches!(decode(Family::LinkState, status()), Err(DecodeFailure::WrongFamily)));
    assert!(matches!(decode(Family::UserType, status()), Err(DecodeFailure::WrongFamily)));
    assert!(matches!(decode(Family::ChatType, status()), Err(DecodeFailure::WrongFamily)));
    assert!(matches!(decode(Family::AuthorizationState, status()), Err(DecodeFailure::WrongFamily)));
    assert!(matches!(decode(Family::UserStatus, status()), Ok(TypedVariant::UserStatus(_))));
    assert_eq!(check(Family::LinkState, &status()), Some(DecodeFailure::WrongFamily));
    assert_eq!(check(Family::UserStatus, &status()), None);
    assert_eq!(
        check(Family::UserStatus, &RawTaggedObject::new("mystery")),
        Some(DecodeFailure::UnknownTag)
    );
    assert_eq!(
        check(Family::UserStatus, &RawTaggedObject::new("userStatusOffline")),
        Some(DecodeFailure::MissingRequiredField)
    );
}

#[test]
fn decode_failures_have_names() {
    assert_eq!(DecodeFailure::UnknownTag.name(), "unknown tag");
    assert_eq!(DecodeFailure::WrongFamily.name(), "wrong family");
    assert_eq!(DecodeFailure::MissingRequiredField.name(), "missing required field");
}
