use telegram_client::errors::DecodeFailure;
use telegram_client::raw::RawTaggedObject;
use telegram_client::raw::RawValue;
use telegram_client::types::TGChatType;
use telegram_client::types::TGChatTypeBasicGroup;
use telegram_client::types::TGChatTypePrivate;
use telegram_client::types::TGChatTypeSecret;
use telegram_client::types::TGChatTypeSupergroup;
use telegram_client::types::TGInvoice;
use telegram_client::types::TGLabeledPricePart;

#[test]
fn a_private_chat_has_its_user() {
    let chat = TGChatTypePrivate::decode(RawTaggedObject::new("chatTypePrivate").with_int("user_id", 11)).unwrap();
    assert_eq!(chat.user_id(), 11);
    assert_eq!(chat.td_origin().tag, "chatTypePrivate");
    assert_eq!(
        TGChatTypePrivate::decode(RawTaggedObject::new("chatTypePrivate")).err(),
        Some(DecodeFailure::MissingRequiredField)
    );
}

#[test]
fn a_basic_group_has_its_identifier() {
    let raw = RawTaggedObject::new("chatTypeBasicGroup").with_int("basic_group_id", -5);
    assert_eq!(TGChatTypeBasicGroup::decode(raw).unwrap().basic_group_id(), -5);
    let raw = RawTaggedObject::new("chatTypeBasicGroup").with_int("user_id", 5);
    assert_eq!(TGChatTypeBasicGroup::decode(raw).err(), Some(DecodeFailure::MissingRequiredField));
    let raw = RawTaggedObject::new("chatTypeBasicGroup").with_long("basic_group_id", 5);
    assert_eq!(TGChatTypeBasicGroup::check(&raw), Some(DecodeFailure::MissingRequiredField));
}

#[test]
fn a_secret_chat_needs_both_identifiers() {
    let raw = RawTaggedObject::new("chatTypeSecret").with_int("secret_chat_id", 3).with_int("user_id", 4);
    let chat = TGChatTypeSecret::decode(raw).unwrap();
    assert_eq!(chat.secret_chat_id(), 3);
    assert_eq!(chat.user_id(), 4);
    let raw = RawTaggedObject::new("chatTypeSecret").with_int("secret_chat_id", 3);
    assert_eq!(TGChatTypeSecret::decode(raw).err(), Some(DecodeFailure::MissingRequiredField));
    let raw = RawTaggedObject::new("chatTypeSecret").with_int("user_id", 4);
    assert_eq!(TGChatTypeSecret::decode(raw).err(), Some(DecodeFailure::MissingRequiredField));
}

#[test]
fn a_supergroup_is_no_channel_unless_it_says_so() {
    let raw = RawTaggedObject::new("chatTypeSupergroup").with_int("supergroup_id", 8);
    let chat = TGChatTypeSupergroup::decode(raw).unwrap();
    assert_eq!(chat.supergroup_id(), 8);
    assert!(!chat.is_channel());
    let raw = RawTaggedObject::new("chatTypeSupergroup").with_int("supergroup_id", 8).with_flag("is_channel", true);
    assert!(TGChatTypeSupergroup::decode(raw).unwrap().is_channel());
    let raw = RawTaggedObject::new("chatTypeSupergroup").with_flag("is_channel", true);
    assert_eq!(TGChatTypeSupergroup::decode(raw).err(), Some(DecodeFailure::MissingRequiredField));
}

#[test]
fn a_chat_class_takes_its_own_tag_only() {
    let raw = RawTaggedObject::new("chatTypeBasicGroup").with_int("user_id", 1).with_int("basic_group_id", 1);
    assert_eq!(TGChatTypePrivate::decode(raw).err(), Some(DecodeFailure::WrongFamily));
    let raw = RawTaggedObject::new("chatTypePublic").with_int("user_id", 1);
    assert_eq!(TGChatTypePrivate::decode(raw).err(), Some(DecodeFailure::UnknownTag));
    let raw = RawTaggedObject::new("user").with_int("supergroup_id", 1);
    assert_eq!(TGChatTypeSupergroup::check(&raw), Some(DecodeFailure::WrongFamily));
}

#[test]
fn chat_type_follows_the_tag() {
    let raw = RawTaggedObject::new("chatTypePrivate").with_int("user_id", 1);
    assert!(matches!(TGChatType::of(raw), Ok(TGChatType::Private(_))));
    let raw = RawTaggedObject::new("chatTypeBasicGroup").with_int("basic_group_id", 2);
    match TGChatType::of(raw) {
        Ok(TGChatType::BasicGroup(group)) => assert_eq!(group.basic_group_id(), 2),
        _ => panic!("a basic group was expected"),
    }
    let raw = RawTaggedObject::new("chatTypeSupergroup").with_int("supergroup_id", 3);
    assert!(matches!(TGChatType::of(raw), Ok(TGChatType::Supergroup(_))));
    let raw = RawTaggedObject::new("chatTypeSecret").with_int("secret_chat_id", 4).with_int("user_id", 5);
    assert!(matches!(TGChatType::of(raw), Ok(TGChatType::Secret(_))));
}

#[test]
fn chat_type_rejects_what_it_cannot_place() {
    assert_eq!(TGChatType::of(RawTaggedObject::new("chatTypePrivate")).err(), Some(DecodeFailure::MissingRequiredField));
    assert_eq!(TGChatType::of(RawTaggedObject::new("chatTypeForum")).err(), Some(DecodeFailure::UnknownTag));
    assert_eq!(TGChatType::of(RawTaggedObject::new("userTypeBot")).err(), Some(DecodeFailure::WrongFamily));
    assert_eq!(TGChatType::check(&RawTaggedObject::new("chatTypeSecret").with_int("user_id", 1)), Some(DecodeFailure::MissingRequiredField));
    assert_eq!(TGChatType::check(&RawTaggedObject::new("chatTypePrivate").with_int("user_id", 1)), None);
}

#[test]
fn an_empty_invoice_has_defaults() {
    let invoice = TGInvoice::decode(RawTaggedObject::new("invoice")).unwrap();
    assert_eq!(invoice.currency(), None);
    assert!(invoice.price_parts().is_empty());
    assert!(!invoice.is_test());
    assert!(!invoice.need_name());
    assert!(!invoice.need_phone_number());
    assert!(!invoice.need_email_address());
    assert!(!invoice.need_shipping_address());
    assert!(!invoice.send_phone_number_to_provider());
    assert!(!invoice.send_email_address_to_provider());
    assert!(!invoice.is_flexible());
    assert_eq!(invoice.td_origin().tag, "invoice");
}

#[test]
fn an_invoice_hands_out_what_was_supplied() {
    let parts = vec![
        RawValue::Object(Box::new(RawTaggedObject::new("labeledPricePart").with_text("label", "Goods").with_long("amount", 1999))),
        RawValue::Object(Box::new(RawTaggedObject::new("labeledPricePart").with_text("label", "Tax"))),
    ];
    let raw = RawTaggedObject::new("invoice")
        .with_text("currency", "EUR")
        .with_array("price_parts", parts)
        .with_flag("is_test", true)
        .with_flag("need_name", true)
        .with_flag("need_phone_number", true)
        .with_flag("need_email_address", true)
        .with_flag("need_shipping_address", true)
        .with_flag("send_phone_number_to_provider", true)
        .with_flag("send_email_address_to_provider", true)
        .with_flag("is_flexible", true);
    let invoice = TGInvoice::decode(raw).unwrap();
    assert_eq!(invoice.currency(), Some("EUR".to_string()));
    let parts = invoice.price_parts();
    assert_eq!(parts.len(), 2);
    assert_eq!(parts[0].label, Some("Goods".to_string()));
    assert_eq!(parts[0].amount, Some(1999));
    assert_eq!(parts[1].label, Some("Tax".to_string()));
    assert_eq!(parts[1].amount, None);
    assert!(invoice.is_test());
    assert!(invoice.need_name());
    assert!(invoice.need_phone_number());
    assert!(invoice.need_email_address());
    assert!(invoice.need_shipping_address());
    assert!(invoice.send_phone_number_to_provider());
    assert!(invoice.send_email_address_to_provider());
    assert!(invoice.is_flexible());
}

#[test]
fn invoice_flags_are_read_one_by_one() {
    let invoice = TGInvoice::decode(RawTaggedObject::new("invoice").with_flag("need_name", true).with_flag("is_test", false)).unwrap();
    assert!(invoice.need_name());
    assert!(!invoice.is_test());
    assert!(!invoice.need_phone_number());
    assert!(!invoice.is_flexible());
}

#[test]
fn price_parts_that_are_no_array_of_objects_give_none() {
    let parts = vec![
        RawValue::Object(Box::new(RawTaggedObject::new("labeledPricePart").with_long("amount", 1))),
        RawValue::Int(2),
    ];
    let invoice = TGInvoice::decode(RawTaggedObject::new("invoice").with_array("price_parts", parts)).unwrap();
    assert!(invoice.price_parts().is_empty());
    let invoice = TGInvoice::decode(RawTaggedObject::new("invoice").with_text("price_parts", "none")).unwrap();
    assert!(invoice.price_parts().is_empty());
    let invoice = TGInvoice::decode(RawTaggedObject::new("invoice").with_array("price_parts", vec![])).unwrap();
    assert!(invoice.price_parts().is_empty());
}

#[test]
fn a_price_part_is_read_from_any_object() {
    let part = TGLabeledPricePart::of(&RawTaggedObject::new("labeledPricePart").with_text("label", "Fee").with_long("amount", -7));
    assert_eq!(part.label, Some("Fee".to_string()));
    assert_eq!(part.amount, Some(-7));
}

#[test]
fn the_tag_of_an_invoice_must_be_invoice() {
    assert_eq!(TGInvoice::decode(RawTaggedObject::new("invoices")).err(), Some(DecodeFailure::UnknownTag));
    assert_eq!(TGInvoice::decode(RawTaggedObject::new("user")).err(), Some(DecodeFailure::WrongFamily));
}
