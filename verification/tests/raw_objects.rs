use telegram_client::raw::RawField;
use telegram_client::raw::RawTaggedObject;
use telegram_client::raw::RawValue;

#[test]
fn a_new_object_has_its_tag_and_no_fields() {
    let raw = RawTaggedObject::new("user");
    assert_eq!(raw.tag, "user");
    assert!(raw.fields.is_empty());
    assert!(raw.get_field("id").is_none());
    assert_eq!(raw.get_int("id"), None);
}

#[test]
fn fields_are_read_by_name_and_type() {
    let raw = RawTaggedObject::new("thing")
        .with_int("count", -3)
        .with_long("amount", 5_000_000_000)
        .with_flag("open", true)
        .with_text("title", "hello")
        .with_object("inner", RawTaggedObject::new("innerThing").with_int("x", 1))
        .with_array("list", vec![RawValue::Int(1), RawValue::Bool(false)]);
    assert_eq!(raw.get_int("count"), Some(-3));
    assert_eq!(raw.get_long("amount"), Some(5_000_000_000));
    assert_eq!(raw.get_flag("open"), Some(true));
    assert_eq!(raw.get_text("title"), Some(&"hello".to_string()));
    let inner = raw.get_object("inner").unwrap();
    assert_eq!(inner.tag, "innerThing");
    assert_eq!(inner.get_int("x"), Some(1));
    assert_eq!(raw.get_array("list").unwrap().len(), 2);
    assert_eq!(raw.tag, "thing");
}

#[test]
fn a_field_read_as_another_type_is_absent() {
    let raw = RawTaggedObject::new("thing").with_int("count", 4).with_text("title", "t");
    assert_eq!(raw.get_long("count"), None);
    assert_eq!(raw.get_flag("count"), None);
    assert_eq!(raw.get_text("count"), None);
    assert!(raw.get_object("count").is_none());
    assert!(raw.get_array("count").is_none());
    assert_eq!(raw.get_int("title"), None);
    assert!(raw.get_field("count").is_some());
}

#[test]
fn names_match_letter_for_letter() {
    let raw = RawTaggedObject::new("thing").with_int("count", 4);
    assert_eq!(raw.get_int("Count"), None);
    assert_eq!(raw.get_int("coun"), None);
    assert_eq!(raw.get_int("count "), None);
    assert_eq!(raw.get_int(""), None);
}

#[test]
fn the_last_field_of_a_name_wins() {
    let raw = RawTaggedObject::new("thing").with_int("count", 1).with_flag("x", true).with_int("count", 2);
    assert_eq!(raw.get_int("count"), Some(2));
    assert_eq!(raw.get_flag("x"), Some(true));
    let raw = raw.with_text("count", "three");
    assert_eq!(raw.get_int("count"), None);
    assert_eq!(raw.get_text("count"), Some(&"three".to_string()));
}

#[test]
fn objects_can_be_written_field_by_field() {
    let raw = RawTaggedObject {
        tag: "thing".to_string(),
        fields: vec![
            RawField { name: "a".to_string(), value: RawValue::Int(1) },
            RawField { name: "b".to_string(), value: RawValue::Bool(true) },
            RawField { name: "a".to_string(), value: RawValue::Int(3) },
        ],
    };
    assert_eq!(raw.get_int("a"), Some(3));
    assert_eq!(raw.get_flag("b"), Some(true));
}

#[test]
fn a_value_knows_whether_it_is_an_object() {
    let value = RawValue::Object(Box::new(RawTaggedObject::new("inner")));
    assert_eq!(value.as_object().unwrap().tag, "inner");
    assert!(RawValue::Int(1).as_object().is_none());
    assert!(RawValue::Array(vec![]).as_object().is_none());
}
