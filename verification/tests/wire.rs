use telegram_client::family::Class;
use telegram_client::family::Family;
use telegram_client::wire::route;
use telegram_client::wire::route_tag;
use telegram_client::wire::Route;

#[test]
fn route_tag_finds_families_and_classes() {
    assert_eq!(route_tag("authorizationStateReady"), Route::Member(Family::AuthorizationState));
    assert_eq!(route_tag("chatTypePrivate"), Route::Member(Family::ChatType));
    assert_eq!(route_tag("linkStateNone"), Route::Member(Family::LinkState));
    assert_eq!(route_tag("userStatusOnline"), Route::Member(Family::UserStatus));
    assert_eq!(route_tag("userTypeUnknown"), Route::Member(Family::UserType));
    assert_eq!(route_tag("user"), Route::Alone(Class::User));
    assert_eq!(route_tag("error"), Route::Alone(Class::Error));
    assert_eq!(route_tag("invoice"), Route::Alone(Class::Invoice));
    assert_eq!(route_tag("updateAuthorizationState"), Route::Alone(Class::UpdateAuthorizationState));
    assert_eq!(route_tag("updateOption"), Route::Unknown);
    assert_eq!(route_tag(""), Route::Unknown);
}

#[test]
fn route_reads_the_tag_from_the_text() {
    let json = r#"{"@type":"updateAuthorizationState","authorization_state":{"@type":"authorizationStateWaitTdlibParameters"}}"#;
    assert_eq!(route(json), Some(Route::Alone(Class::UpdateAuthorizationState)));
    assert_eq!(
        route(r#"{"expires":1555000300,"@type":"userStatusOnline"}"#),
        Some(Route::Member(Family::UserStatus))
    );
    assert_eq!(route(r#" { "@type" : "error", "code": 8, "message": "x" } "#), Some(Route::Alone(Class::Error)));
    assert_eq!(route(r#"{"@type":"updateOption","name":"version"}"#), Some(Route::Unknown));
}

#[test]
fn route_of_text_without_a_tag_is_none() {
    assert_eq!(route(""), None);
    assert_eq!(route("userStatusOnline"), None);
    assert_eq!(route(r#""userStatusOnline""#), None);
    assert_eq!(route(r#"{"type":"userStatusOnline"}"#), None);
    assert_eq!(route(r#"{"@type":7}"#), None);
    assert_eq!(route(r#"["@type","userStatusOnline"]"#), None);
    assert_eq!(route(r#"{"@type":"userStatusOnline""#), None);
}

#[test]
fn route_keys_on_the_outer_tag_only() {
    let json = r#"{"@type":"message","sender":{"@type":"user"}}"#;
    assert_eq!(route(json), Some(Route::Unknown));
    let json = r#"{"inner":{"@type":"user"}}"#;
    assert_eq!(route(json), None);
}
