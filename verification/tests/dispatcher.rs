use telegram_client::dispatcher::Dispatcher;
use telegram_client::family::Family;
use telegram_client::raw::RawTaggedObject;

#[test]
fn a_new_dispatcher_fires_nothing() {
    let dispatcher = Dispatcher::new();
    assert_eq!(dispatcher.len(), 0);
    assert!(dispatcher.deliver(Family::UserStatus, &RawTaggedObject::new("userStatusEmpty")).is_empty());
}

#[test]
fn registrations_are_numbered_in_order() {
    let mut dispatcher = Dispatcher::new();
    assert_eq!(dispatcher.bind(Family::UserStatus, "userStatusEmpty"), 0);
    assert_eq!(dispatcher.bind(Family::LinkState, "linkStateNone"), 1);
    assert_eq!(dispatcher.bind(Family::UserStatus, "userStatusEmpty"), 2);
    assert_eq!(dispatcher.len(), 3);
}

#[test]
fn the_same_pattern_bound_twice_fires_twice_in_order() {
    let mut dispatcher = Dispatcher::new();
    let first = dispatcher.bind(Family::AuthorizationState, "authorizationStateReady");
    let second = dispatcher.bind(Family::AuthorizationState, "authorizationStateReady");
    let fired = dispatcher.deliver(Family::AuthorizationState, &RawTaggedObject::new("authorizationStateReady"));
    assert_eq!(fired, vec![first, second]);
    assert_eq!(fired, vec![0, 1]);
}

#[test]
fn only_matching_patterns_fire_and_in_registration_order() {
    let mut dispatcher = Dispatcher::new();
    dispatcher.bind(Family::UserStatus, "userStatusOnline");
    dispatcher.bind(Family::UserStatus, "userStatusEmpty");
    dispatcher.bind(Family::LinkState, "userStatusOnline");
    dispatcher.bind(Family::UserStatus, "userStatusOnline");
    dispatcher.bind(Family::UserType, "userTypeBot");
    dispatcher.bind(Family::UserStatus, "userStatusOnline");
    let online = RawTaggedObject::new("userStatusOnline").with_int("expires", 1);
    assert_eq!(dispatcher.deliver(Family::UserStatus, &online), vec![0, 3, 5]);
    assert_eq!(dispatcher.deliver(Family::UserStatus, &RawTaggedObject::new("userStatusEmpty")), vec![1]);
    assert_eq!(dispatcher.deliver(Family::UserType, &RawTaggedObject::new("userTypeBot")), vec![4]);
    assert!(dispatcher.deliver(Family::UserStatus, &RawTaggedObject::new("userStatusRecently")).is_empty());
}

#[test]
fn an_object_that_does_not_decode_fires_nothing() {
    let mut dispatcher = Dispatcher::new();
    dispatcher.bind(Family::UserStatus, "userStatusOnline");
    dispatcher.bind(Family::LinkState, "userStatusOnline");
    dispatcher.bind(Family::UserStatus, "userStatusAway");
    assert!(dispatcher.deliver(Family::UserStatus, &RawTaggedObject::new("userStatusOnline")).is_empty());
    let online = RawTaggedObject::new("userStatusOnline").with_int("expires", 1);
    assert!(dispatcher.deliver(Family::LinkState, &online).is_empty());
    assert!(dispatcher.deliver(Family::UserStatus, &RawTaggedObject::new("userStatusAway")).is_empty());
    assert_eq!(dispatcher.deliver(Family::UserStatus, &online), vec![0]);
}

#[test]
fn nothing_is_replayed_to_a_later_registration() {
    let mut dispatcher = Dispatcher::new();
    let raw = RawTaggedObject::new("linkStateIsContact");
    assert!(dispatcher.deliver(Family::LinkState, &raw).is_empty());
    let bound = dispatcher.bind(Family::LinkState, "linkStateIsContact");
    assert_eq!(dispatcher.deliver(Family::LinkState, &raw), vec![bound]);
    assert_eq!(dispatcher.deliver(Family::LinkState, &raw), vec![bound]);
}
