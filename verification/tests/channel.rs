use tauri_plugin_graphql::channel::event_channel;
use tauri_plugin_graphql::channel::CHANNEL_SCHEME;
use tauri_plugin_graphql::text::same_text;

#[test]
fn channel_of_a_small_identifier() {
    assert_eq!(event_channel(7), "graphql://7");
}

#[test]
fn channel_of_zero() {
    assert_eq!(event_channel(0), "graphql://0");
}

#[test]
fn channel_of_identifiers_around_a_power_of_ten() {
    assert_eq!(event_channel(9), "graphql://9");
    assert_eq!(event_channel(10), "graphql://10");
    assert_eq!(event_channel(11), "graphql://11");
    assert_eq!(event_channel(99), "graphql://99");
    assert_eq!(event_channel(100), "graphql://100");
    assert_eq!(event_channel(1000), "graphql://1000");
    assert_eq!(event_channel(1_000_000_000), "graphql://1000000000");
}

#[test]
fn channel_of_the_largest_identifier() {
    assert_eq!(event_channel(u32::MAX), "graphql://4294967295");
}

#[test]
fn channel_keeps_inner_zeros() {
    assert_eq!(event_channel(1020), "graphql://1020");
    assert_eq!(event_channel(305), "graphql://305");
}

#[test]
fn channel_is_the_scheme_and_the_decimal_identifier() {
    assert_eq!(CHANNEL_SCHEME, "graphql://");
    let mut id: u32 = 0;
    for _ in 0..2000 {
        assert_eq!(event_channel(id), format!("graphql://{}", id));
        id = id.wrapping_mul(1_664_525).wrapping_add(1_013_904_223);
    }
    for id in 0..1200u32 {
        assert_eq!(event_channel(id), format!("graphql://{}", id));
    }
}

#[test]
fn channels_of_different_identifiers_differ() {
    let ids = [0u32, 1, 7, 10, 17, 70, 71, 100, 101, 110, 4294967295];
    for a in ids {
        for b in ids {
            assert_eq!(event_channel(a) == event_channel(b), a == b);
        }
    }
}

#[test]
fn same_text_compares_contents() {
    assert!(same_text("", ""));
    assert!(same_text("graphql", "graphql"));
    assert!(!same_text("graphql", "graphqL"));
    assert!(!same_text("graphql", "graphq"));
    assert!(!same_text("graphq", "graphql"));
    assert!(!same_text("", "a"));
    assert!(same_text("na\u{ef}ve \u{1f600}", "na\u{ef}ve \u{1f600}"));
    assert!(!same_text("na\u{ef}ve", "na\u{ee}ve"));
    let owned = String::from("subscriptions");
    assert!(same_text(&owned, "subscriptions"));
}
