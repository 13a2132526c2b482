use achievement_hunter::error::{Error, Failure};
use achievement_hunter::text::{append_decimal, decimal};

#[test]
fn decimal_of_small_numbers() {
    assert_eq!(decimal(0), "0");
    assert_eq!(decimal(7), "7");
    assert_eq!(decimal(9), "9");
    assert_eq!(decimal(10), "10");
    assert_eq!(decimal(11), "11");
    assert_eq!(decimal(100), "100");
    assert_eq!(decimal(1234567890), "1234567890");
}

#[test]
fn decimal_of_the_largest_number() {
    assert_eq!(decimal(u64::MAX), "18446744073709551615");
}

#[test]
fn append_decimal_keeps_what_is_there() {
    let mut text = "appid=".to_string();
    append_decimal(&mut text, 1817070);
    assert_eq!(text, "appid=1817070");
}

#[test]
fn failure_messages() {
    assert_eq!(Failure::Config { detail: "no file".to_string() }.message(), "no file");
    assert_eq!(Failure::Request { detail: "no route".to_string() }.message(), "no route");
    assert_eq!(Failure::Decode { detail: "no field".to_string() }.message(), "no field");
    assert_eq!(
        Failure::SizeMismatch { player_achievements: 10, game_achievements: 9 }.message(),
        "Player achievements size 10, game achievements size 9"
    );
    assert_eq!(Failure::NoSelection.message(), "You did not choose a game.");
}

#[test]
fn error_gathers_remarks_in_order() {
    let error = Error::new(Failure::NoSelection);
    assert!(error.context.is_empty());
    let error = error.with_context("first").with_context("second");
    assert_eq!(error.failure, Failure::NoSelection);
    assert_eq!(error.context, vec!["first".to_string(), "second".to_string()]);
    assert_eq!(error.message(), "You did not choose a game.");
}
