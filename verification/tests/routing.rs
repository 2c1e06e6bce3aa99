use flagbot::command::route;
use flagbot::command::trim;
use flagbot::command::Command;
use flagbot::flag::flag_matches;

#[test]
fn route_trims_whitespace_around_flag() {
    let c = route("  !flag CA{abc}  ");
    assert_eq!(c, Command::Flag("CA{abc}".to_string()));
}

#[test]
fn route_unrelated_message_is_unrecognized() {
    let c = route("hello");
    assert_eq!(c, Command::Unrecognized);
}

#[test]
fn route_help() {
    assert_eq!(route("!help"), Command::Help);
    assert_eq!(route("   !help   "), Command::Help);
    assert_eq!(route("!help me please"), Command::Help);
}

#[test]
fn route_flag_with_empty_token() {
    assert_eq!(route("!flag"), Command::Flag(String::new()));
    assert_eq!(route("!flag   "), Command::Flag(String::new()));
}

#[test]
fn route_flag_keeps_malformed_token() {
    assert_eq!(route("!flag nope"), Command::Flag("nope".to_string()));
}

#[test]
fn route_flag_prefix_without_space() {
    assert_eq!(route("!flagCA{x}"), Command::Flag("CA{x}".to_string()));
}

#[test]
fn route_empty_message() {
    assert_eq!(route(""), Command::Unrecognized);
    assert_eq!(route("   "), Command::Unrecognized);
}

#[test]
fn trim_strips_edges_only() {
    assert_eq!(trim("  a b  "), "a b");
    assert_eq!(trim("\t\n x \r\n"), "x");
    assert_eq!(trim(""), "");
    assert_eq!(trim("   "), "");
    assert_eq!(trim("abc"), "abc");
}

#[test]
fn flag_shape_accepts_well_formed_tokens() {
    assert!(flag_matches("CA{abc}"));
    assert!(flag_matches("CA{c0dE_4n0n}"));
    assert!(flag_matches("CA{A}"));
    assert!(flag_matches("CA{_}"));
    assert!(flag_matches("CA{0123456789}"));
}

#[test]
fn flag_shape_rejects_malformed_tokens() {
    assert!(!flag_matches(""));
    assert!(!flag_matches("CA{}"));
    assert!(!flag_matches("ca{abc}"));
    assert!(!flag_matches("CA{abc"));
    assert!(!flag_matches("CAabc}"));
    assert!(!flag_matches("CA{ab c}"));
    assert!(!flag_matches("CA{ab-c}"));
    assert!(!flag_matches("xCA{abc}"));
    assert!(!flag_matches("CA{abc}x"));
    assert!(!flag_matches("CA{abc}}"));
    assert!(!flag_matches("CA{é}"));
}
