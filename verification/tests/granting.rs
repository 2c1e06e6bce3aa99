use flagbot::command::route;
use flagbot::command::Command;
use flagbot::grant::finish;
use flagbot::grant::resolve;
use flagbot::grant::ApiEvent;
use flagbot::grant::Outcome;
use flagbot::grant::Resolution;
use flagbot::grant::Role;
use flagbot::grant::ServerContext;
use flagbot::reply::help_message;
use flagbot::table::FlagTable;

const MALFORMED_MSG: &str =
    "Le flag donné n'a pas la bonne forme. Il ressemble à ça: `CA{c0dE_4n0n}`.";
const UNKNOWN_MSG: &str = "Ce flag n'existe pas.";

fn table(ls: &[&str]) -> FlagTable {
    let lines: Vec<String> = ls.iter().map(|l| l.to_string()).collect();
    FlagTable::load(&lines).unwrap()
}

fn server(roles: &[(u64, &str)]) -> ServerContext {
    ServerContext {
        roles: roles.iter().map(|&(id, name)| Role { id, name: name.to_string() }).collect(),
    }
}

#[test]
fn present_flag_resolves_to_mapped_role() {
    let t = table(&["CA{secret_1}:42", "CA{other}:7"]);
    let s = server(&[(7, "Other"), (42, "Hacker")]);
    let r = resolve(&t, &s, "CA{secret_1}");
    assert_eq!(
        r,
        Resolution::Grant { role_id: 42, role_name: "Hacker".to_string() }
    );
}

#[test]
fn granted_event_yields_success_naming_the_role() {
    let o = finish("Hacker", ApiEvent::Granted);
    match o {
        Outcome::Success(m) => assert!(m.contains("Hacker")),
        other => panic!("expected success, got {:?}", other),
    }
}

#[test]
fn malformed_flag_is_a_user_error_whatever_the_table() {
    let t = table(&["CA{secret_1}:42"]);
    let s = server(&[(42, "Hacker")]);
    let expected = Resolution::Fail(Outcome::UserError(MALFORMED_MSG.to_string()));
    assert_eq!(resolve(&t, &s, "nope"), expected);
    assert_eq!(resolve(&t, &s, ""), expected);
    assert_eq!(resolve(&t, &s, "ca{abc}"), expected);
    // The same rejection comes from an empty table and an empty server.
    let empty_t = table(&[]);
    let empty_s = server(&[]);
    assert_eq!(resolve(&empty_t, &empty_s, "nope"), expected);
}

#[test]
fn unknown_flag_message_differs_from_malformed_message() {
    let t = table(&["CA{secret_1}:42"]);
    let s = server(&[(42, "Hacker")]);
    let r = resolve(&t, &s, "CA{absent}");
    assert_eq!(r, Resolution::Fail(Outcome::UserError(UNKNOWN_MSG.to_string())));
    assert_ne!(UNKNOWN_MSG, MALFORMED_MSG);
}

#[test]
fn role_absent_from_server_is_internal_and_silent() {
    let t = table(&["CA{a}:99"]);
    let s = server(&[(42, "Hacker")]);
    match resolve(&t, &s, "CA{a}") {
        Resolution::Fail(Outcome::InternalError(m)) => {
            // The misconfigured role id is not leaked, and no reply is sent.
            assert!(!m.contains("99"));
            assert_eq!(flagbot::reply::format(&Outcome::InternalError(m)), None);
        }
        other => panic!("expected internal error, got {:?}", other),
    }
}

#[test]
fn api_failures_become_internal_errors() {
    let o = finish("Hacker", ApiEvent::MemberFetchFailed("timeout".to_string()));
    assert_eq!(o, Outcome::InternalError("timeout".to_string()));
    let o = finish("Hacker", ApiEvent::RoleAddFailed("forbidden".to_string()));
    assert_eq!(o, Outcome::InternalError("forbidden".to_string()));
    assert_eq!(flagbot::reply::format(&o), None);
}

#[test]
fn format_marks_success_and_user_errors() {
    let s = flagbot::reply::format(&Outcome::Success("granted".to_string())).unwrap();
    assert_eq!(s, ":white_check_mark: granted");
    let u = flagbot::reply::format(&Outcome::UserError("wrong".to_string())).unwrap();
    assert_eq!(u, ":x: wrong");
}

#[test]
fn help_reply_shows_usage() {
    let h = help_message();
    assert!(h.starts_with(":bulb: "));
    assert!(h.contains("!flag"));
    assert!(h.contains("CA{c0dE_4n0n}"));
}

#[test]
fn end_to_end_grant_is_repeatable() {
    let t = table(&["CA{secret_1}:42"]);
    let s = server(&[(42, "Hacker")]);
    for _ in 0..2 {
        let token = match route("!flag CA{secret_1}") {
            Command::Flag(tok) => tok,
            other => panic!("expected a flag command, got {:?}", other),
        };
        let (role_id, role_name) = match resolve(&t, &s, &token) {
            Resolution::Grant { role_id, role_name } => (role_id, role_name),
            other => panic!("expected a grant, got {:?}", other),
        };
        assert_eq!(role_id, 42);
        let outcome = finish(&role_name, ApiEvent::Granted);
        let sent = flagbot::reply::format(&outcome).expect("a success must be replied to");
        assert!(sent.contains(":white_check_mark:"));
        assert!(sent.contains("Hacker"));
    }
}
