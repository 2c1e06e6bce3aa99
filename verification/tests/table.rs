use flagbot::table::parse_line;
use flagbot::table::FlagTable;
use flagbot::table::LoadError;

fn lines(ls: &[&str]) -> Vec<String> {
    ls.iter().map(|l| l.to_string()).collect()
}

#[test]
fn load_and_lookup() {
    let t = FlagTable::load(&lines(&["CA{secret_1}:42", "CA{two}:7"])).unwrap();
    assert_eq!(t.lookup("CA{secret_1}"), Some(42));
    assert_eq!(t.lookup("CA{two}"), Some(7));
    assert_eq!(t.lookup("CA{absent}"), None);
}

#[test]
fn load_empty_file_gives_empty_table() {
    let t = FlagTable::load(&lines(&[])).unwrap();
    assert_eq!(t.lookup("CA{secret_1}"), None);
}

#[test]
fn lookup_is_case_sensitive_and_exact() {
    let t = FlagTable::load(&lines(&["CA{Abc}:1"])).unwrap();
    assert_eq!(t.lookup("CA{Abc}"), Some(1));
    assert_eq!(t.lookup("CA{abc}"), None);
    assert_eq!(t.lookup("CA{Abc} "), None);
}

#[test]
fn line_without_separator_aborts_load() {
    assert_eq!(
        FlagTable::load(&lines(&["CA{secret_1}42"])),
        Err(LoadError::MissingSeparator)
    );
    // A good first line does not soften the failure: no partial table.
    assert_eq!(
        FlagTable::load(&lines(&["CA{a}:1", "CA{b}2"])),
        Err(LoadError::MissingSeparator)
    );
}

#[test]
fn empty_line_aborts_load() {
    assert_eq!(FlagTable::load(&lines(&[""])), Err(LoadError::MissingSeparator));
}

#[test]
fn non_integer_role_aborts_load() {
    assert_eq!(FlagTable::load(&lines(&["CA{a}:12x"])), Err(LoadError::BadRoleId));
    assert_eq!(FlagTable::load(&lines(&["CA{a}:"])), Err(LoadError::BadRoleId));
    assert_eq!(FlagTable::load(&lines(&["CA{a}:-3"])), Err(LoadError::BadRoleId));
    assert_eq!(FlagTable::load(&lines(&["CA{a}:1:2"])), Err(LoadError::BadRoleId));
}

#[test]
fn role_id_bounds() {
    let t = FlagTable::load(&lines(&["CA{max}:18446744073709551615"])).unwrap();
    assert_eq!(t.lookup("CA{max}"), Some(u64::MAX));
    assert_eq!(
        FlagTable::load(&lines(&["CA{over}:18446744073709551616"])),
        Err(LoadError::BadRoleId)
    );
}

#[test]
fn duplicate_flag_last_line_wins() {
    let t = FlagTable::load(&lines(&["CA{a}:1", "CA{a}:2"])).unwrap();
    assert_eq!(t.lookup("CA{a}"), Some(2));
}

#[test]
fn parse_line_splits_on_first_colon() {
    let e = parse_line("CA{a}:42").unwrap();
    assert_eq!(e.flag, "CA{a}");
    assert_eq!(e.role_id, 42);
    assert_eq!(parse_line("no separator here"), Err(LoadError::MissingSeparator));
    assert_eq!(parse_line("flag:not_a_number"), Err(LoadError::BadRoleId));
}
