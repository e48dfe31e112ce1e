use fukomaster::{check_admission, contains_path, AdmitError, Rejection};

fn paths(list: &[&str]) -> Vec<String> {
    list.iter().map(|s| s.to_string()).collect()
}

fn decide(path: &str, own: &[&str], allow: &[&str], deny: &[&str], reg: &[&str]) -> Result<(), AdmitError> {
    check_admission(&path.to_string(), &paths(own), &paths(allow), &paths(deny), &paths(reg))
}

#[test]
fn admits_event_node() {
    assert_eq!(decide("/dev/input/event3", &[], &[], &[], &[]), Ok(()));
}

#[test]
fn deny_list_wins_over_allow_list() {
    let p = "/dev/input/event3";
    assert_eq!(
        decide(p, &[], &[p], &[p], &[]),
        Err(AdmitError::Rejected(Rejection::Denied))
    );
}

#[test]
fn own_node_is_always_rejected() {
    let p = "/dev/input/event20";
    assert_eq!(
        decide(p, &[p], &[p], &[], &[]),
        Err(AdmitError::Rejected(Rejection::OwnDevice))
    );
    assert_eq!(
        decide(p, &["/dev/input/event1", p], &[], &[p], &[]),
        Err(AdmitError::Rejected(Rejection::OwnDevice))
    );
}

#[test]
fn allow_list_filters_when_not_empty() {
    assert_eq!(
        decide("/dev/input/event3", &[], &["/dev/input/event4"], &[], &[]),
        Err(AdmitError::Rejected(Rejection::NotAllowed))
    );
    assert_eq!(decide("/dev/input/event4", &[], &["/dev/input/event4"], &[], &[]), Ok(()));
}

#[test]
fn non_event_nodes_are_rejected() {
    assert_eq!(
        decide("/dev/input/mouse0", &[], &[], &[], &[]),
        Err(AdmitError::Rejected(Rejection::NotEventNode))
    );
    assert_eq!(
        decide("/dev/input/by-id", &[], &[], &[], &[]),
        Err(AdmitError::Rejected(Rejection::NotEventNode))
    );
    assert_eq!(
        decide("/dev/input/even", &[], &[], &[], &[]),
        Err(AdmitError::Rejected(Rejection::NotEventNode))
    );
}

#[test]
fn path_without_file_name_fails() {
    assert_eq!(decide("/", &[], &[], &[], &[]), Err(AdmitError::NoFileName));
    assert_eq!(decide("/dev/input/..", &[], &[], &[], &[]), Err(AdmitError::NoFileName));
}

#[test]
fn registered_path_is_a_failure() {
    assert_eq!(
        decide("/dev/input/event3", &[], &[], &[], &["/dev/input/event3"]),
        Err(AdmitError::AlreadyRegistered)
    );
}

#[test]
fn lists_compare_paths_by_component() {
    assert!(contains_path(&paths(&["/dev/input/event3"]), &"/dev/input//event3".to_string()));
    assert!(contains_path(&paths(&["/dev/input/event3/"]), &"/dev/input/event3".to_string()));
    assert!(!contains_path(&paths(&["/dev/input/event3"]), &"/dev/input/event30".to_string()));
    assert!(!contains_path(&paths(&[]), &"/dev/input/event3".to_string()));
    assert_eq!(
        decide("/dev/input/event3", &[], &[], &["/dev/input//event3"], &[]),
        Err(AdmitError::Rejected(Rejection::Denied))
    );
}
