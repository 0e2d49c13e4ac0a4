use game_launcher::error::Error;

#[test]
fn describe_names_the_kind_before_the_detail() {
    assert_eq!(Error::Generic("x".to_string()).describe(), "Runtime error: x");
    assert_eq!(Error::Download("x".to_string()).describe(), "Download error: x");
    assert_eq!(Error::Launch("x".to_string()).describe(), "Launch error: x");
    assert_eq!(Error::Fetch("x".to_string()).describe(), "Fetch error: x");
    assert_eq!(Error::Json("x".to_string()).describe(), "JSON error: x");
    assert_eq!(Error::UnknownApi(Some("x".to_string())).describe(), "unknown api: x");
    assert_eq!(Error::UnknownApi(None).describe(), "unknown api");
    assert_eq!(Error::Io("x".to_string()).describe(), "x");
    assert_eq!(Error::Zip("x".to_string()).describe(), "x");
    assert_eq!(Error::Poisoned("x".to_string()).describe(), "poisoned state: x");
    assert_eq!(Error::TryLock("x".to_string()).describe(), "failed to lock: x");
    assert_eq!(
        Error::PathNotAllowed("/p".to_string()).describe(),
        "path not allowed on the configured scope: /p"
    );
    assert_eq!(Error::Reqwest("x".to_string()).describe(), "reqwest: x");
    assert_eq!(
        Error::ProgramNotAllowed("/p".to_string()).describe(),
        "program not allowed on the configured shell scope: /p"
    );
}

#[test]
fn msg_makes_a_generic_failure() {
    match Error::msg("Failed to extract") {
        Error::Generic(s) => assert_eq!(s, "Failed to extract"),
        other => panic!("unexpected {:?}", other),
    }
}

#[test]
fn a_message_about_an_unknown_variant_tells_of_another_api() {
    let m = "unknown variant `win-arm`, expected one of `WinX64`".to_string();
    match Error::from_json_message(m.clone()) {
        Error::UnknownApi(Some(s)) => assert_eq!(s, m),
        other => panic!("unexpected {:?}", other),
    }
    match Error::from_json_message("missing field `version`".to_string()) {
        Error::Json(s) => assert_eq!(s, "missing field `version`"),
        other => panic!("unexpected {:?}", other),
    }
}

#[test]
fn lock_failures_keep_their_message() {
    match Error::from_poisoned("poisoned lock".to_string()) {
        Error::Poisoned(s) => assert_eq!(s, "poisoned lock"),
        other => panic!("unexpected {:?}", other),
    }
    match Error::from_try_lock("would block".to_string()) {
        Error::TryLock(s) => assert_eq!(s, "would block"),
        other => panic!("unexpected {:?}", other),
    }
}
