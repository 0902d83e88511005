use telenotify::slurm_bot::credentials::{
    find_account, hash_arguments, is_entry, is_user_pass_ok, read_entry, verdict_of_hash,
    AccountEntry, AuthError, Verification,
};

fn database() -> Vec<String> {
    vec![
        "root:!:19000:0:99999:7:::".to_string(),
        "daemon:*:19000:0:99999:7:::".to_string(),
        "alice:$6$saltsalt$hashhashhash:19000:0:99999:7:::".to_string(),
        "bob: $1$pepper$other \t:19000".to_string(),
        "alice:$6$second$entry:19000:0:99999:7:::".to_string(),
        "carol:$6onlyone:19000".to_string(),
        "no colon here".to_string(),
    ]
}

fn alice() -> AccountEntry {
    AccountEntry {
        encoded: "$6$saltsalt$hashhashhash".to_string(),
        algorithm: "6".to_string(),
        salt: "saltsalt".to_string(),
    }
}

#[test]
fn the_first_entry_of_the_user_is_found() {
    assert_eq!(find_account(&database(), true, "alice"), Ok(Some(alice())));
    assert_eq!(find_account(&database(), false, "alice"), Ok(Some(alice())));
}

#[test]
fn the_encoded_password_is_trimmed() {
    let bob = AccountEntry {
        encoded: "$1$pepper$other".to_string(),
        algorithm: "1".to_string(),
        salt: "pepper".to_string(),
    };
    assert_eq!(find_account(&database(), true, "bob"), Ok(Some(bob)));
}

#[test]
fn an_unknown_user_has_no_entry() {
    for user in ["dave", "", "ali", "alice:", "alicia", "no colon here", "Alice"] {
        assert_eq!(find_account(&database(), true, user), Ok(None));
    }
    assert_eq!(find_account(&vec![], true, "alice"), Ok(None));
}

#[test]
fn a_database_cut_short_is_unavailable_for_the_unknown() {
    assert_eq!(find_account(&database(), false, "dave"), Err(AuthError::DatabaseUnavailable));
    assert_eq!(find_account(&vec![], false, "alice"), Err(AuthError::DatabaseUnavailable));
}

#[test]
fn an_entry_without_two_dollars_is_malformed() {
    for user in ["root", "daemon", "carol"] {
        assert_eq!(find_account(&database(), true, user), Err(AuthError::MalformedEntry));
    }
}

#[test]
fn entries_are_read_by_their_shape() {
    assert_eq!(read_entry("alice:$6$saltsalt$hashhashhash:19000"), Some(alice()));
    assert_eq!(
        read_entry("x:$y$z"),
        Some(AccountEntry {
            encoded: "$y$z".to_string(),
            algorithm: "y".to_string(),
            salt: "z".to_string(),
        })
    );
    assert_eq!(
        read_entry("x:a$$"),
        Some(AccountEntry {
            encoded: "a$$".to_string(),
            algorithm: String::new(),
            salt: String::new(),
        })
    );
    assert_eq!(read_entry("x:$6$"), Some(AccountEntry {
        encoded: "$6$".to_string(),
        algorithm: "6".to_string(),
        salt: String::new(),
    }));
    assert_eq!(read_entry("x:$6"), None);
    assert_eq!(read_entry("x:"), None);
    assert_eq!(read_entry("x"), None);
    assert_eq!(read_entry(""), None);
    assert_eq!(read_entry("x:abc:$6$salt$hash"), None);
}

#[test]
fn an_entry_belongs_to_the_name_before_the_first_colon() {
    assert!(is_entry("alice:x", &"alice".to_string()));
    assert!(is_entry("alice:", &"alice".to_string()));
    assert!(is_entry(":x", &String::new()));
    assert!(!is_entry("alice", &"alice".to_string()));
    assert!(!is_entry("alice:x", &"alic".to_string()));
    assert!(!is_entry("alice:x", &"alice:x".to_string()));
    assert!(!is_entry("a:b:c", &"a:b".to_string()));
    assert!(!is_entry("", &String::new()));
}

#[test]
fn the_helper_gets_algorithm_salt_and_password() {
    assert_eq!(
        hash_arguments(&alice(), "secret"),
        vec![
            "passwd".to_string(),
            "-6".to_string(),
            "-salt".to_string(),
            "saltsalt".to_string(),
            "secret".to_string(),
        ]
    );
}

#[test]
fn a_known_user_goes_on_to_the_hashing() {
    let step = is_user_pass_ok(&database(), true, "alice", "secret");
    assert_eq!(
        step,
        Verification::Hash { entry: alice(), arguments: hash_arguments(&alice(), "secret") }
    );
}

#[test]
fn an_unknown_user_is_refused_at_once() {
    assert_eq!(
        is_user_pass_ok(&database(), true, "dave", "secret"),
        Verification::Decided(Ok(false))
    );
}

#[test]
fn a_failed_lookup_is_decided_at_once() {
    assert_eq!(
        is_user_pass_ok(&database(), true, "root", "secret"),
        Verification::Decided(Err(AuthError::MalformedEntry))
    );
    assert_eq!(
        is_user_pass_ok(&database(), false, "dave", "secret"),
        Verification::Decided(Err(AuthError::DatabaseUnavailable))
    );
}

#[test]
fn the_same_hash_is_accepted() {
    assert_eq!(verdict_of_hash(&alice(), Some("$6$saltsalt$hashhashhash\n")), Ok(true));
    assert_eq!(verdict_of_hash(&alice(), Some("  $6$saltsalt$hashhashhash")), Ok(true));
    assert_eq!(verdict_of_hash(&alice(), Some("$6$saltsalt$hashhashhash")), Ok(true));
}

#[test]
fn another_hash_is_refused() {
    assert_eq!(verdict_of_hash(&alice(), Some("$6$saltsalt$hashhashhasi\n")), Ok(false));
    assert_eq!(verdict_of_hash(&alice(), Some("")), Ok(false));
    assert_eq!(verdict_of_hash(&alice(), Some("$6$saltsalt$hash hashhash")), Ok(false));
}

#[test]
fn a_failing_helper_is_an_error() {
    assert_eq!(verdict_of_hash(&alice(), None), Err(AuthError::HelperFailed));
}

#[test]
fn unknown_user_and_wrong_password_get_the_same_verdict() {
    let unknown = match is_user_pass_ok(&database(), true, "dave", "secret") {
        Verification::Decided(verdict) => verdict,
        Verification::Hash { .. } => panic!("dave has no entry"),
    };
    let wrong = match is_user_pass_ok(&database(), true, "alice", "wrong") {
        Verification::Hash { entry, .. } => verdict_of_hash(&entry, Some("$6$saltsalt$zzz\n")),
        Verification::Decided(_) => panic!("alice has an entry"),
    };
    assert_eq!(unknown, Ok(false));
    assert_eq!(wrong, unknown);
}
