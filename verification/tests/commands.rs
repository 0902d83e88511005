use telenotify::slurm_bot::bot::{
    command_handler, command_handler_error_detector, complete_registration, Action, Command,
    Disposition, HandlerError, Outcome, Reply, Step, HELP_TEXT,
};
use telenotify::slurm_bot::credentials::AuthError;
use telenotify::slurm_bot::storage::{
    load_teledata, save_teledata, FileRead, StorageError, Stored, TeleData, UserData, UserEntry,
};

fn entry(username: &str, chat_id: i64, active: bool) -> UserEntry {
    UserEntry { username: username.to_string(), data: UserData { chat_id, active } }
}

fn registry(users: Vec<UserEntry>) -> TeleData {
    load_teledata(FileRead::Record(Stored { bot_token: "token".to_string(), users })).unwrap()
}

fn done(step: Step) -> Outcome {
    match step {
        Step::Done(outcome) => outcome,
        Step::Verify { .. } => panic!("the command was not decided"),
    }
}

#[test]
fn register_on_empty_registry_welcomes_the_user() {
    let mut teledata = registry(vec![]);
    let command = Command::Register("alice secret".to_string());
    let step = command_handler(&mut teledata, 7, &command);
    assert_eq!(step, Step::Verify { user: "alice".to_string(), pass: "secret".to_string() });
    assert_eq!(save_teledata(&teledata).users, vec![]);
    let outcome = complete_registration(&mut teledata, 7, "alice", Ok(true)).unwrap();
    assert_eq!(outcome.reply, Reply::Welcome);
    assert_eq!(outcome.message, Some("Welcome alice!".to_string()));
    assert_eq!(outcome.action, Action::Persist);
    assert_eq!(save_teledata(&teledata).users, vec![entry("alice", 7, true)]);
    assert_eq!(teledata.get("alice"), Some(UserData { chat_id: 7, active: true }));
    assert_eq!(teledata.user_of_chat(7), Some("alice".to_string()));
}

#[test]
fn register_takes_the_first_two_words() {
    let mut teledata = registry(vec![]);
    let command = Command::Register("  \talice \u{3000} secret  more words".to_string());
    let step = command_handler(&mut teledata, 7, &command);
    assert_eq!(step, Step::Verify { user: "alice".to_string(), pass: "secret".to_string() });
}

#[test]
fn register_without_password_asks_for_an_empty_one() {
    let mut teledata = registry(vec![]);
    let step = command_handler(&mut teledata, 7, &Command::Register("alice".to_string()));
    assert_eq!(step, Step::Verify { user: "alice".to_string(), pass: String::new() });
}

#[test]
fn register_without_a_name_registers_nobody() {
    for text in ["", "   ", "\n\t"] {
        let mut teledata = registry(vec![entry("bob", 1, true)]);
        let outcome = done(command_handler(&mut teledata, 7, &Command::Register(text.to_string())));
        assert_eq!(outcome.reply, Reply::NobodyToRegister);
        assert_eq!(outcome.message, Some("Nobody to register.".to_string()));
        assert_eq!(outcome.action, Action::Persist);
        assert_eq!(save_teledata(&teledata).users, vec![entry("bob", 1, true)]);
    }
}

#[test]
fn register_from_a_bound_chat_is_refused_whatever_the_credentials() {
    for text in ["alice secret", "bob secret", "", "carol"] {
        let mut teledata = registry(vec![entry("alice", 7, true)]);
        let outcome = done(command_handler(&mut teledata, 7, &Command::Register(text.to_string())));
        assert_eq!(outcome.reply, Reply::AlreadyRegistered);
        assert_eq!(
            outcome.message,
            Some("An user is already registered in this chat.".to_string())
        );
        assert_eq!(save_teledata(&teledata).users, vec![entry("alice", 7, true)]);
    }
    for verdict in [Ok(true), Ok(false), Err(AuthError::DatabaseUnavailable)] {
        let mut teledata = registry(vec![entry("alice", 7, false)]);
        let outcome = complete_registration(&mut teledata, 7, "bob", verdict).unwrap();
        assert_eq!(outcome.reply, Reply::AlreadyRegistered);
        assert_eq!(save_teledata(&teledata).users, vec![entry("alice", 7, false)]);
    }
}

#[test]
fn refused_credentials_all_answer_alike() {
    let verdicts =
        [Ok(false), Err(AuthError::MalformedEntry), Err(AuthError::HelperFailed)];
    for verdict in verdicts {
        let mut teledata = registry(vec![entry("bob", 1, true)]);
        let outcome = complete_registration(&mut teledata, 7, "alice", verdict).unwrap();
        assert_eq!(
            outcome,
            Outcome {
                reply: Reply::WrongCredentials,
                message: Some("Wrong password or username.".to_string()),
                action: Action::Persist,
            }
        );
        assert_eq!(save_teledata(&teledata).users, vec![entry("bob", 1, true)]);
    }
}

#[test]
fn unreadable_account_database_fails_the_command() {
    let mut teledata = registry(vec![entry("bob", 1, true)]);
    let result =
        complete_registration(&mut teledata, 7, "alice", Err(AuthError::DatabaseUnavailable));
    assert_eq!(result, Err(HandlerError::Credentials(AuthError::DatabaseUnavailable)));
    assert_eq!(save_teledata(&teledata).users, vec![entry("bob", 1, true)]);
    assert_eq!(command_handler_error_detector(result.map(|o| o.action)), Disposition::Exit(1));
}

#[test]
fn complete_registration_without_a_name_registers_nobody() {
    let mut teledata = registry(vec![]);
    for verdict in [Ok(true), Err(AuthError::DatabaseUnavailable)] {
        let outcome = complete_registration(&mut teledata, 7, "", verdict).unwrap();
        assert_eq!(outcome.reply, Reply::NobodyToRegister);
    }
    assert_eq!(save_teledata(&teledata).users, vec![]);
}

#[test]
fn a_username_is_registered_once() {
    let mut teledata = registry(vec![entry("alice", 7, false)]);
    let outcome = complete_registration(&mut teledata, 8, "alice", Ok(true)).unwrap();
    assert_eq!(outcome.reply, Reply::UsernameTaken);
    assert_eq!(outcome.message, Some("This username is already registered.".to_string()));
    assert_eq!(save_teledata(&teledata).users, vec![entry("alice", 7, false)]);
}

#[test]
fn usernames_are_case_sensitive() {
    let mut teledata = registry(vec![entry("alice", 7, true)]);
    let outcome = complete_registration(&mut teledata, 8, "Alice", Ok(true)).unwrap();
    assert_eq!(outcome.reply, Reply::Welcome);
    assert_eq!(outcome.message, Some("Welcome Alice!".to_string()));
    assert_eq!(
        save_teledata(&teledata).users,
        vec![entry("alice", 7, true), entry("Alice", 8, true)]
    );
}

#[test]
fn pause_twice_pauses_once() {
    let mut teledata = registry(vec![entry("alice", 7, true), entry("bob", 8, true)]);
    let first = done(command_handler(&mut teledata, 7, &Command::Pause));
    assert_eq!(first.reply, Reply::Paused);
    assert_eq!(first.message, Some("You will stop to recive notifications.".to_string()));
    assert_eq!(first.action, Action::Persist);
    assert_eq!(teledata.get("alice"), Some(UserData { chat_id: 7, active: false }));
    let second = done(command_handler(&mut teledata, 7, &Command::Pause));
    assert_eq!(second.reply, Reply::AlreadyPaused);
    assert_eq!(second.message, None);
    assert_eq!(teledata.get("alice"), Some(UserData { chat_id: 7, active: false }));
    assert_eq!(teledata.get("bob"), Some(UserData { chat_id: 8, active: true }));
}

#[test]
fn unpause_twice_unpauses_once() {
    let mut teledata = registry(vec![entry("alice", 7, false), entry("bob", 8, false)]);
    let first = done(command_handler(&mut teledata, 7, &Command::Unpause));
    assert_eq!(first.reply, Reply::Unpaused);
    assert_eq!(first.message, Some("You will start to recive notifications.".to_string()));
    assert_eq!(teledata.get("alice"), Some(UserData { chat_id: 7, active: true }));
    let second = done(command_handler(&mut teledata, 7, &Command::Unpause));
    assert_eq!(second.reply, Reply::AlreadyActive);
    assert_eq!(second.message, None);
    assert_eq!(teledata.get("alice"), Some(UserData { chat_id: 7, active: true }));
    assert_eq!(teledata.get("bob"), Some(UserData { chat_id: 8, active: false }));
}

#[test]
fn unbound_chat_is_not_registered() {
    let commands = [
        Command::Pause,
        Command::Unpause,
        Command::Unregister("alice".to_string()),
        Command::Unregister(String::new()),
    ];
    for command in commands {
        let mut teledata = registry(vec![entry("alice", 7, true)]);
        let outcome = done(command_handler(&mut teledata, 9, &command));
        assert_eq!(outcome.reply, Reply::NotRegistered);
        assert_eq!(outcome.message, Some("You are not registered. ".to_string()));
        assert_eq!(outcome.action, Action::Persist);
        assert_eq!(save_teledata(&teledata).users, vec![entry("alice", 7, true)]);
    }
}

#[test]
fn unregister_needs_the_own_username() {
    for text in ["", "bob", "Alice", "  "] {
        let mut teledata = registry(vec![entry("alice", 7, true), entry("bob", 8, true)]);
        let outcome =
            done(command_handler(&mut teledata, 7, &Command::Unregister(text.to_string())));
        assert_eq!(outcome.reply, Reply::MustSpecifyUsername);
        assert_eq!(outcome.message, Some("You must specify your username.".to_string()));
        assert_eq!(
            save_teledata(&teledata).users,
            vec![entry("alice", 7, true), entry("bob", 8, true)]
        );
    }
}

#[test]
fn unregister_removes_the_record() {
    let mut teledata = registry(vec![entry("alice", 7, true), entry("bob", 8, false)]);
    let outcome =
        done(command_handler(&mut teledata, 7, &Command::Unregister(" alice now".to_string())));
    assert_eq!(outcome.reply, Reply::Unregistered);
    assert_eq!(outcome.message, Some("You are no longer registered".to_string()));
    assert_eq!(outcome.action, Action::Persist);
    assert_eq!(save_teledata(&teledata).users, vec![entry("bob", 8, false)]);
    assert_eq!(teledata.get("alice"), None);
    assert_eq!(teledata.user_of_chat(7), None);
}

#[test]
fn unregister_then_register_changes_the_chat() {
    let mut teledata = registry(vec![entry("alice", 7, false)]);
    done(command_handler(&mut teledata, 7, &Command::Unregister("alice".to_string())));
    let outcome = complete_registration(&mut teledata, 8, "alice", Ok(true)).unwrap();
    assert_eq!(outcome.reply, Reply::Welcome);
    assert_eq!(save_teledata(&teledata).users, vec![entry("alice", 8, true)]);
}

#[test]
fn help_lists_the_commands() {
    let mut teledata = registry(vec![entry("alice", 7, true)]);
    let outcome = done(command_handler(&mut teledata, 7, &Command::Help));
    assert_eq!(outcome.reply, Reply::Help);
    assert_eq!(outcome.message, Some(HELP_TEXT.to_string()));
    assert_eq!(outcome.action, Action::Persist);
    assert_eq!(save_teledata(&teledata).users, vec![entry("alice", 7, true)]);
    let lines: Vec<&str> = HELP_TEXT.lines().collect();
    assert_eq!(lines.len(), 8);
    assert_eq!(lines[0], "These commands are supported:");
    assert_eq!(lines[1], "");
    assert_eq!(lines[2], "/help \u{2014} Display this text.");
    assert_eq!(lines[7], "/kill \u{2014} Kill the bot server.");
}

#[test]
fn kill_acknowledges_and_terminates() {
    let mut teledata = registry(vec![entry("alice", 7, true)]);
    let outcome = done(command_handler(&mut teledata, 9, &Command::Kill));
    assert_eq!(outcome.reply, Reply::Killing);
    assert_eq!(outcome.message, Some("Killing bot.".to_string()));
    assert_eq!(outcome.action, Action::Terminate);
    assert_eq!(save_teledata(&teledata).users, vec![entry("alice", 7, true)]);
    assert_eq!(command_handler_error_detector(Ok(outcome.action)), Disposition::Exit(0));
}

#[test]
fn the_handler_keeps_the_credential() {
    let mut teledata = registry(vec![]);
    complete_registration(&mut teledata, 7, "alice", Ok(true)).unwrap();
    done(command_handler(&mut teledata, 7, &Command::Pause));
    assert_eq!(teledata.bot_token(), "token");
    assert_eq!(save_teledata(&teledata).bot_token, "token");
}

#[test]
fn a_failed_write_fails_the_command() {
    let outcome = Outcome {
        reply: Reply::Paused,
        message: Some("You will stop to recive notifications.".to_string()),
        action: Action::Persist,
    };
    assert_eq!(
        outcome.after_persist(false),
        Err(HandlerError::Storage(StorageError::Write))
    );
    let outcome = Outcome { reply: Reply::AlreadyPaused, message: None, action: Action::Persist };
    assert_eq!(
        outcome.after_persist(true),
        Ok(Outcome { reply: Reply::AlreadyPaused, message: None, action: Action::Persist })
    );
    let outcome = Outcome {
        reply: Reply::Killing,
        message: Some("Killing bot.".to_string()),
        action: Action::Terminate,
    };
    assert_eq!(outcome.after_persist(false).map(|o| o.action), Ok(Action::Terminate));
}

#[test]
fn the_process_goes_on_after_a_good_command_only() {
    assert_eq!(command_handler_error_detector(Ok(Action::Persist)), Disposition::Continue);
    assert_eq!(command_handler_error_detector(Ok(Action::Terminate)), Disposition::Exit(0));
    let errors = [
        HandlerError::Storage(StorageError::NotFound),
        HandlerError::Storage(StorageError::Parse),
        HandlerError::Storage(StorageError::Write),
        HandlerError::Credentials(AuthError::DatabaseUnavailable),
        HandlerError::Transport,
    ];
    for error in errors {
        assert_eq!(command_handler_error_detector(Err(error)), Disposition::Exit(1));
    }
}

#[test]
fn replies_have_their_texts() {
    assert_eq!(Reply::Welcome.message("bob"), Some("Welcome bob!".to_string()));
    assert_eq!(Reply::Welcome.message(""), Some("Welcome !".to_string()));
    assert_eq!(Reply::Help.message("bob"), Some(HELP_TEXT.to_string()));
    assert_eq!(Reply::AlreadyPaused.message("bob"), None);
    assert_eq!(Reply::AlreadyActive.message("bob"), None);
    assert_eq!(Reply::NotRegistered.message("bob"), Some("You are not registered. ".to_string()));
}
