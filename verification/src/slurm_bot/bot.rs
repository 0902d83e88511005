//! The chat commands: what each does to the registry and what it answers.
//!
//! The handler decides; it neither talks to the chat service nor touches the
//! disk. Its caller loads the registry, hands over the command, sends the
//! answer and writes the registry back.

use crate::slurm_bot::credentials::AuthError;
use crate::slurm_bot::storage::{
    chat_is_bound, chat_owner, one_user_per_chat, StorageError, TeleData, UserData,
};
use crate::text::{nth_word, word};
use vstd::prelude::*;

verus! {

/// A command as the chat service delivers it. `Register` and `Unregister`
/// carry the text that followed the command word.
#[derive(Clone, Debug, PartialEq, Eq)]
pub enum Command {
    Help,
    Register(String),
    Unregister(String),
    Pause,
    Unpause,
    Kill,
}

/// What the handler answers.
#[derive(Clone, Copy, Debug, PartialEq, Eq, Structural)]
pub enum Reply {
    /// The list of commands.
    Help,
    /// The chat already holds a registration.
    AlreadyRegistered,
    /// No username was given.
    NobodyToRegister,
    /// The credentials were not accepted.
    WrongCredentials,
    /// The username is registered from another chat.
    UsernameTaken,
    /// The registration succeeded.
    Welcome,
    /// The username given is not the one registered from this chat.
    MustSpecifyUsername,
    /// The registration was removed.
    Unregistered,
    /// The chat holds no registration.
    NotRegistered,
    /// Delivery was switched off.
    Paused,
    /// Delivery was off already: nothing changed, nothing is sent.
    AlreadyPaused,
    /// Delivery was switched on.
    Unpaused,
    /// Delivery was on already: nothing changed, nothing is sent.
    AlreadyActive,
    /// The relay is about to stop.
    Killing,
}

/// What the caller does once the answer is settled.
#[derive(Clone, Copy, Debug, PartialEq, Eq, Structural)]
pub enum Action {
    /// Write the registry back, then send the answer.
    Persist,
    /// Send the answer, then end the process without writing anything.
    Terminate,
}

/// The result of one command.
#[derive(Debug, PartialEq, Eq)]
pub struct Outcome {
    pub reply: Reply,
    /// The text to send to the chat, if any is sent.
    pub message: Option<String>,
    pub action: Action,
}

/// Where the handler stands after looking at a command.
#[derive(Debug, PartialEq, Eq)]
pub enum Step {
    /// The command is dealt with.
    Done(Outcome),
    /// The command is a registration that depends on the credentials: the
    /// caller has them verified and goes on with `complete_registration`.
    Verify { user: String, pass: String },
}

/// Why a command failed as a whole.
#[derive(Clone, Copy, Debug, PartialEq, Eq, Structural)]
pub enum HandlerError {
    /// The registry could not be loaded or written back.
    Storage(StorageError),
    /// The credentials could not be checked at all.
    Credentials(AuthError),
    /// The answer could not be sent.
    Transport,
}

/// What becomes of the process after a command.
#[derive(Clone, Copy, Debug, PartialEq, Eq, Structural)]
pub enum Disposition {
    /// Go on serving commands.
    Continue,
    /// End the process with this exit code.
    Exit(i32),
}

/// The text of the list of commands.
pub const HELP_TEXT: &'static str =
    "These commands are supported:\n\n/help — Display this text.\n/register — Register with username and password into system to recive updates on your jobs.\n/unregister — Unregister with username from system.\n/pause — Pause notifications.\n/unpause — Unpause notifications.\n/kill — Kill the bot server.";

/// The text that goes out for `reply`, where `user` is the username that the
/// command named; `None` where nothing is sent.
pub open spec fn reply_text(reply: Reply, user: Seq<char>) -> Option<Seq<char>> {
    match reply {
        Reply::Help => Some(HELP_TEXT@),
        Reply::AlreadyRegistered => Some("An user is already registered in this chat."@),
        Reply::NobodyToRegister => Some("Nobody to register."@),
        Reply::WrongCredentials => Some("Wrong password or username."@),
        Reply::UsernameTaken => Some("This username is already registered."@),
        Reply::Welcome => Some("Welcome "@ + user + "!"@),
        Reply::MustSpecifyUsername => Some("You must specify your username."@),
        Reply::Unregistered => Some("You are no longer registered"@),
        Reply::NotRegistered => Some("You are not registered. "@),
        Reply::Paused => Some("You will stop to recive notifications."@),
        Reply::AlreadyPaused => None,
        Reply::Unpaused => Some("You will start to recive notifications."@),
        Reply::AlreadyActive => None,
        Reply::Killing => Some("Killing bot."@),
    }
}

/// A registration of `user` from `chat_id`, where `accepted` says whether the
/// credentials were verified.
pub open spec fn register(
    users: Map<Seq<char>, UserData>,
    chat_id: i64,
    user: Seq<char>,
    accepted: bool,
) -> (Map<Seq<char>, UserData>, Reply) {
    if chat_is_bound(users, chat_id) {
        (users, Reply::AlreadyRegistered)
    } else if user.len() == 0 {
        (users, Reply::NobodyToRegister)
    } else if !accepted {
        (users, Reply::WrongCredentials)
    } else if users.dom().contains(user) {
        (users, Reply::UsernameTaken)
    } else {
        (users.insert(user, UserData { chat_id, active: true }), Reply::Welcome)
    }
}

/// The end of the registration of `user` from `chat_id`.
pub open spec fn unregister(users: Map<Seq<char>, UserData>, chat_id: i64, user: Seq<char>) -> (
    Map<Seq<char>, UserData>,
    Reply,
) {
    if !chat_is_bound(users, chat_id) {
        (users, Reply::NotRegistered)
    } else if user.len() == 0 || user != chat_owner(users, chat_id) {
        (users, Reply::MustSpecifyUsername)
    } else {
        (users.remove(user), Reply::Unregistered)
    }
}

/// Switching the delivery to the user of `chat_id` on or off. `changed` is
/// the answer where the flag changes, `unchanged` where it has the wanted
/// value already.
pub open spec fn switch(
    users: Map<Seq<char>, UserData>,
    chat_id: i64,
    active: bool,
    changed: Reply,
    unchanged: Reply,
) -> (Map<Seq<char>, UserData>, Reply) {
    if !chat_is_bound(users, chat_id) {
        (users, Reply::NotRegistered)
    } else if users[chat_owner(users, chat_id)].active == active {
        (users, unchanged)
    } else {
        (users.insert(chat_owner(users, chat_id), UserData { chat_id, active }), changed)
    }
}

/// Switching the delivery off.
pub open spec fn pause(users: Map<Seq<char>, UserData>, chat_id: i64) -> (
    Map<Seq<char>, UserData>,
    Reply,
) {
    switch(users, chat_id, false, Reply::Paused, Reply::AlreadyPaused)
}

/// Switching the delivery on.
pub open spec fn unpause(users: Map<Seq<char>, UserData>, chat_id: i64) -> (
    Map<Seq<char>, UserData>,
    Reply,
) {
    switch(users, chat_id, true, Reply::Unpaused, Reply::AlreadyActive)
}

/// The username that a command names: the first word of its text.
pub open spec fn named_user(command: Command) -> Seq<char> {
    match command {
        Command::Register(text) => word(text@, 0),
        Command::Unregister(text) => word(text@, 0),
        _ => Seq::<char>::empty(),
    }
}

/// Whether the answer to `command` depends on the credentials: it is a
/// registration that names somebody, from a chat that holds none.
pub open spec fn needs_verdict(
    users: Map<Seq<char>, UserData>,
    chat_id: i64,
    command: Command,
) -> bool {
    command is Register && !chat_is_bound(users, chat_id) && named_user(command).len() > 0
}

/// What `command` from `chat_id` does to the registered users and what it
/// answers. `accepted` says whether the credentials were verified; it
/// matters only where `needs_verdict` holds.
pub open spec fn transition(
    users: Map<Seq<char>, UserData>,
    chat_id: i64,
    command: Command,
    accepted: bool,
) -> (Map<Seq<char>, UserData>, Reply) {
    match command {
        Command::Help => (users, Reply::Help),
        Command::Register(_) => register(users, chat_id, named_user(command), accepted),
        Command::Unregister(_) => unregister(users, chat_id, named_user(command)),
        Command::Pause => pause(users, chat_id),
        Command::Unpause => unpause(users, chat_id),
        Command::Kill => (users, Reply::Killing),
    }
}

/// What follows the answer to `command`.
pub open spec fn action_after(command: Command) -> Action {
    if command is Kill {
        Action::Terminate
    } else {
        Action::Persist
    }
}

/// The password that a registration gives: the second word of its text.
pub open spec fn given_password(command: Command) -> Seq<char> {
    match command {
        Command::Register(text) => word(text@, 1),
        _ => Seq::<char>::empty(),
    }
}

/// `message` is the text `text`, or both are absent.
pub open spec fn carries(message: Option<String>, text: Option<Seq<char>>) -> bool {
    match (message, text) {
        (Some(m), Some(t)) => m@ == t,
        (None, None) => true,
        _ => false,
    }
}

/// Whether the credentials could not be checked at all, which no answer to
/// the chat can make good.
pub open spec fn is_fatal(verdict: Result<bool, AuthError>) -> bool {
    verdict == Err::<bool, AuthError>(AuthError::DatabaseUnavailable)
}

impl Reply {
    /// The text that goes out for this reply, where `user` is the username
    /// that the command named; `None` where nothing is sent.
    pub fn message(self, user: &str) -> (message: Option<String>)
        ensures
            carries(message, reply_text(self, user@)),
    {
        match self {
            Reply::Help => Some(String::from_str(HELP_TEXT)),
            Reply::AlreadyRegistered => Some(
                String::from_str("An user is already registered in this chat."),
            ),
            Reply::NobodyToRegister => Some(String::from_str("Nobody to register.")),
            Reply::WrongCredentials => Some(String::from_str("Wrong password or username.")),
            Reply::UsernameTaken => Some(String::from_str("This username is already registered.")),
            Reply::Welcome => Some(String::from_str("Welcome ").concat(user).concat("!")),
            Reply::MustSpecifyUsername => Some(
                String::from_str("You must specify your username."),
            ),
            Reply::Unregistered => Some(String::from_str("You are no longer registered")),
            Reply::NotRegistered => Some(String::from_str("You are not registered. ")),
            Reply::Paused => Some(String::from_str("You will stop to recive notifications.")),
            Reply::AlreadyPaused => None,
            Reply::Unpaused => Some(String::from_str("You will start to recive notifications.")),
            Reply::AlreadyActive => None,
            Reply::Killing => Some(String::from_str("Killing bot.")),
        }
    }
}

/// The outcome that carries `reply` and its text.
fn outcome(reply: Reply, user: &str, action: Action) -> (outcome: Outcome)
    ensures
        outcome.reply == reply,
        outcome.action == action,
        carries(outcome.message, reply_text(reply, user@)),
{
    Outcome { reply, message: reply.message(user), action }
}

/// Switches the delivery to the user of `chat_id` on or off.
fn switch_delivery(
    teledata: &mut TeleData,
    chat_id: i64,
    active: bool,
    changed: Reply,
    unchanged: Reply,
) -> (reply: Reply)
    ensures
        final(teledata)@.bot_token == old(teledata)@.bot_token,
        final(teledata)@.users == switch(
            old(teledata)@.users,
            chat_id,
            active,
            changed,
            unchanged,
        ).0,
        reply == switch(old(teledata)@.users, chat_id, active, changed, unchanged).1,
        one_user_per_chat(final(teledata)@.users),
{
    match teledata.user_of_chat(chat_id) {
        None => Reply::NotRegistered,
        Some(owner) => {
            let record = teledata.get(owner.as_str());
            match record {
                Some(data) => {
                    if data.active == active {
                        unchanged
                    } else {
                        teledata.set_active(&owner, active);
                        changed
                    }
                },
                None => unchanged,
            }
        },
    }
}

/// Deals with one command that came from the chat `chat_id`.
///
/// A registration that names somebody, from a chat that holds no
/// registration, is not decided here: the step then asks for the credentials
/// to be verified and leaves the registry as it is. Every other command is
/// carried out, and the step holds its outcome.
pub fn command_handler(teledata: &mut TeleData, chat_id: i64, command: &Command) -> (step: Step)
    ensures
        final(teledata)@.bot_token == old(teledata)@.bot_token,
        one_user_per_chat(final(teledata)@.users),
        match step {
            Step::Verify { user, pass } => {
                &&& needs_verdict(old(teledata)@.users, chat_id, *command)
                &&& final(teledata)@.users == old(teledata)@.users
                &&& user@ == named_user(*command)
                &&& pass@ == given_password(*command)
            },
            Step::Done(outcome) => {
                &&& !needs_verdict(old(teledata)@.users, chat_id, *command)
                &&& final(teledata)@.users == transition(
                    old(teledata)@.users,
                    chat_id,
                    *command,
                    false,
                ).0
                &&& outcome.reply == transition(old(teledata)@.users, chat_id, *command, false).1
                &&& carries(outcome.message, reply_text(outcome.reply, named_user(*command)))
                &&& outcome.action == action_after(*command)
            },
        },
{
    let owner = teledata.user_of_chat(chat_id);
    match command {
        Command::Help => Step::Done(outcome(Reply::Help, "", Action::Persist)),
        Command::Register(text) => {
            let user = nth_word(text.as_str(), 0);
            let pass = nth_word(text.as_str(), 1);
            if owner.is_some() {
                Step::Done(outcome(Reply::AlreadyRegistered, user.as_str(), Action::Persist))
            } else if user.as_str().is_empty() {
                Step::Done(outcome(Reply::NobodyToRegister, user.as_str(), Action::Persist))
            } else {
                Step::Verify { user, pass }
            }
        },
        Command::Unregister(text) => {
            let user = nth_word(text.as_str(), 0);
            let reply = match owner {
                None => Reply::NotRegistered,
                Some(owner) => {
                    if user.as_str().is_empty() || user != owner {
                        Reply::MustSpecifyUsername
                    } else {
                        teledata.remove(&user);
                        Reply::Unregistered
                    }
                },
            };
            Step::Done(outcome(reply, user.as_str(), Action::Persist))
        },
        Command::Pause => {
            let reply = switch_delivery(
                teledata,
                chat_id,
                false,
                Reply::Paused,
                Reply::AlreadyPaused,
            );
            Step::Done(outcome(reply, "", Action::Persist))
        },
        Command::Unpause => {
            let reply = switch_delivery(
                teledata,
                chat_id,
                true,
                Reply::Unpaused,
                Reply::AlreadyActive,
            );
            Step::Done(outcome(reply, "", Action::Persist))
        },
        Command::Kill => Step::Done(outcome(Reply::Killing, "", Action::Terminate)),
    }
}

/// Ends the registration of `user` from `chat_id` once the credentials have
/// been looked at.
///
/// Where the account database could not be read, and the answer depends on
/// it, the command fails as a whole. A malformed entry and a failing helper
/// count as a refusal, like a wrong password.
pub fn complete_registration(
    teledata: &mut TeleData,
    chat_id: i64,
    user: &str,
    verdict: Result<bool, AuthError>,
) -> (result: Result<Outcome, HandlerError>)
    ensures
        final(teledata)@.bot_token == old(teledata)@.bot_token,
        one_user_per_chat(final(teledata)@.users),
        match result {
            Err(error) => {
                &&& is_fatal(verdict)
                &&& !chat_is_bound(old(teledata)@.users, chat_id)
                &&& user@.len() > 0
                &&& error == HandlerError::Credentials(AuthError::DatabaseUnavailable)
                &&& final(teledata)@.users == old(teledata)@.users
            },
            Ok(outcome) => {
                &&& !(is_fatal(verdict) && !chat_is_bound(old(teledata)@.users, chat_id)
                    && user@.len() > 0)
                &&& final(teledata)@.users == register(
                    old(teledata)@.users,
                    chat_id,
                    user@,
                    verdict == Ok::<bool, AuthError>(true),
                ).0
                &&& outcome.reply == register(
                    old(teledata)@.users,
                    chat_id,
                    user@,
                    verdict == Ok::<bool, AuthError>(true),
                ).1
                &&& carries(outcome.message, reply_text(outcome.reply, user@))
                &&& outcome.action == Action::Persist
            },
        },
{
    if teledata.user_of_chat(chat_id).is_some() {
        Ok(outcome(Reply::AlreadyRegistered, user, Action::Persist))
    } else if user.is_empty() {
        Ok(outcome(Reply::NobodyToRegister, user, Action::Persist))
    } else {
        match verdict {
            Err(AuthError::DatabaseUnavailable) => Err(
                HandlerError::Credentials(AuthError::DatabaseUnavailable),
            ),
            Ok(true) => {
                if teledata.get(user).is_some() {
                    Ok(outcome(Reply::UsernameTaken, user, Action::Persist))
                } else {
                    teledata.insert_new(
                        String::from_str(user),
                        UserData { chat_id, active: true },
                    );
                    Ok(outcome(Reply::Welcome, user, Action::Persist))
                }
            },
            _ => Ok(outcome(Reply::WrongCredentials, user, Action::Persist)),
        }
    }
}

impl Outcome {
    /// The result of the command once the caller has tried to write the
    /// registry back: where the write was asked for and failed, the command
    /// has failed as a whole and no answer goes out.
    pub fn after_persist(self, written: bool) -> (result: Result<Outcome, HandlerError>)
        ensures
            result == (if self.action == Action::Persist && !written {
                Err::<Outcome, HandlerError>(HandlerError::Storage(StorageError::Write))
            } else {
                Ok::<Outcome, HandlerError>(self)
            }),
    {
        match self.action {
            Action::Persist => {
                if written {
                    Ok(self)
                } else {
                    Err(HandlerError::Storage(StorageError::Write))
                }
            },
            Action::Terminate => Ok(self),
        }
    }
}

/// What becomes of the process after a command: it goes on after a command
/// that succeeded, ends with code 0 on a kill, and ends with code 1 after
/// any failure.
pub fn command_handler_error_detector(result: Result<Action, HandlerError>) -> (next: Disposition)
    ensures
        next == (match result {
            Ok(Action::Persist) => Disposition::Continue,
            Ok(Action::Terminate) => Disposition::Exit(0),
            Err(_) => Disposition::Exit(1),
        }),
{
    match result {
        Ok(Action::Persist) => Disposition::Continue,
        Ok(Action::Terminate) => Disposition::Exit(0),
        Err(_) => Disposition::Exit(1),
    }
}

/// Every command leaves at most one user per chat.
pub proof fn lemma_transition_keeps_one_user_per_chat(
    users: Map<Seq<char>, UserData>,
    chat_id: i64,
    command: Command,
    accepted: bool,
)
    requires
        one_user_per_chat(users),
    ensures
        one_user_per_chat(transition(users, chat_id, command, accepted).0),
{
    let after = transition(users, chat_id, command, accepted).0;
    assert forall|a: Seq<char>, b: Seq<char>|
        after.dom().contains(a) && after.dom().contains(b) && #[trigger] after[a].chat_id
            == #[trigger] after[b].chat_id implies a == b by {
        if after != users {
            match command {
                Command::Register(_) => {
                    let user = named_user(command);
                    if a == user && b != user {
                        assert(users.dom().contains(b) && users[b].chat_id == chat_id);
                    }
                    if b == user && a != user {
                        assert(users.dom().contains(a) && users[a].chat_id == chat_id);
                    }
                    if a != user && b != user {
                        assert(users[a].chat_id == users[b].chat_id);
                    }
                },
                Command::Unregister(_) => {
                    assert(users[a].chat_id == users[b].chat_id);
                },
                Command::Pause | Command::Unpause => {
                    let owner = chat_owner(users, chat_id);
                    assert(users.dom().contains(owner) && users[owner].chat_id == chat_id);
                    assert(users.dom().contains(a) && users.dom().contains(b));
                    assert(users[a].chat_id == after[a].chat_id);
                    assert(users[b].chat_id == after[b].chat_id);
                },
                _ => {},
            }
        }
    }
}

/// A second pause changes nothing. Where the chat holds a registration, its
/// user is paused after the first, and the second answers that nothing
/// changed.
pub proof fn lemma_pause_is_idempotent(users: Map<Seq<char>, UserData>, chat_id: i64)
    requires
        one_user_per_chat(users),
    ensures
        pause(pause(users, chat_id).0, chat_id).0 == pause(users, chat_id).0,
        chat_is_bound(users, chat_id) ==> {
            &&& chat_is_bound(pause(users, chat_id).0, chat_id)
            &&& chat_owner(pause(users, chat_id).0, chat_id) == chat_owner(users, chat_id)
            &&& !pause(users, chat_id).0[chat_owner(users, chat_id)].active
            &&& pause(pause(users, chat_id).0, chat_id).1 == Reply::AlreadyPaused
        },
{
    lemma_switch_is_idempotent(users, chat_id, false, Reply::Paused, Reply::AlreadyPaused);
}

/// A second unpause changes nothing. Where the chat holds a registration,
/// its user is active after the first, and the second answers that nothing
/// changed.
pub proof fn lemma_unpause_is_idempotent(users: Map<Seq<char>, UserData>, chat_id: i64)
    requires
        one_user_per_chat(users),
    ensures
        unpause(unpause(users, chat_id).0, chat_id).0 == unpause(users, chat_id).0,
        chat_is_bound(users, chat_id) ==> {
            &&& chat_is_bound(unpause(users, chat_id).0, chat_id)
            &&& chat_owner(unpause(users, chat_id).0, chat_id) == chat_owner(users, chat_id)
            &&& unpause(users, chat_id).0[chat_owner(users, chat_id)].active
            &&& unpause(unpause(users, chat_id).0, chat_id).1 == Reply::AlreadyActive
        },
{
    lemma_switch_is_idempotent(users, chat_id, true, Reply::Unpaused, Reply::AlreadyActive);
}

/// Switching twice the same way is switching once: the second time changes
/// nothing. Where the chat holds a registration, the flag has the wanted
/// value after the first, and the second gives the answer for "unchanged".
pub proof fn lemma_switch_is_idempotent(
    users: Map<Seq<char>, UserData>,
    chat_id: i64,
    active: bool,
    changed: Reply,
    unchanged: Reply,
)
    requires
        one_user_per_chat(users),
    ensures
        switch(
            switch(users, chat_id, active, changed, unchanged).0,
            chat_id,
            active,
            changed,
            unchanged,
        ).0 == switch(users, chat_id, active, changed, unchanged).0,
        chat_is_bound(users, chat_id) ==> {
            &&& chat_is_bound(switch(users, chat_id, active, changed, unchanged).0, chat_id)
            &&& chat_owner(switch(users, chat_id, active, changed, unchanged).0, chat_id)
                == chat_owner(users, chat_id)
            &&& switch(users, chat_id, active, changed, unchanged).0[chat_owner(
                users,
                chat_id,
            )].active == active
            &&& switch(
                switch(users, chat_id, active, changed, unchanged).0,
                chat_id,
                active,
                changed,
                unchanged,
            ).1 == unchanged
        },
{
    if chat_is_bound(users, chat_id) {
        let owner = chat_owner(users, chat_id);
        let once = switch(users, chat_id, active, changed, unchanged).0;
        assert(users.dom().contains(owner) && users[owner].chat_id == chat_id);
        assert(once.dom().contains(owner) && once[owner].chat_id == chat_id);
        let again = chat_owner(once, chat_id);
        assert(once.dom().contains(again) && once[again].chat_id == chat_id);
        if again != owner {
            assert(users.dom().contains(again) && users[again].chat_id == chat_id);
        }
    }
}

/// From a chat that holds no registration, a pause, an unpause and an
/// unregistration answer that the chat is not registered and change nothing.
pub proof fn lemma_unbound_chat_changes_nothing(
    users: Map<Seq<char>, UserData>,
    chat_id: i64,
    command: Command,
    accepted: bool,
)
    requires
        !chat_is_bound(users, chat_id),
        command is Pause || command is Unpause || command is Unregister,
    ensures
        transition(users, chat_id, command, accepted) == (users, Reply::NotRegistered),
        !needs_verdict(users, chat_id, command),
{
}

/// From a chat that holds a registration, a registration is refused,
/// whoever it names and whether or not the credentials are good, and
/// changes nothing.
pub proof fn lemma_bound_chat_refuses_registration(
    users: Map<Seq<char>, UserData>,
    chat_id: i64,
    command: Command,
    accepted: bool,
)
    requires
        chat_is_bound(users, chat_id),
        command is Register,
    ensures
        transition(users, chat_id, command, accepted) == (users, Reply::AlreadyRegistered),
        !needs_verdict(users, chat_id, command),
{
}

/// A registration that is not accepted changes nothing, and answers the
/// same whatever the reason of the refusal was.
pub proof fn lemma_refusal_changes_nothing(
    users: Map<Seq<char>, UserData>,
    chat_id: i64,
    user: Seq<char>,
)
    requires
        !chat_is_bound(users, chat_id),
        user.len() > 0,
    ensures
        register(users, chat_id, user, false) == (users, Reply::WrongCredentials),
{
}

} // verus!
