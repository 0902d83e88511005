//! Verification of a username and password against the host's account
//! database.
//!
//! The database is a list of lines `name:encoded:...`, where `encoded` reads
//! `$algorithm$salt$hash`. A password is good where hashing it with the
//! algorithm and the salt of the entry gives `encoded` again. The hashing is
//! done by a helper program that the caller runs: this module says what to
//! look up, what to hand to the helper, and what its answer means.

use crate::text::{chars_of, field, find, find_at, nth_field, piece, trim, trimmed};
use vstd::prelude::*;

verus! {

/// Why a verification could not be carried out.
#[derive(Clone, Copy, Debug, PartialEq, Eq, Structural)]
pub enum AuthError {
    /// The account database could not be opened or read.
    DatabaseUnavailable,
    /// The entry of the user does not have the shape `name:$algorithm$salt$hash`.
    MalformedEntry,
    /// The hashing helper could not be run, or what it printed is no text.
    HelperFailed,
}

/// What an entry of the account database says about the password.
#[derive(Debug, PartialEq, Eq)]
pub struct AccountEntry {
    /// The encoded password, as the database holds it.
    pub encoded: String,
    /// The name of the hashing algorithm.
    pub algorithm: String,
    /// The salt that the password was hashed with.
    pub salt: String,
}

/// An entry as the contracts speak of it.
pub struct AccountEntryView {
    pub encoded: Seq<char>,
    pub algorithm: Seq<char>,
    pub salt: Seq<char>,
}

impl View for AccountEntry {
    type V = AccountEntryView;

    open spec fn view(&self) -> AccountEntryView {
        AccountEntryView {
            encoded: self.encoded@,
            algorithm: self.algorithm@,
            salt: self.salt@,
        }
    }
}

/// Where a verification stands after the look-up.
#[derive(Debug, PartialEq, Eq)]
pub enum Verification {
    /// Nothing more is needed: the verdict is known.
    Decided(Result<bool, AuthError>),
    /// The password is to be hashed: the caller runs the helper with
    /// `arguments` and goes on with `verdict_of_hash`.
    Hash { entry: AccountEntry, arguments: Vec<String> },
}

/// Whether `line` is the entry of `user`: what stands before its first
/// colon is the username.
pub open spec fn is_entry_of(line: Seq<char>, user: Seq<char>) -> bool {
    find(line, ':', 0) < line.len() && line.subrange(0, find(line, ':', 0)) == user
}

/// The number of the first line at or after `from` that is the entry of
/// `user`, or the number of lines where there is none.
pub open spec fn first_entry(lines: Seq<String>, user: Seq<char>, from: int) -> int
    decreases lines.len() - from,
{
    if 0 <= from < lines.len() && !is_entry_of(lines[from]@, user) {
        first_entry(lines, user, from + 1)
    } else {
        from
    }
}

/// The encoded password of an entry: its second field, without the white
/// space around it.
pub open spec fn encoded_password(line: Seq<char>) -> Seq<char> {
    match field(line, ':', 1) {
        Some(second) => trimmed(second),
        None => Seq::<char>::empty(),
    }
}

/// What `line` says about the password, or `None` where its encoded
/// password does not hold two `$` at least.
pub open spec fn parse_entry(line: Seq<char>) -> Option<AccountEntryView> {
    let encoded = encoded_password(line);
    match (field(encoded, '$', 1), field(encoded, '$', 2)) {
        (Some(algorithm), Some(salt)) => Some(AccountEntryView { encoded, algorithm, salt }),
        _ => None,
    }
}

/// The look-up of `user` in the database. `complete` says whether `lines`
/// is the whole database, or only what could be read of it.
pub open spec fn lookup(lines: Seq<String>, complete: bool, user: Seq<char>) -> Result<
    Option<AccountEntryView>,
    AuthError,
> {
    let at = first_entry(lines, user, 0);
    if at < lines.len() {
        match parse_entry(lines[at]@) {
            Some(entry) => Ok(Some(entry)),
            None => Err(AuthError::MalformedEntry),
        }
    } else if complete {
        Ok(None)
    } else {
        Err(AuthError::DatabaseUnavailable)
    }
}

/// What the helper is started with to hash `pass` as `entry` was hashed.
pub open spec fn helper_arguments(entry: AccountEntryView, pass: Seq<char>) -> Seq<Seq<char>> {
    seq!["passwd"@, "-"@ + entry.algorithm, "-salt"@, entry.salt, pass]
}

/// What the answer of the helper means for `entry`. `printed` is what the
/// helper wrote, or `None` where it could not be run or wrote no text.
pub open spec fn hash_verdict(entry: AccountEntryView, printed: Option<Seq<char>>) -> Result<
    bool,
    AuthError,
> {
    match printed {
        Some(text) => Ok(entry.encoded == trimmed(text)),
        None => Err(AuthError::HelperFailed),
    }
}

/// The verdict on `user`, whatever the password: known after the look-up
/// where the user has no entry or the look-up failed, and after the hashing
/// otherwise.
pub open spec fn verdict(
    lines: Seq<String>,
    complete: bool,
    user: Seq<char>,
    printed: Option<Seq<char>>,
) -> Result<bool, AuthError> {
    match lookup(lines, complete, user) {
        Ok(Some(entry)) => hash_verdict(entry, printed),
        Ok(None) => Ok(false),
        Err(error) => Err(error),
    }
}

/// The strings of `arguments`, each as the text it holds.
pub open spec fn texts(arguments: Seq<String>) -> Seq<Seq<char>> {
    arguments.map_values(|argument: String| argument@)
}

/// Reads what `line` says about the password.
pub fn read_entry(line: &str) -> (entry: Option<AccountEntry>)
    ensures
        entry.is_some() == parse_entry(line@).is_some(),
        entry.is_some() ==> entry.unwrap()@ == parse_entry(line@).unwrap(),
{
    let encoded = match nth_field(line, ':', 1) {
        Some(second) => trim(second.as_str()),
        None => String::new(),
    };
    let algorithm = nth_field(encoded.as_str(), '$', 1);
    let salt = nth_field(encoded.as_str(), '$', 2);
    match (algorithm, salt) {
        (Some(algorithm), Some(salt)) => Some(AccountEntry { encoded, algorithm, salt }),
        _ => None,
    }
}

/// Whether `line` is the entry of `user`.
pub fn is_entry(line: &str, user: &String) -> (matches: bool)
    ensures
        matches == is_entry_of(line@, user@),
{
    let chars = chars_of(line);
    let colon = find_at(&chars, ':', 0);
    colon < chars.len() && piece(line, 0, colon) == *user
}

/// Looks `user` up in the account database. `complete` says whether
/// `lines` is the whole database, or only what could be read of it.
pub fn find_account(lines: &Vec<String>, complete: bool, user: &str) -> (found: Result<
    Option<AccountEntry>,
    AuthError,
>)
    ensures
        match (found, lookup(lines@, complete, user@)) {
            (Ok(Some(entry)), Ok(Some(view))) => entry@ == view,
            (Ok(None), Ok(None)) => true,
            (Err(error), Err(expected)) => error == expected,
            _ => false,
        },
{
    let name = String::from_str(user);
    let mut at: usize = 0;
    while at < lines.len()
        invariant
            at <= lines@.len(),
            name@ == user@,
            first_entry(lines@, user@, 0) == first_entry(lines@, user@, at as int),
        decreases lines@.len() - at,
    {
        if is_entry(lines[at].as_str(), &name) {
            return match read_entry(lines[at].as_str()) {
                Some(entry) => Ok(Some(entry)),
                None => Err(AuthError::MalformedEntry),
            };
        }
        at += 1;
    }
    if complete {
        Ok(None)
    } else {
        Err(AuthError::DatabaseUnavailable)
    }
}

/// What the helper is started with to hash `pass` as `entry` was hashed.
pub fn hash_arguments(entry: &AccountEntry, pass: &str) -> (arguments: Vec<String>)
    ensures
        texts(arguments@) == helper_arguments(entry@, pass@),
{
    let mut arguments: Vec<String> = Vec::new();
    arguments.push(String::from_str("passwd"));
    arguments.push(String::from_str("-").concat(entry.algorithm.as_str()));
    arguments.push(String::from_str("-salt"));
    arguments.push(entry.salt.clone());
    arguments.push(String::from_str(pass));
    assert(texts(arguments@) =~= helper_arguments(entry@, pass@));
    arguments
}

/// Looks `user` up and says how the verification goes on: with a verdict
/// where the look-up settles it, with the hashing of `pass` otherwise.
pub fn is_user_pass_ok(lines: &Vec<String>, complete: bool, user: &str, pass: &str) -> (step:
    Verification)
    ensures
        match (step, lookup(lines@, complete, user@)) {
            (Verification::Hash { entry, arguments }, Ok(Some(view))) => entry@ == view && texts(
                arguments@,
            ) == helper_arguments(view, pass@),
            (Verification::Decided(decided), Ok(None)) => decided == Ok::<bool, AuthError>(false),
            (Verification::Decided(decided), Err(error)) => decided == Err::<bool, AuthError>(
                error,
            ),
            _ => false,
        },
{
    match find_account(lines, complete, user) {
        Ok(Some(entry)) => {
            let arguments = hash_arguments(&entry, pass);
            Verification::Hash { entry, arguments }
        },
        Ok(None) => Verification::Decided(Ok(false)),
        Err(error) => Verification::Decided(Err(error)),
    }
}

/// What the answer of the helper means for `entry`. `printed` is what the
/// helper wrote, or `None` where it could not be run or wrote no text.
pub fn verdict_of_hash(entry: &AccountEntry, printed: Option<&str>) -> (decided: Result<
    bool,
    AuthError,
>)
    ensures
        decided == hash_verdict(
            entry@,
            match printed {
                Some(text) => Some(text@),
                None => None,
            },
        ),
{
    match printed {
        Some(text) => Ok(entry.encoded == trim(text)),
        None => Err(AuthError::HelperFailed),
    }
}

/// A user who has no entry and a user whose password hashes to another
/// value are both refused, and nothing tells the two apart.
pub proof fn lemma_refusals_are_alike(
    lines: Seq<String>,
    unknown: Seq<char>,
    known: Seq<char>,
    printed_for_unknown: Option<Seq<char>>,
    printed_for_known: Seq<char>,
)
    requires
        first_entry(lines, unknown, 0) >= lines.len(),
        lookup(lines, true, known) is Ok,
        lookup(lines, true, known)->Ok_0 is Some,
        trimmed(printed_for_known) != lookup(lines, true, known)->Ok_0->Some_0.encoded,
    ensures
        verdict(lines, true, unknown, printed_for_unknown) == Ok::<bool, AuthError>(false),
        verdict(lines, true, known, Some(printed_for_known)) == Ok::<bool, AuthError>(false),
{
}

} // verus!
