//! The registry of operators: who is registered, on which chat, and whether
//! notifications are currently delivered to them.

use vstd::prelude::*;

verus! {

/// Why the registry could not be loaded or stored.
#[derive(Clone, Copy, Debug, PartialEq, Eq, Structural)]
pub enum StorageError {
    /// There is no registry file.
    NotFound,
    /// The file does not hold a registry.
    Parse,
    /// The file could not be written.
    Write,
}

/// What the registry keeps for one operator.
#[derive(Clone, Copy, Debug, PartialEq, Eq, Structural)]
pub struct UserData {
    /// The chat that registered the operator.
    pub chat_id: i64,
    /// Whether notifications are delivered (`false` while paused).
    pub active: bool,
}

/// One line of the registry: a username and what is kept for it.
#[derive(Clone, Debug, PartialEq, Eq)]
pub struct UserEntry {
    pub username: String,
    pub data: UserData,
}

/// No two entries carry the same username.
pub open spec fn names_distinct(entries: Seq<UserEntry>) -> bool {
    forall|i: int, j: int|
        0 <= i < j < entries.len() ==> entries[i].username@ != entries[j].username@
}

/// No two entries are bound to the same chat.
pub open spec fn chats_distinct(entries: Seq<UserEntry>) -> bool {
    forall|i: int, j: int|
        0 <= i < j < entries.len() ==> entries[i].data.chat_id != entries[j].data.chat_id
}

/// Some entry carries `name`.
pub open spec fn has_name(entries: Seq<UserEntry>, name: Seq<char>) -> bool {
    exists|i: int| 0 <= i < entries.len() && #[trigger] entries[i].username@ == name
}

/// The mapping from username to record that a list of entries stands for.
/// Where a name occurs more than once the list stands for no sensible mapping;
/// the registry never holds such a list.
pub open spec fn users_of(entries: Seq<UserEntry>) -> Map<Seq<char>, UserData> {
    Map::new(
        |name: Seq<char>| has_name(entries, name),
        |name: Seq<char>|
            entries[choose|i: int|
                0 <= i < entries.len() && #[trigger] entries[i].username@ == name].data,
    )
}

/// In a list without repeated names, each entry is what the mapping holds
/// under its name.
pub proof fn lemma_users_of_entry(entries: Seq<UserEntry>, i: int)
    requires
        names_distinct(entries),
        0 <= i < entries.len(),
    ensures
        users_of(entries).dom().contains(entries[i].username@),
        users_of(entries)[entries[i].username@] == entries[i].data,
{
    let name = entries[i].username@;
    assert(has_name(entries, name));
    let j = choose|j: int| 0 <= j < entries.len() && #[trigger] entries[j].username@ == name;
    assert(j == i) by {
        if j < i {
            assert(entries[j].username@ != entries[i].username@);
        } else if i < j {
            assert(entries[i].username@ != entries[j].username@);
        }
    }
}

/// The registry as a file holds it: plain values, of which nothing is known
/// yet.
#[derive(Clone, Debug, PartialEq, Eq)]
pub struct Stored {
    pub bot_token: String,
    pub users: Vec<UserEntry>,
}

/// What came of reading the registry file.
#[derive(Clone, Debug, PartialEq, Eq)]
pub enum FileRead {
    /// The file could not be opened.
    Absent,
    /// The file was read, and does not hold the record of a registry.
    Garbled,
    /// The file holds this record.
    Record(Stored),
}

/// The registry as its contracts speak of it.
pub struct TeleDataView {
    /// The relay's own service credential.
    pub bot_token: Seq<char>,
    /// The record kept under each registered username.
    pub users: Map<Seq<char>, UserData>,
}

/// No two usernames of the mapping are bound to the same chat.
pub open spec fn one_user_per_chat(users: Map<Seq<char>, UserData>) -> bool {
    forall|a: Seq<char>, b: Seq<char>|
        users.dom().contains(a) && users.dom().contains(b) && #[trigger] users[a].chat_id
            == #[trigger] users[b].chat_id ==> a == b
}

/// Some username of the mapping is bound to `chat_id`.
pub open spec fn chat_is_bound(users: Map<Seq<char>, UserData>, chat_id: i64) -> bool {
    exists|name: Seq<char>| users.dom().contains(name) && #[trigger] users[name].chat_id == chat_id
}

/// The username bound to `chat_id`. It is the only one where the mapping
/// keeps one user per chat; it means nothing where the chat is not bound.
pub open spec fn chat_owner(users: Map<Seq<char>, UserData>, chat_id: i64) -> Seq<char> {
    choose|name: Seq<char>| users.dom().contains(name) && #[trigger] users[name].chat_id == chat_id
}

/// Whether a record is a registry: no username twice, no chat twice.
pub open spec fn is_registry(record: Stored) -> bool {
    names_distinct(record.users@) && chats_distinct(record.users@)
}

/// The registry that a record stands for.
pub open spec fn stored_view(record: Stored) -> TeleDataView {
    TeleDataView { bot_token: record.bot_token@, users: users_of(record.users@) }
}

/// What loading makes of what was read: the registry that the record stands
/// for, or the reason why there is none.
pub open spec fn load_result(read: FileRead) -> Result<TeleDataView, StorageError> {
    match read {
        FileRead::Absent => Err(StorageError::NotFound),
        FileRead::Garbled => Err(StorageError::Parse),
        FileRead::Record(record) => if is_registry(record) {
            Ok(stored_view(record))
        } else {
            Err(StorageError::Parse)
        },
    }
}

/// The whole durable store: the relay's own credential and the registered
/// operators, at most one per username and at most one per chat.
#[derive(Debug)]
pub struct TeleData {
    bot_token: String,
    users_data: Vec<UserEntry>,
}

impl View for TeleData {
    type V = TeleDataView;

    closed spec fn view(&self) -> TeleDataView {
        TeleDataView { bot_token: self.bot_token@, users: users_of(self.users_data@) }
    }
}

impl TeleData {
    #[verifier::type_invariant]
    spec fn well_formed(self) -> bool {
        names_distinct(self.users_data@) && chats_distinct(self.users_data@)
    }

    /// An empty registry that carries `bot_token`.
    pub fn new(bot_token: String) -> (fresh: Self)
        ensures
            fresh@.bot_token == bot_token@,
            fresh@.users == Map::<Seq<char>, UserData>::empty(),
    {
        let fresh = TeleData { bot_token, users_data: Vec::new() };
        assert(fresh@.users =~= Map::<Seq<char>, UserData>::empty());
        fresh
    }

    /// The service credential stored with the registry.
    pub fn bot_token(&self) -> (token: &String)
        ensures
            token@ == self@.bot_token,
    {
        &self.bot_token
    }

    /// Where `username` stands in the list, if it does.
    fn position(&self, username: &String) -> (found: Option<usize>)
        ensures
            match found {
                Some(i) => i < self.users_data@.len() && self.users_data@[i as int].username@
                    == username@,
                None => !has_name(self.users_data@, username@),
            },
    {
        let mut i: usize = 0;
        while i < self.users_data.len()
            invariant
                i <= self.users_data@.len(),
                forall|k: int| 0 <= k < i ==> self.users_data@[k].username@ != username@,
            decreases self.users_data@.len() - i,
        {
            if self.users_data[i].username == *username {
                return Some(i);
            }
            i += 1;
        }
        None
    }

    /// Where the entry bound to `chat_id` stands in the list, if there is one.
    fn position_of_chat(&self, chat_id: i64) -> (found: Option<usize>)
        ensures
            match found {
                Some(i) => i < self.users_data@.len() && self.users_data@[i as int].data.chat_id
                    == chat_id,
                None => forall|k: int|
                    0 <= k < self.users_data@.len() ==> self.users_data@[k].data.chat_id
                        != chat_id,
            },
    {
        let mut i: usize = 0;
        while i < self.users_data.len()
            invariant
                i <= self.users_data@.len(),
                forall|k: int| 0 <= k < i ==> self.users_data@[k].data.chat_id != chat_id,
            decreases self.users_data@.len() - i,
        {
            if self.users_data[i].data.chat_id == chat_id {
                return Some(i);
            }
            i += 1;
        }
        None
    }

    /// The record kept under `username`: the direct lookup by key.
    pub fn get(&self, username: &str) -> (record: Option<UserData>)
        ensures
            record == (if self@.users.dom().contains(username@) {
                Some(self@.users[username@])
            } else {
                None
            }),
            one_user_per_chat(self@.users),
    {
        proof {
            use_type_invariant(self);
            lemma_one_user_per_chat(self.users_data@);
        }
        let name = String::from_str(username);
        match self.position(&name) {
            Some(i) => {
                proof {
                    lemma_users_of_entry(self.users_data@, i as int);
                }
                Some(self.users_data[i].data)
            },
            None => None,
        }
    }

    /// The username that `chat_id` is bound to: the reverse lookup.
    pub fn user_of_chat(&self, chat_id: i64) -> (owner: Option<String>)
        ensures
            owner.is_some() == chat_is_bound(self@.users, chat_id),
            owner.is_some() ==> owner.unwrap()@ == chat_owner(self@.users, chat_id),
            one_user_per_chat(self@.users),
    {
        proof {
            use_type_invariant(self);
            lemma_one_user_per_chat(self.users_data@);
        }
        match self.position_of_chat(chat_id) {
            Some(i) => {
                proof {
                    lemma_users_of_entry(self.users_data@, i as int);
                    lemma_chat_owner(self.users_data@, i as int);
                }
                Some(self.users_data[i].username.clone())
            },
            None => {
                proof {
                    lemma_chat_unbound(self.users_data@, chat_id);
                }
                None
            },
        }
    }

    /// Moves the registry out and leaves an empty one in its place.
    fn take(&mut self) -> (whole: TeleData)
        ensures
            whole == *old(self),
    {
        let mut whole = TeleData { bot_token: String::new(), users_data: Vec::new() };
        std::mem::swap(self, &mut whole);
        whole
    }

    /// Adds a record under a username that has none, for a chat that is not
    /// bound yet.
    pub(crate) fn insert_new(&mut self, username: String, data: UserData)
        requires
            !old(self)@.users.dom().contains(username@),
            !chat_is_bound(old(self)@.users, data.chat_id),
        ensures
            final(self)@.bot_token == old(self)@.bot_token,
            final(self)@.users == old(self)@.users.insert(username@, data),
            one_user_per_chat(final(self)@.users),
    {
        proof {
            use_type_invariant(&*self);
            lemma_push(self.users_data@, UserEntry { username, data });
            lemma_one_user_per_chat(self.users_data@.push(UserEntry { username, data }));
        }
        let TeleData { bot_token, mut users_data } = self.take();
        users_data.push(UserEntry { username, data });
        *self = TeleData { bot_token, users_data };
    }

    /// Removes the record kept under `username`.
    pub(crate) fn remove(&mut self, username: &String)
        requires
            old(self)@.users.dom().contains(username@),
        ensures
            final(self)@.bot_token == old(self)@.bot_token,
            final(self)@.users == old(self)@.users.remove(username@),
            one_user_per_chat(final(self)@.users),
    {
        proof {
            use_type_invariant(&*self);
            lemma_one_user_per_chat(self.users_data@);
        }
        match self.position(username) {
            Some(i) => {
                proof {
                    lemma_remove(self.users_data@, i as int);
                    lemma_one_user_per_chat(self.users_data@.remove(i as int));
                }
                let TeleData { bot_token, mut users_data } = self.take();
                users_data.remove(i);
                *self = TeleData { bot_token, users_data };
            },
            None => {},
        }
    }

    /// Sets the delivery flag of the record kept under `username`.
    pub(crate) fn set_active(&mut self, username: &String, active: bool)
        requires
            old(self)@.users.dom().contains(username@),
        ensures
            final(self)@.bot_token == old(self)@.bot_token,
            final(self)@.users == old(self)@.users.insert(
                username@,
                UserData { chat_id: old(self)@.users[username@].chat_id, active },
            ),
            one_user_per_chat(final(self)@.users),
    {
        proof {
            use_type_invariant(&*self);
            lemma_one_user_per_chat(self.users_data@);
        }
        match self.position(username) {
            Some(i) => {
                let data = UserData { chat_id: self.users_data[i].data.chat_id, active };
                let entry = UserEntry { username: self.users_data[i].username.clone(), data };
                proof {
                    lemma_users_of_entry(self.users_data@, i as int);
                    lemma_update(self.users_data@, i as int, entry);
                    lemma_one_user_per_chat(self.users_data@.update(i as int, entry));
                }
                let TeleData { bot_token, mut users_data } = self.take();
                users_data.set(i, entry);
                *self = TeleData { bot_token, users_data };
            },
            None => {},
        }
    }
}

/// Makes a registry of what was read from the registry file.
///
/// A record that names a user twice, or binds a chat twice, is no registry
/// and is refused like a file that cannot be parsed.
pub fn load_teledata(read: FileRead) -> (loaded: Result<TeleData, StorageError>)
    ensures
        match loaded {
            Ok(teledata) => load_result(read) == Ok::<TeleDataView, StorageError>(teledata@),
            Err(error) => load_result(read) == Err::<TeleDataView, StorageError>(error),
        },
{
    let record = match read {
        FileRead::Absent => {
            return Err(StorageError::NotFound);
        },
        FileRead::Garbled => {
            return Err(StorageError::Parse);
        },
        FileRead::Record(record) => record,
    };
    let Stored { bot_token, users } = record;
    let ghost token = bot_token@;
    let mut teledata = TeleData::new(bot_token);
    let mut i: usize = 0;
    while i < users.len()
        invariant
            i <= users@.len(),
            read == FileRead::Record(record),
            record.users == users,
            record.bot_token@ == token,
            teledata@.bot_token == token,
            teledata@.users == users_of(users@.take(i as int)),
            names_distinct(users@.take(i as int)),
            chats_distinct(users@.take(i as int)),
        decreases users@.len() - i,
    {
        let ghost seen = users@.take(i as int);
        let name = users[i].username.clone();
        let data = users[i].data;
        if teledata.get(name.as_str()).is_some() {
            proof {
                let k = choose|k: int| 0 <= k < seen.len() && #[trigger] seen[k].username@ == name@;
                assert(users@[k].username@ == users@[i as int].username@);
            }
            return Err(StorageError::Parse);
        }
        if teledata.user_of_chat(data.chat_id).is_some() {
            proof {
                let owner = chat_owner(users_of(seen), data.chat_id);
                assert(has_name(seen, owner));
                let k = choose|k: int| 0 <= k < seen.len() && #[trigger] seen[k].username@ == owner;
                assert(users@[k].data.chat_id == users@[i as int].data.chat_id);
            }
            return Err(StorageError::Parse);
        }
        proof {
            lemma_push(seen, users@[i as int]);
            assert(seen.push(users@[i as int]) =~= users@.take(i + 1));
        }
        teledata.insert_new(name, data);
        i += 1;
    }
    assert(users@.take(users@.len() as int) =~= users@);
    Ok(teledata)
}

/// The record to write to the registry file: the whole registry, every
/// time.
pub fn save_teledata(teledata: &TeleData) -> (record: Stored)
    ensures
        is_registry(record),
        stored_view(record) == teledata@,
{
    proof {
        use_type_invariant(teledata);
    }
    let mut users: Vec<UserEntry> = Vec::new();
    let mut i: usize = 0;
    while i < teledata.users_data.len()
        invariant
            i <= teledata.users_data@.len(),
            users@ == teledata.users_data@.take(i as int),
        decreases teledata.users_data@.len() - i,
    {
        let entry = UserEntry {
            username: teledata.users_data[i].username.clone(),
            data: teledata.users_data[i].data,
        };
        assert(entry == teledata.users_data@[i as int]);
        users.push(entry);
        assert(users@ =~= teledata.users_data@.take(i + 1));
        i += 1;
    }
    assert(users@ =~= teledata.users_data@);
    Stored { bot_token: teledata.bot_token.clone(), users }
}

/// Run once when the relay starts: where the registry cannot be loaded, the
/// result is a fresh registry, empty and carrying `bot_token`, for the
/// caller to write out. Where it can, there is nothing to write.
pub fn make_on_fail_teledata_file(read: FileRead, bot_token: &str) -> (fresh: Option<TeleData>)
    ensures
        match fresh {
            Some(teledata) => {
                &&& load_result(read) is Err
                &&& teledata@.bot_token == bot_token@
                &&& teledata@.users == Map::<Seq<char>, UserData>::empty()
            },
            None => load_result(read) is Ok,
        },
{
    match load_teledata(read) {
        Err(_) => Some(TeleData::new(String::from_str(bot_token))),
        Ok(_) => None,
    }
}

/// Loading what was saved gives the registry back: the same credential, the
/// same usernames, and for each the same chat and the same delivery flag.
pub proof fn lemma_save_then_load(record: Stored, registry: TeleDataView)
    requires
        is_registry(record),
        stored_view(record) == registry,
    ensures
        load_result(FileRead::Record(record)) == Ok::<TeleDataView, StorageError>(registry),
{
}

/// Entries with distinct names and distinct chats stand for a mapping that
/// keeps one user per chat.
pub proof fn lemma_one_user_per_chat(entries: Seq<UserEntry>)
    requires
        names_distinct(entries),
        chats_distinct(entries),
    ensures
        one_user_per_chat(users_of(entries)),
{
    let users = users_of(entries);
    assert forall|a: Seq<char>, b: Seq<char>|
        users.dom().contains(a) && users.dom().contains(b) && #[trigger] users[a].chat_id
            == #[trigger] users[b].chat_id implies a == b by {
        let i = choose|i: int| 0 <= i < entries.len() && #[trigger] entries[i].username@ == a;
        let j = choose|j: int| 0 <= j < entries.len() && #[trigger] entries[j].username@ == b;
        if i < j {
            assert(entries[i].data.chat_id != entries[j].data.chat_id);
        } else if j < i {
            assert(entries[j].data.chat_id != entries[i].data.chat_id);
        }
    }
}

/// The entry bound to a chat names the owner of that chat.
pub proof fn lemma_chat_owner(entries: Seq<UserEntry>, i: int)
    requires
        names_distinct(entries),
        chats_distinct(entries),
        0 <= i < entries.len(),
    ensures
        chat_is_bound(users_of(entries), entries[i].data.chat_id),
        chat_owner(users_of(entries), entries[i].data.chat_id) == entries[i].username@,
{
    let users = users_of(entries);
    let chat_id = entries[i].data.chat_id;
    lemma_users_of_entry(entries, i);
    lemma_one_user_per_chat(entries);
    assert(users.dom().contains(entries[i].username@) && users[entries[i].username@].chat_id
        == chat_id);
    let owner = chat_owner(users, chat_id);
    assert(users.dom().contains(owner) && users[owner].chat_id == chat_id);
}

/// A chat that no entry is bound to is not bound in the mapping.
pub proof fn lemma_chat_unbound(entries: Seq<UserEntry>, chat_id: i64)
    requires
        forall|k: int| 0 <= k < entries.len() ==> entries[k].data.chat_id != chat_id,
    ensures
        !chat_is_bound(users_of(entries), chat_id),
{
    let users = users_of(entries);
    assert forall|name: Seq<char>| users.dom().contains(name) implies #[trigger] users[name].chat_id
        != chat_id by {
        let i = choose|i: int| 0 <= i < entries.len() && #[trigger] entries[i].username@ == name;
        assert(entries[i].data.chat_id != chat_id);
    }
}

/// Adding an entry under a new name, for a chat that is not bound, adds
/// that name to the mapping and keeps the entries distinct.
pub proof fn lemma_push(entries: Seq<UserEntry>, entry: UserEntry)
    requires
        names_distinct(entries),
        chats_distinct(entries),
        !users_of(entries).dom().contains(entry.username@),
        !chat_is_bound(users_of(entries), entry.data.chat_id),
    ensures
        names_distinct(entries.push(entry)),
        chats_distinct(entries.push(entry)),
        users_of(entries.push(entry)) == users_of(entries).insert(entry.username@, entry.data),
{
    let more = entries.push(entry);
    let last = entries.len() as int;
    assert forall|i: int, j: int| 0 <= i < j < more.len() implies more[i].username@
        != more[j].username@ by {
        if j == last {
            assert(entries[i].username@ == more[i].username@);
            assert(!has_name(entries, entry.username@));
        }
    }
    assert forall|i: int, j: int| 0 <= i < j < more.len() implies more[i].data.chat_id
        != more[j].data.chat_id by {
        if j == last {
            lemma_users_of_entry(entries, i);
            assert(users_of(entries).dom().contains(entries[i].username@));
        }
    }
    let grown = users_of(entries).insert(entry.username@, entry.data);
    assert forall|name: Seq<char>| users_of(more).dom().contains(name) <==> grown.dom().contains(
        name,
    ) by {
        if has_name(more, name) {
            let i = choose|i: int| 0 <= i < more.len() && #[trigger] more[i].username@ == name;
            if i < last {
                assert(entries[i].username@ == name);
            }
        }
        if has_name(entries, name) {
            let i = choose|i: int|
                0 <= i < entries.len() && #[trigger] entries[i].username@ == name;
            assert(more[i].username@ == name);
        }
        if name == entry.username@ {
            assert(more[last].username@ == name);
        }
    }
    assert forall|name: Seq<char>| users_of(more).dom().contains(name) implies users_of(more)[name]
        == grown[name] by {
        let i = choose|i: int| 0 <= i < more.len() && #[trigger] more[i].username@ == name;
        lemma_users_of_entry(more, i);
        if i < last {
            lemma_users_of_entry(entries, i);
        }
    }
    assert(users_of(more) =~= grown);
}

/// Taking an entry out takes its name out of the mapping and keeps the
/// entries distinct.
pub proof fn lemma_remove(entries: Seq<UserEntry>, at: int)
    requires
        names_distinct(entries),
        chats_distinct(entries),
        0 <= at < entries.len(),
    ensures
        names_distinct(entries.remove(at)),
        chats_distinct(entries.remove(at)),
        users_of(entries.remove(at)) == users_of(entries).remove(entries[at].username@),
{
    let fewer = entries.remove(at);
    let gone = entries[at].username@;
    let shrunk = users_of(entries).remove(gone);
    assert forall|i: int| 0 <= i < fewer.len() implies #[trigger] fewer[i] == entries[if i < at {
        i
    } else {
        i + 1
    }] by {}
    assert forall|i: int, j: int| 0 <= i < j < fewer.len() implies fewer[i].username@
        != fewer[j].username@ by {
        let a = if i < at { i } else { i + 1 };
        let b = if j < at { j } else { j + 1 };
        assert(entries[a].username@ != entries[b].username@);
    }
    assert forall|i: int, j: int| 0 <= i < j < fewer.len() implies fewer[i].data.chat_id
        != fewer[j].data.chat_id by {
        let a = if i < at { i } else { i + 1 };
        let b = if j < at { j } else { j + 1 };
        assert(entries[a].data.chat_id != entries[b].data.chat_id);
    }
    assert forall|name: Seq<char>| users_of(fewer).dom().contains(name) <==> shrunk.dom().contains(
        name,
    ) by {
        if has_name(fewer, name) {
            let i = choose|i: int| 0 <= i < fewer.len() && #[trigger] fewer[i].username@ == name;
            let a = if i < at { i } else { i + 1 };
            assert(entries[a].username@ == name);
            if a < at {
                assert(entries[a].username@ != entries[at].username@);
            } else {
                assert(entries[at].username@ != entries[a].username@);
            }
        }
        if has_name(entries, name) && name != gone {
            let a = choose|a: int|
                0 <= a < entries.len() && #[trigger] entries[a].username@ == name;
            let i = if a < at { a } else { a - 1 };
            assert(fewer[i].username@ == name);
        }
    }
    assert forall|name: Seq<char>| users_of(fewer).dom().contains(name) implies users_of(
        fewer,
    )[name] == shrunk[name] by {
        let i = choose|i: int| 0 <= i < fewer.len() && #[trigger] fewer[i].username@ == name;
        let a = if i < at { i } else { i + 1 };
        lemma_users_of_entry(fewer, i);
        lemma_users_of_entry(entries, a);
    }
    assert(users_of(fewer) =~= shrunk);
}

/// Replacing an entry by one of the same name and chat replaces what the
/// mapping holds under that name and keeps the entries distinct.
pub proof fn lemma_update(entries: Seq<UserEntry>, at: int, entry: UserEntry)
    requires
        names_distinct(entries),
        chats_distinct(entries),
        0 <= at < entries.len(),
        entry.username@ == entries[at].username@,
        entry.data.chat_id == entries[at].data.chat_id,
    ensures
        names_distinct(entries.update(at, entry)),
        chats_distinct(entries.update(at, entry)),
        users_of(entries.update(at, entry)) == users_of(entries).insert(
            entry.username@,
            entry.data,
        ),
{
    let changed = entries.update(at, entry);
    let expected = users_of(entries).insert(entry.username@, entry.data);
    assert forall|i: int, j: int| 0 <= i < j < changed.len() implies changed[i].username@
        != changed[j].username@ by {
        assert(entries[i].username@ != entries[j].username@);
    }
    assert forall|i: int, j: int| 0 <= i < j < changed.len() implies changed[i].data.chat_id
        != changed[j].data.chat_id by {
        assert(entries[i].data.chat_id != entries[j].data.chat_id);
    }
    assert forall|name: Seq<char>| users_of(changed).dom().contains(name)
        <==> expected.dom().contains(name) by {
        if has_name(changed, name) {
            let i = choose|i: int|
                0 <= i < changed.len() && #[trigger] changed[i].username@ == name;
            assert(entries[i].username@ == name);
        }
        if has_name(entries, name) {
            let i = choose|i: int|
                0 <= i < entries.len() && #[trigger] entries[i].username@ == name;
            assert(changed[i].username@ == name);
        }
        if name == entry.username@ {
            assert(changed[at].username@ == name);
        }
    }
    assert forall|name: Seq<char>| users_of(changed).dom().contains(name) implies users_of(
        changed,
    )[name] == expected[name] by {
        let i = choose|i: int| 0 <= i < changed.len() && #[trigger] changed[i].username@ == name;
        lemma_users_of_entry(changed, i);
        lemma_users_of_entry(entries, i);
        if i != at {
            if i < at {
                assert(entries[i].username@ != entries[at].username@);
            } else {
                assert(entries[at].username@ != entries[i].username@);
            }
        }
    }
    assert(users_of(changed) =~= expected);
}

} // verus!
