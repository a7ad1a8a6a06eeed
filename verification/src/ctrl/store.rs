use vstd::prelude::*;

use crate::text::{push_str, str_chars};

verus! {

broadcast use vstd::string::group_string_axioms;

/// Whether `c` may stand in the name of a session table: an ASCII letter or digit,
/// `-` or `_`.
pub open spec fn is_table_char(c: char) -> bool {
    ('a' <= c && c <= 'z') || ('A' <= c && c <= 'Z') || ('0' <= c && c <= '9') || c == '-' || c == '_'
}

/// A table name is valid when it is not empty and each of its characters may stand in it.
pub open spec fn valid_table_name(s: Seq<char>) -> bool {
    s.len() > 0 && forall|i: int| 0 <= i < s.len() ==> is_table_char(#[trigger] s[i])
}

/// Whether `name` may name the session table.
pub fn is_valid_table_name(name: &str) -> (r: bool)
    ensures
        r == valid_table_name(name@),
{
    let cs = str_chars(name);
    if cs.len() == 0 {
        return false;
    }
    for i in 0..cs.len()
        invariant
            cs@ == name@,
            forall|j: int| 0 <= j < i ==> is_table_char(#[trigger] cs@[j]),
    {
        let c = cs[i];
        let ok = ('a' <= c && c <= 'z') || ('A' <= c && c <= 'Z') || ('0' <= c && c <= '9') || c == '-' || c
            == '_';
        if !ok {
            assert(!is_table_char(cs@[i as int]));
            return false;
        }
    }
    true
}

/// Why the session store failed. The sources of outside failures are held as their
/// messages.
#[derive(Clone, Debug)]
pub enum Error {
    Execute { source: String },
    InvalidTable { table_name: String },
    EncodeSession { source: String },
    DecodeSession { source: String },
    ConvertToString { source: String },
}

impl Error {
    /// The message that describes the failure.
    pub fn message(&self) -> (r: String)
        ensures
            r@ == match self {
                Error::Execute { source } => "Execute failed: "@ + source@,
                Error::InvalidTable { table_name } => "Invalid table name '"@ + table_name@
                    + "'. Table names must be alphanumeric and may contain hyphens or underscores."@,
                Error::EncodeSession { source } => "Encode session failed: "@ + source@,
                Error::DecodeSession { source } => "Decode session failed: "@ + source@,
                Error::ConvertToString { source } => "Converts a vector of bytes to a String failed: "@
                    + source@,
            },
    {
        let mut r = String::new();
        match self {
            Error::Execute { source } => {
                push_str(&mut r, "Execute failed: ");
                push_str(&mut r, source.as_str());
            },
            Error::InvalidTable { table_name } => {
                push_str(&mut r, "Invalid table name '");
                push_str(&mut r, table_name.as_str());
                push_str(
                    &mut r,
                    "'. Table names must be alphanumeric and may contain hyphens or underscores.",
                );
            },
            Error::EncodeSession { source } => {
                push_str(&mut r, "Encode session failed: ");
                push_str(&mut r, source.as_str());
            },
            Error::DecodeSession { source } => {
                push_str(&mut r, "Decode session failed: ");
                push_str(&mut r, source.as_str());
            },
            Error::ConvertToString { source } => {
                push_str(&mut r, "Converts a vector of bytes to a String failed: ");
                push_str(&mut r, source.as_str());
            },
        }
        r
    }
}

/// The table in which the session store keeps its sessions, and the statements that
/// it runs on it.
#[derive(Clone, Debug)]
pub struct SessionTable {
    table_name: String,
}

/// `first`, then the table name, then `last`.
fn around(first: &str, table: &str, last: &str) -> (r: String)
    ensures
        r@ == first@ + table@ + last@,
{
    let mut r = String::new();
    push_str(&mut r, first);
    push_str(&mut r, table);
    push_str(&mut r, last);
    r
}

impl SessionTable {
    /// The name of the table.
    pub closed spec fn name(&self) -> Seq<char> {
        self.table_name@
    }

    /// The table `sessions`.
    pub fn new() -> (r: Self)
        ensures
            r.name() == "sessions"@,
    {
        SessionTable { table_name: "sessions".to_string() }
    }

    /// The table name.
    pub fn table_name(&self) -> (r: &str)
        ensures
            r@ == self.name(),
    {
        self.table_name.as_str()
    }

    /// The store with its table renamed to `table_name`, when that is a valid name.
    pub fn with_table_name(self, table_name: &str) -> (r: Result<Self, Error>)
        ensures
            valid_table_name(table_name@) ==> (r matches Ok(t) && t.name() == table_name@),
            !valid_table_name(table_name@) ==> (r matches Err(Error::InvalidTable { table_name: n })
                && n@ == table_name@),
    {
        if !is_valid_table_name(table_name) {
            return Err(Error::InvalidTable { table_name: table_name.to_string() });
        }
        Ok(SessionTable { table_name: table_name.to_string() })
    }

    /// The statement that creates the table when it does not exist.
    pub fn migrate_sql(&self) -> (r: String)
        ensures
            r@ == "\n            create table if not exists "@ + self.name()
                + "\n            (\n                id text primary key not null,\n                data blob not null,\n                expiry_date integer not null\n            )\n            "@,
    {
        around(
            "\n            create table if not exists ",
            self.table_name.as_str(),
            "\n            (\n                id text primary key not null,\n                data blob not null,\n                expiry_date integer not null\n            )\n            ",
        )
    }

    /// The statement that deletes the sessions that have expired.
    pub fn delete_expired_sql(&self) -> (r: String)
        ensures
            r@ == "\n            delete from "@ + self.name()
                + "\n            where expiry_date < datetime('now', 'utc')\n            "@,
    {
        around(
            "\n            delete from ",
            self.table_name.as_str(),
            "\n            where expiry_date < datetime('now', 'utc')\n            ",
        )
    }

    /// The statement that stores a session (id, data, expiry date), replacing the one
    /// with the same id.
    pub fn save_sql(&self) -> (r: String)
        ensures
            r@ == "\n            insert into "@ + self.name()
                + "\n              (id, data, expiry_date) values (?, ?, ?)\n            on conflict(id) do update set\n              data = excluded.data,\n              expiry_date = excluded.expiry_date\n            "@,
    {
        around(
            "\n            insert into ",
            self.table_name.as_str(),
            "\n              (id, data, expiry_date) values (?, ?, ?)\n            on conflict(id) do update set\n              data = excluded.data,\n              expiry_date = excluded.expiry_date\n            ",
        )
    }

    /// The statement that reads the data of a session (id, now) that has not expired.
    pub fn load_sql(&self) -> (r: String)
        ensures
            r@ == "\n            select data from "@ + self.name()
                + "\n            where id = ? and expiry_date > ?\n            "@,
    {
        around(
            "\n            select data from ",
            self.table_name.as_str(),
            "\n            where id = ? and expiry_date > ?\n            ",
        )
    }

    /// The statement that deletes a session (id).
    pub fn delete_sql(&self) -> (r: String)
        ensures
            r@ == "\n            delete from "@ + self.name() + " where id = ?\n            "@,
    {
        around("\n            delete from ", self.table_name.as_str(), " where id = ?\n            ")
    }
}

/// Where the loading of a session stands between two pieces of outside work.
pub enum LoadState {
    /// The session is to be looked up in memory.
    AwaitCache,
    /// The stored row is to be read.
    AwaitRow,
    /// The stored data is to be decoded.
    AwaitDecode,
    /// The decoded session is to be kept in memory.
    AwaitSaved,
    /// The answer has been given.
    Done,
}

/// What the outside work of a load brought back.
pub enum LoadEvent<S> {
    /// The session kept in memory, if the lookup found one.
    Cached(Option<S>),
    /// The data of the stored row that has not expired, if a row was read; `Err` with
    /// the message when the query failed.
    Queried(Result<Option<Vec<u8>>, String>),
    /// The session that the data decodes to, or the message of the failure.
    Decoded(Result<S, String>),
    /// The session, kept in memory (whether or not that worked).
    Saved(S),
}

/// The outside work that a load asks for next.
pub enum LoadAction<S> {
    /// Look the session up in memory.
    LookUpCache,
    /// Run this query with the session's id and the time now.
    Query(String),
    /// Decode these bytes as a session.
    Decode(Vec<u8>),
    /// Keep this session in memory.
    SaveCache(S),
    /// Answer.
    Reply(Result<Option<S>, Error>),
}

/// How a load begins: by looking in memory.
pub fn load_start<S>() -> (r: (LoadState, LoadAction<S>))
    ensures
        r.0 is AwaitCache,
        r.1 is LookUpCache,
{
    (LoadState::AwaitCache, LoadAction::LookUpCache)
}

/// Whether `event` answers the work that `state` waits for.
pub open spec fn load_event_fits<S>(state: LoadState, event: LoadEvent<S>) -> bool {
    match (state, event) {
        (LoadState::AwaitCache, LoadEvent::Cached(_)) => true,
        (LoadState::AwaitRow, LoadEvent::Queried(_)) => true,
        (LoadState::AwaitDecode, LoadEvent::Decoded(_)) => true,
        (LoadState::AwaitSaved, LoadEvent::Saved(_)) => true,
        _ => false,
    }
}

impl SessionTable {
    /// The next step of loading a session from this table.
    ///
    /// - Found in memory: that session is the answer; the table is not read.
    /// - Not in memory: the row that has not expired is queried with `load_sql`.
    /// - The query failed: the answer is `Execute` with its message.
    /// - No such row (or its data is no blob): the answer is no session.
    /// - Data read: it is decoded; a failure is `DecodeSession` with its message.
    /// - Decoded: the session is kept in memory, then it is the answer.
    pub fn load_step<S>(&self, state: LoadState, event: LoadEvent<S>) -> (r: (LoadState, LoadAction<S>))
        requires
            load_event_fits(state, event),
        ensures
            match (state, event) {
                (LoadState::AwaitCache, LoadEvent::Cached(Some(s))) => r.0 is Done && r.1 == LoadAction::Reply(
                    Ok::<Option<S>, Error>(Some(s)),
                ),
                (LoadState::AwaitCache, LoadEvent::Cached(None)) => r.0 is AwaitRow && (r.1 matches LoadAction::Query(
                    q,
                ) && q@ == "\n            select data from "@ + self.name()
                    + "\n            where id = ? and expiry_date > ?\n            "@),
                (LoadState::AwaitRow, LoadEvent::Queried(Err(e))) => r.0 is Done && (r.1 matches LoadAction::Reply(
                    Err(Error::Execute { source }),
                ) && source == e),
                (LoadState::AwaitRow, LoadEvent::Queried(Ok(None))) => r.0 is Done && r.1 == LoadAction::Reply(
                    Ok::<Option<S>, Error>(None),
                ),
                (LoadState::AwaitRow, LoadEvent::Queried(Ok(Some(data)))) => r.0 is AwaitDecode && r.1
                    == LoadAction::<S>::Decode(data),
                (LoadState::AwaitDecode, LoadEvent::Decoded(Err(e))) => r.0 is Done && (r.1 matches LoadAction::Reply(
                    Err(Error::DecodeSession { source }),
                ) && source == e),
                (LoadState::AwaitDecode, LoadEvent::Decoded(Ok(s))) => r.0 is AwaitSaved && r.1 == LoadAction::SaveCache(s),
                (LoadState::AwaitSaved, LoadEvent::Saved(s)) => r.0 is Done && r.1 == LoadAction::Reply(
                    Ok::<Option<S>, Error>(Some(s)),
                ),
                _ => false,
            },
    {
        match state {
            LoadState::AwaitCache => match event {
                LoadEvent::Cached(Some(s)) => (LoadState::Done, LoadAction::Reply(Ok(Some(s)))),
                LoadEvent::Cached(None) => (LoadState::AwaitRow, LoadAction::Query(self.load_sql())),
                _ => vstd::pervasive::unreached(),
            },
            LoadState::AwaitRow => match event {
                LoadEvent::Queried(Err(e)) => (LoadState::Done, LoadAction::Reply(Err(Error::Execute { source: e }))),
                LoadEvent::Queried(Ok(None)) => (LoadState::Done, LoadAction::Reply(Ok(None))),
                LoadEvent::Queried(Ok(Some(data))) => (LoadState::AwaitDecode, LoadAction::Decode(data)),
                _ => vstd::pervasive::unreached(),
            },
            LoadState::AwaitDecode => match event {
                LoadEvent::Decoded(Err(e)) => (
                    LoadState::Done,
                    LoadAction::Reply(Err(Error::DecodeSession { source: e })),
                ),
                LoadEvent::Decoded(Ok(s)) => (LoadState::AwaitSaved, LoadAction::SaveCache(s)),
                _ => vstd::pervasive::unreached(),
            },
            LoadState::AwaitSaved => match event {
                LoadEvent::Saved(s) => (LoadState::Done, LoadAction::Reply(Ok(Some(s)))),
                _ => vstd::pervasive::unreached(),
            },
            LoadState::Done => vstd::pervasive::unreached(),
        }
    }
}

} // verus!
