//! The cache client: how one comes to be, which command each operation has the
//! store carry out, and what the caller receives for the store's reply.

use crate::diagnostic::{
    added_text, around_key, connect_failed_text, deleted_text, not_found_text, open_failed_text,
    Diagnostic, DiagnosticView, Level,
};
use crate::store::{
    read_reply_view, write_reply_view, Del, Put, Read, ReadReply, ReadView, StoreError,
    StoreErrorView, WriteReply, WriteView,
};
use vstd::prelude::*;
use vstd::string::*;

verus! {

/// `redis::Client`: an address that the store's client has accepted. Nothing
/// of it is read here; it is handed on to whoever connects.
#[verifier::external_type_specification]
#[verifier::external_body]
pub struct ExClient(redis::Client);

/// Whether `redis::Client::open` accepts `address`. The outside crate decides
/// this from the text of the address alone: it parses the address and reads
/// nothing else.
pub uninterp spec fn address_accepted(address: Seq<char>) -> bool;

/// `redis::Client::open` on an address given as a string. The outside crate
/// checks the address and connects to nothing. It gives a client exactly for
/// the addresses that it accepts; which those are is left to it.
#[verifier::external_body]
fn open_client(redis_address: String) -> (opened: Result<redis::Client, redis::RedisError>)
    ensures
        opened is Ok <==> address_accepted(redis_address@),
{
    redis::Client::open(redis_address)
}

/// Why a client cannot be had: the line to log, and the words to stop with.
#[derive(Clone, Debug, PartialEq, Eq)]
pub struct Fatal {
    pub note: Diagnostic,
    pub reason: String,
}

/// A [`Fatal`] as mathematical text.
pub ghost struct FatalView {
    pub note: DiagnosticView,
    pub reason: Seq<char>,
}

impl View for Fatal {
    type V = FatalView;

    open spec fn view(&self) -> FatalView {
        FatalView { note: self.note@, reason: self.reason@ }
    }
}

impl Fatal {
    /// The end of an attempt whose address the store's client did not accept,
    /// for the reason that the client gave.
    pub open spec fn refused_view(reason: Seq<char>) -> FatalView {
        FatalView {
            note: DiagnosticView { level: Level::Error, message: open_failed_text() },
            reason,
        }
    }

    /// The end of an attempt that did not reach the store, for the reason that
    /// the client gave.
    pub open spec fn unreachable_view(reason: Seq<char>) -> FatalView {
        FatalView {
            note: DiagnosticView { level: Level::Error, message: connect_failed_text() },
            reason,
        }
    }

    /// What to log and to stop with when the address was not accepted: an error
    /// line that says so, and the failure's own description.
    pub fn refused(error: StoreError) -> (fatal: Fatal)
        ensures
            fatal@ == Fatal::refused_view(error.detail@),
    {
        Fatal {
            note: Diagnostic::new(Level::Error, String::from_str("Could not open Redis Service.")),
            reason: error.detail,
        }
    }

    /// What to log and to stop with when the store was not reached: an error
    /// line that says so, and the failure's own description.
    pub fn unreachable(error: StoreError) -> (fatal: Fatal)
        ensures
            fatal@ == Fatal::unreachable_view(error.detail@),
    {
        Fatal {
            note: Diagnostic::new(
                Level::Error,
                String::from_str("Could not connect with Redis Service."),
            ),
            reason: error.detail,
        }
    }
}

/// Has the store's client check `redis_address`, and connects to nothing. The
/// result is a client exactly where the store's client accepts the address.
/// An address that it does not accept ends the attempt: the result is then the
/// error line to log and the client's own account of the fault.
pub fn open(redis_address: &str) -> (opened: Result<redis::Client, Fatal>)
    ensures
        opened is Ok <==> address_accepted(redis_address@),
        opened matches Err(fatal) ==> fatal@ == Fatal::refused_view(fatal.reason@),
{
    match open_client(String::from_str(redis_address)) {
        Ok(client) => Ok(client),
        Err(error) => Err(Fatal::refused(StoreError::from_redis(&error))),
    }
}

/// The write that an insert under `key` asks of the store, with `value` the
/// text that the store keeps for the inserted value.
pub open spec fn inserting(key: Seq<char>, value: Seq<char>) -> WriteView {
    WriteView::Put { key, value }
}

/// The write that a delete of `key` asks of the store.
pub open spec fn deleting(key: Seq<char>) -> WriteView {
    WriteView::Del { key }
}

/// The read that `key_exists` and `get` ask of the store for `key`.
pub open spec fn reading(key: Seq<char>) -> ReadView {
    ReadView { key }
}

/// The line to log for the store's reply to an insert of `key`.
pub open spec fn insert_note(key: Seq<char>, reply: Result<(), StoreErrorView>) -> DiagnosticView {
    match reply {
        Ok(()) => DiagnosticView { level: Level::Debug, message: added_text(key) },
        Err(error) => DiagnosticView { level: Level::Error, message: error.category },
    }
}

/// The line to log for the store's reply to a delete of `key`.
pub open spec fn delete_note(key: Seq<char>, reply: Result<(), StoreErrorView>) -> DiagnosticView {
    match reply {
        Ok(()) => DiagnosticView { level: Level::Debug, message: deleted_text(key) },
        Err(error) => DiagnosticView { level: Level::Error, message: error.category },
    }
}

/// Whether the store's reply to a read shows a value.
pub open spec fn present(reply: Result<Option<Seq<char>>, StoreErrorView>) -> bool {
    reply matches Ok(Some(_))
}

/// The value that the store's reply to a read shows, if it shows one.
pub open spec fn value_read(reply: Result<Option<Seq<char>>, StoreErrorView>) -> Option<Seq<char>> {
    match reply {
        Ok(found) => found,
        Err(_) => None,
    }
}

/// The lines to log for the store's reply to a read of `key`, in the order in
/// which they are logged: none for a read that was answered, and for a read
/// that failed two warnings, the failure's description and a line that names
/// the key.
pub open spec fn read_notes(key: Seq<char>, reply: Result<Option<Seq<char>>, StoreErrorView>)
    -> Seq<DiagnosticView> {
    match reply {
        Ok(_) => Seq::empty(),
        Err(error) => seq![
            DiagnosticView { level: Level::Warn, message: error.detail },
            DiagnosticView { level: Level::Warn, message: not_found_text(key) },
        ],
    }
}

/// The lines to log for a reply to a read of `key`.
fn notes_of_read(key: &str, reply: &ReadReply) -> (notes: Vec<Diagnostic>)
    ensures
        notes.deep_view() == read_notes(key@, read_reply_view(*reply)),
{
    let mut notes: Vec<Diagnostic> = Vec::new();
    match reply {
        Ok(_) => {},
        Err(error) => {
            notes.push(Diagnostic::new(Level::Warn, error.detail.clone()));
            notes.push(
                Diagnostic::new(Level::Warn, around_key("Key ", key, " Not found in Cache.")),
            );
        },
    }
    notes
}

/// A client of one remote key-value store. It exists only for an address that
/// the store's client accepts and a connection that was made, and it owns
/// that connection, of whatever type `C` the connection is.
pub struct Cache<C> {
    address: String,
    connection: C,
}

impl<C> Cache<C> {
    /// The address of the store.
    pub closed spec fn address(&self) -> Seq<char> {
        self.address@
    }

    /// The connection that this client owns.
    pub closed spec fn held(&self) -> C {
        self.connection
    }

    /// What an attempt that makes no client ends with, for the reason given: an
    /// address that is not accepted could not be opened, whatever became of the
    /// connection; an accepted address whose store was not reached could not
    /// be connected to, and the reason is then the failure's description.
    pub open spec fn failure(
        redis_address: Seq<char>,
        attempt: Result<C, StoreError>,
        reason: Seq<char>,
    ) -> FatalView {
        match attempt {
            Err(error) if address_accepted(redis_address) => Fatal::unreachable_view(
                error.detail@,
            ),
            _ => Fatal::refused_view(reason),
        }
    }

    /// Settles an attempt to connect: a connection that was made is handed on
    /// as it is; a failure ends the attempt with the error line to log and the
    /// failure's description.
    pub fn get_connection(attempt: Result<C, StoreError>) -> (settled: Result<C, Fatal>)
        ensures
            attempt matches Ok(connection) ==> settled == Ok::<C, Fatal>(connection),
            attempt matches Err(error) ==> (settled matches Err(fatal) && fatal@
                == Fatal::unreachable_view(error.detail@)),
    {
        match attempt {
            Ok(connection) => Ok(connection),
            Err(error) => Err(Fatal::unreachable(error)),
        }
    }

    /// Makes the client for the store at `redis_address` from an attempt to
    /// connect to it. There is a client exactly where the store's client
    /// accepts the address and the connection was made; the client then owns
    /// that connection. Otherwise the result is what to log and to stop with:
    /// for an address that is not accepted, that it could not be opened; else,
    /// for a store that was not reached, that it could not be connected to.
    pub fn new(redis_address: String, attempt: Result<C, StoreError>) -> (made: Result<
        Cache<C>,
        Fatal,
    >)
        ensures
            made is Ok <==> address_accepted(redis_address@) && attempt is Ok,
            made matches Ok(cache) ==> cache.address() == redis_address@ && attempt == Ok::<
                C,
                StoreError,
            >(cache.held()),
            made matches Err(fatal) ==> fatal@ == Cache::<C>::failure(
                redis_address@,
                attempt,
                fatal.reason@,
            ),
    {
        match open(redis_address.as_str()) {
            Ok(_) => match Cache::get_connection(attempt) {
                Ok(connection) => Ok(Cache { address: redis_address, connection }),
                Err(fatal) => Err(fatal),
            },
            Err(fatal) => Err(fatal),
        }
    }

    /// The connection, for whoever carries a command out on it. The client
    /// keeps the connection as the borrower leaves it, and its address.
    pub fn connection(&mut self) -> (held: &mut C)
        ensures
            *held == old(self).held(),
            final(self).held() == *final(held),
            final(self).address() == old(self).address(),
    {
        &mut self.connection
    }

    /// Inserts `value` under `key`: the one command for the store is the put
    /// of this value under this key, over whatever the key held, with no
    /// expiry. The value is handed on as it is.
    pub fn insert<V>(&self, key: &str, value: V) -> (put: Put<V>)
        ensures
            put.key@ == key@,
            put.value == value,
            forall|text: spec_fn(V) -> Seq<char>| #[trigger]
                put.stored(text) == inserting(key@, text(value)),
    {
        Put { key: String::from_str(key), value }
    }

    /// What becomes of the store's reply to an insert of `key`: it is logged
    /// and nothing else. Success is a debug line that names the key; a failure
    /// is an error line that holds the failure's category, and the caller of
    /// the insert is told nothing.
    pub fn inserted(&self, key: &str, reply: WriteReply) -> (note: Diagnostic)
        ensures
            note@ == insert_note(key@, write_reply_view(reply)),
    {
        match reply {
            Ok(()) => Diagnostic::new(Level::Debug, around_key("Key '", key, "' added to Redis.")),
            Err(error) => Diagnostic::new(Level::Error, error.category),
        }
    }

    /// Deletes `key`: the one command for the store is the removal of the key.
    pub fn delete(&self, key: &str) -> (del: Del)
        ensures
            del@ == deleting(key@),
    {
        Del { key: String::from_str(key) }
    }

    /// What becomes of the store's reply to a delete of `key`: it is logged
    /// and nothing else. Success is a debug line that names the key; a failure
    /// is an error line that holds the failure's category, and the caller of
    /// the delete is told nothing.
    pub fn deleted(&self, key: &str, reply: WriteReply) -> (note: Diagnostic)
        ensures
            note@ == delete_note(key@, write_reply_view(reply)),
    {
        match reply {
            Ok(()) => Diagnostic::new(
                Level::Debug,
                around_key("Key '", key, "' delete from Redis."),
            ),
            Err(error) => Diagnostic::new(Level::Error, error.category),
        }
    }

    /// The one command behind `key_exists` and behind `get`: a read of `key`.
    pub fn read(&self, key: &str) -> (read: Read)
        ensures
            read@ == reading(key@),
    {
        Read { key: String::from_str(key) }
    }

    /// Whether `key` has a value, going by the store's reply to the read, with
    /// the lines to log. The key exists where the reply shows a value; it does
    /// not where the reply shows none, nor where the read failed. A failed
    /// read is logged as two warnings, the failure's description and then a
    /// line that names the key; the caller cannot tell it from absence.
    pub fn key_exists(&self, key: &str, reply: ReadReply) -> (found: (bool, Vec<Diagnostic>))
        ensures
            found.0 == present(read_reply_view(reply)),
            found.1.deep_view() == read_notes(key@, read_reply_view(reply)),
    {
        let notes = notes_of_read(key, &reply);
        match reply {
            Ok(Some(_)) => (true, notes),
            Ok(None) => (false, notes),
            Err(_) => (false, notes),
        }
    }

    /// The value of `key`, going by the store's reply to the read, with the
    /// lines to log. A reply that shows a value gives that value, one that
    /// shows none gives none, and neither is logged. A failed read gives no
    /// value either; it is logged as two warnings, the failure's description
    /// and then a line that names the key.
    pub fn get(&self, key: &str, reply: ReadReply) -> (got: (Option<String>, Vec<Diagnostic>))
        ensures
            got.0.deep_view() == value_read(read_reply_view(reply)),
            got.1.deep_view() == read_notes(key@, read_reply_view(reply)),
    {
        let notes = notes_of_read(key, &reply);
        match reply {
            Ok(found) => (found, notes),
            Err(_) => (None, notes),
        }
    }
}

/// What is reported of a key after a read: that it was found, or that it was
/// not.
pub open spec fn check_text(found: bool) -> Seq<char> {
    if found {
        "Key Found."@
    } else {
        "Key Not Found."@
    }
}

/// The report on `key`, going by the store's reply to the read: found where
/// `conn` takes the key to exist, not found otherwise; with it the lines that
/// `conn` has logged for the reply.
pub fn check_key<C>(conn: &Cache<C>, key: &str, reply: ReadReply) -> (report: (
    &'static str,
    Vec<Diagnostic>,
))
    ensures
        report.0@ == check_text(present(read_reply_view(reply))),
        report.1.deep_view() == read_notes(key@, read_reply_view(reply)),
{
    let (found, notes) = conn.key_exists(key, reply);
    if found {
        ("Key Found.", notes)
    } else {
        ("Key Not Found.", notes)
    }
}

} // verus!
