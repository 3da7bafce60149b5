//! What holds of the cache client in front of a store that carries out every
//! write and answers every read truthfully.
//!
//! A store that fails is outside these laws: a failed write changes nothing
//! that the client could vouch for, and a failed read is taken for absence.
//!
//! A value stands here as the text that the store keeps for it: itself where
//! it is text, its decimal form where it is a number. The command of an insert
//! is tied to that text by [`crate::store::Put::stored`].

use crate::cache::{delete_note, deleting, inserting, present, reading, value_read};
use crate::diagnostic::{deleted_text, DiagnosticView, Level};
use crate::store::{after, replay, truthful, Contents, WriteView};
use vstd::prelude::*;

verus! {

/// Round trip: once the store has carried out an insert of `value` under
/// `key`, `get` on `key` returns `value`, whatever the store held before.
/// For a value of any type, with `value` the text `text(v)` that the store
/// keeps for it, the insert's command `put` has `put.stored(text)` equal to
/// the write named here.
pub proof fn insert_then_get(contents: Contents, key: Seq<char>, value: Seq<char>)
    ensures
        value_read(
            truthful(after(contents, inserting(key, value)), reading(key)),
        ) == Some(value),
{
}

/// Deleting a key that is absent is no error and changes nothing: the store
/// holds what it held, the key is still absent, and what is logged for the
/// store's acknowledgement is the debug line of any delete.
pub proof fn delete_of_absent_key(contents: Contents, key: Seq<char>)
    requires
        !contents.dom().contains(key),
    ensures
        after(contents, deleting(key)) == contents,
        !after(contents, deleting(key)).dom().contains(key),
        value_read(truthful(after(contents, deleting(key)), reading(key)))
            is None,
        delete_note(key, Ok(())) == (DiagnosticView {
            level: Level::Debug,
            message: deleted_text(key),
        }),
{
    assert(after(contents, deleting(key)) =~= contents);
}

/// A key exists once the store has carried out an insert under it, whatever
/// the store held before.
pub proof fn exists_after_insert(contents: Contents, key: Seq<char>, value: Seq<char>)
    ensures
        present(
            truthful(after(contents, inserting(key, value)), reading(key)),
        ),
{
}

/// A key does not exist once the store has carried out a delete of it,
/// whatever the store held before.
pub proof fn absent_after_delete(contents: Contents, key: Seq<char>)
    ensures
        !present(truthful(after(contents, deleting(key)), reading(key))),
        value_read(truthful(after(contents, deleting(key)), reading(key)))
            is None,
{
}

/// Overwrite: of two inserts under one key that the store has carried out,
/// `get` returns the value of the later.
pub proof fn later_insert_wins(
    contents: Contents,
    key: Seq<char>,
    first: Seq<char>,
    second: Seq<char>,
)
    ensures
        value_read(
            truthful(
                after(
                    after(contents, inserting(key, first)),
                    inserting(key, second),
                ),
                reading(key),
            ),
        ) == Some(second),
{
}

/// Whether `write` is what an insert under `key` asks of the store, whatever
/// the value.
pub open spec fn inserts_under(write: WriteView, key: Seq<char>) -> bool {
    write matches WriteView::Put { key: written, value } && write == inserting(key, value)
}

/// Whether no write of `history` is an insert under `key`.
pub open spec fn never_inserted(history: Seq<WriteView>, key: Seq<char>) -> bool {
    forall|i: int| 0 <= i < history.len() ==> !inserts_under(#[trigger] history[i], key)
}

/// A store that was empty and carried out the writes of `history`, none of
/// them an insert under `key`, does not hold `key`.
pub proof fn never_inserted_is_absent(history: Seq<WriteView>, key: Seq<char>)
    requires
        never_inserted(history, key),
    ensures
        !replay(history).dom().contains(key),
    decreases history.len(),
{
    if history.len() > 0 {
        let earlier = history.drop_last();
        assert forall|i: int| 0 <= i < earlier.len() implies !inserts_under(
            #[trigger] earlier[i],
            key,
        ) by {
            assert(earlier[i] == history[i]);
        }
        never_inserted_is_absent(earlier, key);
        assert(!inserts_under(history[history.len() - 1], key));
    }
}

/// Absence on a fresh key: for a key that was never inserted, `get` returns
/// nothing and the key does not exist.
pub proof fn fresh_key_is_absent(history: Seq<WriteView>, key: Seq<char>)
    requires
        never_inserted(history, key),
    ensures
        value_read(truthful(replay(history), reading(key))) is None,
        !present(truthful(replay(history), reading(key))),
{
    never_inserted_is_absent(history, key);
}

} // verus!
