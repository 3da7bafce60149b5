//! The vocabulary exchanged with the remote store, and a model of what a store
//! holds.

use vstd::prelude::*;

verus! {

/// `redis::RedisError`: a failure as the store's client reports it. Nothing of
/// it is read here but through the two functions below.
#[verifier::external_type_specification]
#[verifier::external_body]
pub struct ExRedisError(redis::RedisError);

/// Why the store did not carry out a command.
pub struct StoreError {
    /// The broad class of the failure.
    pub category: String,
    /// The full text of the failure.
    pub detail: String,
}

/// A [`StoreError`] as mathematical text.
pub ghost struct StoreErrorView {
    pub category: Seq<char>,
    pub detail: Seq<char>,
}

impl View for StoreError {
    type V = StoreErrorView;

    open spec fn view(&self) -> StoreErrorView {
        StoreErrorView { category: self.category@, detail: self.detail@ }
    }
}

/// `redis::RedisError::category`, as an owned string. The outside crate picks
/// the text from the kind of the error; nothing is claimed of it here.
#[verifier::external_body]
fn category_of(error: &redis::RedisError) -> (category: String) {
    error.category().to_string()
}

/// The `Display` text of a `redis::RedisError`. Nothing is claimed of it here.
#[verifier::external_body]
fn detail_of(error: &redis::RedisError) -> (detail: String) {
    error.to_string()
}

impl StoreError {
    /// Keeps of a failure of the store's client the two texts that this crate
    /// reads: its category and its full description.
    pub fn from_redis(error: &redis::RedisError) -> (converted: StoreError) {
        StoreError { category: category_of(error), detail: detail_of(error) }
    }
}

/// A change to what the store holds, with the value as the text that the
/// store keeps for it.
pub ghost enum WriteView {
    /// `value` is under `key` from now on, whatever the key held. The entry
    /// carries no expiry.
    Put { key: Seq<char>, value: Seq<char> },
    /// `key` is gone; a key that was not there is left as it was.
    Del { key: Seq<char> },
}

/// The command that puts `value` under `key`, replacing whatever the key held,
/// with no expiry. The value is of any type that the store's client can
/// encode; this crate hands it on and does not look into it.
#[derive(Clone, Debug, PartialEq, Eq)]
pub struct Put<V> {
    pub key: String,
    pub value: V,
}

impl<V> Put<V> {
    /// What this command does to the store, where `text` says as which text
    /// the store keeps a value.
    pub open spec fn stored(self, text: spec_fn(V) -> Seq<char>) -> WriteView {
        WriteView::Put { key: self.key@, value: text(self.value) }
    }
}

/// The command that removes `key`; a key that is not there is left as it is.
#[derive(Clone, Debug, PartialEq, Eq)]
pub struct Del {
    pub key: String,
}

impl View for Del {
    type V = WriteView;

    open spec fn view(&self) -> WriteView {
        WriteView::Del { key: self.key@ }
    }
}

/// A question put to the store: what does `key` hold now?
#[derive(Clone, Debug, PartialEq, Eq)]
pub struct Read {
    pub key: String,
}

/// A [`Read`] as mathematical text.
pub ghost struct ReadView {
    pub key: Seq<char>,
}

impl View for Read {
    type V = ReadView;

    open spec fn view(&self) -> ReadView {
        ReadView { key: self.key@ }
    }
}

/// What the store answers to a [`Put`] or a [`Del`]: done, or the reason why
/// not.
pub type WriteReply = Result<(), StoreError>;

/// What the store answers to a [`Read`]: the value under the key, if the key
/// holds one, or the reason why the store could not say.
pub type ReadReply = Result<Option<String>, StoreError>;

/// A [`WriteReply`] as mathematical text.
pub open spec fn write_reply_view(reply: WriteReply) -> Result<(), StoreErrorView> {
    match reply {
        Ok(()) => Ok(()),
        Err(error) => Err(error@),
    }
}

/// A [`ReadReply`] as mathematical text.
pub open spec fn read_reply_view(reply: ReadReply) -> Result<Option<Seq<char>>, StoreErrorView> {
    match reply {
        Ok(Some(value)) => Ok(Some(value@)),
        Ok(None) => Ok(None),
        Err(error) => Err(error@),
    }
}

/// What a store holds: a value for each key that is present.
pub type Contents = Map<Seq<char>, Seq<char>>;

/// The contents of a store that held `contents` and carried out `write`.
pub open spec fn after(contents: Contents, write: WriteView) -> Contents {
    match write {
        WriteView::Put { key, value } => contents.insert(key, value),
        WriteView::Del { key } => contents.remove(key),
    }
}

/// What a store that holds `contents` has under the key that `read` asks for.
pub open spec fn answer(contents: Contents, read: ReadView) -> Option<Seq<char>> {
    if contents.dom().contains(read.key) {
        Some(contents[read.key])
    } else {
        None
    }
}

/// The reply of a store that holds `contents` and answers `read` truthfully.
pub open spec fn truthful(contents: Contents, read: ReadView) -> Result<
    Option<Seq<char>>,
    StoreErrorView,
> {
    Ok(answer(contents, read))
}

/// The contents of a store that was empty and carried out the writes of
/// `history`, the earliest first.
pub open spec fn replay(history: Seq<WriteView>) -> Contents
    decreases history.len(),
{
    if history.len() == 0 {
        Map::empty()
    } else {
        after(replay(history.drop_last()), history.last())
    }
}

} // verus!
