//! What a logger needs from this crate to lay out its lines: the severity
//! threshold that a word stands for, and the padding that lines up the
//! severities.

use vstd::prelude::*;
use vstd::string::*;
use vstd::utf8::*;

verus! {

/// The least severity that a logger lets through, or `Off` for none.
#[derive(Clone, Copy, Debug, PartialEq, Eq)]
pub enum LevelFilter {
    Off,
    Error,
    Warn,
    Info,
    Debug,
}

/// The lowercase form of a text, as `str::to_lowercase` gives it.
pub uninterp spec fn lowercase(text: Seq<char>) -> Seq<char>;

/// `str::to_lowercase`: the lowercase form of `text` as a new string.
#[verifier::external_body]
fn lowered(text: &str) -> (lower: String)
    ensures
        lower@ == lowercase(text@),
{
    text.to_lowercase()
}

/// The threshold that `name` stands for, if it is one of the five words that
/// stand for one.
pub open spec fn level_filter_named(name: Seq<char>) -> Option<LevelFilter> {
    if name == "off"@ {
        Some(LevelFilter::Off)
    } else if name == "error"@ {
        Some(LevelFilter::Error)
    } else if name == "warn"@ {
        Some(LevelFilter::Warn)
    } else if name == "info"@ {
        Some(LevelFilter::Info)
    } else if name == "debug"@ {
        Some(LevelFilter::Debug)
    } else {
        None
    }
}

/// Whether two strings hold the same text.
fn same_text(left: &str, right: &str) -> (same: bool)
    ensures
        same == (left@ == right@),
{
    String::from_str(left) == String::from_str(right)
}

/// The threshold that a word in lower case stands for: `off`, `error`, `warn`,
/// `info` and `debug` stand for one each, and no other word does.
pub fn find_level_filter(name: &str) -> (found: Option<LevelFilter>)
    ensures
        found == level_filter_named(name@),
{
    if same_text(name, "off") {
        Some(LevelFilter::Off)
    } else if same_text(name, "error") {
        Some(LevelFilter::Error)
    } else if same_text(name, "warn") {
        Some(LevelFilter::Warn)
    } else if same_text(name, "info") {
        Some(LevelFilter::Info)
    } else if same_text(name, "debug") {
        Some(LevelFilter::Debug)
    } else {
        None
    }
}

/// The threshold that a word stands for in whatever case it is written. The
/// word must be one that stands for a threshold.
pub fn get_level_filter(input_level_filter: &str) -> (filter: LevelFilter)
    requires
        level_filter_named(lowercase(input_level_filter@)) is Some,
    ensures
        level_filter_named(lowercase(input_level_filter@)) == Some(filter),
{
    let lower = lowered(input_level_filter);
    find_level_filter(lower.as_str()).unwrap()
}

/// The threshold that a word stands for in whatever case it is written, or
/// nothing where the word stands for none.
pub fn try_level_filter(input_level_filter: &str) -> (found: Option<LevelFilter>)
    ensures
        found == level_filter_named(lowercase(input_level_filter@)),
{
    let lower = lowered(input_level_filter);
    if find_level_filter(lower.as_str()).is_some() {
        Some(get_level_filter(input_level_filter))
    } else {
        None
    }
}

/// The width, in bytes, to which the name of a severity is padded.
pub const LENGTH: usize = 5;

/// How many spaces bring a name of `level`'s length in bytes up to
/// [`LENGTH`]: none for a name that is as long or longer.
pub open spec fn missing(level: Seq<char>) -> nat {
    if encode_utf8(level).len() < LENGTH {
        (LENGTH - encode_utf8(level).len()) as nat
    } else {
        0
    }
}

/// `count` spaces.
pub open spec fn spaces(count: nat) -> Seq<char> {
    Seq::new(count, |i: int| ' ')
}

/// The spaces that go before the name of a severity, so that names of up to
/// [`LENGTH`] bytes end in the same column.
pub fn fill_with_spaces(level: &String) -> (padding: String)
    ensures
        padding@ == spaces(missing(level@)),
{
    let mut level_length: usize = level.as_str().as_bytes().len();
    let mut padding = String::from_str("");
    proof {
        reveal_strlit("");
        assert(padding@ =~= spaces(0));
    }
    while level_length < LENGTH
        invariant
            encode_utf8(level@).len() <= level_length,
            level_length <= LENGTH || level_length == encode_utf8(level@).len(),
            padding@ == spaces((level_length - encode_utf8(level@).len()) as nat),
        decreases LENGTH - level_length,
    {
        padding.append(" ");
        level_length = level_length + 1;
        proof {
            reveal_strlit(" ");
            assert(padding@ =~= spaces((level_length - encode_utf8(level@).len()) as nat));
        }
    }
    padding
}

/// For a name made of ASCII characters, the spaces that are missing are counted
/// in characters: as many as the name falls short of [`LENGTH`].
pub proof fn missing_of_ascii(level: Seq<char>)
    requires
        is_ascii_chars(level),
    ensures
        missing(level) == if level.len() < LENGTH {
            LENGTH - level.len()
        } else {
            0
        },
{
    is_ascii_chars_encode_utf8(level);
}

/// One line of the log: the padding for the severity's name, the name as it
/// is to be shown, a colon and a space, and the message.
pub fn format_record(level: &String, shown_level: &str, message: &str) -> (line: String)
    ensures
        line@ == spaces(missing(level@)) + shown_level@ + ": "@ + message@,
{
    let mut line = fill_with_spaces(level);
    line.append(shown_level);
    line.append(": ");
    line.append(message);
    line
}

} // verus!
