//! Text that the screens put on their rows: names made readable, blanks
//! shown as a dash, keywords looked for, dates written out.
//!
//! Case mapping, trimming, splitting, replacement and the calendar are the
//! standard library's and chrono's; each is reached through one function whose
//! contract is taken on trust, and everything built from their results is
//! verified. What whitespace is, and what replacing, trimming and splitting
//! give, is written out here; case mapping and the calendar are only named.

use vstd::prelude::*;
use vstd::string::{StrSliceExecFns, StringExecFns};

verus! {

/// The text of `str::to_lowercase`.
pub uninterp spec fn lowercase_of(text: Seq<char>) -> Seq<char>;

/// The text with every occurrence of `from` replaced by `to`: the
/// occurrences are taken from the left and do not overlap. A text is left as
/// it is by an empty `from`.
pub open spec fn replaced(text: Seq<char>, from: Seq<char>, to: Seq<char>) -> Seq<char>
    decreases text.len(),
{
    if from.len() == 0 || text.len() < from.len() {
        text
    } else if text.take(from.len() as int) == from {
        to + replaced(text.skip(from.len() as int), from, to)
    } else {
        seq![text[0]] + replaced(text.skip(1), from, to)
    }
}

/// The characters of `char::to_uppercase`.
pub uninterp spec fn uppercase_of(c: char) -> Seq<char>;

/// Whether the character is whitespace: one of the twenty-five characters
/// that have the Unicode property `White_Space`, which is what the standard
/// library trims and splits by.
pub open spec fn is_whitespace(c: char) -> bool {
    let code = c as u32;
    ||| 0x09 <= code <= 0x0D
    ||| code == 0x20
    ||| code == 0x85
    ||| code == 0xA0
    ||| code == 0x1680
    ||| 0x2000 <= code <= 0x200A
    ||| code == 0x2028
    ||| code == 0x2029
    ||| code == 0x202F
    ||| code == 0x205F
    ||| code == 0x3000
}

/// What chrono writes, in the given format, for the instant that many
/// microseconds after the Unix epoch, in UTC; `None` for an instant that its
/// calendar does not reach.
pub uninterp spec fn written_instant(micros: i64, format: Seq<char>) -> Option<Seq<char>>;

/// The format of a date in the table: day, month and year, with slashes.
pub open spec fn day_month_year() -> Seq<char> {
    "%d/%m/%Y"@
}

/// The text from its first character on that is not whitespace.
pub open spec fn trimmed_start(text: Seq<char>) -> Seq<char>
    decreases text.len(),
{
    if text.len() > 0 && is_whitespace(text[0]) {
        trimmed_start(text.drop_first())
    } else {
        text
    }
}

/// The text up to its last character that is not whitespace.
pub open spec fn trimmed_end(text: Seq<char>) -> Seq<char>
    decreases text.len(),
{
    if text.len() > 0 && is_whitespace(text.last()) {
        trimmed_end(text.drop_last())
    } else {
        text
    }
}

/// The text without the whitespace at its two ends.
pub open spec fn trimmed(text: Seq<char>) -> Seq<char> {
    trimmed_end(trimmed_start(text))
}

/// How many characters stand at the start of the text before its first
/// whitespace.
pub open spec fn word_len(text: Seq<char>) -> nat
    decreases text.len(),
{
    if text.len() > 0 && !is_whitespace(text[0]) {
        1 + word_len(text.drop_first())
    } else {
        0
    }
}

/// The runs of characters of the text that are not whitespace, in order.
pub open spec fn whitespace_words(text: Seq<char>) -> Seq<Seq<char>>
    decreases text.len(),
    via whitespace_words_decreases
{
    let rest = trimmed_start(text);
    if rest.len() == 0 {
        seq![]
    } else {
        seq![rest.take(word_len(rest) as int)] + whitespace_words(rest.skip(word_len(rest) as int))
    }
}

#[via_fn]
proof fn whitespace_words_decreases(text: Seq<char>) {
    lemma_trimmed_start(text);
    lemma_word_len(trimmed_start(text));
}

/// Trimming at the start leaves a tail of the text, and what it leaves does
/// not begin with whitespace.
pub proof fn lemma_trimmed_start(text: Seq<char>)
    ensures
        trimmed_start(text).len() <= text.len(),
        trimmed_start(text) == text.skip(text.len() - trimmed_start(text).len()),
        trimmed_start(text).len() > 0 ==> !is_whitespace(trimmed_start(text)[0]),
        forall|i: int|
            0 <= i < text.len() - trimmed_start(text).len() ==> is_whitespace(#[trigger] text[i]),
    decreases text.len(),
{
    if text.len() > 0 && is_whitespace(text[0]) {
        let rest = text.drop_first();
        lemma_trimmed_start(rest);
        let cut = rest.len() - trimmed_start(rest).len();
        assert(rest.skip(cut) =~= text.skip(cut + 1));
        assert forall|i: int| 0 <= i < text.len() - trimmed_start(text).len() implies is_whitespace(
            #[trigger] text[i],
        ) by {
            if i > 0 {
                assert(text[i] == rest[i - 1]);
            }
        }
    } else {
        assert(text.skip(0) =~= text);
    }
}

/// Trimming at the end leaves a head of the text, and what it leaves does
/// not end with whitespace.
pub proof fn lemma_trimmed_end(text: Seq<char>)
    ensures
        trimmed_end(text).len() <= text.len(),
        trimmed_end(text) == text.take(trimmed_end(text).len() as int),
        trimmed_end(text).len() > 0 ==> !is_whitespace(trimmed_end(text).last()),
        forall|i: int|
            trimmed_end(text).len() <= i < text.len() ==> is_whitespace(#[trigger] text[i]),
    decreases text.len(),
{
    if text.len() > 0 && is_whitespace(text.last()) {
        let rest = text.drop_last();
        lemma_trimmed_end(rest);
        assert(rest.take(trimmed_end(rest).len() as int) =~= text.take(
            trimmed_end(rest).len() as int,
        ));
        assert forall|i: int| trimmed_end(text).len() <= i < text.len() implies is_whitespace(
            #[trigger] text[i],
        ) by {
            if i < rest.len() {
                assert(text[i] == rest[i]);
            }
        }
    } else {
        assert(text.take(text.len() as int) =~= text);
    }
}

/// A word at the start of a text is a part of it, has no whitespace in it,
/// and is followed by whitespace or by the end; a text that does not begin
/// with whitespace begins with a word.
pub proof fn lemma_word_len(text: Seq<char>)
    ensures
        word_len(text) <= text.len(),
        forall|i: int| 0 <= i < word_len(text) ==> !is_whitespace(#[trigger] text[i]),
        word_len(text) < text.len() ==> is_whitespace(text[word_len(text) as int]),
        text.len() > 0 && !is_whitespace(text[0]) ==> word_len(text) > 0,
    decreases text.len(),
{
    if text.len() > 0 && !is_whitespace(text[0]) {
        let rest = text.drop_first();
        lemma_word_len(rest);
        assert forall|i: int| 0 <= i < word_len(text) implies !is_whitespace(
            #[trigger] text[i],
        ) by {
            if i > 0 {
                assert(text[i] == rest[i - 1]);
            }
        }
        if word_len(text) < text.len() {
            assert(text[word_len(text) as int] == rest[word_len(rest) as int]);
        }
    }
}

/// The trimmed text is a part of the text: no longer than it, with nothing
/// but whitespace before and after, and with no whitespace at its own ends.
pub proof fn lemma_trimmed_is_part(text: Seq<char>)
    ensures
        trimmed(text).len() <= text.len(),
        has_substring(text, trimmed(text)),
        trimmed(text).len() > 0 ==> !is_whitespace(trimmed(text)[0]) && !is_whitespace(
            trimmed(text).last(),
        ),
{
    lemma_trimmed_start(text);
    let tail = trimmed_start(text);
    lemma_trimmed_end(tail);
    let inner = trimmed(text);
    let at = text.len() - tail.len();
    assert(text.subrange(at, at + inner.len()) =~= inner);
    if inner.len() > 0 {
        assert(inner[0] == tail[0]);
    }
}

/// `needle` occurs in `text` as a run of consecutive characters.
pub open spec fn has_substring(text: Seq<char>, needle: Seq<char>) -> bool {
    exists|at: int|
        0 <= at && at + needle.len() <= text.len() && #[trigger] text.subrange(
            at,
            at + needle.len(),
        ) == needle
}

/// A word with its first character in upper case.
pub open spec fn capitalized(word: Seq<char>) -> Seq<char> {
    if word.len() == 0 {
        word
    } else {
        uppercase_of(word[0]) + word.skip(1)
    }
}

/// The words one after another, with `separator` between neighbours.
pub open spec fn joined(words: Seq<Seq<char>>, separator: Seq<char>) -> Seq<char>
    decreases words.len(),
{
    if words.len() == 0 {
        Seq::empty()
    } else if words.len() == 1 {
        words[0]
    } else {
        joined(words.drop_last(), separator) + separator + words.last()
    }
}

/// The words of a model file's name, as `human_readable_name` cuts them.
pub open spec fn name_words(name: Seq<char>) -> Seq<Seq<char>> {
    whitespace_words(
        replaced(
            replaced(replaced(lowercase_of(name), "-"@, " "@), ".gguf"@, ""@),
            "chat"@,
            ""@,
        ),
    )
}

/// A model file's name made readable.
pub open spec fn readable_name(name: Seq<char>) -> Seq<char> {
    joined(name_words(name).map_values(|word: Seq<char>| capitalized(word)), " "@)
}

/// `prefix`, a slash, `name`.
pub open spec fn slash_joined(prefix: Seq<char>, name: Seq<char>) -> Seq<char> {
    prefix + "/"@ + name
}

/// Calls `str::to_lowercase`. Trusted: the result is the one text that the
/// standard library maps the argument to.
#[verifier::external_body]
pub(crate) fn to_lowercase(text: &str) -> (lower: String)
    ensures
        lower@ == lowercase_of(text@),
{
    text.to_lowercase()
}

/// Calls `str::replace` with a text that is not empty as the pattern.
/// Trusted: every occurrence of the pattern is replaced, the occurrences
/// taken from the left without overlap.
#[verifier::external_body]
pub(crate) fn replace(text: &str, from: &str, to: &str) -> (out: String)
    requires
        from@.len() > 0,
    ensures
        out@ == replaced(text@, from@, to@),
{
    text.replace(from, to)
}

/// Calls `str::split_whitespace` and copies each piece. Trusted: the pieces
/// are the runs of characters that are not whitespace, in order, where
/// whitespace is the characters with the Unicode property `White_Space`.
#[verifier::external_body]
pub(crate) fn split_whitespace(text: &str) -> (words: Vec<String>)
    ensures
        words.deep_view() == whitespace_words(text@),
{
    let mut words = Vec::new();
    for word in text.split_whitespace() {
        words.push(word.to_string());
    }
    words
}

/// Calls `char::to_uppercase`. Trusted: the result holds the characters that
/// the standard library maps the argument to.
#[verifier::external_body]
pub(crate) fn to_uppercase(c: char) -> (upper: String)
    ensures
        upper@ == uppercase_of(c),
{
    c.to_uppercase().to_string()
}

/// Calls `str::trim`. Trusted: the result is the argument without the
/// whitespace at its two ends, where whitespace is the characters with the
/// Unicode property `White_Space`.
#[verifier::external_body]
pub(crate) fn trim(text: &str) -> (inner: &str)
    ensures
        inner@ == trimmed(text@),
{
    text.trim()
}

/// Calls `str::contains` with a text as the pattern. Trusted: it says
/// whether the pattern occurs in the text as a run of consecutive characters.
#[verifier::external_body]
pub(crate) fn contains(text: &str, needle: &str) -> (found: bool)
    ensures
        found == has_substring(text@, needle@),
{
    text.contains(needle)
}

/// Calls chrono's `DateTime::from_timestamp_micros` and writes the instant
/// with `format`, in the table's format of day, month and year. Trusted: the
/// result depends on the arguments alone, and is `None` exactly where chrono
/// has no such instant.
#[verifier::external_body]
pub(crate) fn format_instant(micros: i64, format: &str) -> (written: Option<String>)
    requires
        format@ == day_month_year(),
    ensures
        written is Some <==> written_instant(micros, format@) is Some,
        written matches Some(text) ==> Some(text@) == written_instant(micros, format@),
{
    match chrono::DateTime::from_timestamp_micros(micros) {
        Some(instant) => Some(instant.format(format).to_string()),
        None => None,
    }
}

/// Whether the character is whitespace, as trimming and splitting take it.
pub fn is_whitespace_char(c: char) -> (whitespace: bool)
    ensures
        whitespace == is_whitespace(c),
{
    let code = c as u32;
    (0x09 <= code && code <= 0x0D) || code == 0x20 || code == 0x85 || code == 0xA0 || code
        == 0x1680 || (0x2000 <= code && code <= 0x200A) || code == 0x2028 || code == 0x2029
        || code == 0x202F || code == 0x205F || code == 0x3000
}

/// A dash in place of an empty text.
pub fn dash_if_empty(input: &str) -> (shown: &str)
    ensures
        shown@ == if input@.len() == 0 {
            "-"@
        } else {
            input@
        },
{
    if input.is_empty() {
        "-"
    } else {
        input
    }
}

/// The text, or a dash where there is none.
pub fn or_dash(text: Option<String>) -> (shown: String)
    ensures
        shown@ == match text {
            Some(t) => t@,
            None => "-"@,
        },
{
    match text {
        Some(t) => t,
        None => String::from_str("-"),
    }
}

/// The text without the whitespace at its two ends.
pub fn trimmed_text(text: &str) -> (inner: String)
    ensures
        inner@ == trimmed(text@),
        inner@.len() <= text@.len(),
{
    proof {
        lemma_trimmed_is_part(text@);
    }
    String::from_str(trim(text))
}

/// Whether the text is empty or whitespace throughout.
pub fn is_blank(text: &str) -> (blank: bool)
    ensures
        blank == (trimmed(text@).len() == 0),
{
    trim(text).is_empty()
}

/// Whether `keywords` occurs in `text` when the case of `text` is ignored.
/// The keywords are taken as they are.
pub fn mentions(text: &str, keywords: &str) -> (found: bool)
    ensures
        found == has_substring(lowercase_of(text@), keywords@),
{
    let lower = to_lowercase(text);
    contains(lower.as_str(), keywords)
}

/// `first` followed by all of `word` but its first character.
pub fn with_first_replaced(word: &str, first: &str) -> (out: String)
    ensures
        out@ == if word@.len() == 0 {
            first@
        } else {
            first@ + word@.skip(1)
        },
{
    let mut out = String::from_str(first);
    let count = word.unicode_len();
    if count > 0 {
        let rest = word.substring_char(1, count);
        out.append(rest);
        assert(word@.subrange(1, count as int) =~= word@.skip(1));
    }
    out
}

/// The word with its first character in upper case.
pub fn capitalize(word: &str) -> (out: String)
    ensures
        out@ == capitalized(word@),
{
    if word.is_empty() {
        String::from_str(word)
    } else {
        let upper = to_uppercase(word.get_char(0));
        with_first_replaced(word, upper.as_str())
    }
}

/// The texts one after another, with a space between neighbours.
pub fn join_words(words: &Vec<String>) -> (out: String)
    ensures
        out@ == joined(words.deep_view(), " "@),
{
    let mut out = String::new();
    let mut i: usize = 0;
    while i < words.len()
        invariant
            i <= words.len(),
            out@ == joined(words.deep_view().take(i as int), " "@),
        decreases words.len() - i,
    {
        if i > 0 {
            out.append(" ");
        }
        out.append(words[i].as_str());
        proof {
            let all = words.deep_view();
            assert(all.take(i + 1).drop_last() =~= all.take(i as int));
            assert(all.take(i + 1).last() == words[i as int]@);
            if i == 0 {
                assert(out@ =~= words[0]@);
            }
        }
        i += 1;
    }
    assert(words.deep_view().take(words.len() as int) =~= words.deep_view());
    out
}

/// Every word with its first character in upper case.
pub fn capitalize_words(words: &Vec<String>) -> (out: Vec<String>)
    ensures
        out.deep_view() == words.deep_view().map_values(|word: Seq<char>| capitalized(word)),
{
    let mut out: Vec<String> = Vec::new();
    let mut i: usize = 0;
    while i < words.len()
        invariant
            i <= words.len(),
            out.len() == i,
            forall|k: int| 0 <= k < i ==> (#[trigger] out[k])@ == capitalized(words[k]@),
        decreases words.len() - i,
    {
        out.push(capitalize(words[i].as_str()));
        i += 1;
    }
    assert(out.deep_view() =~= words.deep_view().map_values(|word: Seq<char>| capitalized(word)));
    out
}

/// Makes a model file's name readable: lower case, dashes to spaces, the
/// extension `.gguf` and the word `chat` dropped, and each remaining word
/// with its first character in upper case, one space between words.
pub fn human_readable_name(name: &str) -> (readable: String)
    ensures
        readable@ == readable_name(name@),
{
    proof {
        reveal_strlit("-");
        reveal_strlit(".gguf");
        reveal_strlit("chat");
    }
    let lower = to_lowercase(name);
    let spaced = replace(lower.as_str(), "-", " ");
    let bare = replace(spaced.as_str(), ".gguf", "");
    let plain = replace(bare.as_str(), "chat", "");
    let words = split_whitespace(plain.as_str());
    let capitals = capitalize_words(&words);
    join_words(&capitals)
}

/// `prefix`, a slash, `name`.
pub fn slash_join(prefix: &str, name: &str) -> (out: String)
    ensures
        out@ == slash_joined(prefix@, name@),
{
    let mut out = String::from_str(prefix);
    out.append("/");
    out.append(name);
    out
}

/// The day, month and year of an instant given in microseconds after the
/// Unix epoch, in UTC, written `dd/mm/yyyy`; a dash for an instant that the
/// calendar does not reach.
pub fn added_date(micros: i64) -> (date: String)
    ensures
        date@ == match written_instant(micros, day_month_year()) {
            Some(text) => text,
            None => "-"@,
        },
{
    or_dash(format_instant(micros, "%d/%m/%Y"))
}

} // verus!
