//! The rules of the Elasticsearch-compatible routes that do not depend on
//! the web framework: the size limits of request bodies, and the reading of
//! the index name from a request path.

use vstd::prelude::*;
use vstd::string::StringExecFns;
use crate::text::to_chars;

verus! {

/// The Elasticsearch-compatible API, as the item that its description is
/// attached to.
#[derive(Clone, Copy, Debug, Default)]
pub struct ElasticCompatibleApi;

/// The longest body, in bytes, that a search request may have.
pub const BODY_LENGTH_LIMIT: u64 = 1_000_000;

/// The longest body, in bytes, that a bulk request may have: ten mebibytes.
pub const CONTENT_LENGTH_LIMIT: u64 = 10 * 1024 * 1024;

/// A request that cannot be served as it stands; the text says why.
#[derive(Clone, Debug)]
pub struct InvalidArgument(pub String);

/// Whether a character has the Unicode property `White_Space`: what
/// `char::is_whitespace` returns, and what `str::trim` removes.
pub uninterp spec fn is_whitespace(c: char) -> bool;

/// `s` without its leading whitespace.
pub open spec fn trimmed_start(s: Seq<char>) -> Seq<char>
    decreases s.len(),
{
    if s.len() > 0 && is_whitespace(s.first()) {
        trimmed_start(s.drop_first())
    } else {
        s
    }
}

/// `s` without its trailing whitespace.
pub open spec fn trimmed_end(s: Seq<char>) -> Seq<char>
    decreases s.len(),
{
    if s.len() > 0 && is_whitespace(s.last()) {
        trimmed_end(s.drop_last())
    } else {
        s
    }
}

/// `s` without its leading and trailing whitespace.
pub open spec fn trimmed(s: Seq<char>) -> Seq<char> {
    trimmed_end(trimmed_start(s))
}

/// Removes leading and trailing whitespace with `str::trim` of the standard
/// library, which documents whitespace as the characters of the Unicode
/// property `White_Space`. The contract says that the result is the input
/// without its longest prefix and, then, its longest suffix of such
/// characters, so that what is left neither begins nor ends with one.
#[verifier::external_body]
fn trim(s: &str) -> (inner: &str)
    ensures
        inner@ == trimmed(s@),
        inner@.len() > 0 ==> !is_whitespace(inner@.first()) && !is_whitespace(inner@.last()),
{
    s.trim()
}

/// The text that rejects a path that names several indexes.
pub open spec fn several_indexes_message(given: Seq<char>) -> Seq<char> {
    "Searching only one index is supported for now. Got (`"@ + given + "`)"@
}

/// The text that rejects a path that names no index.
pub open spec fn missing_index_message() -> Seq<char> {
    "Missing index name."@
}

/// What the index part of a search path means.
///
/// A part that holds a comma names several indexes and is rejected. Any
/// other part names one index, which is the part without the whitespace
/// around it; if nothing is left, the name is missing.
pub open spec fn single_index_of(path_part: Seq<char>) -> Result<Seq<char>, Seq<char>> {
    if path_part.contains(',') {
        Err(several_indexes_message(path_part))
    } else {
        name_of(trimmed(path_part))
    }
}

/// The view of what reading the index part returned.
pub open spec fn index_view(read: Result<String, InvalidArgument>) -> Result<
    Seq<char>,
    Seq<char>,
> {
    match read {
        Ok(index) => Ok(index@),
        Err(refusal) => Err(refusal.0@),
    }
}

/// Whether `c` occurs in `s`.
pub fn holds_char(s: &str, c: char) -> (found: bool)
    ensures
        found == s@.contains(c),
{
    let chars = to_chars(s);
    let mut at: usize = 0;
    while at < chars.len()
        invariant
            chars@ == s@,
            at <= chars@.len(),
            forall|earlier: int| 0 <= earlier < at ==> chars@[earlier] != c,
        decreases chars@.len() - at,
    {
        if chars[at] == c {
            return true;
        }
        at = at + 1;
    }
    false
}

/// What is left of the index part without the whitespace around it is the
/// name of the index, unless nothing is left.
pub open spec fn name_of(inner: Seq<char>) -> Result<Seq<char>, Seq<char>> {
    if inner.len() == 0 {
        Err(missing_index_message())
    } else {
        Ok(inner)
    }
}

/// Takes the index part, already without the whitespace around it, as the
/// name of the index, and refuses it where nothing is left.
pub fn name_of_trimmed(inner: &str) -> (read: Result<String, InvalidArgument>)
    ensures
        index_view(read) == name_of(inner@),
{
    if inner.unicode_len() == 0 {
        return Err(InvalidArgument(String::from_str("Missing index name.")));
    }
    Ok(String::from_str(inner))
}

/// Reads the one index that a search path names.
pub fn single_index(comma_separated_indexes: &str) -> (read: Result<String, InvalidArgument>)
    ensures
        index_view(read) == single_index_of(comma_separated_indexes@),
{
    if holds_char(comma_separated_indexes, ',') {
        let mut message = String::from_str(
            "Searching only one index is supported for now. Got (`",
        );
        message.append(comma_separated_indexes);
        message.append("`)");
        return Err(InvalidArgument(message));
    }
    name_of_trimmed(trim(comma_separated_indexes))
}

/// A name that was read holds no comma and neither begins nor ends with
/// whitespace, and a part without comma and without whitespace around it is
/// its own name.
pub proof fn lemma_single_index_is_clean(path_part: Seq<char>)
    ensures
        single_index_of(path_part) matches Ok(index) ==> {
            &&& index.len() > 0
            &&& !index.contains(',')
            &&& !is_whitespace(index.first())
            &&& !is_whitespace(index.last())
        },
        path_part.len() > 0 && !path_part.contains(',') && !is_whitespace(path_part.first())
            && !is_whitespace(path_part.last()) ==> single_index_of(path_part) == Ok::<
            Seq<char>,
            Seq<char>,
        >(path_part),
{
    lemma_trimmed_start_is_suffix(path_part);
    lemma_trimmed_end_is_prefix(trimmed_start(path_part));
    let index = trimmed(path_part);
    if index.len() > 0 && !path_part.contains(',') {
        assert forall|i: int| 0 <= i < index.len() implies index[i] != ',' by {
            let skipped = path_part.len() - trimmed_start(path_part).len();
            assert(index[i] == trimmed_start(path_part)[i]);
            assert(trimmed_start(path_part)[i] == path_part[skipped + i]);
            assert(path_part.contains(path_part[skipped + i]));
        }
    }
}

/// Trimming at the start leaves a suffix that does not begin with
/// whitespace.
pub proof fn lemma_trimmed_start_is_suffix(s: Seq<char>)
    ensures
        trimmed_start(s).len() <= s.len(),
        trimmed_start(s) == s.subrange(s.len() - trimmed_start(s).len(), s.len() as int),
        trimmed_start(s).len() > 0 ==> !is_whitespace(trimmed_start(s).first()),
    decreases s.len(),
{
    if s.len() > 0 && is_whitespace(s.first()) {
        let rest = s.drop_first();
        lemma_trimmed_start_is_suffix(rest);
        let kept = trimmed_start(rest);
        assert(rest.subrange(rest.len() - kept.len(), rest.len() as int) =~= s.subrange(
            s.len() - kept.len(),
            s.len() as int,
        ));
    } else {
        assert(s =~= s.subrange(0, s.len() as int));
    }
}

/// Trimming at the end leaves a prefix that does not end with whitespace
/// and begins as the string did.
pub proof fn lemma_trimmed_end_is_prefix(s: Seq<char>)
    ensures
        trimmed_end(s).len() <= s.len(),
        trimmed_end(s) == s.subrange(0, trimmed_end(s).len() as int),
        trimmed_end(s).len() > 0 ==> !is_whitespace(trimmed_end(s).last()),
        trimmed_end(s).len() > 0 ==> trimmed_end(s).first() == s.first(),
    decreases s.len(),
{
    if s.len() > 0 && is_whitespace(s.last()) {
        let rest = s.drop_last();
        lemma_trimmed_end_is_prefix(rest);
        let kept = trimmed_end(rest);
        assert(rest.subrange(0, kept.len() as int) =~= s.subrange(0, kept.len() as int));
    } else {
        assert(s =~= s.subrange(0, s.len() as int));
    }
}

} // verus!
