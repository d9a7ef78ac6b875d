//! Search pages: the block-page guard, the marker-delimited extractor of the
//! embedded JSON, and the cap on the decoded product list.

use vstd::prelude::*;

use crate::error::ApiError;
use crate::text::{
    chars_of, contains, find_chars, find_from, lemma_contains_find, lemma_find_from,
    lemma_find_from_at, occurs_at,
};

verus! {

/// Opens the JSON document that a search page embeds.
pub const NEXT_DATA_START: &'static str = "<script id=\"__NEXT_DATA__\" type=\"application/json\">";

/// Closes the embedded JSON document.
pub const NEXT_DATA_END: &'static str = "</script>";

/// Upstream protection puts this phrase in the pages it serves instead of content.
pub const BLOCK_MARKER: &'static str = "Access Denied";

/// The text between the first `start` marker and the first `end` marker after it.
pub open spec fn extract_spec(html: Seq<char>, start: Seq<char>, end: Seq<char>) -> Result<
    Seq<char>,
    ApiError,
> {
    match find_from(html, start, 0) {
        None => Err(ApiError::MarkerNotFound),
        Some(i) => match find_from(html, end, i + start.len()) {
            None => Err(ApiError::UnterminatedPayload),
            Some(j) => Ok(html.subrange(i + start.len(), j)),
        },
    }
}

/// A result whose text is seen as characters.
pub open spec fn text_result(r: Result<String, ApiError>) -> Result<Seq<char>, ApiError> {
    match r {
        Ok(s) => Ok(s@),
        Err(e) => Err(e),
    }
}

fn extract_chars(html: &str, hay: &Vec<char>, start: &str, end: &str) -> (r: Result<
    String,
    ApiError,
>)
    requires
        hay@ == html@,
    ensures
        text_result(r) == extract_spec(html@, start@, end@),
{
    let start_chars = chars_of(start);
    let end_chars = chars_of(end);
    match find_chars(hay, &start_chars, 0) {
        None => Err(ApiError::MarkerNotFound),
        Some(i) => {
            proof {
                lemma_find_from(hay@, start_chars@, 0);
            }
            let from = i + start_chars.len();
            match find_chars(hay, &end_chars, from) {
                None => Err(ApiError::UnterminatedPayload),
                Some(j) => {
                    proof {
                        lemma_find_from(hay@, end_chars@, from as int);
                    }
                    Ok(String::from_str(html.substring_char(from, j)))
                },
            }
        },
    }
}

/// Returns the text strictly between the first occurrence of `start_marker`
/// and the first occurrence of `end_marker` after it.
pub fn extract(html: &str, start_marker: &str, end_marker: &str) -> (r: Result<String, ApiError>)
    ensures
        text_result(r) == extract_spec(html@, start_marker@, end_marker@),
{
    let hay = chars_of(html);
    extract_chars(html, &hay, start_marker, end_marker)
}

/// Whether a fetched page may be read or was served by upstream protection.
#[derive(Clone, Copy, Debug, PartialEq, Eq, Structural)]
pub enum PageClass {
    Allowed,
    Blocked,
}

/// The class of a page: blocked exactly when the block phrase occurs in it.
pub open spec fn classify_spec(html: Seq<char>) -> PageClass {
    if contains(html, BLOCK_MARKER@) {
        PageClass::Blocked
    } else {
        PageClass::Allowed
    }
}

fn classify_chars(hay: &Vec<char>) -> (r: PageClass)
    ensures
        r == classify_spec(hay@),
{
    let marker = chars_of(BLOCK_MARKER);
    proof {
        lemma_contains_find(hay@, marker@);
    }
    match find_chars(hay, &marker, 0) {
        Some(_) => PageClass::Blocked,
        None => PageClass::Allowed,
    }
}

/// Classifies a fetched page as blocked or allowed.
pub fn classify(html: &str) -> (r: PageClass)
    ensures
        r == classify_spec(html@),
{
    let hay = chars_of(html);
    classify_chars(&hay)
}

/// What a search page yields: `Blocked` for a block page, whatever else it
/// holds; otherwise the embedded JSON between the fixed markers.
pub open spec fn search_payload_spec(html: Seq<char>) -> Result<Seq<char>, ApiError> {
    if contains(html, BLOCK_MARKER@) {
        Err(ApiError::Blocked)
    } else {
        extract_spec(html, NEXT_DATA_START@, NEXT_DATA_END@)
    }
}

/// Checks a search page for a block page, then extracts its embedded JSON.
pub fn search_payload(html: &str) -> (r: Result<String, ApiError>)
    ensures
        text_result(r) == search_payload_spec(html@),
{
    let hay = chars_of(html);
    match classify_chars(&hay) {
        PageClass::Blocked => Err(ApiError::Blocked),
        PageClass::Allowed => extract_chars(html, &hay, NEXT_DATA_START, NEXT_DATA_END),
    }
}

/// Extracting from a page made of some text, the start marker, a payload, the
/// end marker and more text gives back the payload exactly, when the start
/// marker first occurs where it is placed and the payload holds no end marker.
pub proof fn lemma_extract_round_trip(
    before: Seq<char>,
    payload: Seq<char>,
    after: Seq<char>,
    start: Seq<char>,
    end: Seq<char>,
)
    requires
        forall|i: int| 0 <= i < before.len() ==> !occurs_at(before + start, start, i),
        forall|j: int| 0 <= j < payload.len() ==> !occurs_at(payload + end, end, j),
    ensures
        extract_spec(before + start + payload + end + after, start, end) == Ok::<Seq<char>, ApiError>(payload),
{
    let html = before + start + payload + end + after;
    let b = before.len() as int;
    let p0 = b + start.len();
    let q = p0 + payload.len();
    assert(html.subrange(b, p0) =~= start);
    assert forall|i: int| 0 <= i < b implies !occurs_at(html, start, i) by {
        if occurs_at(html, start, i) {
            assert((before + start).subrange(i, i + start.len()) =~= html.subrange(
                i,
                i + start.len(),
            ));
            assert(occurs_at(before + start, start, i));
        }
    }
    lemma_find_from_at(html, start, 0, b);
    assert(html.subrange(q, q + end.len()) =~= end);
    assert forall|j: int| p0 <= j < q implies !occurs_at(html, end, j) by {
        if occurs_at(html, end, j) {
            assert((payload + end).subrange(j - p0, j - p0 + end.len()) =~= html.subrange(
                j,
                j + end.len(),
            ));
            assert(occurs_at(payload + end, end, j - p0));
        }
    }
    lemma_find_from_at(html, end, p0, q);
    assert(html.subrange(p0, q) =~= payload);
}

/// Extraction fails with `MarkerNotFound` exactly when the start marker
/// occurs nowhere, and with `UnterminatedPayload` exactly when it occurs but
/// the end marker occurs nowhere after its first occurrence.
pub proof fn lemma_extract_failures(html: Seq<char>, start: Seq<char>, end: Seq<char>)
    ensures
        (extract_spec(html, start, end) == Err::<Seq<char>, ApiError>(ApiError::MarkerNotFound))
            <==> !contains(html, start),
        (extract_spec(html, start, end) == Err::<Seq<char>, ApiError>(
            ApiError::UnterminatedPayload,
        )) <==> exists|i: int|
            {
                &&& occurs_at(html, start, i)
                &&& forall|k: int| 0 <= k < i ==> !occurs_at(html, start, k)
                &&& forall|j: int| i + start.len() <= j ==> !occurs_at(html, end, j)
            },
{
    lemma_contains_find(html, start);
    lemma_find_from(html, start, 0);
    match find_from(html, start, 0) {
        None => {},
        Some(i) => {
            lemma_find_from(html, end, i + start.len());
            assert forall|i2: int|
                {
                    &&& occurs_at(html, start, i2)
                    &&& forall|k: int| 0 <= k < i2 ==> !occurs_at(html, start, k)
                } implies i2 == i by {
                if i2 < i {
                } else if i < i2 {
                    assert(!occurs_at(html, start, i));
                }
            }
        },
    }
}

} // verus!
