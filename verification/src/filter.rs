//! Read-only accept/reject stages, and the three length measures they use.
//!
//! The three measures — byte length, code-point count, grapheme-cluster
//! count — are intentionally distinct: a single emoji or combining-mark
//! sequence can have byte length > code-point count > grapheme count, and a
//! filter's boundary decision depends on picking the right one.

use vstd::prelude::*;
use vstd::string::StrSliceExecFns;
use vstd::utf8::encode_utf8;
use unicode_segmentation::UnicodeSegmentation;

use crate::collector::ErrorMessage;
use crate::{Continue, Document, Runner};

verus! {

/// Number of extended grapheme clusters in a character sequence, as
/// unicode-segmentation's `graphemes` segments it with extended clusters
/// selected.
pub uninterp spec fn grapheme_count(s: Seq<char>) -> nat;

/// Relies on `unicode_segmentation::UnicodeSegmentation::graphemes`: the
/// segmentation depends on the characters alone, and it splits the string
/// into non-empty substrings, so there are at most as many clusters as
/// characters.
#[verifier::external_body]
fn grapheme_len(s: &str) -> (r: usize)
    ensures
        r as nat == grapheme_count(s@),
        r as nat <= s@.len(),
{
    s.graphemes(true).count()
}

/// Every character encodes to at least one byte, so a text has at least as
/// many bytes as code points.
pub proof fn lemma_char_count_le_byte_count(text: Seq<char>)
    ensures
        text.len() <= encode_utf8(text).len(),
    decreases text.len(),
{
    if text.len() > 0 {
        lemma_char_count_le_byte_count(text.drop_first());
    }
}

/// The three length measures of the document's text, in one reading:
/// `(byte length, code-point count, grapheme-cluster count)`. The measures
/// are always ordered: grapheme count <= code-point count <= byte length.
pub fn measures(doc: &Document) -> (r: (usize, usize, usize))
    ensures
        r.0 as nat == encode_utf8(doc.text@).len(),
        r.1 as nat == doc.text@.len(),
        r.2 as nat == grapheme_count(doc.text@),
        r.2 <= r.1 <= r.0,
{
    let bytes = doc.text.as_str().as_bytes().len();
    let chars = doc.text.as_str().unicode_len();
    let graphemes = grapheme_len(doc.text.as_str());
    proof {
        lemma_char_count_le_byte_count(doc.text@);
    }
    (bytes, chars, graphemes)
}

/// A read-only predicate over a document: the boolean result is passed
/// straight through as the pipeline's continue signal. A filter never
/// changes the document.
///
/// The three spec functions are the predicate's complete model: on `text`
/// it either evaluates to the signal `filter_signal`, or fails with the
/// message `filter_err`.
pub trait Filter {
    /// Whether the predicate evaluates without error on this text.
    spec fn filter_ok(&self, text: Seq<char>) -> bool;

    /// The accept/reject signal, when evaluation succeeds.
    spec fn filter_signal(&self, text: Seq<char>) -> bool;

    /// The message reported when evaluation fails.
    spec fn filter_err(&self, text: Seq<char>) -> Seq<char>;

    /// Evaluates the predicate on `doc`.
    fn filter(&self, doc: &Document) -> (r: Result<Continue, ErrorMessage>)
        ensures
            r matches Ok(c) ==> self.filter_ok(doc.text@) && c == self.filter_signal(doc.text@),
            r matches Err(m) ==> !self.filter_ok(doc.text@) && m@ == self.filter_err(doc.text@),
    ;
}

/// Every filter is a pipeline stage: its signal is the continue signal, and
/// it leaves the document untouched.
impl<T: Filter> Runner for T {
    open spec fn runs_ok(&self, text: Seq<char>) -> bool {
        self.filter_ok(text)
    }

    open spec fn signal(&self, text: Seq<char>) -> bool {
        self.filter_signal(text)
    }

    open spec fn new_text(&self, text: Seq<char>) -> Seq<char> {
        text
    }

    open spec fn error_of(&self, text: Seq<char>) -> Seq<char> {
        self.filter_err(text)
    }

    fn run(&self, doc: &mut Document) -> (r: Result<Continue, ErrorMessage>) {
        self.filter(doc)
    }
}

/// Accepts a document whose code-point count is at least the bound.
pub struct MinCharsLengthFilter(pub usize);

impl Filter for MinCharsLengthFilter {
    open spec fn filter_ok(&self, text: Seq<char>) -> bool {
        true
    }

    open spec fn filter_signal(&self, text: Seq<char>) -> bool {
        text.len() >= self.0
    }

    open spec fn filter_err(&self, text: Seq<char>) -> Seq<char> {
        Seq::<char>::empty()
    }

    fn filter(&self, doc: &Document) -> (r: Result<Continue, ErrorMessage>) {
        let len = doc.text.as_str().unicode_len();
        Ok(len >= self.0)
    }
}

/// Accepts a document whose code-point count is at most the bound.
pub struct MaxCharsLengthFilter(pub usize);

impl Filter for MaxCharsLengthFilter {
    open spec fn filter_ok(&self, text: Seq<char>) -> bool {
        true
    }

    open spec fn filter_signal(&self, text: Seq<char>) -> bool {
        text.len() <= self.0
    }

    open spec fn filter_err(&self, text: Seq<char>) -> Seq<char> {
        Seq::<char>::empty()
    }

    fn filter(&self, doc: &Document) -> (r: Result<Continue, ErrorMessage>) {
        let len = doc.text.as_str().unicode_len();
        Ok(len <= self.0)
    }
}

/// Accepts a document whose text is at least the bound in encoded bytes.
pub struct MinLengthFilter(pub usize);

impl Filter for MinLengthFilter {
    open spec fn filter_ok(&self, text: Seq<char>) -> bool {
        true
    }

    open spec fn filter_signal(&self, text: Seq<char>) -> bool {
        encode_utf8(text).len() >= self.0
    }

    open spec fn filter_err(&self, text: Seq<char>) -> Seq<char> {
        Seq::<char>::empty()
    }

    fn filter(&self, doc: &Document) -> (r: Result<Continue, ErrorMessage>) {
        let len = doc.text.as_str().as_bytes().len();
        Ok(len >= self.0)
    }
}

/// Accepts a document whose text is at most the bound in encoded bytes.
pub struct MaxLengthFilter(pub usize);

impl Filter for MaxLengthFilter {
    open spec fn filter_ok(&self, text: Seq<char>) -> bool {
        true
    }

    open spec fn filter_signal(&self, text: Seq<char>) -> bool {
        encode_utf8(text).len() <= self.0
    }

    open spec fn filter_err(&self, text: Seq<char>) -> Seq<char> {
        Seq::<char>::empty()
    }

    fn filter(&self, doc: &Document) -> (r: Result<Continue, ErrorMessage>) {
        let len = doc.text.as_str().as_bytes().len();
        Ok(len <= self.0)
    }
}

/// Accepts a document with at least the bound in extended grapheme clusters.
pub struct MinUnicodeLengthFilter(pub usize);

impl Filter for MinUnicodeLengthFilter {
    open spec fn filter_ok(&self, text: Seq<char>) -> bool {
        true
    }

    open spec fn filter_signal(&self, text: Seq<char>) -> bool {
        grapheme_count(text) >= self.0
    }

    open spec fn filter_err(&self, text: Seq<char>) -> Seq<char> {
        Seq::<char>::empty()
    }

    fn filter(&self, doc: &Document) -> (r: Result<Continue, ErrorMessage>) {
        let len = grapheme_len(doc.text.as_str());
        Ok(len >= self.0)
    }
}

/// Accepts a document with at most the bound in extended grapheme clusters.
pub struct MaxUnicodeLengthFilter(pub usize);

impl Filter for MaxUnicodeLengthFilter {
    open spec fn filter_ok(&self, text: Seq<char>) -> bool {
        true
    }

    open spec fn filter_signal(&self, text: Seq<char>) -> bool {
        grapheme_count(text) <= self.0
    }

    open spec fn filter_err(&self, text: Seq<char>) -> Seq<char> {
        Seq::<char>::empty()
    }

    fn filter(&self, doc: &Document) -> (r: Result<Continue, ErrorMessage>) {
        let len = grapheme_len(doc.text.as_str());
        Ok(len <= self.0)
    }
}

} // verus!
