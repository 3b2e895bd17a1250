//! Stages that derive a new document from an existing one.

use vstd::prelude::*;

use crate::collector::ErrorMessage;
use crate::{Continue, Document, Runner};

verus! {

/// A stage that derives a new document from the input (splitting,
/// normalizing, and the like).
///
/// The three spec functions are the stage's complete model: on `text` it
/// either produces a document holding `created_text`, or fails with the
/// message `create_err`.
pub trait Creator {
    /// Whether derivation succeeds on this text.
    spec fn create_ok(&self, text: Seq<char>) -> bool;

    /// The text of the derived document, when derivation succeeds.
    spec fn created_text(&self, text: Seq<char>) -> Seq<char>;

    /// The message reported when derivation fails.
    spec fn create_err(&self, text: Seq<char>) -> Seq<char>;

    /// Derives a new document from `doc`. The derived document carries a
    /// fresh identifier of its own.
    fn create(&self, doc: &Document) -> (r: Result<Document, ErrorMessage>)
        ensures
            r matches Ok(d) ==> self.create_ok(doc.text@) && d.text@ == self.created_text(
                doc.text@,
            ),
            r matches Err(m) ==> !self.create_ok(doc.text@) && m@ == self.create_err(doc.text@),
    ;
}

/// Adapts a creator into the stage contract: creation success is treated as
/// "continue", and the created document is discarded — the input document
/// runs on unchanged. How a created document re-enters the stream is the
/// caller's decision; this adapter deliberately keeps the input stream as it
/// is.
pub struct CreatorStage<C: Creator>(pub C);

impl<C: Creator> Runner for CreatorStage<C> {
    open spec fn runs_ok(&self, text: Seq<char>) -> bool {
        self.0.create_ok(text)
    }

    open spec fn signal(&self, text: Seq<char>) -> bool {
        true
    }

    open spec fn new_text(&self, text: Seq<char>) -> Seq<char> {
        text
    }

    open spec fn error_of(&self, text: Seq<char>) -> Seq<char> {
        self.0.create_err(text)
    }

    fn run(&self, doc: &mut Document) -> (r: Result<Continue, ErrorMessage>) {
        match self.0.create(doc) {
            Ok(_created) => Ok(true),
            Err(m) => Err(m),
        }
    }
}

} // verus!
