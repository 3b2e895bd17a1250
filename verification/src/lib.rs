//! A sequential text-document processing pipeline.
//!
//! Documents flow through an ordered list of stages. Each stage reports a
//! continue/stop signal or an error; errors are routed through an
//! [`collector::ErrorCollector`] policy that decides whether a failure aborts
//! the whole run, abandons the current document, or is tallied and tolerated.

use vstd::prelude::*;

pub mod collector;
pub mod creator;
pub mod filter;

use collector::{CollectOutcome, ErrorCollector, ErrorMessage, PolicyKind};

verus! {

/// The signal a stage reports: `true` means the pipeline should proceed to
/// the next stage for this document, `false` means the remaining stages are
/// skipped for this document (an early exit, not an error).
pub type Continue = bool;

/// An opaque, collision-resistant identifier assigned to each document at
/// construction. It serves identity and traceability only, never ordering.
#[derive(Clone, Copy, PartialEq, Eq, Structural, Debug)]
pub struct DocID(u128);

/// Relies on `uuid::Uuid::new_v4` and `uuid::Uuid::as_u128`: draws a fresh
/// random 128-bit version-4 UUID and hands its bits back as a plain integer.
/// Nothing can be promised of a random value.
#[verifier::external_body]
fn fresh_id_bits() -> u128 {
    uuid::Uuid::new_v4().as_u128()
}

impl Default for DocID {
    /// A freshly drawn identifier.
    fn default() -> Self {
        DocID(fresh_id_bits())
    }
}

/// The unit of data flowing through the pipeline: a text payload and a
/// unique identifier, assigned at construction. The identifier serves
/// identity and traceability; reassigning it is a caller misuse that the
/// library does not defend against.
pub struct Document {
    pub text: String,
    pub id: DocID,
}

impl Document {
    /// Builds a document around `text`, drawing a fresh identifier.
    pub fn new(text: String) -> (r: Document)
        ensures
            r.text@ == text@,
    {
        let id = DocID::default();
        Document { id, text }
    }
}

/// The per-stage contract that unifies filters, modifiers and creators: run
/// on a document, and report whether the pipeline should continue with it.
///
/// The three spec functions are the stage's complete model: on `text` the
/// stage either succeeds — leaving `new_text` behind and reporting the
/// continue signal `signal` — or fails with the message `error_of`.
pub trait Runner {
    /// Whether the stage succeeds on a document holding this text.
    spec fn runs_ok(&self, text: Seq<char>) -> bool;

    /// The continue signal the stage reports when it succeeds.
    spec fn signal(&self, text: Seq<char>) -> bool;

    /// The document text the stage leaves behind when it succeeds.
    spec fn new_text(&self, text: Seq<char>) -> Seq<char>;

    /// The message the stage reports when it fails.
    spec fn error_of(&self, text: Seq<char>) -> Seq<char>;

    /// Executes the stage on `doc` and tells the loop whether to continue.
    /// A failing stage leaves the document as it was.
    fn run(&self, doc: &mut Document) -> (r: Result<Continue, ErrorMessage>)
        ensures
            final(doc).id == old(doc).id,
            r matches Ok(c) ==> self.runs_ok(old(doc).text@) && c == self.signal(old(doc).text@)
                && final(doc).text@ == self.new_text(old(doc).text@),
            r matches Err(m) ==> !self.runs_ok(old(doc).text@) && m@ == self.error_of(
                old(doc).text@,
            ) && final(doc).text@ == old(doc).text@,
    ;
}

/// How one document's trip through the stage sequence ended.
#[derive(Clone, Copy, PartialEq, Eq, Structural, Debug)]
pub enum DocVerdict {
    /// Every stage ran and signalled continue.
    Completed,
    /// A stage signalled stop; the remaining stages were skipped.
    Halted,
    /// A failure under the `StopCurrent` policy abandoned this document.
    DocAborted,
    /// A failure under the `StopAll` policy ended the whole run.
    RunAborted,
}

/// The model of one document run through `stages[i..]` under policy `pol`:
/// the text it ends with, the error messages routed to the collector in
/// order, and the verdict.
pub open spec fn doc_run<R: Runner>(
    stages: Seq<R>,
    i: int,
    text: Seq<char>,
    pol: PolicyKind,
) -> (Seq<char>, Seq<Seq<char>>, DocVerdict)
    decreases stages.len() - i,
{
    if i < 0 || i >= stages.len() {
        (text, Seq::<Seq<char>>::empty(), DocVerdict::Completed)
    } else {
        let st = stages[i];
        if st.runs_ok(text) {
            if st.signal(text) {
                doc_run(stages, i + 1, st.new_text(text), pol)
            } else {
                (st.new_text(text), Seq::<Seq<char>>::empty(), DocVerdict::Halted)
            }
        } else {
            match pol {
                PolicyKind::StopAll => (text, seq![st.error_of(text)], DocVerdict::RunAborted),
                PolicyKind::StopCurrent => (
                    text,
                    seq![st.error_of(text)],
                    DocVerdict::DocAborted,
                ),
                PolicyKind::Collect => {
                    let rest = doc_run(stages, i + 1, text, pol);
                    (rest.0, seq![st.error_of(text)] + rest.1, rest.2)
                },
            }
        }
    }
}

/// The model of a whole run over `docs[j..]`: the surviving documents (id and
/// final text, in source order), the error messages routed to the collector,
/// and whether a `StopAll` failure aborted the run.
pub open spec fn docs_run<R: Runner>(
    stages: Seq<R>,
    docs: Seq<Document>,
    j: int,
    pol: PolicyKind,
) -> (Seq<(DocID, Seq<char>)>, Seq<Seq<char>>, bool)
    decreases docs.len() - j,
{
    if j < 0 || j >= docs.len() {
        (Seq::<(DocID, Seq<char>)>::empty(), Seq::<Seq<char>>::empty(), false)
    } else {
        let here = doc_run(stages, 0, docs[j].text@, pol);
        if here.2 is RunAborted {
            (Seq::<(DocID, Seq<char>)>::empty(), here.1, true)
        } else {
            let rest = docs_run(stages, docs, j + 1, pol);
            let kept: Seq<(DocID, Seq<char>)> = if here.2 is Completed {
                seq![(docs[j].id, here.0)]
            } else {
                Seq::<(DocID, Seq<char>)>::empty()
            };
            (kept + rest.0, here.1 + rest.1, rest.2)
        }
    }
}

/// A source of documents and an ordered, fixed-at-construction stage list.
/// Stage order is significant and preserved exactly as configured; a pipeline
/// is consumed once.
pub struct Pipeline<R> {
    source: Vec<Document>,
    sequences: Vec<R>,
}

impl<R> Pipeline<R> {
    /// The documents the pipeline will draw from, in order.
    pub closed spec fn spec_source(&self) -> Seq<Document> {
        self.source@
    }

    /// The stages the pipeline applies, in order.
    pub closed spec fn spec_sequences(&self) -> Seq<R> {
        self.sequences@
    }

    /// A pipeline over `source` that applies the stages of `seq` in order.
    pub fn new(seq: Vec<R>, source: Vec<Document>) -> (r: Pipeline<R>)
        ensures
            r.spec_sequences() == seq@,
            r.spec_source() == source@,
    {
        Pipeline { source, sequences: seq }
    }

    /// Takes the pipeline apart again: its remaining source and stage list.
    pub fn into_parts(self) -> (r: (Vec<Document>, Vec<R>))
        ensures
            r.0@ == self.spec_source(),
            r.1@ == self.spec_sequences(),
    {
        (self.source, self.sequences)
    }
}

/// A document reduced to what the run model tracks of it: its identifier and
/// its text.
pub open spec fn doc_entry(d: Document) -> (DocID, Seq<char>) {
    (d.id, d.text@)
}

/// Each document of `s`, reduced to its model entry.
pub open spec fn doc_entries(s: Seq<Document>) -> Seq<(DocID, Seq<char>)> {
    s.map_values(|d: Document| doc_entry(d))
}

/// What a completed (or aborted) run yields.
pub struct RunReport {
    /// The documents that ran every stage and were accepted throughout, in
    /// source order and with their final text.
    pub survivors: Vec<Document>,
    /// Whether a failure under the `StopAll` policy ended the run early.
    pub aborted: bool,
}

/// Drives `doc` through `stages[i..]`, routing each failure through
/// `collector`, exactly as the model `doc_run` lays it out.
fn run_document<R: Runner>(
    stages: &Vec<R>,
    i: usize,
    doc: &mut Document,
    collector: &mut ErrorCollector,
) -> (v: DocVerdict)
    requires
        i <= stages@.len(),
    ensures
        ({
            let m = doc_run(stages@, i as int, old(doc).text@, old(collector).kind());
            &&& final(doc).text@ == m.0
            &&& final(doc).id == old(doc).id
            &&& v == m.2
            &&& ErrorCollector::evolved_by(*old(collector), *final(collector), m.1)
            &&& final(collector).kind() == old(collector).kind()
        }),
    decreases stages@.len() - i,
{
    if i == stages.len() {
        proof {
            ErrorCollector::lemma_evolved_by_refl(*collector);
        }
        return DocVerdict::Completed;
    }
    let st = &stages[i];
    match st.run(doc) {
        Ok(true) => run_document(stages, i + 1, doc, collector),
        Ok(false) => {
            proof {
                ErrorCollector::lemma_evolved_by_refl(*collector);
            }
            DocVerdict::Halted
        },
        Err(m) => {
            let ghost col_mid_msgs: Seq<Seq<char>> = seq![m@];
            match collector.collect_err(m) {
                CollectOutcome::AbortRun => DocVerdict::RunAborted,
                CollectOutcome::AbortDocument => DocVerdict::DocAborted,
                CollectOutcome::Recorded => {
                    let ghost col_mid: ErrorCollector = *collector;
                    let v = run_document(stages, i + 1, doc, collector);
                    proof {
                        let rest = doc_run(
                            stages@,
                            i + 1,
                            old(doc).text@,
                            old(collector).kind(),
                        );
                        ErrorCollector::lemma_evolved_by_trans(
                            *old(collector),
                            col_mid,
                            *collector,
                            col_mid_msgs,
                            rest.1,
                        );
                        assert(col_mid_msgs + rest.1 =~= seq![
                            stages@[i as int].error_of(old(doc).text@),
                        ] + rest.1);
                    }
                    v
                },
            }
        },
    }
}

impl<R: Runner> Pipeline<R> {
    /// Consumes the pipeline: every document of the source, in source order,
    /// runs through every stage in configured order; a stop signal skips the
    /// remaining stages for that one document, and failures go through
    /// `collector`, whose policy may abandon the document or the whole run.
    pub fn run_all(self, collector: &mut ErrorCollector) -> (r: RunReport)
        ensures
            ({
                let model = docs_run(
                    self.spec_sequences(),
                    self.spec_source(),
                    0,
                    old(collector).kind(),
                );
                &&& doc_entries(r.survivors@) == model.0
                &&& r.aborted == model.2
                &&& ErrorCollector::evolved_by(*old(collector), *final(collector), model.1)
            }),
    {
        let Pipeline { source, sequences } = self;
        let ghost stages0: Seq<R> = sequences@;
        let ghost docs0: Seq<Document> = source@;
        let ghost pol: PolicyKind = collector.kind();
        let ghost col0: ErrorCollector = *collector;
        let ghost model = docs_run(stages0, docs0, 0, pol);
        let mut remaining = source;
        let mut survivors: Vec<Document> = Vec::new();
        let mut aborted = false;
        let ghost mut msgs: Seq<Seq<char>> = Seq::<Seq<char>>::empty();
        let ghost mut j: int = 0;
        proof {
            ErrorCollector::lemma_evolved_by_refl(col0);
            assert(remaining@ =~= docs0.subrange(0, docs0.len() as int));
            assert(doc_entries(survivors@) =~= Seq::<(DocID, Seq<char>)>::empty());
        }
        while remaining.len() > 0 && !aborted
            invariant
                0 <= j <= docs0.len(),
                stages0 == sequences@,
                remaining@ =~= docs0.subrange(j, docs0.len() as int),
                ErrorCollector::evolved_by(col0, *collector, msgs),
                collector.kind() == pol,
                !aborted ==> ({
                    let future = docs_run(stages0, docs0, j, pol);
                    &&& doc_entries(survivors@) + future.0 =~= model.0
                    &&& msgs + future.1 =~= model.1
                    &&& future.2 == model.2
                }),
                aborted ==> ({
                    &&& doc_entries(survivors@) =~= model.0
                    &&& msgs =~= model.1
                    &&& model.2
                }),
            decreases remaining@.len(),
        {
            let ghost j0 = j;
            let ghost col_before: ErrorCollector = *collector;
            let ghost surv_before: Seq<Document> = survivors@;
            let mut doc = remaining.remove(0);
            proof {
                assert(docs0.subrange(j0, docs0.len() as int)[0] == docs0[j0]);
                assert(remaining@ =~= docs0.subrange(j0 + 1, docs0.len() as int));
            }
            let v = run_document(&sequences, 0, &mut doc, collector);
            let ghost msgs_before: Seq<Seq<char>> = msgs;
            proof {
                msgs = msgs + doc_run(stages0, 0, docs0[j0].text@, pol).1;
                j = j0 + 1;
            }
            match v {
                DocVerdict::Completed => {
                    survivors.push(doc);
                },
                DocVerdict::RunAborted => {
                    aborted = true;
                },
                DocVerdict::Halted => {},
                DocVerdict::DocAborted => {},
            }
            proof {
                let here = doc_run(stages0, 0, docs0[j0].text@, pol);
                let rest = docs_run(stages0, docs0, j0 + 1, pol);
                let total = docs_run(stages0, docs0, j0, pol);
                ErrorCollector::lemma_evolved_by_trans(col0, col_before, *collector, msgs_before, here.1);
                assert(msgs =~= msgs_before + here.1);
                if v is RunAborted {
                    assert(total.1 == here.1 && total.2);
                    assert(doc_entries(survivors@) =~= model.0);
                    assert(msgs =~= model.1);
                } else {
                    assert(total.0 == (if v is Completed {
                        seq![(docs0[j0].id, here.0)]
                    } else {
                        Seq::<(DocID, Seq<char>)>::empty()
                    }) + rest.0 && total.1 == here.1 + rest.1 && total.2 == rest.2);
                    if v is Completed {
                        assert(doc_entries(survivors@) =~= doc_entries(surv_before).push(
                            (docs0[j0].id, here.0),
                        ));
                    }
                    assert(doc_entries(survivors@) + rest.0 =~= doc_entries(surv_before) + total.0);
                    assert(msgs + rest.1 =~= msgs_before + total.1);
                    assert(doc_entries(survivors@) + rest.0 =~= model.0);
                    assert(msgs + rest.1 =~= model.1);
                }
            }
        }
        proof {
            if !aborted {
                assert(docs0.subrange(j, docs0.len() as int).len() == 0);
                assert(j == docs0.len());
                let future = docs_run(stages0, docs0, j, pol);
                assert(future.0 =~= Seq::<(DocID, Seq<char>)>::empty());
                assert(future.1 =~= Seq::<Seq<char>>::empty());
                assert(doc_entries(survivors@) =~= doc_entries(survivors@) + future.0);
                assert(msgs =~= msgs + future.1);
            }
            assert(doc_entries(survivors@) =~= model.0);
            assert(msgs =~= model.1);
        }
        RunReport { survivors, aborted }
    }
}

/// Stage order is respected: when a stage succeeds but reports a stop
/// signal, the stages behind it play no part in the document's outcome —
/// the document halts there, whatever the remaining stages would have done.
pub proof fn lemma_stop_skips_rest<R: Runner>(
    first: R,
    rest: Seq<R>,
    text: Seq<char>,
    pol: PolicyKind,
)
    requires
        first.runs_ok(text),
        !first.signal(text),
    ensures
        doc_run(seq![first] + rest, 0, text, pol) == doc_run(seq![first], 0, text, pol),
        doc_run(seq![first] + rest, 0, text, pol) == (
            first.new_text(text),
            Seq::<Seq<char>>::empty(),
            DocVerdict::Halted,
        ),
{
    assert((seq![first] + rest)[0] == first);
    assert(seq![first][0] == first);
}

} // verus!
