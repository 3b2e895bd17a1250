//! Error tallying and the failure policy that governs a pipeline run.
//!
//! A stage failure is routed through the active [`ErrorCollector`], whose
//! variant decides whether the failure aborts the whole run (`StopAll`),
//! abandons only the current document (`StopCurrent`), or is tallied in an
//! [`ErrorMap`] and tolerated (`Collect`).

use vstd::prelude::*;

verus! {

/// A normalized string rendering of a failure, used as a tally key.
/// Equality is by exact string content: distinct wordings of logically the
/// same error are tracked as distinct entries.
#[derive(Clone, PartialEq, Eq, PartialOrd, Ord, Hash, Debug)]
pub struct ErrorMessage(pub String);

impl View for ErrorMessage {
    type V = Seq<char>;

    open spec fn view(&self) -> Seq<char> {
        self.0@
    }
}

/// The content of an error tally: each distinct message, with its count.
pub uninterp spec fn err_counts(m: ahash::AHashMap<String, usize>) -> Map<Seq<char>, usize>;

/// The tally with nothing recorded.
pub open spec fn empty_counts() -> Map<Seq<char>, usize> {
    Map::<Seq<char>, usize>::empty()
}

#[verifier::external_type_specification]
#[verifier::external_body]
#[verifier::reject_recursive_types(K)]
#[verifier::reject_recursive_types(V)]
#[verifier::reject_recursive_types(S)]
pub struct ExAHashMap<K, V, S>(ahash::AHashMap<K, V, S>);

#[verifier::external_type_specification]
#[verifier::external_body]
pub struct ExAHashRandomState(ahash::RandomState);

/// Relies on `ahash::AHashMap::new`: a freshly created map holds nothing.
#[verifier::external_body]
fn err_map_new() -> (r: ahash::AHashMap<String, usize>)
    ensures
        err_counts(r) == empty_counts(),
{
    ahash::AHashMap::new()
}

/// Relies on `HashMap::get`, reached through `ahash::AHashMap`'s `Deref`:
/// returns the count stored under exactly this key, if there is one.
#[verifier::external_body]
fn err_map_get(m: &ahash::AHashMap<String, usize>, key: &String) -> (r: Option<usize>)
    ensures
        r == if err_counts(*m).dom().contains(key@) {
            Some(err_counts(*m)[key@])
        } else {
            None::<usize>
        },
{
    m.get(key).copied()
}

/// Relies on `HashMap::insert`, reached through `ahash::AHashMap`'s
/// `DerefMut`: stores `count` under `key`, replacing any previous entry for
/// that exact string, and touching no other entry.
#[verifier::external_body]
fn err_map_insert(m: &mut ahash::AHashMap<String, usize>, key: String, count: usize)
    ensures
        err_counts(*final(m)) == err_counts(*old(m)).insert(key@, count),
        err_counts(*old(m)).dom().finite() ==> err_counts(*final(m)).dom().finite(),
{
    m.insert(key, count);
}

/// Relies on `HashMap::len`, reached through `ahash::AHashMap`'s `Deref`:
/// the number of distinct keys stored.
#[verifier::external_body]
fn err_map_len(m: &ahash::AHashMap<String, usize>) -> (r: usize)
    ensures
        r == err_counts(*m).dom().len(),
{
    m.len()
}

/// A count after one more occurrence; the tally sticks at the machine limit
/// rather than wrapping.
pub open spec fn bumped(c: usize) -> usize {
    if c == usize::MAX {
        c
    } else {
        (c + 1) as usize
    }
}

/// The tally after recording `msg` once: a first occurrence enters at 1, a
/// repeat is counted one higher.
pub open spec fn recorded(m: Map<Seq<char>, usize>, msg: Seq<char>) -> Map<Seq<char>, usize> {
    let prior: usize = if m.dom().contains(msg) {
        m[msg]
    } else {
        0
    };
    m.insert(msg, bumped(prior))
}

/// The tally after recording each message of `msgs` in order.
pub open spec fn recorded_all(m: Map<Seq<char>, usize>, msgs: Seq<Seq<char>>) -> Map<
    Seq<char>,
    usize,
>
    decreases msgs.len(),
{
    if msgs.len() == 0 {
        m
    } else {
        recorded_all(recorded(m, msgs[0]), msgs.drop_first())
    }
}

/// Recording messages in two batches is recording them in one: the tally
/// folds left over the concatenation.
pub proof fn lemma_recorded_all_append(
    m: Map<Seq<char>, usize>,
    s1: Seq<Seq<char>>,
    s2: Seq<Seq<char>>,
)
    ensures
        recorded_all(m, s1 + s2) == recorded_all(recorded_all(m, s1), s2),
    decreases s1.len(),
{
    if s1.len() == 0 {
        assert(s1 + s2 =~= s2);
    } else {
        assert((s1 + s2)[0] == s1[0]);
        assert((s1 + s2).drop_first() =~= s1.drop_first() + s2);
        lemma_recorded_all_append(recorded(m, s1[0]), s1.drop_first(), s2);
    }
}

/// Starting from a tally in which neither message has been seen: recording
/// `msg` twice tallies it at 2, and a distinct message `other` recorded once
/// stands at 1, without disturbing the count of `msg`.
pub proof fn lemma_record_counts(m: Map<Seq<char>, usize>, msg: Seq<char>, other: Seq<char>)
    requires
        !m.dom().contains(msg),
        !m.dom().contains(other),
        msg != other,
    ensures
        recorded(m, msg)[msg] == 1,
        recorded(recorded(m, msg), msg)[msg] == 2,
        recorded(recorded(m, msg), other)[other] == 1,
        recorded(recorded(m, msg), other)[msg] == 1,
{
}

/// Tally of distinct error messages to their occurrence counts. Insertion
/// order is irrelevant; only content and counts matter.
pub struct ErrorMap {
    counts: ahash::AHashMap<String, usize>,
}

impl View for ErrorMap {
    type V = Map<Seq<char>, usize>;

    closed spec fn view(&self) -> Map<Seq<char>, usize> {
        err_counts(self.counts)
    }
}

impl ErrorMap {
    /// The tally's standing invariant: finitely many entries, every count at
    /// least 1.
    pub open spec fn wf(&self) -> bool {
        &&& self@.dom().finite()
        &&& forall|k: Seq<char>| self@.dom().contains(k) ==> #[trigger] self@[k] >= 1
    }

    /// Records one occurrence of `err_msg`: inserted at count 1 if new,
    /// counted one higher on a repeat.
    pub fn add_err(&mut self, err_msg: ErrorMessage)
        ensures
            final(self)@ == recorded(old(self)@, err_msg@),
            old(self).wf() ==> final(self).wf(),
    {
        let prior = err_map_get(&self.counts, &err_msg.0);
        match prior {
            Some(c) => {
                let next: usize = if c == usize::MAX {
                    c
                } else {
                    c + 1
                };
                err_map_insert(&mut self.counts, err_msg.0, next);
            },
            None => {
                err_map_insert(&mut self.counts, err_msg.0, 1);
            },
        }
    }

    /// The count recorded for `msg`, if it was ever recorded.
    pub fn get(&self, msg: &ErrorMessage) -> (r: Option<usize>)
        ensures
            r == if self@.dom().contains(msg@) {
                Some(self@[msg@])
            } else {
                None::<usize>
            },
    {
        err_map_get(&self.counts, &msg.0)
    }

    /// How many distinct messages have been recorded.
    pub fn len(&self) -> (r: usize)
        ensures
            r == self@.dom().len(),
    {
        err_map_len(&self.counts)
    }
}

impl Default for ErrorMap {
    /// An empty tally.
    fn default() -> (r: Self)
        ensures
            r@ == empty_counts(),
            r.wf(),
    {
        let counts = err_map_new();
        ErrorMap { counts }
    }
}

/// What the pipeline must do after a failure was routed through the policy.
#[derive(Clone, Copy, PartialEq, Eq, Structural, Debug)]
pub enum CollectOutcome {
    /// Terminate the entire run; no further documents or stages.
    AbortRun,
    /// Abandon the current document only; the next document proceeds.
    AbortDocument,
    /// The failure was tallied; proceed as if nothing failed.
    Recorded,
}

/// The three failure policies, stripped of any accumulated payload.
#[derive(Clone, Copy, PartialEq, Eq, Structural, Debug)]
pub enum PolicyKind {
    StopAll,
    StopCurrent,
    Collect,
}

/// The failure policy of a run: chosen once, for the whole run. Only the
/// `Collect` variant carries state.
pub enum ErrorCollector {
    /// A failure terminates the entire run.
    StopAll,
    /// A failure abandons the current document only.
    StopCurrent,
    /// Failures are tallied and tolerated.
    Collect(ErrorMap),
}

impl ErrorCollector {
    /// Which of the three policies this collector applies.
    pub open spec fn kind(&self) -> PolicyKind {
        match *self {
            ErrorCollector::StopAll => PolicyKind::StopAll,
            ErrorCollector::StopCurrent => PolicyKind::StopCurrent,
            ErrorCollector::Collect(_) => PolicyKind::Collect,
        }
    }

    /// How a collector's state changes when the messages of `msgs` are routed
    /// through it in order: only a `Collect` policy accumulates anything.
    pub open spec fn evolved_by(pre: Self, post: Self, msgs: Seq<Seq<char>>) -> bool {
        match pre {
            ErrorCollector::Collect(em) => post matches ErrorCollector::Collect(em2)
                && em2@ == recorded_all(em@, msgs) && (em.wf() ==> em2.wf()),
            _ => post == pre,
        }
    }

    /// A collector that routes no message does not change.
    pub proof fn lemma_evolved_by_refl(c: ErrorCollector)
        ensures
            ErrorCollector::evolved_by(c, c, Seq::<Seq<char>>::empty()),
    {
        match c {
            ErrorCollector::Collect(em) => {
                assert(recorded_all(em@, Seq::<Seq<char>>::empty()) == em@);
            },
            _ => {},
        }
    }

    /// Routing one batch of messages and then another is routing the
    /// concatenation.
    pub proof fn lemma_evolved_by_trans(
        a: ErrorCollector,
        b: ErrorCollector,
        c: ErrorCollector,
        m1: Seq<Seq<char>>,
        m2: Seq<Seq<char>>,
    )
        requires
            ErrorCollector::evolved_by(a, b, m1),
            ErrorCollector::evolved_by(b, c, m2),
        ensures
            ErrorCollector::evolved_by(a, c, m1 + m2),
    {
        match a {
            ErrorCollector::Collect(em) => {
                lemma_recorded_all_append(em@, m1, m2);
            },
            _ => {},
        }
    }

    /// Routes one failure through the policy: the outcome says whether the
    /// run, the document, or nothing at all is to be given up.
    pub fn collect_err(&mut self, err: ErrorMessage) -> (r: CollectOutcome)
        ensures
            match *old(self) {
                ErrorCollector::StopAll => r == CollectOutcome::AbortRun,
                ErrorCollector::StopCurrent => r == CollectOutcome::AbortDocument,
                ErrorCollector::Collect(_) => r == CollectOutcome::Recorded,
            },
            Self::evolved_by(*old(self), *final(self), seq![err@]),
    {
        match self {
            ErrorCollector::StopAll => CollectOutcome::AbortRun,
            ErrorCollector::StopCurrent => CollectOutcome::AbortDocument,
            ErrorCollector::Collect(em) => {
                em.add_err(err);
                proof {
                    assert(seq![err@].drop_first() =~= Seq::<Seq<char>>::empty());
                    assert(recorded_all(recorded(old(self)->Collect_0@, err@), Seq::<Seq<char>>::empty())
                        == recorded(old(self)->Collect_0@, err@));
                }
                CollectOutcome::Recorded
            },
        }
    }

    /// Reads out the accumulated tally. Only a `Collect` policy owns one:
    /// asking a `StopAll` or `StopCurrent` collector is a reportable misuse
    /// and fails with the conversion error.
    pub fn try_into(self) -> (r: Result<ErrorMap, ErrorCollectorConversionError>)
        ensures
            match self {
                ErrorCollector::Collect(em) => r matches Ok(got) && got == em,
                _ => r matches Err(e) && e == ErrorCollectorConversionError,
            },
    {
        match self {
            ErrorCollector::StopAll => Err(ErrorCollectorConversionError),
            ErrorCollector::StopCurrent => Err(ErrorCollectorConversionError),
            ErrorCollector::Collect(em) => Ok(em),
        }
    }
}

/// Asking a non-`Collect` collector for its tally fails with this error.
#[derive(Clone, Copy, PartialEq, Eq, Structural, Debug)]
pub struct ErrorCollectorConversionError;

impl ErrorCollectorConversionError {
    /// The human-readable rendering of the error.
    pub fn message(&self) -> (r: &'static str)
        ensures
            r@ == "Could not convert an ErrorCollector into a ErrorMap"@,
    {
        "Could not convert an ErrorCollector into a ErrorMap"
    }
}

} // verus!
