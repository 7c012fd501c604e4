use vstd::prelude::*;
use vstd::std_specs::cmp::PartialEqSpec;
use vstd::string::StringExecFns;

use crate::extended::ExtendedError;
use crate::record::{compact_render, source_clause, verbose_render, ErrorRecord};

verus! {

/// An immutable snapshot of a failure value: its human-facing message, a
/// diagnostic label naming its original type, and, when the failure had a
/// causal predecessor, an exclusively owned snapshot of that predecessor.
///
/// A snapshot is comparable, cloneable and independent of the failure it was
/// captured from: every field is an owned copy made at capture time. The
/// mathematical value of a snapshot is `chain_view()`, the finite sequence of
/// records down its cause chain, outermost first.
#[derive(Debug)]
pub struct FlatError {
    original_type_name: String,
    message: String,
    source: Option<Box<FlatError>>,
}

impl FlatError {
    /// The captured causal chain: this snapshot's record first, then the
    /// records of the owned cause chain in order. Always non-empty.
    pub closed spec fn chain_view(&self) -> Seq<ErrorRecord>
        decreases self,
    {
        let head = ErrorRecord { label: self.original_type_name@, message: self.message@ };
        match self.source {
            None => seq![head],
            Some(boxed) => seq![head] + boxed.chain_view(),
        }
    }

    /// The depth of the captured causal chain: one for the failure itself plus
    /// one for each predecessor.
    pub open spec fn depth(&self) -> nat {
        self.chain_view().len()
    }
}

proof fn lemma_head(e: &FlatError)
    ensures
        e.chain_view().len() >= 1,
        e.chain_view()[0] == (ErrorRecord { label: e.original_type_name@, message: e.message@ }),
        e.source is Some ==> e.chain_view().skip(1) == e.source->0.chain_view()
            && e.chain_view().len() > 1,
        e.source is None ==> e.chain_view().len() == 1,
    decreases *e,
{
    let head = ErrorRecord { label: e.original_type_name@, message: e.message@ };
    match e.source {
        None => {}
        Some(boxed) => {
            lemma_head(&*boxed);
            assert((seq![head] + boxed.chain_view()).skip(1) =~= boxed.chain_view());
        }
    }
}

fn deep_eq(a: &FlatError, b: &FlatError) -> (r: bool)
    ensures
        r == (a.chain_view() == b.chain_view()),
    decreases *a,
{
    proof {
        lemma_head(a);
        lemma_head(b);
    }
    let labels_eq = a.original_type_name == b.original_type_name;
    let messages_eq = a.message == b.message;
    let sources_eq = match (&a.source, &b.source) {
        (Some(x), Some(y)) => deep_eq(&**x, &**y),
        (None, None) => true,
        _ => false,
    };
    let r = labels_eq && messages_eq && sources_eq;
    proof {
        if r {
            assert(a.chain_view() =~= b.chain_view());
        } else {
            if a.chain_view() == b.chain_view() {
                assert(a.chain_view()[0] == b.chain_view()[0]);
                assert(a.chain_view().skip(1) == b.chain_view().skip(1));
                assert(false);
            }
        }
    }
    r
}

impl PartialEq for FlatError {
    /// Structural equality: two snapshots are equal exactly when their whole
    /// captured chains — label, message and cause, recursively — are equal.
    fn eq(&self, other: &FlatError) -> (r: bool) {
        deep_eq(self, other)
    }
}

impl vstd::std_specs::cmp::PartialEqSpecImpl for FlatError {
    open spec fn obeys_eq_spec() -> bool {
        true
    }

    open spec fn eq_spec(&self, other: &FlatError) -> bool {
        self.chain_view() == other.chain_view()
    }
}

fn deep_clone(e: &FlatError) -> (r: FlatError)
    ensures
        r == *e,
    decreases *e,
{
    FlatError {
        original_type_name: e.original_type_name.clone(),
        message: e.message.clone(),
        source: match &e.source {
            Some(boxed) => Some(Box::new(deep_clone(&**boxed))),
            None => None,
        },
    }
}

impl Clone for FlatError {
    /// Law: a clone is equal to the snapshot it was made from, and is a fully
    /// independent owned value.
    fn clone(&self) -> (r: FlatError)
        ensures
            r == *self,
    {
        deep_clone(self)
    }
}

impl FlatError {
    /// Construct a snapshot by flattening the given failure value: record its
    /// type label, copy its message, and recursively capture its causal
    /// predecessor, if any. The snapshot's chain equals the failure's chain
    /// exactly, so capture is deterministic, preserves the chain's depth, and
    /// leaves the failure untouched.
    pub fn from_any<E: ExtendedError>(error: &E) -> (snapshot: FlatError)
        ensures
            snapshot.chain_view() == error.chain(),
        decreases error.chain().len(),
    {
        proof {
            error.lemma_chain_nonempty();
        }
        let source = match error.cause() {
            Some(predecessor) => Some(Box::new(FlatError::from_any(predecessor))),
            None => None,
        };
        let snapshot = FlatError {
            original_type_name: error.type_label(),
            message: error.message(),
            source,
        };
        proof {
            lemma_head(&snapshot);
            assert(snapshot.chain_view() =~= error.chain());
        }
        snapshot
    }

    /// The snapshot of the immediate causal predecessor, if any: present
    /// exactly when the chain extends past this snapshot, and carrying
    /// precisely the rest of the chain. Borrowed, not transferred.
    pub fn flat_source(&self) -> (r: Option<&FlatError>)
        ensures
            match r {
                Some(cause) => self.chain_view().len() > 1 && cause.chain_view()
                    == self.chain_view().skip(1),
                None => self.chain_view().len() == 1,
            },
    {
        proof {
            lemma_head(self);
        }
        match &self.source {
            Some(boxed) => Some(&**boxed),
            None => None,
        }
    }

    /// The diagnostic label naming the captured failure's original type. It is
    /// best-effort diagnostic output, never part of equality beyond comparing
    /// the stored label itself.
    pub fn original_type_name(&self) -> (label: &str)
        ensures
            label@ == self.chain_view()[0].label,
    {
        proof {
            lemma_head(self);
        }
        self.original_type_name.as_str()
    }

    /// The compact rendering: exactly the captured message, nothing else.
    pub fn to_compact_string(&self) -> (r: String)
        ensures
            r@ == compact_render(self.chain_view()),
    {
        proof {
            lemma_head(self);
        }
        self.message.clone()
    }

    /// The verbose rendering: the message followed, in parentheses, by a
    /// single-level `source:` clause giving the immediate cause's compact
    /// rendering (when a cause is present) and the original type label in
    /// backquotes.
    pub fn to_verbose_string(&self) -> (r: String)
        ensures
            r@ == verbose_render(self.chain_view()),
    {
        proof {
            lemma_head(self);
        }
        let mut r = String::from_str(self.message.as_str());
        r.append(" (");
        match &self.source {
            Some(boxed) => {
                proof {
                    lemma_head(&**boxed);
                }
                r.append("source: ");
                r.append(boxed.message.as_str());
                r.append(", ");
            },
            None => {},
        }
        r.append("original type: `");
        r.append(self.original_type_name.as_str());
        r.append("`)");
        proof {
            assert(r@ =~= verbose_render(self.chain_view()));
        }
        r
    }
}

impl ExtendedError for FlatError {
    /// A snapshot's own causal chain is exactly the chain it captured, so a
    /// snapshot can itself be captured again without loss.
    open spec fn chain(&self) -> Seq<ErrorRecord> {
        self.chain_view()
    }

    proof fn lemma_chain_nonempty(&self) {
        lemma_head(self);
    }

    fn type_label(&self) -> (label: String) {
        proof {
            lemma_head(self);
        }
        self.original_type_name.clone()
    }

    fn message(&self) -> (message: String) {
        proof {
            lemma_head(self);
        }
        self.message.clone()
    }

    fn cause(&self) -> (cause: Option<&Self>) {
        self.flat_source()
    }
}

/// Law: a snapshot's compact rendering is exactly the message of the failure
/// it was captured from — for any snapshot whose chain equals a captured
/// failure's chain, the compact rendering is that chain's head message.
pub proof fn lemma_compact_is_message(snapshot: FlatError, chain: Seq<ErrorRecord>)
    requires
        snapshot.chain_view() == chain,
        chain.len() >= 1,
    ensures
        compact_render(snapshot.chain_view()) == chain[0].message,
{
}

/// Law: capture preserves depth — a snapshot whose chain equals a failure's
/// chain of depth `n` has cause-chain depth exactly `n`.
pub proof fn lemma_depth_preserved(snapshot: FlatError, chain: Seq<ErrorRecord>)
    requires
        snapshot.chain_view() == chain,
    ensures
        snapshot.depth() == chain.len(),
{
}

/// Law: the type label is a faithful diagnostic — a snapshot captured from a
/// failure whose recorded label is non-empty itself carries a non-empty label,
/// and [`FlatError::original_type_name`] returns exactly that label.
pub proof fn lemma_label_nonempty(snapshot: FlatError, chain: Seq<ErrorRecord>)
    requires
        snapshot.chain_view() == chain,
        chain.len() >= 1,
        chain[0].label.len() > 0,
    ensures
        snapshot.chain_view()[0].label.len() > 0,
{
}

/// Law: equality of snapshots is structural and capture is deterministic —
/// two snapshots compare equal exactly when the chains they captured are
/// equal. Two captures of one failure are therefore equal, and captures of
/// failures differing in message, label or cause chain are unequal.
pub proof fn lemma_structural_equality(
    a: FlatError,
    b: FlatError,
    chain_a: Seq<ErrorRecord>,
    chain_b: Seq<ErrorRecord>,
)
    requires
        a.chain_view() == chain_a,
        b.chain_view() == chain_b,
    ensures
        a.eq_spec(&b) <==> chain_a == chain_b,
{
}

} // verus!
