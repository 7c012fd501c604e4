use vstd::prelude::*;

use crate::extended::ExtendedError;
use crate::record::ErrorRecord;

verus! {

/// A plain failure value: a human-facing message, a diagnostic label naming
/// the failing type, and optionally an exclusively owned causal predecessor.
///
/// It is the value form of the conventional "message plus optional cause"
/// failure contract: callers build one at the boundary where a foreign failure
/// must cross into comparable, cloneable error values, then hand it to
/// [`crate::FlatError::from_any`].
#[derive(Debug)]
pub struct SourceError {
    type_label: String,
    message: String,
    cause: Option<Box<SourceError>>,
}

impl SourceError {
    /// The causal chain of this failure value: its own record first, then the
    /// records of its cause chain in order. Always non-empty.
    pub closed spec fn chain_view(&self) -> Seq<ErrorRecord>
        decreases self,
    {
        let head = ErrorRecord { label: self.type_label@, message: self.message@ };
        match self.cause {
            None => seq![head],
            Some(boxed) => seq![head] + boxed.chain_view(),
        }
    }

    /// A failure value with the given diagnostic label and message and no
    /// causal predecessor.
    pub fn new(type_label: String, message: String) -> (e: SourceError)
        ensures
            e.chain_view() == seq![(ErrorRecord { label: type_label@, message: message@ })],
    {
        SourceError { type_label, message, cause: None }
    }

    /// A failure value with the given diagnostic label and message whose
    /// causal predecessor is `cause`, taken into exclusive ownership.
    pub fn with_cause(type_label: String, message: String, cause: SourceError) -> (e: SourceError)
        ensures
            e.chain_view() == seq![(ErrorRecord { label: type_label@, message: message@ })]
                + cause.chain_view(),
    {
        SourceError { type_label, message, cause: Some(Box::new(cause)) }
    }
}

proof fn lemma_source_head(e: &SourceError)
    ensures
        e.chain_view().len() >= 1,
        e.chain_view()[0] == (ErrorRecord { label: e.type_label@, message: e.message@ }),
        e.cause is Some ==> e.chain_view().skip(1) == e.cause->0.chain_view()
            && e.chain_view().len() > 1,
        e.cause is None ==> e.chain_view().len() == 1,
    decreases *e,
{
    let head = ErrorRecord { label: e.type_label@, message: e.message@ };
    match e.cause {
        None => {}
        Some(boxed) => {
            lemma_source_head(&*boxed);
            assert((seq![head] + boxed.chain_view()).skip(1) =~= boxed.chain_view());
        }
    }
}

fn deep_eq(a: &SourceError, b: &SourceError) -> (r: bool)
    ensures
        r == (a.chain_view() == b.chain_view()),
    decreases *a,
{
    proof {
        lemma_source_head(a);
        lemma_source_head(b);
    }
    let labels_eq = a.type_label == b.type_label;
    let messages_eq = a.message == b.message;
    let causes_eq = match (&a.cause, &b.cause) {
        (Some(x), Some(y)) => deep_eq(&**x, &**y),
        (None, None) => true,
        _ => false,
    };
    let r = labels_eq && messages_eq && causes_eq;
    proof {
        if r {
            assert(a.chain_view() =~= b.chain_view());
        } else {
            if a.chain_view() == b.chain_view() {
                assert(a.chain_view()[0] == b.chain_view()[0]);
                assert(a.chain_view().skip(1) == b.chain_view().skip(1));
                assert(false);
            }
        }
    }
    r
}

impl PartialEq for SourceError {
    /// Structural equality: two failure values are equal exactly when their
    /// whole chains — label, message and cause, recursively — are equal.
    fn eq(&self, other: &SourceError) -> (r: bool) {
        deep_eq(self, other)
    }
}

impl vstd::std_specs::cmp::PartialEqSpecImpl for SourceError {
    open spec fn obeys_eq_spec() -> bool {
        true
    }

    open spec fn eq_spec(&self, other: &SourceError) -> bool {
        self.chain_view() == other.chain_view()
    }
}

fn deep_clone(e: &SourceError) -> (r: SourceError)
    ensures
        r == *e,
    decreases *e,
{
    SourceError {
        type_label: e.type_label.clone(),
        message: e.message.clone(),
        cause: match &e.cause {
            Some(boxed) => Some(Box::new(deep_clone(&**boxed))),
            None => None,
        },
    }
}

impl Clone for SourceError {
    /// A clone is equal to the failure value it was made from, and is a fully
    /// independent owned value.
    fn clone(&self) -> (r: SourceError)
        ensures
            r == *self,
    {
        deep_clone(self)
    }
}

impl ExtendedError for SourceError {
    open spec fn chain(&self) -> Seq<ErrorRecord> {
        self.chain_view()
    }

    proof fn lemma_chain_nonempty(&self) {
        lemma_source_head(self);
    }

    fn type_label(&self) -> (label: String) {
        proof {
            lemma_source_head(self);
        }
        self.type_label.clone()
    }

    fn message(&self) -> (message: String) {
        proof {
            lemma_source_head(self);
        }
        self.message.clone()
    }

    fn cause(&self) -> (cause: Option<&Self>) {
        proof {
            lemma_source_head(self);
        }
        match &self.cause {
            Some(boxed) => Some(&**boxed),
            None => None,
        }
    }
}

} // verus!
