use vstd::prelude::*;

use crate::record::ErrorRecord;

verus! {

/// The capability contract for failure values: a type qualifies when it is
/// cloneable, comparable, and behaves as a conventional failure — it renders a
/// human-facing message, names its own type for diagnostics, and exposes an
/// optional causal predecessor of the same type.
///
/// The whole causal chain is abstracted by `chain()`, a non-empty sequence of
/// records, outermost failure first; the executable methods are each tied to
/// that one view, so a chain can be captured or compared without knowing the
/// concrete type.
pub trait ExtendedError: Sized + Clone + PartialEq {
    /// The causal chain of this failure value: its own record first, then the
    /// records of its predecessors in order.
    spec fn chain(&self) -> Seq<ErrorRecord>;

    /// Every failure value describes at least itself.
    proof fn lemma_chain_nonempty(&self)
        ensures
            self.chain().len() >= 1,
    ;

    /// The diagnostic label naming the failure's original type.
    fn type_label(&self) -> (label: String)
        ensures
            label@ == self.chain()[0].label,
    ;

    /// The failure's human-facing message.
    fn message(&self) -> (message: String)
        ensures
            message@ == self.chain()[0].message,
    ;

    /// The causal predecessor, if any: present exactly when the chain extends
    /// past this failure, and carrying precisely the rest of the chain.
    fn cause(&self) -> (cause: Option<&Self>)
        ensures
            match cause {
                Some(predecessor) => self.chain().len() > 1 && predecessor.chain()
                    == self.chain().skip(1),
                None => self.chain().len() == 1,
            },
    ;
}

} // verus!
