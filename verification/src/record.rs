use vstd::prelude::*;

verus! {

/// One link of a causal chain, as mathematics: the diagnostic type label and
/// the human-facing message of a single failure value. A whole chain is a
/// `Seq<ErrorRecord>` whose first element describes the failure itself and
/// whose remaining elements describe its causal predecessors, outermost first.
pub ghost struct ErrorRecord {
    pub label: Seq<char>,
    pub message: Seq<char>,
}

/// The compact rendering of a non-empty chain: exactly the head failure's
/// message, nothing else.
pub open spec fn compact_render(chain: Seq<ErrorRecord>) -> Seq<char> {
    chain[0].message
}

/// The clause naming the immediate cause inside a verbose rendering: present
/// only when the chain has a predecessor, and rendered in the predecessor's
/// compact form. Only a single level is disclosed, by design.
pub open spec fn source_clause(chain: Seq<ErrorRecord>) -> Seq<char> {
    if chain.len() > 1 {
        "source: "@ + chain[1].message + ", "@
    } else {
        Seq::<char>::empty()
    }
}

/// The verbose rendering of a non-empty chain: the message followed, in
/// parentheses, by the source clause (if any) and the original type label in
/// backquotes.
pub open spec fn verbose_render(chain: Seq<ErrorRecord>) -> Seq<char> {
    chain[0].message + " ("@ + source_clause(chain) + "original type: `"@ + chain[0].label + "`)"@
}

} // verus!
