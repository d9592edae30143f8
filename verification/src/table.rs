//! The resolved entry points.

use crate::operation::{Operation, OPERATION_COUNT};
use vstd::prelude::*;

verus! {

/// The addresses of all fourteen entry points inside the loaded library.
///
/// A table only exists complete: it holds one address for each operation and
/// none of them is null. It is made once, when the last symbol has been
/// resolved, and never changes afterwards.
pub struct SymbolTable {
    entries: Vec<usize>,
}

impl View for SymbolTable {
    type V = Seq<usize>;

    /// The addresses, in resolution order.
    closed spec fn view(&self) -> Seq<usize> {
        self.entries@
    }
}

/// Whether a sequence of addresses is a complete table: one address for each
/// operation, none of them null.
pub open spec fn complete(addresses: Seq<usize>) -> bool {
    &&& addresses.len() == OPERATION_COUNT
    &&& forall|i: int| 0 <= i < addresses.len() ==> addresses[i] != 0
}

impl SymbolTable {
    #[verifier::type_invariant]
    spec fn well_formed(self) -> bool {
        complete(self@)
    }

    /// Makes the table from the addresses of all entry points, in
    /// resolution order.
    pub(crate) fn assemble(entries: Vec<usize>) -> (table: SymbolTable)
        requires
            complete(entries@),
        ensures
            table@ == entries@,
    {
        SymbolTable { entries }
    }

    /// The address the operation's symbol resolved to.
    pub open spec fn spec_address(self, operation: Operation) -> usize {
        self@[operation.spec_index() as int]
    }

    /// The address the operation's symbol resolved to. It is never null.
    pub fn address(&self, operation: Operation) -> (target: usize)
        ensures
            target == self.spec_address(operation),
            target != 0,
            complete(self@),
    {
        proof {
            use_type_invariant(self);
        }
        self.entries[operation.index()]
    }
}

} // verus!
