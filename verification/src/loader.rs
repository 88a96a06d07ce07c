use vstd::prelude::*;

use std::sync::Arc;

use crate::symbol_table::GnaSymbolTable;

verus! {

/// A loaded GNA runtime: a shared handle on its symbol table.
///
/// Clones share one symbol table, so devices and buffers can keep the runtime alive.
pub struct GnaLibrary<S: GnaSymbolTable> {
    symbols: Arc<S>,
}

/// A second handle on the same shared value.
///
/// `Arc::clone` only increments the reference count and returns a pointer to the
/// same allocation, so the clone holds the very same value.
#[verifier::external_body]
fn arc_clone<S>(a: &Arc<S>) -> (r: Arc<S>)
    ensures
        *r == **a,
{
    Arc::clone(a)
}

impl<S: GnaSymbolTable> GnaLibrary<S> {
    /// The symbol table that calls go through.
    pub closed spec fn table(&self) -> S {
        *self.symbols
    }

    /// Wraps a symbol table, as a loader does once it has resolved every export.
    pub fn from_symbol_table(symbols: S) -> (lib: Self)
        ensures
            lib.table() == symbols,
    {
        GnaLibrary { symbols: Arc::new(symbols) }
    }

    /// The symbol table that calls go through.
    pub fn symbols(&self) -> (s: &S)
        ensures
            *s == self.table(),
    {
        &self.symbols
    }
}

impl<S: GnaSymbolTable> Clone for GnaLibrary<S> {
    /// Another handle on the same runtime.
    fn clone(&self) -> (lib: Self)
        ensures
            lib.table() == self.table(),
    {
        GnaLibrary { symbols: arc_clone(&self.symbols) }
    }
}

} // verus!
