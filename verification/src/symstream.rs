//! The boundary to `symbios`: the symbol interner and the derived symbol
//! stream that the interpreter walks.
//!
//! A [`SymbiosState`] holds an ordered sequence of modules, each carrying a
//! symbol identifier and a list of numeric parameters. The library reads it
//! only through the wrappers below. `views_of` names the longest prefix of
//! module views that the state yields, each parameter narrowed to single
//! precision exactly as the interpreter consumes it; `raw_len_of` names the
//! state's module count.

use vstd::prelude::*;
use symbios::SymbiosState;
use symbios::SymbolTable;
use crate::scalar::Scalar;

verus! {

#[verifier::external_type_specification]
#[verifier::external_body]
pub struct ExSymbiosState(SymbiosState);

#[verifier::external_type_specification]
#[verifier::external_body]
pub struct ExSymbolTable(SymbolTable);

/// One entry of the symbol stream: a symbol identifier and its parameters.
pub type StreamEntry = (u16, Seq<Scalar>);

/// The longest prefix of module views that the state yields, in order; each
/// view is its symbol identifier and its parameters, each parameter
/// narrowed to single precision.
pub uninterp spec fn views_of(s: SymbiosState) -> Seq<StreamEntry>;

/// The number of modules the state holds.
pub uninterp spec fn raw_len_of(s: SymbiosState) -> nat;

/// The identifier that the interner resolves a name to, if any.
pub uninterp spec fn sym_id_of(t: SymbolTable, name: Seq<char>) -> Option<u16>;

/// Relies on `symbios`'s `SymbiosState::len`: the number of modules in the
/// current string. A view can only be retrieved at an index below it.
#[verifier::external_body]
pub(crate) fn state_len(s: &SymbiosState) -> (n: usize)
    ensures
        n == raw_len_of(*s),
        views_of(*s).len() <= n,
{
    s.len()
}

/// Relies on `symbios`'s `SymbiosState::get_view`: yields the module view
/// at `i` while views are available, and nothing at or past the first index
/// where none is (in particular past the end of the string).
#[verifier::external_body]
pub(crate) fn state_view(s: &SymbiosState, i: usize) -> (r: Option<(u16, Vec<Scalar>)>)
    ensures
        i < views_of(*s).len() ==> {
            &&& r is Some
            &&& r.unwrap().0 == views_of(*s)[i as int].0
            &&& r.unwrap().1@ == views_of(*s)[i as int].1
        },
        i == views_of(*s).len() && i < raw_len_of(*s) ==> r is None,
        i >= raw_len_of(*s) ==> r is None,
{
    match s.get_view(i) {
        Some(view) => {
            let mut params: Vec<Scalar> = Vec::with_capacity(view.params.len());
            for p in view.params.iter() {
                params.push(bevy_math::primitives::Circle::new(*p as _));
            }
            Some((view.sym, params))
        },
        None => None,
    }
}

/// Relies on `symbios`'s `SymbolTable::resolve_id`: looks up the ID of an
/// already-interned name, or nothing if the name was never interned.
#[verifier::external_body]
pub(crate) fn resolve_symbol(t: &SymbolTable, name: &str) -> (r: Option<u16>)
    ensures
        r == sym_id_of(*t, name@),
{
    t.resolve_id(name)
}

} // verus!
