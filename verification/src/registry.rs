//! The overlay's context of each window, kept in a concurrent map.

use dashmap::DashMap;
use std::collections::hash_map::RandomState;
use vstd::prelude::*;

verus! {

/// `dashmap::DashMap`, a hash map that can be read and filled through a shared
/// reference.
#[verifier::external_type_specification]
#[verifier::external_body]
#[verifier::reject_recursive_types(K)]
#[verifier::reject_recursive_types(V)]
#[verifier::reject_recursive_types(S)]
pub struct ExDashMap<K, V, S>(DashMap<K, V, S>);

/// `egui::Context`, the overlay's state for one window. The library creates one
/// per window and hands it out; it never looks inside.
#[verifier::external_type_specification]
#[verifier::external_body]
pub struct ExContext(egui::Context);

/// The windows that have a context in the map.
pub uninterp spec fn registered(contexts: DashMap<u64, egui::Context, RandomState>) -> Set<u64>;

/// Calls `DashMap::new`. Trusted: the new map holds nothing.
#[verifier::external_body]
pub(crate) fn new_registry() -> (contexts: DashMap<u64, egui::Context, RandomState>)
    ensures
        registered(contexts) == Set::<u64>::empty(),
{
    DashMap::new()
}

/// Calls `egui::Context::default` for a fresh context of its own.
#[verifier::external_body]
pub(crate) fn new_context() -> egui::Context {
    egui::Context::default()
}

/// Calls `DashMap::insert`. Trusted: afterwards the window has a context, and
/// every other window has one exactly if it had one before.
#[verifier::external_body]
pub(crate) fn register(
    contexts: &mut DashMap<u64, egui::Context, RandomState>,
    window: u64,
    context: egui::Context,
)
    ensures
        registered(*final(contexts)) == registered(*old(contexts)).insert(window),
{
    contexts.insert(window, context);
}

/// Calls `DashMap::get` and clones the context it finds. Trusted: a context is
/// found exactly for the windows that have one.
#[verifier::external_body]
pub(crate) fn lookup(contexts: &DashMap<u64, egui::Context, RandomState>, window: u64) -> (found:
    Option<egui::Context>)
    ensures
        found is Some <==> registered(*contexts).contains(window),
{
    contexts.get(&window).map(|entry| entry.value().clone())
}

} // verus!
