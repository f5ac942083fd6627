//! The insertion-ordered set of `indexmap` in which provider lists are
//! returned, as Verus sees it: what a set holds is a named sequence of
//! providers, in insertion order, and the calls that the library makes are
//! wrappers whose contracts speak of that name.
//!
//! The wrappers rely on `InferenceProvider`'s `==` being equality of views
//! (proved of its `PartialEq` in `provider`) and on its derived `Hash`
//! agreeing with that equality.
use vstd::prelude::*;
use indexmap::IndexSet;
use crate::provider::{InferenceProvider, ProviderView};

verus! {

#[verifier::external_type_specification]
#[verifier::external_body]
#[verifier::reject_recursive_types(T)]
#[verifier::reject_recursive_types(S)]
pub struct ExIndexSet<T, S>(IndexSet<T, S>);

/// The providers that an index set holds, in insertion order.
pub uninterp spec fn provider_index_items(s: IndexSet<InferenceProvider>) -> Seq<ProviderView>;

/// `IndexSet::new`: an empty set.
#[verifier::external_body]
pub(crate) fn provider_index_new() -> (s: IndexSet<InferenceProvider>)
    ensures
        provider_index_items(s) == Seq::<ProviderView>::empty(),
{
    IndexSet::new()
}

/// `IndexSet::insert`: appends `p` where no equal item is held, and otherwise
/// leaves the set as it was; answers whether `p` was appended.
#[verifier::external_body]
pub(crate) fn provider_index_insert(s: &mut IndexSet<InferenceProvider>, p: InferenceProvider) -> (added: bool)
    ensures
        added == !provider_index_items(*old(s)).contains(p@),
        provider_index_items(*final(s)) == if added {
            provider_index_items(*old(s)).push(p@)
        } else {
            provider_index_items(*old(s))
        },
{
    s.insert(p)
}

/// `IndexSet::len`: the number of items.
#[verifier::external_body]
pub(crate) fn provider_index_len(s: &IndexSet<InferenceProvider>) -> (n: usize)
    ensures
        n == provider_index_items(*s).len(),
{
    s.len()
}

/// `IndexSet::get_index`: the item at position `i`, or `None` past the end.
#[verifier::external_body]
pub(crate) fn provider_index_get(s: &IndexSet<InferenceProvider>, i: usize) -> (item: Option<&InferenceProvider>)
    ensures
        match item {
            Some(p) => i < provider_index_items(*s).len() && p@ == provider_index_items(*s)[i as int],
            None => i >= provider_index_items(*s).len(),
        },
{
    s.get_index(i)
}

} // verus!
