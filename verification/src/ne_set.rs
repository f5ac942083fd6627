//! The non-empty hash sets of `nonempty_collections` that balancing
//! configurations hold, as Verus sees them: what each set holds is a named
//! `Set` of values, and the calls that the library makes are wrappers whose
//! contracts speak of that name.
//!
//! Each wrapper relies on the item type's `==` being equality of views
//! (which `src/` proves of each item type's `PartialEq`) and on its `Hash`
//! agreeing with that equality, as the derived `Hash` does.
use vstd::prelude::*;
use nonempty_collections::NESet;
use crate::balance::{WeightedModel, WeightedModelView, WeightedProvider, WeightedProviderView};
use crate::provider::{InferenceProvider, ModelId, ModelIdView, ProviderView};

verus! {

#[verifier::external_type_specification]
#[verifier::external_body]
#[verifier::reject_recursive_types(T)]
#[verifier::reject_recursive_types(S)]
pub struct ExNESet<T, S>(NESet<T, S>);

/// The providers that a set of providers holds.
pub uninterp spec fn provider_set_contents(s: NESet<InferenceProvider>) -> Set<ProviderView>;

/// The weighted providers that a set of weighted providers holds.
pub uninterp spec fn weighted_provider_set_contents(s: NESet<WeightedProvider>) -> Set<WeightedProviderView>;

/// The weighted models that a set of weighted models holds.
pub uninterp spec fn weighted_model_set_contents(s: NESet<WeightedModel>) -> Set<WeightedModelView>;

/// The models that a set of models holds.
pub uninterp spec fn model_set_contents(s: NESet<ModelId>) -> Set<ModelIdView>;

/// `NESet::new`: a set that holds `first` alone.
#[verifier::external_body]
pub(crate) fn provider_set_new(first: InferenceProvider) -> (s: NESet<InferenceProvider>)
    ensures
        provider_set_contents(s) == set![first@],
{
    NESet::new(first)
}

/// `NESet::insert`: adds `p` to the set; answers whether it was not there yet.
#[verifier::external_body]
pub(crate) fn provider_set_insert(s: &mut NESet<InferenceProvider>, p: InferenceProvider) -> (added: bool)
    ensures
        provider_set_contents(*final(s)) == provider_set_contents(*old(s)).insert(p@),
        added == !provider_set_contents(*old(s)).contains(p@),
{
    s.insert(p)
}

/// `NESet::iter`, collected: each item of the set once, in the order in which
/// the underlying hash set is walked (which the contract leaves open).
#[verifier::external_body]
pub(crate) fn provider_set_items(s: &NESet<InferenceProvider>) -> (items: Vec<&InferenceProvider>)
    ensures
        items@.map_values(|p: &InferenceProvider| p@).to_set() == provider_set_contents(*s),
        items@.map_values(|p: &InferenceProvider| p@).no_duplicates(),
        items@.len() > 0,
{
    s.iter().collect()
}

/// `NESet::new`: a set that holds `first` alone.
#[verifier::external_body]
pub(crate) fn weighted_provider_set_new(first: WeightedProvider) -> (s: NESet<WeightedProvider>)
    ensures
        weighted_provider_set_contents(s) == set![first@],
{
    NESet::new(first)
}

/// `NESet::iter`, collected: each item of the set once, in the order in which
/// the underlying hash set is walked (which the contract leaves open).
#[verifier::external_body]
pub(crate) fn weighted_provider_set_items(s: &NESet<WeightedProvider>) -> (items: Vec<&WeightedProvider>)
    ensures
        items@.map_values(|p: &WeightedProvider| p@).to_set() == weighted_provider_set_contents(*s),
        items@.map_values(|p: &WeightedProvider| p@).no_duplicates(),
        items@.len() > 0,
{
    s.iter().collect()
}

/// `NESet::iter`, collected: each item of the set once, in the order in which
/// the underlying hash set is walked (which the contract leaves open).
#[verifier::external_body]
pub(crate) fn weighted_model_set_items(s: &NESet<WeightedModel>) -> (items: Vec<&WeightedModel>)
    ensures
        items@.map_values(|m: &WeightedModel| m@).to_set() == weighted_model_set_contents(*s),
        items@.map_values(|m: &WeightedModel| m@).no_duplicates(),
        items@.len() > 0,
{
    s.iter().collect()
}

/// `NESet::iter`, collected: each item of the set once, in the order in which
/// the underlying hash set is walked (which the contract leaves open).
#[verifier::external_body]
pub(crate) fn model_set_items(s: &NESet<ModelId>) -> (items: Vec<&ModelId>)
    ensures
        items@.map_values(|m: &ModelId| m@).to_set() == model_set_contents(*s),
        items@.map_values(|m: &ModelId| m@).no_duplicates(),
        items@.len() > 0,
{
    s.iter().collect()
}

/// `NESet::clone`: a set that holds the same items.
#[verifier::external_body]
pub(crate) fn provider_set_clone(s: &NESet<InferenceProvider>) -> (copy: NESet<InferenceProvider>)
    ensures
        provider_set_contents(copy) == provider_set_contents(*s),
{
    s.clone()
}

/// `NESet::clone`: a set that holds the same items.
#[verifier::external_body]
pub(crate) fn weighted_provider_set_clone(s: &NESet<WeightedProvider>) -> (copy: NESet<WeightedProvider>)
    ensures
        weighted_provider_set_contents(copy) == weighted_provider_set_contents(*s),
{
    s.clone()
}

/// `NESet::clone`: a set that holds the same items.
#[verifier::external_body]
pub(crate) fn weighted_model_set_clone(s: &NESet<WeightedModel>) -> (copy: NESet<WeightedModel>)
    ensures
        weighted_model_set_contents(copy) == weighted_model_set_contents(*s),
{
    s.clone()
}

/// `NESet::clone`: a set that holds the same items.
#[verifier::external_body]
pub(crate) fn model_set_clone(s: &NESet<ModelId>) -> (copy: NESet<ModelId>)
    ensures
        model_set_contents(copy) == model_set_contents(*s),
{
    s.clone()
}

} // verus!
