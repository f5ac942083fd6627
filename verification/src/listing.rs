//! Lists of providers in the order in which they are met: the items that a
//! strategy's set yields, turned into providers, with repeats dropped.
use vstd::prelude::*;
use indexmap::IndexSet;
use crate::balance::{WeightedModel, WeightedProvider};
use crate::index_set::{
    provider_index_get, provider_index_insert, provider_index_items, provider_index_len,
    provider_index_new,
};
use crate::provider::{InferenceProvider, ModelId, ModelIdView, ProviderView};

verus! {

/// The items of `s` without repeats, each where it first occurs.
pub open spec fn distinct(s: Seq<ProviderView>) -> Seq<ProviderView>
    decreases s.len(),
{
    if s.len() == 0 {
        Seq::empty()
    } else if s.drop_last().contains(s.last()) {
        distinct(s.drop_last())
    } else {
        distinct(s.drop_last()).push(s.last())
    }
}

/// The providers of the models in `models`, in order, skipping each model
/// whose provider is not known.
pub open spec fn known_providers(models: Seq<ModelIdView>) -> Seq<ProviderView>
    decreases models.len(),
{
    if models.len() == 0 {
        Seq::empty()
    } else {
        match models.last().provider() {
            Some(p) => known_providers(models.drop_last()).push(p),
            None => known_providers(models.drop_last()),
        }
    }
}

/// The models in `models` whose provider is not known, in order.
pub open spec fn unknown_models(models: Seq<ModelIdView>) -> Seq<ModelIdView>
    decreases models.len(),
{
    if models.len() == 0 {
        Seq::empty()
    } else if models.last().provider() is None {
        unknown_models(models.drop_last()).push(models.last())
    } else {
        unknown_models(models.drop_last())
    }
}

/// `distinct(s)` holds each item of `s` once and nothing else.
pub proof fn lemma_distinct(s: Seq<ProviderView>)
    ensures
        distinct(s).no_duplicates(),
        forall|x: ProviderView| #[trigger] distinct(s).contains(x) <==> s.contains(x),
        distinct(s).to_set() == s.to_set(),
    decreases s.len(),
{
    if s.len() > 0 {
        let prefix = s.drop_last();
        lemma_distinct(prefix);
        assert forall|x: ProviderView| #[trigger] s.contains(x) <==> prefix.contains(x) || x == s.last() by {
            if s.contains(x) {
                let k = choose|k: int| 0 <= k < s.len() && s[k] == x;
                if k < prefix.len() {
                    assert(prefix[k] == x);
                }
            }
            if prefix.contains(x) {
                let k = choose|k: int| 0 <= k < prefix.len() && prefix[k] == x;
                assert(s[k] == x);
            }
            assert(s[s.len() - 1] == s.last());
        }
        if !prefix.contains(s.last()) {
            let d = distinct(prefix);
            let e = d.push(s.last());
            assert forall|x: ProviderView| #[trigger] e.contains(x) <==> d.contains(x) || x == s.last() by {
                if e.contains(x) {
                    let k = choose|k: int| 0 <= k < e.len() && e[k] == x;
                    if k < d.len() {
                        assert(d[k] == x);
                    }
                }
                if d.contains(x) {
                    let k = choose|k: int| 0 <= k < d.len() && d[k] == x;
                    assert(e[k] == x);
                }
                assert(e[d.len() as int] == s.last());
            }
            assert forall|i: int, j: int|
                0 <= i < e.len() && 0 <= j < e.len() && i != j implies e[i] != e[j] by {
                if i == d.len() {
                    assert(d.contains(d[j]));
                } else if j == d.len() {
                    assert(d.contains(d[i]));
                }
            }
        }
    }
    assert(distinct(s).to_set() =~= s.to_set());
}

/// A sequence without repeats is its own `distinct`.
pub proof fn lemma_distinct_of_distinct(s: Seq<ProviderView>)
    requires
        s.no_duplicates(),
    ensures
        distinct(s) == s,
    decreases s.len(),
{
    if s.len() > 0 {
        let prefix = s.drop_last();
        assert(prefix.no_duplicates());
        lemma_distinct_of_distinct(prefix);
        if prefix.contains(s.last()) {
            let k = choose|k: int| 0 <= k < prefix.len() && prefix[k] == s.last();
            assert(s[k] == s[s.len() - 1]);
        }
        assert(prefix.push(s.last()) =~= s);
    }
}

/// `known_providers(models)` holds the known providers of the models, and
/// nothing else.
pub proof fn lemma_known_providers(models: Seq<ModelIdView>)
    ensures
        forall|p: ProviderView| #[trigger] known_providers(models).contains(p) <==> exists|j: int|
            0 <= j < models.len() && #[trigger] models[j].provider() == Some(p),
    decreases models.len(),
{
    if models.len() > 0 {
        let prefix = models.drop_last();
        lemma_known_providers(prefix);
        let k = known_providers(prefix);
        assert forall|p: ProviderView| #[trigger] known_providers(models).contains(p) <==> exists|j: int|
            0 <= j < models.len() && #[trigger] models[j].provider() == Some(p) by {
            let all = known_providers(models);
            if all.contains(p) {
                let i = choose|i: int| 0 <= i < all.len() && all[i] == p;
                if i < k.len() {
                    assert(k[i] == p);
                    let j = choose|j: int| 0 <= j < prefix.len() && #[trigger] prefix[j].provider() == Some(p);
                    assert(models[j] == prefix[j]);
                } else {
                    assert(models[models.len() - 1].provider() == Some(p));
                }
            }
            if exists|j: int| 0 <= j < models.len() && #[trigger] models[j].provider() == Some(p) {
                let j = choose|j: int| 0 <= j < models.len() && #[trigger] models[j].provider() == Some(p);
                if j < prefix.len() {
                    assert(prefix[j] == models[j]);
                    assert(k.contains(p));
                    let i = choose|i: int| 0 <= i < k.len() && k[i] == p;
                    assert(all[i] == p);
                } else {
                    assert(all[all.len() - 1] == p);
                }
            }
        }
    }
}

/// `unknown_models(models)` holds the models whose provider is not known, and
/// nothing else.
pub proof fn lemma_unknown_models(models: Seq<ModelIdView>)
    ensures
        forall|m: ModelIdView| #[trigger] unknown_models(models).contains(m) <==> models.contains(m)
            && m.provider() is None,
    decreases models.len(),
{
    if models.len() > 0 {
        let prefix = models.drop_last();
        lemma_unknown_models(prefix);
        let u = unknown_models(prefix);
        let all = unknown_models(models);
        assert forall|m: ModelIdView| #[trigger] all.contains(m) <==> models.contains(m)
            && m.provider() is None by {
            if all.contains(m) {
                let i = choose|i: int| 0 <= i < all.len() && all[i] == m;
                if i < u.len() {
                    assert(u[i] == m);
                    assert(u.contains(m));
                    assert(prefix.contains(m));
                    let j = choose|j: int| 0 <= j < prefix.len() && prefix[j] == m;
                    assert(models[j] == m);
                } else {
                    assert(models[models.len() - 1] == m);
                }
            }
            if models.contains(m) && m.provider() is None {
                let j = choose|j: int| 0 <= j < models.len() && models[j] == m;
                if j < prefix.len() {
                    assert(prefix[j] == m);
                    assert(prefix.contains(m));
                    assert(u.contains(m));
                    let i = choose|i: int| 0 <= i < u.len() && u[i] == m;
                    assert(all[i] == m);
                } else {
                    assert(all[all.len() - 1] == m);
                }
            }
        }
    }
}

/// Reporting the models without a provider of a list without repeats gives a
/// list without repeats.
pub proof fn lemma_unknown_models_no_duplicates(models: Seq<ModelIdView>)
    requires
        models.no_duplicates(),
    ensures
        unknown_models(models).no_duplicates(),
    decreases models.len(),
{
    if models.len() > 0 {
        let prefix = models.drop_last();
        assert(prefix.no_duplicates());
        lemma_unknown_models_no_duplicates(prefix);
        lemma_unknown_models(prefix);
        let u = unknown_models(prefix);
        if models.last().provider() is None {
            let all = u.push(models.last());
            if u.contains(models.last()) {
                assert(prefix.contains(models.last()));
                let k = choose|k: int| 0 <= k < prefix.len() && prefix[k] == models.last();
                assert(models[k] == models[models.len() - 1]);
            }
            assert forall|i: int, j: int|
                0 <= i < all.len() && 0 <= j < all.len() && i != j implies all[i] != all[j] by {
                if i == u.len() {
                    assert(u.contains(u[j]));
                } else if j == u.len() {
                    assert(u.contains(u[i]));
                }
            }
        }
    }
}

/// Adds `p` to `found`, which lists `seen` without repeats, so that it lists
/// `seen` followed by `p` without repeats.
fn add_distinct(found: &mut IndexSet<InferenceProvider>, Ghost(seen): Ghost<Seq<ProviderView>>, p: InferenceProvider)
    requires
        provider_index_items(*old(found)) == distinct(seen),
    ensures
        provider_index_items(*final(found)) == distinct(seen.push(p@)),
{
    let ghost q = p@;
    proof {
        lemma_distinct(seen);
        assert(seen.push(q).drop_last() =~= seen);
    }
    provider_index_insert(found, p);
}

/// The providers in `candidates`, each once, at its first occurrence.
pub fn distinct_providers(candidates: &Vec<InferenceProvider>) -> (found: IndexSet<InferenceProvider>)
    ensures
        provider_index_items(found) == distinct(candidates@.map_values(|p: InferenceProvider| p@)),
{
    let ghost views = candidates@.map_values(|p: InferenceProvider| p@);
    let mut found = provider_index_new();
    let mut i: usize = 0;
    proof {
        assert(views.take(0) =~= Seq::<ProviderView>::empty());
    }
    while i < candidates.len()
        invariant
            views == candidates@.map_values(|p: InferenceProvider| p@),
            i <= candidates@.len(),
            provider_index_items(found) == distinct(views.take(i as int)),
        decreases candidates@.len() - i,
    {
        let p = candidates[i].clone();
        add_distinct(&mut found, Ghost(views.take(i as int)), p);
        proof {
            assert(views.take(i + 1) =~= views.take(i as int).push(views[i as int]));
        }
        i = i + 1;
    }
    proof {
        assert(views.take(candidates@.len() as int) =~= views);
    }
    found
}

/// The items of `lists`, one list after another.
pub open spec fn concat_items(lists: Seq<IndexSet<InferenceProvider>>) -> Seq<ProviderView>
    decreases lists.len(),
{
    if lists.len() == 0 {
        Seq::empty()
    } else {
        concat_items(lists.drop_last()) + provider_index_items(lists.last())
    }
}

/// The items of `lists` are those of its lists.
pub proof fn lemma_concat_items(lists: Seq<IndexSet<InferenceProvider>>)
    ensures
        forall|p: ProviderView| #[trigger] concat_items(lists).contains(p) <==> exists|j: int|
            0 <= j < lists.len() && #[trigger] provider_index_items(lists[j]).contains(p),
    decreases lists.len(),
{
    if lists.len() > 0 {
        let prefix = lists.drop_last();
        lemma_concat_items(prefix);
        let a = concat_items(prefix);
        let b = provider_index_items(lists.last());
        assert forall|p: ProviderView| #[trigger] concat_items(lists).contains(p) <==> exists|j: int|
            0 <= j < lists.len() && #[trigger] provider_index_items(lists[j]).contains(p) by {
            let all = concat_items(lists);
            assert(all == a + b);
            if all.contains(p) {
                let i = choose|i: int| 0 <= i < all.len() && all[i] == p;
                if i < a.len() {
                    assert(a[i] == p);
                    assert(a.contains(p));
                    let j = choose|j: int| 0 <= j < prefix.len() && #[trigger] provider_index_items(prefix[j]).contains(p);
                    assert(lists[j] == prefix[j]);
                } else {
                    assert(b[i - a.len()] == p);
                    assert(b.contains(p));
                    assert(lists[lists.len() - 1] == lists.last());
                }
            }
            if exists|j: int| 0 <= j < lists.len() && #[trigger] provider_index_items(lists[j]).contains(p) {
                let j = choose|j: int| 0 <= j < lists.len() && #[trigger] provider_index_items(lists[j]).contains(p);
                if j < prefix.len() {
                    assert(prefix[j] == lists[j]);
                    assert(a.contains(p));
                    let i = choose|i: int| 0 <= i < a.len() && a[i] == p;
                    assert(all[i] == p);
                } else {
                    assert(lists[j] == lists.last());
                    let i = choose|i: int| 0 <= i < b.len() && b[i] == p;
                    assert(all[a.len() + i] == p);
                }
            }
        }
    }
}

/// The providers of `lists`, taken one list after another, each once, at its
/// first occurrence.
pub fn merge_providers(lists: &Vec<IndexSet<InferenceProvider>>) -> (found: IndexSet<InferenceProvider>)
    ensures
        provider_index_items(found) == distinct(concat_items(lists@)),
{
    let mut found = provider_index_new();
    let mut i: usize = 0;
    proof {
        assert(lists@.take(0) =~= Seq::<IndexSet<InferenceProvider>>::empty());
    }
    while i < lists.len()
        invariant
            i <= lists@.len(),
            provider_index_items(found) == distinct(concat_items(lists@.take(i as int))),
        decreases lists@.len() - i,
    {
        let ghost before = concat_items(lists@.take(i as int));
        let ghost items = provider_index_items(lists@[i as int]);
        let n = provider_index_len(&lists[i]);
        let mut k: usize = 0;
        proof {
            assert(before + items.take(0) =~= before);
        }
        while k < n
            invariant
                i < lists@.len(),
                n == items.len(),
                items == provider_index_items(lists@[i as int]),
                k <= n,
                provider_index_items(found) == distinct(before + items.take(k as int)),
            decreases n - k,
        {
            let p = provider_index_get(&lists[i], k).unwrap().clone();
            add_distinct(&mut found, Ghost(before + items.take(k as int)), p);
            proof {
                assert(before + items.take(k + 1) =~= (before + items.take(k as int)).push(items[k as int]));
            }
            k = k + 1;
        }
        proof {
            assert(lists@.take(i + 1).drop_last() =~= lists@.take(i as int));
            assert(lists@.take(i + 1).last() == lists@[i as int]);
            assert(items.take(n as int) =~= items);
        }
        i = i + 1;
    }
    proof {
        assert(lists@.take(lists@.len() as int) =~= lists@);
    }
    found
}

/// The providers of weighted providers, in order.
pub fn weighted_providers(walked: &Vec<&WeightedProvider>) -> (providers: Vec<InferenceProvider>)
    ensures
        providers@.map_values(|p: InferenceProvider| p@) == walked@.map_values(
            |w: &WeightedProvider| w@.provider,
        ),
{
    let mut providers: Vec<InferenceProvider> = Vec::new();
    let mut i: usize = 0;
    while i < walked.len()
        invariant
            i <= walked@.len(),
            providers@.len() == i,
            forall|j: int| 0 <= j < i ==> #[trigger] providers@[j]@ == walked@[j]@.provider,
        decreases walked@.len() - i,
    {
        providers.push(walked[i].provider.clone());
        i = i + 1;
    }
    assert(providers@.map_values(|p: InferenceProvider| p@) =~= walked@.map_values(
        |w: &WeightedProvider| w@.provider,
    ));
    providers
}

/// Owned copies of providers, in order.
pub fn owned_providers(walked: &Vec<&InferenceProvider>) -> (providers: Vec<InferenceProvider>)
    ensures
        providers@.map_values(|p: InferenceProvider| p@) == walked@.map_values(
            |p: &InferenceProvider| p@,
        ),
{
    let mut providers: Vec<InferenceProvider> = Vec::new();
    let mut i: usize = 0;
    while i < walked.len()
        invariant
            i <= walked@.len(),
            providers@.len() == i,
            forall|j: int| 0 <= j < i ==> #[trigger] providers@[j]@ == walked@[j]@,
        decreases walked@.len() - i,
    {
        providers.push(walked[i].clone());
        i = i + 1;
    }
    assert(providers@.map_values(|p: InferenceProvider| p@) =~= walked@.map_values(
        |p: &InferenceProvider| p@,
    ));
    providers
}

/// The known providers of models, in order, skipping each model whose
/// provider is not known.
pub fn model_providers(walked: &Vec<&ModelId>) -> (providers: Vec<InferenceProvider>)
    ensures
        providers@.map_values(|p: InferenceProvider| p@) == known_providers(
            walked@.map_values(|m: &ModelId| m@),
        ),
{
    let ghost models = walked@.map_values(|m: &ModelId| m@);
    let mut providers: Vec<InferenceProvider> = Vec::new();
    let mut i: usize = 0;
    while i < walked.len()
        invariant
            models == walked@.map_values(|m: &ModelId| m@),
            i <= walked@.len(),
            providers@.map_values(|p: InferenceProvider| p@) == known_providers(
                models.take(i as int),
            ),
        decreases walked@.len() - i,
    {
        let ghost before = providers@;
        let maybe = walked[i].inference_provider();
        proof {
            assert(models.take(i + 1).drop_last() =~= models.take(i as int));
            assert(models.take(i + 1).last() == walked@[i as int]@);
        }
        if let Some(p) = maybe {
            providers.push(p);
            assert(providers@.map_values(|p: InferenceProvider| p@) =~= before.map_values(
                |p: InferenceProvider| p@,
            ).push(providers@[before.len() as int]@));
        }
        i = i + 1;
    }
    proof {
        assert(models.take(walked@.len() as int) =~= models);
    }
    providers
}

/// The known providers of weighted models, in order, skipping each model
/// whose provider is not known.
pub fn weighted_model_providers(walked: &Vec<&WeightedModel>) -> (providers: Vec<InferenceProvider>)
    ensures
        providers@.map_values(|p: InferenceProvider| p@) == known_providers(
            walked@.map_values(|m: &WeightedModel| m@.model),
        ),
{
    let ghost models = walked@.map_values(|m: &WeightedModel| m@.model);
    let mut providers: Vec<InferenceProvider> = Vec::new();
    let mut i: usize = 0;
    while i < walked.len()
        invariant
            models == walked@.map_values(|m: &WeightedModel| m@.model),
            i <= walked@.len(),
            providers@.map_values(|p: InferenceProvider| p@) == known_providers(
                models.take(i as int),
            ),
        decreases walked@.len() - i,
    {
        let ghost before = providers@;
        let maybe = walked[i].model.inference_provider();
        proof {
            assert(models.take(i + 1).drop_last() =~= models.take(i as int));
            assert(models.take(i + 1).last() == walked@[i as int]@.model);
        }
        if let Some(p) = maybe {
            providers.push(p);
            assert(providers@.map_values(|p: InferenceProvider| p@) =~= before.map_values(
                |p: InferenceProvider| p@,
            ).push(providers@[before.len() as int]@));
        }
        i = i + 1;
    }
    proof {
        assert(models.take(walked@.len() as int) =~= models);
    }
    providers
}

/// The models whose provider is not known, in order.
pub fn models_without_provider(walked: &Vec<&ModelId>) -> (models: Vec<ModelId>)
    ensures
        models@.map_values(|m: ModelId| m@) == unknown_models(walked@.map_values(|m: &ModelId| m@)),
{
    let ghost views = walked@.map_values(|m: &ModelId| m@);
    let mut models: Vec<ModelId> = Vec::new();
    let mut i: usize = 0;
    while i < walked.len()
        invariant
            views == walked@.map_values(|m: &ModelId| m@),
            i <= walked@.len(),
            models@.map_values(|m: ModelId| m@) == unknown_models(views.take(i as int)),
        decreases walked@.len() - i,
    {
        let ghost before = models@;
        proof {
            assert(views.take(i + 1).drop_last() =~= views.take(i as int));
            assert(views.take(i + 1).last() == walked@[i as int]@);
        }
        if walked[i].inference_provider().is_none() {
            models.push(walked[i].clone());
            assert(models@.map_values(|m: ModelId| m@) =~= before.map_values(|m: ModelId| m@).push(
                models@[before.len() as int]@,
            ));
        }
        i = i + 1;
    }
    proof {
        assert(views.take(walked@.len() as int) =~= views);
    }
    models
}

/// The models of weighted models whose provider is not known, in order.
pub fn weighted_models_without_provider(walked: &Vec<&WeightedModel>) -> (models: Vec<ModelId>)
    ensures
        models@.map_values(|m: ModelId| m@) == unknown_models(
            walked@.map_values(|m: &WeightedModel| m@.model),
        ),
{
    let ghost views = walked@.map_values(|m: &WeightedModel| m@.model);
    let mut models: Vec<ModelId> = Vec::new();
    let mut i: usize = 0;
    while i < walked.len()
        invariant
            views == walked@.map_values(|m: &WeightedModel| m@.model),
            i <= walked@.len(),
            models@.map_values(|m: ModelId| m@) == unknown_models(views.take(i as int)),
        decreases walked@.len() - i,
    {
        let ghost before = models@;
        proof {
            assert(views.take(i + 1).drop_last() =~= views.take(i as int));
            assert(views.take(i + 1).last() == walked@[i as int]@.model);
        }
        if walked[i].model.inference_provider().is_none() {
            models.push(walked[i].model.clone());
            assert(models@.map_values(|m: ModelId| m@) =~= before.map_values(|m: ModelId| m@).push(
                models@[before.len() as int]@,
            ));
        }
        i = i + 1;
    }
    proof {
        assert(views.take(walked@.len() as int) =~= views);
    }
    models
}

} // verus!
