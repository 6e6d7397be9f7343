//! Snapshots of a package's public surface.

use vstd::prelude::*;
use crate::catalog::FeatureConfig;

verus! {

/// One public item: its fully qualified name and its full signature text.
#[derive(Debug, PartialEq, Eq, Hash)]
pub struct ApiItem {
    /// Fully qualified name, such as `krate::module::function`.
    pub name: String,
    /// The complete rendered signature.
    pub signature: String,
}

/// What an [`ApiItem`] stands for: a name paired with a signature.
pub struct ItemModel {
    pub name: Seq<char>,
    pub signature: Seq<char>,
}

impl View for ApiItem {
    type V = ItemModel;

    open spec fn view(&self) -> ItemModel {
        ItemModel { name: self.name@, signature: self.signature@ }
    }
}

/// The models of a sequence of items, position by position.
pub open spec fn item_models(items: Seq<ApiItem>) -> Seq<ItemModel> {
    Seq::new(items.len(), |i: int| items[i]@)
}

impl ApiItem {
    /// Builds an item from a name and a signature.
    pub fn new(name: &str, signature: &str) -> (item: ApiItem)
        ensures
            item@ == (ItemModel { name: name@, signature: signature@ }),
    {
        ApiItem { name: name.to_owned(), signature: signature.to_owned() }
    }

    /// A fresh item with the same name and signature.
    pub fn duplicate(&self) -> (copy: ApiItem)
        ensures
            copy@ == self@,
    {
        ApiItem { name: self.name.clone(), signature: self.signature.clone() }
    }

    /// Whether two items have the same name and the same signature.
    pub fn same_as(&self, other: &ApiItem) -> (same: bool)
        ensures
            same == (self@ == other@),
    {
        self.name == other.name && self.signature == other.signature
    }

    /// Whether two items share their fully qualified name.
    pub fn same_name(&self, other: &ApiItem) -> (same: bool)
        ensures
            same == (self@.name == other@.name),
    {
        self.name == other.name
    }
}

impl Clone for ApiItem {
    fn clone(&self) -> (copy: ApiItem)
        ensures
            copy@ == self@,
    {
        self.duplicate()
    }
}

/// Position of the first item of `items` equal to `item`, if there is one.
pub fn position_of(items: &Vec<ApiItem>, item: &ApiItem) -> (found: Option<usize>)
    ensures
        found is Some <==> item_models(items@).contains(item@),
        found matches Some(k) ==> k < items@.len() && items@[k as int]@ == item@ && forall|j: int|
            0 <= j < k ==> items@[j]@ != item@,
{
    let mut k: usize = 0;
    while k < items.len()
        invariant
            k <= items@.len(),
            forall|j: int| 0 <= j < k ==> items@[j]@ != item@,
        decreases items@.len() - k,
    {
        if items[k].same_as(item) {
            assert(item_models(items@)[k as int] == item@);
            return Some(k);
        }
        k += 1;
    }
    assert forall|j: int| 0 <= j < item_models(items@).len() implies item_models(items@)[j]
        != item@ by {}
    None
}

/// Whether some item of `items` carries the name of `item`.
pub fn has_name(items: &Vec<ApiItem>, item: &ApiItem) -> (found: bool)
    ensures
        found <==> exists|j: int| 0 <= j < items@.len() && (#[trigger] items@[j])@.name == item@.name,
{
    let mut k: usize = 0;
    while k < items.len()
        invariant
            k <= items@.len(),
            forall|j: int| 0 <= j < k ==> (#[trigger] items@[j])@.name != item@.name,
        decreases items@.len() - k,
    {
        if items[k].same_name(item) {
            return true;
        }
        k += 1;
    }
    false
}

/// The public surface of one package under one feature configuration at one
/// revision: a set of items, in which the order of arrival plays no part. A
/// snapshot is built once and not changed afterwards.
#[derive(Debug)]
pub struct PublicApi {
    items: Vec<ApiItem>,
}

impl View for PublicApi {
    type V = Set<ItemModel>;

    closed spec fn view(&self) -> Set<ItemModel> {
        item_models(self.items@).to_set()
    }
}

impl PublicApi {
    #[verifier::type_invariant]
    spec fn distinct(self) -> bool {
        item_models(self.items@).no_duplicates()
    }

    /// The empty surface.
    pub fn new() -> (api: PublicApi)
        ensures
            api@ == Set::<ItemModel>::empty(),
    {
        let api = PublicApi { items: Vec::new() };
        assert(api@ =~= Set::<ItemModel>::empty());
        api
    }

    /// Adds `item` unless an equal one is already there; says whether it was added.
    fn insert(&mut self, item: ApiItem) -> (added: bool)
        ensures
            final(self)@ == old(self)@.insert(item@),
            added == !old(self)@.contains(item@),
    {
        proof {
            use_type_invariant(&*self);
        }
        let ghost before = self.items@;
        let mut items: Vec<ApiItem> = Vec::new();
        std::mem::swap(&mut items, &mut self.items);
        let found = position_of(&items, &item);
        let added = found.is_none();
        if added {
            items.push(item);
            proof {
                assert(item_models(items@) =~= item_models(before).push(item@));
                assert(item_models(items@).to_set() =~= item_models(before).to_set().insert(item@))
                    by {
                    item_models(before).lemma_push_to_set_commute(item@);
                }
            }
        } else {
            assert(item_models(before).to_set().insert(item@) =~= item_models(before).to_set());
        }
        self.items = items;
        added
    }

    /// The surface that holds exactly the given items.
    pub fn from_items(items: Vec<ApiItem>) -> (api: PublicApi)
        ensures
            api@ == item_models(items@).to_set(),
    {
        let mut api = PublicApi::new();
        let mut k: usize = 0;
        while k < items.len()
            invariant
                k <= items@.len(),
                api@ == item_models(items@.take(k as int)).to_set(),
            decreases items@.len() - k,
        {
            let copy = items[k].duplicate();
            api.insert(copy);
            proof {
                let seen = item_models(items@.take(k as int));
                assert(item_models(items@.take(k + 1)) =~= seen.push(items@[k as int]@));
                seen.lemma_push_to_set_commute(items@[k as int]@);
            }
            k += 1;
        }
        assert(items@.take(k as int) =~= items@);
        api
    }

    /// Whether `item` belongs to this surface.
    pub fn contains(&self, item: &ApiItem) -> (found: bool)
        ensures
            found == self@.contains(item@),
    {
        position_of(&self.items, item).is_some()
    }

    /// Whether some item of this surface carries the name of `item`.
    pub fn contains_name(&self, item: &ApiItem) -> (found: bool)
        ensures
            found <==> exists|other: ItemModel| #[trigger] self@.contains(other) && other.name == item@.name,
    {
        let found = has_name(&self.items, item);
        proof {
            if found {
                let j = choose|j: int| 0 <= j < self.items@.len() && (#[trigger] self.items@[j])@.name == item@.name;
                assert(item_models(self.items@)[j] == self.items@[j]@);
                assert(self@.contains(self.items@[j]@));
            }
        }
        found
    }

    /// The items of this surface, each one once.
    pub fn items(&self) -> (items: &Vec<ApiItem>)
        ensures
            item_models(items@).no_duplicates(),
            item_models(items@).to_set() == self@,
    {
        proof {
            use_type_invariant(self);
        }
        &self.items
    }

    /// Number of items.
    pub fn len(&self) -> (count: usize)
        ensures
            self@.finite(),
            count == self@.len(),
    {
        proof {
            use_type_invariant(self);
            item_models(self.items@).unique_seq_to_set();
        }
        self.items.len()
    }

    /// Whether the surface holds no item at all.
    pub fn is_empty(&self) -> (empty: bool)
        ensures
            empty == (self@ == Set::<ItemModel>::empty()),
    {
        let empty = self.items.len() == 0;
        proof {
            if empty {
                assert(self@ =~= Set::<ItemModel>::empty());
            } else {
                assert(item_models(self.items@)[0] == self.items@[0]@);
                assert(self@.contains(self.items@[0]@));
            }
        }
        empty
    }

    /// Whether every item of this surface also belongs to `other`.
    pub fn is_subset_of(&self, other: &PublicApi) -> (within: bool)
        ensures
            within == self@.subset_of(other@),
    {
        let mut k: usize = 0;
        while k < self.items.len()
            invariant
                k <= self.items@.len(),
                forall|j: int| 0 <= j < k ==> other@.contains(#[trigger] self.items@[j]@),
            decreases self.items@.len() - k,
        {
            if !other.contains(&self.items[k]) {
                assert(item_models(self.items@)[k as int] == self.items@[k as int]@);
                assert(self@.contains(self.items@[k as int]@));
                return false;
            }
            k += 1;
        }
        assert forall|m: ItemModel| self@.contains(m) implies other@.contains(m) by {
            let j = choose|j: int| 0 <= j < item_models(self.items@).len() && item_models(self.items@)[j] == m;
            assert(other@.contains(self.items@[j]@));
        }
        true
    }

    /// Whether two surfaces hold the same items.
    pub fn equals(&self, other: &PublicApi) -> (same: bool)
        ensures
            same == (self@ == other@),
    {
        let same = self.is_subset_of(other) && other.is_subset_of(self);
        proof {
            if same {
                assert(self@ =~= other@);
            }
        }
        same
    }

    /// A fresh surface with the same items.
    pub fn duplicate(&self) -> (copy: PublicApi)
        ensures
            copy@ == self@,
    {
        let mut items: Vec<ApiItem> = Vec::new();
        let mut k: usize = 0;
        proof {
            use_type_invariant(self);
        }
        while k < self.items.len()
            invariant
                k <= self.items@.len(),
                items@.len() == k,
                forall|j: int| 0 <= j < k ==> items@[j]@ == self.items@[j]@,
            decreases self.items@.len() - k,
        {
            items.push(self.items[k].duplicate());
            k += 1;
        }
        assert(item_models(items@) =~= item_models(self.items@));
        PublicApi { items }
    }
}

impl Clone for PublicApi {
    fn clone(&self) -> (copy: PublicApi)
        ensures
            copy@ == self@,
    {
        self.duplicate()
    }
}

/// A snapshot depends on which items it is built from, not on their order
/// nor on how often each is handed in: two lists in which the same items
/// occur build the same snapshot.
pub proof fn snapshot_ignores_order(first: Seq<ApiItem>, second: Seq<ApiItem>)
    requires
        forall|m: ItemModel| item_models(first).contains(m) <==> item_models(second).contains(m),
    ensures
        item_models(first).to_set() == item_models(second).to_set(),
{
    assert(item_models(first).to_set() =~= item_models(second).to_set());
}

/// Whether a mapping holds a snapshot for every configuration of the catalog.
pub open spec fn covers_catalog(snapshots: Map<FeatureConfig, Set<ItemModel>>) -> bool {
    forall|config: FeatureConfig| snapshots.dom().contains(config)
}

/// The snapshots of one package at one revision: exactly one per feature
/// configuration of the catalog.
#[derive(Debug)]
pub struct PackageApiSet {
    /// The surface with no features enabled.
    pub no_features: PublicApi,
    /// The surface with only `alloc` enabled.
    pub alloc: PublicApi,
    /// The surface with every feature enabled.
    pub all: PublicApi,
}

impl View for PackageApiSet {
    type V = Map<FeatureConfig, Set<ItemModel>>;

    open spec fn view(&self) -> Map<FeatureConfig, Set<ItemModel>> {
        Map::new(
            |config: FeatureConfig| true,
            |config: FeatureConfig|
                match config {
                    FeatureConfig::NoFeatures => self.no_features@,
                    FeatureConfig::Alloc => self.alloc@,
                    FeatureConfig::All => self.all@,
                },
        )
    }
}

impl PackageApiSet {
    /// The set that holds the three given snapshots.
    pub fn new(no_features: PublicApi, alloc: PublicApi, all: PublicApi) -> (set: PackageApiSet)
        ensures
            covers_catalog(set@),
            set@[FeatureConfig::NoFeatures] == no_features@,
            set@[FeatureConfig::Alloc] == alloc@,
            set@[FeatureConfig::All] == all@,
    {
        PackageApiSet { no_features, alloc, all }
    }

    /// The snapshot taken under `config`.
    pub fn get(&self, config: FeatureConfig) -> (snapshot: &PublicApi)
        ensures
            snapshot@ == self@[config],
    {
        match config {
            FeatureConfig::NoFeatures => &self.no_features,
            FeatureConfig::Alloc => &self.alloc,
            FeatureConfig::All => &self.all,
        }
    }
}

/// Collects the snapshots of one package while they are being extracted:
/// one per configuration, in catalog order.
#[derive(Debug)]
pub struct ApiSetBuilder {
    no_features: Option<PublicApi>,
    alloc: Option<PublicApi>,
    all: Option<PublicApi>,
}

/// The first configuration of the catalog for which `snapshots` holds nothing.
pub open spec fn first_missing(snapshots: Map<FeatureConfig, Set<ItemModel>>) -> Option<
    FeatureConfig,
> {
    if !snapshots.dom().contains(FeatureConfig::NoFeatures) {
        Some(FeatureConfig::NoFeatures)
    } else if !snapshots.dom().contains(FeatureConfig::Alloc) {
        Some(FeatureConfig::Alloc)
    } else if !snapshots.dom().contains(FeatureConfig::All) {
        Some(FeatureConfig::All)
    } else {
        None
    }
}

impl View for ApiSetBuilder {
    type V = Map<FeatureConfig, Set<ItemModel>>;

    closed spec fn view(&self) -> Map<FeatureConfig, Set<ItemModel>> {
        Map::new(
            |config: FeatureConfig| self.slot(config) is Some,
            |config: FeatureConfig| self.slot(config)->0@,
        )
    }
}

impl ApiSetBuilder {
    spec fn slot(&self, config: FeatureConfig) -> Option<PublicApi> {
        match config {
            FeatureConfig::NoFeatures => self.no_features,
            FeatureConfig::Alloc => self.alloc,
            FeatureConfig::All => self.all,
        }
    }

    /// A builder that holds no snapshot yet.
    pub fn new() -> (builder: ApiSetBuilder)
        ensures
            builder@ == Map::<FeatureConfig, Set<ItemModel>>::empty(),
    {
        let builder = ApiSetBuilder { no_features: None, alloc: None, all: None };
        assert(builder@ =~= Map::<FeatureConfig, Set<ItemModel>>::empty());
        builder
    }

    /// Stores `api` as the snapshot of the configuration that is due, the
    /// first one of the catalog without a snapshot, and names that
    /// configuration. Once every configuration has its snapshot, nothing is
    /// stored and `api` is handed back.
    pub fn record(&mut self, api: PublicApi) -> (outcome: Result<FeatureConfig, PublicApi>)
        ensures
            match first_missing(old(self)@) {
                Some(config) => outcome == Ok::<FeatureConfig, PublicApi>(config) && final(self)@
                    == old(self)@.insert(config, api@),
                None => outcome == Err::<FeatureConfig, PublicApi>(api) && final(self)@ == old(
                    self,
                )@,
            },
    {
        let config = match self.next_config() {
            Some(config) => config,
            None => {
                return Err(api);
            },
        };
        let mut slot = Some(api);
        match config {
            FeatureConfig::NoFeatures => std::mem::swap(&mut slot, &mut self.no_features),
            FeatureConfig::Alloc => std::mem::swap(&mut slot, &mut self.alloc),
            FeatureConfig::All => std::mem::swap(&mut slot, &mut self.all),
        }
        proof {
            assert(final(self).slot(config) == Some(api));
            assert forall|other: FeatureConfig| other != config implies final(self).slot(other)
                == old(self).slot(other) by {}
            assert(final(self)@ =~= old(self)@.insert(config, api@));
        }
        Ok(config)
    }

    /// The configuration to extract next: the first one of the catalog that
    /// has no snapshot yet. `None` once every configuration has one.
    pub fn next_config(&self) -> (next: Option<FeatureConfig>)
        ensures
            next == first_missing(self@),
            next is None <==> covers_catalog(self@),
    {
        proof {
            assert(self@.dom().contains(FeatureConfig::NoFeatures) <==> self.slot(
                FeatureConfig::NoFeatures,
            ) is Some);
            assert(self@.dom().contains(FeatureConfig::Alloc) <==> self.slot(
                FeatureConfig::Alloc,
            ) is Some);
            assert(self@.dom().contains(FeatureConfig::All) <==> self.slot(FeatureConfig::All) is Some);
            if self.no_features is Some && self.alloc is Some && self.all is Some {
                assert forall|config: FeatureConfig| self@.dom().contains(config) by {
                    assert(self.slot(config) is Some);
                }
            }
        }
        if self.no_features.is_none() {
            Some(FeatureConfig::NoFeatures)
        } else if self.alloc.is_none() {
            Some(FeatureConfig::Alloc)
        } else if self.all.is_none() {
            Some(FeatureConfig::All)
        } else {
            None
        }
    }

    /// The finished set, or the first configuration of the catalog that is
    /// still without a snapshot.
    pub fn finish(self) -> (outcome: Result<PackageApiSet, FeatureConfig>)
        ensures
            outcome is Ok <==> covers_catalog(self@),
            outcome matches Ok(set) ==> set@ == self@,
            outcome matches Err(config) ==> first_missing(self@) == Some(config),
    {
        proof {
            assert(self@.dom().contains(FeatureConfig::NoFeatures) <==> self.slot(
                FeatureConfig::NoFeatures,
            ) is Some);
            assert(self@.dom().contains(FeatureConfig::Alloc) <==> self.slot(
                FeatureConfig::Alloc,
            ) is Some);
            assert(self@.dom().contains(FeatureConfig::All) <==> self.slot(FeatureConfig::All) is Some);
        }
        let ghost collected = self@;
        let ApiSetBuilder { no_features, alloc, all } = self;
        match no_features {
            None => Err(FeatureConfig::NoFeatures),
            Some(no_features) => match alloc {
                None => Err(FeatureConfig::Alloc),
                Some(alloc) => match all {
                    None => Err(FeatureConfig::All),
                    Some(all) => {
                        let set = PackageApiSet { no_features, alloc, all };
                        proof {
                            assert forall|config: FeatureConfig| collected.dom().contains(
                                config,
                            ) by {
                                assert(self.slot(config) is Some);
                            }
                            assert(set@ =~= collected);
                        }
                        Ok(set)
                    },
                },
            },
        }
    }
}

} // verus!
