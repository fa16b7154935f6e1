//! Burst lists: which files hold each burst of each acquisition.
use vstd::prelude::*;

use crate::text::text_eq;

verus! {

/// What identifies a burst: granule, subswath, polarization and burst index.
#[derive(Debug)]
pub struct BurstKey {
    pub granule: String,
    pub subswath: String,
    pub polarization: String,
    pub index: String,
}

/// What a `BurstKey` says.
#[verifier::ext_equal]
pub struct BurstKeyModel {
    pub granule: Seq<char>,
    pub subswath: Seq<char>,
    pub polarization: Seq<char>,
    pub index: Seq<char>,
}

impl View for BurstKey {
    type V = BurstKeyModel;

    open spec fn view(&self) -> BurstKeyModel {
        BurstKeyModel {
            granule: self.granule@,
            subswath: self.subswath@,
            polarization: self.polarization@,
            index: self.index@,
        }
    }
}

impl BurstKey {
    /// Whether two keys identify the same burst.
    pub fn same(&self, other: &BurstKey) -> (r: bool)
        ensures
            r == (self@ == other@),
    {
        text_eq(self.granule.as_str(), other.granule.as_str()) && text_eq(
            self.subswath.as_str(),
            other.subswath.as_str(),
        ) && text_eq(self.polarization.as_str(), other.polarization.as_str()) && text_eq(
            self.index.as_str(),
            other.index.as_str(),
        )
    }
}

/// The image file and the metadata file of a burst.
#[derive(Debug)]
pub struct BurstPaths {
    pub data: String,
    pub metadata: String,
}

/// What a `BurstPaths` says.
#[verifier::ext_equal]
pub struct BurstPathsModel {
    pub data: Seq<char>,
    pub metadata: Seq<char>,
}

impl View for BurstPaths {
    type V = BurstPathsModel;

    open spec fn view(&self) -> BurstPathsModel {
        BurstPathsModel { data: self.data@, metadata: self.metadata@ }
    }
}

/// A burst and its files.
#[derive(Debug)]
pub struct BurstItem {
    pub key: BurstKey,
    pub paths: BurstPaths,
}

/// A list of bursts, each at most once: granule → subswath → polarization →
/// burst index → files.
#[derive(Debug)]
pub struct BurstList {
    pub items: Vec<BurstItem>,
}

/// The files of each burst, where later items replace earlier ones.
pub open spec fn contents(items: Seq<BurstItem>) -> Map<BurstKeyModel, BurstPathsModel>
    decreases items.len(),
{
    if items.len() == 0 {
        Map::empty()
    } else {
        contents(items.drop_last()).insert(items.last().key@, items.last().paths@)
    }
}

impl View for BurstList {
    type V = Map<BurstKeyModel, BurstPathsModel>;

    open spec fn view(&self) -> Map<BurstKeyModel, BurstPathsModel> {
        contents(self.items@)
    }
}

proof fn lemma_contents_dom(items: Seq<BurstItem>, key: BurstKeyModel)
    ensures
        contents(items).dom().contains(key) <==> exists|i: int|
            0 <= i < items.len() && (#[trigger] items[i]).key@ == key,
    decreases items.len(),
{
    if items.len() > 0 {
        let rest = items.drop_last();
        lemma_contents_dom(rest, key);
        assert forall|i: int| 0 <= i < rest.len() implies rest[i] == items[i] by {}
        if items.last().key@ == key {
            assert(items[items.len() - 1].key@ == key);
        } else if contents(rest).dom().contains(key) {
            let i = choose|i: int| 0 <= i < rest.len() && (#[trigger] rest[i]).key@ == key;
            assert(items[i].key@ == key);
        } else if exists|i: int| 0 <= i < items.len() && (#[trigger] items[i]).key@ == key {
            let i = choose|i: int| 0 <= i < items.len() && (#[trigger] items[i]).key@ == key;
            assert(rest[i].key@ == key);
        }
    }
}

/// Whether no burst occurs twice.
pub open spec fn keys_unique(items: Seq<BurstItem>) -> bool {
    forall|i: int, j: int|
        0 <= i < j < items.len() ==> (#[trigger] items[i]).key@ != (#[trigger] items[j]).key@
}

proof fn lemma_contents_at(items: Seq<BurstItem>, i: int)
    requires
        keys_unique(items),
        0 <= i < items.len(),
    ensures
        contents(items).dom().contains(items[i].key@),
        contents(items)[items[i].key@] == items[i].paths@,
    decreases items.len(),
{
    if i < items.len() - 1 {
        let rest = items.drop_last();
        assert(rest[i] == items[i]);
        lemma_contents_at(rest, i);
    }
}

proof fn lemma_contents_update(items: Seq<BurstItem>, i: int, item: BurstItem)
    requires
        keys_unique(items),
        0 <= i < items.len(),
        items[i].key@ == item.key@,
    ensures
        contents(items.update(i, item)) == contents(items).insert(item.key@, item.paths@),
    decreases items.len(),
{
    let updated = items.update(i, item);
    let rest = items.drop_last();
    if i == items.len() - 1 {
        assert(updated.drop_last() =~= rest);
        assert(contents(updated) =~= contents(items).insert(item.key@, item.paths@));
    } else {
        assert(updated.drop_last() =~= rest.update(i, item));
        lemma_contents_update(rest, i, item);
        assert(items[i].key@ != items[items.len() - 1].key@);
        assert(contents(updated) =~= contents(items).insert(item.key@, item.paths@));
    }
}

impl BurstList {
    /// Whether no burst occurs twice.
    pub open spec fn wf(self) -> bool {
        keys_unique(self.items@)
    }

    /// An empty list.
    pub fn new() -> (r: BurstList)
        ensures
            r.wf(),
            r@ == Map::<BurstKeyModel, BurstPathsModel>::empty(),
    {
        BurstList { items: Vec::new() }
    }

    fn position(&self, key: &BurstKey) -> (r: Option<usize>)
        ensures
            match r {
                Some(i) => i < self.items.len() && self.items[i as int].key@ == key@,
                None => forall|i: int|
                    0 <= i < self.items.len() ==> (#[trigger] self.items[i]).key@ != key@,
            },
    {
        for i in 0..self.items.len()
            invariant
                forall|j: int| 0 <= j < i ==> (#[trigger] self.items[j]).key@ != key@,
        {
            if self.items[i].key.same(key) {
                return Some(i);
            }
        }
        None
    }

    /// The files of a burst, if the list holds it.
    pub fn get(&self, key: &BurstKey) -> (r: Option<&BurstPaths>)
        requires
            self.wf(),
        ensures
            match r {
                Some(paths) => self@.dom().contains(key@) && self@[key@] == paths@,
                None => !self@.dom().contains(key@),
            },
    {
        proof {
            lemma_contents_dom(self.items@, key@);
        }
        match self.position(key) {
            Some(i) => {
                proof {
                    lemma_contents_at(self.items@, i as int);
                }
                Some(&self.items[i].paths)
            },
            None => None,
        }
    }

    /// Puts a burst into the list; files that it had before are replaced.
    pub fn insert(&mut self, key: BurstKey, paths: BurstPaths)
        requires
            old(self).wf(),
        ensures
            final(self).wf(),
            final(self)@ == old(self)@.insert(key@, paths@),
    {
        match self.position(&key) {
            Some(i) => {
                let item = BurstItem { key, paths };
                proof {
                    lemma_contents_update(self.items@, i as int, item);
                    assert forall|a: int, b: int|
                        0 <= a < b < self.items.len() implies (#[trigger] self.items@.update(
                        i as int,
                        item,
                    )[a]).key@ != (#[trigger] self.items@.update(i as int, item)[b]).key@ by {
                        assert(self.items@[a].key@ != self.items@[b].key@);
                    }
                }
                self.items.set(i, item);
            },
            None => {
                let ghost before = self.items@;
                self.items.push(BurstItem { key, paths });
                assert(self.items@.drop_last() =~= before);
            },
        }
    }
}

} // verus!
