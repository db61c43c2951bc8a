//! The exemption filter: which communities are protected, and which items
//! of a page that spares.

use crate::purge::item::ItemView;
use vstd::hash_set::StringHashSet;
use vstd::prelude::*;

verus! {

/// The set of communities whose content is never deleted. It is fixed when
/// a run starts and only read afterwards.
pub struct ExemptionSet {
    labels: StringHashSet,
}

impl View for ExemptionSet {
    type V = Set<Seq<char>>;

    closed spec fn view(&self) -> Set<Seq<char>> {
        self.labels@
    }
}

impl ExemptionSet {
    /// The set that holds exactly the labels of `whitelist`.
    pub fn new(whitelist: &Vec<String>) -> (set: ExemptionSet)
        ensures
            set@ == whitelist.deep_view().to_set(),
    {
        let mut labels = StringHashSet::new();
        let mut i: usize = 0;
        while i < whitelist.len()
            invariant
                i <= whitelist.len(),
                labels@ == whitelist.deep_view().take(i as int).to_set(),
            decreases whitelist.len() - i,
        {
            proof {
                let all = whitelist.deep_view();
                all.lemma_take_succ_push(i as int);
                all.take(i as int).lemma_push_to_set_commute(all[i as int]);
            }
            labels.insert(whitelist[i].clone());
            i = i + 1;
        }
        proof {
            whitelist.deep_view().lemma_take_len();
        }
        ExemptionSet { labels }
    }

    /// Whether `category` is one of the protected communities.
    pub fn contains(&self, category: &str) -> (found: bool)
        ensures
            found == self@.contains(category@),
    {
        self.labels.contains(category)
    }
}

/// Whether an item of the community `category` is protected by `set`.
pub fn is_exempt(category: &str, set: &ExemptionSet) -> (exempt: bool)
    ensures
        exempt == set@.contains(category@),
{
    set.contains(category)
}

/// The test an item passes when `set` does not protect it.
pub open spec fn survives(set: Set<Seq<char>>) -> spec_fn(ItemView) -> bool {
    |item: ItemView| !set.contains(item.category)
}

/// The test an item passes when `set` protects it.
pub open spec fn spared(set: Set<Seq<char>>) -> spec_fn(ItemView) -> bool {
    |item: ItemView| set.contains(item.category)
}

} // verus!
