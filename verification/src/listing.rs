//! The page as data: five groups of entries, each in ranking order.

use crate::category::{excluded, heading, label_text, place, placement, Group};
use crate::product::{apk, spec_apk, Product};
use crate::ranker::{
    law_ranking_is_unique, lemma_ranked_better_first, rank, ranked, strictly_ranked, Entry,
};
use vstd::prelude::*;
use vstd::seq_lib::{to_multiset_build, to_multiset_contains};

verus! {

/// The entry that stands for the product at `index` of a catalog.
pub open spec fn entry_at(catalog: Seq<Product>, index: int) -> Entry {
    Entry { index: index as usize, score: spec_apk(catalog[index]) }
}

/// One entry for every product of the catalog, in catalog order.
pub open spec fn all_entries(catalog: Seq<Product>) -> Seq<Entry> {
    Seq::new(catalog.len(), |index: int| entry_at(catalog, index))
}

/// The entries of the first `count` products that are placed under `group`,
/// in catalog order.
pub open spec fn members_among(catalog: Seq<Product>, group: Group, count: int) -> Seq<Entry> {
    all_entries(catalog).take(count).filter(
        |entry: Entry| placement(catalog[entry.index as int]) == Some(group),
    )
}

/// The entries of all products that are placed under `group`, in catalog
/// order.
pub open spec fn members(catalog: Seq<Product>, group: Group) -> Seq<Entry> {
    members_among(catalog, group, catalog.len() as int)
}

/// The groups of a page in the order in which the page shows them.
pub struct Listing {
    pub beers: Vec<Entry>,
    pub wines: Vec<Entry>,
    pub ciders: Vec<Entry>,
    pub liquors: Vec<Entry>,
    pub others: Vec<Entry>,
}

impl Listing {
    /// The entries under a heading.
    pub open spec fn section(self, group: Group) -> Seq<Entry> {
        match group {
            Group::Beer => self.beers@,
            Group::Wine => self.wines@,
            Group::Cider => self.ciders@,
            Group::Liquor => self.liquors@,
            Group::Other => self.others@,
        }
    }

    /// Whether every group holds exactly the catalog's members of it, in
    /// catalog order.
    pub open spec fn categorizes(self, catalog: Seq<Product>) -> bool {
        forall|group: Group| #[trigger] self.section(group) == members(catalog, group)
    }

    /// Whether every group holds exactly the catalog's members of it, each
    /// once, in ranking order.
    pub open spec fn lists(self, catalog: Seq<Product>) -> bool {
        forall|group: Group|
            #![trigger self.section(group)]
            ranked(self.section(group)) && self.section(group).to_multiset() == members(
                catalog,
                group,
            ).to_multiset()
    }

    /// The entries under a heading.
    pub fn entries(&self, group: Group) -> (entries: &Vec<Entry>)
        ensures
            entries@ == self.section(group),
    {
        match group {
            Group::Beer => &self.beers,
            Group::Wine => &self.wines,
            Group::Cider => &self.ciders,
            Group::Liquor => &self.liquors,
            Group::Other => &self.others,
        }
    }
}

/// Taking one more product into account adds its entry to the group it is
/// placed under and changes no other group.
pub proof fn lemma_members_step(catalog: Seq<Product>, group: Group, count: int)
    requires
        0 <= count < catalog.len() <= usize::MAX,
    ensures
        members_among(catalog, group, count + 1) == if placement(catalog[count]) == Some(group) {
            members_among(catalog, group, count).push(entry_at(catalog, count))
        } else {
            members_among(catalog, group, count)
        },
{
    let all = all_entries(catalog);
    let longer = all.take(count + 1);
    assert(longer.drop_last() =~= all.take(count));
    assert(longer.last() == entry_at(catalog, count));
    reveal(Seq::filter);
}

/// Every member of a group stands for a product of the catalog that is
/// placed under that group, and carries that product's score.
pub proof fn lemma_members_are_placed(catalog: Seq<Product>, group: Group, count: int)
    requires
        0 <= count <= catalog.len() <= usize::MAX,
    ensures
        forall|k: int|
            #![trigger members_among(catalog, group, count)[k]]
            0 <= k < members_among(catalog, group, count).len() ==> {
                let entry = members_among(catalog, group, count)[k];
                &&& entry.index < count
                &&& placement(catalog[entry.index as int]) == Some(group)
                &&& entry == entry_at(catalog, entry.index as int)
            },
    decreases count,
{
    if count == 0 {
        reveal(Seq::filter);
        assert(all_entries(catalog).take(0) =~= Seq::<Entry>::empty());
    } else {
        lemma_members_are_placed(catalog, group, count - 1);
        lemma_members_step(catalog, group, count - 1);
    }
}

/// A group holds the entry of a product once if the product is among those
/// taken into account and is placed under the group, and not at all
/// otherwise.
pub proof fn lemma_members_count(catalog: Seq<Product>, group: Group, count: int, index: int)
    requires
        0 <= count <= catalog.len() <= usize::MAX,
        0 <= index < catalog.len(),
    ensures
        members_among(catalog, group, count).to_multiset().count(entry_at(catalog, index)) == (if index
            < count && placement(catalog[index]) == Some(group) {
            1nat
        } else {
            0nat
        }),
    decreases count,
{
    let target = entry_at(catalog, index);
    if count == 0 {
        reveal(Seq::filter);
        assert(all_entries(catalog).take(0) =~= Seq::<Entry>::empty());
        let none = members_among(catalog, group, 0);
        assert(none =~= Seq::<Entry>::empty());
        to_multiset_contains(none, target);
    } else {
        let earlier = members_among(catalog, group, count - 1);
        lemma_members_count(catalog, group, count - 1, index);
        lemma_members_step(catalog, group, count - 1);
        to_multiset_build(earlier, entry_at(catalog, count - 1));
    }
}

/// A product that is excluded stands under no heading of the page.
pub proof fn law_excluded_never_listed(catalog: Seq<Product>, page: Listing, index: int)
    requires
        catalog.len() <= usize::MAX,
        page.lists(catalog),
        0 <= index < catalog.len(),
        excluded(catalog[index]),
    ensures
        forall|group: Group, k: int|
            0 <= k < page.section(group).len() ==> (#[trigger] page.section(group)[k]).index
                != index,
{
    assert forall|group: Group, k: int| 0 <= k < page.section(group).len() implies (
    #[trigger] page.section(group)[k]).index != index by {
        lemma_section_entries_are_members(catalog, page, group, k);
    }
}

/// A product that is not excluded stands exactly once on the page, under
/// the heading that its labels give it and under no other.
pub proof fn law_listed_once_under_its_heading(catalog: Seq<Product>, page: Listing, index: int)
    requires
        catalog.len() <= usize::MAX,
        page.lists(catalog),
        0 <= index < catalog.len(),
        !excluded(catalog[index]),
    ensures
        placement(catalog[index]) == Some(
            heading(label_text(catalog[index].category), label_text(catalog[index].sub_category)),
        ),
        page.section(placement(catalog[index])->0).to_multiset().count(entry_at(catalog, index))
            == 1,
        forall|group: Group, k: int|
            0 <= k < page.section(group).len() && (#[trigger] page.section(group)[k]).index
                == index ==> group == placement(catalog[index])->0 && page.section(group)[k]
                == entry_at(catalog, index),
{
    let home = placement(catalog[index])->0;
    assert(ranked(page.section(home)));
    lemma_members_count(catalog, home, catalog.len() as int, index);
    assert forall|group: Group, k: int|
        0 <= k < page.section(group).len() && (#[trigger] page.section(group)[k]).index
            == index implies group == home && page.section(group)[k] == entry_at(
        catalog,
        index,
    ) by {
        lemma_section_entries_are_members(catalog, page, group, k);
    }
}

/// Under every heading a product with the better score stands before one
/// with the worse.
pub proof fn law_better_value_first(
    catalog: Seq<Product>,
    page: Listing,
    group: Group,
    first: int,
    second: int,
)
    requires
        catalog.len() <= usize::MAX,
        page.lists(catalog),
        0 <= first < page.section(group).len(),
        0 <= second < page.section(group).len(),
        spec_apk(catalog[page.section(group)[first].index as int]).above(
            spec_apk(catalog[page.section(group)[second].index as int]),
        ),
    ensures
        first < second,
{
    lemma_section_entries_are_members(catalog, page, group, first);
    lemma_section_entries_are_members(catalog, page, group, second);
    lemma_ranked_better_first(page.section(group), first, second);
}

/// On a page no two entries under one heading tie in both score and catalog
/// position: every product stands there once at most.
pub proof fn lemma_section_strictly_ranked(catalog: Seq<Product>, page: Listing, group: Group)
    requires
        catalog.len() <= usize::MAX,
        page.lists(catalog),
    ensures
        strictly_ranked(page.section(group)),
{
    let shown = page.section(group);
    assert(ranked(shown));
    assert forall|x: Entry| shown.to_multiset().contains(x) implies shown.to_multiset().count(x)
        == 1 by {
        to_multiset_contains(shown, x);
        let k = choose|k: int| 0 <= k < shown.len() && shown[k] == x;
        lemma_section_entries_are_members(catalog, page, group, k);
        lemma_members_count(catalog, group, catalog.len() as int, x.index as int);
    }
    shown.lemma_multiset_has_no_duplicates_conv();
    assert forall|i: int, j: int| 0 <= i < j < shown.len() implies shown[i].precedes(
        shown[j],
    ) by {
        lemma_section_entries_are_members(catalog, page, group, i);
        lemma_section_entries_are_members(catalog, page, group, j);
        assert(!shown[j].precedes(shown[i]));
        assert(shown[i] != shown[j]);
    }
}

/// A catalog has one page only: two listings of it agree under every
/// heading, entry by entry.
pub proof fn law_page_is_determined(catalog: Seq<Product>, one: Listing, other: Listing)
    requires
        catalog.len() <= usize::MAX,
        one.lists(catalog),
        other.lists(catalog),
    ensures
        forall|group: Group| #[trigger] one.section(group) == other.section(group),
{
    assert forall|group: Group| #[trigger] one.section(group) == other.section(group) by {
        lemma_section_strictly_ranked(catalog, one, group);
        assert(ranked(other.section(group)));
        law_ranking_is_unique(one.section(group), other.section(group));
    }
}

/// Every entry of a page stands for a product of the catalog that is placed
/// under the entry's heading, and carries that product's score.
pub proof fn lemma_section_entries_are_members(
    catalog: Seq<Product>,
    page: Listing,
    group: Group,
    k: int,
)
    requires
        catalog.len() <= usize::MAX,
        page.lists(catalog),
        0 <= k < page.section(group).len(),
    ensures
        page.section(group)[k].index < catalog.len(),
        placement(catalog[page.section(group)[k].index as int]) == Some(group),
        page.section(group)[k] == entry_at(catalog, page.section(group)[k].index as int),
{
    let shown = page.section(group);
    let source = members(catalog, group);
    let entry = shown[k];
    assert(shown.contains(entry));
    to_multiset_contains(shown, entry);
    to_multiset_contains(source, entry);
    assert(source.contains(entry));
    let at = choose|at: int| 0 <= at < source.len() && source[at] == entry;
    lemma_members_are_placed(catalog, group, catalog.len() as int);
    assert(members_among(catalog, group, catalog.len() as int)[at] == entry);
}

/// Sorts the products of a catalog into the five groups, leaving out those
/// that are excluded. Within a group the entries keep the catalog's order.
pub fn categorize(catalog: &Vec<Product>) -> (listing: Listing)
    ensures
        listing.categorizes(catalog@),
{
    let mut listing = Listing {
        beers: Vec::new(),
        wines: Vec::new(),
        ciders: Vec::new(),
        liquors: Vec::new(),
        others: Vec::new(),
    };
    proof {
        reveal(Seq::filter);
        assert(all_entries(catalog@).take(0) =~= Seq::<Entry>::empty());
    }
    let mut index: usize = 0;
    while index < catalog.len()
        invariant
            index <= catalog.len(),
            listing.beers@ == members_among(catalog@, Group::Beer, index as int),
            listing.wines@ == members_among(catalog@, Group::Wine, index as int),
            listing.ciders@ == members_among(catalog@, Group::Cider, index as int),
            listing.liquors@ == members_among(catalog@, Group::Liquor, index as int),
            listing.others@ == members_among(catalog@, Group::Other, index as int),
        decreases catalog.len() - index,
    {
        let drink = &catalog[index];
        proof {
            lemma_members_step(catalog@, Group::Beer, index as int);
            lemma_members_step(catalog@, Group::Wine, index as int);
            lemma_members_step(catalog@, Group::Cider, index as int);
            lemma_members_step(catalog@, Group::Liquor, index as int);
            lemma_members_step(catalog@, Group::Other, index as int);
        }
        match place(drink) {
            Some(group) => {
                let entry = Entry { index, score: apk(drink) };
                match group {
                    Group::Beer => listing.beers.push(entry),
                    Group::Wine => listing.wines.push(entry),
                    Group::Cider => listing.ciders.push(entry),
                    Group::Liquor => listing.liquors.push(entry),
                    Group::Other => listing.others.push(entry),
                }
            },
            None => {},
        }
        index += 1;
    }
    assert forall|group: Group| #[trigger] listing.section(group) == members(catalog@, group) by {
    }
    listing
}

/// Puts every group of a listing in ranking order.
pub fn rank_groups(listing: &Listing) -> (page: Listing)
    ensures
        forall|group: Group|
            #![trigger page.section(group)]
            ranked(page.section(group)) && page.section(group).to_multiset()
                == listing.section(group).to_multiset(),
{
    let page = Listing {
        beers: rank(&listing.beers),
        wines: rank(&listing.wines),
        ciders: rank(&listing.ciders),
        liquors: rank(&listing.liquors),
        others: rank(&listing.others),
    };
    assert forall|group: Group|
        #![trigger page.section(group)]
        ranked(page.section(group)) && page.section(group).to_multiset() == listing.section(
            group,
        ).to_multiset() by {
    }
    page
}

/// Builds the page's data from a catalog: the products that may be shown,
/// each under its heading, every group with the best value first.
pub fn build_listing(catalog: &Vec<Product>) -> (page: Listing)
    ensures
        page.lists(catalog@),
{
    let sorted = categorize(catalog);
    let page = rank_groups(&sorted);
    assert forall|group: Group|
        #![trigger page.section(group)]
        ranked(page.section(group)) && page.section(group).to_multiset() == members(
            catalog@,
            group,
        ).to_multiset() by {
        assert(sorted.section(group) == members(catalog@, group));
    }
    page
}

} // verus!
