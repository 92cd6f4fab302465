//! Which products a listing shows, and under which heading.

use crate::product::Product;
use crate::text::same_text;
use vstd::prelude::*;

verus! {

/// The label of red wines.
pub const RED_WINE: &'static str = "Röda viner";

/// The label of white wines.
pub const WHITE_WINE: &'static str = "Vita viner";

/// The label of sparkling wines.
pub const SPARKLING_WINE: &'static str = "Mousserande viner";

/// The label of rosé wines.
pub const ROSE_WINE: &'static str = "Roséviner";

/// The label of aperitifs and dessert wines.
pub const DESSERT_WINE: &'static str = "Aperitif & dessert";

/// The label of beers.
pub const BEER: &'static str = "Öl";

/// The label that ciders share with mixed drinks.
pub const CIDER_AND_MIXED: &'static str = "Cider och blanddrycker";

/// The finer label that tells ciders from mixed drinks.
pub const CIDER: &'static str = "Cider";

/// The label of spirits.
pub const LIQUOR: &'static str = "Sprit";

/// The label that stands in for one the catalog does not give.
pub const UNLABELLED: &'static str = "Other";

/// The range code `BS`. Its products are never listed.
pub const RANGE_BS: &'static str = "BS";

/// The range code `TSLS`. Its products are never listed.
pub const RANGE_TSLS: &'static str = "TSLS";

/// The heading shown above the beers.
pub const BEER_TITLE: &'static str = "Öl";

/// The heading shown above the wines.
pub const WINE_TITLE: &'static str = "Vin";

/// The heading shown above the ciders.
pub const CIDER_TITLE: &'static str = "Cider";

/// The heading shown above the spirits.
pub const LIQUOR_TITLE: &'static str = "Sprit";

/// The heading shown above everything else.
pub const OTHER_TITLE: &'static str = "Annat";

/// A heading of the page. Every listed product stands under exactly one.
#[derive(Clone, Copy, Debug, PartialEq, Eq, Hash, Structural)]
pub enum Group {
    Beer,
    Wine,
    Cider,
    Liquor,
    Other,
}

impl Group {
    /// The heading that the page shows above the group.
    pub open spec fn title(self) -> Seq<char> {
        match self {
            Group::Beer => BEER_TITLE@,
            Group::Wine => WINE_TITLE@,
            Group::Cider => CIDER_TITLE@,
            Group::Liquor => LIQUOR_TITLE@,
            Group::Other => OTHER_TITLE@,
        }
    }

    /// The heading that the page shows above the group.
    pub fn display_name(self) -> (name: &'static str)
        ensures
            name@ == self.title(),
    {
        match self {
            Group::Beer => BEER_TITLE,
            Group::Wine => WINE_TITLE,
            Group::Cider => CIDER_TITLE,
            Group::Liquor => LIQUOR_TITLE,
            Group::Other => OTHER_TITLE,
        }
    }
}

/// The groups in the order in which the page shows them.
pub open spec fn spec_page_order() -> Seq<Group> {
    seq![Group::Beer, Group::Wine, Group::Cider, Group::Liquor, Group::Other]
}

/// The groups in the order in which the page shows them.
pub fn page_order() -> (groups: [Group; 5])
    ensures
        groups@ == spec_page_order(),
{
    let groups = [Group::Beer, Group::Wine, Group::Cider, Group::Liquor, Group::Other];
    assert(groups@ =~= spec_page_order());
    groups
}

/// The text that a label is compared by: its own, or `UNLABELLED` if absent.
pub open spec fn label_text(label: Option<String>) -> Seq<char> {
    match label {
        Some(text) => text@,
        None => UNLABELLED@,
    }
}

/// Whether a category is one of the five wine families.
pub open spec fn is_wine_label(category: Seq<char>) -> bool {
    ||| category == RED_WINE@
    ||| category == WHITE_WINE@
    ||| category == SPARKLING_WINE@
    ||| category == ROSE_WINE@
    ||| category == DESSERT_WINE@
}

/// Whether a range code bars a product from the page.
pub open spec fn is_barred_range(assortment: Option<String>) -> bool {
    assortment matches Some(code) && (code@ == RANGE_BS@ || code@ == RANGE_TSLS@)
}

/// Whether a product is kept off the page: it holds no alcohol, is sold in a
/// barred range, or is out of stock everywhere.
pub open spec fn excluded(drink: Product) -> bool {
    ||| drink.alcohol_percentage == 0
    ||| is_barred_range(drink.assortment)
    ||| drink.is_completely_out_of_stock
}

/// The heading for a pair of labels. The first rule that applies decides:
/// wine families, beer, cider (only with the cider sub-label), spirits,
/// and `Other` for all that is left.
pub open spec fn heading(category: Seq<char>, sub_category: Seq<char>) -> Group {
    if is_wine_label(category) {
        Group::Wine
    } else if category == BEER@ {
        Group::Beer
    } else if category == CIDER_AND_MIXED@ {
        if sub_category == CIDER@ {
            Group::Cider
        } else {
            Group::Other
        }
    } else if category == LIQUOR@ {
        Group::Liquor
    } else {
        Group::Other
    }
}

/// Where a product stands on the page: nowhere if it is excluded, else
/// under the heading of its labels.
pub open spec fn placement(drink: Product) -> Option<Group> {
    if excluded(drink) {
        None
    } else {
        Some(heading(label_text(drink.category), label_text(drink.sub_category)))
    }
}

/// Whether a product is kept off the page.
pub fn is_excluded(drink: &Product) -> (yes: bool)
    ensures
        yes == excluded(*drink),
{
    if drink.alcohol_percentage == 0 || drink.is_completely_out_of_stock {
        return true;
    }
    match &drink.assortment {
        Some(code) => same_text(code.as_str(), RANGE_BS) || same_text(
            code.as_str(),
            RANGE_TSLS,
        ),
        None => false,
    }
}

/// The heading for a pair of labels.
pub fn classify(category: &str, sub_category: &str) -> (group: Group)
    ensures
        group == heading(category@, sub_category@),
{
    if same_text(category, RED_WINE) || same_text(category, WHITE_WINE) || same_text(
        category,
        SPARKLING_WINE,
    ) || same_text(category, ROSE_WINE) || same_text(category, DESSERT_WINE) {
        Group::Wine
    } else if same_text(category, BEER) {
        Group::Beer
    } else if same_text(category, CIDER_AND_MIXED) {
        if same_text(sub_category, CIDER) {
            Group::Cider
        } else {
            Group::Other
        }
    } else if same_text(category, LIQUOR) {
        Group::Liquor
    } else {
        Group::Other
    }
}

/// Where a product stands on the page, if anywhere.
pub fn place(drink: &Product) -> (group: Option<Group>)
    ensures
        group == placement(*drink),
{
    if is_excluded(drink) {
        return None;
    }
    let category = match &drink.category {
        Some(text) => text.as_str(),
        None => UNLABELLED,
    };
    let sub_category = match &drink.sub_category {
        Some(text) => text.as_str(),
        None => UNLABELLED,
    };
    Some(classify(category, sub_category))
}

} // verus!
