use apk::category::{classify, is_excluded, page_order, place, Group};
use apk::listing::{build_listing, categorize};
use apk::product::Product;
use apk::text::same_text;

fn drink(category: Option<&str>, sub_category: Option<&str>) -> Product {
    Product {
        category: category.map(String::from),
        sub_category: sub_category.map(String::from),
        assortment: Some(String::from("FS")),
        alcohol_percentage: 500,
        volume: 330,
        price: 1500,
        recycle_fee: 100,
        is_completely_out_of_stock: false,
    }
}

const LABELS: [Option<&str>; 11] = [
    Some("Röda viner"),
    Some("Vita viner"),
    Some("Mousserande viner"),
    Some("Roséviner"),
    Some("Aperitif & dessert"),
    Some("Öl"),
    Some("Cider och blanddrycker"),
    Some("Sprit"),
    Some("Alkoholfritt"),
    Some("Other"),
    None,
];

fn listed_anywhere(catalog: &Vec<Product>, index: usize) -> usize {
    let page = build_listing(catalog);
    let mut seen = 0;
    for group in page_order() {
        seen += page.entries(group).iter().filter(|entry| entry.index == index).count();
    }
    seen
}

#[test]
fn wine_families_are_wine() {
    for label in ["Röda viner", "Vita viner", "Mousserande viner", "Roséviner", "Aperitif & dessert"] {
        assert_eq!(classify(label, "Other"), Group::Wine);
        assert_eq!(classify(label, "Cider"), Group::Wine);
    }
}

#[test]
fn beer_label_is_beer() {
    assert_eq!(classify("Öl", "Ljus lager"), Group::Beer);
    assert_eq!(classify("Öl", "Cider"), Group::Beer);
}

#[test]
fn cider_needs_the_cider_sub_label() {
    assert_eq!(classify("Cider och blanddrycker", "Cider"), Group::Cider);
    assert_eq!(classify("Cider och blanddrycker", "Blanddrycker"), Group::Other);
    assert_eq!(classify("Cider och blanddrycker", "Other"), Group::Other);
    assert_eq!(classify("Cider och blanddrycker", "cider"), Group::Other);
}

#[test]
fn liquor_label_is_liquor() {
    assert_eq!(classify("Sprit", "Whisky"), Group::Liquor);
}

#[test]
fn unknown_labels_are_other() {
    assert_eq!(classify("Presentartiklar", "Cider"), Group::Other);
    assert_eq!(classify("", ""), Group::Other);
    assert_eq!(classify("öl", "Other"), Group::Other);
    assert_eq!(classify("Sprit ", "Other"), Group::Other);
    assert_eq!(classify("Other", "Other"), Group::Other);
}

#[test]
fn missing_labels_are_other() {
    assert_eq!(place(&drink(None, None)), Some(Group::Other));
    assert_eq!(place(&drink(None, Some("Cider"))), Some(Group::Other));
    assert_eq!(place(&drink(Some("Cider och blanddrycker"), None)), Some(Group::Other));
    assert_eq!(place(&drink(Some("Cider och blanddrycker"), Some("Cider"))), Some(Group::Cider));
}

#[test]
fn no_alcohol_is_excluded_for_any_category() {
    for label in LABELS {
        let mut product = drink(label, Some("Cider"));
        product.alcohol_percentage = 0;
        assert!(is_excluded(&product));
        assert_eq!(place(&product), None);
        assert_eq!(listed_anywhere(&vec![product], 0), 0);
    }
}

#[test]
fn out_of_stock_is_excluded_for_any_category() {
    for label in LABELS {
        let mut product = drink(label, Some("Cider"));
        product.is_completely_out_of_stock = true;
        assert!(is_excluded(&product));
        assert_eq!(place(&product), None);
        assert_eq!(listed_anywhere(&vec![product], 0), 0);
    }
}

#[test]
fn barred_ranges_are_excluded_for_any_category() {
    for code in ["BS", "TSLS"] {
        for label in LABELS {
            let mut product = drink(label, Some("Cider"));
            product.assortment = Some(String::from(code));
            assert!(is_excluded(&product));
            assert_eq!(place(&product), None);
            assert_eq!(listed_anywhere(&vec![product], 0), 0);
        }
    }
}

#[test]
fn other_ranges_are_not_excluded() {
    for code in ["FS", "TSE", "bs", "BS ", "TSL", "TSLSS", ""] {
        let mut product = drink(Some("Öl"), None);
        product.assortment = Some(String::from(code));
        assert!(!is_excluded(&product));
    }
    let mut product = drink(Some("Öl"), None);
    product.assortment = None;
    assert!(!is_excluded(&product));
    assert_eq!(place(&product), Some(Group::Beer));
}

#[test]
fn eligible_products_stand_in_exactly_one_group() {
    let catalog: Vec<Product> = LABELS.iter().map(|label| drink(*label, Some("Cider"))).collect();
    let expected = [
        Group::Wine,
        Group::Wine,
        Group::Wine,
        Group::Wine,
        Group::Wine,
        Group::Beer,
        Group::Cider,
        Group::Liquor,
        Group::Other,
        Group::Other,
        Group::Other,
    ];
    let page = build_listing(&catalog);
    for index in 0..catalog.len() {
        for group in page_order() {
            let times = page.entries(group).iter().filter(|entry| entry.index == index).count();
            assert_eq!(times, if group == expected[index] { 1 } else { 0 });
        }
    }
}

#[test]
fn categorize_keeps_catalog_order() {
    let catalog = vec![
        drink(Some("Öl"), None),
        drink(Some("Sprit"), None),
        drink(Some("Öl"), None),
        drink(Some("Vita viner"), None),
        drink(Some("Öl"), None),
    ];
    let listing = categorize(&catalog);
    let beers: Vec<usize> = listing.beers.iter().map(|entry| entry.index).collect();
    assert_eq!(beers, vec![0, 2, 4]);
    assert_eq!(listing.liquors.len(), 1);
    assert_eq!(listing.liquors[0].index, 1);
    assert_eq!(listing.wines[0].index, 3);
    assert!(listing.ciders.is_empty());
    assert!(listing.others.is_empty());
}

#[test]
fn empty_catalog_gives_empty_groups() {
    let page = build_listing(&Vec::new());
    for group in page_order() {
        assert!(page.entries(group).is_empty());
    }
}

#[test]
fn headings_and_their_order() {
    let names: Vec<&str> = page_order().iter().map(|group| group.display_name()).collect();
    assert_eq!(names, vec!["Öl", "Vin", "Cider", "Sprit", "Annat"]);
    assert_eq!(
        page_order(),
        [Group::Beer, Group::Wine, Group::Cider, Group::Liquor, Group::Other]
    );
}

#[test]
fn same_text_compares_content() {
    assert!(same_text("", ""));
    assert!(same_text("Öl", "Öl"));
    assert!(same_text("Roséviner", "Roséviner"));
    assert!(!same_text("Öl", "Ol"));
    assert!(!same_text("Sprit", "Sprits"));
    assert!(!same_text("Sprit", "Spri"));
    assert!(!same_text("Sprit", "Other"));
    assert!(!same_text("", "x"));
}
