use apk::category::{page_order, Group};
use apk::listing::build_listing;
use apk::product::{apk, Product};

fn product(category: &str, alcohol_percentage: u32, price: u32, in_stock: bool) -> Product {
    Product {
        category: Some(String::from(category)),
        sub_category: None,
        assortment: Some(String::from("FS")),
        alcohol_percentage,
        volume: 100,
        price,
        recycle_fee: 0,
        is_completely_out_of_stock: !in_stock,
    }
}

fn value(drink: &Product) -> f64 {
    let score = apk(drink);
    score.numerator as f64 / score.denominator as f64
}

#[test]
fn catalog_of_four_products() {
    let beer = product("Öl", 500, 10_000, true);
    let wine = product("Röda viner", 1000, 10_000, true);
    let gone_wine = product("Röda viner", 2000, 10_000, false);
    let liquor = product("Sprit", 100, 10_000, true);
    assert_eq!(value(&beer), 5.0);
    assert_eq!(value(&wine), 10.0);
    assert_eq!(value(&gone_wine), 20.0);
    assert_eq!(value(&liquor), 1.0);

    let catalog = vec![beer, wine, gone_wine, liquor];
    let page = build_listing(&catalog);
    let indices = |group: Group| -> Vec<usize> {
        page.entries(group).iter().map(|entry| entry.index).collect()
    };
    assert_eq!(indices(Group::Beer), vec![0]);
    assert_eq!(indices(Group::Wine), vec![1]);
    assert_eq!(indices(Group::Cider), Vec::<usize>::new());
    assert_eq!(indices(Group::Liquor), vec![3]);
    assert_eq!(indices(Group::Other), Vec::<usize>::new());
    for group in page_order() {
        assert!(page.entries(group).iter().all(|entry| entry.index != 2));
    }
    assert_eq!(page.wines[0].score, apk(&catalog[1]));
}

#[test]
fn groups_are_ranked_by_value() {
    let catalog = vec![
        product("Öl", 450, 1_290, true),
        product("Vita viner", 1250, 8_900, true),
        product("Öl", 720, 1_990, true),
        product("Röda viner", 1400, 7_900, true),
        product("Öl", 350, 990, false),
        product("Mousserande viner", 1150, 33_900, true),
        product("Öl", 520, 1_250, true),
        product("Öl", 0, 1_000, true),
    ];
    let page = build_listing(&catalog);
    let beers: Vec<usize> = page.beers.iter().map(|entry| entry.index).collect();
    assert_eq!(beers, vec![6, 2, 0]);
    let wines: Vec<usize> = page.wines.iter().map(|entry| entry.index).collect();
    assert_eq!(wines, vec![3, 1, 5]);
    for group in page_order() {
        let entries = page.entries(group);
        for first in 0..entries.len() {
            for second in 0..entries.len() {
                if value(&catalog[entries[first].index]) > value(&catalog[entries[second].index]) {
                    assert!(first < second);
                }
            }
        }
    }
}

#[test]
fn products_with_equal_value_share_their_group() {
    let catalog = vec![
        product("Sprit", 4000, 20_000, true),
        product("Sprit", 2000, 10_000, true),
        product("Sprit", 4000, 10_000, true),
    ];
    let page = build_listing(&catalog);
    assert_eq!(page.liquors.len(), 3);
    assert_eq!(page.liquors[0].index, 2);
    let mut tied: Vec<usize> = page.liquors[1..].iter().map(|entry| entry.index).collect();
    tied.sort();
    assert_eq!(tied, vec![0, 1]);
}

#[test]
fn free_products_are_listed_last() {
    let catalog = vec![
        product("Sprit", 4000, 0, true),
        product("Sprit", 10, 10_000, true),
        product("Sprit", 4000, 10_000, true),
    ];
    let page = build_listing(&catalog);
    let order: Vec<usize> = page.liquors.iter().map(|entry| entry.index).collect();
    assert_eq!(order, vec![2, 1, 0]);
}
