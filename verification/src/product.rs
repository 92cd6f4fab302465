//! The product as the ranking sees it, and its value score.

use std::cmp::Ordering;
use vstd::prelude::*;

verus! {

/// One catalog entry, reduced to what listing and ranking read.
///
/// Quantities are whole numbers of a fixed unit, so that scores compare
/// exactly: no rounding decides the order of two products.
pub struct Product {
    /// Label from the retailer's taxonomy, if the catalog gives one.
    pub category: Option<String>,
    /// Finer label below `category`, if the catalog gives one.
    pub sub_category: Option<String>,
    /// Code of the range the product is sold in, if the catalog gives one.
    pub assortment: Option<String>,
    /// Alcohol by volume, in hundredths of a percent.
    pub alcohol_percentage: u32,
    /// Volume of the container, in millilitres.
    pub volume: u32,
    /// Shelf price, in hundredths of the currency unit.
    pub price: u32,
    /// Deposit added to the price at the till, in the unit of `price`.
    pub recycle_fee: u32,
    /// Whether no store and no warehouse has the product left.
    pub is_completely_out_of_stock: bool,
}

/// A value score, kept as the exact fraction `numerator / denominator`.
///
/// A zero denominator marks a score that is not defined (the product costs
/// nothing). Such a score ranks below every defined one and ties with every
/// other undefined one.
#[derive(Clone, Copy, Debug, PartialEq, Eq, Structural)]
pub struct Score {
    pub numerator: u64,
    pub denominator: u64,
}

impl Score {
    /// Whether the score is a number.
    pub open spec fn defined(self) -> bool {
        self.denominator > 0
    }

    /// Whether `self` is strictly the better score.
    pub open spec fn above(self, other: Score) -> bool {
        self.denominator > 0 && (other.denominator == 0 || self.numerator * other.denominator
            > other.numerator * self.denominator)
    }

    /// Whether neither score is better than the other.
    pub open spec fn ties(self, other: Score) -> bool {
        !self.above(other) && !other.above(self)
    }

    /// Whether the score is a number.
    pub fn is_defined(&self) -> (yes: bool)
        ensures
            yes == self.defined(),
    {
        self.denominator > 0
    }

    /// Whether `self` is strictly the better score.
    pub fn is_above(&self, other: &Score) -> (yes: bool)
        ensures
            yes == self.above(*other),
    {
        if self.denominator == 0 {
            false
        } else if other.denominator == 0 {
            true
        } else {
            let a: u128 = self.numerator as u128;
            let b: u128 = other.denominator as u128;
            let c: u128 = other.numerator as u128;
            let d: u128 = self.denominator as u128;
            assert(a * b <= 0xffff_ffff_ffff_ffff * 0xffff_ffff_ffff_ffff) by (nonlinear_arith)
                requires
                    a <= 0xffff_ffff_ffff_ffff,
                    b <= 0xffff_ffff_ffff_ffff,
            ;
            assert(c * d <= 0xffff_ffff_ffff_ffff * 0xffff_ffff_ffff_ffff) by (nonlinear_arith)
                requires
                    c <= 0xffff_ffff_ffff_ffff,
                    d <= 0xffff_ffff_ffff_ffff,
            ;
            a * b > c * d
        }
    }
}

/// The value score of a product: alcohol times volume over price plus fee.
pub open spec fn spec_apk(drink: Product) -> Score {
    Score {
        numerator: (drink.alcohol_percentage * drink.volume) as u64,
        denominator: (drink.price + drink.recycle_fee) as u64,
    }
}

/// The value score of a product: alcohol times volume over price plus fee.
///
/// With alcohol in hundredths of a percent and money in hundredths of the
/// currency unit the two scales cancel: the fraction is percent times
/// millilitres per currency unit.
pub fn apk(drink: &Product) -> (score: Score)
    ensures
        score == spec_apk(*drink),
        score.numerator == drink.alcohol_percentage * drink.volume,
        score.denominator == drink.price + drink.recycle_fee,
{
    let alcohol: u64 = drink.alcohol_percentage as u64;
    let volume: u64 = drink.volume as u64;
    let price: u64 = drink.price as u64;
    let fee: u64 = drink.recycle_fee as u64;
    assert(alcohol * volume <= 0xffff_ffff * 0xffff_ffff) by (nonlinear_arith)
        requires
            alcohol <= 0xffff_ffff,
            volume <= 0xffff_ffff,
    ;
    Score { numerator: alcohol * volume, denominator: price + fee }
}

/// Orders two products for a listing that puts the best value first.
///
/// `Less` says that `d1` comes first, which is when its score is the better
/// one; products whose scores tie compare `Equal`.
pub fn apk_comparator(d1: &Product, d2: &Product) -> (order: Ordering)
    ensures
        spec_apk(*d1).above(spec_apk(*d2)) <==> order == Ordering::Less,
        spec_apk(*d2).above(spec_apk(*d1)) <==> order == Ordering::Greater,
        spec_apk(*d1).ties(spec_apk(*d2)) <==> order == Ordering::Equal,
{
    let s1 = apk(d1);
    let s2 = apk(d2);
    proof {
        lemma_above_asymmetric(s1, s2);
    }
    if s2.is_above(&s1) {
        Ordering::Greater
    } else if s1.is_above(&s2) {
        Ordering::Less
    } else {
        Ordering::Equal
    }
}

/// No score is above itself, and of two scores at most one is above the other.
pub proof fn lemma_above_asymmetric(a: Score, b: Score)
    ensures
        !a.above(a),
        !(a.above(b) && b.above(a)),
{
}

/// A score not above a second that is not above a third is not above the third.
pub proof fn lemma_not_above_transitive(a: Score, b: Score, c: Score)
    requires
        !a.above(b),
        !b.above(c),
    ensures
        !a.above(c),
{
    if a.denominator > 0 {
        let (an, ad) = (a.numerator as int, a.denominator as int);
        let (bn, bd) = (b.numerator as int, b.denominator as int);
        let (cn, cd) = (c.numerator as int, c.denominator as int);
        assert(bd > 0);
        assert(cd > 0);
        assert(an * cd <= cn * ad) by (nonlinear_arith)
            requires
                an * bd <= bn * ad,
                bn * cd <= cn * bd,
                ad > 0,
                bd > 0,
                cd > 0,
                an >= 0,
                bn >= 0,
                cn >= 0,
        ;
    }
}

} // verus!
