//! Correlation tokens: freshly generated per builder, and pairwise distinct.
use std::collections::HashSet;

use rtdlib::CountryInfo;
use rtdlib::RObject;

#[test]
fn builders_seed_a_token() {
    let v = CountryInfo::builder().build();
    let token = v.extra().expect("a fresh builder carries a token");
    assert_eq!(token.len(), 36);
}

#[test]
fn ten_thousand_builders_have_ten_thousand_tokens() {
    let mut seen: HashSet<String> = HashSet::new();
    for _ in 0..10_000 {
        let v = CountryInfo::builder().build();
        seen.insert(v.extra().unwrap());
    }
    assert_eq!(seen.len(), 10_000);
}
