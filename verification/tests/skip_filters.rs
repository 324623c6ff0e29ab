use zkbuild::skip::{has_suffix, should_skip, SkipBuildFilter};

#[test]
fn file_patterns_are_the_solidity_suffixes() {
    assert_eq!(SkipBuildFilter::Tests.file_pattern(), ".t.sol");
    assert_eq!(SkipBuildFilter::Scripts.file_pattern(), ".s.sol");
}

#[test]
fn suffix_matching() {
    assert!(has_suffix("Counter.t.sol", ".t.sol"));
    assert!(has_suffix(".t.sol", ".t.sol"));
    assert!(!has_suffix("Counter.sol", ".t.sol"));
    assert!(!has_suffix("sol", ".t.sol"));
    assert!(!has_suffix("", ".t.sol"));
}

#[test]
fn filters_exclude_by_suffix() {
    let filters = vec![SkipBuildFilter::Tests];
    assert!(should_skip(&filters, "test/Counter.t.sol"));
    assert!(!should_skip(&filters, "script/Deploy.s.sol"));
    assert!(!should_skip(&filters, "src/Counter.sol"));

    let filters = vec![SkipBuildFilter::Tests, SkipBuildFilter::Scripts];
    assert!(should_skip(&filters, "script/Deploy.s.sol"));
}

#[test]
fn filter_order_and_duplicates_do_not_matter() {
    let a = vec![SkipBuildFilter::Tests, SkipBuildFilter::Scripts];
    let b = vec![
        SkipBuildFilter::Scripts,
        SkipBuildFilter::Tests,
        SkipBuildFilter::Tests,
    ];
    for name in ["x.t.sol", "y.s.sol", "z.sol", "w"] {
        assert_eq!(should_skip(&a, name), should_skip(&b, name));
    }
}

#[test]
fn no_filters_skip_nothing() {
    let none: Vec<SkipBuildFilter> = Vec::new();
    assert!(!should_skip(&none, "Counter.t.sol"));
}
