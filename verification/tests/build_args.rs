use zkbuild::args::{try_parse_from, ArgsError, BuildRequest};
use zkbuild::skip::SkipBuildFilter;

fn parse(args: &[&str]) -> Result<BuildRequest, ArgsError> {
    let v: Vec<String> = args.iter().map(|s| s.to_string()).collect();
    try_parse_from(&v)
}

#[test]
fn can_parse_build_filters() {
    let args = parse(&["foundry-cli", "--skip", "tests"]).unwrap();
    assert_eq!(args.skip_filters, Some(vec![SkipBuildFilter::Tests]));

    let args = parse(&["foundry-cli", "--skip", "scripts"]).unwrap();
    assert_eq!(args.skip_filters, Some(vec![SkipBuildFilter::Scripts]));

    let args = parse(&["foundry-cli", "--skip", "tests", "scripts"]).unwrap();
    assert_eq!(
        args.skip_filters,
        Some(vec![SkipBuildFilter::Tests, SkipBuildFilter::Scripts])
    );

    let args = parse(&["foundry-cli", "--skip", "tests", "--skip", "scripts"]).unwrap();
    assert_eq!(
        args.skip_filters,
        Some(vec![SkipBuildFilter::Tests, SkipBuildFilter::Scripts])
    );
}

#[test]
fn check_conflicts() {
    let args = parse(&["foundry-cli", "--format-json", "--silent"]);
    assert!(args.is_err());
    assert!(matches!(args.unwrap_err(), ArgsError::ArgumentConflict));
}

#[test]
fn parses_reporting_flags() {
    let args = parse(&["foundry-cli", "--names", "--sizes"]).unwrap();
    assert!(args.print_names);
    assert!(args.print_sizes);
    assert!(!args.format_json);
    assert!(!args.silent);
    assert_eq!(args.skip_filters, None);
}

#[test]
fn parses_suffix_filter_forms() {
    let args = parse(&["foundry-cli", "--skip", ".t.sol", ".s.sol"]).unwrap();
    assert_eq!(
        args.skip_filters,
        Some(vec![SkipBuildFilter::Tests, SkipBuildFilter::Scripts])
    );
    let args = parse(&["foundry-cli", "--skip", "test", "script"]).unwrap();
    assert_eq!(
        args.skip_filters,
        Some(vec![SkipBuildFilter::Tests, SkipBuildFilter::Scripts])
    );
}

#[test]
fn duplicate_filters_keep_set() {
    let a = parse(&["foundry-cli", "--skip", "tests", "scripts"]).unwrap();
    let b = parse(&["foundry-cli", "--skip", "scripts", "tests", "tests"]).unwrap();
    let mut sa: Vec<SkipBuildFilter> = a.skip_filters.unwrap();
    let mut sb: Vec<SkipBuildFilter> = b.skip_filters.unwrap();
    sa.sort();
    sa.dedup();
    sb.sort();
    sb.dedup();
    assert_eq!(sa, sb);
}

#[test]
fn rejects_unknown_argument() {
    let args = parse(&["foundry-cli", "--bogus"]);
    assert!(matches!(args.unwrap_err(), ArgsError::UnknownArgument));
}

#[test]
fn rejects_skip_without_value() {
    let args = parse(&["foundry-cli", "--skip"]);
    assert!(matches!(args.unwrap_err(), ArgsError::MissingSkipValue));
    let args = parse(&["foundry-cli", "--skip", "--names"]);
    assert!(matches!(args.unwrap_err(), ArgsError::MissingSkipValue));
}

#[test]
fn rejects_invalid_skip_filter() {
    let args = parse(&["foundry-cli", "--skip", "libraries"]);
    assert!(matches!(args.unwrap_err(), ArgsError::InvalidSkipFilter));
}

#[test]
fn format_json_alone_is_accepted() {
    let args = parse(&["foundry-cli", "--format-json"]).unwrap();
    assert!(args.format_json);
    assert!(!args.silent);
}

#[test]
fn empty_command_line_gives_defaults() {
    let args = parse(&["foundry-cli"]).unwrap();
    assert!(!args.print_names);
    assert!(!args.print_sizes);
    assert_eq!(args.skip_filters, None);
    assert!(!args.format_json);
    assert!(!args.silent);
}
