use zest::aggregate::AggregationRequest;
use zest::config::{Config, ContractStyle, OutputType};
use zest::exclusion::{exclusion_pattern, exclusion_regex};
use zest::report::{join_path, report_action, report_actions};

#[test]
fn join_paths() {
    assert_eq!(join_path(".", "target/coverage/lcov"), "./target/coverage/lcov");
    assert_eq!(join_path("proj/", "a"), "proj/a");
    assert_eq!(join_path("", "a"), "a");
    assert_eq!(join_path("/abs/p", "a/b"), "/abs/p/a/b");
}

#[test]
fn html_action_opens_the_index() {
    let a = report_action(OutputType::Html, ".");
    assert_eq!(a.format, OutputType::Html);
    assert_eq!(a.shown, "./target/coverage/html/index.html");
    assert_eq!(a.open.as_deref(), Some("./target/coverage/html/index.html"));
}

#[test]
fn lcov_action_is_only_shown() {
    let a = report_action(OutputType::Lcov, "/work/proj");
    assert_eq!(a.shown, "/work/proj/target/coverage/lcov");
    assert_eq!(a.open, None);
}

#[test]
fn duplicate_formats_dispatched_once_in_order() {
    let acts = report_actions(&vec![OutputType::Html, OutputType::Lcov, OutputType::Html], ".");
    assert_eq!(acts.len(), 2);
    let opens = acts.iter().filter(|a| a.open.is_some()).count();
    let shown_only: Vec<&String> = acts.iter().filter(|a| a.open.is_none()).map(|a| &a.shown).collect();
    assert_eq!(opens, 1);
    assert_eq!(shown_only, vec!["./target/coverage/lcov"]);
    assert_eq!(acts[0].format, OutputType::Html);
    assert_eq!(acts[1].format, OutputType::Lcov);
}

#[test]
fn first_requested_comes_first() {
    let acts = report_actions(&vec![OutputType::Lcov, OutputType::Lcov, OutputType::Html], "p");
    let formats: Vec<OutputType> = acts.iter().map(|a| a.format).collect();
    assert_eq!(formats, vec![OutputType::Lcov, OutputType::Html]);
}

#[test]
fn native_does_not_exclude_anchor_program_declaration() {
    let native = exclusion_regex(ContractStyle::Native).unwrap();
    let anchor = exclusion_regex(ContractStyle::Anchor).unwrap();
    let line = "declare_program!(lever);";
    assert!(!native.is_match(line));
    assert!(anchor.is_match(line));
    assert!(!native.is_match("#[program]"));
    assert!(anchor.is_match("#[program]"));
    assert!(anchor.is_match("    #[account]"));
}

#[test]
fn both_styles_exclude_common_boilerplate() {
    for style in [ContractStyle::Anchor, ContractStyle::Native] {
        let re = exclusion_regex(style).unwrap();
        assert!(re.is_match("#[test]"));
        assert!(re.is_match("    #[tokio::test]"));
        assert!(re.is_match("#[derive(Debug, Clone)]"));
        assert!(re.is_match("declare_id!(\"Fg6PaFpoGXkYsidMpWTK6W2BeZ7FEfcYkg476zPFsLnS\");"));
        assert!(!re.is_match("pub fn process_instruction() {"));
        assert!(!re.is_match("let x = 1; // #[test]"));
        assert_eq!(re.as_str(), exclusion_pattern(style));
    }
}

#[test]
fn aggregation_request_fields() {
    let mut c = Config::defaults();
    c.output_types = vec![OutputType::Lcov, OutputType::Html, OutputType::Lcov];
    c.branch = true;
    c.contract_style = ContractStyle::Native;
    let q = AggregationRequest::new(&c).ok().unwrap();
    assert_eq!(q.paths, vec!["./target/coverage".to_string()]);
    assert_eq!(q.binary_path, "./target");
    assert_eq!(q.source_dir, ".");
    assert_eq!(q.output_path, "./target/coverage");
    assert_eq!(q.output_types, vec![OutputType::Lcov, OutputType::Html]);
    assert!(q.ignore_not_existing);
    assert_eq!(q.ignore_dir, vec!["target/*".to_string(), "*tests*".to_string()]);
    assert!(q.branch);
    assert_eq!(q.sort_output_types, vec![OutputType::Html]);
    assert_eq!(q.contract_style, ContractStyle::Native);
    assert_eq!(q.excl_line.as_str(), exclusion_pattern(ContractStyle::Native));
}

#[test]
fn aggregator_command_line() {
    let q = AggregationRequest::new(&Config::defaults()).ok().unwrap();
    let inv = q.invocation();
    assert_eq!(inv.program, "grcov");
    let expected: Vec<String> = [
        "./target/coverage",
        "--binary-path",
        "./target",
        "--source-dir",
        ".",
        "--output-path",
        "./target/coverage",
        "--output-types",
        "html",
        "--ignore-not-existing",
        "--ignore",
        "target/*",
        "--ignore",
        "*tests*",
        "--sort-output-types",
        "html",
        "--llvm",
        "--log-level",
        "ERROR",
        "--excl-line",
        exclusion_pattern(ContractStyle::Anchor),
    ]
    .iter()
    .map(|s| s.to_string())
    .collect();
    assert_eq!(inv.args, expected);
    assert!(!inv.with_overlay);
}
