use quickreplace::args::parse_args;
use quickreplace::failure::Failure;
use quickreplace::pattern::{replace, CompiledPattern};

fn strings(items: &[&str]) -> Vec<String> {
    items.iter().map(|s| s.to_string()).collect()
}

#[test]
fn scenario_literal_word() {
    assert_eq!(replace("foo", "bar", "foo foo baz").unwrap(), "bar bar baz");
}

#[test]
fn scenario_capture_group_reference() {
    assert_eq!(replace(r"(\d+)", "[$1]", "a1b22c333").unwrap(), "a[1]b[22]c[333]");
}

#[test]
fn no_match_leaves_text_unchanged() {
    let text = "nothing to see here\nor here";
    assert_eq!(replace("xyz", "abc", text).unwrap(), text);
    assert_eq!(replace("q+", "$0$0", "").unwrap(), "");
}

#[test]
fn every_match_is_replaced() {
    let out = replace("ab", "X", "abababcab").unwrap();
    assert_eq!(out, "XXXcX");
    assert!(!out.contains("ab"));
}

#[test]
fn empty_matches_make_progress() {
    assert_eq!(replace("", "-", "abc").unwrap(), "-a-b-c-");
    assert_eq!(replace("x*", "-", "abc").unwrap(), "-a-b-c-");
}

#[test]
fn unmatched_optional_group_expands_to_nothing() {
    assert_eq!(replace("a(b)?", "[$1]", "ab a").unwrap(), "[b] []");
}

#[test]
fn substitution_is_not_always_idempotent() {
    let once = replace("a", "aa", "a").unwrap();
    assert_eq!(once, "aa");
    let twice = replace("a", "aa", &once).unwrap();
    assert_eq!(twice, "aaaa");
    assert_ne!(once, twice);
}

#[test]
fn unbalanced_group_is_a_pattern_error() {
    match replace("(", "x", "text") {
        Err(Failure::Pattern { target, diagnostic }) => {
            assert_eq!(target, "(");
            assert_eq!(diagnostic, regex::Regex::new("(").unwrap_err().to_string());
        }
        _ => panic!("expected a pattern error"),
    }
    assert!(CompiledPattern::compile("a{2,1}").is_err());
}

#[test]
fn compiled_pattern_is_reusable() {
    let c = CompiledPattern::compile("o").unwrap();
    assert_eq!(c.substitute_all("0", "foo"), "f00");
    assert_eq!(c.substitute_all("", "boo hoo"), "b h");
}

#[test]
fn four_arguments_are_taken_in_order() {
    let a = parse_args(&strings(&["t", "r", "in.txt", "out.txt"])).unwrap();
    assert_eq!(a.target, "t");
    assert_eq!(a.replacement, "r");
    assert_eq!(a.filename, "in.txt");
    assert_eq!(a.output, "out.txt");
}

#[test]
fn wrong_argument_counts_are_usage_errors() {
    for n in [0usize, 3, 5] {
        let args: Vec<String> = (0..n).map(|i| format!("a{}", i)).collect();
        match parse_args(&args) {
            Err(Failure::Usage { count }) => assert_eq!(count, n),
            _ => panic!("expected a usage error for {} arguments", n),
        }
    }
}

#[test]
fn usage_report_has_banner_and_count() {
    let f = Failure::Usage { count: 3 };
    assert_eq!(f.describe(), " wrong number of arguments: expected 4, got 3.");
    assert_eq!(
        f.render("Error:", "quickreplace"),
        "quickreplace - change occurrences of one string into another\n\
         Usage: quickreplace <target> <replacement> <INPUT> <OUTPUT>\n\
         Error: wrong number of arguments: expected 4, got 3."
    );
    let report = f.report();
    let plain = f.render("Error:", "quickreplace");
    let coloured = f.render("\x1b[1;31mError:\x1b[0m", "\x1b[32mquickreplace\x1b[0m");
    assert!(report == plain || report == coloured);
}

#[test]
fn stage_reports_name_path_or_pattern_and_cause() {
    let read = Failure::Read { path: "in.txt".to_string(), cause: "not found".to_string() };
    assert_eq!(read.render("E", "P"), "E failed to read from file 'in.txt': not found");
    let write = Failure::Write { path: "out.txt".to_string(), cause: "denied".to_string() };
    assert_eq!(write.render("E", "P"), "E failed to write to file 'out.txt': denied");
    let pat = Failure::Pattern { target: "(".to_string(), diagnostic: "unclosed".to_string() };
    assert_eq!(pat.render("E", "P"), "E failed to compile pattern '(': unclosed");
    assert!(pat.report().contains("Error:"));
}

#[test]
fn matches_never_outnumber_positions() {
    assert_eq!(replace("a*", "-", "baaac").unwrap(), "-b-c-");
    assert_eq!(replace("", "-", "").unwrap(), "-");
}
