use quickreplace::args::Arguments;
use quickreplace::failure::Failure;
use quickreplace::pipeline::{after_read, after_write, begin, Action};

fn arguments(target: &str, replacement: &str) -> Arguments {
    Arguments {
        target: target.to_string(),
        replacement: replacement.to_string(),
        filename: "in.txt".to_string(),
        output: "out.txt".to_string(),
    }
}

#[test]
fn begin_asks_for_the_input_file() {
    let raw: Vec<String> = ["foo", "bar", "in.txt", "out.txt"].iter().map(|s| s.to_string()).collect();
    let (args, action) = begin(&raw);
    assert_eq!(args.unwrap().target, "foo");
    assert!(matches!(action, Action::ReadInput { path } if path == "in.txt"));
}

#[test]
fn three_or_five_arguments_read_nothing() {
    for n in [3usize, 5] {
        let raw: Vec<String> = (0..n).map(|i| format!("x{}", i)).collect();
        let (args, action) = begin(&raw);
        assert!(args.is_none());
        assert!(matches!(action, Action::Report { failure: Failure::Usage { count } } if count == n));
    }
}

#[test]
fn loaded_text_is_substituted_for_writing() {
    let a = arguments("foo", "bar");
    match after_read(&a, Ok("foo foo baz".to_string())) {
        Action::WriteOutput { path, contents } => {
            assert_eq!(path, "out.txt");
            assert_eq!(contents, "bar bar baz");
        }
        other => panic!("unexpected {:?}", other),
    }
    let b = arguments(r"(\d+)", "[$1]");
    assert!(matches!(after_read(&b, Ok("a1b22c333".to_string())),
        Action::WriteOutput { contents, .. } if contents == "a[1]b[22]c[333]"));
}

#[test]
fn missing_input_is_reported_without_writing() {
    let a = arguments("foo", "bar");
    match after_read(&a, Err("NotFound".to_string())) {
        Action::Report { failure: Failure::Read { path, cause } } => {
            assert_eq!(path, "in.txt");
            assert_eq!(cause, "NotFound");
        }
        other => panic!("unexpected {:?}", other),
    }
}

#[test]
fn invalid_pattern_is_reported_without_writing() {
    let a = arguments("(", "x");
    assert!(matches!(after_read(&a, Ok("text".to_string())),
        Action::Report { failure: Failure::Pattern { target, .. } } if target == "("));
}

#[test]
fn write_outcome_ends_the_run() {
    let a = arguments("foo", "bar");
    assert!(matches!(after_write(&a, Ok(())), Action::Finish));
    assert!(matches!(after_write(&a, Err("denied".to_string())),
        Action::Report { failure: Failure::Write { path, cause } } if path == "out.txt" && cause == "denied"));
}
