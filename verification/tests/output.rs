use compile_explorer::output::{
    process_output, CompileOptions, BRIEF_MAX_LINES, DEFAULT_MAX_LINES,
};

fn numbered_lines(count: usize) -> String {
    (1..=count).map(|i| format!("line {}\n", i)).collect()
}

fn options(brief: bool, full_output: bool) -> CompileOptions {
    CompileOptions { verbose: false, brief, full_output }
}

/// The policy written with the standard library's own line splitting.
fn bounded_by_the_book(output: &str, options: &CompileOptions) -> (String, bool) {
    if options.full_output {
        return (output.to_string(), false);
    }
    let lines: Vec<&str> = output.lines().collect();
    let max_lines = if options.brief { 100 } else { 1000 };
    if lines.len() > max_lines {
        let mut result = lines[..max_lines].join("\n");
        result.push_str(&format!("\n... (共{}行，显示前{}行)", lines.len(), max_lines));
        (result, true)
    } else {
        (output.to_string(), false)
    }
}

#[test]
fn default_options_are_all_off() {
    let options = CompileOptions::default();
    assert!(!options.verbose);
    assert!(!options.brief);
    assert!(!options.full_output);
}

#[test]
fn line_limits() {
    assert_eq!(BRIEF_MAX_LINES, 100);
    assert_eq!(DEFAULT_MAX_LINES, 1000);
    assert_eq!(options(true, false).max_lines(), 100);
    assert_eq!(options(false, false).max_lines(), 1000);
    assert_eq!(options(true, true).max_lines(), 100);
}

#[test]
fn one_line_over_the_default_limit_is_truncated() {
    let text = numbered_lines(1001);
    let (bounded, truncated) = process_output(&text, &CompileOptions::default());
    assert!(truncated);
    let lines: Vec<&str> = bounded.lines().collect();
    assert_eq!(lines.len(), 1001);
    for (i, line) in lines[..1000].iter().enumerate() {
        assert_eq!(*line, format!("line {}", i + 1));
    }
    assert_eq!(lines[1000], "... (共1001行，显示前1000行)");
    assert!(bounded.ends_with("line 1000\n... (共1001行，显示前1000行)"));
}

#[test]
fn exactly_the_limit_is_not_truncated() {
    let text = numbered_lines(1000);
    let (bounded, truncated) = process_output(&text, &CompileOptions::default());
    assert!(!truncated);
    assert_eq!(bounded, text);
    let text = numbered_lines(100);
    let (bounded, truncated) = process_output(&text, &options(true, false));
    assert!(!truncated);
    assert_eq!(bounded, text);
}

#[test]
fn full_output_is_handed_back_verbatim() {
    let text = numbered_lines(5000);
    let (bounded, truncated) = process_output(&text, &options(false, true));
    assert!(!truncated);
    assert_eq!(bounded, text);
}

#[test]
fn full_output_overrides_brief() {
    let text = numbered_lines(150);
    let (bounded, truncated) = process_output(&text, &options(true, true));
    assert!(!truncated);
    assert_eq!(bounded, text);
}

#[test]
fn brief_output_keeps_the_first_hundred_lines() {
    let text = numbered_lines(150);
    let (bounded, truncated) = process_output(&text, &options(true, false));
    assert!(truncated);
    let lines: Vec<&str> = bounded.lines().collect();
    assert_eq!(lines.len(), 101);
    for (i, line) in lines[..100].iter().enumerate() {
        assert_eq!(*line, format!("line {}", i + 1));
    }
    assert_eq!(lines[100], "... (共150行，显示前100行)");
}

#[test]
fn brief_output_under_the_default_limit_only() {
    let text = numbered_lines(150);
    let (bounded, truncated) = process_output(&text, &CompileOptions::default());
    assert!(!truncated);
    assert_eq!(bounded, text);
}

#[test]
fn small_and_empty_outputs_are_unchanged() {
    for text in ["", "\n", "one", "one\ntwo", "one\r\ntwo\r\n"] {
        let (bounded, truncated) = process_output(text, &options(true, false));
        assert!(!truncated);
        assert_eq!(bounded, text);
    }
}

#[test]
fn carriage_returns_before_line_feeds_are_dropped_on_truncation() {
    let text: String = (1..=101).map(|i| format!("l{}\r\n", i)).collect();
    let (bounded, truncated) = process_output(&text, &options(true, false));
    assert!(truncated);
    let wanted: Vec<String> = (1..=100).map(|i| format!("l{}", i)).collect();
    assert_eq!(bounded, format!("{}\n... (共101行，显示前100行)", wanted.join("\n")));
}

#[test]
fn last_line_without_line_feed_counts() {
    let mut text = numbered_lines(100);
    text.push_str("tail");
    let (bounded, truncated) = process_output(&text, &options(true, false));
    assert!(truncated);
    assert!(bounded.ends_with("line 100\n... (共101行，显示前100行)"));
}

#[test]
fn policy_agrees_with_the_standard_library_line_by_line() {
    let mut state: u64 = 3;
    let mut next = move || {
        state = state.wrapping_mul(6364136223846793005).wrapping_add(1442695040888963407);
        state >> 33
    };
    let pieces = ["x", "", "y\r", "\r", "行", " z "];
    let endings = ["\n", "\r\n", "\n", "\n\n"];
    for round in 0..300 {
        let count = 90 + next() % 30;
        let mut text = String::new();
        for _ in 0..count {
            text.push_str(pieces[(next() % pieces.len() as u64) as usize]);
            text.push_str(endings[(next() % endings.len() as u64) as usize]);
        }
        if round % 2 == 0 {
            text.push_str("end");
        }
        for (brief, full_output) in [(true, false), (false, false), (true, true)] {
            let options = options(brief, full_output);
            assert_eq!(process_output(&text, &options), bounded_by_the_book(&text, &options));
        }
    }
}
