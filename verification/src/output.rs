//! The policy that bounds the text handed back to a caller: at most a fixed
//! number of lines, followed by a line that says how many there were.

use crate::text::{
    chars_of, count_lines, decimal, has_no_newline, join_lines, lemma_decimal_digits,
    lemma_lines_hold_no_newline, lemma_lines_of_joined, lemma_single_line, lines_of, push_decimal,
    push_first_lines, without_cr,
};
use vstd::prelude::*;

verus! {

/// The most lines handed back to a caller who asked for a brief answer.
pub const BRIEF_MAX_LINES: usize = 100;

/// The most lines handed back to any other caller.
pub const DEFAULT_MAX_LINES: usize = 1000;

/// What a caller can ask of one exploration.
#[derive(Debug, Clone, Copy, PartialEq, Eq, Structural)]
pub struct CompileOptions {
    /// Asked for by callers who want more detail; the policy does not read it.
    pub verbose: bool,
    /// The caller wants a short answer: the lower line limit applies.
    pub brief: bool,
    /// The caller wants everything: no limit applies, whatever `brief` says.
    pub full_output: bool,
}

impl Default for CompileOptions {
    /// The options of a caller who asked for nothing: all three are off.
    fn default() -> (options: Self)
        ensures
            options == (CompileOptions { verbose: false, brief: false, full_output: false }),
    {
        CompileOptions { verbose: false, brief: false, full_output: false }
    }
}

impl CompileOptions {
    /// The line limit that these options ask for, where one applies.
    pub open spec fn spec_max_lines(self) -> nat {
        if self.brief {
            BRIEF_MAX_LINES as nat
        } else {
            DEFAULT_MAX_LINES as nat
        }
    }

    /// The line limit that these options ask for, where one applies.
    pub fn max_lines(&self) -> (limit: usize)
        ensures
            limit == self.spec_max_lines(),
    {
        if self.brief {
            BRIEF_MAX_LINES
        } else {
            DEFAULT_MAX_LINES
        }
    }
}

/// The line that closes a truncated text: it says that there were `total`
/// lines and that the first `shown` of them are shown.
pub open spec fn summary_line(total: nat, shown: nat) -> Seq<char> {
    "... (共"@ + decimal(total) + "行，显示前"@ + decimal(shown) + "行)"@
}

/// Whether `text` is truncated under `options`: no full output was asked for
/// and the text has more lines than the limit.
pub open spec fn is_truncated(text: Seq<char>, options: CompileOptions) -> bool {
    !options.full_output && lines_of(text).len() > options.spec_max_lines()
}

/// The text handed back for `text` under `options`: the text itself where it
/// is not truncated; otherwise its first lines up to the limit, joined by line
/// feeds, and after one more line feed the summary line.
pub open spec fn bounded_text(text: Seq<char>, options: CompileOptions) -> Seq<char> {
    if is_truncated(text, options) {
        join_lines(lines_of(text).take(options.spec_max_lines() as int)) + seq!['\n']
            + summary_line(lines_of(text).len(), options.spec_max_lines())
    } else {
        text
    }
}

/// Bounds `output` as `options` ask: the text handed back, and whether it was
/// truncated.
pub fn process_output(output: &str, options: &CompileOptions) -> (bounded: (String, bool))
    ensures
        bounded.0@ == bounded_text(output@, *options),
        bounded.1 == is_truncated(output@, *options),
        options.full_output ==> bounded.0@ == output@ && !bounded.1,
{
    if options.full_output {
        return (output.to_owned(), false);
    }
    let chars = chars_of(output);
    let limit = options.max_lines();
    let total = count_lines(&chars);
    if total > limit {
        let mut result = String::new();
        push_first_lines(&mut result, &chars, limit);
        result.push('\n');
        result.append("... (共");
        push_decimal(&mut result, total);
        result.append("行，显示前");
        push_decimal(&mut result, limit);
        result.append("行)");
        assert(result@ == bounded_text(output@, *options));
        (result, true)
    } else {
        (output.to_owned(), false)
    }
}

/// The summary line is one line: it is not empty and holds no line feed.
pub proof fn summary_is_one_line(total: nat, shown: nat)
    ensures
        lines_of(summary_line(total, shown)) == seq![summary_line(total, shown)],
{
    reveal_strlit("... (共");
    reveal_strlit("行，显示前");
    reveal_strlit("行)");
    lemma_decimal_digits(total);
    lemma_decimal_digits(shown);
    let line = summary_line(total, shown);
    assert(has_no_newline("... (共"@));
    assert(has_no_newline("行，显示前"@));
    assert(has_no_newline("行)"@));
    assert(has_no_newline(decimal(total)));
    assert(has_no_newline(decimal(shown)));
    assert(has_no_newline(line));
    lemma_single_line(line);
}

/// What a truncated text looks like, read line by line: the first lines of
/// the text it was made from, up to the limit, each without a carriage return
/// at its end, and after them the summary line and nothing else. So it has
/// one line more than the limit.
pub proof fn truncated_text_lines(text: Seq<char>, options: CompileOptions)
    requires
        is_truncated(text, options),
    ensures
        lines_of(bounded_text(text, options)) == lines_of(text).take(
            options.spec_max_lines() as int,
        ).map_values(|line: Seq<char>| without_cr(line)) + seq![
            summary_line(lines_of(text).len(), options.spec_max_lines()),
        ],
        lines_of(bounded_text(text, options)).len() == options.spec_max_lines() + 1,
{
    let limit = options.spec_max_lines();
    let kept = lines_of(text).take(limit as int);
    lemma_lines_hold_no_newline(text);
    assert forall|i: int| 0 <= i < kept.len() implies has_no_newline(#[trigger] kept[i]) by {
        assert(kept[i] == lines_of(text)[i]);
    }
    summary_is_one_line(lines_of(text).len(), limit);
    lemma_lines_of_joined(kept, summary_line(lines_of(text).len(), limit));
}

} // verus!
