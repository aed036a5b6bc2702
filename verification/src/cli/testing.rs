//! The command that runs a project's tests, and the list of options that is
//! shown in place of the test runner's own help.
use crate::blank::{blank, is_blank};
use crate::config::{ForgeConfig, ForgeConfigView};
use crate::paint::{bold_green, cyan, green, paint_bold_green, paint_cyan, paint_green};
use crate::plan::{
    no_steps, push_step, Action, ActionView, OnExit, OnExitView, OnFault, OnFaultView, Step,
    StepView,
};
use crate::text::{chars_of, no_texts, push_text, same_text};
use vstd::prelude::*;
use vstd::string::*;
use vstd::utf8::encode_utf8;

verus! {

/// What `test` was given.
#[derive(Debug)]
pub struct TestArgs {
    /// Show the options of the test runner and run nothing.
    pub help: bool,
    /// Flags for the test runner.
    pub options: Option<Vec<String>>,
}

/// The step that asks the test runner for its help and shows the options it
/// lists, as [`ctest_help`] renders them.
pub open spec fn usage_plan() -> Seq<StepView> {
    seq![
        StepView {
            action: ActionView::Usage { program: "ctest"@, args: seq!["--help"@] },
            on_fault: OnFaultView::Io,
            on_exit: OnExitView::Ignore,
        },
    ]
}

impl TestArgs {
    /// The steps of the command for the project `config`: the options of
    /// the test runner where help is asked for, else the tests with the
    /// flags given.
    pub open spec fn plan(self, config: ForgeConfigView) -> Seq<StepView> {
        if self.help {
            usage_plan()
        } else {
            config.test_plan(self.options.deep_view())
        }
    }

    /// The step that shows the options of the test runner.
    pub fn usage() -> (r: Vec<Step>)
        ensures
            r.deep_view() == usage_plan(),
    {
        let mut args = no_texts();
        push_text(&mut args, "--help");
        let mut plan = no_steps();
        push_step(
            &mut plan,
            Step {
                action: Action::Usage { program: "ctest".to_string(), args },
                on_fault: OnFault::Io,
                on_exit: OnExit::Ignore,
            },
        );
        plan
    }

    /// The steps of the command for the project `config`.
    pub fn process_command(&self, config: &ForgeConfig) -> (r: Vec<Step>)
        ensures
            r.deep_view() == self.plan(config@),
    {
        if self.help {
            return Self::usage();
        }
        match &self.options {
            Some(flags) => config.test(Some(flags)),
            None => config.test(None),
        }
    }
}

/// What is taken off the ends of a text.
#[derive(Debug, Clone, Copy, PartialEq, Eq, Structural)]
pub enum Strip {
    /// White space.
    Blanks,
    /// Equals signs.
    Equals,
}

impl Strip {
    /// Whether `c` is taken off.
    pub open spec fn takes(self, c: char) -> bool {
        match self {
            Strip::Blanks => is_blank(c),
            Strip::Equals => c == '=',
        }
    }

    fn check(self, c: char) -> (r: bool)
        ensures
            r == self.takes(c),
    {
        match self {
            Strip::Blanks => blank(c),
            Strip::Equals => c == '=',
        }
    }
}

/// `s` without the characters of `kind` that it starts with.
pub open spec fn without_leading(s: Seq<char>, kind: Strip) -> Seq<char>
    decreases s.len(),
{
    if s.len() > 0 && kind.takes(s[0]) {
        without_leading(s.drop_first(), kind)
    } else {
        s
    }
}

/// `s` without the characters of `kind` that it ends with.
pub open spec fn without_trailing(s: Seq<char>, kind: Strip) -> Seq<char>
    decreases s.len(),
{
    if s.len() > 0 && kind.takes(s.last()) {
        without_trailing(s.drop_last(), kind)
    } else {
        s
    }
}

/// `s` without white space at either end.
pub open spec fn trimmed(s: Seq<char>) -> Seq<char> {
    without_trailing(without_leading(s, Strip::Blanks), Strip::Blanks)
}

/// The lines of `s`: what stands between its line feeds, before the first
/// and after the last.
pub open spec fn lines(s: Seq<char>) -> Seq<Seq<char>>
    decreases s.len(),
{
    if s.len() == 0 {
        seq![Seq::empty()]
    } else {
        let rest = lines(s.drop_first());
        if s[0] == '\n' {
            seq![Seq::empty()] + rest
        } else {
            seq![seq![s[0]] + rest[0]] + rest.drop_first()
        }
    }
}

/// The place of the last `"= "` of `t` that starts below `n`, if there is one.
pub open spec fn mark_below(t: Seq<char>, n: int) -> Option<int>
    decreases n,
{
    if n <= 0 {
        None
    } else if n < t.len() && t[n - 1] == '=' && t[n] == ' ' {
        Some(n - 1)
    } else {
        mark_below(t, n - 1)
    }
}

/// The option and the description of a line that starts an option: what
/// stands before and after its last `"= "`, without the white space next to
/// it. A line without `"= "` is an option without description.
pub open spec fn option_entry(t: Seq<char>) -> (Seq<char>, Seq<char>) {
    match mark_below(t, t.len() - 1) {
        Some(i) => (
            without_trailing(t.subrange(0, i), Strip::Blanks),
            without_leading(t.subrange(i + 2, t.len() as int), Strip::Blanks),
        ),
        None => (t, Seq::empty()),
    }
}

/// What a line that goes on with a description adds: no option, and the
/// line without the equals signs and the white space that it starts with.
pub open spec fn more_entry(t: Seq<char>) -> (Seq<char>, Seq<char>) {
    (Seq::empty(), without_leading(without_leading(t, Strip::Equals), Strip::Blanks))
}

/// How far the reading of the help has come.
#[derive(Debug, Clone, Copy, PartialEq, Eq, Structural)]
pub enum Mode {
    /// The heading of the options was not seen yet.
    Before,
    /// Among the options, and the last line belonged to none.
    Among,
    /// Within an option: the last line started one or went on with one.
    Within,
}

/// What a line, given without white space at its ends, does in `mode`: the
/// mode after it, and the entry it adds to the list if it adds one.
///
/// The heading `Options` opens the list. In the list a line that starts with
/// `-` starts an option; the lines after it go on with its description until
/// an empty line or the next option; every other line is passed over.
pub open spec fn step(mode: Mode, t: Seq<char>) -> (Mode, Option<(Seq<char>, Seq<char>)>) {
    if mode == Mode::Within {
        if t.len() == 0 {
            (Mode::Among, None)
        } else if t[0] == '-' {
            (Mode::Within, Some(option_entry(t)))
        } else {
            (Mode::Within, Some(more_entry(t)))
        }
    } else if t == "Options"@ {
        (Mode::Among, None)
    } else if mode == Mode::Among && t.len() > 0 && t[0] == '-' {
        (Mode::Within, Some(option_entry(t)))
    } else {
        (mode, None)
    }
}

/// The entries that `rows` add to the list, read from `mode` on.
pub open spec fn scan(rows: Seq<Seq<char>>, mode: Mode) -> Seq<(Seq<char>, Seq<char>)>
    decreases rows.len(),
{
    if rows.len() == 0 {
        Seq::empty()
    } else {
        let (next, added) = step(mode, trimmed(rows[0]));
        let rest = scan(rows.drop_first(), next);
        match added {
            Some(entry) => seq![entry] + rest,
            None => rest,
        }
    }
}

/// The options that the help text `output` lists, each with its description.
pub open spec fn listed(output: Seq<char>) -> Seq<(Seq<char>, Seq<char>)> {
    scan(lines(output), Mode::Before)
}

/// The width that an option and the gap after it fill where the option is short enough.
pub const DESC_INDENT: usize = 32;

/// The number of spaces between an option and its description: what brings
/// the two to a width of 32 bytes, and one space where the option is longer.
pub open spec fn gap(option: Seq<char>) -> nat {
    let n = encode_utf8(option).len();
    if 32 >= n {
        (32 - n) as nat
    } else {
        1
    }
}

/// `n` spaces.
pub open spec fn spaces(n: nat) -> Seq<char> {
    Seq::new(n, |i: int| ' ')
}

/// The line shown for an entry.
pub open spec fn shown(entry: (Seq<char>, Seq<char>)) -> Seq<char> {
    "  "@ + cyan(entry.0) + spaces(gap(entry.0)) + entry.1 + "\n"@
}

/// The lines shown for `entries`, in order.
pub open spec fn shown_all(entries: Seq<(Seq<char>, Seq<char>)>) -> Seq<char>
    decreases entries.len(),
{
    if entries.len() == 0 {
        Seq::empty()
    } else {
        shown_all(entries.drop_last()) + shown(entries.last())
    }
}

/// What is shown for the help text `output` of the test runner: how the
/// command is used, then the options that `output` lists.
pub open spec fn help_text(output: Seq<char>) -> Seq<char> {
    green("Usage:"@) + " "@ + cyan("forge test -- [OPTIONS]"@) + "\n\n"@ + bold_green("Options:"@)
        + "\n"@ + shown_all(listed(output))
}

/// The lines of a text that has no line feed before `n`, and one at `n` or
/// its end there: the first line is what stands before `n`.
proof fn lemma_first_line(s: Seq<char>, n: int)
    requires
        0 <= n <= s.len(),
        forall|k: int| 0 <= k < n ==> s[k] != '\n',
        n < s.len() ==> s[n] == '\n',
    ensures
        lines(s) == if n < s.len() {
            seq![s.subrange(0, n)] + lines(s.subrange(n + 1, s.len() as int))
        } else {
            seq![s]
        },
    decreases n,
{
    if s.len() == 0 {
        assert(s =~= Seq::<char>::empty());
    } else if n == 0 {
        assert(s.subrange(0, 0) =~= Seq::<char>::empty());
    } else {
        let tail = s.drop_first();
        lemma_first_line(tail, n - 1);
        let rest = lines(tail);
        if n < s.len() {
            assert(tail.subrange(0, n - 1) =~= s.subrange(1, n));
            assert(tail.subrange(n, tail.len() as int) =~= s.subrange(n + 1, s.len() as int));
            assert(seq![s[0]] + s.subrange(1, n) =~= s.subrange(0, n));
        } else {
            assert(seq![s[0]] + tail =~= s);
        }
    }
}

/// The first place from `from` on, before `to`, whose character is not of `kind`.
fn skip_front(chars: &Vec<char>, from: usize, to: usize, kind: Strip) -> (r: usize)
    requires
        from <= to <= chars.len(),
    ensures
        from <= r <= to,
        chars@.subrange(r as int, to as int) == without_leading(
            chars@.subrange(from as int, to as int),
            kind,
        ),
{
    let mut i = from;
    while i < to && kind.check(chars[i])
        invariant
            from <= i <= to <= chars.len(),
            without_leading(chars@.subrange(i as int, to as int), kind) == without_leading(
                chars@.subrange(from as int, to as int),
                kind,
            ),
        decreases to - i,
    {
        assert(chars@.subrange(i as int, to as int).drop_first() =~= chars@.subrange(
            i + 1,
            to as int,
        ));
        i = i + 1;
    }
    i
}

/// The place after the last character before `to`, from `from` on, that is not of `kind`.
fn skip_back(chars: &Vec<char>, from: usize, to: usize, kind: Strip) -> (r: usize)
    requires
        from <= to <= chars.len(),
    ensures
        from <= r <= to,
        chars@.subrange(from as int, r as int) == without_trailing(
            chars@.subrange(from as int, to as int),
            kind,
        ),
{
    let mut i = to;
    while i > from && kind.check(chars[i - 1])
        invariant
            from <= i <= to <= chars.len(),
            without_trailing(chars@.subrange(from as int, i as int), kind) == without_trailing(
                chars@.subrange(from as int, to as int),
                kind,
            ),
        decreases i - from,
    {
        assert(chars@.subrange(from as int, i as int).drop_last() =~= chars@.subrange(
            from as int,
            i - 1,
        ));
        i = i - 1;
    }
    i
}

/// The place of the last `"= "` between `from` and `to`.
fn find_mark(chars: &Vec<char>, from: usize, to: usize) -> (r: Option<usize>)
    requires
        from <= to <= chars.len(),
    ensures
        match r {
            Some(i) => from <= i && i + 2 <= to && mark_below(
                chars@.subrange(from as int, to as int),
                to - from - 1,
            ) == Some(i - from),
            None => mark_below(chars@.subrange(from as int, to as int), to - from - 1) is None,
        },
{
    let ghost t = chars@.subrange(from as int, to as int);
    if to - from < 2 {
        return None;
    }
    let mut n = to - from - 1;
    while n > 0
        invariant
            from <= to <= chars.len(),
            n < to - from,
            t == chars@.subrange(from as int, to as int),
            mark_below(t, n as int) == mark_below(t, to - from - 1),
        decreases n,
    {
        if chars[from + n - 1] == '=' && chars[from + n] == ' ' {
            return Some(from + n - 1);
        }
        n = n - 1;
    }
    None
}

/// The text of `output` between two places.
fn piece(output: &str, from: usize, to: usize) -> (r: String)
    requires
        from <= to <= output@.len(),
    ensures
        r@ == output@.subrange(from as int, to as int),
{
    output.substring_char(from, to).to_string()
}

/// The option and the description of the line between `a` and `b`, which starts an option.
fn read_option(output: &str, chars: &Vec<char>, a: usize, b: usize) -> (r: (String, String))
    requires
        chars@ == output@,
        a <= b <= chars.len(),
    ensures
        r.deep_view() == option_entry(chars@.subrange(a as int, b as int)),
{
    let ghost t = chars@.subrange(a as int, b as int);
    match find_mark(chars, a, b) {
        Some(i) => {
            let left = skip_back(chars, a, i, Strip::Blanks);
            let right = skip_front(chars, i + 2, b, Strip::Blanks);
            assert(t.subrange(0, i - a) =~= chars@.subrange(a as int, i as int));
            assert(t.subrange(i - a + 2, t.len() as int) =~= chars@.subrange(i + 2, b as int));
            (piece(output, a, left), piece(output, right, b))
        },
        None => (piece(output, a, b), String::new()),
    }
}

/// What the line between `a` and `b` adds where it goes on with a description.
fn read_more(output: &str, chars: &Vec<char>, a: usize, b: usize) -> (r: (String, String))
    requires
        chars@ == output@,
        a <= b <= chars.len(),
    ensures
        r.deep_view() == more_entry(chars@.subrange(a as int, b as int)),
{
    let first = skip_front(chars, a, b, Strip::Equals);
    let second = skip_front(chars, first, b, Strip::Blanks);
    (String::new(), piece(output, second, b))
}

/// The options that the help text `output` lists, each with its description.
pub fn help_entries(output: &str) -> (r: Vec<(String, String)>)
    ensures
        r.deep_view() == listed(output@),
{
    let chars = chars_of(output);
    let n = chars.len();
    let mut entries: Vec<(String, String)> = Vec::new();
    let mut mode = Mode::Before;
    let mut start: usize = 0;
    let mut finished = false;
    assert(chars@.subrange(0, n as int) =~= output@);
    while !finished
        invariant
            chars@ == output@,
            n == chars.len(),
            start <= n,
            listed(output@) == entries.deep_view() + scan(
                if finished {
                    Seq::empty()
                } else {
                    lines(chars@.subrange(start as int, n as int))
                },
                mode,
            ),
        decreases
                if finished {
                    0
                } else {
                    1 + n - start
                },
    {
        let ghost rest = chars@.subrange(start as int, n as int);
        let mut end = start;
        while end < n && chars[end] != '\n'
            invariant
                start <= end <= n,
                n == chars.len(),
                forall|k: int| start <= k < end ==> chars@[k] != '\n',
            decreases n - end,
        {
            end = end + 1;
        }
        let ghost row = chars@.subrange(start as int, end as int);
        let ghost later = if end < n {
            lines(chars@.subrange(end + 1, n as int))
        } else {
            Seq::empty()
        };
        proof {
            lemma_first_line(rest, end - start);
            assert(rest.subrange(0, end - start) =~= row);
            if end < n {
                assert(rest.subrange(end - start + 1, rest.len() as int) =~= chars@.subrange(
                    end + 1,
                    n as int,
                ));
            }
            assert((seq![row] + later).drop_first() =~= later);
        }
        let a = skip_front(&chars, start, end, Strip::Blanks);
        let b = skip_back(&chars, a, end, Strip::Blanks);
        if mode == Mode::Within {
            if a == b {
                mode = Mode::Among;
            } else if chars[a] == '-' {
                let entry = read_option(output, &chars, a, b);
                entries.push(entry);
            } else {
                let entry = read_more(output, &chars, a, b);
                entries.push(entry);
            }
        } else if same_text(output.substring_char(a, b), "Options") {
            mode = Mode::Among;
        } else if mode == Mode::Among && a < b && chars[a] == '-' {
            let entry = read_option(output, &chars, a, b);
            entries.push(entry);
            mode = Mode::Within;
        }
        if end < n {
            start = end + 1;
        } else {
            finished = true;
        }
    }
    entries
}

/// `n` spaces.
fn blanks(n: usize) -> (r: String)
    ensures
        r@ == spaces(n as nat),
{
    let mut r = String::new();
    let mut i: usize = 0;
    while i < n
        invariant
            i <= n,
            r@ == spaces(i as nat),
        decreases n - i,
    {
        r.append(" ");
        proof {
            reveal_strlit(" ");
        }
        i = i + 1;
    }
    r
}

/// What is shown for the help text `output` of the test runner.
pub fn ctest_help(output: &str) -> (r: String)
    ensures
        r@ == help_text(output@),
{
    let entries = help_entries(output);
    let mut text = paint_green("Usage:");
    text.append(" ");
    text.append(paint_cyan("forge test -- [OPTIONS]").as_str());
    text.append("\n\n");
    text.append(paint_bold_green("Options:").as_str());
    text.append("\n");
    let ghost head = text@;
    let mut i: usize = 0;
    while i < entries.len()
        invariant
            i <= entries.len(),
            text@ == head + shown_all(entries.deep_view().take(i as int)),
        decreases entries.len() - i,
    {
        let option = entries[i].0.as_str();
        let width = option.as_bytes().len();
        let indent = if DESC_INDENT >= width {
            DESC_INDENT - width
        } else {
            1
        };
        text.append("  ");
        text.append(paint_cyan(option).as_str());
        text.append(blanks(indent).as_str());
        text.append(entries[i].1.as_str());
        text.append("\n");
        proof {
            let next = entries.deep_view().take(i + 1);
            assert(next.drop_last() =~= entries.deep_view().take(i as int));
        }
        i = i + 1;
    }
    assert(entries.deep_view().take(entries.len() as int) =~= entries.deep_view());
    text
}

} // verus!
