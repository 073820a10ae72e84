//! The judge: classifies a finished run by the resources it used, the
//! status it ended with and the output it produced.

use vstd::prelude::*;
use crate::executor::ResourceUsage;

verus! {

/// What the judge is told about a run besides its measurements.
#[derive(Debug, Clone, PartialEq, Eq)]
pub struct JudgeOption {
    /// Memory limit in bytes.
    pub memory_limit: u64,
    /// Processor time limit in whole seconds.
    pub time_limit: u64,
    /// File that holds what the program wrote.
    pub output_path: Option<String>,
    /// File that holds the expected output.
    pub answer_path: Option<String>,
}

/// A `JudgeOption` as contracts see it.
pub struct JudgeOptionView {
    pub memory_limit: u64,
    pub time_limit: u64,
    pub output_path: Option<Seq<char>>,
    pub answer_path: Option<Seq<char>>,
}

impl DeepView for JudgeOption {
    type V = JudgeOptionView;

    open spec fn deep_view(&self) -> JudgeOptionView {
        JudgeOptionView {
            memory_limit: self.memory_limit,
            time_limit: self.time_limit,
            output_path: self.output_path.deep_view(),
            answer_path: self.answer_path.deep_view(),
        }
    }
}


/// The verdict on a run.
#[derive(Debug, Clone, Copy, PartialEq, Eq, Structural)]
pub enum ResultKind {
    /// The program ended normally within its limits and wrote what was
    /// expected.
    Accepted,
    /// The program ended normally within its limits and wrote something
    /// else.
    WrongAnswer,
    /// The program used more processor time than allowed.
    TimeLimitExceeded,
    /// The program used more memory than allowed.
    MemoryLimitExceeded,
    /// The program ended with a status other than zero.
    RuntimeError,
}

/// What the judge hands back.
#[derive(Debug, Clone, Copy, PartialEq, Eq, Structural)]
pub struct JudgeResult {
    pub result: ResultKind,
}

/// The byte that ends a line.
pub const NEWLINE: u8 = 10;

/// The pieces into which the line ends cut a text: what stands before the
/// first line end, between each two, and after the last. A piece may be
/// empty, and a text without a line end is one piece.
pub open spec fn split_lines(text: Seq<u8>) -> Seq<Seq<u8>>
    decreases text.len(),
{
    if text.len() == 0 {
        seq![Seq::<u8>::empty()]
    } else {
        let lines = split_lines(text.drop_last());
        if text.last() == NEWLINE {
            lines.push(Seq::<u8>::empty())
        } else {
            lines.update(lines.len() - 1, lines.last().push(text.last()))
        }
    }
}

/// `lines` without the empty line that a final line end leaves behind.
pub open spec fn trim_last(lines: Seq<Seq<u8>>) -> Seq<Seq<u8>> {
    if lines.len() >= 2 && lines.last().len() == 0 {
        lines.drop_last()
    } else {
        lines
    }
}

/// The lines of a text, whether or not its last line is ended.
pub open spec fn text_lines(text: Seq<u8>) -> Seq<Seq<u8>> {
    trim_last(split_lines(text))
}

/// Whether two texts hold the same lines.
pub open spec fn same_output(output: Seq<u8>, answer: Seq<u8>) -> bool {
    text_lines(output) == text_lines(answer)
}

/// The verdict on what a program wrote, held against what was expected.
pub open spec fn compare(output: Seq<u8>, answer: Seq<u8>) -> ResultKind {
    if same_output(output, answer) {
        ResultKind::Accepted
    } else {
        ResultKind::WrongAnswer
    }
}

/// `text` without its final line end, if it has one.
pub open spec fn strip_final_newline(text: Seq<u8>) -> Seq<u8> {
    if text.len() > 0 && text.last() == NEWLINE {
        text.drop_last()
    } else {
        text
    }
}

/// The text that `lines` make up: the lines in their order, with a line
/// end between each two.
pub open spec fn join_lines(lines: Seq<Seq<u8>>) -> Seq<u8>
    decreases lines.len(),
{
    if lines.len() == 0 {
        Seq::<u8>::empty()
    } else if lines.len() == 1 {
        lines[0]
    } else {
        join_lines(lines.drop_last()).push(NEWLINE) + lines.last()
    }
}

/// The lines held in `lines`.
pub open spec fn lines_view(lines: Seq<Vec<u8>>) -> Seq<Seq<u8>> {
    lines.map_values(|line: Vec<u8>| line@)
}

/// Cuts a text at its line ends.
pub fn read_lines(text: &[u8]) -> (lines: Vec<Vec<u8>>)
    ensures
        lines_view(lines@) == split_lines(text@),
{
    let mut lines: Vec<Vec<u8>> = Vec::new();
    let mut current: Vec<u8> = Vec::new();
    let mut i: usize = 0;
    assert(text@.take(0) =~= Seq::<u8>::empty());
    assert(lines_view(lines@).push(current@) =~= split_lines(text@.take(0)));
    while i < text.len()
        invariant
            i <= text.len(),
            lines_view(lines@).push(current@) == split_lines(text@.take(i as int)),
        decreases text.len() - i,
    {
        let ghost done = lines_view(lines@);
        let ghost line = current@;
        let ghost longer = text@.take(i + 1);
        assert(longer.drop_last() =~= text@.take(i as int));
        assert(longer.last() == text@[i as int]);
        if text[i] == NEWLINE {
            lines.push(current);
            current = Vec::new();
            assert(lines_view(lines@) =~= done.push(line));
        } else {
            current.push(text[i]);
            assert(done.push(current@) =~= done.push(line).update(
                done.len() as int,
                line.push(text@[i as int]),
            ));
        }
        i += 1;
    }
    assert(text@.take(i as int) =~= text@);
    let ghost done = lines_view(lines@);
    lines.push(current);
    assert(lines_view(lines@) =~= done.push(current@));
    lines
}

/// Drops the empty line that a final line end leaves behind.
pub fn trim_last_newline(lines: Vec<Vec<u8>>) -> (trimmed: Vec<Vec<u8>>)
    ensures
        lines_view(trimmed@) == trim_last(lines_view(lines@)),
{
    let mut lines = lines;
    let count = lines.len();
    if count >= 2 && lines[count - 1].len() == 0 {
        let ghost before = lines_view(lines@);
        lines.pop();
        assert(lines_view(lines@) =~= before.drop_last());
    }
    lines
}

/// Whether two lines hold the same bytes.
fn same_line(left: &Vec<u8>, right: &Vec<u8>) -> (same: bool)
    ensures
        same == (left@ == right@),
{
    if left.len() != right.len() {
        return false;
    }
    let mut i: usize = 0;
    while i < left.len()
        invariant
            i <= left.len(),
            left.len() == right.len(),
            left@.take(i as int) == right@.take(i as int),
        decreases left.len() - i,
    {
        if left[i] != right[i] {
            return false;
        }
        assert(left@.take(i + 1) =~= left@.take(i as int).push(left@[i as int]));
        assert(right@.take(i + 1) =~= right@.take(i as int).push(right@[i as int]));
        i += 1;
    }
    assert(left@.take(i as int) =~= left@);
    assert(right@.take(i as int) =~= right@);
    true
}

/// Holds what a program wrote against what was expected, line by line. A
/// final line end on either side makes no difference; anything else does.
pub fn diff(output: &[u8], answer: &[u8]) -> (result: ResultKind)
    ensures
        result == compare(output@, answer@),
{
    let output_lines = trim_last_newline(read_lines(output));
    let answer_lines = trim_last_newline(read_lines(answer));
    let ghost left = lines_view(output_lines@);
    let ghost right = lines_view(answer_lines@);
    assert(left == text_lines(output@));
    assert(right == text_lines(answer@));
    if output_lines.len() != answer_lines.len() {
        return ResultKind::WrongAnswer;
    }
    let mut i: usize = 0;
    while i < output_lines.len()
        invariant
            i <= output_lines.len(),
            output_lines.len() == answer_lines.len(),
            left == lines_view(output_lines@),
            right == lines_view(answer_lines@),
            left == text_lines(output@),
            right == text_lines(answer@),
            left.take(i as int) == right.take(i as int),
        decreases output_lines.len() - i,
    {
        if !same_line(&output_lines[i], &answer_lines[i]) {
            assert(left[i as int] != right[i as int]);
            return ResultKind::WrongAnswer;
        }
        assert(left.take(i + 1) =~= left.take(i as int).push(left[i as int]));
        assert(right.take(i + 1) =~= right.take(i as int).push(right[i as int]));
        i += 1;
    }
    assert(left.take(i as int) =~= left);
    assert(right.take(i as int) =~= right);
    ResultKind::Accepted
}

/// Whether the run used more processor time than allowed: its user time in
/// milliseconds is above the limit in milliseconds.
pub open spec fn over_time(usage: ResourceUsage, time_limit: u64) -> bool {
    usage.user_time.millis() > time_limit * 1000
}

/// Whether the run used more memory than allowed: its peak resident set
/// size, which is measured in kilobytes, is above the limit in bytes.
pub open spec fn over_memory(usage: ResourceUsage, memory_limit: u64) -> bool {
    usage.memory * 1024 > memory_limit
}

/// The verdict that the measurements and the exit status settle by
/// themselves, in this order of priority: time, memory, exit status.
/// `None` where the output decides.
pub open spec fn early_verdict_spec(
    exit_code: i32,
    usage: ResourceUsage,
    time_limit: u64,
    memory_limit: u64,
) -> Option<ResultKind> {
    if over_time(usage, time_limit) {
        Some(ResultKind::TimeLimitExceeded)
    } else if over_memory(usage, memory_limit) {
        Some(ResultKind::MemoryLimitExceeded)
    } else if exit_code != 0 {
        Some(ResultKind::RuntimeError)
    } else {
        None
    }
}

/// The verdict on a run.
pub open spec fn verdict(
    exit_code: i32,
    usage: ResourceUsage,
    time_limit: u64,
    memory_limit: u64,
    output: Seq<u8>,
    answer: Seq<u8>,
) -> ResultKind {
    match early_verdict_spec(exit_code, usage, time_limit, memory_limit) {
        Some(result) => result,
        None => compare(output, answer),
    }
}

/// The verdict on a run as far as it can be given without its output.
pub fn early_verdict(exit_code: i32, rusage: &ResourceUsage, option: &JudgeOption) -> (result: Option<
    ResultKind,
>)
    ensures
        result == early_verdict_spec(exit_code, *rusage, option.time_limit, option.memory_limit),
{
    let allowed_millis: u128 = (option.time_limit as u128) * 1000;
    if rusage.user_time.as_millis() > allowed_millis {
        return Some(ResultKind::TimeLimitExceeded);
    }
    if rusage.memory > option.memory_limit / 1024 {
        return Some(ResultKind::MemoryLimitExceeded);
    }
    if exit_code != 0 {
        return Some(ResultKind::RuntimeError);
    }
    None
}

/// Judges a run: `exit_code` is the raw status it ended with, `rusage` what
/// it consumed, `output` what it wrote and `answer` what was expected.
pub fn judge(
    exit_code: i32,
    rusage: ResourceUsage,
    option: JudgeOption,
    output: &[u8],
    answer: &[u8],
) -> (judged: JudgeResult)
    ensures
        judged.result == verdict(
            exit_code,
            rusage,
            option.time_limit,
            option.memory_limit,
            output@,
            answer@,
        ),
{
    match early_verdict(exit_code, &rusage, &option) {
        Some(result) => JudgeResult { result },
        None => JudgeResult { result: diff(output, answer) },
    }
}


/// A run that used more processor time than allowed is judged
/// `TimeLimitExceeded`, whatever its memory use, its exit status and its
/// output.
pub proof fn time_limit_comes_first(
    exit_code: i32,
    usage: ResourceUsage,
    time_limit: u64,
    memory_limit: u64,
    output: Seq<u8>,
    answer: Seq<u8>,
)
    requires
        over_time(usage, time_limit),
    ensures
        verdict(exit_code, usage, time_limit, memory_limit, output, answer)
            == ResultKind::TimeLimitExceeded,
{
}

/// A run within its time limit that used more memory than allowed is
/// judged `MemoryLimitExceeded`, whatever its exit status and its output.
pub proof fn memory_limit_comes_before_exit_status(
    exit_code: i32,
    usage: ResourceUsage,
    time_limit: u64,
    memory_limit: u64,
    output: Seq<u8>,
    answer: Seq<u8>,
)
    requires
        !over_time(usage, time_limit),
        over_memory(usage, memory_limit),
    ensures
        verdict(exit_code, usage, time_limit, memory_limit, output, answer)
            == ResultKind::MemoryLimitExceeded,
{
}

/// A run within its limits that ended with a status other than zero is
/// judged `RuntimeError`, whatever its output.
pub proof fn nonzero_status_within_limits_is_runtime_error(
    exit_code: i32,
    usage: ResourceUsage,
    time_limit: u64,
    memory_limit: u64,
    output: Seq<u8>,
    answer: Seq<u8>,
)
    requires
        !over_time(usage, time_limit),
        !over_memory(usage, memory_limit),
        exit_code != 0,
    ensures
        verdict(exit_code, usage, time_limit, memory_limit, output, answer)
            == ResultKind::RuntimeError,
{
}

/// A run within its limits that ended with status zero is judged by its
/// output alone: `Accepted` or `WrongAnswer`.
pub proof fn normal_end_is_judged_by_output(
    usage: ResourceUsage,
    time_limit: u64,
    memory_limit: u64,
    output: Seq<u8>,
    answer: Seq<u8>,
)
    requires
        !over_time(usage, time_limit),
        !over_memory(usage, memory_limit),
    ensures
        verdict(0, usage, time_limit, memory_limit, output, answer) == compare(output, answer),
{
}

/// A text has at least one line, and its last line is empty exactly when
/// the text is empty or ends in a line end.
proof fn lemma_last_line(text: Seq<u8>)
    ensures
        split_lines(text).len() >= 1,
        split_lines(text).last().len() == 0 <==> (text.len() == 0 || text.last() == NEWLINE),
        text.len() > 0 && text.last() == NEWLINE ==> split_lines(text).len() >= 2,
    decreases text.len(),
{
    if text.len() > 0 {
        lemma_last_line(text.drop_last());
    }
}

/// A byte added to the last of some lines is a byte added to the text
/// that they make up.
proof fn lemma_join_longer_last_line(lines: Seq<Seq<u8>>, byte: u8)
    requires
        lines.len() >= 1,
    ensures
        join_lines(lines.update(lines.len() - 1, lines.last().push(byte))) == join_lines(
            lines,
        ).push(byte),
{
    let longer = lines.update(lines.len() - 1, lines.last().push(byte));
    if lines.len() >= 2 {
        assert(longer.drop_last() =~= lines.drop_last());
        assert(join_lines(longer) =~= join_lines(lines).push(byte));
    }
}

/// The pieces of a text are what lies between its line ends: no piece
/// holds a line end, and the pieces with a line end between each two are
/// the text again.
pub proof fn split_lines_cuts_at_line_ends(text: Seq<u8>)
    ensures
        split_lines(text).len() >= 1,
        join_lines(split_lines(text)) == text,
        forall|i: int, j: int|
            0 <= i < split_lines(text).len() && 0 <= j < split_lines(text)[i].len()
                ==> #[trigger] split_lines(text)[i][j] != NEWLINE,
    decreases text.len(),
{
    if text.len() > 0 {
        let shorter = text.drop_last();
        let lines = split_lines(shorter);
        split_lines_cuts_at_line_ends(shorter);
        assert(text =~= shorter.push(text.last()));
        if text.last() == NEWLINE {
            assert(lines.push(Seq::<u8>::empty()).drop_last() =~= lines);
            assert(join_lines(split_lines(text)) =~= text);
        } else {
            lemma_join_longer_last_line(lines, text.last());
        }
        assert forall|i: int, j: int|
            0 <= i < split_lines(text).len() && 0 <= j < split_lines(text)[i].len() implies #[trigger] split_lines(
            text,
        )[i][j] != NEWLINE by {
            if i < lines.len() && j < lines[i].len() {
                assert(lines[i][j] != NEWLINE);
            }
        }
    }
}

/// Two texts that are cut into the same pieces are the same text.
proof fn lemma_split_lines_injective(a: Seq<u8>, b: Seq<u8>)
    requires
        split_lines(a) == split_lines(b),
    ensures
        a == b,
{
    split_lines_cuts_at_line_ends(a);
    split_lines_cuts_at_line_ends(b);
}

/// The lines of a text are the pieces of the text without its final line
/// end.
pub proof fn text_lines_ignore_final_newline(text: Seq<u8>)
    ensures
        text_lines(text) == split_lines(strip_final_newline(text)),
{
    lemma_last_line(text);
    if text.len() > 0 && text.last() == NEWLINE {
        assert(split_lines(text).drop_last() =~= split_lines(text.drop_last()));
    }
}

/// Two texts hold the same lines exactly when they are the same text once
/// the final line end of each, if it has one, is left out. So one final
/// line end more or less never changes the verdict, and every other
/// difference does.
pub proof fn same_output_up_to_final_newline(output: Seq<u8>, answer: Seq<u8>)
    ensures
        same_output(output, answer) <==> strip_final_newline(output) == strip_final_newline(answer),
{
    text_lines_ignore_final_newline(output);
    text_lines_ignore_final_newline(answer);
    if same_output(output, answer) {
        lemma_split_lines_injective(strip_final_newline(output), strip_final_newline(answer));
    }
}

/// A text held against itself is accepted. So is a text whose last line is
/// not ended held against the same text with that line ended, either way
/// round.
pub proof fn copy_is_accepted(text: Seq<u8>)
    ensures
        compare(text, text) == ResultKind::Accepted,
        text.len() == 0 || text.last() != NEWLINE ==> {
            &&& compare(text.push(NEWLINE), text) == ResultKind::Accepted
            &&& compare(text, text.push(NEWLINE)) == ResultKind::Accepted
        },
{
    if text.len() == 0 || text.last() != NEWLINE {
        let ended = text.push(NEWLINE);
        assert(ended.drop_last() =~= text);
        same_output_up_to_final_newline(ended, text);
        same_output_up_to_final_newline(text, ended);
    }
}

} // verus!
