use vstd::prelude::*;

verus! {

/// The lines that script code has logged, kept in the order they came.
pub struct Output {
    pub lines: Vec<String>,
}

impl Output {
    /// An output with no lines.
    pub fn new() -> (r: Output)
        ensures
            r.lines@.len() == 0,
    {
        Output { lines: Vec::new() }
    }

    /// Appends one line after those already recorded.
    pub fn line(&mut self, line: String)
        ensures
            final(self).lines@ == old(self).lines@.push(line),
    {
        self.lines.push(line);
    }
}

/// Records a logged line in the output (printing it is left to the caller).
pub fn op_log_info(output: &mut Output, s: String)
    ensures
        final(output).lines@ == old(output).lines@.push(s),
{
    output.line(s);
}

/// Logging lines one after another keeps each of them, in the order logged,
/// after the lines that were there before.
pub proof fn law_lines_kept_in_order(output: Output, first: String, second: String)
    ensures
        output.lines@.push(first).push(second).len() == output.lines@.len() + 2,
        output.lines@.push(first).push(second)[output.lines@.len() as int] == first,
        output.lines@.push(first).push(second)[output.lines@.len() + 1int] == second,
        output.lines@.push(first).push(second).subrange(0, output.lines@.len() as int) == output.lines@,
{
    assert(output.lines@.push(first).push(second).subrange(0, output.lines@.len() as int) =~= output.lines@);
}

} // verus!
