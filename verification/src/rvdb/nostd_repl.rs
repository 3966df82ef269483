//! The channel between the debugger and its terminal, and the course of a `continue` command.
use std::collections::VecDeque;

use vstd::prelude::*;
use vstd::string::*;

use crate::isa::riscv::debugger::DebugEvent;

verus! {

/// How many steps of a `continue` command run between two looks at the channel.
pub const CONTINUE_CHUNK: u64 = 100_000;

/// What came of a line.
#[derive(Debug, Clone, Copy, PartialEq, Eq, Structural)]
pub struct REPLResponse {
    pub exit: bool,
    /// Whether a `continue` command was canceled.
    pub cancel: bool,
}

/// The channel as plain values.
#[verifier::ext_equal]
pub struct ChannelModel {
    pub input: Seq<u8>,
    pub output: Seq<u8>,
    pub cancel: bool,
}

/// The channel: what was typed and not yet read, what was printed and not yet taken, and whether
/// a `continue` command is to stop.
pub struct RvdbChannelState {
    pub input: VecDeque<u8>,
    pub output: Vec<u8>,
    pub cancel: bool,
}

impl View for RvdbChannelState {
    type V = ChannelModel;

    open spec fn view(&self) -> ChannelModel {
        ChannelModel { input: self.input@, output: self.output@, cancel: self.cancel }
    }
}

impl RvdbChannelState {
    pub fn new() -> (r: RvdbChannelState)
        ensures
            r@ == (ChannelModel { input: Seq::empty(), output: Seq::empty(), cancel: false }),
    {
        RvdbChannelState { input: VecDeque::new(), output: Vec::new(), cancel: false }
    }
}

/// A channel before its two ends are handed out.
pub struct RvdbChannels;

impl RvdbChannels {
    /// A channel that nothing went through yet.
    pub fn new() -> (r: RvdbChannelState)
        ensures
            r@ == (ChannelModel { input: Seq::empty(), output: Seq::empty(), cancel: false }),
    {
        RvdbChannelState::new()
    }
}

/// The end of the terminal.
pub struct RvdbChannelTx;

impl RvdbChannelTx {
    /// Adds what was typed.
    pub fn push_input(state: &mut RvdbChannelState, bytes: &[u8])
        ensures
            final(state)@ == (ChannelModel {
                input: old(state)@.input + bytes@,
                ..old(state)@
            }),
    {
        let mut i: usize = 0;
        while i < bytes.len()
            invariant
                i <= bytes.len(),
                state@ =~= (ChannelModel {
                    input: old(state)@.input + bytes@.take(i as int),
                    ..old(state)@
                }),
            decreases bytes.len() - i,
        {
            state.input.push_back(bytes[i]);
            assert(bytes@.take(i + 1) =~= bytes@.take(i as int).push(bytes@[i as int]));
            i = i + 1;
        }
        assert(bytes@.take(bytes@.len() as int) =~= bytes@);
    }

    /// Takes what was printed.
    pub fn take_output(state: &mut RvdbChannelState) -> (r: Vec<u8>)
        ensures
            r@ == old(state)@.output,
            final(state)@ == (ChannelModel { output: Seq::empty(), ..old(state)@ }),
    {
        let mut out: Vec<u8> = Vec::new();
        std::mem::swap(&mut out, &mut state.output);
        out
    }

    /// Asks a `continue` command to stop.
    pub fn cancel_continue(state: &mut RvdbChannelState)
        ensures
            final(state)@ == (ChannelModel { cancel: true, ..old(state)@ }),
    {
        state.cancel = true;
    }
}

/// The end of the debugger.
pub struct RvdbChannelRx;

impl RvdbChannelRx {
    pub fn is_canceled(state: &RvdbChannelState) -> (r: bool)
        ensures
            r == state@.cancel,
    {
        state.cancel
    }

    pub fn set_cancel(state: &mut RvdbChannelState, value: bool)
        ensures
            final(state)@ == (ChannelModel { cancel: value, ..old(state)@ }),
    {
        state.cancel = value;
    }

    /// Reads up to `max` bytes of what was typed. Without any, and with room for some, the reader
    /// has to wait.
    pub fn read(state: &mut RvdbChannelState, max: usize) -> (r: Option<Vec<u8>>)
        ensures
            ({
                let input = old(state)@.input;
                let n = if input.len() < max {
                    input.len() as int
                } else {
                    max as int
                };
                if max > 0 && input.len() == 0 {
                    r is None && final(state)@ == old(state)@
                } else {
                    &&& r is Some
                    &&& r->0@ == input.take(n)
                    &&& final(state)@ == (ChannelModel { input: input.skip(n), ..old(state)@ })
                }
            }),
    {
        let ghost input = state@.input;
        if max > 0 && state.input.len() == 0 {
            return None;
        }
        let mut out: Vec<u8> = Vec::new();
        let mut count: usize = 0;
        while count < max && state.input.len() > 0
            invariant
                count <= max,
                count <= input.len(),
                input == old(state)@.input,
                out@ =~= input.take(count as int),
                state@ =~= (ChannelModel { input: input.skip(count as int), ..old(state)@ }),
            decreases max - count,
        {
            match state.input.pop_front() {
                Some(byte) => {
                    out.push(byte);
                },
                None => {},
            }
            count = count + 1;
        }
        Some(out)
    }

    /// Prints.
    pub fn write(state: &mut RvdbChannelState, bytes: &[u8]) -> (r: usize)
        ensures
            r == bytes@.len(),
            final(state)@ == (ChannelModel {
                output: old(state)@.output + bytes@,
                ..old(state)@
            }),
    {
        let mut i: usize = 0;
        while i < bytes.len()
            invariant
                i <= bytes.len(),
                state@ =~= (ChannelModel {
                    output: old(state)@.output + bytes@.take(i as int),
                    ..old(state)@
                }),
            decreases bytes.len() - i,
        {
            state.output.push(bytes[i]);
            assert(bytes@.take(i + 1) =~= bytes@.take(i as int).push(bytes@[i as int]));
            i = i + 1;
        }
        assert(bytes@.take(bytes@.len() as int) =~= bytes@);
        bytes.len()
    }
}

/// What was typed is read in the order in which it was typed, and nothing is lost: a read takes a
/// first part and leaves the rest.
pub proof fn law_input_keeps_order(input: Seq<u8>, typed: Seq<u8>, n: int)
    requires
        0 <= n <= input.len(),
    ensures
        input.take(n) + (input.skip(n) + typed) == input + typed,
{
    assert(input.take(n) + (input.skip(n) + typed) =~= input + typed);
}

/// What a `continue` command does next.
#[derive(Debug, Clone, Copy, PartialEq, Eq, Structural)]
pub enum ContinueStep {
    /// Run a number of steps.
    Run(u64),
    /// Stop because someone asked.
    Canceled,
}

/// What a `continue` command does after a chunk.
#[derive(Debug, Clone, Copy, PartialEq, Eq, Structural)]
pub enum ChunkEnd {
    /// Some steps are left.
    GoOn(u64),
    /// All steps are done.
    Done,
    /// Something stopped the hart; some steps are left.
    Stopped(DebugEvent, u64),
}

/// What a `continue` command with `remain` steps does next. A request to stop is taken back.
pub fn next_chunk(state: &mut RvdbChannelState, remain: u64) -> (r: ContinueStep)
    ensures
        r == if old(state)@.cancel {
            ContinueStep::Canceled
        } else if remain < CONTINUE_CHUNK {
            ContinueStep::Run(remain)
        } else {
            ContinueStep::Run(CONTINUE_CHUNK)
        },
        final(state)@ == (ChannelModel { cancel: false, ..old(state)@ }),
{
    if RvdbChannelRx::is_canceled(state) {
        RvdbChannelRx::set_cancel(state, false);
        return ContinueStep::Canceled;
    }
    if remain < CONTINUE_CHUNK {
        ContinueStep::Run(remain)
    } else {
        ContinueStep::Run(CONTINUE_CHUNK)
    }
}

/// What a `continue` command with `remain` steps does after a chunk of `steps` that ended with an
/// event.
pub fn after_chunk(event: DebugEvent, steps: u64, remain: u64) -> (r: ChunkEnd)
    requires
        steps <= remain,
    ensures
        r == if event != DebugEvent::StepCompleted {
            ChunkEnd::Stopped(event, (remain - steps) as u64)
        } else if remain == steps {
            ChunkEnd::Done
        } else {
            ChunkEnd::GoOn((remain - steps) as u64)
        },
{
    if event != DebugEvent::StepCompleted {
        ChunkEnd::Stopped(event, remain - steps)
    } else if remain == steps {
        ChunkEnd::Done
    } else {
        ChunkEnd::GoOn(remain - steps)
    }
}

/// Whether a character is white space.
pub open spec fn is_white(c: char) -> bool {
    ||| '\u{9}' <= c && c <= '\u{d}'
    ||| c == ' '
    ||| c == '\u{85}'
    ||| c == '\u{a0}'
    ||| c == '\u{1680}'
    ||| '\u{2000}' <= c && c <= '\u{200a}'
    ||| c == '\u{2028}'
    ||| c == '\u{2029}'
    ||| c == '\u{202f}'
    ||| c == '\u{205f}'
    ||| c == '\u{3000}'
}

fn check_white(c: char) -> (r: bool)
    ensures
        r == is_white(c),
{
    ('\u{9}' <= c && c <= '\u{d}') || c == ' ' || c == '\u{85}' || c == '\u{a0}' || c == '\u{1680}'
        || ('\u{2000}' <= c && c <= '\u{200a}') || c == '\u{2028}' || c == '\u{2029}' || c
        == '\u{202f}' || c == '\u{205f}' || c == '\u{3000}'
}

/// A text without the white space before it.
pub open spec fn trimmed_start(text: Seq<char>) -> Seq<char>
    decreases text.len(),
{
    if text.len() > 0 && is_white(text.first()) {
        trimmed_start(text.drop_first())
    } else {
        text
    }
}

/// A text without the white space behind it.
pub open spec fn trimmed_end(text: Seq<char>) -> Seq<char>
    decreases text.len(),
{
    if text.len() > 0 && is_white(text.last()) {
        trimmed_end(text.drop_last())
    } else {
        text
    }
}

/// A text without the white space around it.
pub open spec fn trimmed(text: Seq<char>) -> Seq<char> {
    trimmed_end(trimmed_start(text))
}

/// Trimming cuts white space and nothing else off both ends, and leaves none at either.
pub proof fn law_trimmed(text: Seq<char>)
    ensures
        exists|a: int, b: int|
            {
                &&& 0 <= a <= b <= text.len()
                &&& trimmed(text) == #[trigger] text.subrange(a, b)
                &&& forall|k: int|
                    0 <= k < a || b <= k < text.len() ==> is_white(#[trigger] text[k])
            },
        trimmed(text).len() > 0 ==> !is_white(trimmed(text).first()) && !is_white(
            trimmed(text).last(),
        ),
{
    let a = lemma_trimmed_start(text);
    let rest = trimmed_start(text);
    let b = lemma_trimmed_end(rest);
    assert(rest.subrange(0, b) =~= text.subrange(a, a + b));
    assert forall|k: int| 0 <= k < a || a + b <= k < text.len() implies is_white(
        #[trigger] text[k],
    ) by {
        if a + b <= k {
            assert(rest[k - a] == text[k]);
        }
    }
    if b > 0 {
        assert(trimmed(text).first() == rest.first());
    }
}

proof fn lemma_trimmed_start(text: Seq<char>) -> (a: int)
    ensures
        0 <= a <= text.len(),
        trimmed_start(text) == text.subrange(a, text.len() as int),
        forall|k: int| 0 <= k < a ==> is_white(#[trigger] text[k]),
        a < text.len() ==> !is_white(text[a]),
    decreases text.len(),
{
    if text.len() > 0 && is_white(text.first()) {
        let rest = text.drop_first();
        let a = lemma_trimmed_start(rest);
        assert(rest.subrange(a, rest.len() as int) =~= text.subrange(a + 1, text.len() as int));
        assert forall|k: int| 0 <= k < a + 1 implies is_white(#[trigger] text[k]) by {
            if k > 0 {
                assert(rest[k - 1] == text[k]);
            }
        }
        if a < rest.len() {
            assert(rest[a] == text[a + 1]);
        }
        a + 1
    } else {
        assert(text.subrange(0, text.len() as int) =~= text);
        0
    }
}

proof fn lemma_trimmed_end(text: Seq<char>) -> (b: int)
    ensures
        0 <= b <= text.len(),
        trimmed_end(text) == text.subrange(0, b),
        forall|k: int| b <= k < text.len() ==> is_white(#[trigger] text[k]),
        b > 0 ==> !is_white(text[b - 1]),
    decreases text.len(),
{
    if text.len() > 0 && is_white(text.last()) {
        let rest = text.drop_last();
        let b = lemma_trimmed_end(rest);
        assert(rest.subrange(0, b) =~= text.subrange(0, b));
        assert forall|k: int| b <= k < text.len() implies is_white(#[trigger] text[k]) by {
            if k < rest.len() {
                assert(rest[k] == text[k]);
            }
        }
        if b > 0 {
            assert(rest[b - 1] == text[b - 1]);
        }
        b
    } else {
        assert(text.subrange(0, text.len() as int) =~= text);
        text.len() as int
    }
}

/// A text without the white space around it.
pub fn trim_line(line: &str) -> (r: String)
    ensures
        r@ == trimmed(line@),
{
    let n: usize = line.unicode_len();
    let mut from: usize = 0;
    assert(line@.skip(0) =~= line@);
    while from < n && check_white(line.get_char(from))
        invariant
            from <= n,
            n == line@.len(),
            trimmed_start(line@) == trimmed_start(line@.skip(from as int)),
        decreases n - from,
    {
        assert(line@.skip(from as int).drop_first() =~= line@.skip(from + 1));
        from = from + 1;
    }
    let ghost rest = line@.skip(from as int);
    assert(trimmed_start(line@) == rest);
    let mut to: usize = n;
    assert(line@.subrange(from as int, n as int) =~= rest);
    while to > from && check_white(line.get_char(to - 1))
        invariant
            from <= to <= n,
            n == line@.len(),
            trimmed_end(rest) == trimmed_end(line@.subrange(from as int, to as int)),
        decreases to,
    {
        assert(line@.subrange(from as int, to as int).drop_last() =~= line@.subrange(
            from as int,
            to - 1,
        ));
        to = to - 1;
    }
    if from == to {
        assert(line@.subrange(from as int, to as int) =~= Seq::empty());
        return String::new();
    }
    line.substring_char(from, to).to_owned()
}

/// The line to execute, without the white space around it: an empty one repeats the last one, if
/// there was one.
pub fn resolve_line(line: &str, last_line: &Option<String>) -> (r: Option<String>)
    ensures
        if trimmed(line@).len() > 0 {
            r is Some && r->0@ == trimmed(line@)
        } else {
            match *last_line {
                Some(last) => r is Some && r->0@ == last@,
                None => r is None,
            }
        },
{
    let text: String = trim_line(line);
    if text.as_str().unicode_len() == 0 {
        match last_line {
            Some(last) => Some(last.clone()),
            None => None,
        }
    } else {
        Some(text)
    }
}

} // verus!
