//! A line-based context: widgets write text to an output buffer, and each
//! round of input is one line taken from an input buffer.
use vstd::prelude::*;

use crate::engine::{as_unit, Context};
use crate::layouts::{count16, Size};
use crate::output::{Error, Input, Outcome, Output};
use crate::text::push_bytes;
use vstd::string::StringSliceAdditionalSpecFns;
use vstd::utf8::encode_utf8;

verus! {

/// Where the line that starts at `from` ends: just after the first newline
/// at or after `from`, or at the end of the input.
pub open spec fn line_end(input: Seq<u8>, from: int) -> int
    decreases input.len() - from,
{
    if from >= input.len() {
        input.len() as int
    } else if input[from] == 10 {
        from + 1
    } else {
        line_end(input, from + 1)
    }
}

/// A context that renders to an output buffer and takes its input line by
/// line from an input buffer.
#[derive(Debug)]
pub struct Repl {
    /// All input received so far.
    pub input: Vec<u8>,
    /// How much of `input` has been read.
    pub consumed: usize,
    /// The line read by the latest `handle`, newline included.
    pub line: Vec<u8>,
    /// What widgets have written.
    pub output: Vec<u8>,
    /// Setting this to true ends the main loop after the current round.
    pub exited: bool,
}

impl Repl {
    /// What widgets have written.
    pub open spec fn written(&self) -> Seq<u8> {
        self.output@
    }

    /// The line read by the latest `handle`.
    pub open spec fn last_line(&self) -> Seq<u8> {
        self.line@
    }

    /// The input not read yet.
    pub open spec fn pending(&self) -> Seq<u8> {
        if self.consumed <= self.input@.len() {
            self.input@.subrange(self.consumed as int, self.input@.len() as int)
        } else {
            Seq::empty()
        }
    }

    /// A context whose input is `input` and whose output is empty.
    pub fn harness(input: &[u8]) -> (r: Repl)
        ensures
            r.pending() == input@,
            r.last_line().len() == 0,
            r.written().len() == 0,
            !r.has_exited(),
    {
        let mut buffer: Vec<u8> = Vec::new();
        push_bytes(&mut buffer, input);
        let r = Repl { input: buffer, consumed: 0, line: Vec::new(), output: Vec::new(), exited: false };
        assert(r.pending() =~= input@);
        r
    }

    /// Append `data` to the input that is still to be read.
    pub fn feed(&mut self, data: &[u8])
        ensures
            final(self).pending() == old(self).pending() + data@,
            final(self).written() == old(self).written(),
            final(self).last_line() == old(self).last_line(),
            final(self).has_exited() == old(self).has_exited(),
    {
        if self.consumed > self.input.len() {
            self.consumed = self.input.len();
        }
        let ghost before = self.pending();
        push_bytes(&mut self.input, data);
        assert(self.pending() =~= before + data@);
    }

    /// Append `data` to the output. Always succeeds.
    pub fn write(&mut self, data: &[u8]) -> (r: Outcome<()>)
        ensures
            r is Ok,
            final(self).written() == old(self).written() + data@,
            final(self).pending() == old(self).pending(),
            final(self).last_line() == old(self).last_line(),
            final(self).has_exited() == old(self).has_exited(),
    {
        push_bytes(&mut self.output, data);
        Ok(())
    }

    /// Take the next line of input, newline included; the rest of the input
    /// where it holds no newline, and nothing where it is used up.
    pub fn read_line(&mut self) -> (r: Vec<u8>)
        ensures
            r@ == old(self).pending().subrange(0, line_end(old(self).pending(), 0)),
            final(self).pending() == old(self).pending().subrange(
                line_end(old(self).pending(), 0),
                old(self).pending().len() as int,
            ),
            final(self).written() == old(self).written(),
            final(self).last_line() == old(self).last_line(),
            final(self).has_exited() == old(self).has_exited(),
    {
        if self.consumed > self.input.len() {
            self.consumed = self.input.len();
        }
        let ghost pending = self.pending();
        let ghost start = self.consumed as int;
        let len = self.input.len();
        let mut end = self.consumed;
        while end < len && self.input[end] != 10
            invariant
                start <= end <= len,
                len == self.input@.len(),
                start == self.consumed,
                pending == self.input@.subrange(start, len as int),
                line_end(pending, 0) == line_end(pending, end - start),
            decreases len - end,
        {
            end = end + 1;
        }
        if end < len {
            end = end + 1;
        }
        assert(line_end(pending, 0) == end - start);
        let mut line: Vec<u8> = Vec::new();
        let mut i = self.consumed;
        while i < end
            invariant
                start <= i <= end <= len,
                len == self.input@.len(),
                start == self.consumed,
                line@ == self.input@.subrange(start, i as int),
            decreases end - i,
        {
            line.push(self.input[i]);
            i = i + 1;
            assert(line@ =~= self.input@.subrange(start, i as int));
        }
        self.consumed = end;
        assert(line@ =~= pending.subrange(0, line_end(pending, 0)));
        assert(self.pending() =~= pending.subrange(line_end(pending, 0), pending.len() as int));
        line
    }
}

impl Context for Repl {
    type Handled = String;
    type Rendered = Size;

    open spec fn has_exited(&self) -> bool {
        self.exited
    }

    /// Nothing to set up.
    open spec fn sets_up(before: Repl, after: Repl, r: Outcome<()>) -> bool {
        r == Ok::<(), Error>(()) && after == before
    }

    /// The widget renders into the context as it is.
    open spec fn render_frame(
        before: Repl,
        after: Repl,
        inner_before: Repl,
        inner_after: Repl,
        inner: Outcome<Option<Size>>,
        r: Outcome<()>,
    ) -> bool {
        inner_before == before && after == inner_after && r == as_unit(inner)
    }

    /// The next line is read into `line`, then the widget handles it.
    open spec fn handle_frame(
        before: Repl,
        after: Repl,
        inner_before: Repl,
        inner_after: Repl,
        inner: Outcome<Option<String>>,
        r: Outcome<()>,
    ) -> bool {
        let end = line_end(before.pending(), 0);
        &&& inner_before.last_line() == before.pending().subrange(0, end)
        &&& inner_before.pending() == before.pending().subrange(end, before.pending().len() as int)
        &&& inner_before.written() == before.written()
        &&& inner_before.has_exited() == before.has_exited()
        &&& after == inner_after
        &&& r == as_unit(inner)
    }

    /// Reading from the input buffer cannot fail.
    open spec fn handle_fails(before: Repl, after: Repl, r: Outcome<()>) -> bool {
        false
    }

    fn setup(&mut self) -> (r: Outcome<()>) {
        Ok(())
    }

    fn handle<W: Input<Repl, String>>(&mut self, widget: &mut W) -> (r: Outcome<()>) {
        let line = self.read_line();
        self.line = line;
        match widget.handle(self) {
            Ok(_) => Ok(()),
            Err(e) => Err(e),
        }
    }

    fn render<W: Output<Repl, Size>>(&mut self, widget: &W) -> (r: Outcome<()>) {
        match widget.render(self) {
            Ok(_) => Ok(()),
            Err(e) => Err(e),
        }
    }

    fn exited(&self) -> (r: bool) {
        self.exited
    }
}

impl<'a> Output<Repl, Size> for &'a str {
    /// Writes the text and reports its length (as far as a `u16` counts)
    /// by one line.
    open spec fn renders(&self, before: Repl, after: Repl, r: Outcome<Option<Size>>) -> bool {
        &&& after.written() == before.written() + self.spec_bytes()
        &&& after.pending() == before.pending()
        &&& after.last_line() == before.last_line()
        &&& after.has_exited() == before.has_exited()
        &&& r == Ok::<Option<Size>, Error>(Some((count16(self.spec_bytes().len()), 1)))
    }

    fn render(&self, context: &mut Repl) -> (r: Outcome<Option<Size>>) {
        let bytes = self.as_bytes();
        let _ = context.write(bytes);
        let len = bytes.len();
        Ok(Some((if len <= 65535 { len as u16 } else { 65535 }, 1)))
    }
}

impl Output<Repl, Size> for String {
    /// Writes the text and reports its length (as far as a `u16` counts)
    /// by one line.
    open spec fn renders(&self, before: Repl, after: Repl, r: Outcome<Option<Size>>) -> bool {
        &&& after.written() == before.written() + encode_utf8(self@)
        &&& after.pending() == before.pending()
        &&& after.last_line() == before.last_line()
        &&& after.has_exited() == before.has_exited()
        &&& r == Ok::<Option<Size>, Error>(Some((count16(encode_utf8(self@).len()), 1)))
    }

    fn render(&self, context: &mut Repl) -> (r: Outcome<Option<Size>>) {
        self.as_str().render(context)
    }
}

} // verus!
