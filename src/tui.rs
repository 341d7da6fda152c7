//! The terminal context: widgets draw positioned, colored text as escape
//! sequences into an output buffer, and input events arrive over a channel.
use vstd::prelude::*;

use crate::ansi::{
    background_seq, clear_all, clear_all_seq, enter_alternate_screen, enter_alternate_seq,
    foreground_seq, hide_cursor, hide_seq, leave_alternate_screen, leave_alternate_seq, move_to,
    move_to_seq, reset_color, reset_color_seq, set_background, set_foreground, show_cursor, show_seq,
    Color,
};
use crate::engine::{as_unit, Context};
use crate::layouts::{count16, Size, Surface};
use crate::output::{description, Error, Input, Outcome, Output};
use crate::space::Area;
use crate::text::push_bytes;
use vstd::string::StringSliceAdditionalSpecFns;
use vstd::utf8::encode_utf8;

use std::sync::mpsc::{Receiver, RecvError, Sender};

verus! {

/// An input event of the terminal.
pub type TUIInputEvent = crossterm::event::Event;

#[verifier::external_type_specification]
#[verifier::external_body]
pub struct ExEvent(crossterm::event::Event);

#[verifier::external_type_specification]
#[verifier::external_body]
#[verifier::reject_recursive_types(T)]
pub struct ExReceiver<T>(std::sync::mpsc::Receiver<T>);

#[verifier::external_type_specification]
#[verifier::external_body]
#[verifier::reject_recursive_types(T)]
pub struct ExSender<T>(std::sync::mpsc::Sender<T>);

#[verifier::external_type_specification]
#[verifier::external_body]
pub struct ExRecvError(std::sync::mpsc::RecvError);

/// Relies on std's `mpsc::channel`: a sender and the receiver of what it sends.
#[verifier::external_body]
fn event_channel() -> (Sender<TUIInputEvent>, Receiver<TUIInputEvent>) {
    std::sync::mpsc::channel()
}

/// Relies on std's `Receiver::recv`: waits for the next event, and fails
/// once no sender is left.
#[verifier::external_body]
fn receive(input: &Receiver<TUIInputEvent>) -> Result<TUIInputEvent, RecvError> {
    input.recv()
}

/// The bytes of the colors that `set_colors` selects: a reset, then the
/// foreground and the background color where given.
pub open spec fn colors_seq(fg: Option<Color>, bg: Option<Color>) -> Seq<u8> {
    reset_color_seq() + match fg {
        Some(c) => foreground_seq(c),
        None => Seq::empty(),
    } + match bg {
        Some(c) => background_seq(c),
        None => Seq::empty(),
    }
}

/// The bytes that clear the screen.
pub open spec fn clear_seq() -> Seq<u8> {
    reset_color_seq() + clear_all_seq() + hide_seq()
}

/// The bytes that restore the terminal.
pub open spec fn cleanup_seq() -> Seq<u8> {
    reset_color_seq() + show_seq() + leave_alternate_seq()
}

/// The bytes that prepare the terminal.
pub open spec fn setup_seq() -> Seq<u8> {
    enter_alternate_seq() + hide_seq()
}

/// The bytes that show `msg` as an error: a cleared screen, red, and the
/// message at the top left.
pub open spec fn error_seq(msg: Seq<u8>) -> Seq<u8> {
    clear_seq() + foreground_seq(Color::Red) + move_to_seq(0, 0) + msg
}

/// Whether the cursor can be moved to column `x` and row `y`.
pub open spec fn addressable(x: u16, y: u16) -> bool {
    x < u16::MAX && y < u16::MAX
}

/// An app hosted by a terminal.
#[derive(Debug)]
pub struct TUI {
    /// Exit flag. Setting this ends the main loop.
    pub exited: bool,
    /// Receives input events.
    pub input: Receiver<TUIInputEvent>,
    /// The input event being handled.
    pub event: Option<TUIInputEvent>,
    /// Terminal commands, in the order they are to be written.
    pub output: Vec<u8>,
    /// The currently available screen area.
    pub area: Area,
}

impl TUI {
    /// What has been written.
    pub open spec fn written(&self) -> Seq<u8> {
        self.output@
    }

    /// Whether `after` is `before` with `bytes` written, and nothing else
    /// changed.
    pub open spec fn appended(before: TUI, after: TUI, bytes: Seq<u8>) -> bool {
        &&& after.output@ == before.output@ + bytes
        &&& after.exited == before.exited
        &&& after.event == before.event
        &&& after.input == before.input
        &&& after.area == before.area
    }

    /// Whether `after` is `before` with a new current event, and nothing
    /// else changed.
    pub open spec fn received(before: TUI, after: TUI) -> bool {
        &&& after.event is Some
        &&& after.output == before.output
        &&& after.exited == before.exited
        &&& after.input == before.input
        &&& after.area == before.area
    }

    /// Two writes in a row write both, in order.
    pub proof fn lemma_appended_twice(a: TUI, b: TUI, c: TUI, first: Seq<u8>, second: Seq<u8>)
        requires
            TUI::appended(a, b, first),
            TUI::appended(b, c, second),
        ensures
            TUI::appended(a, c, first + second),
    {
        assert(c.output@ =~= a.output@ + (first + second));
    }

    /// Writing nothing is no change.
    pub proof fn lemma_appended_nothing(a: TUI)
        ensures
            TUI::appended(a, a, Seq::empty()),
    {
        assert(a.output@ =~= a.output@ + Seq::<u8>::empty());
    }

    /// A terminal context receiving events from `input`, with nothing
    /// written yet and an empty area.
    pub fn new(input: Receiver<TUIInputEvent>) -> (r: TUI)
        ensures
            r.written().len() == 0,
            !r.has_exited(),
            r.surface_area() == Area(0, 0, 0, 0),
    {
        TUI { exited: false, input, event: None, output: Vec::new(), area: Area(0, 0, 0, 0) }
    }

    /// A terminal context that renders to its buffer and receives what is
    /// sent through the returned sender.
    pub fn harness() -> (r: (TUI, Sender<TUIInputEvent>))
        ensures
            r.0.written().len() == 0,
            !r.0.has_exited(),
            r.0.surface_area() == Area(0, 0, 0, 0),
    {
        let (tx, input) = event_channel();
        (TUI::new(input), tx)
    }

    /// Append `bytes` to the output.
    fn emit(&mut self, bytes: &Vec<u8>)
        ensures
            TUI::appended(*old(self), *final(self), bytes@),
    {
        push_bytes(&mut self.output, bytes.as_slice());
    }

    /// Reset the colors, show the cursor and leave the alternate screen.
    pub fn cleanup(&mut self) -> (r: Outcome<()>)
        ensures
            r is Ok,
            TUI::appended(*old(self), *final(self), cleanup_seq()),
    {
        self.emit(&reset_color());
        self.emit(&show_cursor());
        self.emit(&leave_alternate_screen());
        assert(self.output@ =~= old(self).output@ + cleanup_seq());
        Ok(())
    }

    /// Set the exit flag and restore the terminal.
    pub fn exit(&mut self) -> (r: Outcome<()>)
        ensures
            r is Ok,
            final(self).has_exited(),
            final(self).written() == old(self).written() + cleanup_seq(),
            final(self).surface_area() == old(self).surface_area(),
    {
        self.exited = true;
        self.cleanup()
    }

    /// Clear the screen.
    pub fn clear(&mut self) -> (r: Outcome<()>)
        ensures
            r is Ok,
            TUI::appended(*old(self), *final(self), clear_seq()),
    {
        self.emit(&reset_color());
        self.emit(&clear_all());
        self.emit(&hide_cursor());
        assert(self.output@ =~= old(self).output@ + clear_seq());
        Ok(())
    }

    /// Write `text` at column `x` and row `y`. Fails, writing nothing,
    /// where the cursor cannot be moved there.
    pub fn put_bytes(&mut self, x: u16, y: u16, text: &[u8]) -> (r: Outcome<()>)
        ensures
            addressable(x, y) ==> r is Ok && TUI::appended(*old(self), *final(self), move_to_seq(x, y) + text@),
            !addressable(x, y) ==> r is Err && *final(self) == *old(self),
    {
        if x == u16::MAX || y == u16::MAX {
            return Err(Error::Backend("position out of range".to_owned()));
        }
        self.emit(&move_to(x, y));
        push_bytes(&mut self.output, text);
        assert(self.output@ =~= old(self).output@ + (move_to_seq(x, y) + text@));
        Ok(())
    }

    /// Write `text` at column `x` and row `y`. Fails, writing nothing,
    /// where the cursor cannot be moved there.
    pub fn put(&mut self, x: u16, y: u16, text: &str) -> (r: Outcome<()>)
        ensures
            addressable(x, y) ==> r is Ok && TUI::appended(*old(self), *final(self), move_to_seq(x, y) + text.spec_bytes()),
            !addressable(x, y) ==> r is Err && *final(self) == *old(self),
    {
        self.put_bytes(x, y, text.as_bytes())
    }

    /// Reset the colors, then select the foreground and background colors
    /// that are given.
    pub fn set_colors(&mut self, fg: &Option<Color>, bg: &Option<Color>) -> (r: Outcome<()>)
        ensures
            r is Ok,
            TUI::appended(*old(self), *final(self), colors_seq(*fg, *bg)),
    {
        self.emit(&reset_color());
        if let Some(fg) = fg {
            self.emit(&set_foreground(*fg));
        }
        if let Some(bg) = bg {
            self.emit(&set_background(*bg));
        }
        assert(self.output@ =~= old(self).output@ + colors_seq(*fg, *bg));
        Ok(())
    }

    /// Clear the screen and write `msg` in red at the top left.
    pub fn write_error(&mut self, msg: &[u8]) -> (r: Outcome<()>)
        ensures
            r is Ok,
            TUI::appended(*old(self), *final(self), error_seq(msg@)),
    {
        let _ = self.clear();
        self.emit(&set_foreground(Color::Red));
        let r = self.put_bytes(0, 0, msg);
        assert(self.output@ =~= old(self).output@ + error_seq(msg@));
        r
    }

    /// Replace the area with what `alter_area` makes of it.
    pub fn area<F: Fn(Area) -> Area>(&mut self, alter_area: F)
        requires
            alter_area.requires((old(self).surface_area(),)),
        ensures
            alter_area.ensures((old(self).surface_area(),), final(self).surface_area()),
            *final(self) == old(self).with_area(final(self).surface_area()),
    {
        self.area = alter_area(self.area);
    }
}

impl Surface for TUI {
    open spec fn surface_area(&self) -> Area {
        self.area
    }

    open spec fn with_area(&self, area: Area) -> TUI {
        TUI { area, ..*self }
    }

    fn get_area(&self) -> (r: Area) {
        self.area
    }

    fn set_area(&mut self, area: Area) {
        self.area = area;
    }
}

impl Context for TUI {
    type Handled = bool;
    type Rendered = Size;

    open spec fn has_exited(&self) -> bool {
        self.exited
    }

    /// Switches to the alternate screen and hides the cursor.
    open spec fn sets_up(before: TUI, after: TUI, r: Outcome<()>) -> bool {
        r == Ok::<(), Error>(()) && TUI::appended(before, after, setup_seq())
    }

    /// Clears the screen, then the widget renders; where it fails, its
    /// error is shown in red, and rendering still succeeds.
    open spec fn render_frame(
        before: TUI,
        after: TUI,
        inner_before: TUI,
        inner_after: TUI,
        inner: Outcome<Option<Size>>,
        r: Outcome<()>,
    ) -> bool {
        &&& TUI::appended(before, inner_before, clear_seq())
        &&& r == Ok::<(), Error>(())
        &&& match inner {
            Ok(_) => after == inner_after,
            Err(e) => TUI::appended(inner_after, after, error_seq(description(e))),
        }
    }

    /// The next event becomes the current one, then the widget handles it.
    open spec fn handle_frame(
        before: TUI,
        after: TUI,
        inner_before: TUI,
        inner_after: TUI,
        inner: Outcome<Option<bool>>,
        r: Outcome<()>,
    ) -> bool {
        TUI::received(before, inner_before) && after == inner_after && r == as_unit(inner)
    }

    /// Once no sender is left, handling fails and changes nothing.
    open spec fn handle_fails(before: TUI, after: TUI, r: Outcome<()>) -> bool {
        r is Err && after == before
    }

    fn setup(&mut self) -> (r: Outcome<()>) {
        self.emit(&enter_alternate_screen());
        self.emit(&hide_cursor());
        assert(self.output@ =~= old(self).output@ + setup_seq());
        Ok(())
    }

    fn handle<W: Input<TUI, bool>>(&mut self, widget: &mut W) -> (r: Outcome<()>) {
        match receive(&self.input) {
            Ok(event) => {
                self.event = Some(event);
            },
            Err(_) => {
                return Err(Error::Backend("input closed".to_owned()));
            },
        }
        match widget.handle(self) {
            Ok(_) => Ok(()),
            Err(e) => Err(e),
        }
    }

    fn render<W: Output<TUI, Size>>(&mut self, widget: &W) -> (r: Outcome<()>) {
        let _ = self.clear();
        let inner = widget.render(self);
        if let Err(e) = inner {
            let _ = self.write_error(&e.describe());
        }
        Ok(())
    }

    fn exited(&self) -> (r: bool) {
        self.exited
    }
}

/// What rendering text of the bytes `text` does: it is written at the top
/// left of the area, and its length (as far as a `u16` counts) by one line
/// is reported; where the cursor cannot go there, nothing is written and
/// rendering fails.
pub open spec fn text_renders(text: Seq<u8>, before: TUI, after: TUI, r: Outcome<Option<Size>>) -> bool {
    let area = before.surface_area();
    if addressable(area.0, area.1) {
        TUI::appended(before, after, move_to_seq(area.0, area.1) + text)
            && r == Ok::<Option<Size>, Error>(Some((count16(text.len()), 1)))
    } else {
        r is Err && after == before
    }
}

impl<'a> Output<TUI, Size> for &'a str {
    /// Writes the text at the top left of the area and reports its length
    /// (as far as a `u16` counts) by one line.
    open spec fn renders(&self, before: TUI, after: TUI, r: Outcome<Option<Size>>) -> bool {
        text_renders(self.spec_bytes(), before, after, r)
    }

    fn render(&self, context: &mut TUI) -> (r: Outcome<Option<Size>>) {
        let text: &str = *self;
        let x = context.area.0;
        let y = context.area.1;
        match context.put(x, y, text) {
            Ok(()) => {
                let len = text.as_bytes().len();
                Ok(Some((if len <= 65535 { len as u16 } else { 65535 }, 1)))
            },
            Err(e) => Err(e),
        }
    }
}

impl Output<TUI, Size> for String {
    /// Writes the text at the top left of the area and reports its length
    /// (as far as a `u16` counts) by one line.
    open spec fn renders(&self, before: TUI, after: TUI, r: Outcome<Option<Size>>) -> bool {
        text_renders(encode_utf8(self@), before, after, r)
    }

    fn render(&self, context: &mut TUI) -> (r: Outcome<Option<Size>>) {
        self.as_str().render(context)
    }
}

} // verus!
