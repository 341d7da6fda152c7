//! What every widget can do: render itself into a context, and handle the
//! input that a context delivers.
use vstd::prelude::*;

use crate::space::Area;
use crate::text::{decimal, push_bytes, push_decimal};
use vstd::string::StringSliceAdditionalSpecFns;
use vstd::utf8::encode_utf8;

verus! {

/// Why a widget or a context could not do its work.
#[derive(Debug, PartialEq, Eq)]
pub enum Error {
    /// The offered area (the first field) is smaller than the width and the
    /// height that the content needs.
    NoSpace(Area, u16, u16),
    /// The context's own input or output failed; the text says how.
    Backend(String),
}

/// The text that describes `e`: for missing space, the offered width and
/// height and the ones needed, as in `no space (3x1 < 5x1)`.
pub open spec fn description(e: Error) -> Seq<u8> {
    match e {
        Error::NoSpace(area, w, h) => "no space (".spec_bytes() + decimal(area.2 as nat) + seq![120u8]
            + decimal(area.3 as nat) + " < ".spec_bytes() + decimal(w as nat) + seq![120u8]
            + decimal(h as nat) + seq![41u8],
        Error::Backend(text) => encode_utf8(text@),
    }
}

impl Error {
    /// The text that describes this error.
    pub fn describe(&self) -> (r: Vec<u8>)
        ensures
            r@ == description(*self),
    {
        let mut out: Vec<u8> = Vec::new();
        match self {
            Error::NoSpace(area, w, h) => {
                push_bytes(&mut out, "no space (".as_bytes());
                push_decimal(&mut out, area.2 as u32);
                out.push(120);
                push_decimal(&mut out, area.3 as u32);
                push_bytes(&mut out, " < ".as_bytes());
                push_decimal(&mut out, *w as u32);
                out.push(120);
                push_decimal(&mut out, *h as u32);
                out.push(41);
            },
            Error::Backend(text) => {
                push_bytes(&mut out, text.as_str().as_bytes());
            },
        }
        out
    }
}

/// What rendering, handling and the main loop return.
pub type Outcome<T> = core::result::Result<T, Error>;

/// Displays information to the user in the format specified by the context.
pub trait Output<T, U> {
    /// Whether rendering this widget may turn the context `before` into
    /// `after` with the result `r`. Widgets of this library state exactly
    /// what they do; for others nothing is known.
    open spec fn renders(&self, before: T, after: T, r: Outcome<Option<U>>) -> bool {
        true
    }

    /// Renders into `context`, optionally reporting a measurement.
    fn render(&self, context: &mut T) -> (r: Outcome<Option<U>>)
        ensures
            self.renders(*old(context), *final(context), r),
    ;
}

/// Updates state in response to user input, in a context-specific way.
pub trait Input<T, U>: Sized {
    /// Whether handling input may turn this widget into `after` and the
    /// context `before` into `after_context`, with the result `r`.
    open spec fn handles(&self, after: Self, before: T, after_context: T, r: Outcome<Option<U>>) -> bool {
        true
    }

    /// Consumes what `context` currently holds, optionally reporting a result.
    fn handle(&mut self, context: &mut T) -> (r: Outcome<Option<U>>)
        ensures
            old(self).handles(*final(self), *old(context), *final(context), r),
    ;
}

/// A widget that both handles input (reporting `B`) and renders (reporting
/// `C`) in context `A`.
pub trait Widget<A, B, C>: Input<A, B> + Output<A, C> {
}

impl<X, A, B, C> Widget<A, B, C> for X where X: Input<A, B> + Output<A, C> {
}

} // verus!
