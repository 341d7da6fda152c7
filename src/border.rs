//! Borders drawn around a widget in the terminal.
use vstd::prelude::*;

use crate::ansi::Color;
use crate::layouts::Size;
use crate::output::{Error, Outcome, Output};
use crate::space::Area;
use crate::text::push_bytes;
use crate::layouts::Surface;
use crate::ansi::move_to_seq;
use crate::tui::{addressable, colors_seq, TUI};
use vstd::string::StringSliceAdditionalSpecFns;

verus! {

/// A set of colors to use for rendering a border.
pub trait BorderTheme {
    /// The color outside the box.
    fn out(&self) -> Option<Color>;
    /// The background of the box.
    fn bg(&self) -> Option<Color>;
    /// One border color.
    fn hi(&self) -> Option<Color>;
    /// The other border color.
    fn lo(&self) -> Option<Color>;
}

/// Colors for an inset grey border.
#[derive(Clone, Copy, Debug, PartialEq, Eq, Structural)]
pub struct Inset;

impl BorderTheme for Inset {
    fn out(&self) -> (r: Option<Color>)
        ensures
            r is None,
    {
        None
    }

    fn bg(&self) -> (r: Option<Color>)
        ensures
            r == Some(Color::AnsiValue(235)),
    {
        Some(Color::AnsiValue(235))
    }

    fn hi(&self) -> (r: Option<Color>)
        ensures
            r == Some(Color::AnsiValue(240)),
    {
        Some(Color::AnsiValue(240))
    }

    fn lo(&self) -> (r: Option<Color>)
        ensures
            r == Some(Color::AnsiValue(16)),
    {
        Some(Color::AnsiValue(16))
    }
}

/// Colors for an outset grey border.
#[derive(Clone, Copy, Debug, PartialEq, Eq, Structural)]
pub struct Outset;

impl BorderTheme for Outset {
    fn out(&self) -> (r: Option<Color>)
        ensures
            r is None,
    {
        None
    }

    fn bg(&self) -> (r: Option<Color>)
        ensures
            r == Some(Color::AnsiValue(235)),
    {
        Some(Color::AnsiValue(235))
    }

    fn hi(&self) -> (r: Option<Color>)
        ensures
            r == Some(Color::AnsiValue(16)),
    {
        Some(Color::AnsiValue(16))
    }

    fn lo(&self) -> (r: Option<Color>)
        ensures
            r == Some(Color::AnsiValue(240)),
    {
        Some(Color::AnsiValue(240))
    }
}

/// A border glyph, and its foreground and background colors.
pub type BorderChar = (&'static str, Option<Color>, Option<Color>);

/// A set of glyphs to use for rendering a border.
pub trait BorderStyle {
    fn top<T: BorderTheme>(theme: &T) -> BorderChar;
    fn top_left<T: BorderTheme>(theme: &T) -> BorderChar;
    fn top_right<T: BorderTheme>(theme: &T) -> BorderChar;
    fn left<T: BorderTheme>(theme: &T) -> BorderChar;
    fn right<T: BorderTheme>(theme: &T) -> BorderChar;
    fn bottom<T: BorderTheme>(theme: &T) -> BorderChar;
    fn bottom_left<T: BorderTheme>(theme: &T) -> BorderChar;
    fn bottom_right<T: BorderTheme>(theme: &T) -> BorderChar;
}

/// A border with more vertical space.
#[derive(Clone, Copy, Debug, PartialEq, Eq, Structural)]
pub struct Tall;

impl BorderStyle for Tall {
    fn top<T: BorderTheme>(theme: &T) -> BorderChar {
        ("\u{2587}", theme.bg(), theme.lo())
    }

    fn top_left<T: BorderTheme>(theme: &T) -> BorderChar {
        ("\u{258a}", theme.bg(), theme.lo())
    }

    fn top_right<T: BorderTheme>(theme: &T) -> BorderChar {
        ("\u{258e}", theme.hi(), theme.bg())
    }

    fn left<T: BorderTheme>(theme: &T) -> BorderChar {
        ("\u{258a}", theme.bg(), theme.lo())
    }

    fn right<T: BorderTheme>(theme: &T) -> BorderChar {
        ("\u{258e}", theme.hi(), theme.bg())
    }

    fn bottom<T: BorderTheme>(theme: &T) -> BorderChar {
        ("\u{2581}", theme.hi(), theme.bg())
    }

    fn bottom_left<T: BorderTheme>(theme: &T) -> BorderChar {
        ("\u{258a}", theme.bg(), theme.lo())
    }

    fn bottom_right<T: BorderTheme>(theme: &T) -> BorderChar {
        ("\u{258e}", theme.hi(), theme.bg())
    }
}

/// A border with more horizontal space.
#[derive(Clone, Copy, Debug, PartialEq, Eq, Structural)]
pub struct Wide;

impl BorderStyle for Wide {
    fn top<T: BorderTheme>(theme: &T) -> BorderChar {
        ("\u{2581}", theme.lo(), theme.bg())
    }

    fn top_left<T: BorderTheme>(theme: &T) -> BorderChar {
        ("\u{2581}", theme.lo(), theme.bg())
    }

    fn top_right<T: BorderTheme>(theme: &T) -> BorderChar {
        ("\u{2581}", theme.lo(), theme.bg())
    }

    fn left<T: BorderTheme>(theme: &T) -> BorderChar {
        ("\u{258e}", theme.lo(), theme.bg())
    }

    fn right<T: BorderTheme>(theme: &T) -> BorderChar {
        ("\u{258a}", theme.bg(), theme.hi())
    }

    fn bottom<T: BorderTheme>(theme: &T) -> BorderChar {
        ("\u{2587}", theme.bg(), theme.hi())
    }

    fn bottom_left<T: BorderTheme>(theme: &T) -> BorderChar {
        ("\u{2587}", theme.bg(), theme.hi())
    }

    fn bottom_right<T: BorderTheme>(theme: &T) -> BorderChar {
        ("\u{2587}", theme.bg(), theme.hi())
    }
}

/// A border drawn with box-drawing lines.
#[derive(Clone, Copy, Debug, PartialEq, Eq, Structural)]
pub struct Flat;

impl BorderStyle for Flat {
    fn top<T: BorderTheme>(theme: &T) -> BorderChar {
        ("\u{2500}", theme.hi(), theme.bg())
    }

    fn top_left<T: BorderTheme>(theme: &T) -> BorderChar {
        ("\u{250c}", theme.hi(), theme.bg())
    }

    fn top_right<T: BorderTheme>(theme: &T) -> BorderChar {
        ("\u{2510}", theme.hi(), theme.bg())
    }

    fn left<T: BorderTheme>(theme: &T) -> BorderChar {
        ("\u{2502}", theme.hi(), theme.bg())
    }

    fn right<T: BorderTheme>(theme: &T) -> BorderChar {
        ("\u{2502}", theme.hi(), theme.bg())
    }

    fn bottom<T: BorderTheme>(theme: &T) -> BorderChar {
        ("\u{2500}", theme.hi(), theme.bg())
    }

    fn bottom_left<T: BorderTheme>(theme: &T) -> BorderChar {
        ("\u{2514}", theme.hi(), theme.bg())
    }

    fn bottom_right<T: BorderTheme>(theme: &T) -> BorderChar {
        ("\u{2518}", theme.hi(), theme.bg())
    }
}

/// `text` repeated `count` times.
pub open spec fn repeated(text: Seq<u8>, count: nat) -> Seq<u8>
    decreases count,
{
    if count == 0 {
        Seq::empty()
    } else {
        repeated(text, (count - 1) as nat) + text
    }
}

/// The bytes of `glyph` repeated `count` times.
fn repeat(glyph: &str, count: u16) -> (r: Vec<u8>)
    ensures
        r@ == repeated(glyph.spec_bytes(), count as nat),
{
    let mut out: Vec<u8> = Vec::new();
    let mut i: u16 = 0;
    while i < count
        invariant
            i <= count,
            out@ == repeated(glyph.spec_bytes(), i as nat),
        decreases count - i,
    {
        push_bytes(&mut out, glyph.as_bytes());
        i = i + 1;
    }
    out
}

/// The bytes that draw `glyph` `count` times in its colors at column `x`
/// and row `y`.
pub open spec fn glyph_seq(x: u16, y: u16, glyph: BorderChar, count: u16) -> Seq<u8> {
    colors_seq(glyph.1, glyph.2) + move_to_seq(x, y) + repeated(glyph.0.spec_bytes(), count as nat)
}

/// Draw `glyph` `count` times in its colors at column `x` and row `y`.
fn draw(context: &mut TUI, x: u16, y: u16, glyph: &BorderChar, count: u16)
    requires
        addressable(x, y),
    ensures
        TUI::appended(*old(context), *final(context), glyph_seq(x, y, *glyph, count)),
{
    let _ = context.set_colors(&glyph.1, &glyph.2);
    let ghost colored = *context;
    let _ = context.put_bytes(x, y, repeat(glyph.0, count).as_slice());
    proof {
        TUI::lemma_appended_twice(
            *old(context),
            colored,
            *context,
            colors_seq(glyph.1, glyph.2),
            move_to_seq(x, y) + repeated(glyph.0.spec_bytes(), count as nat),
        );
        assert(colors_seq(glyph.1, glyph.2) + (move_to_seq(x, y) + repeated(glyph.0.spec_bytes(), count as nat))
            =~= glyph_seq(x, y, *glyph, count));
    }
}

/// A border around another widget.
#[derive(Debug)]
pub struct Border<X, Y, Z> {
    /// The widget inside.
    pub widget: X,
    /// The glyphs.
    pub style: Y,
    /// The colors.
    pub theme: Z,
}

/// Widgets that can be given a border.
pub trait AddBorder<Y: BorderStyle, Z: BorderTheme>: Sized {
    /// This widget inside a border of `style` and `theme`.
    fn border(self, style: Y, theme: Z) -> (r: Border<Self, Y, Z>)
        ensures
            r == (Border { widget: self, style, theme }),
    {
        Border { widget: self, style, theme }
    }
}

impl<X: Output<TUI, Size>, Y: BorderStyle, Z: BorderTheme> AddBorder<Y, Z> for X {
}

/// The area inside a border drawn along the edges of `area`.
pub open spec fn inner_area(area: Area) -> Area {
    Area((area.0 + 1) as u16, (area.1 + 1) as u16, (area.2 - 2) as u16, (area.3 - 2) as u16)
}

impl<X: Output<TUI, Size>, Y: BorderStyle, Z: BorderTheme> Output<TUI, Size> for Border<X, Y, Z> {
    /// Draws the border along the edges of the area and renders the widget
    /// in the area inside it, returning the widget's result. An area less
    /// than two cells wide or high gets nothing drawn; one that reaches
    /// past the last addressable row or column fails without drawing.
    open spec fn renders(&self, before: TUI, after: TUI, r: Outcome<Option<Size>>) -> bool {
        let area = before.surface_area();
        if area.2 < 2 || area.3 < 2 {
            r == Ok::<Option<Size>, Error>(None) && after == before
        } else if area.0 + area.2 > 65535 || area.1 + area.3 > 65535 {
            r is Err && after == before
        } else {
            exists|drawn: TUI, mid: TUI, bytes: Seq<u8>|
                #![trigger TUI::appended(before, drawn, bytes), self.widget.renders(drawn.with_area(inner_area(area)), mid, r)]
                TUI::appended(before, drawn, bytes) && self.widget.renders(
                    drawn.with_area(inner_area(area)),
                    mid,
                    r,
                ) && after == mid.with_area(area)
        }
    }

    fn render(&self, context: &mut TUI) -> (r: Outcome<Option<Size>>) {
        let area = context.get_area();
        let (x, y, w, h) = (area.0, area.1, area.2, area.3);
        if w < 2 || h < 2 {
            return Ok(None);
        }
        if x as u32 + w as u32 > 65535 || y as u32 + h as u32 > 65535 {
            return Err(Error::Backend("position out of range".to_owned()));
        }
        let right = x + w - 1;
        let bottom = y + h - 1;
        let inner = w - 2;
        let theme = &self.theme;
        let ghost before = *context;
        let ghost mut bytes: Seq<u8> = Seq::empty();
        proof {
            TUI::lemma_appended_nothing(before);
        }
        let top_left = Y::top_left(theme);
        draw(context, x, y, &top_left, 1);
        proof {
            TUI::lemma_appended_twice(before, *old(context), *context, bytes, glyph_seq(x, y, top_left, 1));
            bytes = bytes + glyph_seq(x, y, top_left, 1);
        }
        let top = Y::top(theme);
        let ghost c0 = *context;
        draw(context, x + 1, y, &top, inner);
        proof {
            TUI::lemma_appended_twice(before, c0, *context, bytes, glyph_seq((x + 1) as u16, y, top, inner));
            bytes = bytes + glyph_seq((x + 1) as u16, y, top, inner);
        }
        let top_right = Y::top_right(theme);
        let ghost c1 = *context;
        draw(context, right, y, &top_right, 1);
        proof {
            TUI::lemma_appended_twice(before, c1, *context, bytes, glyph_seq(right, y, top_right, 1));
            bytes = bytes + glyph_seq(right, y, top_right, 1);
        }
        let left = Y::left(theme);
        let fill: BorderChar = (" ", theme.hi(), theme.bg());
        let side = Y::right(theme);
        let mut row = y + 1;
        while row < bottom
            invariant
                y < row <= bottom,
                bottom < u16::MAX,
                x < right < u16::MAX,
                inner == w - 2,
                TUI::appended(before, *context, bytes),
            decreases bottom - row,
        {
            let ghost c2 = *context;
            draw(context, x, row, &left, 1);
            let ghost c3 = *context;
            draw(context, x + 1, row, &fill, inner);
            let ghost c4 = *context;
            draw(context, right, row, &side, 1);
            proof {
                TUI::lemma_appended_twice(before, c2, c3, bytes, glyph_seq(x, row, left, 1));
                let b1 = bytes + glyph_seq(x, row, left, 1);
                TUI::lemma_appended_twice(before, c3, c4, b1, glyph_seq((x + 1) as u16, row, fill, inner));
                let b2 = b1 + glyph_seq((x + 1) as u16, row, fill, inner);
                TUI::lemma_appended_twice(before, c4, *context, b2, glyph_seq(right, row, side, 1));
                bytes = b2 + glyph_seq(right, row, side, 1);
            }
            row = row + 1;
        }
        let bottom_left = Y::bottom_left(theme);
        let ghost c5 = *context;
        draw(context, x, bottom, &bottom_left, 1);
        proof {
            TUI::lemma_appended_twice(before, c5, *context, bytes, glyph_seq(x, bottom, bottom_left, 1));
            bytes = bytes + glyph_seq(x, bottom, bottom_left, 1);
        }
        let bottom_edge = Y::bottom(theme);
        let ghost c6 = *context;
        draw(context, x + 1, bottom, &bottom_edge, inner);
        proof {
            TUI::lemma_appended_twice(before, c6, *context, bytes, glyph_seq((x + 1) as u16, bottom, bottom_edge, inner));
            bytes = bytes + glyph_seq((x + 1) as u16, bottom, bottom_edge, inner);
        }
        let bottom_right = Y::bottom_right(theme);
        let ghost c7 = *context;
        draw(context, right, bottom, &bottom_right, 1);
        proof {
            TUI::lemma_appended_twice(before, c7, *context, bytes, glyph_seq(right, bottom, bottom_right, 1));
            bytes = bytes + glyph_seq(right, bottom, bottom_right, 1);
        }
        let background = theme.bg();
        let ghost c8 = *context;
        let _ = context.set_colors(&None, &background);
        proof {
            TUI::lemma_appended_twice(before, c8, *context, bytes, colors_seq(None, background));
            bytes = bytes + colors_seq(None, background);
        }
        let ghost drawn = *context;
        let inside = Area(x + 1, y + 1, inner, h - 2);
        context.set_area(inside);
        let r = self.widget.render(context);
        let ghost mid = *context;
        context.set_area(area);
        assert(inside == inner_area(area));
        assert(self.widget.renders(drawn.with_area(inner_area(area)), mid, r));
        assert(*context == mid.with_area(area));
        assert(TUI::appended(before, drawn, bytes));
        assert(before == *old(context));
        r
    }
}

} // verus!
