//! The colours of the table, by name: which shade of which palette each
//! part of the table takes. The program resolves a swatch to a colour of its
//! terminal library.

use vstd::prelude::*;

verus! {

/// A named colour family.
#[derive(Clone, Copy, Debug, PartialEq, Eq, Structural)]
pub enum Palette {
    Slate,
    Blue,
    Emerald,
    Indigo,
    Red,
}

/// A step of a palette, from light (`C200`) to dark (`C950`).
#[derive(Clone, Copy, Debug, PartialEq, Eq, Structural)]
pub enum Shade {
    C200,
    C400,
    C900,
    C950,
}

/// One colour: a shade of a palette.
#[derive(Clone, Copy, Debug, PartialEq, Eq, Structural)]
pub struct Swatch {
    pub palette: Palette,
    pub shade: Shade,
}

/// The colour of each part of the table.
#[derive(Clone, Copy, Debug, PartialEq, Eq, Structural)]
pub struct TableColors {
    pub buffer_bg: Swatch,
    pub header_bg: Swatch,
    pub header_fg: Swatch,
    pub row_fg: Swatch,
    pub selected_style_fg: Swatch,
    pub normal_row_color: Swatch,
    pub alt_row_color: Swatch,
    pub footer_border_color: Swatch,
}

/// The number of palettes that the table cycles through.
pub const PALETTE_COUNT: usize = 4;

/// The palette at a place of the cycle: blue, emerald, indigo, red.
pub open spec fn palette_at(index: int) -> Palette {
    if index == 0 {
        Palette::Blue
    } else if index == 1 {
        Palette::Emerald
    } else if index == 2 {
        Palette::Indigo
    } else {
        Palette::Red
    }
}

/// The palette at a place of the cycle.
pub fn palette(index: usize) -> (p: Palette)
    requires
        index < PALETTE_COUNT,
    ensures
        p == palette_at(index as int),
{
    if index == 0 {
        Palette::Blue
    } else if index == 1 {
        Palette::Emerald
    } else if index == 2 {
        Palette::Indigo
    } else {
        Palette::Red
    }
}

impl TableColors {
    /// The table in the accent `color`: header, selection and footer border
    /// take the accent, the rest is slate.
    pub open spec fn of(color: Palette) -> TableColors {
        TableColors {
            buffer_bg: Swatch { palette: Palette::Slate, shade: Shade::C950 },
            header_bg: Swatch { palette: color, shade: Shade::C900 },
            header_fg: Swatch { palette: Palette::Slate, shade: Shade::C200 },
            row_fg: Swatch { palette: Palette::Slate, shade: Shade::C200 },
            selected_style_fg: Swatch { palette: color, shade: Shade::C400 },
            normal_row_color: Swatch { palette: Palette::Slate, shade: Shade::C950 },
            alt_row_color: Swatch { palette: Palette::Slate, shade: Shade::C900 },
            footer_border_color: Swatch { palette: color, shade: Shade::C400 },
        }
    }

    /// The table in the accent `color`.
    pub fn new(color: Palette) -> (colors: TableColors)
        ensures
            colors == TableColors::of(color),
    {
        TableColors {
            buffer_bg: Swatch { palette: Palette::Slate, shade: Shade::C950 },
            header_bg: Swatch { palette: color, shade: Shade::C900 },
            header_fg: Swatch { palette: Palette::Slate, shade: Shade::C200 },
            row_fg: Swatch { palette: Palette::Slate, shade: Shade::C200 },
            selected_style_fg: Swatch { palette: color, shade: Shade::C400 },
            normal_row_color: Swatch { palette: Palette::Slate, shade: Shade::C950 },
            alt_row_color: Swatch { palette: Palette::Slate, shade: Shade::C900 },
            footer_border_color: Swatch { palette: color, shade: Shade::C400 },
        }
    }
}

} // verus!
