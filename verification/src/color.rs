//! Colour resolution: turns the three kinds of cell colour into the exact RGB
//! triple that goes on the wire.

use vstd::prelude::*;

verus! {

/// Default foreground, also the default cursor colour.
pub const DEFAULT_FG: [u8; 3] = [229, 229, 229];

/// Default background.
pub const DEFAULT_BG: [u8; 3] = [30, 30, 30];

/// Number of slots in an emulator's override table.
pub const COLOR_SLOTS: usize = 269;

/// The sixteen ANSI defaults: eight normal colours, then their bright
/// counterparts. Any other index gives black.
pub open spec fn ansi_16(i: int) -> [u8; 3] {
    if i == 1 {
        [205u8, 49u8, 49u8]
    } else if i == 2 {
        [13u8, 188u8, 121u8]
    } else if i == 3 {
        [229u8, 229u8, 16u8]
    } else if i == 4 {
        [36u8, 114u8, 200u8]
    } else if i == 5 {
        [188u8, 63u8, 188u8]
    } else if i == 6 {
        [17u8, 168u8, 205u8]
    } else if i == 7 {
        [229u8, 229u8, 229u8]
    } else if i == 8 {
        [102u8, 102u8, 102u8]
    } else if i == 9 {
        [241u8, 76u8, 76u8]
    } else if i == 10 {
        [35u8, 209u8, 139u8]
    } else if i == 11 {
        [245u8, 245u8, 67u8]
    } else if i == 12 {
        [59u8, 142u8, 234u8]
    } else if i == 13 {
        [214u8, 112u8, 214u8]
    } else if i == 14 {
        [41u8, 184u8, 219u8]
    } else if i == 15 {
        [255u8, 255u8, 255u8]
    } else {
        [0u8, 0u8, 0u8]
    }
}

/// One channel scaled to two thirds, rounded down.
pub open spec fn dim_channel(v: u8) -> u8 {
    (v as int * 2 / 3) as u8
}

/// A colour with every channel scaled to two thirds.
pub open spec fn dimmed(color: [u8; 3]) -> [u8; 3] {
    [dim_channel(color[0]), dim_channel(color[1]), dim_channel(color[2])]
}

/// The fixed 256-colour palette: the ANSI sixteen, the 6×6×6 cube with 51 per
/// step, then twenty-four greys from 8 in steps of 10.
pub open spec fn palette_256(idx: u8) -> [u8; 3] {
    if idx < 16 {
        ansi_16(idx as int)
    } else if idx < 232 {
        let i = idx - 16;
        [(i / 36 * 51) as u8, (i / 6 % 6 * 51) as u8, (i % 6 * 51) as u8]
    } else {
        let grey = ((idx - 232) * 10 + 8) as u8;
        [grey, grey, grey]
    }
}

/// The default RGB of one of the ANSI sixteen.
pub fn ansi_color(i: u8) -> (rgb: [u8; 3])
    requires
        i < 16,
    ensures
        rgb == ansi_16(i as int),
{
    match i {
        0 => [0, 0, 0],
        1 => [205, 49, 49],
        2 => [13, 188, 121],
        3 => [229, 229, 16],
        4 => [36, 114, 200],
        5 => [188, 63, 188],
        6 => [17, 168, 205],
        7 => [229, 229, 229],
        8 => [102, 102, 102],
        9 => [241, 76, 76],
        10 => [35, 209, 139],
        11 => [245, 245, 67],
        12 => [59, 142, 234],
        13 => [214, 112, 214],
        14 => [41, 184, 219],
        _ => [255, 255, 255],
    }
}

/// Scales a colour to two thirds of its brightness, channel by channel.
pub fn dim_color(color: [u8; 3]) -> (out: [u8; 3])
    ensures
        out == dimmed(color),
{
    let r: u16 = color[0] as u16 * 2 / 3;
    let g: u16 = color[1] as u16 * 2 / 3;
    let b: u16 = color[2] as u16 * 2 / 3;
    [r as u8, g as u8, b as u8]
}

/// Resolves a 256-colour palette index.
pub fn color_256(idx: u8) -> (rgb: [u8; 3])
    ensures
        rgb == palette_256(idx),
{
    if idx < 16 {
        ansi_color(idx)
    } else if idx < 232 {
        let i: u8 = idx - 16;
        let r: u8 = (i / 36) * 51;
        let g: u8 = ((i / 6) % 6) * 51;
        let b: u8 = (i % 6) * 51;
        [r, g, b]
    } else {
        let grey: u8 = (idx - 232) * 10 + 8;
        [grey, grey, grey]
    }
}

/// A named colour slot of the emulator.
#[derive(Clone, Copy, Debug, PartialEq, Eq, Structural)]
pub enum NamedColor {
    Black,
    Red,
    Green,
    Yellow,
    Blue,
    Magenta,
    Cyan,
    White,
    BrightBlack,
    BrightRed,
    BrightGreen,
    BrightYellow,
    BrightBlue,
    BrightMagenta,
    BrightCyan,
    BrightWhite,
    Foreground,
    Background,
    Cursor,
    DimBlack,
    DimRed,
    DimGreen,
    DimYellow,
    DimBlue,
    DimMagenta,
    DimCyan,
    DimWhite,
    BrightForeground,
    DimForeground,
}

impl NamedColor {
    /// The slot number of this name in an override table: 0 to 15 for the
    /// ANSI sixteen, 256 foreground, 257 background, 258 cursor, 259 to 266
    /// the dimmed normal colours, 267 bright foreground, 268 dim foreground.
    pub open spec fn slot(self) -> int {
        match self {
            NamedColor::Black => 0,
            NamedColor::Red => 1,
            NamedColor::Green => 2,
            NamedColor::Yellow => 3,
            NamedColor::Blue => 4,
            NamedColor::Magenta => 5,
            NamedColor::Cyan => 6,
            NamedColor::White => 7,
            NamedColor::BrightBlack => 8,
            NamedColor::BrightRed => 9,
            NamedColor::BrightGreen => 10,
            NamedColor::BrightYellow => 11,
            NamedColor::BrightBlue => 12,
            NamedColor::BrightMagenta => 13,
            NamedColor::BrightCyan => 14,
            NamedColor::BrightWhite => 15,
            NamedColor::Foreground => 256,
            NamedColor::Background => 257,
            NamedColor::Cursor => 258,
            NamedColor::DimBlack => 259,
            NamedColor::DimRed => 260,
            NamedColor::DimGreen => 261,
            NamedColor::DimYellow => 262,
            NamedColor::DimBlue => 263,
            NamedColor::DimMagenta => 264,
            NamedColor::DimCyan => 265,
            NamedColor::DimWhite => 266,
            NamedColor::BrightForeground => 267,
            NamedColor::DimForeground => 268,
        }
    }

    /// The default RGB of a slot, by its number: the ANSI table below 16,
    /// the dimmed normal colours from 259 to 266, and the foreground family
    /// derived from the default foreground.
    pub open spec fn default_of_slot(slot: int) -> [u8; 3] {
        if 0 <= slot < 16 {
            ansi_16(slot)
        } else if slot == 257 {
            DEFAULT_BG
        } else if 259 <= slot <= 266 {
            dimmed(ansi_16(slot - 259))
        } else if slot == 267 {
            ansi_16(15)
        } else if slot == 268 {
            dimmed(DEFAULT_FG)
        } else {
            DEFAULT_FG
        }
    }

    /// The default RGB of this name when the emulator sets no override.
    pub open spec fn default_rgb(self) -> [u8; 3] {
        Self::default_of_slot(self.slot())
    }

    /// The slot number of this name in an override table.
    pub fn index(self) -> (i: usize)
        ensures
            i == self.slot(),
            i < COLOR_SLOTS,
    {
        match self {
            NamedColor::Black => 0,
            NamedColor::Red => 1,
            NamedColor::Green => 2,
            NamedColor::Yellow => 3,
            NamedColor::Blue => 4,
            NamedColor::Magenta => 5,
            NamedColor::Cyan => 6,
            NamedColor::White => 7,
            NamedColor::BrightBlack => 8,
            NamedColor::BrightRed => 9,
            NamedColor::BrightGreen => 10,
            NamedColor::BrightYellow => 11,
            NamedColor::BrightBlue => 12,
            NamedColor::BrightMagenta => 13,
            NamedColor::BrightCyan => 14,
            NamedColor::BrightWhite => 15,
            NamedColor::Foreground => 256,
            NamedColor::Background => 257,
            NamedColor::Cursor => 258,
            NamedColor::DimBlack => 259,
            NamedColor::DimRed => 260,
            NamedColor::DimGreen => 261,
            NamedColor::DimYellow => 262,
            NamedColor::DimBlue => 263,
            NamedColor::DimMagenta => 264,
            NamedColor::DimCyan => 265,
            NamedColor::DimWhite => 266,
            NamedColor::BrightForeground => 267,
            NamedColor::DimForeground => 268,
        }
    }

    /// The name that owns a slot number, if any does.
    pub fn from_index(i: usize) -> (named: Option<NamedColor>)
        ensures
            named matches Some(n) ==> n.slot() == i,
            named is None <==> !(i < 16 || 256 <= i < COLOR_SLOTS),
    {
        match i {
            0 => Some(NamedColor::Black),
            1 => Some(NamedColor::Red),
            2 => Some(NamedColor::Green),
            3 => Some(NamedColor::Yellow),
            4 => Some(NamedColor::Blue),
            5 => Some(NamedColor::Magenta),
            6 => Some(NamedColor::Cyan),
            7 => Some(NamedColor::White),
            8 => Some(NamedColor::BrightBlack),
            9 => Some(NamedColor::BrightRed),
            10 => Some(NamedColor::BrightGreen),
            11 => Some(NamedColor::BrightYellow),
            12 => Some(NamedColor::BrightBlue),
            13 => Some(NamedColor::BrightMagenta),
            14 => Some(NamedColor::BrightCyan),
            15 => Some(NamedColor::BrightWhite),
            256 => Some(NamedColor::Foreground),
            257 => Some(NamedColor::Background),
            258 => Some(NamedColor::Cursor),
            259 => Some(NamedColor::DimBlack),
            260 => Some(NamedColor::DimRed),
            261 => Some(NamedColor::DimGreen),
            262 => Some(NamedColor::DimYellow),
            263 => Some(NamedColor::DimBlue),
            264 => Some(NamedColor::DimMagenta),
            265 => Some(NamedColor::DimCyan),
            266 => Some(NamedColor::DimWhite),
            267 => Some(NamedColor::BrightForeground),
            268 => Some(NamedColor::DimForeground),
            _ => None,
        }
    }
}

/// The default RGB of a named slot.
pub fn resolve_named_color(named: NamedColor) -> (rgb: [u8; 3])
    ensures
        rgb == named.default_rgb(),
{
    match named {
        NamedColor::Foreground => DEFAULT_FG,
        NamedColor::Background => DEFAULT_BG,
        NamedColor::Cursor => DEFAULT_FG,
        NamedColor::BrightForeground => ansi_color(15),
        NamedColor::DimForeground => dim_color(DEFAULT_FG),
        NamedColor::Black => ansi_color(0),
        NamedColor::Red => ansi_color(1),
        NamedColor::Green => ansi_color(2),
        NamedColor::Yellow => ansi_color(3),
        NamedColor::Blue => ansi_color(4),
        NamedColor::Magenta => ansi_color(5),
        NamedColor::Cyan => ansi_color(6),
        NamedColor::White => ansi_color(7),
        NamedColor::BrightBlack => ansi_color(8),
        NamedColor::BrightRed => ansi_color(9),
        NamedColor::BrightGreen => ansi_color(10),
        NamedColor::BrightYellow => ansi_color(11),
        NamedColor::BrightBlue => ansi_color(12),
        NamedColor::BrightMagenta => ansi_color(13),
        NamedColor::BrightCyan => ansi_color(14),
        NamedColor::BrightWhite => ansi_color(15),
        NamedColor::DimBlack => dim_color(ansi_color(0)),
        NamedColor::DimRed => dim_color(ansi_color(1)),
        NamedColor::DimGreen => dim_color(ansi_color(2)),
        NamedColor::DimYellow => dim_color(ansi_color(3)),
        NamedColor::DimBlue => dim_color(ansi_color(4)),
        NamedColor::DimMagenta => dim_color(ansi_color(5)),
        NamedColor::DimCyan => dim_color(ansi_color(6)),
        NamedColor::DimWhite => dim_color(ansi_color(7)),
    }
}

/// The colour of a cell as the emulator reports it.
#[derive(Clone, Copy, Debug, PartialEq, Eq)]
pub enum TermColor {
    /// A named slot, subject to the emulator's overrides.
    Named(NamedColor),
    /// An explicit RGB triple.
    Spec([u8; 3]),
    /// An index into the 256-colour palette.
    Indexed(u8),
}

/// The emulator's overrides of the named slots, by slot number. A slot that
/// is `None`, or beyond the end of the table, is unset.
#[derive(Clone, Debug, PartialEq, Eq)]
pub struct ColorOverrides {
    pub slots: Vec<Option<[u8; 3]>>,
}

impl ColorOverrides {
    /// The override of a named slot, if the emulator set one.
    pub open spec fn override_of(self, named: NamedColor) -> Option<[u8; 3]> {
        if named.slot() < self.slots@.len() {
            self.slots@[named.slot()]
        } else {
            None
        }
    }

    /// The RGB that a cell colour resolves to under these overrides:
    /// explicit RGB as it is, an index through the palette, a name through
    /// its override or else its default.
    pub open spec fn resolved(self, color: TermColor) -> [u8; 3] {
        match color {
            TermColor::Spec(rgb) => rgb,
            TermColor::Indexed(idx) => palette_256(idx),
            TermColor::Named(named) => match self.override_of(named) {
                Some(rgb) => rgb,
                None => named.default_rgb(),
            },
        }
    }

    /// A table with no slot set.
    pub fn new() -> (table: ColorOverrides)
        ensures
            table.slots@.len() == 0,
            forall|named: NamedColor| table.override_of(named) is None,
    {
        ColorOverrides { slots: Vec::new() }
    }

    /// The override of a named slot, if the emulator set one.
    pub fn get(&self, named: NamedColor) -> (rgb: Option<[u8; 3]>)
        ensures
            rgb == self.override_of(named),
    {
        let i: usize = named.index();
        if i < self.slots.len() {
            self.slots[i]
        } else {
            None
        }
    }
}

/// Resolves a cell colour to RGB.
pub fn resolve_color(color: TermColor, colors: &ColorOverrides) -> (rgb: [u8; 3])
    ensures
        rgb == colors.resolved(color),
{
    match color {
        TermColor::Spec(rgb) => rgb,
        TermColor::Indexed(idx) => color_256(idx),
        TermColor::Named(named) => {
            match colors.get(named) {
                Some(rgb) => rgb,
                None => resolve_named_color(named),
            }
        },
    }
}

} // verus!
