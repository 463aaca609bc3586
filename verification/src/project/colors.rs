//! The colours in which each family of components is drawn.

use vstd::prelude::*;

verus! {

/// The family a component belongs to. It decides nothing but the colours.
#[derive(Debug, Clone, Copy, PartialEq, Eq, Structural)]
pub enum Category {
    Emitter,
    Routing,
    Drum,
    Instrument,
    Tone,
    Scale,
    Arpeggio,
    Tuning,
    Step,
    Debug,
}

/// A colour: an opaque one given by its red, green and blue parts, or the
/// marker colour of the toolkit that draws, which stands out on purpose.
#[derive(Debug, Clone, Copy, PartialEq, Eq, Structural)]
pub enum Color {
    Rgb(u8, u8, u8),
    DebugColor,
}

/// The two colours of a family.
#[derive(Debug, Clone, Copy, PartialEq, Eq, Structural)]
pub struct Palette {
    pub background: Color,
    pub foreground: Color,
}

impl Category {
    /// The colours of each family: red for emitters, yellow for routing,
    /// blue for drums, purple for instruments, cyan for tones, pink for
    /// scales, dark pink for arpeggios, orange for tunings and grey for
    /// steps.
    pub open spec fn spec_palette(self) -> Palette {
        match self {
            Category::Emitter => Palette {
                background: Color::Rgb(0xe6, 0x67, 0x67),
                foreground: Color::Rgb(0xea, 0x86, 0x85),
            },
            Category::Routing => Palette {
                background: Color::Rgb(0xf5, 0xcd, 0x79),
                foreground: Color::Rgb(0xf7, 0xd7, 0x94),
            },
            Category::Drum => Palette {
                background: Color::Rgb(0x54, 0x6d, 0xe5),
                foreground: Color::Rgb(0xf3, 0xa6, 0x83),
            },
            Category::Instrument => Palette {
                background: Color::Rgb(0x57, 0x4b, 0x90),
                foreground: Color::Rgb(0x78, 0x6f, 0xa6),
            },
            Category::Tone => Palette {
                background: Color::Rgb(0x3d, 0xc1, 0xd3),
                foreground: Color::Rgb(0x63, 0xcd, 0xda),
            },
            Category::Scale => Palette {
                background: Color::Rgb(0xf7, 0x8f, 0xb3),
                foreground: Color::Rgb(0xf8, 0xa5, 0xc2),
            },
            Category::Arpeggio => Palette {
                background: Color::Rgb(0xc4, 0x45, 0x69),
                foreground: Color::Rgb(0xcf, 0x6a, 0x87),
            },
            Category::Tuning => Palette {
                background: Color::Rgb(0xf1, 0x90, 0x66),
                foreground: Color::Rgb(0xf3, 0xa6, 0x83),
            },
            Category::Step => Palette {
                background: Color::Rgb(0x30, 0x39, 0x52),
                foreground: Color::Rgb(0x59, 0x62, 0x75),
            },
            Category::Debug => Palette {
                background: Color::DebugColor,
                foreground: Color::DebugColor,
            },
        }
    }

    // background, foreground
    fn palette_(self) -> (colors: (Color, Color))
        ensures
            colors.0 == self.spec_palette().background,
            colors.1 == self.spec_palette().foreground,
    {
        match self {
            // red
            Self::Emitter => (Color::Rgb(0xe6, 0x67, 0x67), Color::Rgb(0xea, 0x86, 0x85)),
            // yellow
            Self::Routing => (Color::Rgb(0xf5, 0xcd, 0x79), Color::Rgb(0xf7, 0xd7, 0x94)),
            // blue
            Self::Drum => (Color::Rgb(0x54, 0x6d, 0xe5), Color::Rgb(0xf3, 0xa6, 0x83)),
            // purple
            Self::Instrument => (Color::Rgb(0x57, 0x4b, 0x90), Color::Rgb(0x78, 0x6f, 0xa6)),
            // cyan
            Self::Tone => (Color::Rgb(0x3d, 0xc1, 0xd3), Color::Rgb(0x63, 0xcd, 0xda)),
            // pink
            Self::Scale => (Color::Rgb(0xf7, 0x8f, 0xb3), Color::Rgb(0xf8, 0xa5, 0xc2)),
            // dark pink
            Self::Arpeggio => (Color::Rgb(0xc4, 0x45, 0x69), Color::Rgb(0xcf, 0x6a, 0x87)),
            // orange
            Self::Tuning => (Color::Rgb(0xf1, 0x90, 0x66), Color::Rgb(0xf3, 0xa6, 0x83)),
            // gray
            Self::Step => (Color::Rgb(0x30, 0x39, 0x52), Color::Rgb(0x59, 0x62, 0x75)),
            Self::Debug => (Color::DebugColor, Color::DebugColor),
        }
    }

    #[verifier::when_used_as_spec(spec_palette)]
    pub fn palette(self) -> (palette: Palette)
        ensures
            palette == self.spec_palette(),
    {
        let (background, foreground) = self.palette_();
        Palette { background, foreground }
    }
}

} // verus!
