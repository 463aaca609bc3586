use hanlon::project::colors::{Category, Color, Palette};

#[test]
fn each_family_has_its_colours() {
    let cases = [
        (Category::Emitter, (0xe6, 0x67, 0x67), (0xea, 0x86, 0x85)),
        (Category::Routing, (0xf5, 0xcd, 0x79), (0xf7, 0xd7, 0x94)),
        (Category::Drum, (0x54, 0x6d, 0xe5), (0xf3, 0xa6, 0x83)),
        (Category::Instrument, (0x57, 0x4b, 0x90), (0x78, 0x6f, 0xa6)),
        (Category::Tone, (0x3d, 0xc1, 0xd3), (0x63, 0xcd, 0xda)),
        (Category::Scale, (0xf7, 0x8f, 0xb3), (0xf8, 0xa5, 0xc2)),
        (Category::Arpeggio, (0xc4, 0x45, 0x69), (0xcf, 0x6a, 0x87)),
        (Category::Tuning, (0xf1, 0x90, 0x66), (0xf3, 0xa6, 0x83)),
        (Category::Step, (0x30, 0x39, 0x52), (0x59, 0x62, 0x75)),
    ];
    for (category, back, fore) in cases {
        assert_eq!(
            category.palette(),
            Palette {
                background: Color::Rgb(back.0, back.1, back.2),
                foreground: Color::Rgb(fore.0, fore.1, fore.2),
            }
        );
    }
}

#[test]
fn debug_family_is_drawn_in_the_marker_colour() {
    assert_eq!(
        Category::Debug.palette(),
        Palette { background: Color::DebugColor, foreground: Color::DebugColor }
    );
}
