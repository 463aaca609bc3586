use hanlon::sound::{Pitch, Sound, Type};

#[test]
fn pitch_keeps_its_degree() {
    for value in 0..=7u8 {
        assert_eq!(Pitch::new(value).semitones(), value);
    }
    assert_eq!(Pitch::MAX, 7);
}

#[test]
fn increment_by_wraps_modulo_eight() {
    for p in 0..=7u8 {
        for k in 0..=255u8 {
            let expected = ((u32::from(p) + u32::from(k)) % 8) as u8;
            assert_eq!(Pitch::new(p).increment_by(k).semitones(), expected);
        }
    }
}

#[test]
fn increment_by_examples() {
    assert_eq!(Pitch::new(3).increment_by(6).semitones(), 1);
    assert_eq!(Pitch::new(7).increment_by(1).semitones(), 0);
    assert_eq!(Pitch::new(0).increment_by(0).semitones(), 0);
    assert_eq!(Pitch::new(5).increment_by(255).semitones(), 4);
}

#[test]
fn sample_for_names_the_recording_of_each_degree() {
    let names = [
        "guitar-0.ogg",
        "guitar-1.ogg",
        "guitar-2.ogg",
        "guitar-3.ogg",
        "guitar-4.ogg",
        "guitar-5.ogg",
        "guitar-6.ogg",
        "guitar-7.ogg",
    ];
    for degree in 0..=7u8 {
        let sound = Sound { pitch: Pitch::new(degree), ty: Type::Guitar };
        assert_eq!(sound.sample_for(), names[usize::from(degree)]);
    }
}
