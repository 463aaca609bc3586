//! Pitches and the sound events that instruments produce.

use vstd::prelude::*;

verus! {

/// A scale degree between 0 and [`Pitch::MAX`], both included.
#[derive(Debug, Clone, Copy, PartialEq, Eq, Structural)]
pub struct Pitch(u8);

impl Pitch {
    pub const MAX: u8 = 7;

    /// Every pitch that exists at run time lies on the eight-level scale.
    #[verifier::type_invariant]
    pub closed spec fn on_scale(self) -> bool {
        self.0 <= 7
    }

    /// The scale degree of this pitch.
    pub closed spec fn spec_semitones(self) -> u8 {
        self.0
    }

    /// The pitch with the given scale degree.
    pub closed spec fn spec_new(value: u8) -> Pitch {
        Pitch(value)
    }

    /// The pitch `amount` degrees up the scale, wrapping after the top.
    pub open spec fn spec_increment_by(self, amount: u8) -> Pitch {
        Pitch::spec_new(((self.spec_semitones() + amount) % 8) as u8)
    }

    #[verifier::when_used_as_spec(spec_new)]
    pub fn new(value: u8) -> (pitch: Pitch)
        requires
            value <= Pitch::MAX,
        ensures
            pitch == Pitch::spec_new(value),
            pitch.spec_semitones() == value,
    {
        Pitch(value)
    }

    #[verifier::when_used_as_spec(spec_increment_by)]
    pub fn increment_by(self, amount: u8) -> (pitch: Pitch)
        ensures
            pitch == self.spec_increment_by(amount),
            pitch.spec_semitones() == (self.spec_semitones() + amount) % 8,
    {
        let sum: u16 = self.0 as u16 + amount as u16;
        Pitch((sum % 8) as u8)
    }

    #[verifier::when_used_as_spec(spec_semitones)]
    pub fn semitones(self) -> (degree: u8)
        ensures
            degree == self.spec_semitones(),
            degree <= Pitch::MAX,
    {
        proof {
            use_type_invariant(&self);
        }
        self.0
    }
}

/// A pitch is its scale degree and nothing else.
pub proof fn lemma_pitch_is_its_degree(pitch: Pitch, value: u8)
    ensures
        Pitch::spec_new(value).spec_semitones() == value,
        pitch == Pitch::spec_new(pitch.spec_semitones()),
{
}

/// Raising a pitch adds to its scale degree, modulo the eight levels of the
/// scale.
pub proof fn lemma_increment_by_adds(pitch: Pitch, amount: u8)
    ensures
        pitch.spec_increment_by(amount).spec_semitones() == (pitch.spec_semitones() + amount) % 8,
        pitch.spec_increment_by(amount).spec_semitones() <= Pitch::MAX,
{
}

/// The kinds of instrument that can sound.
#[derive(Debug, Clone, Copy, PartialEq, Eq, Structural)]
pub enum Type {
    Guitar,
}

/// A sound event: an instrument sounding at a pitch.
#[derive(Debug, Clone, Copy, PartialEq, Eq, Structural)]
pub struct Sound {
    pub pitch: Pitch,
    pub ty: Type,
}

/// The name of the recording of instrument `ty` at scale degree `degree`:
/// the instrument's name, a hyphen, the degree as one digit, and `.ogg`.
pub open spec fn sample_name(ty: Type, degree: u8) -> Seq<char>
    recommends
        degree <= Pitch::MAX,
{
    let instrument = match ty {
        Type::Guitar => "guitar"@,
    };
    instrument + "-"@ + seq!["01234567"@[degree as int]] + ".ogg"@
}

impl Sound {
    /// The name of the recording to play for this sound.
    pub fn sample_for(self) -> (name: &'static str)
        ensures
            name@ == sample_name(self.ty, self.pitch.spec_semitones()),
    {
        proof {
            reveal_strlit("guitar");
            reveal_strlit("-");
            reveal_strlit("01234567");
            reveal_strlit(".ogg");
            reveal_strlit("guitar-0.ogg");
            reveal_strlit("guitar-1.ogg");
            reveal_strlit("guitar-2.ogg");
            reveal_strlit("guitar-3.ogg");
            reveal_strlit("guitar-4.ogg");
            reveal_strlit("guitar-5.ogg");
            reveal_strlit("guitar-6.ogg");
            reveal_strlit("guitar-7.ogg");
        }
        let degree = self.pitch.semitones();
        match self.ty {
            Type::Guitar => {
                if degree == 0 {
                    "guitar-0.ogg"
                } else if degree == 1 {
                    "guitar-1.ogg"
                } else if degree == 2 {
                    "guitar-2.ogg"
                } else if degree == 3 {
                    "guitar-3.ogg"
                } else if degree == 4 {
                    "guitar-4.ogg"
                } else if degree == 5 {
                    "guitar-5.ogg"
                } else if degree == 6 {
                    "guitar-6.ogg"
                } else {
                    "guitar-7.ogg"
                }
            },
        }
    }
}

} // verus!
