use vstd::prelude::*;

verus! {

/// The curve along which a shape moves.
#[derive(Debug, Clone, Copy, PartialEq, Eq, Structural)]
pub enum MathFunc {
    Linear,
    Parabolic,
    Sin,
}

/// A field holds none of the words that its column allows.
#[derive(Debug, Clone, Copy, PartialEq, Eq, Structural)]
pub struct InvalidWord {}

impl InvalidWord {
    /// The error in a few words.
    pub fn description(&self) -> (text: &'static str)
        ensures
            text@ == "invalid math function"@,
    {
        "invalid math function"
    }
}

/// The word `lin` in ASCII.
pub open spec fn word_lin() -> Seq<u8> {
    seq![0x6cu8, 0x69u8, 0x6eu8]
}

/// The word `par` in ASCII.
pub open spec fn word_par() -> Seq<u8> {
    seq![0x70u8, 0x61u8, 0x72u8]
}

/// The word `sin` in ASCII.
pub open spec fn word_sin() -> Seq<u8> {
    seq![0x73u8, 0x69u8, 0x6eu8]
}

/// The three bytes are exactly the given ones.
pub fn is_word3(field: &[u8], a: u8, b: u8, c: u8) -> (same: bool)
    ensures
        same == (field@ == seq![a, b, c]),
{
    if field.len() == 3 {
        let same = field[0] == a && field[1] == b && field[2] == c;
        proof {
            if same {
                assert(field@ =~= seq![a, b, c]);
            } else {
                assert(seq![a, b, c][0] == a && seq![a, b, c][1] == b && seq![a, b, c][2] == c);
            }
        }
        same
    } else {
        proof {
            assert(seq![a, b, c].len() == 3);
        }
        false
    }
}

impl MathFunc {
    /// The curve that a field names.
    pub open spec fn named(field: Seq<u8>) -> Result<MathFunc, InvalidWord> {
        if field == word_lin() {
            Ok(MathFunc::Linear)
        } else if field == word_par() {
            Ok(MathFunc::Parabolic)
        } else if field == word_sin() {
            Ok(MathFunc::Sin)
        } else {
            Err(InvalidWord {  })
        }
    }

    /// Reads a field: `lin`, `par` or `sin`, and nothing else.
    pub fn decode(field: &[u8]) -> (func: Result<MathFunc, InvalidWord>)
        ensures
            func == Self::named(field@),
    {
        if is_word3(field, 0x6c, 0x69, 0x6e) {
            Ok(MathFunc::Linear)
        } else if is_word3(field, 0x70, 0x61, 0x72) {
            Ok(MathFunc::Parabolic)
        } else if is_word3(field, 0x73, 0x69, 0x6e) {
            Ok(MathFunc::Sin)
        } else {
            Err(InvalidWord {  })
        }
    }
}

/// An index lay outside the vector it was meant for.
#[derive(Debug, Clone, Copy, PartialEq, Eq, Structural)]
pub struct OutOfBoundsError {}

impl OutOfBoundsError {
    /// The error in a few words.
    pub fn message(&self) -> (text: &'static str)
        ensures
            text@ == "out of bounds error"@,
    {
        "out of bounds error"
    }

    /// What went wrong.
    pub fn description(&self) -> (text: &'static str)
        ensures
            text@ == "request to index outside bounds of vector"@,
    {
        "request to index outside bounds of vector"
    }
}

} // verus!
