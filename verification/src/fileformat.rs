use crate::types::{is_word3, InvalidWord};
use vstd::prelude::*;

verus! {

/// Which of the colored shapes a line of a scene asks for.
#[derive(Debug, Clone, Copy, PartialEq, Eq, Structural)]
pub enum ShapeType {
    Rect,
    Triangle,
}

/// The word `rect` in ASCII.
pub open spec fn word_rect() -> Seq<u8> {
    seq![0x72u8, 0x65u8, 0x63u8, 0x74u8]
}

/// The word `tri` in ASCII.
pub open spec fn word_tri() -> Seq<u8> {
    seq![0x74u8, 0x72u8, 0x69u8]
}

impl ShapeType {
    /// The shape that a field names.
    pub open spec fn named(field: Seq<u8>) -> Result<ShapeType, InvalidWord> {
        if field == word_rect() {
            Ok(ShapeType::Rect)
        } else if field == word_tri() {
            Ok(ShapeType::Triangle)
        } else {
            Err(InvalidWord {  })
        }
    }

    /// Reads a field: `rect` or `tri`, and nothing else.
    pub fn decode(field: &[u8]) -> (shape: Result<ShapeType, InvalidWord>)
        ensures
            shape == Self::named(field@),
    {
        if field.len() == 4 {
            if field[0] == 0x72 && field[1] == 0x65 && field[2] == 0x63 && field[3] == 0x74 {
                proof {
                    assert(field@ =~= word_rect());
                }
                Ok(ShapeType::Rect)
            } else {
                proof {
                    let w = word_rect();
                    assert(w[0] == 0x72 && w[1] == 0x65 && w[2] == 0x63 && w[3] == 0x74);
                    assert(word_tri().len() == 3);
                }
                Err(InvalidWord {  })
            }
        } else {
            proof {
                assert(word_rect().len() == 4);
            }
            if is_word3(field, 0x74, 0x72, 0x69) {
                Ok(ShapeType::Triangle)
            } else {
                Err(InvalidWord {  })
            }
        }
    }
}

} // verus!
