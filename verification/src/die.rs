//! A single die.

use crate::entropy::draw_inclusive;
use vstd::prelude::*;

verus! {

/// The one error of this library: a face count that is not positive.
#[derive(Clone, Copy, Debug, PartialEq, Eq)]
pub struct InvalidArgument;

/// Whether `value` can come up on a die with `faces` faces: the faces are
/// numbered from 1 to `faces`, both included.
pub open spec fn is_face(value: int, faces: nat) -> bool {
    1 <= value <= faces
}

/// A die with a fixed number of faces, at least one.
///
/// A die is immutable: no method changes the face count it was made with.
#[derive(Clone, Copy, Debug, PartialEq, Eq)]
pub struct Die {
    faces: u32,
}

impl View for Die {
    type V = nat;

    /// A die is modelled by its number of faces.
    closed spec fn view(&self) -> nat {
        self.faces as nat
    }
}

impl Die {
    /// Every die has at least one face.
    #[verifier::type_invariant]
    spec fn positive(self) -> bool {
        self.faces >= 1
    }

    /// Makes a die with `faces` faces, or rejects a face count of zero.
    pub fn new(faces: u32) -> (made: Result<Die, InvalidArgument>)
        ensures
            faces >= 1 ==> made is Ok && made->Ok_0@ == faces,
            faces == 0 ==> made == Err::<Die, InvalidArgument>(InvalidArgument),
    {
        if faces == 0 {
            Err(InvalidArgument)
        } else {
            Ok(Die { faces })
        }
    }

    /// The number of faces, which is never zero.
    pub fn faces(&self) -> (count: u32)
        ensures
            count == self@,
            count >= 1,
    {
        proof {
            use_type_invariant(self);
        }
        self.faces
    }

    /// Rolls the die once: a face of this die, drawn at random.
    ///
    /// A die with a single face always shows 1.
    pub fn roll(&self) -> (value: u32)
        ensures
            is_face(value as int, self@),
            self@ == 1 ==> value == 1,
    {
        proof {
            use_type_invariant(self);
        }
        draw_inclusive(1, self.faces)
    }
}

impl Default for Die {
    /// The default die has twenty faces.
    fn default() -> (die: Die)
        ensures
            die@ == 20,
    {
        Die { faces: 20 }
    }
}

} // verus!
