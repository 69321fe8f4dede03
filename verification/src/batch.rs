//! Rolling several dice at once.

use crate::die::{is_face, Die, InvalidArgument};
use vstd::prelude::*;

verus! {

/// Whether every entry of `values` can come up on a die with `faces` faces.
pub open spec fn all_faces(values: Seq<u32>, faces: nat) -> bool {
    forall|i: int| 0 <= i < values.len() ==> is_face(#[trigger] values[i] as int, faces)
}

/// What the entries of `values` add up to.
pub open spec fn total(values: Seq<u32>) -> nat
    decreases values.len(),
{
    if values.len() == 0 {
        0
    } else {
        total(values.drop_last()) + values.last() as nat
    }
}

/// The total of a batch lies between the number of dice and that number
/// times the face count: every die adds at least 1 and at most `faces`.
pub proof fn lemma_total_bounds(values: Seq<u32>, faces: nat)
    requires
        all_faces(values, faces),
    ensures
        values.len() <= total(values) <= values.len() * faces,
    decreases values.len(),
{
    if values.len() > 0 {
        let rest = values.drop_last();
        lemma_total_bounds(rest, faces);
        assert(is_face(values.last() as int, faces));
        assert(values.len() * faces == rest.len() * faces + faces) by (nonlinear_arith)
            requires
                values.len() == rest.len() + 1,
        ;
    }
}

/// Rolls `amount` dice with `faces` faces each and returns what each one
/// showed, in the order in which they were rolled.
///
/// A face count of zero is rejected before any die is rolled. Rolling no
/// dice is no error: the result is then empty.
pub fn roll(amount: u32, faces: u32) -> (rolled: Result<Vec<u32>, InvalidArgument>)
    ensures
        faces == 0 ==> rolled == Err::<Vec<u32>, InvalidArgument>(InvalidArgument),
        faces >= 1 ==> rolled is Ok,
        rolled matches Ok(values) ==> {
            &&& values@.len() == amount
            &&& all_faces(values@, faces as nat)
            &&& amount == 0 ==> values@ == Seq::<u32>::empty()
        },
{
    let die = match Die::new(faces) {
        Ok(die) => die,
        Err(rejected) => {
            return Err(rejected);
        },
    };
    let mut results: Vec<u32> = Vec::with_capacity(amount as usize);
    let mut rolled_so_far: u32 = 0;
    while rolled_so_far < amount
        invariant
            rolled_so_far <= amount,
            results@.len() == rolled_so_far,
            die@ == faces,
            all_faces(results@, faces as nat),
        decreases amount - rolled_so_far,
    {
        let value = die.roll();
        results.push(value);
        rolled_so_far = rolled_so_far + 1;
    }
    Ok(results)
}

} // verus!
