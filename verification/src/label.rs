use vstd::prelude::*;

verus! {

/// The closed label space: the code of a species name, if it has one.
pub open spec fn label_code(name: Seq<char>) -> Option<u8> {
    if name == "setosa"@ {
        Some(0u8)
    } else if name == "versicolor"@ {
        Some(1u8)
    } else if name == "virginica"@ {
        Some(2u8)
    } else {
        None
    }
}

/// Number of species in the label space; every code is below it.
pub const SPECIES_COUNT: u8 = 3;

/// Encodes a species name. `None` exactly for names outside the label space.
pub fn encode(name: &str) -> (code: Option<u8>)
    ensures
        code == label_code(name@),
        code matches Some(c) ==> c < SPECIES_COUNT,
{
    let owned = name.to_owned();
    if owned == "setosa".to_owned() {
        Some(0u8)
    } else if owned == "versicolor".to_owned() {
        Some(1u8)
    } else if owned == "virginica".to_owned() {
        Some(2u8)
    } else {
        None
    }
}

} // verus!
