use vstd::prelude::*;

verus! {

/// Countries whose markets the library knows.
#[derive(Debug, Clone, Copy, PartialEq, Eq, Structural, Hash)]
pub enum Countries {
    FR,
    DE,
    BE,
    ES,
    IT,
    PT,
}

} // verus!
