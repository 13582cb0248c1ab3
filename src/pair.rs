use vstd::prelude::*;

verus! {

/// Adds the two members of a pair.
pub fn somar(numeros: (i32, i32)) -> (r: i32)
    requires
        i32::MIN <= numeros.0 + numeros.1 <= i32::MAX,
    ensures
        r == numeros.0 + numeros.1,
{
    let (n1, n2) = numeros;
    n1 + n2
}

} // verus!
