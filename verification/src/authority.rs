use vstd::prelude::*;

verus! {

/// The seeds of the pool authority's signing identity: the fixed
/// domain-separation bytes first, then the bump as a single byte. The reward
/// pool is controlled by no key: the host derives the authority from these
/// seeds and accepts them in place of a signature.
pub fn signer_seeds(domain: &[u8], bump: u8) -> (seeds: Vec<Vec<u8>>)
    ensures
        seeds@.len() == 2,
        seeds@[0]@ == domain@,
        seeds@[1]@ == seq![bump],
{
    let mut first: Vec<u8> = Vec::new();
    let mut i: usize = 0;
    while i < domain.len()
        invariant
            i <= domain@.len(),
            first@ == domain@.subrange(0, i as int),
        decreases domain@.len() - i,
    {
        first.push(domain[i]);
        i += 1;
    }
    let mut second: Vec<u8> = Vec::new();
    second.push(bump);
    let mut seeds: Vec<Vec<u8>> = Vec::new();
    seeds.push(first);
    seeds.push(second);
    seeds
}

} // verus!
