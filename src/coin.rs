//! Pseudorandom field elements drawn from a coin seeded by a digest.
use vstd::prelude::*;
use winterfell::crypto::hashers::Rp64_256;
use winterfell::crypto::RandomCoin;
use winterfell::math::fields::f64::BaseElement;
use winterfell::math::{FieldElement, StarkField};
use crate::field::{Felt, MODULUS};

verus! {

/// Name for the values that a fresh coin seeded with `seed` hands out over
/// `count` draws, or `None` where one of those draws fails.
pub uninterp spec fn coin_draws(seed: Seq<u8>, count: nat) -> Option<Seq<u64>>;

/// The integer values of a sequence of elements.
pub open spec fn values_of(s: Seq<Felt>) -> Seq<u64> {
    s.map_values(|f: Felt| f.value)
}

/// Relies on `RandomCoin::new` over the Rescue-Prime hasher and on
/// `RandomCoin::draw`: the sequence depends on the seed alone, and every
/// drawn value is a canonical field element.
#[verifier::external_body]
pub(crate) fn draw_elements(seed: &[u8; 32], count: usize) -> (r: Option<Vec<Felt>>)
    ensures
        r is None <==> coin_draws(seed@, count as nat) is None,
        r matches Some(v) ==> coin_draws(seed@, count as nat) == Some(values_of(v@)),
        r matches Some(v) ==> v@.len() == count,
        r matches Some(v) ==> forall|i: int| 0 <= i < v@.len() ==> v@[i].value < MODULUS,
{
    let mut coin = RandomCoin::<BaseElement, Rp64_256>::new(seed);
    let mut out = Vec::with_capacity(count);
    for _ in 0..count {
        match coin.draw::<BaseElement>() {
            Ok(e) => out.push(Felt { value: e.as_int() }),
            Err(_) => return None,
        }
    }
    Some(out)
}

} // verus!
