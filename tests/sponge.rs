use miden_trace::sponge::{
    add_constants, apply_inv_mds, apply_inv_sbox, apply_mds, apply_round, apply_sbox, Felt128,
    ARK, INV_ALPHA, MDS, MODULUS, NUM_ROUNDS,
};

fn state(vals: [u128; 4]) -> Vec<Felt128> {
    vals.iter().map(|v| Felt128::new(*v)).collect()
}

#[test]
fn round_is_deterministic() {
    let mut a = state([1, 2, 3, 4]);
    let mut b = state([1, 2, 3, 4]);
    apply_round(&mut a, Felt128::new(5), Felt128::new(6), 17);
    apply_round(&mut b, Felt128::new(5), Felt128::new(6), 17);
    assert_eq!(a, b);
    assert_ne!(a, state([1, 2, 3, 4]));
    // step 17 uses the same constants as step 1
    let mut c = state([1, 2, 3, 4]);
    apply_round(&mut c, Felt128::new(5), Felt128::new(6), 1);
    assert_eq!(a, c);
    // the injected values matter
    let mut d = state([1, 2, 3, 4]);
    apply_round(&mut d, Felt128::new(5), Felt128::new(7), 17);
    assert_ne!(a, d);
}

#[test]
fn round_matches_its_steps() {
    let mut a = state([11, 22, 33, 44]);
    apply_round(&mut a, Felt128::new(8), Felt128::new(9), 3 + NUM_ROUNDS);
    let mut b = state([11, 22, 33, 44]);
    add_constants(&mut b, 3, 0);
    apply_sbox(&mut b);
    apply_mds(&mut b);
    b[0] = b[0].add(Felt128::new(8));
    b[1] = b[1].add(Felt128::new(9));
    add_constants(&mut b, 3, 4);
    apply_inv_sbox(&mut b);
    apply_mds(&mut b);
    assert_eq!(a, b);
}

#[test]
fn sbox_then_inverse_sbox_is_identity() {
    for v in [0u128, 1, 2, 12345, MODULUS - 1, 1 << 100] {
        let mut s = state([v, v + 1, v / 3, 7]);
        let orig = s.clone();
        apply_sbox(&mut s);
        apply_inv_sbox(&mut s);
        assert_eq!(s, orig);
    }
}

#[test]
fn sbox_cubes() {
    let mut s = state([2, 3, 0, MODULUS - 1]);
    apply_sbox(&mut s);
    assert_eq!(s, state([8, 27, 0, MODULUS - 1]));
    assert_eq!(Felt128::new(3).exp(INV_ALPHA).exp(3), Felt128::new(3));
}

#[test]
fn mds_round_trip() {
    let mut s = state([5, MODULUS - 2, 1 << 127, 99]);
    let orig = s.clone();
    apply_mds(&mut s);
    assert_ne!(s, orig);
    apply_inv_mds(&mut s);
    assert_eq!(s, orig);
}

#[test]
fn mds_of_unit_vector_is_first_column() {
    let mut s = state([1, 0, 0, 0]);
    apply_mds(&mut s);
    assert_eq!(s, state([MDS[0], MDS[4], MDS[8], MDS[12]]));
}

#[test]
fn constants_are_added() {
    let mut s = state([0, 0, 0, 1]);
    add_constants(&mut s, 5, 4);
    assert_eq!(
        s,
        vec![
            Felt128::new(ARK[4][5]),
            Felt128::new(ARK[5][5]),
            Felt128::new(ARK[6][5]),
            Felt128::new(ARK[7][5]).add(Felt128::new(1)),
        ]
    );
}

#[test]
fn field_wraps_at_modulus() {
    assert_eq!(Felt128::new(MODULUS).value, 0);
    assert_eq!(Felt128::new(MODULUS - 1).add(Felt128::new(2)).value, 1);
    assert_eq!(Felt128::new(MODULUS - 1).mul(Felt128::new(MODULUS - 1)).value, 1);
}
