//! A modified Rescue round over the 128-bit prime field, the permutation
//! behind the sponge: the operation code and value are injected into the
//! state in the middle of the round.
use vstd::prelude::*;
use vstd::arithmetic::power::pow;
use winterfell::math::fields::f128::BaseElement;
use winterfell::math::{FieldElement, StarkField};

verus! {

/// The field modulus, 2^128 - 45 * 2^40 + 1.
pub const MODULUS: u128 = 340282366920938463463374557953744961537;

/// Number of elements in the sponge state.
pub const STATE_WIDTH: usize = 4;

/// Number of rounds in one cycle of the round constants.
pub const NUM_ROUNDS: usize = 16;

/// Exponent of the S-box.
pub const ALPHA: u128 = 3;

/// Exponent of the inverse S-box.
pub const INV_ALPHA: u128 = 226854911280625642308916371969163307691;

/// An element of the 128-bit field, held as its integer value.
#[derive(Clone, Copy, Debug, PartialEq, Eq, Structural)]
pub struct Felt128 {
    pub value: u128,
}

impl Felt128 {
    pub open spec fn wf(self) -> bool {
        self.value < MODULUS
    }

    /// The element that stands for `v`.
    pub fn new(v: u128) -> (r: Felt128)
        ensures
            r.value == v % MODULUS,
    {
        Felt128 { value: reduce128(v) }
    }

    pub fn add(self, rhs: Felt128) -> (r: Felt128)
        requires
            self.wf(),
            rhs.wf(),
        ensures
            r.value == (self.value + rhs.value) % (MODULUS as int),
    {
        Felt128 { value: add128(self.value, rhs.value) }
    }

    pub fn mul(self, rhs: Felt128) -> (r: Felt128)
        requires
            self.wf(),
            rhs.wf(),
        ensures
            r.value == (self.value * rhs.value) % (MODULUS as int),
    {
        Felt128 { value: mul128(self.value, rhs.value) }
    }

    /// This element raised to the power `e`.
    pub fn exp(self, e: u128) -> (r: Felt128)
        requires
            self.wf(),
        ensures
            r.value == pow(self.value as int, e as nat) % (MODULUS as int),
    {
        Felt128 { value: exp128(self.value, e) }
    }
}

/// Relies on `BaseElement::new` and `as_int` of the 128-bit field: the residue of `v`.
#[verifier::external_body]
fn reduce128(v: u128) -> (r: u128)
    ensures
        r == v % MODULUS,
{
    BaseElement::new(v).as_int()
}

/// Relies on addition in the 128-bit field.
#[verifier::external_body]
fn add128(a: u128, b: u128) -> (r: u128)
    requires
        a < MODULUS,
        b < MODULUS,
    ensures
        r == (a + b) % (MODULUS as int),
{
    (BaseElement::new(a) + BaseElement::new(b)).as_int()
}

/// Relies on multiplication in the 128-bit field.
#[verifier::external_body]
fn mul128(a: u128, b: u128) -> (r: u128)
    requires
        a < MODULUS,
        b < MODULUS,
    ensures
        r == (a * b) % (MODULUS as int),
{
    (BaseElement::new(a) * BaseElement::new(b)).as_int()
}

/// Relies on `FieldElement::exp` in the 128-bit field: `a` to the power `e`.
#[verifier::external_body]
fn exp128(a: u128, e: u128) -> (r: u128)
    requires
        a < MODULUS,
    ensures
        r == pow(a as int, e as nat) % (MODULUS as int),
{
    BaseElement::new(a).exp(e).as_int()
}

// STATE TRANSFORMATIONS
// ================================================================================================

/// A sponge state: `STATE_WIDTH` field elements.
pub open spec fn state_wf(s: Seq<Felt128>) -> bool {
    &&& s.len() == STATE_WIDTH
    &&& forall|i: int| 0 <= i < STATE_WIDTH ==> (#[trigger] s[i]).wf()
}

/// The state with round constants `ARK[offset + i][idx]` added to element `i`.
pub open spec fn add_constants_spec(s: Seq<Felt128>, idx: int, offset: int) -> Seq<Felt128> {
    Seq::new(
        STATE_WIDTH as nat,
        |i: int| Felt128 { value: ((s[i].value + ARK@[offset + i]@[idx] % MODULUS) % (MODULUS as int)) as u128 },
    )
}

/// The state with every element raised to the power `e`.
pub open spec fn power_spec(s: Seq<Felt128>, e: u128) -> Seq<Felt128> {
    Seq::new(
        STATE_WIDTH as nat,
        |i: int| Felt128 { value: (pow(s[i].value as int, e as nat) % (MODULUS as int)) as u128 },
    )
}

/// The sum of the first `j` products of row `i` of `m` with the state, as
/// accumulated in the field.
pub open spec fn row_sum(m: Seq<u128>, s: Seq<Felt128>, i: int, j: nat) -> u128
    decreases j,
{
    if j == 0 {
        0
    } else {
        let t = ((m[i * STATE_WIDTH + j - 1] % MODULUS) * s[j - 1].value) % (MODULUS as int);
        ((row_sum(m, s, i, (j - 1) as nat) + t) % (MODULUS as int)) as u128
    }
}

/// The product of the matrix `m`, given row by row, with the state.
pub open spec fn matrix_spec(m: Seq<u128>, s: Seq<Felt128>) -> Seq<Felt128> {
    Seq::new(STATE_WIDTH as nat, |i: int| Felt128 { value: row_sum(m, s, i, STATE_WIDTH as nat) })
}

/// The state with the operation code added to element 0 and the operation
/// value added to element 1.
pub open spec fn inject_spec(s: Seq<Felt128>, op_code: Felt128, op_value: Felt128) -> Seq<Felt128> {
    s.update(0, Felt128 { value: ((s[0].value + op_code.value) % (MODULUS as int)) as u128 }).update(
        1,
        Felt128 { value: ((s[1].value + op_value.value) % (MODULUS as int)) as u128 },
    )
}

/// One round of the permutation at round `step`.
pub open spec fn round_spec(s: Seq<Felt128>, op_code: Felt128, op_value: Felt128, step: int) -> Seq<Felt128> {
    let idx = step % (NUM_ROUNDS as int);
    let first = matrix_spec(MDS@, power_spec(add_constants_spec(s, idx, 0), ALPHA));
    let injected = inject_spec(first, op_code, op_value);
    matrix_spec(MDS@, power_spec(add_constants_spec(injected, idx, STATE_WIDTH as int), INV_ALPHA))
}

/// Executes a modified [Rescue](https://eprint.iacr.org/2019/426) round in
/// which the inputs are injected into the state in the middle of the round.
/// The modification departs from Rescue as published, and its security has
/// not been established.
pub fn apply_round(state: &mut Vec<Felt128>, op_code: Felt128, op_value: Felt128, step: usize)
    requires
        state_wf(old(state)@),
        op_code.wf(),
        op_value.wf(),
    ensures
        final(state)@ == round_spec(old(state)@, op_code, op_value, step as int),
        state_wf(final(state)@),
{
    let ark_idx = step % NUM_ROUNDS;

    // apply first half of Rescue round
    add_constants(state, ark_idx, 0);
    apply_sbox(state);
    apply_mds(state);

    // inject value into the state
    let s0 = state[0].add(op_code);
    state.set(0, s0);
    let s1 = state[1].add(op_value);
    state.set(1, s1);

    // apply second half of Rescue round
    add_constants(state, ark_idx, STATE_WIDTH);
    apply_inv_sbox(state);
    apply_mds(state);
}

/// Adds the round constants `ARK[offset + i][idx]` to the state.
pub fn add_constants(state: &mut Vec<Felt128>, idx: usize, offset: usize)
    requires
        state_wf(old(state)@),
        idx < NUM_ROUNDS,
        offset + STATE_WIDTH <= 2 * STATE_WIDTH,
    ensures
        final(state)@ == add_constants_spec(old(state)@, idx as int, offset as int),
        state_wf(final(state)@),
{
    let mut i: usize = 0;
    while i < STATE_WIDTH
        invariant
            idx < NUM_ROUNDS,
            offset + STATE_WIDTH <= 2 * STATE_WIDTH,
            i <= STATE_WIDTH,
            state@.len() == STATE_WIDTH,
            state_wf(state@),
            forall|k: int| 0 <= k < i ==> #[trigger] state@[k] == add_constants_spec(old(state)@, idx as int, offset as int)[k],
            forall|k: int| i <= k < STATE_WIDTH ==> #[trigger] state@[k] == old(state)@[k],
        decreases STATE_WIDTH - i,
    {
        let c = Felt128::new(ARK[offset + i][idx]);
        let v = state[i].add(c);
        state.set(i, v);
        i += 1;
    }
    assert(state@ =~= add_constants_spec(old(state)@, idx as int, offset as int));
}

/// Raises every element of the state to the power `e`.
fn apply_power(state: &mut Vec<Felt128>, e: u128)
    requires
        state_wf(old(state)@),
    ensures
        final(state)@ == power_spec(old(state)@, e),
        state_wf(final(state)@),
{
    let mut i: usize = 0;
    while i < STATE_WIDTH
        invariant
            i <= STATE_WIDTH,
            state@.len() == STATE_WIDTH,
            state_wf(state@),
            forall|k: int| 0 <= k < i ==> #[trigger] state@[k] == power_spec(old(state)@, e)[k],
            forall|k: int| i <= k < STATE_WIDTH ==> #[trigger] state@[k] == old(state)@[k],
        decreases STATE_WIDTH - i,
    {
        let v = state[i].exp(e);
        state.set(i, v);
        i += 1;
    }
    assert(state@ =~= power_spec(old(state)@, e));
}

/// Applies the S-box, the power map `x^ALPHA`, to every element of the state.
pub fn apply_sbox(state: &mut Vec<Felt128>)
    requires
        state_wf(old(state)@),
    ensures
        final(state)@ == power_spec(old(state)@, ALPHA),
        state_wf(final(state)@),
{
    apply_power(state, ALPHA)
}

/// Applies the inverse S-box, the power map `x^INV_ALPHA`, to every element of the state.
pub fn apply_inv_sbox(state: &mut Vec<Felt128>)
    requires
        state_wf(old(state)@),
    ensures
        final(state)@ == power_spec(old(state)@, INV_ALPHA),
        state_wf(final(state)@),
{
    apply_power(state, INV_ALPHA)
}

/// Replaces the state by its product with the matrix `m`, given row by row.
fn apply_matrix(state: &mut Vec<Felt128>, m: &[u128; 16])
    requires
        state_wf(old(state)@),
    ensures
        final(state)@ == matrix_spec(m@, old(state)@),
        state_wf(final(state)@),
{
    let mut result: Vec<Felt128> = Vec::with_capacity(STATE_WIDTH);
    let mut i: usize = 0;
    while i < STATE_WIDTH
        invariant
            state_wf(state@),
            i <= STATE_WIDTH,
            result@.len() == i,
            forall|k: int| 0 <= k < i ==> #[trigger] result@[k] == matrix_spec(m@, state@)[k],
        decreases STATE_WIDTH - i,
    {
        let mut acc = Felt128 { value: 0 };
        let mut j: usize = 0;
        while j < STATE_WIDTH
            invariant
                state_wf(state@),
                i < STATE_WIDTH,
                j <= STATE_WIDTH,
                acc.value == row_sum(m@, state@, i as int, j as nat),
            decreases STATE_WIDTH - j,
        {
            let temp = Felt128::new(m[i * STATE_WIDTH + j]).mul(state[j]);
            acc = acc.add(temp);
            j += 1;
        }
        result.push(acc);
        i += 1;
    }
    assert(result@ =~= matrix_spec(m@, state@));
    *state = result;
}

/// Applies the linear mixing transform to the state.
pub fn apply_mds(state: &mut Vec<Felt128>)
    requires
        state_wf(old(state)@),
    ensures
        final(state)@ == matrix_spec(MDS@, old(state)@),
        state_wf(final(state)@),
{
    apply_matrix(state, &MDS)
}

/// Applies the inverse of the linear mixing transform to the state.
pub fn apply_inv_mds(state: &mut Vec<Felt128>)
    requires
        state_wf(old(state)@),
    ensures
        final(state)@ == matrix_spec(INV_MDS@, old(state)@),
        state_wf(final(state)@),
{
    apply_matrix(state, &INV_MDS)
}

// THE MIXING ROUND TRIP
// ================================================================================================

/// The sum of the first `j` products of row `i` of `m` with the state, in the integers.
pub open spec fn row_sum_int(m: Seq<u128>, s: Seq<Felt128>, i: int, j: nat) -> int
    decreases j,
{
    if j == 0 {
        0
    } else {
        row_sum_int(m, s, i, (j - 1) as nat) + (m[i * STATE_WIDTH + j - 1] % MODULUS) * s[j - 1].value
    }
}

/// A row sum accumulated in the field is the integer row sum reduced once.
proof fn lemma_row_sum(m: Seq<u128>, s: Seq<Felt128>, i: int, j: nat)
    ensures
        row_sum(m, s, i, j) == row_sum_int(m, s, i, j) % (MODULUS as int),
    decreases j,
{
    if j > 0 {
        lemma_row_sum(m, s, i, (j - 1) as nat);
        let x = row_sum_int(m, s, i, (j - 1) as nat);
        let y = (m[i * STATE_WIDTH + j - 1] % MODULUS) * s[j - 1].value;
        vstd::arithmetic::div_mod::lemma_add_mod_noop(x, y, MODULUS as int);
        vstd::arithmetic::div_mod::lemma_mod_twice(y, MODULUS as int);
    }
}

/// Row 0 of the inverse matrix undoes the mixing on element 0.
proof fn lemma_inverse_row_0(s0: int, s1: int, s2: int, s3: int, y0: int, y1: int, y2: int, y3: int)
    requires
        0 <= s0 < MODULUS,
        0 <= s1 < MODULUS,
        0 <= s2 < MODULUS,
        0 <= s3 < MODULUS,
        y0 == (315189521614069403867817270152032075784 * s0 + 10737242274749505456268020883296531251 * s1 + 164166492670388427786346110319108935134 * s2 + 282318813916891806489021925524031494414 * s3) % (MODULUS as int),
        y1 == (339659984245804546554434478921876908973 * s0 + 97319381058524916656000376979320858814 * s1 + 141017807671871944240242749183803053011 * s2 + 271669633517564511702965675947905678154 * s3) % (MODULUS as int),
        y2 == (330029911818464578106380298339390343164 * s0 + 37351365266361901988170671462637236976 * s1 + 260386862860725098262319886102680637202 * s2 + 161805458319902660573511017706877187889 * s3) % (MODULUS as int),
        y3 == (220775330812333365987157544144955631442 * s0 + 172992909845374020745323861886602514703 * s1 + 8447293670850292346208742365584924315 * s2 + 276315004099450287580088164954743181255 * s3) % (MODULUS as int),
    ensures
        (212015899302823985314659753132599968692 * y0 + 222079945358547787481366483464725880498 * y1 + 313947036552775452548888741999726656951 * y2 + 94528877516599685906969597450601957552 * y3) % (MODULUS as int) == s0,
{
    let l0 = 315189521614069403867817270152032075784 * s0 + 10737242274749505456268020883296531251 * s1 + 164166492670388427786346110319108935134 * s2 + 282318813916891806489021925524031494414 * s3;
    vstd::arithmetic::div_mod::lemma_fundamental_div_mod(l0, MODULUS as int);
    let t0 = l0 / (MODULUS as int);
    let l1 = 339659984245804546554434478921876908973 * s0 + 97319381058524916656000376979320858814 * s1 + 141017807671871944240242749183803053011 * s2 + 271669633517564511702965675947905678154 * s3;
    vstd::arithmetic::div_mod::lemma_fundamental_div_mod(l1, MODULUS as int);
    let t1 = l1 / (MODULUS as int);
    let l2 = 330029911818464578106380298339390343164 * s0 + 37351365266361901988170671462637236976 * s1 + 260386862860725098262319886102680637202 * s2 + 161805458319902660573511017706877187889 * s3;
    vstd::arithmetic::div_mod::lemma_fundamental_div_mod(l2, MODULUS as int);
    let t2 = l2 / (MODULUS as int);
    let l3 = 220775330812333365987157544144955631442 * s0 + 172992909845374020745323861886602514703 * s1 + 8447293670850292346208742365584924315 * s2 + 276315004099450287580088164954743181255 * s3;
    vstd::arithmetic::div_mod::lemma_fundamental_div_mod(l3, MODULUS as int);
    let t3 = l3 / (MODULUS as int);
    let k = (783873757625025977755434170843705252717) * s0 + (152721180934364169799346867060519714008) * s1 + (436899896070587491275114534493529476924) * s2 + (579244078056394071192679992734409023267) * s3 - (212015899302823985314659753132599968692 * t0 + 222079945358547787481366483464725880498 * t1 + 313947036552775452548888741999726656951 * t2 + 94528877516599685906969597450601957552 * t3);
    assert(212015899302823985314659753132599968692 * y0 + 222079945358547787481366483464725880498 * y1 + 313947036552775452548888741999726656951 * y2 + 94528877516599685906969597450601957552 * y3 == (MODULUS as int) * k + s0);
    vstd::arithmetic::div_mod::lemma_mod_multiples_vanish(k, s0, MODULUS as int);
    vstd::arithmetic::div_mod::lemma_small_mod(s0 as nat, MODULUS as nat);
}

/// Row 1 of the inverse matrix undoes the mixing on element 1.
proof fn lemma_inverse_row_1(s0: int, s1: int, s2: int, s3: int, y0: int, y1: int, y2: int, y3: int)
    requires
        0 <= s0 < MODULUS,
        0 <= s1 < MODULUS,
        0 <= s2 < MODULUS,
        0 <= s3 < MODULUS,
        y0 == (315189521614069403867817270152032075784 * s0 + 10737242274749505456268020883296531251 * s1 + 164166492670388427786346110319108935134 * s2 + 282318813916891806489021925524031494414 * s3) % (MODULUS as int),
        y1 == (339659984245804546554434478921876908973 * s0 + 97319381058524916656000376979320858814 * s1 + 141017807671871944240242749183803053011 * s2 + 271669633517564511702965675947905678154 * s3) % (MODULUS as int),
        y2 == (330029911818464578106380298339390343164 * s0 + 37351365266361901988170671462637236976 * s1 + 260386862860725098262319886102680637202 * s2 + 161805458319902660573511017706877187889 * s3) % (MODULUS as int),
        y3 == (220775330812333365987157544144955631442 * s0 + 172992909845374020745323861886602514703 * s1 + 8447293670850292346208742365584924315 * s2 + 276315004099450287580088164954743181255 * s3) % (MODULUS as int),
    ensures
        (201841258819571375352239737215387725848 * y0 + 42276963631701875238524357392500799145 * y1 + 332890116061360870847041499810748569092 * y2 + 3939991425276748394854935956419873430 * y3) % (MODULUS as int) == s1,
{
    let l0 = 315189521614069403867817270152032075784 * s0 + 10737242274749505456268020883296531251 * s1 + 164166492670388427786346110319108935134 * s2 + 282318813916891806489021925524031494414 * s3;
    vstd::arithmetic::div_mod::lemma_fundamental_div_mod(l0, MODULUS as int);
    let t0 = l0 / (MODULUS as int);
    let l1 = 339659984245804546554434478921876908973 * s0 + 97319381058524916656000376979320858814 * s1 + 141017807671871944240242749183803053011 * s2 + 271669633517564511702965675947905678154 * s3;
    vstd::arithmetic::div_mod::lemma_fundamental_div_mod(l1, MODULUS as int);
    let t1 = l1 / (MODULUS as int);
    let l2 = 330029911818464578106380298339390343164 * s0 + 37351365266361901988170671462637236976 * s1 + 260386862860725098262319886102680637202 * s2 + 161805458319902660573511017706877187889 * s3;
    vstd::arithmetic::div_mod::lemma_fundamental_div_mod(l2, MODULUS as int);
    let t2 = l2 / (MODULUS as int);
    let l3 = 220775330812333365987157544144955631442 * s0 + 172992909845374020745323861886602514703 * s1 + 8447293670850292346208742365584924315 * s2 + 276315004099450287580088164954743181255 * s3;
    vstd::arithmetic::div_mod::lemma_fundamental_div_mod(l3, MODULUS as int);
    let t3 = l3 / (MODULUS as int);
    let k = (554573523386695533365500345902081333745) * s0 + (57002887061608550228894763222845052607) * s1 + (369724921877520022244049174513381542453) * s2 + (362701922137712826393899473427656413320) * s3 - (201841258819571375352239737215387725848 * t0 + 42276963631701875238524357392500799145 * t1 + 332890116061360870847041499810748569092 * t2 + 3939991425276748394854935956419873430 * t3);
    assert(201841258819571375352239737215387725848 * y0 + 42276963631701875238524357392500799145 * y1 + 332890116061360870847041499810748569092 * y2 + 3939991425276748394854935956419873430 * y3 == (MODULUS as int) * k + s1);
    vstd::arithmetic::div_mod::lemma_mod_multiples_vanish(k, s1, MODULUS as int);
    vstd::arithmetic::div_mod::lemma_small_mod(s1 as nat, MODULUS as nat);
}

/// Row 2 of the inverse matrix undoes the mixing on element 2.
proof fn lemma_inverse_row_2(s0: int, s1: int, s2: int, s3: int, y0: int, y1: int, y2: int, y3: int)
    requires
        0 <= s0 < MODULUS,
        0 <= s1 < MODULUS,
        0 <= s2 < MODULUS,
        0 <= s3 < MODULUS,
        y0 == (315189521614069403867817270152032075784 * s0 + 10737242274749505456268020883296531251 * s1 + 164166492670388427786346110319108935134 * s2 + 282318813916891806489021925524031494414 * s3) % (MODULUS as int),
        y1 == (339659984245804546554434478921876908973 * s0 + 97319381058524916656000376979320858814 * s1 + 141017807671871944240242749183803053011 * s2 + 271669633517564511702965675947905678154 * s3) % (MODULUS as int),
        y2 == (330029911818464578106380298339390343164 * s0 + 37351365266361901988170671462637236976 * s1 + 260386862860725098262319886102680637202 * s2 + 161805458319902660573511017706877187889 * s3) % (MODULUS as int),
        y3 == (220775330812333365987157544144955631442 * s0 + 172992909845374020745323861886602514703 * s1 + 8447293670850292346208742365584924315 * s2 + 276315004099450287580088164954743181255 * s3) % (MODULUS as int),
    ensures
        (239100689228321601709623770733501932352 * y0 + 178946314809288623489527367841505752988 * y1 + 270128331008291756180543638308504150653 * y2 + 315661002876081483102676309387501623498 * y3) % (MODULUS as int) == s2,
{
    let l0 = 315189521614069403867817270152032075784 * s0 + 10737242274749505456268020883296531251 * s1 + 164166492670388427786346110319108935134 * s2 + 282318813916891806489021925524031494414 * s3;
    vstd::arithmetic::div_mod::lemma_fundamental_div_mod(l0, MODULUS as int);
    let t0 = l0 / (MODULUS as int);
    let l1 = 339659984245804546554434478921876908973 * s0 + 97319381058524916656000376979320858814 * s1 + 141017807671871944240242749183803053011 * s2 + 271669633517564511702965675947905678154 * s3;
    vstd::arithmetic::div_mod::lemma_fundamental_div_mod(l1, MODULUS as int);
    let t1 = l1 / (MODULUS as int);
    let l2 = 330029911818464578106380298339390343164 * s0 + 37351365266361901988170671462637236976 * s1 + 260386862860725098262319886102680637202 * s2 + 161805458319902660573511017706877187889 * s3;
    vstd::arithmetic::div_mod::lemma_fundamental_div_mod(l2, MODULUS as int);
    let t2 = l2 / (MODULUS as int);
    let l3 = 220775330812333365987157544144955631442 * s0 + 172992909845374020745323861886602514703 * s1 + 8447293670850292346208742365584924315 * s2 + 276315004099450287580088164954743181255 * s3;
    vstd::arithmetic::div_mod::lemma_fundamental_div_mod(l3, MODULUS as int);
    let t3 = l3 / (MODULUS as int);
    let k = (866878670765296574700129228753359091500) * s0 + (248849227090418510095654863120723101838) * s1 + (404050582073738344533373897168167266603) * s2 + (726005918838387766146055032952615847051) * s3 - (239100689228321601709623770733501932352 * t0 + 178946314809288623489527367841505752988 * t1 + 270128331008291756180543638308504150653 * t2 + 315661002876081483102676309387501623498 * t3);
    assert(239100689228321601709623770733501932352 * y0 + 178946314809288623489527367841505752988 * y1 + 270128331008291756180543638308504150653 * y2 + 315661002876081483102676309387501623498 * y3 == (MODULUS as int) * k + s2);
    vstd::arithmetic::div_mod::lemma_mod_multiples_vanish(k, s2, MODULUS as int);
    vstd::arithmetic::div_mod::lemma_small_mod(s2 as nat, MODULUS as nat);
}

/// Row 3 of the inverse matrix undoes the mixing on element 3.
proof fn lemma_inverse_row_3(s0: int, s1: int, s2: int, s3: int, y0: int, y1: int, y2: int, y3: int)
    requires
        0 <= s0 < MODULUS,
        0 <= s1 < MODULUS,
        0 <= s2 < MODULUS,
        0 <= s3 < MODULUS,
        y0 == (315189521614069403867817270152032075784 * s0 + 10737242274749505456268020883296531251 * s1 + 164166492670388427786346110319108935134 * s2 + 282318813916891806489021925524031494414 * s3) % (MODULUS as int),
        y1 == (339659984245804546554434478921876908973 * s0 + 97319381058524916656000376979320858814 * s1 + 141017807671871944240242749183803053011 * s2 + 271669633517564511702965675947905678154 * s3) % (MODULUS as int),
        y2 == (330029911818464578106380298339390343164 * s0 + 37351365266361901988170671462637236976 * s1 + 260386862860725098262319886102680637202 * s2 + 161805458319902660573511017706877187889 * s3) % (MODULUS as int),
        y3 == (220775330812333365987157544144955631442 * s0 + 172992909845374020745323861886602514703 * s1 + 8447293670850292346208742365584924315 * s2 + 276315004099450287580088164954743181255 * s3) % (MODULUS as int),
    ensures
        (298377528588644746682709801175581650901 * y0 + 114666605273067789843953739274063213369 * y1 + 279054651722812961169783459501878203576 * y2 + 308067640269163823896854342618197051588 * y3) % (MODULUS as int) == s3,
{
    let l0 = 315189521614069403867817270152032075784 * s0 + 10737242274749505456268020883296531251 * s1 + 164166492670388427786346110319108935134 * s2 + 282318813916891806489021925524031494414 * s3;
    vstd::arithmetic::div_mod::lemma_fundamental_div_mod(l0, MODULUS as int);
    let t0 = l0 / (MODULUS as int);
    let l1 = 339659984245804546554434478921876908973 * s0 + 97319381058524916656000376979320858814 * s1 + 141017807671871944240242749183803053011 * s2 + 271669633517564511702965675947905678154 * s3;
    vstd::arithmetic::div_mod::lemma_fundamental_div_mod(l1, MODULUS as int);
    let t1 = l1 / (MODULUS as int);
    let l2 = 330029911818464578106380298339390343164 * s0 + 37351365266361901988170671462637236976 * s1 + 260386862860725098262319886102680637202 * s2 + 161805458319902660573511017706877187889 * s3;
    vstd::arithmetic::div_mod::lemma_fundamental_div_mod(l2, MODULUS as int);
    let t2 = l2 / (MODULUS as int);
    let l3 = 220775330812333365987157544144955631442 * s0 + 172992909845374020745323861886602514703 * s1 + 8447293670850292346208742365584924315 * s2 + 276315004099450287580088164954743181255 * s3;
    vstd::arithmetic::div_mod::lemma_fundamental_div_mod(l3, MODULUS as int);
    let t3 = l3 / (MODULUS as int);
    let k = (861353022146237461609992592952123803413) * s0 + (229455394114888957726231922008102667961) * s1 + (412651792909681307717864999090342445645) * s2 + (721945435865349666784281175124808738739) * s3 - (298377528588644746682709801175581650901 * t0 + 114666605273067789843953739274063213369 * t1 + 279054651722812961169783459501878203576 * t2 + 308067640269163823896854342618197051588 * t3);
    assert(298377528588644746682709801175581650901 * y0 + 114666605273067789843953739274063213369 * y1 + 279054651722812961169783459501878203576 * y2 + 308067640269163823896854342618197051588 * y3 == (MODULUS as int) * k + s3);
    vstd::arithmetic::div_mod::lemma_mod_multiples_vanish(k, s3, MODULUS as int);
    vstd::arithmetic::div_mod::lemma_small_mod(s3 as nat, MODULUS as nat);
}

/// Applying the mixing matrix and then its inverse to any state gives the
/// state back.
pub proof fn lemma_mds_round_trip(s: Seq<Felt128>)
    requires
        state_wf(s),
    ensures
        matrix_spec(INV_MDS@, matrix_spec(MDS@, s)) == s,
{
    let y = matrix_spec(MDS@, s);
    let x = matrix_spec(INV_MDS@, y);
    assert(s[0].wf() && s[1].wf() && s[2].wf() && s[3].wf());
    let (s0, s1, s2, s3) = (s[0].value as int, s[1].value as int, s[2].value as int, s[3].value as int);
    let (y0, y1, y2, y3) = (y[0].value as int, y[1].value as int, y[2].value as int, y[3].value as int);
    assert(y0 == (315189521614069403867817270152032075784 * s0 + 10737242274749505456268020883296531251 * s1 + 164166492670388427786346110319108935134 * s2 + 282318813916891806489021925524031494414 * s3) % (MODULUS as int)) by {
        lemma_row_sum(MDS@, s, 0, 4);
        reveal_with_fuel(row_sum_int, 5);
    }
    assert(y1 == (339659984245804546554434478921876908973 * s0 + 97319381058524916656000376979320858814 * s1 + 141017807671871944240242749183803053011 * s2 + 271669633517564511702965675947905678154 * s3) % (MODULUS as int)) by {
        lemma_row_sum(MDS@, s, 1, 4);
        reveal_with_fuel(row_sum_int, 5);
    }
    assert(y2 == (330029911818464578106380298339390343164 * s0 + 37351365266361901988170671462637236976 * s1 + 260386862860725098262319886102680637202 * s2 + 161805458319902660573511017706877187889 * s3) % (MODULUS as int)) by {
        lemma_row_sum(MDS@, s, 2, 4);
        reveal_with_fuel(row_sum_int, 5);
    }
    assert(y3 == (220775330812333365987157544144955631442 * s0 + 172992909845374020745323861886602514703 * s1 + 8447293670850292346208742365584924315 * s2 + 276315004099450287580088164954743181255 * s3) % (MODULUS as int)) by {
        lemma_row_sum(MDS@, s, 3, 4);
        reveal_with_fuel(row_sum_int, 5);
    }
    assert(x[0].value == (212015899302823985314659753132599968692 * y0 + 222079945358547787481366483464725880498 * y1 + 313947036552775452548888741999726656951 * y2 + 94528877516599685906969597450601957552 * y3) % (MODULUS as int)) by {
        lemma_row_sum(INV_MDS@, y, 0, 4);
        reveal_with_fuel(row_sum_int, 5);
    }
    lemma_inverse_row_0(s0, s1, s2, s3, y0, y1, y2, y3);
    assert(x[1].value == (201841258819571375352239737215387725848 * y0 + 42276963631701875238524357392500799145 * y1 + 332890116061360870847041499810748569092 * y2 + 3939991425276748394854935956419873430 * y3) % (MODULUS as int)) by {
        lemma_row_sum(INV_MDS@, y, 1, 4);
        reveal_with_fuel(row_sum_int, 5);
    }
    lemma_inverse_row_1(s0, s1, s2, s3, y0, y1, y2, y3);
    assert(x[2].value == (239100689228321601709623770733501932352 * y0 + 178946314809288623489527367841505752988 * y1 + 270128331008291756180543638308504150653 * y2 + 315661002876081483102676309387501623498 * y3) % (MODULUS as int)) by {
        lemma_row_sum(INV_MDS@, y, 2, 4);
        reveal_with_fuel(row_sum_int, 5);
    }
    lemma_inverse_row_2(s0, s1, s2, s3, y0, y1, y2, y3);
    assert(x[3].value == (298377528588644746682709801175581650901 * y0 + 114666605273067789843953739274063213369 * y1 + 279054651722812961169783459501878203576 * y2 + 308067640269163823896854342618197051588 * y3) % (MODULUS as int)) by {
        lemma_row_sum(INV_MDS@, y, 3, 4);
        reveal_with_fuel(row_sum_int, 5);
    }
    lemma_inverse_row_3(s0, s1, s2, s3, y0, y1, y2, y3);
    assert(x =~= s);
}

// 128-BIT RESCUE CONSTANTS
// ================================================================================================

/// The linear mixing matrix, row by row.
pub const MDS: [u128; 16] = [
    315189521614069403867817270152032075784,
    10737242274749505456268020883296531251,
    164166492670388427786346110319108935134,
    282318813916891806489021925524031494414,
    339659984245804546554434478921876908973,
    97319381058524916656000376979320858814,
    141017807671871944240242749183803053011,
    271669633517564511702965675947905678154,
    330029911818464578106380298339390343164,
    37351365266361901988170671462637236976,
    260386862860725098262319886102680637202,
    161805458319902660573511017706877187889,
    220775330812333365987157544144955631442,
    172992909845374020745323861886602514703,
    8447293670850292346208742365584924315,
    276315004099450287580088164954743181255,
];

/// The inverse of the linear mixing matrix, row by row.
pub const INV_MDS: [u128; 16] = [
    212015899302823985314659753132599968692,
    222079945358547787481366483464725880498,
    313947036552775452548888741999726656951,
    94528877516599685906969597450601957552,
    201841258819571375352239737215387725848,
    42276963631701875238524357392500799145,
    332890116061360870847041499810748569092,
    3939991425276748394854935956419873430,
    239100689228321601709623770733501932352,
    178946314809288623489527367841505752988,
    270128331008291756180543638308504150653,
    315661002876081483102676309387501623498,
    298377528588644746682709801175581650901,
    114666605273067789843953739274063213369,
    279054651722812961169783459501878203576,
    308067640269163823896854342618197051588,
];

/// Round constants: rows `0..STATE_WIDTH` for the first half of a round, the
/// rest for the second half; one column per round of the cycle.
pub const ARK: [[u128; 16]; 8] = [
    [
        73742662193393629993182617210984534396,
        190338348930091047298074165559397264378,
        135862987622353414661673448620033990934,
        14395595548581550072136442264588359269,
        178527953570703982986577498890483203023,
        89333775516890774827962437297764936547,
        60517382118002481956993039132628798754,
        300207915911051460908298688414919921093,
        287288998844960276649854461883880913666,
        4363347423120340347647334422662129280,
        169061616865327291005064664270275836534,
        55063854082489962294956447144901184837,
        48405253030503584410290697712994785780,
        26236509279945457822369793146288866403,
        8168599451814692118441936734435571667,
        315851285839738308287329276161693313425,
    ],
    [
        170640173476284978302806154399958141555,
        225556280578098393163620719229418290860,
        43697512293048123577843997788308773455,
        334227022756371766478760448625337379424,
        188323096432976273265052369652285099186,
        23833044413239455428827669432473543240,
        258001239441974384951891541079242930440,
        219177966622498447376602481443936826442,
        294241649061853322876594266104693176711,
        179443458614881887600494128053111694648,
        171502007855719014010389694111716628578,
        122453723578185362799857252115182955415,
        97063282200318501142854934314343169049,
        154737674033120948700227987365296907637,
        118224404177203231307646344308524770691,
        67833038363599207475373040930824843019,
    ],
    [
        158538539401072639862099558319550076686,
        289278996656706117461857789813498821934,
        158907965876520949616863328303176330572,
        58496669788416466040038464653643977917,
        126000924558481152083098962591383883438,
        32424193637360906576442956294452323288,
        337725857612570850944445340416668827103,
        172066229584406173063202914726937339958,
        138628264101912804813977210615833233437,
        50018412546799023168899671792323407156,
        16989575615175240495557720305287640349,
        69216162599706897556278776240900218374,
        41491163124497803255407972080635378902,
        297928660776980173370496618733852490961,
        233141108584353453034002234415979233911,
        193135973972933518870828237886863798021,
    ],
    [
        2818165229115014774032882127170013258,
        11153792801390339798262783617007369172,
        138405289600908304802269329797084135857,
        249369722351358137898587699909312963803,
        263157893448998999306850171729945394432,
        43421407022492486112194101527865465264,
        323117003802246814764810890058143344905,
        267697496976874759865163284761384997437,
        116358578177298194933445426886059838431,
        339223760157195739332845857285008200423,
        185875552438512768131393810027777987752,
        228752352631998151610775212885524543283,
        96675618862527967726114378655626650641,
        253746202714926890236889780444552427226,
        61911644581679112386499312030413349074,
        196910153233132861881308509456401645140,
    ],
    [
        82429262549299942290847183493004485261,
        53265540956785335308970867946461681393,
        274633988293091071340356635555807179190,
        189653807408664613044858917026657980625,
        122001776241989922016768881111033630021,
        62033181748425106711292370817969454146,
        151495710594170316099539790651453416361,
        242872884766759335785324964049644229294,
        279904213525927510712810228623902377237,
        78065099645540746831460653583134588104,
        36224510031696203479366212612960872957,
        109862755442048596627938134642975399668,
        331958862978706756999748973740992156929,
        81691558114273932307586556761543100315,
        12234569840122312404615178877814773825,
        166002344081927954304873771936867289851,
    ],
    [
        326468515245013538774703881972225680443,
        209040028248304238735923683513240525194,
        234470815157983004947611441850027217492,
        311182552853825261047305944842224924215,
        25509259982013669682461356932775370545,
        77086595049850596660690999278719011720,
        7640791703119561504971867271087353186,
        170024582242541755392979256646565617273,
        153964862116746563988492365899737226989,
        37163237225742447359704121711857363416,
        108165142884901978856319583750672324489,
        69476260396969790693146402021744933499,
        45955200056324872841369110391855073949,
        261286087759526359216271155361018330507,
        321756280164272289841871040803703440350,
        334905318181122708043147970432770442813,
    ],
    [
        310538827479436149892724250590698914519,
        221096166077280180974764042888991644280,
        274604860873273636237081114376077113475,
        230609671293877243511889006223284127479,
        59235259390239124162891762278360245334,
        129877116445533126989528570413807277693,
        250107916917535224528378129994943394294,
        232074846252364869196809445831737773796,
        298530663250990395227144225232608384365,
        265168486075436613449458788630803272512,
        166545598284411242433605578379265360252,
        102835474498154050313290986853294842906,
        189445283838085809052254029811407633258,
        302719082300742526890675313445319567341,
        96037481352786813748421760769380383926,
        214406010671246827947835794343033790693,
    ],
    [
        230635877078223923040415038811686445073,
        293027053537479076557105009345927645442,
        118114082982223329826045602989947510129,
        185089342855265166563915858025522983409,
        300544292992993952360719000252205715076,
        284751400376525550861233017183497639371,
        62365388436267647533064120634464266870,
        243579355010018669877160932197352017974,
        93028746118909893246237533845189074002,
        161426242690584918941198733450953748769,
        208632865147351209340449219082125897333,
        185941035889835671403097747661105595079,
        182846621472767704751329603405195985261,
        162892536327655189685235410342890574896,
        101396399019525872501663112616210307683,
        191090374127295994022314014407997806335,
    ],
];

} // verus!
