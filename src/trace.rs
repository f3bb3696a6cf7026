//! Assembly of the execution trace from the traces of the VM's components,
//! randomization of its tail rows, the running-product auxiliary segment and
//! the evaluation frames that constraint evaluation reads.
use vstd::prelude::*;
use vstd::arithmetic::power2::{pow2, lemma_pow2_unfold, lemma_pow2_strictly_increases, lemma2_to64, lemma_pow2_pos};
use crate::coin::{coin_draws, draw_elements, values_of};
use crate::field::{inverse_of, Felt, MODULUS};

verus! {

// CONSTANTS
// ================================================================================================

/// Number of rows at the end of an execution trace which are injected with random values.
pub const NUM_RAND_ROWS: usize = 1;

/// Smallest length that an execution trace may have.
pub const MIN_TRACE_LEN: usize = 16;

/// Bound on the length of any component trace and of the assembled trace.
pub const MAX_TRACE_LEN: usize = 0x8000_0000;

/// Number of stack registers exposed in the top-of-stack window.
pub const MIN_STACK_DEPTH: usize = 16;

pub const SYS_TRACE_WIDTH: usize = 2;
pub const DECODER_TRACE_WIDTH: usize = 24;
pub const STACK_TRACE_WIDTH: usize = 19;
pub const RANGE_CHECK_TRACE_WIDTH: usize = 4;
pub const AUX_TABLE_WIDTH: usize = 18;

pub const DECODER_TRACE_OFFSET: usize = SYS_TRACE_WIDTH;
pub const STACK_TRACE_OFFSET: usize = DECODER_TRACE_OFFSET + DECODER_TRACE_WIDTH;
pub const RANGE_CHECK_TRACE_OFFSET: usize = STACK_TRACE_OFFSET + STACK_TRACE_WIDTH;
pub const AUX_TABLE_OFFSET: usize = RANGE_CHECK_TRACE_OFFSET + RANGE_CHECK_TRACE_WIDTH;

/// Width of the main segment of the execution trace.
pub const TRACE_WIDTH: usize = AUX_TABLE_OFFSET + AUX_TABLE_WIDTH;

/// Column of the main trace holding the values checked by the range checker.
pub const V_COL_IDX: usize = RANGE_CHECK_TRACE_OFFSET + 3;

// POWERS OF TWO
// ================================================================================================

pub open spec fn is_pow2(n: nat) -> bool {
    exists|k: nat| pow2(k) == n
}

/// `p` is the smallest power of two that is at least `n`.
pub open spec fn is_least_pow2_at_least(p: nat, n: nat) -> bool {
    &&& is_pow2(p)
    &&& n <= p
    &&& forall|q: nat| #[trigger] is_pow2(q) && n <= q ==> p <= q
}

/// Of two powers of two, the smaller is at most half the larger.
pub proof fn lemma_pow2_gap(a: nat, b: nat)
    requires
        is_pow2(a),
        is_pow2(b),
        a < b,
    ensures
        2 * a <= b,
        is_pow2(2 * a),
{
    let i = choose|i: nat| pow2(i) == a;
    let j = choose|j: nat| pow2(j) == b;
    if j <= i {
        if j < i {
            lemma_pow2_strictly_increases(j, i);
        }
    }
    lemma_pow2_unfold(i + 1);
    if i + 1 < j {
        lemma_pow2_strictly_increases(i + 1, j);
    }
    assert(pow2((i + 1) as nat) == 2 * a);
}

/// The smallest power of two that is at least `n`.
fn next_power_of_two(n: usize) -> (p: usize)
    requires
        n <= MAX_TRACE_LEN,
    ensures
        is_least_pow2_at_least(p as nat, n as nat),
        p <= MAX_TRACE_LEN,
{
    proof {
        lemma2_to64();
        assert(is_pow2(1)) by { assert(pow2(0) == 1); }
        assert(is_pow2(MAX_TRACE_LEN as nat)) by { assert(pow2(31) == MAX_TRACE_LEN); }
        assert forall|q: nat| #[trigger] is_pow2(q) implies 1 <= q by {
            let k = choose|k: nat| pow2(k) == q;
            lemma_pow2_pos(k);
        }
    }
    let mut p: usize = 1;
    while p < n
        invariant
            is_pow2(p as nat),
            1 <= p <= MAX_TRACE_LEN,
            n <= MAX_TRACE_LEN,
            is_pow2(MAX_TRACE_LEN as nat),
            forall|q: nat| #[trigger] is_pow2(q) && n <= q ==> p <= q,
        decreases MAX_TRACE_LEN - p,
    {
        proof {
            lemma_pow2_gap(p as nat, MAX_TRACE_LEN as nat);
            assert forall|q: nat| #[trigger] is_pow2(q) && n <= q implies 2 * p <= q by {
                lemma_pow2_gap(p as nat, q);
            }
        }
        p = p * 2;
    }
    p
}

proof fn lemma_max_trace_len_pow2()
    ensures
        is_pow2(MAX_TRACE_LEN as nat),
        is_pow2(MIN_TRACE_LEN as nat),
{
    lemma2_to64();
    assert(pow2(31) == MAX_TRACE_LEN);
    assert(pow2(4) == MIN_TRACE_LEN);
}

/// The length of a trace whose longest component has `max_len` rows: the
/// smallest power of two that leaves room for the random rows and is not
/// below the minimum trace length.
pub open spec fn is_resolved_len(len: nat, max_len: nat) -> bool {
    is_least_pow2_at_least(len, vstd::math::max((max_len + NUM_RAND_ROWS) as int, MIN_TRACE_LEN as int) as nat)
}

/// Resolves the length of a trace whose longest component has `max_len` rows.
fn resolve_trace_len(max_len: usize) -> (r: usize)
    requires
        max_len < MAX_TRACE_LEN,
    ensures
        is_resolved_len(r as nat, max_len as nat),
        MIN_TRACE_LEN <= r <= MAX_TRACE_LEN,
{
    let p = next_power_of_two(max_len + NUM_RAND_ROWS);
    if p < MIN_TRACE_LEN {
        proof {
            lemma2_to64();
            assert(pow2(4) == MIN_TRACE_LEN);
            assert(is_pow2(MIN_TRACE_LEN as nat));
        }
        MIN_TRACE_LEN
    } else {
        p
    }
}

// COMPONENT TRACES
// ================================================================================================

/// The trace of one component of the VM: equal-length columns and their length.
pub struct PartialTrace {
    pub columns: Vec<Vec<Felt>>,
    pub len: usize,
}

impl PartialTrace {
    /// The trace has `width` columns, each of `len` rows.
    pub open spec fn wf(&self, width: nat) -> bool {
        &&& self.columns@.len() == width
        &&& forall|c: int| 0 <= c < width ==> (#[trigger] self.columns@[c])@.len() == self.len
        &&& self.len < MAX_TRACE_LEN
    }

    /// Number of rows of this component trace.
    pub fn trace_len(&self) -> (r: usize)
        ensures
            r == self.len,
    {
        self.len
    }
}

/// The range checker's trace, together with the per-row values that its
/// running product divides out.
pub struct RangeCheckTrace {
    pub trace: PartialTrace,
    pub lookups: Vec<Felt>,
}

/// The traces that the components of the VM produced for one program run,
/// and the hash of the program that was run.
pub struct ComponentTraces {
    pub clk: usize,
    pub system: PartialTrace,
    pub decoder: PartialTrace,
    pub stack: PartialTrace,
    pub range: RangeCheckTrace,
    pub aux_table: PartialTrace,
    pub program_hash: [u8; 32],
}

impl ComponentTraces {
    /// Every component has its fixed width and equal-length columns.
    pub open spec fn wf(&self) -> bool {
        &&& self.system.wf(SYS_TRACE_WIDTH as nat)
        &&& self.decoder.wf(DECODER_TRACE_WIDTH as nat)
        &&& self.stack.wf(STACK_TRACE_WIDTH as nat)
        &&& self.range.trace.wf(RANGE_CHECK_TRACE_WIDTH as nat)
        &&& self.range.lookups@.len() == self.range.trace.len
        &&& self.aux_table.wf(AUX_TABLE_WIDTH as nat)
        &&& self.clk < MAX_TRACE_LEN
    }
}

/// Which step-driven component disagrees with the clock.
#[derive(Clone, Copy, Debug, PartialEq, Eq, Structural)]
pub enum Component {
    System,
    Decoder,
    Stack,
}

#[derive(Clone, Copy, Debug, PartialEq, Eq, Structural)]
pub enum TraceError {
    /// A step-driven component's trace length differs from the number of executed steps.
    InconsistentTraceLength(Component),
    /// The random coin could not produce a field element.
    RandomDrawFailed,
    /// The auxiliary segment was requested without the inputs it is built from.
    MalformedAuxInputs,
}

/// The first step-driven component whose length differs from the clock.
pub open spec fn length_error(p: ComponentTraces) -> Option<Component> {
    if p.system.len != p.clk {
        Some(Component::System)
    } else if p.decoder.len != p.clk {
        Some(Component::Decoder)
    } else if p.stack.len != p.clk {
        Some(Component::Stack)
    } else {
        None
    }
}

/// The length of the longest component trace.
pub open spec fn max_component_len(p: ComponentTraces) -> nat {
    vstd::math::max(
        vstd::math::max(p.clk as int, p.range.trace.len as int),
        p.aux_table.len as int,
    ) as nat
}

/// Column `c` of the main segment, as its component produced it.
pub open spec fn source_column(p: ComponentTraces, c: int) -> Seq<Felt> {
    if c < DECODER_TRACE_OFFSET {
        p.system.columns@[c]@
    } else if c < STACK_TRACE_OFFSET {
        p.decoder.columns@[c - DECODER_TRACE_OFFSET]@
    } else if c < RANGE_CHECK_TRACE_OFFSET {
        p.stack.columns@[c - STACK_TRACE_OFFSET]@
    } else if c < AUX_TABLE_OFFSET {
        p.range.trace.columns@[c - RANGE_CHECK_TRACE_OFFSET]@
    } else {
        p.aux_table.columns@[c - AUX_TABLE_OFFSET]@
    }
}

/// Row `r` of a column extended past its end by repeating its last value
/// (zero for an empty column).
pub open spec fn padded_cell(col: Seq<Felt>, r: int) -> Felt {
    if r < col.len() {
        col[r]
    } else if col.len() == 0 {
        Felt { value: 0 }
    } else {
        col.last()
    }
}

/// Which of the drawn values goes to row `r` of column `c` of a segment of
/// `width` columns and `n` rows: the random rows are filled row by row.
pub open spec fn draw_index(width: int, n: int, c: int, r: int) -> int {
    (r - (n - NUM_RAND_ROWS)) * width + c
}

/// Column `c` of a segment of `n` rows and `width` columns: `col` extended to
/// `n` rows, with the random rows taken from `draws`.
pub open spec fn finished_column(col: Seq<Felt>, draws: Seq<u64>, width: int, n: int, c: int) -> Seq<Felt> {
    Seq::new(
        n as nat,
        |r: int|
            if r >= n - NUM_RAND_ROWS {
                Felt { value: draws[draw_index(width, n, c, r)] }
            } else {
                padded_cell(col, r)
            },
    )
}

/// Column `c` of the main segment of `n` rows assembled from `p`.
pub open spec fn main_column(p: ComponentTraces, draws: Seq<u64>, n: int, c: int) -> Seq<Felt> {
    finished_column(source_column(p, c), draws, TRACE_WIDTH as int, n, c)
}

/// The integer-free view of a matrix held as columns.
pub open spec fn matrix_view(m: Seq<Vec<Felt>>) -> Seq<Seq<Felt>> {
    m.map_values(|col: Vec<Felt>| col@)
}

/// `m` is the main segment assembled from `p` with random rows drawn from a
/// coin seeded with `seed`, and `hints` the padded range-checker lookups.
pub open spec fn is_finalized(m: Seq<Seq<Felt>>, hints: Seq<Felt>, p: ComponentTraces, seed: Seq<u8>) -> bool {
    &&& m.len() == TRACE_WIDTH
    &&& is_resolved_len(m[0].len(), max_component_len(p))
    &&& coin_draws(seed, (NUM_RAND_ROWS * TRACE_WIDTH) as nat) matches Some(d)
        && forall|c: int| 0 <= c < TRACE_WIDTH ==> #[trigger] m[c] == main_column(p, d, m[0].len() as int, c)
    &&& hints == Seq::new(m[0].len(), |r: int| padded_cell(p.range.lookups@, r))
}

/// Extends `col` to `n` rows and fills its random rows from `draws`.
fn finish_column(col: &Vec<Felt>, draws: &Vec<Felt>, width: usize, n: usize, c: usize) -> (r: Vec<Felt>)
    requires
        col@.len() <= n - NUM_RAND_ROWS,
        NUM_RAND_ROWS <= n,
        c < width,
        draws@.len() == NUM_RAND_ROWS * width,
    ensures
        r@ == finished_column(col@, values_of(draws@), width as int, n as int, c as int),
{
    let len = col.len();
    let mut out: Vec<Felt> = Vec::with_capacity(n);
    let mut i: usize = 0;
    while i < n
        invariant
            len == col@.len(),
            len <= n - NUM_RAND_ROWS,
            NUM_RAND_ROWS <= n,
            c < width,
            draws@.len() == NUM_RAND_ROWS * width,
            i <= n,
            out@.len() == i,
            forall|k: int| 0 <= k < i ==> out@[k] == #[trigger] finished_column(col@, values_of(draws@), width as int, n as int, c as int)[k],
        decreases n - i,
    {
        let v = if i >= n - NUM_RAND_ROWS {
            let k = i - (n - NUM_RAND_ROWS);
            proof {
                let (kk, ww, cc) = (k as int, width as int, c as int);
                assert(kk * ww + cc < (NUM_RAND_ROWS as int) * ww) by (nonlinear_arith)
                    requires
                        kk < NUM_RAND_ROWS as int,
                        cc < ww,
                        0 <= kk,
                ;
            }
            draws[k * width + c]
        } else if i < len {
            col[i]
        } else if len == 0 {
            Felt::zero()
        } else {
            col[len - 1]
        };
        out.push(v);
        i += 1;
    }
    assert(out@ =~= finished_column(col@, values_of(draws@), width as int, n as int, c as int));
    out
}

/// Appends the columns of one component to the segment being assembled.
fn append_columns(
    trace: &mut Vec<Vec<Felt>>,
    cols: &Vec<Vec<Felt>>,
    draws: &Vec<Felt>,
    width: usize,
    n: usize,
)
    requires
        old(trace)@.len() + cols@.len() <= width,
        forall|j: int| 0 <= j < cols@.len() ==> (#[trigger] cols@[j])@.len() <= n - NUM_RAND_ROWS,
        NUM_RAND_ROWS <= n,
        draws@.len() == NUM_RAND_ROWS * width,
    ensures
        final(trace)@.len() == old(trace)@.len() + cols@.len(),
        forall|k: int| 0 <= k < old(trace)@.len() ==> #[trigger] final(trace)@[k] == old(trace)@[k],
        forall|j: int| 0 <= j < cols@.len() ==> #[trigger] final(trace)@[old(trace)@.len() + j]@
            == finished_column(cols@[j]@, values_of(draws@), width as int, n as int, old(trace)@.len() + j),
{
    let start = trace.len();
    let mut j: usize = 0;
    while j < cols.len()
        invariant
            start == old(trace)@.len(),
            start + cols@.len() <= width,
            forall|j: int| 0 <= j < cols@.len() ==> (#[trigger] cols@[j])@.len() <= n - NUM_RAND_ROWS,
            NUM_RAND_ROWS <= n,
            draws@.len() == NUM_RAND_ROWS * width,
            j <= cols@.len(),
            trace@.len() == start + j,
            forall|k: int| 0 <= k < start ==> #[trigger] trace@[k] == old(trace)@[k],
            forall|i: int| 0 <= i < j ==> #[trigger] trace@[start + i]@
                == finished_column(cols@[i]@, values_of(draws@), width as int, n as int, start + i),
        decreases cols@.len() - j,
    {
        let col = finish_column(&cols[j], draws, width, n, start + j);
        trace.push(col);
        j += 1;
    }
}

/// Extends a column to `n` rows by repeating its last value.
fn pad_column(col: &Vec<Felt>, n: usize) -> (r: Vec<Felt>)
    requires
        col@.len() <= n,
    ensures
        r@ == Seq::new(n as nat, |i: int| padded_cell(col@, i)),
{
    let len = col.len();
    let mut out: Vec<Felt> = Vec::with_capacity(n);
    let mut i: usize = 0;
    while i < n
        invariant
            len == col@.len(),
            len <= n,
            i <= n,
            out@.len() == i,
            forall|k: int| 0 <= k < i ==> out@[k] == padded_cell(col@, k),
        decreases n - i,
    {
        let v = if i < len {
            col[i]
        } else if len == 0 {
            Felt::zero()
        } else {
            col[len - 1]
        };
        out.push(v);
        i += 1;
    }
    assert(out@ =~= Seq::new(n as nat, |i: int| padded_cell(col@, i)));
    out
}

/// Hints from which the auxiliary segment is built after the main segment is
/// committed: the range checker's lookups, one per row of the trace.
pub struct AuxTraceHints {
    pub lookups: Vec<Felt>,
}

/// Converts the component traces into the columns of the main segment.
///
/// The steps are: checking that the step-driven components agree with the
/// clock, finding the length that holds the longest component together with
/// the random rows, padding every column to that length, and drawing the
/// random rows from a coin seeded with `seed`.
pub fn finalize_trace(process: ComponentTraces, seed: &[u8; 32]) -> (r: Result<(Vec<Vec<Felt>>, AuxTraceHints), TraceError>)
    requires
        process.wf(),
    ensures
        length_error(process) matches Some(c) ==> r == Err::<(Vec<Vec<Felt>>, AuxTraceHints), TraceError>(TraceError::InconsistentTraceLength(c)),
        length_error(process) is None ==> (r is Err <==> coin_draws(seed@, (NUM_RAND_ROWS * TRACE_WIDTH) as nat) is None),
        r is Err ==> r matches Err(TraceError::InconsistentTraceLength(_)) || r matches Err(TraceError::RandomDrawFailed),
        r matches Ok((m, h)) ==> is_finalized(matrix_view(m@), h.lookups@, process, seed@),
{
    let clk = process.clk;

    // trace lengths of the system, decoder and stack components must equal the number of executed steps
    if process.system.len != clk {
        return Err(TraceError::InconsistentTraceLength(Component::System));
    }
    if process.decoder.len != clk {
        return Err(TraceError::InconsistentTraceLength(Component::Decoder));
    }
    if process.stack.len != clk {
        return Err(TraceError::InconsistentTraceLength(Component::Stack));
    }

    // the trace length required to hold all execution trace steps
    let mut max_len = clk;
    if process.range.trace.len > max_len {
        max_len = process.range.trace.len;
    }
    if process.aux_table.len > max_len {
        max_len = process.aux_table.len;
    }
    let trace_len = resolve_trace_len(max_len);

    let draws = match draw_elements(seed, NUM_RAND_ROWS * TRACE_WIDTH) {
        Some(d) => d,
        None => {
            return Err(TraceError::RandomDrawFailed);
        },
    };

    // combine all components into the main trace, with random values in the last rows
    let mut trace: Vec<Vec<Felt>> = Vec::with_capacity(TRACE_WIDTH);
    append_columns(&mut trace, &process.system.columns, &draws, TRACE_WIDTH, trace_len);
    append_columns(&mut trace, &process.decoder.columns, &draws, TRACE_WIDTH, trace_len);
    append_columns(&mut trace, &process.stack.columns, &draws, TRACE_WIDTH, trace_len);
    append_columns(&mut trace, &process.range.trace.columns, &draws, TRACE_WIDTH, trace_len);
    append_columns(&mut trace, &process.aux_table.columns, &draws, TRACE_WIDTH, trace_len);

    let lookups = pad_column(&process.range.lookups, trace_len);
    proof {
        let d = values_of(draws@);
        let m = matrix_view(trace@);
        assert forall|c: int| 0 <= c < TRACE_WIDTH implies #[trigger] m[c] == main_column(process, d, trace_len as int, c) by {
            if c < DECODER_TRACE_OFFSET {
                assert(m[c] == trace@[0 + c]@);
            } else if c < STACK_TRACE_OFFSET {
                assert(m[c] == trace@[DECODER_TRACE_OFFSET + (c - DECODER_TRACE_OFFSET)]@);
            } else if c < RANGE_CHECK_TRACE_OFFSET {
                assert(m[c] == trace@[STACK_TRACE_OFFSET + (c - STACK_TRACE_OFFSET)]@);
            } else if c < AUX_TABLE_OFFSET {
                assert(m[c] == trace@[RANGE_CHECK_TRACE_OFFSET + (c - RANGE_CHECK_TRACE_OFFSET)]@);
            } else {
                assert(m[c] == trace@[AUX_TABLE_OFFSET + (c - AUX_TABLE_OFFSET)]@);
            }
        }
        assert(m[0].len() == trace_len);
    }
    Ok((trace, AuxTraceHints { lookups }))
}

// AUXILIARY SEGMENT
// ================================================================================================

/// The factor of one row of the running product: `(alpha + v) / (alpha + h)`.
pub open spec fn lookup_factor(v: Felt, h: Felt, alpha: Felt) -> int {
    let num = (alpha.value + v.value) % (MODULUS as int);
    let den = ((alpha.value + h.value) % (MODULUS as int)) as u64;
    (num * inverse_of(den)) % (MODULUS as int)
}

/// The running product over the first `i` rows: one at the first row, then
/// multiplied by each row's factor.
pub open spec fn running_product(v: Seq<Felt>, h: Seq<Felt>, alpha: Felt, i: nat) -> u64
    decreases i,
{
    if i == 0 {
        1
    } else {
        ((running_product(v, h, alpha, (i - 1) as nat) * lookup_factor(v[i - 1], h[i - 1], alpha))
            % (MODULUS as int)) as u64
    }
}

/// The auxiliary column of `n` rows: the running product over the checked
/// values `v` and the lookups `h`, with the random rows taken from `draws`.
pub open spec fn aux_column(v: Seq<Felt>, h: Seq<Felt>, alpha: Felt, draws: Seq<u64>, n: int) -> Seq<Felt> {
    finished_column(
        Seq::new((n - NUM_RAND_ROWS) as nat, |r: int| Felt { value: running_product(v, h, alpha, r as nat) }),
        draws,
        1,
        n,
        0,
    )
}

/// Builds the running-product column over the rows that are not random.
pub fn build_running_product(v: &Vec<Felt>, h: &Vec<Felt>, alpha: Felt, len: usize) -> (r: Vec<Felt>)
    requires
        len <= v@.len(),
        len <= h@.len(),
    ensures
        r@ == Seq::new(len as nat, |i: int| Felt { value: running_product(v@, h@, alpha, i as nat) }),
{
    let mut out: Vec<Felt> = Vec::with_capacity(len);
    if len == 0 {
        assert(out@ =~= Seq::new(len as nat, |i: int| Felt { value: running_product(v@, h@, alpha, i as nat) }));
        return out;
    }
    let mut acc = Felt::one();
    out.push(acc);
    let mut i: usize = 1;
    while i < len
        invariant
            1 <= i <= len,
            len <= v@.len(),
            len <= h@.len(),
            out@.len() == i,
            acc.value == running_product(v@, h@, alpha, (i - 1) as nat),
            forall|k: int| 0 <= k < i ==> out@[k] == (Felt { value: running_product(v@, h@, alpha, k as nat) }),
        decreases len - i,
    {
        let num = alpha.add(v[i - 1]);
        let den = alpha.add(h[i - 1]);
        let factor = num.mul(den.inv());
        acc = acc.mul(factor);
        out.push(acc);
        i += 1;
    }
    assert(out@ =~= Seq::new(len as nat, |i: int| Felt { value: running_product(v@, h@, alpha, i as nat) }));
    out
}

// VM EXECUTION TRACE
// ================================================================================================

/// Widths of the segments of a trace and the random elements each auxiliary
/// segment is built from.
#[derive(Debug)]
pub struct TraceLayout {
    pub main_width: usize,
    pub aux_widths: Vec<usize>,
    pub aux_rands: Vec<usize>,
}

/// The current row and the next row, as constraint evaluation reads them.
pub struct EvaluationFrame {
    pub current: Vec<Felt>,
    pub next: Vec<Felt>,
}

impl EvaluationFrame {
    /// A frame of two zero rows of `width` cells.
    pub fn new(width: usize) -> (r: EvaluationFrame)
        ensures
            r.current@.len() == width,
            r.next@.len() == width,
            forall|i: int| 0 <= i < width ==> r.current@[i].value == 0 && r.next@[i].value == 0,
    {
        EvaluationFrame { current: zero_row(width), next: zero_row(width) }
    }
}

fn zero_row(width: usize) -> (r: Vec<Felt>)
    ensures
        r@.len() == width,
        forall|i: int| 0 <= i < width ==> r@[i].value == 0,
{
    let mut row: Vec<Felt> = Vec::with_capacity(width);
    let mut i: usize = 0;
    while i < width
        invariant
            i <= width,
            row@.len() == i,
            forall|k: int| 0 <= k < i ==> row@[k].value == 0,
        decreases width - i,
    {
        row.push(Felt::zero());
        i += 1;
    }
    row
}

/// The view of the result of a request for an auxiliary segment.
pub open spec fn segment_result_view(r: Result<Option<Vec<Vec<Felt>>>, TraceError>) -> Result<Option<Seq<Seq<Felt>>>, TraceError> {
    match r {
        Ok(Some(m)) => Ok(Some(matrix_view(m@))),
        Ok(None) => Ok(None),
        Err(e) => Err(e),
    }
}

/// Row `i` of a matrix held as columns.
pub open spec fn row_of(m: Seq<Seq<Felt>>, i: int) -> Seq<Felt> {
    Seq::new(m.len(), |c: int| m[c][i])
}

/// Execution trace which is generated when a program is executed on the VM.
///
/// The trace consists of the main segment assembled from the System, Decoder,
/// Operand Stack, Range Checker and Auxiliary Table components, the hints from
/// which the auxiliary segment is built, and metadata for the prover.
pub struct ExecutionTrace {
    meta: Vec<u8>,
    layout: TraceLayout,
    main_trace: Vec<Vec<Felt>>,
    aux_trace_hints: AuxTraceHints,
    program_hash: [u8; 32],
}

impl ExecutionTrace {
    /// The main segment, column by column.
    pub closed spec fn main_view(&self) -> Seq<Seq<Felt>> {
        matrix_view(self.main_trace@)
    }

    /// Number of rows of the trace.
    pub closed spec fn len_view(&self) -> nat {
        self.main_trace@[0]@.len()
    }

    /// The range checker's lookups, one per row.
    pub closed spec fn hints_view(&self) -> Seq<Felt> {
        self.aux_trace_hints.lookups@
    }

    pub closed spec fn hash_view(&self) -> Seq<u8> {
        self.program_hash@
    }

    pub closed spec fn meta_view(&self) -> Seq<u8> {
        self.meta@
    }

    pub closed spec fn layout_view(&self) -> TraceLayout {
        self.layout
    }

    /// The columns all have the trace's length, a power of two within bounds,
    /// and the layout is one main segment and one auxiliary column.
    pub closed spec fn wf(&self) -> bool {
        &&& self.main_trace@.len() == TRACE_WIDTH
        &&& forall|c: int| 0 <= c < TRACE_WIDTH ==> (#[trigger] self.main_trace@[c])@.len() == self.len_view()
        &&& is_pow2(self.len_view())
        &&& MIN_TRACE_LEN <= self.len_view() <= MAX_TRACE_LEN
        &&& self.aux_trace_hints.lookups@.len() == self.len_view()
        &&& self.layout.main_width == TRACE_WIDTH
        &&& self.layout.aux_widths@ == seq![1usize]
        &&& self.layout.aux_rands@ == seq![1usize]
    }

    /// This trace is the one assembled from `p`, randomized by a coin seeded
    /// with its program hash.
    pub open spec fn is_trace_of(&self, p: ComponentTraces) -> bool {
        &&& self.wf()
        &&& is_finalized(self.main_view(), self.hints_view(), p, p.program_hash@)
        &&& self.hash_view() == p.program_hash@
        &&& self.meta_view().len() == 0
    }

    /// What a request for an auxiliary segment returns, given the number of
    /// segments that exist already and the random challenges.
    pub open spec fn aux_segment_spec(&self, num_existing: nat, rand: Seq<Felt>) -> Result<Option<Seq<Seq<Felt>>>, TraceError> {
        if num_existing > 0 {
            Ok(None)
        } else if rand.len() == 0 {
            Err(TraceError::MalformedAuxInputs)
        } else {
            match coin_draws(self.hash_view(), NUM_RAND_ROWS as nat) {
                None => Err(TraceError::RandomDrawFailed),
                Some(d) => Ok(
                    Some(
                        seq![aux_column(self.main_view()[V_COL_IDX as int], self.hints_view(), rand[0], d, self.len_view() as int)],
                    ),
                ),
            }
        }
    }

    // CONSTRUCTOR
    // --------------------------------------------------------------------------------------------

    /// Builds an execution trace from the component traces of a program run.
    ///
    /// The program hash seeds the coin that fills the random rows: the values
    /// only stabilize constraint degrees and are not meant to hide anything.
    pub fn new(process: ComponentTraces) -> (r: Result<ExecutionTrace, TraceError>)
        requires
            process.wf(),
        ensures
            length_error(process) matches Some(c) ==> r == Err::<ExecutionTrace, TraceError>(TraceError::InconsistentTraceLength(c)),
            length_error(process) is None ==> (r is Err <==> coin_draws(process.program_hash@, (NUM_RAND_ROWS * TRACE_WIDTH) as nat) is None),
            r is Err ==> r matches Err(TraceError::InconsistentTraceLength(_)) || r matches Err(TraceError::RandomDrawFailed),
            r matches Ok(t) ==> t.is_trace_of(process),
    {
        let program_hash = process.program_hash;
        let (main_trace, aux_trace_hints) = match finalize_trace(process, &program_hash) {
            Ok(parts) => parts,
            Err(e) => {
                return Err(e);
            },
        };
        let mut aux_widths: Vec<usize> = Vec::new();
        aux_widths.push(1);
        let mut aux_rands: Vec<usize> = Vec::new();
        aux_rands.push(1);
        let t = ExecutionTrace {
            meta: Vec::new(),
            layout: TraceLayout { main_width: TRACE_WIDTH, aux_widths, aux_rands },
            main_trace,
            aux_trace_hints,
            program_hash,
        };
        proof {
            lemma_max_trace_len_pow2();
            assert(t.main_view()[0] == t.main_trace@[0]@);
            assert(t.layout.aux_widths@ =~= seq![1usize]);
            assert(t.layout.aux_rands@ =~= seq![1usize]);
            assert forall|c: int| 0 <= c < TRACE_WIDTH implies (#[trigger] t.main_trace@[c])@.len() == t.len_view() by {
                assert(t.main_view()[c] == t.main_trace@[c]@);
            }
        }
        Ok(t)
    }

    // PUBLIC ACCESSORS
    // --------------------------------------------------------------------------------------------

    /// Returns the hash of the program whose execution resulted in this trace.
    pub fn program_hash(&self) -> (r: [u8; 32])
        ensures
            r@ == self.hash_view(),
    {
        self.program_hash
    }

    /// Returns the layout of this trace.
    pub fn layout(&self) -> (r: &TraceLayout)
        ensures
            *r == self.layout_view(),
    {
        &self.layout
    }

    /// Returns the number of rows of this trace.
    pub fn length(&self) -> (r: usize)
        requires
            self.wf(),
        ensures
            r == self.len_view(),
    {
        self.main_trace[0].len()
    }

    /// Returns the metadata of this trace.
    pub fn meta(&self) -> (r: &Vec<u8>)
        ensures
            r@ == self.meta_view(),
    {
        &self.meta
    }

    /// Returns the main segment, column by column.
    pub fn main_segment(&self) -> (r: &Vec<Vec<Felt>>)
        ensures
            matrix_view(r@) == self.main_view(),
    {
        &self.main_trace
    }

    /// Returns the index of the last row before the random rows.
    fn last_step(&self) -> (r: usize)
        requires
            self.wf(),
        ensures
            r == self.len_view() - NUM_RAND_ROWS - 1,
    {
        self.length() - NUM_RAND_ROWS - 1
    }

    /// Returns row `row` of the top `MIN_STACK_DEPTH` stack registers.
    fn stack_state_at(&self, row: usize) -> (r: Vec<Felt>)
        requires
            self.wf(),
            row < self.len_view(),
        ensures
            r@ == Seq::new(MIN_STACK_DEPTH as nat, |i: int| self.main_view()[STACK_TRACE_OFFSET + i][row as int]),
    {
        let mut result: Vec<Felt> = Vec::with_capacity(MIN_STACK_DEPTH);
        let mut i: usize = 0;
        while i < MIN_STACK_DEPTH
            invariant
                self.wf(),
                row < self.len_view(),
                i <= MIN_STACK_DEPTH,
                result@.len() == i,
                forall|k: int| 0 <= k < i ==> #[trigger] result@[k] == self.main_view()[STACK_TRACE_OFFSET + k][row as int],
            decreases MIN_STACK_DEPTH - i,
        {
            assert(self.main_view()[STACK_TRACE_OFFSET + i] == self.main_trace@[STACK_TRACE_OFFSET + i]@);
            result.push(self.main_trace[STACK_TRACE_OFFSET + i][row]);
            i += 1;
        }
        assert(result@ =~= Seq::new(MIN_STACK_DEPTH as nat, |i: int| self.main_view()[STACK_TRACE_OFFSET + i][row as int]));
        result
    }

    /// Returns the initial state of the top 16 stack registers.
    pub fn init_stack_state(&self) -> (r: Vec<Felt>)
        requires
            self.wf(),
        ensures
            r@ == Seq::new(MIN_STACK_DEPTH as nat, |i: int| self.main_view()[STACK_TRACE_OFFSET + i][0]),
    {
        self.stack_state_at(0)
    }

    /// Returns the final state of the top 16 stack registers: the last row
    /// before the random rows.
    pub fn last_stack_state(&self) -> (r: Vec<Felt>)
        requires
            self.wf(),
        ensures
            r@ == Seq::new(
                MIN_STACK_DEPTH as nat,
                |i: int| self.main_view()[STACK_TRACE_OFFSET + i][self.len_view() - NUM_RAND_ROWS - 1],
            ),
    {
        let last_step = self.last_step();
        self.stack_state_at(last_step)
    }

    /// Runs the assembly with an all-zero seed, as tests of the components do.
    pub fn test_finalize_trace(process: ComponentTraces) -> (r: Result<(Vec<Vec<Felt>>, AuxTraceHints), TraceError>)
        requires
            process.wf(),
        ensures
            length_error(process) matches Some(c) ==> r == Err::<(Vec<Vec<Felt>>, AuxTraceHints), TraceError>(TraceError::InconsistentTraceLength(c)),
            length_error(process) is None ==> (r is Err <==> coin_draws(Seq::new(32, |i: int| 0u8), (NUM_RAND_ROWS * TRACE_WIDTH) as nat) is None),
            r matches Ok((m, h)) ==> is_finalized(matrix_view(m@), h.lookups@, process, Seq::new(32, |i: int| 0u8)),
    {
        let seed = [0u8; 32];
        assert(seed@ =~= Seq::new(32, |i: int| 0u8));
        finalize_trace(process, &seed)
    }

    // TRACE OPERATIONS
    // --------------------------------------------------------------------------------------------

    /// Builds the auxiliary segment: one column holding the range checker's
    /// running product over the challenge `rand_elements[0]`, with random
    /// values in its last rows drawn from a fresh coin seeded with the program
    /// hash. Only one auxiliary segment exists: where `aux_segments` already
    /// holds one, the result is `None`.
    pub fn build_aux_segment(
        &mut self,
        aux_segments: &Vec<Vec<Vec<Felt>>>,
        rand_elements: &Vec<Felt>,
    ) -> (r: Result<Option<Vec<Vec<Felt>>>, TraceError>)
        requires
            old(self).wf(),
        ensures
            *final(self) == *old(self),
            segment_result_view(r) == old(self).aux_segment_spec(aux_segments@.len(), rand_elements@),
    {
        // there is only one auxiliary segment
        if aux_segments.len() > 0 {
            return Ok(None);
        }
        if rand_elements.len() == 0 {
            return Err(TraceError::MalformedAuxInputs);
        }
        let n = self.length();
        proof {
            assert(self.main_view()[V_COL_IDX as int] == self.main_trace@[V_COL_IDX as int]@);
        }
        let products = build_running_product(
            &self.main_trace[V_COL_IDX],
            &self.aux_trace_hints.lookups,
            rand_elements[0],
            n - NUM_RAND_ROWS,
        );

        // inject random values into the last rows of the column
        let draws = match draw_elements(&self.program_hash, NUM_RAND_ROWS) {
            Some(d) => d,
            None => {
                return Err(TraceError::RandomDrawFailed);
            },
        };
        let column = finish_column(&products, &draws, 1, n, 0);
        let mut aux_columns: Vec<Vec<Felt>> = Vec::new();
        aux_columns.push(column);
        assert(matrix_view(aux_columns@) =~= seq![
            aux_column(self.main_view()[V_COL_IDX as int], self.hints_view(), rand_elements@[0], values_of(draws@), n as int),
        ]);
        Ok(Some(aux_columns))
    }

    /// Reads row `row_idx` into the frame's current row and the row after it
    /// into its next row; the row after the last is the first.
    pub fn read_main_frame(&self, row_idx: usize, frame: &mut EvaluationFrame)
        requires
            self.wf(),
            row_idx < self.len_view(),
        ensures
            final(frame).current@ == row_of(self.main_view(), row_idx as int),
            final(frame).next@ == row_of(self.main_view(), (row_idx as int + 1) % (self.len_view() as int)),
    {
        let next_row_idx = (row_idx + 1) % self.length();
        frame.current = self.read_row(row_idx);
        frame.next = self.read_row(next_row_idx);
    }

    /// Row `i` of the main segment.
    fn read_row(&self, i: usize) -> (r: Vec<Felt>)
        requires
            self.wf(),
            i < self.len_view(),
        ensures
            r@ == row_of(self.main_view(), i as int),
    {
        let mut row: Vec<Felt> = Vec::with_capacity(TRACE_WIDTH);
        let mut c: usize = 0;
        while c < TRACE_WIDTH
            invariant
                self.wf(),
                i < self.len_view(),
                c <= TRACE_WIDTH,
                row@.len() == c,
                forall|k: int| 0 <= k < c ==> #[trigger] row@[k] == self.main_view()[k][i as int],
            decreases TRACE_WIDTH - c,
        {
            assert(self.main_view()[c as int] == self.main_trace@[c as int]@);
            row.push(self.main_trace[c][i]);
            c += 1;
        }
        assert(row@ =~= row_of(self.main_view(), i as int));
        row
    }
} // impl ExecutionTrace

// TRACE FRAGMENT
// ================================================================================================

/// A group of columns of one component, all of one length, filled while its
/// trace is copied into the main segment.
pub struct TraceFragment {
    data: Vec<Vec<Felt>>,
}

impl TraceFragment {
    /// The columns of this fragment.
    pub closed spec fn view(&self) -> Seq<Seq<Felt>> {
        matrix_view(self.data@)
    }

    /// All columns have the same length.
    pub open spec fn wf(&self) -> bool {
        forall|i: int, j: int| 0 <= i < self@.len() && 0 <= j < self@.len() ==> #[trigger] self@[i].len() == #[trigger] self@[j].len()
    }

    /// Creates an empty fragment with room for `capacity` columns.
    pub fn new(capacity: usize) -> (r: TraceFragment)
        ensures
            r@ == Seq::<Seq<Felt>>::empty(),
            r.wf(),
    {
        let r = TraceFragment { data: Vec::with_capacity(capacity) };
        assert(r@ =~= Seq::<Seq<Felt>>::empty());
        r
    }

    /// Builds a fragment over the columns of a trace.
    pub fn trace_to_fragment(trace: Vec<Vec<Felt>>) -> (r: TraceFragment)
        ensures
            r@ == matrix_view(trace@),
    {
        let r = TraceFragment { data: trace };
        assert(r@ == matrix_view(trace@));
        r
    }

    /// Returns the number of columns in this fragment.
    pub fn width(&self) -> (r: usize)
        ensures
            r == self@.len(),
    {
        self.data.len()
    }

    /// Returns the number of rows in this fragment.
    pub fn len(&self) -> (r: usize)
        requires
            self@.len() > 0,
        ensures
            r == self@[0].len(),
    {
        self.data[0].len()
    }

    /// Updates a single cell of this fragment.
    pub fn set(&mut self, row_idx: usize, col_idx: usize, value: Felt)
        requires
            col_idx < old(self)@.len(),
            row_idx < old(self)@[col_idx as int].len(),
        ensures
            final(self)@ == old(self)@.update(col_idx as int, old(self)@[col_idx as int].update(row_idx as int, value)),
            old(self).wf() ==> final(self).wf(),
    {
        self.data[col_idx][row_idx] = value;
        assert(self@ =~= old(self)@.update(col_idx as int, old(self)@[col_idx as int].update(row_idx as int, value)));
    }

    /// Returns the columns of this fragment.
    pub fn columns(&self) -> (r: &Vec<Vec<Felt>>)
        ensures
            matrix_view(r@) == self@,
    {
        &self.data
    }

    /// Adds the first `len` elements of `column` to this fragment as a new
    /// column and returns the rest of `column`.
    pub fn push_column_slice(&mut self, column: Vec<Felt>, len: usize) -> (r: Vec<Felt>)
        requires
            len <= column@.len(),
        ensures
            final(self)@ == old(self)@.push(column@.subrange(0, len as int)),
            r@ == column@.subrange(len as int, column@.len() as int),
            old(self).wf() && (old(self)@.len() == 0 || old(self)@[0].len() == len) ==> final(self).wf(),
    {
        let mut column_fragment = column;
        let rest = column_fragment.split_off(len);
        self.data.push(column_fragment);
        assert(self@ =~= old(self)@.push(column@.subrange(0, len as int)));
        rest
    }
}

// PROPERTIES
// ================================================================================================

/// The length of an assembled trace is the smallest power of two that holds
/// the longest component and the random rows (`least`), unless that is below
/// the minimum trace length, in which case it is the minimum.
pub proof fn lemma_trace_length(p: ComponentTraces, t: ExecutionTrace, least: nat)
    requires
        p.wf(),
        t.is_trace_of(p),
        is_least_pow2_at_least(least, (max_component_len(p) + NUM_RAND_ROWS) as nat),
    ensures
        t.len_view() == vstd::math::max(least as int, MIN_TRACE_LEN as int),
        is_pow2(t.len_view()),
        t.len_view() >= max_component_len(p) + NUM_RAND_ROWS,
        t.len_view() >= MIN_TRACE_LEN,
{
    lemma_max_trace_len_pow2();
    let n = t.len_view();
    assert(t.main_view()[0] == t.main_trace@[0]@);
    assert(is_resolved_len(n, max_component_len(p)));
    if least >= MIN_TRACE_LEN {
        assert(n <= least);
        assert(least <= n);
    } else {
        assert(n <= MIN_TRACE_LEN);
    }
}

/// Every column of a well-formed trace has exactly as many rows as the trace.
pub proof fn lemma_columns_have_trace_length(t: ExecutionTrace)
    requires
        t.wf(),
    ensures
        t.main_view().len() == TRACE_WIDTH,
        forall|c: int| 0 <= c < TRACE_WIDTH ==> (#[trigger] t.main_view()[c]).len() == t.len_view(),
{
    assert forall|c: int| 0 <= c < TRACE_WIDTH implies (#[trigger] t.main_view()[c]).len() == t.len_view() by {
        assert(t.main_view()[c] == t.main_trace@[c]@);
    }
}

/// The row after the last row of a frame is the first row; after any other
/// row `i` it is row `i + 1`.
pub proof fn lemma_frame_wraparound(t: ExecutionTrace, i: int)
    requires
        t.wf(),
        0 <= i < t.len_view(),
    ensures
        i == t.len_view() - 1 ==> row_of(t.main_view(), (i + 1) % (t.len_view() as int)) == row_of(t.main_view(), 0),
        i < t.len_view() - 1 ==> row_of(t.main_view(), (i + 1) % (t.len_view() as int)) == row_of(t.main_view(), i + 1),
{
    let n = t.len_view() as int;
    if i == n - 1 {
        assert((i + 1) % n == 0) by {
            vstd::arithmetic::div_mod::lemma_mod_self_0(n);
        }
    } else {
        assert((i + 1) % n == i + 1) by {
            vstd::arithmetic::div_mod::lemma_small_mod((i + 1) as nat, n as nat);
        }
    }
}

/// A trace has a single auxiliary segment: the first request builds a column
/// of the trace's length, and a request that passes that segment back gets
/// none.
pub proof fn lemma_single_aux_segment(t: ExecutionTrace, rand: Seq<Felt>)
    requires
        t.wf(),
        rand.len() > 0,
        coin_draws(t.hash_view(), NUM_RAND_ROWS as nat) is Some,
    ensures
        t.aux_segment_spec(0, rand) matches Ok(Some(m)) && m.len() == 1 && m[0].len() == t.len_view(),
        t.aux_segment_spec(1, rand) == Ok::<Option<Seq<Seq<Felt>>>, TraceError>(None),
{
}

/// Two traces built from components with the same program hash have the
/// same random last row, whatever the components hold.
pub proof fn lemma_tail_rows_deterministic(p1: ComponentTraces, t1: ExecutionTrace, p2: ComponentTraces, t2: ExecutionTrace)
    requires
        p1.wf(),
        p2.wf(),
        t1.is_trace_of(p1),
        t2.is_trace_of(p2),
        p1.program_hash@ == p2.program_hash@,
    ensures
        forall|c: int| 0 <= c < TRACE_WIDTH ==> #[trigger] t1.main_view()[c][t1.len_view() - 1] == t2.main_view()[c][t2.len_view() - 1],
{
    lemma_max_trace_len_pow2();
    assert(t1.main_view()[0] == t1.main_trace@[0]@);
    assert(t2.main_view()[0] == t2.main_trace@[0]@);
    let n1 = t1.len_view() as int;
    let n2 = t2.len_view() as int;
    assert forall|c: int| 0 <= c < TRACE_WIDTH implies #[trigger] t1.main_view()[c][t1.len_view() - 1] == t2.main_view()[c][t2.len_view() - 1] by {
        assert(draw_index(TRACE_WIDTH as int, n1, c, n1 - 1) == c);
        assert(draw_index(TRACE_WIDTH as int, n2, c, n2 - 1) == c);
    }
}

} // verus!
