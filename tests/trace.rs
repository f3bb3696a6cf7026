use miden_trace::field::{Felt, MODULUS};
use miden_trace::trace::{
    finalize_trace, Component, ComponentTraces, EvaluationFrame, ExecutionTrace, PartialTrace,
    RangeCheckTrace, TraceError, TraceFragment, AUX_TABLE_WIDTH, DECODER_TRACE_WIDTH,
    MIN_STACK_DEPTH, MIN_TRACE_LEN, NUM_RAND_ROWS, RANGE_CHECK_TRACE_WIDTH, STACK_TRACE_OFFSET,
    STACK_TRACE_WIDTH, SYS_TRACE_WIDTH, TRACE_WIDTH, V_COL_IDX,
};

fn partial(width: usize, len: usize, base: u64) -> PartialTrace {
    let columns = (0..width)
        .map(|c| (0..len).map(|r| Felt::new(base + 1000 * c as u64 + r as u64)).collect())
        .collect();
    PartialTrace { columns, len }
}

fn components(clk: usize, range_len: usize, aux_len: usize, hash: [u8; 32]) -> ComponentTraces {
    let range = partial(RANGE_CHECK_TRACE_WIDTH, range_len, 400_000);
    let lookups = range.columns[3].clone();
    ComponentTraces {
        clk,
        system: partial(SYS_TRACE_WIDTH, clk, 100_000),
        decoder: partial(DECODER_TRACE_WIDTH, clk, 200_000),
        stack: partial(STACK_TRACE_WIDTH, clk, 300_000),
        range: RangeCheckTrace { trace: range, lookups },
        aux_table: partial(AUX_TABLE_WIDTH, aux_len, 500_000),
        program_hash: hash,
    }
}

fn hash(b: u8) -> [u8; 32] {
    let mut h = [0u8; 32];
    h[0] = b;
    h[31] = b.wrapping_mul(7);
    h
}

fn last_row(t: &ExecutionTrace) -> Vec<Felt> {
    let n = t.length();
    t.main_segment().iter().map(|c| c[n - 1]).collect()
}

#[test]
fn length_fifteen_steps_fits_sixteen_rows() {
    let t = ExecutionTrace::new(components(15, 10, 12, hash(1))).unwrap();
    assert_eq!(t.length(), 16);
}

#[test]
fn length_sixteen_steps_needs_thirty_two_rows() {
    let t = ExecutionTrace::new(components(16, 10, 12, hash(1))).unwrap();
    assert_eq!(t.length(), 32);
}

#[test]
fn length_is_never_below_minimum() {
    let t = ExecutionTrace::new(components(3, 2, 0, hash(1))).unwrap();
    assert_eq!(t.length(), MIN_TRACE_LEN);
}

#[test]
fn length_follows_longest_component() {
    let t = ExecutionTrace::new(components(10, 40, 5, hash(1))).unwrap();
    assert_eq!(t.length(), 64);
    let t = ExecutionTrace::new(components(10, 5, 63, hash(1))).unwrap();
    assert_eq!(t.length(), 64);
    let t = ExecutionTrace::new(components(10, 5, 64, hash(1))).unwrap();
    assert_eq!(t.length(), 128);
}

#[test]
fn inconsistent_lengths_name_the_component() {
    let mut p = components(20, 5, 5, hash(1));
    p.system = partial(SYS_TRACE_WIDTH, 19, 0);
    assert_eq!(
        ExecutionTrace::new(p).err(),
        Some(TraceError::InconsistentTraceLength(Component::System))
    );
    let mut p = components(20, 5, 5, hash(1));
    p.decoder = partial(DECODER_TRACE_WIDTH, 21, 0);
    assert_eq!(
        ExecutionTrace::new(p).err(),
        Some(TraceError::InconsistentTraceLength(Component::Decoder))
    );
    let mut p = components(20, 5, 5, hash(1));
    p.stack = partial(STACK_TRACE_WIDTH, 0, 0);
    assert_eq!(
        ExecutionTrace::new(p).err(),
        Some(TraceError::InconsistentTraceLength(Component::Stack))
    );
}

#[test]
fn every_column_has_trace_length() {
    let t = ExecutionTrace::new(components(37, 12, 50, hash(3))).unwrap();
    assert_eq!(t.main_segment().len(), TRACE_WIDTH);
    for col in t.main_segment() {
        assert_eq!(col.len(), t.length());
    }
    assert_eq!(t.layout().main_width, TRACE_WIDTH);
    assert_eq!(t.layout().aux_widths, vec![1]);
    assert!(t.meta().is_empty());
    assert_eq!(t.program_hash(), hash(3));
}

#[test]
fn columns_are_copied_then_padded_with_last_value() {
    let t = ExecutionTrace::new(components(5, 3, 0, hash(2))).unwrap();
    let m = t.main_segment();
    // system column 1: rows 0..5 copied, then the last value repeated
    for r in 0..5 {
        assert_eq!(m[1][r], Felt::new(101_000 + r as u64));
    }
    for r in 5..t.length() - NUM_RAND_ROWS {
        assert_eq!(m[1][r], Felt::new(101_004));
    }
    // an empty aux-table column is padded with zeros
    let aux0 = TRACE_WIDTH - AUX_TABLE_WIDTH;
    for r in 0..t.length() - NUM_RAND_ROWS {
        assert_eq!(m[aux0][r], Felt::zero());
    }
}

#[test]
fn tail_rows_are_random_and_deterministic() {
    let a = ExecutionTrace::new(components(16, 10, 12, hash(9))).unwrap();
    let b = ExecutionTrace::new(components(30, 3, 7, hash(9))).unwrap();
    let c = ExecutionTrace::new(components(16, 10, 12, hash(10))).unwrap();
    let ra = last_row(&a);
    assert_eq!(ra, last_row(&b));
    assert_ne!(ra, last_row(&c));
    assert!(ra.iter().all(|v| v.value < MODULUS));
    assert!(ra.iter().any(|v| *v != Felt::zero()));
    // every column holds at least two distinct values
    for col in a.main_segment() {
        assert!(col.iter().any(|v| *v != col[col.len() - 1]));
    }
}

#[test]
fn end_to_end_step_length_sixteen() {
    let t = ExecutionTrace::new(components(16, 9, 11, hash(5))).unwrap();
    assert_eq!(t.length(), 32);
    let zero = vec![Felt::zero(); TRACE_WIDTH];
    assert_ne!(last_row(&t), zero);
    let again = ExecutionTrace::new(components(16, 9, 11, hash(5))).unwrap();
    assert_eq!(last_row(&t), last_row(&again));
    assert_eq!(t.main_segment(), again.main_segment());
}

#[test]
fn finalize_trace_matches_new() {
    let (cols, hints) = finalize_trace(components(16, 9, 11, hash(5)), &hash(5)).unwrap();
    let t = ExecutionTrace::new(components(16, 9, 11, hash(5))).unwrap();
    assert_eq!(&cols, t.main_segment());
    assert_eq!(hints.lookups.len(), 32);
    let (zero_seeded, _) = ExecutionTrace::test_finalize_trace(components(16, 9, 11, hash(5))).unwrap();
    assert_eq!(zero_seeded[0][..31], cols[0][..31]);
    assert_ne!(zero_seeded[0][31], cols[0][31]);
}

#[test]
fn frame_wraps_around() {
    let t = ExecutionTrace::new(components(20, 10, 12, hash(4))).unwrap();
    let n = t.length();
    let m = t.main_segment();
    let row = |i: usize| m.iter().map(|c| c[i]).collect::<Vec<_>>();
    let mut frame = EvaluationFrame::new(TRACE_WIDTH);
    t.read_main_frame(n - 1, &mut frame);
    assert_eq!(frame.current, row(n - 1));
    assert_eq!(frame.next, row(0));
    t.read_main_frame(7, &mut frame);
    assert_eq!(frame.current, row(7));
    assert_eq!(frame.next, row(8));
}

#[test]
fn stack_states() {
    let t = ExecutionTrace::new(components(20, 10, 12, hash(4))).unwrap();
    let init = t.init_stack_state();
    let last = t.last_stack_state();
    assert_eq!(init.len(), MIN_STACK_DEPTH);
    for i in 0..MIN_STACK_DEPTH {
        assert_eq!(init[i], Felt::new(300_000 + 1000 * i as u64));
        assert_eq!(last[i], t.main_segment()[STACK_TRACE_OFFSET + i][t.length() - 2]);
        assert_eq!(last[i], Felt::new(300_000 + 1000 * i as u64 + 19));
    }
}

#[test]
fn aux_segment_is_built_once() {
    let mut t = ExecutionTrace::new(components(20, 10, 12, hash(4))).unwrap();
    let rand = vec![Felt::new(123_456_789)];
    let first = t.build_aux_segment(&Vec::new(), &rand).unwrap().unwrap();
    assert_eq!(first.len(), 1);
    assert_eq!(first[0].len(), t.length());
    let second = t.build_aux_segment(&vec![first], &rand).unwrap();
    assert!(second.is_none());
}

#[test]
fn aux_segment_needs_a_challenge() {
    let mut t = ExecutionTrace::new(components(20, 10, 12, hash(4))).unwrap();
    assert_eq!(
        t.build_aux_segment(&Vec::new(), &Vec::new()),
        Err(TraceError::MalformedAuxInputs)
    );
}

#[test]
fn aux_running_product_telescopes_when_multisets_match() {
    // the lookups equal the checked values, so every factor is one
    let mut t = ExecutionTrace::new(components(20, 10, 12, hash(4))).unwrap();
    let seg = t.build_aux_segment(&Vec::new(), &vec![Felt::new(77)]).unwrap().unwrap();
    let n = t.length();
    for r in 0..n - NUM_RAND_ROWS {
        assert_eq!(seg[0][r], Felt::one());
    }
    // the random row is drawn from a coin seeded with the program hash
    assert_ne!(seg[0][n - 1], Felt::one());
    let again = t.build_aux_segment(&Vec::new(), &vec![Felt::new(5)]).unwrap().unwrap();
    assert_eq!(seg[0][n - 1], again[0][n - 1]);
}

#[test]
fn aux_running_product_exact_value() {
    let mut p = components(20, 2, 12, hash(4));
    // checked values 400003, 400004; lookups 1, 2
    p.range.lookups = vec![Felt::new(1), Felt::new(2)];
    let mut t = ExecutionTrace::new(p).unwrap();
    let alpha = Felt::new(10);
    let seg = t.build_aux_segment(&Vec::new(), &vec![alpha]).unwrap().unwrap();
    let v = &t.main_segment()[V_COL_IDX];
    assert_eq!(v[0], Felt::new(403_000));
    assert_eq!(seg[0][0], Felt::one());
    // row 1: (alpha + 403000) / (alpha + 1)
    assert_eq!(seg[0][1].mul(Felt::new(11)), Felt::new(403_010));
    // row 2: times (alpha + 403001) / (alpha + 2)
    assert_eq!(seg[0][2].mul(Felt::new(11 * 12)), Felt::new(403_010 * 403_011));
}

#[test]
fn field_operations() {
    assert_eq!(Felt::new(MODULUS), Felt::zero());
    assert_eq!(Felt::new(MODULUS + 5).as_int(), 5);
    assert_eq!(Felt::new(MODULUS - 1).add(Felt::new(3)), Felt::new(2));
    assert_eq!(Felt::new(1 << 32).mul(Felt::new(1 << 32)), Felt::new((1 << 32) - 1));
    let x = Felt::new(987_654_321);
    assert_eq!(x.mul(x.inv()), Felt::one());
    assert_eq!(Felt::zero().inv(), Felt::zero());
}

#[test]
fn fragment_operations() {
    let mut f = TraceFragment::new(2);
    assert_eq!(f.width(), 0);
    let col: Vec<Felt> = (0..6).map(Felt::new).collect();
    let rest = f.push_column_slice(col, 4);
    assert_eq!(rest, vec![Felt::new(4), Felt::new(5)]);
    assert_eq!(f.width(), 1);
    assert_eq!(f.len(), 4);
    f.set(2, 0, Felt::new(42));
    assert_eq!(f.columns()[0], vec![Felt::new(0), Felt::new(1), Felt::new(42), Felt::new(3)]);
    let g = TraceFragment::trace_to_fragment(vec![vec![Felt::one(); 3], vec![Felt::zero(); 3]]);
    assert_eq!(g.width(), 2);
    assert_eq!(g.len(), 3);
}

#[test]
fn partial_trace_length() {
    assert_eq!(partial(3, 9, 0).trace_len(), 9);
}
