use dex1::engine::{
    freestanding_script_args, output_cell_udt_amount, process_order, validate_limit_order,
    validate_market_order,
};
use dex1::hashing::hash_order;
use dex1::model::{OutputCell, Script};
use dex1::order::{carve_limit_order, encode_order, LimitOrder, MarketOrder, Order};
use dex1::Error;

fn script(code: u8, hash_type: u8, args: Vec<u8>) -> Script {
    Script { code_hash: vec![code; 32], hash_type, args }
}

fn dex_script(iid: &[u8]) -> Script {
    script(1, 0, iid.to_vec())
}

fn limit_order(bid: u128, ask: u128, claimed: u64) -> Order {
    Order::Limit(LimitOrder {
        bid_token: vec![2; 32],
        ask_token: vec![3; 32],
        bid_amount: bid,
        ask_amount: ask,
        claimed_ckbytes: claimed,
        recipient: vec![4; 32],
    })
}

fn market_order(claimed: u64) -> MarketOrder {
    MarketOrder { ask_token: vec![3; 32], recipient: vec![4; 32], claimed_ckbytes: claimed }
}

fn amount_data(v: u128) -> Vec<u8> {
    v.to_le_bytes().to_vec()
}

fn plain_output(capacity: u64, lock_hash: Vec<u8>, type_hash: Vec<u8>, data: Vec<u8>) -> OutputCell {
    OutputCell {
        capacity,
        lock: script(9, 0, vec![]),
        lock_hash,
        type_: None,
        type_hash: Some(type_hash),
        data,
    }
}

fn continuation_output(s: &Script, args: Vec<u8>, type_hash: Vec<u8>, amount: u128, capacity: u64) -> OutputCell {
    OutputCell {
        capacity,
        lock: Script { code_hash: s.code_hash.clone(), hash_type: s.hash_type, args },
        lock_hash: vec![8; 32],
        type_: None,
        type_hash: Some(type_hash),
        data: amount_data(amount),
    }
}

#[test]
fn full_fill_accepts() {
    let s = dex_script(&[9; 32]);
    let o = limit_order(100, 50, 500);
    let outputs = vec![plain_output(600, vec![4; 32], vec![3; 32], amount_data(50))];
    assert_eq!(validate_limit_order(&outputs, &s, &o, 0), Ok(1));
}

#[test]
fn full_fill_underpaid_rejects() {
    let s = dex_script(&[9; 32]);
    let o = limit_order(100, 50, 500);
    let outputs = vec![plain_output(600, vec![4; 32], vec![3; 32], amount_data(49))];
    assert_eq!(validate_limit_order(&outputs, &s, &o, 0), Err(Error::ConservationViolation));
}

#[test]
fn full_fill_low_capacity_rejects() {
    let s = dex_script(&[9; 32]);
    let o = limit_order(100, 50, 500);
    let outputs = vec![plain_output(499, vec![4; 32], vec![3; 32], amount_data(50))];
    assert_eq!(validate_limit_order(&outputs, &s, &o, 0), Err(Error::ConservationViolation));
}

#[test]
fn full_fill_wrong_recipient_rejects() {
    let s = dex_script(&[9; 32]);
    let o = limit_order(100, 50, 500);
    let outputs = vec![plain_output(600, vec![5; 32], vec![3; 32], amount_data(50))];
    assert_eq!(validate_limit_order(&outputs, &s, &o, 0), Err(Error::StructuralError));
}

fn partial_fill_outputs(s: &Script, o: &Order, freestanding: u128, paid: u128) -> Vec<OutputCell> {
    // Continuation cell holding the unfilled remainder, then the payout cell.
    let carved = carve_limit_order(o, freestanding, 50 - paid, 300);
    let h = hash_order(&carved);
    let args = freestanding_script_args(&s.args, &vec![4; 32], &h);
    let out0 = continuation_output(s, args, vec![2; 32], freestanding, 300);
    let out1 = plain_output(250, vec![4; 32], vec![3; 32], amount_data(paid));
    vec![out0, out1]
}

#[test]
fn partial_fill_accepts_and_consumes_two_outputs() {
    let s = dex_script(&[9; 32]);
    let o = limit_order(100, 50, 500);
    let outputs = partial_fill_outputs(&s, &o, 60, 20);
    assert_eq!(validate_limit_order(&outputs, &s, &o, 0), Ok(2));
}

#[test]
fn price_boundary_rejects_nineteen_accepts_twenty() {
    // bid 100, ask 50, freestanding 60 so actual_bid = 40: paid * 100 >= 2000.
    let s = dex_script(&[9; 32]);
    let o = limit_order(100, 50, 500);
    let nineteen = partial_fill_outputs(&s, &o, 60, 19);
    assert_eq!(validate_limit_order(&nineteen, &s, &o, 0), Err(Error::PriceViolation));
    let twenty = partial_fill_outputs(&s, &o, 60, 20);
    assert_eq!(validate_limit_order(&twenty, &s, &o, 0), Ok(2));
}

#[test]
fn partial_fill_wrong_carved_hash_rejects() {
    let s = dex_script(&[9; 32]);
    let o = limit_order(100, 50, 500);
    let mut outputs = partial_fill_outputs(&s, &o, 60, 20);
    // Carve with the wrong remaining ask: linkage must fail.
    let wrong = carve_limit_order(&o, 60, 31, 300);
    let h = hash_order(&wrong);
    outputs[0].lock.args = freestanding_script_args(&s.args, &vec![4; 32], &h);
    assert_eq!(validate_limit_order(&outputs, &s, &o, 0), Err(Error::LinkageViolation));
}

#[test]
fn no_fill_accepts_with_original_order_hash() {
    let s = dex_script(&[9; 32]);
    let o = limit_order(100, 50, 500);
    let h = hash_order(&o);
    let args = freestanding_script_args(&s.args, &vec![4; 32], &h);
    let outputs = vec![continuation_output(&s, args, vec![2; 32], 100, 500)];
    assert_eq!(validate_limit_order(&outputs, &s, &o, 0), Ok(1));
}

#[test]
fn no_fill_mutated_triple_rejects_everywhere() {
    // Mutating any single byte of the 96-byte triple must reject.
    let s = dex_script(&[9; 32]);
    let o = limit_order(100, 50, 500);
    let h = hash_order(&o);
    let args = freestanding_script_args(&s.args, &vec![4; 32], &h);
    for j in [0usize, 31, 32, 63, 64, 95] {
        let mut bad = args.clone();
        bad[j] ^= 1;
        let outputs = vec![continuation_output(&s, bad, vec![2; 32], 100, 500)];
        assert_eq!(
            validate_limit_order(&outputs, &s, &o, 0),
            Err(Error::LinkageViolation),
            "byte {} should break the linkage",
            j
        );
    }
}

#[test]
fn market_order_minimum_ask_boundaries() {
    let s = dex_script(&[9; 32]);
    for (realized, expect_ok) in [(999u128, false), (1000, true), (1001, true)] {
        let o = Order::MarketWithMinimumAsk(market_order(100), 1000);
        let outputs = vec![plain_output(100, vec![4; 32], vec![3; 32], amount_data(realized))];
        let r = process_order(&outputs, &s, 0, &o, 0);
        if expect_ok {
            assert_eq!(r, Ok(1));
        } else {
            assert_eq!(r, Err(Error::ConservationViolation));
        }
    }
}

#[test]
fn market_order_realized_amount_is_encoded_balance() {
    let outputs = vec![plain_output(100, vec![4; 32], vec![3; 32], amount_data(123456789))];
    let r = validate_market_order(&outputs, &market_order(100), 0);
    assert_eq!(r, Ok((1, 123456789)));
}

#[test]
fn deadline_order_strictly_less_than() {
    let s = dex_script(&[9; 32]);
    let inner = LimitOrder {
        bid_token: vec![2; 32],
        ask_token: vec![3; 32],
        bid_amount: 100,
        ask_amount: 50,
        claimed_ckbytes: 500,
        recipient: vec![4; 32],
    };
    let o = Order::LimitWithDeadline(inner, 700);
    let outputs = vec![plain_output(600, vec![4; 32], vec![3; 32], amount_data(50))];
    // Block number equal to the deadline rejects; deadline - 1 accepts.
    assert_eq!(process_order(&outputs, &s, 700, &o, 0), Err(Error::TemporalViolation));
    assert_eq!(process_order(&outputs, &s, 699, &o, 0), Ok(1));
}

#[test]
fn carve_updates_exactly_the_amounts_and_is_idempotent() {
    let o = limit_order(100, 50, 500);
    let carved = carve_limit_order(&o, 60, 30, 300);
    match &carved {
        Order::Limit(l) => {
            assert_eq!(l.bid_amount, 60);
            assert_eq!(l.ask_amount, 30);
            assert_eq!(l.claimed_ckbytes, 300);
            assert_eq!(l.bid_token, vec![2; 32]);
            assert_eq!(l.ask_token, vec![3; 32]);
            assert_eq!(l.recipient, vec![4; 32]);
        },
        _ => panic!("carving must keep the variant"),
    }
    let again = carve_limit_order(&carved, 60, 30, 300);
    assert_eq!(encode_order(&again), encode_order(&carved));
}

#[test]
fn order_hash_is_not_the_encoding() {
    let o = limit_order(100, 50, 500);
    let h = hash_order(&o);
    assert_eq!(h.len(), 32);
    assert_ne!(h, encode_order(&o));
    // A different order hashes differently.
    let other = limit_order(101, 50, 500);
    assert_ne!(h, hash_order(&other));
}

#[test]
fn udt_amount_reads_first_sixteen_bytes() {
    let mut c = plain_output(1, vec![0; 32], vec![0; 32], amount_data(77));
    c.data.extend_from_slice(&[0xff; 4]);
    assert_eq!(output_cell_udt_amount(&c), Some(77));
    c.data.truncate(15);
    assert_eq!(output_cell_udt_amount(&c), None);
}
