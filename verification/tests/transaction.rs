use dex1::arith::price_satisfied;
use dex1::engine::freestanding_script_args;
use dex1::hashing::hash_order;
use dex1::locate::{check_order_cell_unlock, locate_entity};
use dex1::model::{Batch, InputCell, OutputCell, Script, TxView};
use dex1::order::{LimitOrder, Order};
use dex1::validate::{creation_instance_id, validate_dex};
use dex1::Error;

fn script(code: u8, hash_type: u8, args: Vec<u8>) -> Script {
    Script { code_hash: vec![code; 32], hash_type, args }
}

fn dex_script(iid: &[u8]) -> Script {
    script(1, 0, iid.to_vec())
}

fn copy_script(s: &Script) -> Script {
    Script { code_hash: s.code_hash.clone(), hash_type: s.hash_type, args: s.args.clone() }
}

fn plain_input(lock_hash: Vec<u8>) -> InputCell {
    InputCell { lock: script(7, 0, vec![]), lock_hash, type_: None }
}

fn entity_input(s: &Script) -> InputCell {
    InputCell { lock: script(7, 0, vec![0; 20]), lock_hash: vec![7; 32], type_: Some(copy_script(s)) }
}

fn entity_output(s: &Script) -> OutputCell {
    OutputCell {
        capacity: 1000,
        lock: script(7, 0, vec![0; 20]),
        lock_hash: vec![7; 32],
        type_: Some(copy_script(s)),
        type_hash: Some(vec![11; 32]),
        data: vec![],
    }
}

fn payout_output(capacity: u64, amount: u128) -> OutputCell {
    OutputCell {
        capacity,
        lock: script(9, 0, vec![]),
        lock_hash: vec![4; 32],
        type_: None,
        type_hash: Some(vec![3; 32]),
        data: amount.to_le_bytes().to_vec(),
    }
}

fn an_order() -> Order {
    Order::Limit(LimitOrder {
        bid_token: vec![2; 32],
        ask_token: vec![3; 32],
        bid_amount: 100,
        ask_amount: 50,
        claimed_ckbytes: 500,
        recipient: vec![4; 32],
    })
}

#[test]
fn creation_accepts_exactly_the_derived_id() {
    let first_input_raw: Vec<u8> = (0u8..44).collect();
    let id = creation_instance_id(&first_input_raw, 0);
    assert_eq!(id.len(), 32);
    let s = dex_script(&id);
    let tx = TxView {
        inputs: vec![plain_input(vec![5; 32])],
        outputs: vec![entity_output(&s)],
        first_input_raw: first_input_raw.clone(),
    };
    assert_eq!(validate_dex(&tx, &s, &None, &None, None), Ok(()));

    // A single-byte mutation of the hashed input flips acceptance.
    let mut mutated = first_input_raw.clone();
    mutated[10] ^= 1;
    let tx2 = TxView {
        inputs: vec![plain_input(vec![5; 32])],
        outputs: vec![entity_output(&s)],
        first_input_raw: mutated,
    };
    assert_eq!(validate_dex(&tx2, &s, &None, &None, None), Err(Error::LinkageViolation));

    // A single-byte mutation of the instance id flips acceptance.
    let mut bad_id = id.clone();
    bad_id[0] ^= 1;
    let s2 = dex_script(&bad_id);
    let tx3 = TxView {
        inputs: vec![plain_input(vec![5; 32])],
        outputs: vec![entity_output(&s2)],
        first_input_raw,
    };
    assert_eq!(validate_dex(&tx3, &s2, &None, &None, None), Err(Error::LinkageViolation));
}

#[test]
fn creation_output_index_is_hashed() {
    let raw: Vec<u8> = vec![1, 2, 3];
    assert_ne!(creation_instance_id(&raw, 0), creation_instance_id(&raw, 1));
}

#[test]
fn creation_inside_batch_rejects() {
    let raw: Vec<u8> = vec![1, 2, 3];
    let id = creation_instance_id(&raw, 0);
    let s = dex_script(&id);
    let tx = TxView {
        inputs: vec![plain_input(vec![5; 32])],
        outputs: vec![entity_output(&s)],
        first_input_raw: raw,
    };
    let batches = Some(vec![]);
    assert_eq!(validate_dex(&tx, &s, &batches, &None, None), Err(Error::StructuralError));
}

#[test]
fn wrong_args_length_rejects() {
    let s = dex_script(&[9; 31]);
    let tx = TxView { inputs: vec![], outputs: vec![], first_input_raw: vec![] };
    assert_eq!(validate_dex(&tx, &s, &None, &None, None), Err(Error::StructuralError));
}

#[test]
fn two_entity_outputs_reject() {
    let s = dex_script(&[9; 32]);
    let tx = TxView {
        inputs: vec![plain_input(vec![5; 32])],
        outputs: vec![entity_output(&s), entity_output(&s)],
        first_input_raw: vec![1],
    };
    assert_eq!(validate_dex(&tx, &s, &None, &None, None), Err(Error::StructuralError));
}

#[test]
fn two_entity_inputs_reject() {
    let s = dex_script(&[9; 32]);
    let tx = TxView {
        inputs: vec![entity_input(&s), entity_input(&s)],
        outputs: vec![entity_output(&s)],
        first_input_raw: vec![1],
    };
    assert_eq!(validate_dex(&tx, &s, &None, &None, Some(5)), Err(Error::StructuralError));
}

#[test]
fn entity_output_with_data_rejects() {
    let s = dex_script(&[9; 32]);
    let mut out = entity_output(&s);
    out.data = vec![1];
    let tx = TxView {
        inputs: vec![plain_input(vec![5; 32])],
        outputs: vec![out],
        first_input_raw: vec![1],
    };
    assert_eq!(validate_dex(&tx, &s, &None, &None, None), Err(Error::StructuralError));
}

#[test]
fn locate_reports_both_indices() {
    let s = dex_script(&[9; 32]);
    let tx = TxView {
        inputs: vec![plain_input(vec![5; 32]), entity_input(&s)],
        outputs: vec![payout_output(1, 0), entity_output(&s)],
        first_input_raw: vec![],
    };
    assert_eq!(locate_entity(&tx, &s), Ok((Some(1), 1)));
}

#[test]
fn update_with_batch_orders_accepts() {
    let s = dex_script(&[9; 32]);
    let tx = TxView {
        inputs: vec![entity_input(&s)],
        outputs: vec![entity_output(&s), payout_output(600, 50)],
        first_input_raw: vec![],
    };
    let batches = Some(vec![Batch {
        input_cell_start: 5,
        input_cells: 0,
        output_cell_start: 5,
        output_cells: 0,
        orders: Some(vec![an_order()]),
    }]);
    assert_eq!(validate_dex(&tx, &s, &batches, &None, Some(10)), Ok(()));
}

#[test]
fn update_with_two_batches_consumes_outputs_in_order() {
    let s = dex_script(&[9; 32]);
    let tx = TxView {
        inputs: vec![entity_input(&s)],
        outputs: vec![
            entity_output(&s),
            payout_output(600, 50),
            payout_output(100, 7),
        ],
        first_input_raw: vec![],
    };
    let market = Order::Market(dex1::order::MarketOrder {
        ask_token: vec![3; 32],
        recipient: vec![4; 32],
        claimed_ckbytes: 100,
    });
    let batches = Some(vec![
        Batch {
            input_cell_start: 5,
            input_cells: 0,
            output_cell_start: 5,
            output_cells: 0,
            orders: Some(vec![an_order()]),
        },
        Batch {
            input_cell_start: 6,
            input_cells: 0,
            output_cell_start: 6,
            output_cells: 0,
            orders: Some(vec![market]),
        },
    ]);
    assert_eq!(validate_dex(&tx, &s, &batches, &None, Some(10)), Ok(()));

    // With the orders short one output cell, the run must fail.
    let tx_short = TxView {
        inputs: vec![entity_input(&s)],
        outputs: vec![entity_output(&s), payout_output(600, 50)],
        first_input_raw: vec![],
    };
    let batches2 = Some(vec![
        Batch {
            input_cell_start: 5,
            input_cells: 0,
            output_cell_start: 5,
            output_cells: 0,
            orders: Some(vec![an_order()]),
        },
        Batch {
            input_cell_start: 6,
            input_cells: 0,
            output_cell_start: 6,
            output_cells: 0,
            orders: Some(vec![Order::Market(dex1::order::MarketOrder {
                ask_token: vec![3; 32],
                recipient: vec![4; 32],
                claimed_ckbytes: 100,
            })]),
        },
    ]);
    assert_eq!(
        validate_dex(&tx_short, &s, &batches2, &None, Some(10)),
        Err(Error::StructuralError)
    );
}

#[test]
fn update_changed_entity_lock_rejects() {
    let s = dex_script(&[9; 32]);
    let mut out = entity_output(&s);
    out.lock = script(7, 0, vec![1; 20]);
    let tx = TxView {
        inputs: vec![entity_input(&s)],
        outputs: vec![out],
        first_input_raw: vec![],
    };
    assert_eq!(validate_dex(&tx, &s, &None, &None, Some(10)), Err(Error::StructuralError));
}

#[test]
fn update_without_header_rejects() {
    let s = dex_script(&[9; 32]);
    let tx = TxView {
        inputs: vec![entity_input(&s)],
        outputs: vec![entity_output(&s)],
        first_input_raw: vec![],
    };
    assert_eq!(validate_dex(&tx, &s, &None, &None, None), Err(Error::StructuralError));
}

#[test]
fn entity_output_inside_batch_output_span_rejects() {
    let s = dex_script(&[9; 32]);
    let tx = TxView {
        inputs: vec![entity_input(&s)],
        outputs: vec![entity_output(&s), payout_output(600, 50)],
        first_input_raw: vec![],
    };
    let batches = Some(vec![Batch {
        input_cell_start: 5,
        input_cells: 0,
        output_cell_start: 0,
        output_cells: 3,
        orders: Some(vec![an_order()]),
    }]);
    assert_eq!(validate_dex(&tx, &s, &batches, &None, Some(10)), Err(Error::StructuralError));
}

#[test]
fn entity_input_inside_batch_input_span_rejects() {
    let s = dex_script(&[9; 32]);
    let tx = TxView {
        inputs: vec![entity_input(&s)],
        outputs: vec![entity_output(&s), payout_output(600, 50)],
        first_input_raw: vec![],
    };
    let batches = Some(vec![Batch {
        input_cell_start: 0,
        input_cells: 1,
        output_cell_start: 5,
        output_cells: 0,
        orders: Some(vec![an_order()]),
    }]);
    assert_eq!(validate_dex(&tx, &s, &batches, &None, Some(10)), Err(Error::StructuralError));
}

fn freestanding_input(s: &Script, o: &Order) -> InputCell {
    let h = hash_order(o);
    let args = freestanding_script_args(&s.args, &vec![6; 32], &h);
    InputCell {
        lock: Script { code_hash: s.code_hash.clone(), hash_type: s.hash_type, args },
        lock_hash: vec![8; 32],
        type_: None,
    }
}

#[test]
fn freestanding_order_is_paired_and_validated() {
    let s = dex_script(&[9; 32]);
    let o = an_order();
    let tx = TxView {
        inputs: vec![entity_input(&s), freestanding_input(&s, &o)],
        outputs: vec![entity_output(&s), payout_output(600, 50)],
        first_input_raw: vec![],
    };
    let msg = Some(vec![an_order()]);
    assert_eq!(validate_dex(&tx, &s, &None, &msg, Some(10)), Ok(()));
}

#[test]
fn freestanding_wrong_order_hash_rejects() {
    let s = dex_script(&[9; 32]);
    let o = an_order();
    let other = Order::Limit(LimitOrder {
        bid_token: vec![2; 32],
        ask_token: vec![3; 32],
        bid_amount: 101,
        ask_amount: 50,
        claimed_ckbytes: 500,
        recipient: vec![4; 32],
    });
    let tx = TxView {
        inputs: vec![entity_input(&s), freestanding_input(&s, &other)],
        outputs: vec![entity_output(&s), payout_output(600, 50)],
        first_input_raw: vec![],
    };
    let msg = Some(vec![o]);
    assert_eq!(validate_dex(&tx, &s, &None, &msg, Some(10)), Err(Error::LinkageViolation));
}

#[test]
fn leftover_freestanding_orders_reject() {
    let s = dex_script(&[9; 32]);
    let tx = TxView {
        inputs: vec![entity_input(&s)],
        outputs: vec![entity_output(&s), payout_output(600, 50)],
        first_input_raw: vec![],
    };
    let msg = Some(vec![an_order()]);
    assert_eq!(validate_dex(&tx, &s, &None, &msg, Some(10)), Err(Error::StructuralError));
}

fn unlock_script(iid: &[u8; 32], owner: &[u8; 32], order_hash: &[u8; 32]) -> Script {
    let mut args = Vec::new();
    args.extend_from_slice(iid);
    args.extend_from_slice(owner);
    args.extend_from_slice(order_hash);
    script(1, 0, args)
}

#[test]
fn unlock_by_settlement_path() {
    let s = unlock_script(&[9; 32], &[6; 32], &[5; 32]);
    let dex_type = dex_script(&[9; 32]);
    let inputs = vec![InputCell {
        lock: script(7, 0, vec![]),
        lock_hash: vec![1; 32],
        type_: Some(dex_type),
    }];
    assert_eq!(check_order_cell_unlock(&inputs, &s, &None, &None), Ok(true));
}

#[test]
fn unlock_by_settlement_path_matches_args_prefix() {
    // The settlement condition reads the first 32 argument bytes only:
    // longer type arguments with a matching prefix still authorize.
    let s = unlock_script(&[9; 32], &[6; 32], &[5; 32]);
    let mut long_args = vec![9; 32];
    long_args.push(0xaa);
    let t = script(1, 0, long_args);
    let inputs = vec![InputCell {
        lock: script(7, 0, vec![]),
        lock_hash: vec![1; 32],
        type_: Some(t),
    }];
    assert_eq!(check_order_cell_unlock(&inputs, &s, &None, &None), Ok(true));

    // A type with fewer than 32 argument bytes never authorizes.
    let short = script(1, 0, vec![9; 31]);
    let inputs = vec![InputCell {
        lock: script(7, 0, vec![]),
        lock_hash: vec![1; 32],
        type_: Some(short),
    }];
    assert_eq!(check_order_cell_unlock(&inputs, &s, &None, &None), Ok(false));
}

#[test]
fn unlock_by_owner_cancel_path() {
    let s = unlock_script(&[9; 32], &[6; 32], &[5; 32]);
    let inputs = vec![plain_input(vec![6; 32])];
    assert_eq!(check_order_cell_unlock(&inputs, &s, &None, &None), Ok(true));
}

#[test]
fn unlock_without_either_path_fails() {
    let s = unlock_script(&[9; 32], &[6; 32], &[5; 32]);
    let inputs = vec![plain_input(vec![1; 32])];
    assert_eq!(check_order_cell_unlock(&inputs, &s, &None, &None), Ok(false));
}

#[test]
fn unlock_self_reference_guard_rejects() {
    let s = unlock_script(&[9; 32], &[6; 32], &[5; 32]);
    let inputs = vec![plain_input(vec![6; 32])];
    let same = Some(copy_script(&s));
    assert_eq!(check_order_cell_unlock(&inputs, &s, &same, &None), Err(Error::StructuralError));
}

#[test]
fn price_comparison_is_exact() {
    assert!(price_satisfied(20, 100, 50, 40));
    assert!(!price_satisfied(19, 100, 50, 40));
    // Near the 128-bit edge the cross-multiplication must not overflow.
    assert!(price_satisfied(u128::MAX, u128::MAX, u128::MAX, u128::MAX - 1));
    assert!(!price_satisfied(u128::MAX - 1, u128::MAX, u128::MAX, u128::MAX));
}
