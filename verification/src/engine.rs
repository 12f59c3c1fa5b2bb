//! The order engine: consumes orders one at a time, walking a cursor over
//! output cells, and validates fill semantics, price, conservation and the
//! continuation-cell linkage per order kind.

use vstd::prelude::*;

use crate::arith::price_satisfied;
use crate::bytes::{append_bytes, bytes_eq, read_u128_le, u128_from_le};
use crate::hashing::{hash_order, order_hash};
use crate::model::{script_family, script_same_family, OutputCell, Script};
use crate::order::{
    carve_limit_order, limit_fields_of, order_is_limit_like, spec_carve, MarketOrder, Order,
};
use crate::Error;

verus! {

/// The 96-byte argument triple of a continuation cell:
/// [instance id | recipient lock-hash | pending-order content hash].
pub open spec fn freestanding_args_of(iid: Seq<u8>, recipient: Seq<u8>, h: Seq<u8>) -> Seq<u8> {
    iid + recipient + h
}

/// Builds the continuation-cell argument triple.
pub fn freestanding_script_args(iid: &Vec<u8>, recipient: &Vec<u8>, order_hash: &Vec<u8>) -> (r:
    Vec<u8>)
    ensures
        r@ == freestanding_args_of(iid@, recipient@, order_hash@),
{
    let mut r: Vec<u8> = Vec::new();
    append_bytes(&mut r, iid);
    append_bytes(&mut r, recipient);
    append_bytes(&mut r, order_hash);
    r
}

/// The token balance a cell's data carries, when its data is long enough to
/// hold one.
pub fn output_cell_udt_amount(c: &OutputCell) -> (r: Option<u128>)
    ensures
        c.data@.len() >= 16 ==> r == Some(u128_from_le(c.data@)),
        c.data@.len() < 16 ==> r is None,
{
    if c.data.len() < 16 {
        None
    } else {
        Some(read_u128_le(&c.data))
    }
}

/// An executable cursor result agrees with a specification-level one.
pub open spec fn cursor_result_matches(r: Result<usize, Error>, s: Result<int, Error>) -> bool {
    match r {
        Ok(c) => s == Ok::<int, Error>(c as int),
        Err(e) => s == Err::<int, Error>(e),
    }
}

/// An executable market-order result agrees with a specification-level one.
pub open spec fn market_result_matches(
    r: Result<(usize, u128), Error>,
    s: Result<(int, u128), Error>,
) -> bool {
    match r {
        Ok((c, a)) => s == Ok::<(int, u128), Error>((c as int, a)),
        Err(e) => s == Err::<(int, u128), Error>(e),
    }
}

/// The partial-fill arm of a limit order: the continuation cell at `cursor`
/// holds `freestanding_amount < bid_amount` of the bid token, and the next
/// output pays the recipient. The price invariant is cross-multiplied, the
/// two capacities together must cover the claimed payout, and the
/// continuation cell's arguments must authenticate the carved order.
pub open spec fn spec_partial_fill_step(
    outputs: Seq<OutputCell>,
    script: Script,
    o: Order,
    cursor: int,
) -> Result<int, Error>
    recommends
        order_is_limit_like(o),
        0 <= cursor < outputs.len(),
{
    let l = limit_fields_of(o);
    let out0 = outputs[cursor];
    let freestanding_amount = u128_from_le(out0.data@);
    if cursor + 1 >= outputs.len() {
        Err(Error::StructuralError)
    } else {
        let out1 = outputs[cursor + 1];
        if out1.lock_hash@ != l.recipient@ {
            Err(Error::StructuralError)
        } else if !(out1.type_hash matches Some(th) && th@ == l.ask_token@) {
            Err(Error::StructuralError)
        } else if out1.data@.len() < 16 {
            Err(Error::StructuralError)
        } else {
            let actual_bid = (l.bid_amount - freestanding_amount) as u128;
            let actual_paid = u128_from_le(out1.data@);
            if actual_paid * l.bid_amount < l.ask_amount * actual_bid {
                Err(Error::PriceViolation)
            } else if out0.capacity + out1.capacity > u64::MAX {
                Err(Error::ConservationViolation)
            } else if out0.capacity + out1.capacity < l.claimed_ckbytes {
                Err(Error::ConservationViolation)
            } else if actual_paid > l.ask_amount {
                Err(Error::ConservationViolation)
            } else {
                let carved = spec_carve(
                    o,
                    freestanding_amount,
                    (l.ask_amount - actual_paid) as u128,
                    out0.capacity,
                );
                if out0.lock.args@ != freestanding_args_of(
                    script.args@,
                    l.recipient@,
                    order_hash(carved),
                ) {
                    Err(Error::LinkageViolation)
                } else {
                    Ok(cursor + 2)
                }
            }
        }
    }
}

/// One limit order consumed against the outputs at `cursor`. Market-order
/// variants are rejected outright: they never reach this step.
pub open spec fn spec_limit_order_step(
    outputs: Seq<OutputCell>,
    script: Script,
    o: Order,
    cursor: int,
) -> Result<int, Error> {
    if !order_is_limit_like(o) {
        Err(Error::StructuralError)
    } else {
        let l = limit_fields_of(o);
        if cursor >= outputs.len() {
            Err(Error::StructuralError)
        } else {
            let out0 = outputs[cursor];
            if script_family(out0.lock, script) {
                // Continuation cell: must carry the bid token.
                if !(out0.type_hash matches Some(th) && th@ == l.bid_token@) {
                    Err(Error::StructuralError)
                } else if out0.data@.len() < 16 {
                    Err(Error::StructuralError)
                } else {
                    let freestanding_amount = u128_from_le(out0.data@);
                    if freestanding_amount < l.bid_amount {
                        spec_partial_fill_step(outputs, script, o, cursor)
                    } else {
                        // No fill: the cell carries the original order forward.
                        if out0.capacity < l.claimed_ckbytes {
                            Err(Error::ConservationViolation)
                        } else if out0.lock.args@ != freestanding_args_of(
                            script.args@,
                            l.recipient@,
                            order_hash(o),
                        ) {
                            Err(Error::LinkageViolation)
                        } else {
                            Ok(cursor + 1)
                        }
                    }
                }
            } else {
                // Full fill: the output pays the recipient in the ask token.
                if !(out0.type_hash matches Some(th) && th@ == l.ask_token@) {
                    Err(Error::StructuralError)
                } else if out0.lock_hash@ != l.recipient@ {
                    Err(Error::StructuralError)
                } else if out0.data@.len() < 16 {
                    Err(Error::StructuralError)
                } else if u128_from_le(out0.data@) < l.ask_amount {
                    Err(Error::ConservationViolation)
                } else if out0.capacity < l.claimed_ckbytes {
                    Err(Error::ConservationViolation)
                } else {
                    Ok(cursor + 1)
                }
            }
        }
    }
}

/// One market order consumed against the output at `cursor`; on success the
/// realized ask amount is the output cell's encoded token balance, exactly.
pub open spec fn spec_market_order_step(
    outputs: Seq<OutputCell>,
    m: MarketOrder,
    cursor: int,
) -> Result<(int, u128), Error> {
    if cursor >= outputs.len() {
        Err(Error::StructuralError)
    } else {
        let out0 = outputs[cursor];
        if !(out0.type_hash matches Some(th) && th@ == m.ask_token@) {
            Err(Error::StructuralError)
        } else if out0.lock_hash@ != m.recipient@ {
            Err(Error::StructuralError)
        } else if out0.capacity < m.claimed_ckbytes {
            Err(Error::ConservationViolation)
        } else if out0.data@.len() < 16 {
            Err(Error::StructuralError)
        } else {
            Ok((cursor + 1, u128_from_le(out0.data@)))
        }
    }
}

/// One order of any kind consumed at `cursor`: a deadline order requires the
/// entity input's block number strictly below its deadline, a
/// minimum-ask market order requires the realized amount to reach the
/// claimed minimum.
pub open spec fn spec_process_order(
    outputs: Seq<OutputCell>,
    script: Script,
    header_number: u64,
    o: Order,
    cursor: int,
) -> Result<int, Error> {
    match o {
        Order::Limit(_) => spec_limit_order_step(outputs, script, o, cursor),
        Order::LimitWithDeadline(_, deadline) => if header_number >= deadline {
            Err(Error::TemporalViolation)
        } else {
            spec_limit_order_step(outputs, script, o, cursor)
        },
        Order::Market(m) => match spec_market_order_step(outputs, m, cursor) {
            Ok((c, _)) => Ok(c),
            Err(e) => Err(e),
        },
        Order::MarketWithMinimumAsk(m, minimum_ask) => match spec_market_order_step(
            outputs,
            m,
            cursor,
        ) {
            Ok((c, amt)) => if amt < minimum_ask {
                Err(Error::ConservationViolation)
            } else {
                Ok(c)
            },
            Err(e) => Err(e),
        },
    }
}

/// A whole order list consumed in order, threading the cursor.
pub open spec fn spec_run_orders(
    outputs: Seq<OutputCell>,
    script: Script,
    header_number: u64,
    orders: Seq<Order>,
    cursor: int,
) -> Result<int, Error>
    decreases orders.len(),
{
    if orders.len() == 0 {
        Ok(cursor)
    } else {
        match spec_process_order(outputs, script, header_number, orders[0], cursor) {
            Ok(c) => spec_run_orders(outputs, script, header_number, orders.skip(1), c),
            Err(e) => Err(e),
        }
    }
}

/// Running a concatenation of order lists is running the first, then the
/// second from the cursor the first one reached.
pub proof fn lemma_run_orders_append(
    outputs: Seq<OutputCell>,
    script: Script,
    header_number: u64,
    s1: Seq<Order>,
    s2: Seq<Order>,
    cursor: int,
)
    ensures
        spec_run_orders(outputs, script, header_number, s1 + s2, cursor) == (
        match spec_run_orders(outputs, script, header_number, s1, cursor) {
            Ok(c) => spec_run_orders(outputs, script, header_number, s2, c),
            Err(e) => Err(e),
        }),
    decreases s1.len(),
{
    if s1.len() == 0 {
        assert(s1 + s2 =~= s2);
    } else {
        assert((s1 + s2)[0] == s1[0]);
        assert((s1 + s2).skip(1) =~= s1.skip(1) + s2);
        match spec_process_order(outputs, script, header_number, s1[0], cursor) {
            Ok(c) => {
                lemma_run_orders_append(outputs, script, header_number, s1.skip(1), s2, c);
            },
            Err(_) => {},
        }
    }
}

/// A successfully consumed order advances the cursor.
pub proof fn lemma_process_order_advances(
    outputs: Seq<OutputCell>,
    script: Script,
    header_number: u64,
    o: Order,
    cursor: int,
)
    ensures
        spec_process_order(outputs, script, header_number, o, cursor) matches Ok(c) ==> c > cursor,
{
}

/// The cursor never moves backwards over a successfully consumed order list.
pub proof fn lemma_run_orders_advances(
    outputs: Seq<OutputCell>,
    script: Script,
    header_number: u64,
    orders: Seq<Order>,
    cursor: int,
)
    ensures
        spec_run_orders(outputs, script, header_number, orders, cursor) matches Ok(c) ==> c
            >= cursor,
    decreases orders.len(),
{
    if orders.len() > 0 {
        match spec_process_order(outputs, script, header_number, orders[0], cursor) {
            Ok(c) => {
                lemma_process_order_advances(outputs, script, header_number, orders[0], cursor);
                lemma_run_orders_advances(outputs, script, header_number, orders.skip(1), c);
            },
            Err(_) => {},
        }
    }
}

/// Mutating any single byte of a continuation cell's argument triple away
/// from the expected (instance id, recipient, order-hash) bytes makes an
/// otherwise-valid unfilled limit order reject with a linkage violation.
pub proof fn lemma_continuation_linkage_mutation(
    outputs: Seq<OutputCell>,
    script: Script,
    o: Order,
    cursor: int,
    j: int,
)
    requires
        order_is_limit_like(o),
        0 <= cursor < outputs.len(),
        script_family(outputs[cursor].lock, script),
        outputs[cursor].type_hash matches Some(th) && th@ == limit_fields_of(o).bid_token@,
        outputs[cursor].data@.len() >= 16,
        u128_from_le(outputs[cursor].data@) >= limit_fields_of(o).bid_amount,
        outputs[cursor].capacity >= limit_fields_of(o).claimed_ckbytes,
        outputs[cursor].lock.args@[j] != freestanding_args_of(
            script.args@,
            limit_fields_of(o).recipient@,
            order_hash(o),
        )[j],
    ensures
        spec_limit_order_step(outputs, script, o, cursor) == Err::<int, Error>(
            Error::LinkageViolation,
        ),
{
    let triple = freestanding_args_of(script.args@, limit_fields_of(o).recipient@, order_hash(o));
    assert(outputs[cursor].lock.args@ != triple);
}

/// Validates one limit order at `cursor`, returning the cursor past the one
/// or two output cells it consumed.
pub fn validate_limit_order(
    outputs: &Vec<OutputCell>,
    script: &Script,
    o: &Order,
    cursor: usize,
) -> (r: Result<usize, Error>)
    ensures
        cursor_result_matches(r, spec_limit_order_step(outputs@, *script, *o, cursor as int)),
{
    let l = match o {
        Order::Limit(l) => l,
        Order::LimitWithDeadline(l, _) => l,
        Order::Market(_) => {
            return Err(Error::StructuralError);
        },
        Order::MarketWithMinimumAsk(_, _) => {
            return Err(Error::StructuralError);
        },
    };
    if cursor >= outputs.len() {
        return Err(Error::StructuralError);
    }
    let out0 = &outputs[cursor];
    if script_same_family(&out0.lock, script) {
        match &out0.type_hash {
            None => {
                return Err(Error::StructuralError);
            },
            Some(th) => {
                if !bytes_eq(th, &l.bid_token) {
                    return Err(Error::StructuralError);
                }
            },
        }
        if out0.data.len() < 16 {
            return Err(Error::StructuralError);
        }
        let freestanding_amount = read_u128_le(&out0.data);
        if freestanding_amount < l.bid_amount {
            // Partial fill: an additional cell pays the filled tokens out.
            if cursor + 1 >= outputs.len() {
                return Err(Error::StructuralError);
            }
            let out1 = &outputs[cursor + 1];
            if !bytes_eq(&out1.lock_hash, &l.recipient) {
                return Err(Error::StructuralError);
            }
            match &out1.type_hash {
                None => {
                    return Err(Error::StructuralError);
                },
                Some(th) => {
                    if !bytes_eq(th, &l.ask_token) {
                        return Err(Error::StructuralError);
                    }
                },
            }
            if out1.data.len() < 16 {
                return Err(Error::StructuralError);
            }
            let actual_bid = l.bid_amount - freestanding_amount;
            let actual_paid = read_u128_le(&out1.data);
            if !price_satisfied(actual_paid, l.bid_amount, l.ask_amount, actual_bid) {
                return Err(Error::PriceViolation);
            }
            if out0.capacity > u64::MAX - out1.capacity {
                return Err(Error::ConservationViolation);
            }
            if out0.capacity + out1.capacity < l.claimed_ckbytes {
                return Err(Error::ConservationViolation);
            }
            if actual_paid > l.ask_amount {
                return Err(Error::ConservationViolation);
            }
            let carved = carve_limit_order(
                o,
                freestanding_amount,
                l.ask_amount - actual_paid,
                out0.capacity,
            );
            let h = hash_order(&carved);
            let expected = freestanding_script_args(&script.args, &l.recipient, &h);
            if !bytes_eq(&out0.lock.args, &expected) {
                return Err(Error::LinkageViolation);
            }
            Ok(cursor + 2)
        } else {
            // No fill: the continuation cell carries the original order.
            if out0.capacity < l.claimed_ckbytes {
                return Err(Error::ConservationViolation);
            }
            let h = hash_order(o);
            let expected = freestanding_script_args(&script.args, &l.recipient, &h);
            if !bytes_eq(&out0.lock.args, &expected) {
                return Err(Error::LinkageViolation);
            }
            Ok(cursor + 1)
        }
    } else {
        // Full fill.
        match &out0.type_hash {
            None => {
                return Err(Error::StructuralError);
            },
            Some(th) => {
                if !bytes_eq(th, &l.ask_token) {
                    return Err(Error::StructuralError);
                }
            },
        }
        if !bytes_eq(&out0.lock_hash, &l.recipient) {
            return Err(Error::StructuralError);
        }
        if out0.data.len() < 16 {
            return Err(Error::StructuralError);
        }
        let actual_amount = read_u128_le(&out0.data);
        if actual_amount < l.ask_amount {
            return Err(Error::ConservationViolation);
        }
        if out0.capacity < l.claimed_ckbytes {
            return Err(Error::ConservationViolation);
        }
        Ok(cursor + 1)
    }
}

/// Validates one market order at `cursor`, returning the advanced cursor and
/// the realized ask amount.
pub fn validate_market_order(outputs: &Vec<OutputCell>, m: &MarketOrder, cursor: usize) -> (r:
    Result<(usize, u128), Error>)
    ensures
        market_result_matches(r, spec_market_order_step(outputs@, *m, cursor as int)),
{
    if cursor >= outputs.len() {
        return Err(Error::StructuralError);
    }
    let out0 = &outputs[cursor];
    match &out0.type_hash {
        None => {
            return Err(Error::StructuralError);
        },
        Some(th) => {
            if !bytes_eq(th, &m.ask_token) {
                return Err(Error::StructuralError);
            }
        },
    }
    if !bytes_eq(&out0.lock_hash, &m.recipient) {
        return Err(Error::StructuralError);
    }
    if out0.capacity < m.claimed_ckbytes {
        return Err(Error::ConservationViolation);
    }
    if out0.data.len() < 16 {
        return Err(Error::StructuralError);
    }
    let actual_amount = read_u128_le(&out0.data);
    Ok((cursor + 1, actual_amount))
}

/// Processes one order of any kind at `cursor`.
pub fn process_order(
    outputs: &Vec<OutputCell>,
    script: &Script,
    header_number: u64,
    o: &Order,
    cursor: usize,
) -> (r: Result<usize, Error>)
    ensures
        cursor_result_matches(
            r,
            spec_process_order(outputs@, *script, header_number, *o, cursor as int),
        ),
{
    match o {
        Order::Limit(_) => validate_limit_order(outputs, script, o, cursor),
        Order::LimitWithDeadline(_, deadline) => {
            if header_number >= *deadline {
                Err(Error::TemporalViolation)
            } else {
                validate_limit_order(outputs, script, o, cursor)
            }
        },
        Order::Market(m) => {
            match validate_market_order(outputs, m, cursor) {
                Ok((c, _)) => Ok(c),
                Err(e) => Err(e),
            }
        },
        Order::MarketWithMinimumAsk(m, minimum_ask) => {
            match validate_market_order(outputs, m, cursor) {
                Ok((c, amt)) => {
                    if amt < *minimum_ask {
                        Err(Error::ConservationViolation)
                    } else {
                        Ok(c)
                    }
                },
                Err(e) => Err(e),
            }
        },
    }
}

/// Processes a whole order list in order, threading the cursor.
pub fn run_orders(
    outputs: &Vec<OutputCell>,
    script: &Script,
    header_number: u64,
    orders: &Vec<Order>,
    cursor: usize,
) -> (r: Result<usize, Error>)
    ensures
        cursor_result_matches(
            r,
            spec_run_orders(outputs@, *script, header_number, orders@, cursor as int),
        ),
{
    let mut cur = cursor;
    let mut k: usize = 0;
    proof {
        assert(orders@.skip(0) =~= orders@);
    }
    while k < orders.len()
        invariant
            k <= orders@.len(),
            spec_run_orders(outputs@, *script, header_number, orders@, cursor as int)
                == spec_run_orders(
                outputs@,
                *script,
                header_number,
                orders@.skip(k as int),
                cur as int,
            ),
        decreases orders@.len() - k,
    {
        proof {
            assert(orders@.skip(k as int)[0] == orders@[k as int]);
            assert(orders@.skip(k as int).skip(1) =~= orders@.skip(k + 1));
        }
        match process_order(outputs, script, header_number, &orders[k], cur) {
            Ok(c) => {
                cur = c;
            },
            Err(e) => {
                return Err(e);
            },
        }
        k += 1;
    }
    proof {
        assert(orders@.skip(orders@.len() as int) =~= Seq::<Order>::empty());
    }
    Ok(cur)
}

} // verus!
