//! Top-level validation: aggregated-batch processing, the freestanding
//! order collector, the creation-mode identity check, and the final
//! range-exclusion checks that keep protocol-owned cells out of any
//! aggregated sub-transaction's span.

use vstd::prelude::*;

use crate::bytes::{append_bytes, bytes_eq, subvec, u64_le_bytes, u64_to_le_bytes};
use crate::engine::{
    lemma_run_orders_append, lemma_run_orders_advances, process_order, run_orders,
    spec_process_order, spec_run_orders,
};
use crate::hashing::{blake2b256, blake2b256_of, hash_order, order_hash};
use crate::locate::{locate_entity, spec_locate};
use crate::model::{
    script_eq, script_equal, script_family, script_same_family, Batch, InputCell, OutputCell,
    Script, TxView,
};
use crate::order::{clone_bytes, Order};
use crate::Error;

verus! {

/// Every batch's cell ranges fit the machine's index space.
pub open spec fn batches_wf(bs: Seq<Batch>) -> bool {
    forall|k: int|
        0 <= k < bs.len() ==> (#[trigger] bs[k]).input_cell_start + bs[k].input_cells
            <= usize::MAX && bs[k].output_cell_start + bs[k].output_cells <= usize::MAX
}

/// The enclosing input and output spans of all batches, widened by running
/// min of starts and max of ends; an empty batch list leaves the spans
/// empty (start above end).
pub open spec fn spec_ranges(bs: Seq<Batch>) -> (int, int, int, int)
    decreases bs.len(),
{
    if bs.len() == 0 {
        (usize::MAX as int, 0, usize::MAX as int, 0)
    } else {
        let p = spec_ranges(bs.drop_last());
        let b = bs.last();
        (
            if b.input_cell_start < p.0 {
                b.input_cell_start as int
            } else {
                p.0
            },
            if b.input_cell_start + b.input_cells > p.1 {
                b.input_cell_start + b.input_cells
            } else {
                p.1
            },
            if b.output_cell_start < p.2 {
                b.output_cell_start as int
            } else {
                p.2
            },
            if b.output_cell_start + b.output_cells > p.3 {
                b.output_cell_start + b.output_cells
            } else {
                p.3
            },
        )
    }
}

/// All orders the batches address to this protocol instance, in batch
/// order, in each batch's list order.
pub open spec fn batch_orders(bs: Seq<Batch>) -> Seq<Order>
    decreases bs.len(),
{
    if bs.len() == 0 {
        Seq::empty()
    } else {
        batch_orders(bs.drop_last()) + (match bs.last().orders {
            Some(v) => v@,
            None => Seq::empty(),
        })
    }
}

/// The freestanding collector, from input index `i` with `k` orders already
/// consumed and the engine cursor at `cursor`: skips batch-owned inputs and
/// the entity input, pairs each protocol-family lock with the next order in
/// list order after authenticating the cell's 96-byte argument triple, and
/// feeds the order to the engine.
pub open spec fn spec_freestanding(
    inputs: Seq<InputCell>,
    outputs: Seq<OutputCell>,
    script: Script,
    header_number: u64,
    orders: Seq<Order>,
    otx_in_start: int,
    otx_in_end: int,
    entity_in: int,
    i: int,
    k: int,
    cursor: int,
) -> Result<(int, int), Error>
    decreases inputs.len() - i,
{
    if i >= inputs.len() {
        Ok((k, cursor))
    } else if otx_in_start <= i < otx_in_end {
        spec_freestanding(
            inputs,
            outputs,
            script,
            header_number,
            orders,
            otx_in_start,
            otx_in_end,
            entity_in,
            i + 1,
            k,
            cursor,
        )
    } else if i == entity_in {
        spec_freestanding(
            inputs,
            outputs,
            script,
            header_number,
            orders,
            otx_in_start,
            otx_in_end,
            entity_in,
            i + 1,
            k,
            cursor,
        )
    } else {
        let lock = inputs[i].lock;
        if script_family(lock, script) {
            if lock.args@.len() != 96 {
                Err(Error::StructuralError)
            } else if lock.args@.subrange(0, 32) != script.args@ {
                Err(Error::LinkageViolation)
            } else if k >= orders.len() {
                Err(Error::StructuralError)
            } else if lock.args@.subrange(64, 96) != order_hash(orders[k]) {
                Err(Error::LinkageViolation)
            } else {
                match spec_process_order(outputs, script, header_number, orders[k], cursor) {
                    Ok(c) => spec_freestanding(
                        inputs,
                        outputs,
                        script,
                        header_number,
                        orders,
                        otx_in_start,
                        otx_in_end,
                        entity_in,
                        i + 1,
                        k + 1,
                        c,
                    ),
                    Err(e) => Err(e),
                }
            }
        } else {
            spec_freestanding(
                inputs,
                outputs,
                script,
                header_number,
                orders,
                otx_in_start,
                otx_in_end,
                entity_in,
                i + 1,
                k,
                cursor,
            )
        }
    }
}

/// The post-processing range checks: a non-empty aggregated input span must
/// exclude the entity input; a non-empty aggregated output span must
/// exclude the whole span from the entity output through the final cursor.
pub open spec fn spec_final_checks(
    entity_in: int,
    entity_out: int,
    cursor_end: int,
    r: (int, int, int, int),
) -> Result<(), Error> {
    if r.0 < r.1 && !(entity_in >= r.1 || entity_in < r.0) {
        Err(Error::StructuralError)
    } else if r.2 < r.3 && !(entity_out >= r.3 || cursor_end <= r.2) {
        Err(Error::StructuralError)
    } else {
        Ok(())
    }
}

/// Creation mode: no aggregated batches may be in effect, the transaction
/// must have a first input, and the instance id must equal the fixed-key
/// digest of (first input's encoded bytes ++ little-endian output index).
pub open spec fn spec_validate_creation(
    tx: TxView,
    script: Script,
    entity_out: int,
    has_batches: bool,
) -> Result<(), Error> {
    if has_batches {
        Err(Error::StructuralError)
    } else if tx.inputs@.len() == 0 {
        Err(Error::StructuralError)
    } else if blake2b256_of(tx.first_input_raw@ + u64_le_bytes(entity_out as u64))
        == script.args@ {
        Ok(())
    } else {
        Err(Error::LinkageViolation)
    }
}

/// Creation acceptance is exactly the digest equality: with no aggregation
/// in effect and a first input present, the entity is accepted if and only
/// if the fixed-key digest over (first input's encoded bytes ++
/// little-endian output index) equals the instance id.
pub proof fn lemma_creation_acceptance(
    tx: TxView,
    script: Script,
    entity_out: int,
    has_batches: bool,
)
    requires
        !has_batches,
        tx.inputs@.len() > 0,
    ensures
        spec_validate_creation(tx, script, entity_out, has_batches) == Ok::<(), Error>(())
            <==> blake2b256_of(tx.first_input_raw@ + u64_le_bytes(entity_out as u64))
            == script.args@,
{
}

/// Update mode: the entity's lock is unchanged, every batch order then
/// every freestanding order is consumed by the engine from one past the
/// entity output, leftover freestanding orders are fatal, and the range
/// exclusions must hold.
pub open spec fn spec_validate_update(
    tx: TxView,
    script: Script,
    entity_in: int,
    entity_out: int,
    header_number: u64,
    bs: Seq<Batch>,
    msg_orders: Option<Seq<Order>>,
) -> Result<(), Error> {
    if !script_eq(tx.inputs@[entity_in].lock, tx.outputs@[entity_out].lock) {
        Err(Error::StructuralError)
    } else {
        let r = spec_ranges(bs);
        match spec_run_orders(tx.outputs@, script, header_number, batch_orders(bs), entity_out
            + 1) {
            Err(e) => Err(e),
            Ok(c1) => match msg_orders {
                None => spec_final_checks(entity_in, entity_out, c1, r),
                Some(ords) => match spec_freestanding(
                    tx.inputs@,
                    tx.outputs@,
                    script,
                    header_number,
                    ords,
                    r.0,
                    r.1,
                    entity_in,
                    0,
                    0,
                    c1,
                ) {
                    Err(e) => Err(e),
                    Ok((kf, c2)) => if kf != ords.len() {
                        Err(Error::StructuralError)
                    } else {
                        spec_final_checks(entity_in, entity_out, c2, r)
                    },
                },
            },
        }
    }
}

/// The batch list a batch option stands for: absent aggregation leaves it
/// empty.
pub open spec fn opt_batches_seq(b: Option<Vec<Batch>>) -> Seq<Batch> {
    match b {
        Some(v) => v@,
        None => Seq::empty(),
    }
}

/// The view of an optional batch list.
pub open spec fn opt_batches_view(b: Option<Vec<Batch>>) -> Option<Seq<Batch>> {
    match b {
        Some(v) => Some(v@),
        None => None,
    }
}

/// The view of an optional order list.
pub open spec fn opt_orders_view(o: Option<Vec<Order>>) -> Option<Seq<Order>> {
    match o {
        Some(v) => Some(v@),
        None => None,
    }
}

/// The whole acceptance predicate for an entity validation: argument length
/// exactly 32, the entity located, then creation or update mode. An update
/// without an available header for the entity input is fatal.
pub open spec fn spec_validate_dex(
    tx: TxView,
    script: Script,
    batches: Option<Seq<Batch>>,
    msg_orders: Option<Seq<Order>>,
    header_number: Option<u64>,
) -> Result<(), Error> {
    if script.args@.len() != 32 {
        Err(Error::StructuralError)
    } else {
        match spec_locate(tx, script) {
            Err(e) => Err(e),
            Ok((oin, oout)) => match oin {
                None => spec_validate_creation(tx, script, oout, batches is Some),
                Some(ii) => match header_number {
                    None => Err(Error::StructuralError),
                    Some(h) => spec_validate_update(
                        tx,
                        script,
                        ii,
                        oout,
                        h,
                        match batches {
                            Some(b) => b,
                            None => Seq::empty(),
                        },
                        msg_orders,
                    ),
                },
            },
        }
    }
}

/// Running the batch-order prefix to an error decides the whole batch run.
proof fn lemma_batch_run_err_extends(
    outputs: Seq<OutputCell>,
    script: Script,
    header_number: u64,
    bs: Seq<Batch>,
    j: int,
    c0: int,
)
    requires
        0 <= j <= bs.len(),
        spec_run_orders(outputs, script, header_number, batch_orders(bs.take(j)), c0) is Err,
    ensures
        spec_run_orders(outputs, script, header_number, batch_orders(bs), c0) == spec_run_orders(
            outputs,
            script,
            header_number,
            batch_orders(bs.take(j)),
            c0,
        ),
    decreases bs.len() - j,
{
    if j == bs.len() {
        assert(bs.take(j) =~= bs);
    } else {
        assert(bs.take(j + 1).drop_last() =~= bs.take(j));
        assert(bs.take(j + 1).last() == bs[j]);
        lemma_run_orders_append(
            outputs,
            script,
            header_number,
            batch_orders(bs.take(j)),
            match bs[j].orders {
                Some(v) => v@,
                None => Seq::empty(),
            },
            c0,
        );
        lemma_batch_run_err_extends(outputs, script, header_number, bs, j + 1, c0);
    }
}

/// The engine cursor never moves backwards through the freestanding
/// collector.
pub proof fn lemma_freestanding_advances(
    inputs: Seq<InputCell>,
    outputs: Seq<OutputCell>,
    script: Script,
    header_number: u64,
    orders: Seq<Order>,
    otx_in_start: int,
    otx_in_end: int,
    entity_in: int,
    i: int,
    k: int,
    cursor: int,
)
    ensures
        spec_freestanding(
            inputs,
            outputs,
            script,
            header_number,
            orders,
            otx_in_start,
            otx_in_end,
            entity_in,
            i,
            k,
            cursor,
        ) matches Ok(p) ==> p.1 >= cursor,
    decreases inputs.len() - i,
{
    if i >= inputs.len() {
    } else if otx_in_start <= i < otx_in_end || i == entity_in || !script_family(
        inputs[i].lock,
        script,
    ) {
        lemma_freestanding_advances(
            inputs,
            outputs,
            script,
            header_number,
            orders,
            otx_in_start,
            otx_in_end,
            entity_in,
            i + 1,
            k,
            cursor,
        );
    } else {
        let lock = inputs[i].lock;
        if lock.args@.len() == 96 && lock.args@.subrange(0, 32) == script.args@ && k
            < orders.len() && lock.args@.subrange(64, 96) == order_hash(orders[k]) {
            match spec_process_order(outputs, script, header_number, orders[k], cursor) {
                Ok(c) => {
                    crate::engine::lemma_process_order_advances(
                        outputs,
                        script,
                        header_number,
                        orders[k],
                        cursor,
                    );
                    lemma_freestanding_advances(
                        inputs,
                        outputs,
                        script,
                        header_number,
                        orders,
                        otx_in_start,
                        otx_in_end,
                        entity_in,
                        i + 1,
                        k + 1,
                        c,
                    );
                },
                Err(_) => {},
            }
        }
    }
}

/// Range exclusion: when the aggregated output span is non-empty and the
/// entity output's index falls inside it, the update validation rejects,
/// whatever the orders and price checks would say.
pub proof fn lemma_range_exclusion(
    tx: TxView,
    script: Script,
    entity_in: int,
    entity_out: int,
    header_number: u64,
    bs: Seq<Batch>,
    msg_orders: Option<Seq<Order>>,
)
    requires
        spec_ranges(bs).2 < spec_ranges(bs).3,
        spec_ranges(bs).2 <= entity_out < spec_ranges(bs).3,
    ensures
        spec_validate_update(
            tx,
            script,
            entity_in,
            entity_out,
            header_number,
            bs,
            msg_orders,
        ) is Err,
{
    let r = spec_ranges(bs);
    if script_eq(tx.inputs@[entity_in].lock, tx.outputs@[entity_out].lock) {
        match spec_run_orders(
            tx.outputs@,
            script,
            header_number,
            batch_orders(bs),
            entity_out + 1,
        ) {
            Ok(c1) => {
                lemma_run_orders_advances(
                    tx.outputs@,
                    script,
                    header_number,
                    batch_orders(bs),
                    entity_out + 1,
                );
                match msg_orders {
                    None => {},
                    Some(ords) => {
                        lemma_freestanding_advances(
                            tx.inputs@,
                            tx.outputs@,
                            script,
                            header_number,
                            ords,
                            r.0,
                            r.1,
                            entity_in,
                            0,
                            0,
                            c1,
                        );
                    },
                }
            },
            Err(_) => {},
        }
    }
}

/// The creation-mode instance id for a given first input and entity output
/// index: the value the creation check accepts, exactly.
pub fn creation_instance_id(first_input_raw: &Vec<u8>, entity_out_index: u64) -> (r: Vec<u8>)
    ensures
        r@ == blake2b256_of(first_input_raw@ + u64_le_bytes(entity_out_index)),
        r@.len() == 32,
{
    let mut buf = clone_bytes(first_input_raw);
    let idx_bytes = u64_to_le_bytes(entity_out_index);
    append_bytes(&mut buf, &idx_bytes);
    blake2b256(&buf)
}

/// Validates creation mode.
pub fn validate_creation(tx: &TxView, script: &Script, entity_out: usize, has_batches: bool) -> (r:
    Result<(), Error>)
    ensures
        r == spec_validate_creation(*tx, *script, entity_out as int, has_batches),
{
    if has_batches {
        return Err(Error::StructuralError);
    }
    if tx.inputs.len() == 0 {
        return Err(Error::StructuralError);
    }
    let digest = creation_instance_id(&tx.first_input_raw, entity_out as u64);
    if bytes_eq(&digest, &script.args) {
        Ok(())
    } else {
        Err(Error::LinkageViolation)
    }
}

/// Walks all batches: widens the enclosing ranges and feeds each batch's
/// orders to the engine.
fn process_batches(
    outputs: &Vec<OutputCell>,
    script: &Script,
    header_number: u64,
    batches: &Option<Vec<Batch>>,
    cursor: usize,
) -> (r: Result<(usize, usize, usize, usize, usize), Error>)
    requires
        batches matches Some(b) ==> batches_wf(b@),
    ensures
        ({
            let bs = opt_batches_seq(*batches);
            match r {
                Ok(t) => {
                    &&& (t.0 as int, t.1 as int, t.2 as int, t.3 as int) == spec_ranges(bs)
                    &&& spec_run_orders(
                        outputs@,
                        *script,
                        header_number,
                        batch_orders(bs),
                        cursor as int,
                    ) == Ok::<int, Error>(t.4 as int)
                },
                Err(e) => spec_run_orders(
                    outputs@,
                    *script,
                    header_number,
                    batch_orders(bs),
                    cursor as int,
                ) == Err::<int, Error>(e),
            }
        }),
{
    let bs = match batches {
        Some(bs) => bs,
        None => {
            return Ok((usize::MAX, 0, usize::MAX, 0, cursor));
        },
    };
    let mut in_start: usize = usize::MAX;
    let mut in_end: usize = 0;
    let mut out_start: usize = usize::MAX;
    let mut out_end: usize = 0;
    let mut cur: usize = cursor;
    let mut k: usize = 0;
    while k < bs.len()
        invariant
            k <= bs@.len(),
            batches_wf(bs@),
            opt_batches_seq(*batches) == bs@,
            (in_start as int, in_end as int, out_start as int, out_end as int) == spec_ranges(
                bs@.take(k as int),
            ),
            spec_run_orders(
                outputs@,
                *script,
                header_number,
                batch_orders(bs@.take(k as int)),
                cursor as int,
            ) == Ok::<int, Error>(cur as int),
        decreases bs@.len() - k,
    {
        proof {
            assert(bs@.take(k + 1).drop_last() =~= bs@.take(k as int));
            assert(bs@.take(k + 1).last() == bs@[k as int]);
            assert((bs@[k as int]).input_cell_start + bs@[k as int].input_cells <= usize::MAX);
            assert((bs@[k as int]).output_cell_start + bs@[k as int].output_cells <= usize::MAX);
        }
        let b = &bs[k];
        let bin_end = b.input_cell_start + (b.input_cells as usize);
        let bout_end = b.output_cell_start + (b.output_cells as usize);
        if b.input_cell_start < in_start {
            in_start = b.input_cell_start;
        }
        if bin_end > in_end {
            in_end = bin_end;
        }
        if b.output_cell_start < out_start {
            out_start = b.output_cell_start;
        }
        if bout_end > out_end {
            out_end = bout_end;
        }
        match &b.orders {
            Some(v) => {
                proof {
                    lemma_run_orders_append(
                        outputs@,
                        *script,
                        header_number,
                        batch_orders(bs@.take(k as int)),
                        v@,
                        cursor as int,
                    );
                }
                match run_orders(outputs, script, header_number, v, cur) {
                    Ok(c) => {
                        cur = c;
                    },
                    Err(e) => {
                        proof {
                            assert(batch_orders(bs@.take(k + 1)) =~= batch_orders(
                                bs@.take(k as int),
                            ) + v@);
                            assert(spec_run_orders(
                                outputs@,
                                *script,
                                header_number,
                                batch_orders(bs@.take(k + 1)),
                                cursor as int,
                            ) == Err::<int, Error>(e));
                            lemma_batch_run_err_extends(
                                outputs@,
                                *script,
                                header_number,
                                bs@,
                                k + 1,
                                cursor as int,
                            );
                        }
                        return Err(e);
                    },
                }
            },
            None => {
                proof {
                    assert(batch_orders(bs@.take(k + 1)) =~= batch_orders(bs@.take(k as int)));
                }
            },
        }
        k += 1;
    }
    proof {
        assert(bs@.take(bs@.len() as int) =~= bs@);
    }
    Ok((in_start, in_end, out_start, out_end, cur))
}

/// Scans the inputs for freestanding continuation cells and pairs each with
/// the next order of the embedded message, in list order.
fn collect_freestanding(
    tx: &TxView,
    script: &Script,
    header_number: u64,
    orders: &Vec<Order>,
    in_start: usize,
    in_end: usize,
    entity_in: usize,
    cursor: usize,
) -> (r: Result<(usize, usize), Error>)
    ensures
        ({
            let s = spec_freestanding(
                tx.inputs@,
                tx.outputs@,
                *script,
                header_number,
                orders@,
                in_start as int,
                in_end as int,
                entity_in as int,
                0,
                0,
                cursor as int,
            );
            match r {
                Ok((kf, c)) => s == Ok::<(int, int), Error>((kf as int, c as int)),
                Err(e) => s == Err::<(int, int), Error>(e),
            }
        }),
{
    let mut i: usize = 0;
    let mut kf: usize = 0;
    let mut cur: usize = cursor;
    while i < tx.inputs.len()
        invariant
            i <= tx.inputs@.len(),
            kf <= orders@.len(),
            spec_freestanding(
                tx.inputs@,
                tx.outputs@,
                *script,
                header_number,
                orders@,
                in_start as int,
                in_end as int,
                entity_in as int,
                0,
                0,
                cursor as int,
            ) == spec_freestanding(
                tx.inputs@,
                tx.outputs@,
                *script,
                header_number,
                orders@,
                in_start as int,
                in_end as int,
                entity_in as int,
                i as int,
                kf as int,
                cur as int,
            ),
        decreases tx.inputs@.len() - i,
    {
        if in_start <= i && i < in_end {
            // batch-owned input: skipped
        } else if i == entity_in {
            // the entity input itself: skipped
        } else {
            let cell = &tx.inputs[i];
            if script_same_family(&cell.lock, script) {
                if cell.lock.args.len() != 96 {
                    return Err(Error::StructuralError);
                }
                let iid_part = subvec(&cell.lock.args, 0, 32);
                if !bytes_eq(&iid_part, &script.args) {
                    return Err(Error::LinkageViolation);
                }
                if kf >= orders.len() {
                    return Err(Error::StructuralError);
                }
                let oh = hash_order(&orders[kf]);
                let tail = subvec(&cell.lock.args, 64, 96);
                if !bytes_eq(&tail, &oh) {
                    return Err(Error::LinkageViolation);
                }
                match process_order(&tx.outputs, script, header_number, &orders[kf], cur) {
                    Ok(c) => {
                        cur = c;
                        kf += 1;
                    },
                    Err(e) => {
                        return Err(e);
                    },
                }
            }
        }
        i += 1;
    }
    Ok((kf, cur))
}

/// Validates update mode against the located entity cells.
pub fn validate_update(
    tx: &TxView,
    script: &Script,
    entity_in: usize,
    entity_out: usize,
    header_number: u64,
    batches: &Option<Vec<Batch>>,
    msg_orders: &Option<Vec<Order>>,
) -> (r: Result<(), Error>)
    requires
        entity_in < tx.inputs@.len(),
        entity_out < tx.outputs@.len(),
        batches matches Some(b) ==> batches_wf(b@),
    ensures
        r == spec_validate_update(
            *tx,
            *script,
            entity_in as int,
            entity_out as int,
            header_number,
            opt_batches_seq(*batches),
            opt_orders_view(*msg_orders),
        ),
{
    if !script_equal(&tx.inputs[entity_in].lock, &tx.outputs[entity_out].lock) {
        return Err(Error::StructuralError);
    }
    let outputs_len = tx.outputs.len();
    proof {
        assert(entity_out < outputs_len);
    }
    let t = match process_batches(&tx.outputs, script, header_number, batches, entity_out + 1) {
        Ok(t) => t,
        Err(e) => {
            return Err(e);
        },
    };
    let (in_start, in_end, out_start, out_end, cur0) = t;
    let cursor_end = match msg_orders {
        Some(ords) => {
            match collect_freestanding(
                tx,
                script,
                header_number,
                ords,
                in_start,
                in_end,
                entity_in,
                cur0,
            ) {
                Ok((kf, c2)) => {
                    if kf != ords.len() {
                        return Err(Error::StructuralError);
                    }
                    c2
                },
                Err(e) => {
                    return Err(e);
                },
            }
        },
        None => cur0,
    };
    if in_start < in_end {
        if !(entity_in >= in_end || entity_in < in_start) {
            return Err(Error::StructuralError);
        }
    }
    if out_start < out_end {
        if !(entity_out >= out_end || cursor_end <= out_start) {
            return Err(Error::StructuralError);
        }
    }
    Ok(())
}

/// The full entity validation: the decision the protocol's own predicate
/// makes when invoked as a type script.
pub fn validate_dex(
    tx: &TxView,
    script: &Script,
    batches: &Option<Vec<Batch>>,
    msg_orders: &Option<Vec<Order>>,
    header_number: Option<u64>,
) -> (r: Result<(), Error>)
    requires
        batches matches Some(b) ==> batches_wf(b@),
    ensures
        r == spec_validate_dex(
            *tx,
            *script,
            opt_batches_view(*batches),
            opt_orders_view(*msg_orders),
            header_number,
        ),
{
    if script.args.len() != 32 {
        return Err(Error::StructuralError);
    }
    let (found_in, entity_out) = match locate_entity(tx, script) {
        Ok(p) => p,
        Err(e) => {
            return Err(e);
        },
    };
    match found_in {
        None => validate_creation(tx, script, entity_out, batches.is_some()),
        Some(entity_in) => {
            let h = match header_number {
                Some(h) => h,
                None => {
                    return Err(Error::StructuralError);
                },
            };
            validate_update(tx, script, entity_in, entity_out, h, batches, msg_orders)
        },
    }
}

} // verus!
