//! The script-role dispatcher for continuation-cell spends, and the entity
//! locator that finds the protocol's singleton cell across the transaction.

use vstd::prelude::*;

use crate::bytes::{bytes_eq, subvec};
use crate::model::{
    opt_script_eq, opt_script_equal, script_family, script_same_family, InputCell, OutputCell,
    Script, TxView,
};
use crate::Error;

verus! {

/// The input cell carries the protocol's own predicate as its type.
pub open spec fn input_entity(c: InputCell, s: Script) -> bool {
    opt_script_eq(c.type_, s)
}

/// The output cell carries the protocol's own predicate as its type.
pub open spec fn output_entity(c: OutputCell, s: Script) -> bool {
    opt_script_eq(c.type_, s)
}

/// Some input's type predicate shares the current predicate's code identity
/// and the first 32 bytes of its argument bytes equal the current
/// predicate's own first 32 bytes (the instance id): the protocol's own
/// validator vets this spend elsewhere in the transaction.
pub open spec fn settlement_path(inputs: Seq<InputCell>, s: Script) -> bool {
    exists|i: int| 0 <= i < inputs.len() && settlement_cell(#[trigger] inputs[i], s)
}

/// The cell's type predicate shares the current predicate's code identity
/// and carries the instance id as the first 32 bytes of its arguments.
pub open spec fn settlement_cell(c: InputCell, s: Script) -> bool {
    &&& c.type_ matches Some(t)
    &&& script_family(t, s)
    &&& t.args@.len() >= 32
    &&& t.args@.subrange(0, 32) == s.args@.subrange(0, 32)
}

/// Some input's lock-hash equals the third 32-byte segment of the current
/// predicate's arguments: the original owner reclaims the cell.
pub open spec fn owner_cancel_path(inputs: Seq<InputCell>, s: Script) -> bool {
    exists|i: int|
        0 <= i < inputs.len() && (#[trigger] inputs[i]).lock_hash@ == s.args@.subrange(32, 64)
}

/// The decision for a continuation-cell spend: a guard against the current
/// predicate appearing as the group-scope type at index zero, then either
/// unlock path suffices.
pub open spec fn spec_check_unlock(
    inputs: Seq<InputCell>,
    s: Script,
    group_input_type0: Option<Script>,
    group_output_type0: Option<Script>,
) -> Result<bool, Error> {
    if opt_script_eq(group_input_type0, s) {
        Err(Error::StructuralError)
    } else if opt_script_eq(group_output_type0, s) {
        Err(Error::StructuralError)
    } else {
        Ok(settlement_path(inputs, s) || owner_cancel_path(inputs, s))
    }
}

/// Decides whether a continuation-cell spend is authorized: by the
/// settlement path or by the owner-cancel path, either alone sufficient.
/// `group_input_type0` and `group_output_type0` are the type predicates the
/// ledger reports at index zero of the current script group's inputs and
/// outputs.
pub fn check_order_cell_unlock(
    inputs: &Vec<InputCell>,
    script: &Script,
    group_input_type0: &Option<Script>,
    group_output_type0: &Option<Script>,
) -> (r: Result<bool, Error>)
    requires
        script.args@.len() == 96,
    ensures
        r == spec_check_unlock(inputs@, *script, *group_input_type0, *group_output_type0),
{
    if opt_script_equal(group_input_type0, script) {
        return Err(Error::StructuralError);
    }
    if opt_script_equal(group_output_type0, script) {
        return Err(Error::StructuralError);
    }
    let instance_id = subvec(&script.args, 0, 32);
    let owner_hash = subvec(&script.args, 32, 64);
    let mut i: usize = 0;
    while i < inputs.len()
        invariant
            i <= inputs@.len(),
            script.args@.len() == 96,
            !opt_script_eq(*group_input_type0, *script),
            !opt_script_eq(*group_output_type0, *script),
            instance_id@ == script.args@.subrange(0, 32),
            forall|m: int| 0 <= m < i ==> !settlement_cell(#[trigger] inputs@[m], *script),
        decreases inputs@.len() - i,
    {
        match &inputs[i].type_ {
            Some(t) => {
                if script_same_family(t, script) && t.args.len() >= 32 {
                    let prefix = subvec(&t.args, 0, 32);
                    if bytes_eq(&prefix, &instance_id) {
                        proof {
                            assert(settlement_cell(inputs@[i as int], *script));
                        }
                        return Ok(true);
                    }
                }
            },
            None => {},
        }
        i += 1;
    }
    let mut i: usize = 0;
    while i < inputs.len()
        invariant
            i <= inputs@.len(),
            script.args@.len() == 96,
            !opt_script_eq(*group_input_type0, *script),
            !opt_script_eq(*group_output_type0, *script),
            owner_hash@ == script.args@.subrange(32, 64),
            !settlement_path(inputs@, *script),
            forall|m: int|
                0 <= m < i ==> (#[trigger] inputs@[m]).lock_hash@ != script.args@.subrange(32, 64),
        decreases inputs@.len() - i,
    {
        if bytes_eq(&inputs[i].lock_hash, &owner_hash) {
            proof {
                assert(inputs@[i as int].lock_hash@ == script.args@.subrange(32, 64));
            }
            return Ok(true);
        }
        i += 1;
    }
    Ok(false)
}

/// Where the entity cell sits: more than one input match, or anything but
/// exactly one output match, or a non-empty output entity data payload, is
/// fatal. The located output entity's data must be empty.
pub open spec fn spec_locate(tx: TxView, s: Script) -> Result<(Option<int>, int), Error> {
    if exists|i: int, j: int|
        0 <= i < j < tx.inputs@.len() && input_entity(#[trigger] tx.inputs@[i], s) && input_entity(
            #[trigger] tx.inputs@[j],
            s,
        ) {
        Err(Error::StructuralError)
    } else if !(exists|i: int| 0 <= i < tx.outputs@.len() && output_entity(#[trigger] tx.outputs@[i], s)) {
        Err(Error::StructuralError)
    } else if exists|i: int, j: int|
        0 <= i < j < tx.outputs@.len() && output_entity(#[trigger] tx.outputs@[i], s)
            && output_entity(#[trigger] tx.outputs@[j], s) {
        Err(Error::StructuralError)
    } else {
        let oi = choose|i: int| 0 <= i < tx.outputs@.len() && output_entity(tx.outputs@[i], s);
        if tx.outputs@[oi].data@.len() != 0 {
            Err(Error::StructuralError)
        } else if exists|i: int| 0 <= i < tx.inputs@.len() && input_entity(#[trigger] tx.inputs@[i], s) {
            Ok(
                (
                    Some(choose|i: int| 0 <= i < tx.inputs@.len() && input_entity(tx.inputs@[i], s)),
                    oi,
                ),
            )
        } else {
            Ok((None, oi))
        }
    }
}

/// An executable locator result agrees with a specification-level one.
pub open spec fn locate_result_matches(
    r: Result<(Option<usize>, usize), Error>,
    s: Result<(Option<int>, int), Error>,
) -> bool {
    match r {
        Ok((oin, oo)) => {
            &&& s matches Ok(p)
            &&& p.1 == oo as int
            &&& match oin {
                Some(i) => p.0 == Some(i as int),
                None => p.0 is None,
            }
        },
        Err(e) => s == Err::<(Option<int>, int), Error>(e),
    }
}

/// Finds the entity cell: the unique input (if any) and the unique output
/// whose type predicate equals the current one.
pub fn locate_entity(tx: &TxView, script: &Script) -> (r: Result<(Option<usize>, usize), Error>)
    ensures
        locate_result_matches(r, spec_locate(*tx, *script)),
        r matches Ok(p) ==> {
            &&& p.1 < tx.outputs@.len()
            &&& output_entity(tx.outputs@[p.1 as int], *script)
            &&& (p.0 matches Some(i) ==> i < tx.inputs@.len() && input_entity(
                tx.inputs@[i as int],
                *script,
            ))
        },
{
    let mut found_in: Option<usize> = None;
    let mut i: usize = 0;
    while i < tx.inputs.len()
        invariant
            i <= tx.inputs@.len(),
            match found_in {
                None => forall|m: int| 0 <= m < i ==> !input_entity(#[trigger] tx.inputs@[m], *script),
                Some(j) => {
                    &&& j < i
                    &&& input_entity(tx.inputs@[j as int], *script)
                    &&& forall|m: int|
                        0 <= m < i && m != j ==> !input_entity(#[trigger] tx.inputs@[m], *script)
                },
            },
        decreases tx.inputs@.len() - i,
    {
        if opt_script_equal(&tx.inputs[i].type_, script) {
            match found_in {
                Some(j) => {
                    proof {
                        assert(input_entity(tx.inputs@[j as int], *script) && input_entity(
                            tx.inputs@[i as int],
                            *script,
                        ) && j < i);
                    }
                    return Err(Error::StructuralError);
                },
                None => {
                    found_in = Some(i);
                },
            }
        }
        i += 1;
    }
    let ghost no_multi_in = !(exists|a: int, b: int|
        0 <= a < b < tx.inputs@.len() && input_entity(#[trigger] tx.inputs@[a], *script)
            && input_entity(#[trigger] tx.inputs@[b], *script));
    proof {
        assert forall|a: int, b: int|
            0 <= a < b < tx.inputs@.len() implies !(input_entity(
            #[trigger] tx.inputs@[a],
            *script,
        ) && input_entity(#[trigger] tx.inputs@[b], *script)) by {
            match found_in {
                None => {},
                Some(j) => {},
            }
        }
    }
    let mut found_out: Option<usize> = None;
    let mut i: usize = 0;
    while i < tx.outputs.len()
        invariant
            i <= tx.outputs@.len(),
            no_multi_in == !(exists|a: int, b: int|
                0 <= a < b < tx.inputs@.len() && input_entity(#[trigger] tx.inputs@[a], *script)
                    && input_entity(#[trigger] tx.inputs@[b], *script)),
            no_multi_in,
            match found_out {
                None => forall|m: int|
                    0 <= m < i ==> !output_entity(#[trigger] tx.outputs@[m], *script),
                Some(j) => {
                    &&& j < i
                    &&& output_entity(tx.outputs@[j as int], *script)
                    &&& forall|m: int|
                        0 <= m < i && m != j ==> !output_entity(#[trigger] tx.outputs@[m], *script)
                },
            },
        decreases tx.outputs@.len() - i,
    {
        if opt_script_equal(&tx.outputs[i].type_, script) {
            match found_out {
                Some(j) => {
                    proof {
                        assert(output_entity(tx.outputs@[j as int], *script) && output_entity(
                            tx.outputs@[i as int],
                            *script,
                        ) && j < i);
                    }
                    return Err(Error::StructuralError);
                },
                None => {
                    found_out = Some(i);
                },
            }
        }
        i += 1;
    }
    let entity_out = match found_out {
        Some(j) => j,
        None => {
            return Err(Error::StructuralError);
        },
    };
    proof {
        assert forall|a: int, b: int|
            0 <= a < b < tx.outputs@.len() implies !(output_entity(
            #[trigger] tx.outputs@[a],
            *script,
        ) && output_entity(#[trigger] tx.outputs@[b], *script)) by {}
        let oi = choose|i: int| 0 <= i < tx.outputs@.len() && output_entity(tx.outputs@[i], *script);
        assert(output_entity(tx.outputs@[entity_out as int], *script));
        assert(0 <= oi < tx.outputs@.len() && output_entity(tx.outputs@[oi], *script));
        assert(oi == entity_out as int);
    }
    if tx.outputs[entity_out].data.len() != 0 {
        return Err(Error::StructuralError);
    }
    proof {
        match found_in {
            Some(j) => {
                assert(input_entity(tx.inputs@[j as int], *script));
                let ii = choose|i: int|
                    0 <= i < tx.inputs@.len() && input_entity(tx.inputs@[i], *script);
                assert(0 <= ii < tx.inputs@.len() && input_entity(tx.inputs@[ii], *script));
                assert(ii == j as int);
            },
            None => {},
        }
    }
    Ok((found_in, entity_out))
}

} // verus!
