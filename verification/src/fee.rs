use vstd::prelude::*;

use crate::cell::{views_of, Transaction, TransactionModel};
use crate::error::Error;
use crate::matcher::{
    find_unique_match, lemma_match_count_is_indices_len, match_count, matching_indices, the_match,
    MatchRule, MatchRuleModel,
};

verus! {

/// The fee validator's script args are exactly 40 bytes: a 32-byte target
/// type identity followed by the 8-byte little-endian fee cap.
pub open spec fn spec_target_type(args: Seq<u8>) -> Seq<u8> {
    args.subrange(0, 32)
}

/// The fee cap carried in the last 8 bytes of the script args.
pub open spec fn spec_max_fee(args: Seq<u8>) -> u64 {
    vstd::bytes::spec_u64_from_le_bytes(args.subrange(32, 40))
}

/// The matching rule of the fee validator: lock identity equals the
/// executing script's own hash and type identity equals the target
/// embedded in the args.
pub open spec fn fee_rule(args: Seq<u8>, own_lock_hash: Seq<u8>) -> MatchRuleModel {
    MatchRuleModel::LockAndType(own_lock_hash, spec_target_type(args))
}

/// The capacity inequality the fee validator enforces: the value
/// destroyed between input and output may not exceed the cap.
pub open spec fn fee_within_cap(input_capacity: u64, output_capacity: u64, max_fee: u64) -> bool {
    input_capacity <= output_capacity + max_fee
}

/// The complete outcome of the fee validator on given script args, own
/// script hash, and transaction.
pub open spec fn spec_validate(args: Seq<u8>, own_lock_hash: Seq<u8>, tx: TransactionModel) -> Result<
    (),
    Error,
> {
    if args.len() != 40 {
        Err(Error::InvalidArgsLen)
    } else {
        let rule = fee_rule(args, own_lock_hash);
        if match_count(rule, tx.inputs) != 1 || match_count(rule, tx.outputs) != 1 {
            Err(Error::InvalidCellCount)
        } else {
            let input = tx.inputs[the_match(rule, tx.inputs)];
            let output = tx.outputs[the_match(rule, tx.outputs)];
            if fee_within_cap(input.capacity, output.capacity, spec_max_fee(args)) {
                Ok(())
            } else {
                Err(Error::InvalidFee)
            }
        }
    }
}

/// With well-formed args and exactly one matched cell on each side, the
/// fee validator accepts exactly when the matched capacities satisfy the
/// configured cap: `input_capacity <= output_capacity + max_fee`.
pub proof fn lemma_accepts_iff_fee_within_cap(
    args: Seq<u8>,
    own_lock_hash: Seq<u8>,
    tx: TransactionModel,
)
    requires
        args.len() == 40,
        match_count(fee_rule(args, own_lock_hash), tx.inputs) == 1,
        match_count(fee_rule(args, own_lock_hash), tx.outputs) == 1,
    ensures
        spec_validate(args, own_lock_hash, tx) is Ok <==> fee_within_cap(
            tx.inputs[the_match(fee_rule(args, own_lock_hash), tx.inputs)].capacity,
            tx.outputs[the_match(fee_rule(args, own_lock_hash), tx.outputs)].capacity,
            spec_max_fee(args),
        ),
{
}

/// The fee validator is pure: its outcome depends only on the values of
/// the script args, the executing script's hash and the transaction, so
/// validating the same transaction twice yields the same outcome.
pub proof fn lemma_validate_deterministic(
    args1: Seq<u8>,
    own1: Seq<u8>,
    tx1: TransactionModel,
    args2: Seq<u8>,
    own2: Seq<u8>,
    tx2: TransactionModel,
)
    requires
        args1 == args2,
        own1 == own2,
        tx1 == tx2,
    ensures
        spec_validate(args1, own1, tx1) == spec_validate(args2, own2, tx2),
{
}

/// Decides the capacity inequality alone: accepts exactly when
/// `input_capacity <= output_capacity + max_fee`, with the sum taken
/// without wraparound.
pub fn check_fee(input_capacity: u64, output_capacity: u64, max_fee: u64) -> (r: Result<(), Error>)
    ensures
        r == (if fee_within_cap(input_capacity, output_capacity, max_fee) {
            Ok::<(), Error>(())
        } else {
            Err::<(), Error>(Error::InvalidFee)
        }),
        r is Ok <==> fee_within_cap(input_capacity, output_capacity, max_fee),
{
    if (input_capacity as u128) > (output_capacity as u128) + (max_fee as u128) {
        Err(Error::InvalidFee)
    } else {
        Ok(())
    }
}

/// The fee-cap validator.
///
/// Rejects script args whose length is not 40 with `InvalidArgsLen`;
/// rejects a transaction whose match count under [`fee_rule`] is not
/// exactly one on each side with `InvalidCellCount`; otherwise accepts
/// exactly when the matched capacities satisfy the configured cap, and
/// rejects the rest with `InvalidFee`.
pub fn validate(script_args: &Vec<u8>, own_lock_hash: &Vec<u8>, tx: &Transaction) -> (r: Result<
    (),
    Error,
>)
    ensures
        r == spec_validate(script_args@, own_lock_hash@, tx@),
        script_args@.len() != 40 ==> r == Err::<(), Error>(Error::InvalidArgsLen),
        script_args@.len() == 40 && (match_count(fee_rule(script_args@, own_lock_hash@), tx@.inputs)
            != 1 || match_count(fee_rule(script_args@, own_lock_hash@), tx@.outputs) != 1) ==> r
            == Err::<(), Error>(Error::InvalidCellCount),
        script_args@.len() == 40 && (matching_indices(
            fee_rule(script_args@, own_lock_hash@),
            tx@.inputs,
        ).len() != 1 || matching_indices(fee_rule(script_args@, own_lock_hash@), tx@.outputs).len()
            != 1) ==> r == Err::<(), Error>(Error::InvalidCellCount),
{
    proof {
        lemma_match_count_is_indices_len(fee_rule(script_args@, own_lock_hash@), tx@.inputs);
        lemma_match_count_is_indices_len(fee_rule(script_args@, own_lock_hash@), tx@.outputs);
    }
    if script_args.len() != 40 {
        return Err(Error::InvalidArgsLen);
    }
    let target_type: &[u8] = vstd::slice::slice_subrange(script_args.as_slice(), 0, 32);
    let fee_bytes: &[u8] = vstd::slice::slice_subrange(script_args.as_slice(), 32, 40);
    let max_fee: u64 = vstd::bytes::u64_from_le_bytes(fee_bytes);
    let rule = MatchRule::LockAndType(own_lock_hash.as_slice(), target_type);
    proof {
        assert(rule@ == fee_rule(script_args@, own_lock_hash@));
    }

    let input_index: usize = match find_unique_match(&rule, &tx.inputs) {
        Some(i) => i,
        None => {
            return Err(Error::InvalidCellCount);
        },
    };
    let output_index: usize = match find_unique_match(&rule, &tx.outputs) {
        Some(i) => i,
        None => {
            return Err(Error::InvalidCellCount);
        },
    };

    let input_capacity: u64 = tx.inputs[input_index].capacity;
    let output_capacity: u64 = tx.outputs[output_index].capacity;
    proof {
        assert(views_of(tx.inputs@)[input_index as int] == tx@.inputs[the_match(
            rule@,
            tx@.inputs,
        )]);
        assert(views_of(tx.outputs@)[output_index as int] == tx@.outputs[the_match(
            rule@,
            tx@.outputs,
        )]);
    }
    check_fee(input_capacity, output_capacity, max_fee)
}

} // verus!
