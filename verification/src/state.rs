use vstd::prelude::*;

use crate::cell::{cells_non_data_eq, non_data_eq, views_of, Transaction, TransactionModel};
use crate::error::Error;
use crate::matcher::{
    find_unique_match, lemma_match_count_is_indices_len, match_count, matching_indices, the_match,
    MatchRule, MatchRuleModel,
};

verus! {

/// A cell's data payload read as a state marker: the empty payload or a
/// single byte among one to four. Any other payload carries no marker.
#[derive(Clone, Copy, Debug, PartialEq, Eq, Structural)]
pub enum Marker {
    Empty,
    One,
    Two,
    Three,
    Four,
}

/// The marker carried by a data payload, if any. Reading is exact: a
/// payload of two or more bytes carries no marker, whatever its bytes.
pub open spec fn spec_parse_marker(data: Seq<u8>) -> Option<Marker> {
    if data.len() == 0 {
        Some(Marker::Empty)
    } else if data.len() == 1 {
        if data[0] == 1 {
            Some(Marker::One)
        } else if data[0] == 2 {
            Some(Marker::Two)
        } else if data[0] == 3 {
            Some(Marker::Three)
        } else if data[0] == 4 {
            Some(Marker::Four)
        } else {
            None
        }
    } else {
        None
    }
}

/// Reads the marker of a data payload.
pub fn parse_marker(data: &[u8]) -> (r: Option<Marker>)
    ensures
        r == spec_parse_marker(data@),
{
    if data.len() == 0 {
        Some(Marker::Empty)
    } else if data.len() == 1 {
        let b: u8 = data[0];
        if b == 1 {
            Some(Marker::One)
        } else if b == 2 {
            Some(Marker::Two)
        } else if b == 3 {
            Some(Marker::Three)
        } else if b == 4 {
            Some(Marker::Four)
        } else {
            None
        }
    } else {
        None
    }
}

/// The closed transition table: the only edges a tracked cell's marker
/// may follow. `Three` and `Four` have no outgoing edges and are
/// terminal; every pair not listed, self-loops and reversals included,
/// is forbidden.
pub open spec fn transition_allowed(from: Marker, to: Marker) -> bool {
    ||| (from is Empty && to is One)
    ||| (from is One && to is Two)
    ||| (from is One && to is Three)
    ||| (from is Two && to is Four)
}

/// Whether a data payload pair is accepted: both payloads carry a marker
/// and the marker pair is an edge of the table.
pub open spec fn pair_allowed(input_data: Seq<u8>, output_data: Seq<u8>) -> bool {
    match (spec_parse_marker(input_data), spec_parse_marker(output_data)) {
        (Some(from), Some(to)) => transition_allowed(from, to),
        _ => false,
    }
}

/// The same table stated on raw bytes: a pair is accepted exactly when
/// it is one of the four listed payload pairs, byte for byte.
pub open spec fn is_listed_pair(input_data: Seq<u8>, output_data: Seq<u8>) -> bool {
    ||| (input_data == Seq::<u8>::empty() && output_data == seq![1u8])
    ||| (input_data == seq![1u8] && output_data == seq![2u8])
    ||| (input_data == seq![1u8] && output_data == seq![3u8])
    ||| (input_data == seq![2u8] && output_data == seq![4u8])
}

/// The marker reading of the table coincides with the byte-for-byte
/// reading: exactly the four listed payload pairs are accepted, and any
/// reordering, truncation or extension of a valid payload is rejected.
pub proof fn lemma_pair_allowed_is_listed(input_data: Seq<u8>, output_data: Seq<u8>)
    ensures
        pair_allowed(input_data, output_data) == is_listed_pair(input_data, output_data),
{
    if pair_allowed(input_data, output_data) {
        assert(input_data.len() == 0 ==> input_data =~= Seq::<u8>::empty());
        assert(input_data.len() == 1 && input_data[0] == 1 ==> input_data =~= seq![1u8]);
        assert(input_data.len() == 1 && input_data[0] == 2 ==> input_data =~= seq![2u8]);
        assert(output_data.len() == 1 && output_data[0] == 1 ==> output_data =~= seq![1u8]);
        assert(output_data.len() == 1 && output_data[0] == 2 ==> output_data =~= seq![2u8]);
        assert(output_data.len() == 1 && output_data[0] == 3 ==> output_data =~= seq![3u8]);
        assert(output_data.len() == 1 && output_data[0] == 4 ==> output_data =~= seq![4u8]);
    }
    if is_listed_pair(input_data, output_data) {
        assert(pair_allowed(input_data, output_data));
    }
}

/// Decides whether the data payload pair is an edge of the table.
pub fn validate_state_transition(input_data: &[u8], output_data: &[u8]) -> (r: Result<(), Error>)
    ensures
        r == (if pair_allowed(input_data@, output_data@) {
            Ok::<(), Error>(())
        } else {
            Err::<(), Error>(Error::InvalidStateTransition)
        }),
        r is Ok <==> pair_allowed(input_data@, output_data@),
{
    let from: Marker = match parse_marker(input_data) {
        Some(m) => m,
        None => {
            return Err(Error::InvalidStateTransition);
        },
    };
    let to: Marker = match parse_marker(output_data) {
        Some(m) => m,
        None => {
            return Err(Error::InvalidStateTransition);
        },
    };
    let ok: bool = match (from, to) {
        (Marker::Empty, Marker::One) => true,
        (Marker::One, Marker::Two) => true,
        (Marker::One, Marker::Three) => true,
        (Marker::Two, Marker::Four) => true,
        _ => false,
    };
    if ok {
        Ok(())
    } else {
        Err(Error::InvalidStateTransition)
    }
}

/// The matching rule of the state validator: lock identity equals the
/// executing script's own hash.
pub open spec fn state_rule(own_lock_hash: Seq<u8>) -> MatchRuleModel {
    MatchRuleModel::Lock(own_lock_hash)
}

/// The complete outcome of the state validator on a given own script
/// hash and transaction.
pub open spec fn spec_validate(own_lock_hash: Seq<u8>, tx: TransactionModel) -> Result<(), Error> {
    let rule = state_rule(own_lock_hash);
    if match_count(rule, tx.inputs) != 1 || match_count(rule, tx.outputs) != 1 {
        Err(Error::InvalidCellCount)
    } else {
        let input = tx.inputs[the_match(rule, tx.inputs)];
        let output = tx.outputs[the_match(rule, tx.outputs)];
        if !non_data_eq(input, output) {
            Err(Error::CellChanged)
        } else if pair_allowed(input.data, output.data) {
            Ok(())
        } else {
            Err(Error::InvalidStateTransition)
        }
    }
}

/// With exactly one matched cell on each side and every non-data
/// attribute preserved, the state validator accepts exactly when the
/// data payload pair is one of the four listed edges of the table.
pub proof fn lemma_accepts_iff_listed_pair(own_lock_hash: Seq<u8>, tx: TransactionModel)
    requires
        match_count(state_rule(own_lock_hash), tx.inputs) == 1,
        match_count(state_rule(own_lock_hash), tx.outputs) == 1,
        non_data_eq(
            tx.inputs[the_match(state_rule(own_lock_hash), tx.inputs)],
            tx.outputs[the_match(state_rule(own_lock_hash), tx.outputs)],
        ),
    ensures
        spec_validate(own_lock_hash, tx) is Ok <==> is_listed_pair(
            tx.inputs[the_match(state_rule(own_lock_hash), tx.inputs)].data,
            tx.outputs[the_match(state_rule(own_lock_hash), tx.outputs)].data,
        ),
{
    lemma_pair_allowed_is_listed(
        tx.inputs[the_match(state_rule(own_lock_hash), tx.inputs)].data,
        tx.outputs[the_match(state_rule(own_lock_hash), tx.outputs)].data,
    );
}

/// Non-data attribute equality is required independently of the data
/// payloads: when capacity, lock identity or type identity differs
/// between the matched cells, the validator rejects with `CellChanged`,
/// even when the data pair itself is a listed edge.
pub proof fn lemma_cell_changed_independent_of_data(own_lock_hash: Seq<u8>, tx: TransactionModel)
    requires
        match_count(state_rule(own_lock_hash), tx.inputs) == 1,
        match_count(state_rule(own_lock_hash), tx.outputs) == 1,
        !non_data_eq(
            tx.inputs[the_match(state_rule(own_lock_hash), tx.inputs)],
            tx.outputs[the_match(state_rule(own_lock_hash), tx.outputs)],
        ),
    ensures
        spec_validate(own_lock_hash, tx) == Err::<(), Error>(Error::CellChanged),
{
}

/// The state validator is pure: its outcome depends only on the values
/// of the executing script's hash and the transaction, so validating the
/// same transaction twice yields the same outcome.
pub proof fn lemma_validate_deterministic(
    own1: Seq<u8>,
    tx1: TransactionModel,
    own2: Seq<u8>,
    tx2: TransactionModel,
)
    requires
        own1 == own2,
        tx1 == tx2,
    ensures
        spec_validate(own1, tx1) == spec_validate(own2, tx2),
{
}

/// The state-transition validator.
///
/// Rejects a transaction whose match count under [`state_rule`] is not
/// exactly one on each side with `InvalidCellCount`; rejects with
/// `CellChanged` when any non-data attribute of the matched cells
/// differs, whatever the data pair; otherwise accepts exactly when the
/// data payload pair is an edge of the transition table.
pub fn validate(own_lock_hash: &Vec<u8>, tx: &Transaction) -> (r: Result<(), Error>)
    ensures
        r == spec_validate(own_lock_hash@, tx@),
        match_count(state_rule(own_lock_hash@), tx@.inputs) != 1 || match_count(
            state_rule(own_lock_hash@),
            tx@.outputs,
        ) != 1 ==> r == Err::<(), Error>(Error::InvalidCellCount),
        matching_indices(state_rule(own_lock_hash@), tx@.inputs).len() != 1 || matching_indices(
            state_rule(own_lock_hash@),
            tx@.outputs,
        ).len() != 1 ==> r == Err::<(), Error>(Error::InvalidCellCount),
{
    proof {
        lemma_match_count_is_indices_len(state_rule(own_lock_hash@), tx@.inputs);
        lemma_match_count_is_indices_len(state_rule(own_lock_hash@), tx@.outputs);
    }
    let rule = MatchRule::Lock(own_lock_hash.as_slice());
    let input_index: usize = match find_unique_match(&rule, &tx.inputs) {
        Some(i) => i,
        None => {
            return Err(Error::InvalidCellCount);
        },
    };
    let output_index: usize = match find_unique_match(&rule, &tx.outputs) {
        Some(i) => i,
        None => {
            return Err(Error::InvalidCellCount);
        },
    };
    let input = &tx.inputs[input_index];
    let output = &tx.outputs[output_index];
    proof {
        assert(views_of(tx.inputs@)[input_index as int] == tx@.inputs[the_match(
            rule@,
            tx@.inputs,
        )]);
        assert(views_of(tx.outputs@)[output_index as int] == tx@.outputs[the_match(
            rule@,
            tx@.outputs,
        )]);
    }
    if !cells_non_data_eq(input, output) {
        return Err(Error::CellChanged);
    }
    validate_state_transition(input.data.as_slice(), output.data.as_slice())
}

} // verus!
