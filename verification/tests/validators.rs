use cell_policy::args::{load_script_args_and_witness, LoadedArgs};
use cell_policy::cell::{Cell, Transaction};
use cell_policy::error::Error;
use cell_policy::fee;
use cell_policy::hex::{decode_hex, encode_hex};
use cell_policy::matcher::{find_unique_match, MatchRule};
use cell_policy::state;
use cell_policy::state::{parse_marker, Marker};

fn hash(tag: u8) -> Vec<u8> {
    vec![tag; 32]
}

fn cell(capacity: u64, lock: u8, type_tag: Option<u8>, data: Vec<u8>) -> Cell {
    Cell {
        capacity,
        lock_hash: hash(lock),
        type_hash: type_tag.map(hash),
        data,
    }
}

fn fee_args(type_tag: u8, max_fee: u64) -> Vec<u8> {
    let mut args = hash(type_tag);
    args.extend_from_slice(&max_fee.to_le_bytes());
    args
}

fn fee_tx(input_capacity: u64, output_capacity: u64) -> Transaction {
    Transaction {
        inputs: vec![cell(input_capacity, 1, Some(2), vec![])],
        outputs: vec![cell(output_capacity, 1, Some(2), vec![])],
    }
}

// A 1000-byte cell (100_000_000_000 shannons) spent into one 999
// shannons lighter, under a cap of 10_000_000.
#[test]
fn test_pay_fee() {
    let input_capacity: u64 = 100_000_000_000;
    let output_capacity: u64 = input_capacity - 999;
    let max_fee: u64 = 10000000;
    let tx = fee_tx(input_capacity, output_capacity);
    let r = fee::validate(&fee_args(2, max_fee), &hash(1), &tx);
    assert_eq!(r, Ok(()));
}

#[test]
fn fee_rejects_short_args() {
    let tx = fee_tx(1000, 990);
    let args = vec![0u8; 39];
    assert_eq!(fee::validate(&args, &hash(1), &tx), Err(Error::InvalidArgsLen));
}

#[test]
fn fee_rejects_long_args() {
    let tx = fee_tx(1000, 990);
    let args = vec![0u8; 41];
    assert_eq!(fee::validate(&args, &hash(1), &tx), Err(Error::InvalidArgsLen));
    assert_eq!(fee::validate(&Vec::new(), &hash(1), &tx), Err(Error::InvalidArgsLen));
}

#[test]
fn fee_args_len_checked_before_cells() {
    // Even a transaction with no matching cell at all reports the args
    // length first.
    let tx = Transaction { inputs: vec![], outputs: vec![] };
    assert_eq!(fee::validate(&vec![7u8; 12], &hash(1), &tx), Err(Error::InvalidArgsLen));
}

#[test]
fn fee_rejects_two_matching_inputs() {
    let tx = Transaction {
        inputs: vec![cell(1000, 1, Some(2), vec![]), cell(500, 1, Some(2), vec![])],
        outputs: vec![cell(990, 1, Some(2), vec![])],
    };
    assert_eq!(fee::validate(&fee_args(2, 20), &hash(1), &tx), Err(Error::InvalidCellCount));
}

#[test]
fn fee_rejects_no_matching_input() {
    let tx = Transaction {
        inputs: vec![cell(1000, 9, Some(2), vec![])],
        outputs: vec![cell(990, 1, Some(2), vec![])],
    };
    assert_eq!(fee::validate(&fee_args(2, 20), &hash(1), &tx), Err(Error::InvalidCellCount));
}

#[test]
fn fee_rejects_two_matching_outputs() {
    let tx = Transaction {
        inputs: vec![cell(1000, 1, Some(2), vec![])],
        outputs: vec![cell(500, 1, Some(2), vec![]), cell(490, 1, Some(2), vec![])],
    };
    assert_eq!(fee::validate(&fee_args(2, 20), &hash(1), &tx), Err(Error::InvalidCellCount));
}

#[test]
fn fee_requires_type_identity_to_match() {
    // Lock matches but the cell carries no type identity: outside the
    // validator's jurisdiction, so the count is zero.
    let tx = Transaction {
        inputs: vec![cell(1000, 1, None, vec![])],
        outputs: vec![cell(990, 1, None, vec![])],
    };
    assert_eq!(fee::validate(&fee_args(2, 20), &hash(1), &tx), Err(Error::InvalidCellCount));
}

#[test]
fn fee_ignores_unrelated_cells() {
    let tx = Transaction {
        inputs: vec![
            cell(77, 9, None, vec![5]),
            cell(1000, 1, Some(2), vec![]),
            cell(3, 1, Some(8), vec![]),
        ],
        outputs: vec![cell(42, 6, Some(2), vec![]), cell(990, 1, Some(2), vec![])],
    };
    assert_eq!(fee::validate(&fee_args(2, 20), &hash(1), &tx), Ok(()));
}

#[test]
fn fee_accepts_within_cap() {
    // 1000 <= 990 + 20
    let tx = fee_tx(1000, 990);
    assert_eq!(fee::validate(&fee_args(2, 20), &hash(1), &tx), Ok(()));
}

#[test]
fn fee_accepts_at_exact_cap() {
    // 1010 <= 990 + 20
    let tx = fee_tx(1010, 990);
    assert_eq!(fee::validate(&fee_args(2, 20), &hash(1), &tx), Ok(()));
}

#[test]
fn fee_rejects_above_cap() {
    // 1000 > 970 + 20
    let tx = fee_tx(1000, 970);
    assert_eq!(fee::validate(&fee_args(2, 20), &hash(1), &tx), Err(Error::InvalidFee));
}

#[test]
fn fee_sum_does_not_wrap_around() {
    // output + max_fee overflows u64; the mathematical sum still covers
    // the input, so this accepts.
    let tx = fee_tx(u64::MAX, u64::MAX - 1);
    assert_eq!(fee::validate(&fee_args(2, u64::MAX), &hash(1), &tx), Ok(()));
    // And one unit of headroom short still rejects.
    let tx = fee_tx(u64::MAX, 0);
    assert_eq!(fee::validate(&fee_args(2, u64::MAX - 1), &hash(1), &tx), Err(Error::InvalidFee));
}

#[test]
fn fee_accepts_when_output_grows() {
    // No value destroyed at all: 990 <= 1000 + 0.
    let tx = fee_tx(990, 1000);
    assert_eq!(fee::validate(&fee_args(2, 0), &hash(1), &tx), Ok(()));
}

fn state_tx(input: Cell, output: Cell) -> Transaction {
    Transaction { inputs: vec![input], outputs: vec![output] }
}

#[test]
fn state_accepts_listed_edges() {
    for (from, to) in [
        (vec![], vec![1u8]),
        (vec![1u8], vec![2u8]),
        (vec![1u8], vec![3u8]),
        (vec![2u8], vec![4u8]),
    ] {
        let tx = state_tx(cell(100, 1, None, from), cell(100, 1, None, to));
        assert_eq!(state::validate(&hash(1), &tx), Ok(()));
    }
}

#[test]
fn state_rejects_unlisted_edges() {
    for (from, to) in [
        (vec![2u8], vec![3u8]),          // not in the table
        (vec![1u8], vec![1u8]),          // self-loop
        (vec![2u8], vec![1u8]),          // reversal
        (vec![3u8], vec![4u8]),          // out of a terminal state
        (vec![4u8], vec![]),             // back to the initial state
        (vec![], vec![]),                // staying empty
        (vec![], vec![2u8]),             // skipping the first state
        (vec![1u8, 0u8], vec![2u8]),     // extended input payload
        (vec![1u8], vec![2u8, 0u8]),     // extended output payload
        (vec![0u8], vec![1u8]),          // explicit zero is not empty
        (vec![1u8], vec![]),             // truncation of a valid payload
        (vec![2u8, 4u8], vec![4u8, 2u8]),// reordering
    ] {
        let tx = state_tx(cell(100, 1, None, from), cell(100, 1, None, to));
        assert_eq!(state::validate(&hash(1), &tx), Err(Error::InvalidStateTransition));
    }
}

#[test]
fn state_rejects_changed_capacity() {
    // The data pair alone is a listed edge, yet the capacity moved.
    let tx = state_tx(cell(100, 1, None, vec![]), cell(99, 1, None, vec![1]));
    assert_eq!(state::validate(&hash(1), &tx), Err(Error::CellChanged));
}

#[test]
fn state_rejects_changed_type_identity() {
    let tx = state_tx(cell(100, 1, Some(2), vec![1]), cell(100, 1, Some(3), vec![2]));
    assert_eq!(state::validate(&hash(1), &tx), Err(Error::CellChanged));
}

#[test]
fn state_rejects_identical_data_when_capacity_differs() {
    // Same data on both sides, so only the capacity distinguishes them.
    let tx = state_tx(cell(100, 1, None, vec![1]), cell(50, 1, None, vec![1]));
    assert_eq!(state::validate(&hash(1), &tx), Err(Error::CellChanged));
}

#[test]
fn state_rejects_two_matching_inputs() {
    let tx = Transaction {
        inputs: vec![cell(100, 1, None, vec![]), cell(100, 1, None, vec![])],
        outputs: vec![cell(100, 1, None, vec![1])],
    };
    assert_eq!(state::validate(&hash(1), &tx), Err(Error::InvalidCellCount));
}

#[test]
fn state_rejects_no_matching_output() {
    let tx = Transaction {
        inputs: vec![cell(100, 1, None, vec![])],
        outputs: vec![cell(100, 9, None, vec![1])],
    };
    assert_eq!(state::validate(&hash(1), &tx), Err(Error::InvalidCellCount));
}

#[test]
fn state_ignores_unrelated_cells() {
    let tx = Transaction {
        inputs: vec![cell(7, 9, Some(4), vec![9]), cell(100, 1, None, vec![1])],
        outputs: vec![cell(100, 1, None, vec![3]), cell(8, 5, None, vec![])],
    };
    assert_eq!(state::validate(&hash(1), &tx), Ok(()));
}

#[test]
fn validation_is_idempotent() {
    let accept = fee_tx(1000, 990);
    let args = fee_args(2, 20);
    assert_eq!(fee::validate(&args, &hash(1), &accept), fee::validate(&args, &hash(1), &accept));
    let reject = fee_tx(1000, 970);
    assert_eq!(fee::validate(&args, &hash(1), &reject), fee::validate(&args, &hash(1), &reject));
    let step = state_tx(cell(100, 1, None, vec![1]), cell(100, 1, None, vec![3]));
    assert_eq!(state::validate(&hash(1), &step), state::validate(&hash(1), &step));
}

#[test]
fn hex_encodes_lowercase_pairs() {
    assert_eq!(encode_hex(&[0x00, 0xff, 0x10]), b"00ff10".to_vec());
    assert_eq!(encode_hex(&[]), Vec::<u8>::new());
}

#[test]
fn hex_round_trips() {
    let cases: Vec<Vec<u8>> = vec![
        vec![],
        vec![0],
        vec![255],
        vec![0xde, 0xad, 0xbe, 0xef],
        (0u8..=255).collect(),
    ];
    for bytes in cases {
        let encoded = encode_hex(&bytes);
        assert_eq!(decode_hex(&encoded), Ok(bytes));
    }
}

#[test]
fn hex_decodes_uppercase() {
    assert_eq!(decode_hex(b"DEADBEEF"), Ok(vec![0xde, 0xad, 0xbe, 0xef]));
    assert_eq!(decode_hex(b"aAbB"), Ok(vec![0xaa, 0xbb]));
}

#[test]
fn hex_rejects_odd_length() {
    assert_eq!(decode_hex(b"abc"), Err(Error::Encoding));
}

#[test]
fn hex_rejects_non_digits() {
    assert_eq!(decode_hex(b"zz"), Err(Error::Encoding));
    assert_eq!(decode_hex(b"0g"), Err(Error::Encoding));
    assert_eq!(decode_hex(b"+1"), Err(Error::Encoding));
}

#[test]
fn matcher_returns_the_unique_index() {
    let cells = vec![
        cell(10, 9, None, vec![]),
        cell(20, 1, Some(2), vec![]),
        cell(30, 1, None, vec![]),
    ];
    let own = hash(1);
    let target = hash(2);
    assert_eq!(find_unique_match(&MatchRule::LockAndType(&own, &target), &cells), Some(1));
    // Lock alone matches indices 1 and 2: not unique.
    assert_eq!(find_unique_match(&MatchRule::Lock(&own), &cells), None);
    // Nothing carries the lock of a stranger.
    let other = hash(7);
    assert_eq!(find_unique_match(&MatchRule::Lock(&other), &cells), None);
}

#[test]
fn check_fee_is_exact_inequality() {
    assert_eq!(fee::check_fee(1000, 990, 20), Ok(()));
    assert_eq!(fee::check_fee(1010, 990, 20), Ok(()));
    assert_eq!(fee::check_fee(1011, 990, 20), Err(Error::InvalidFee));
    assert_eq!(fee::check_fee(1000, 970, 20), Err(Error::InvalidFee));
    assert_eq!(fee::check_fee(0, 0, 0), Ok(()));
}

#[test]
fn marker_reading_is_exact() {
    assert_eq!(parse_marker(&[]), Some(Marker::Empty));
    assert_eq!(parse_marker(&[1]), Some(Marker::One));
    assert_eq!(parse_marker(&[2]), Some(Marker::Two));
    assert_eq!(parse_marker(&[3]), Some(Marker::Three));
    assert_eq!(parse_marker(&[4]), Some(Marker::Four));
    assert_eq!(parse_marker(&[0]), None);
    assert_eq!(parse_marker(&[5]), None);
    assert_eq!(parse_marker(&[1, 0]), None);
}

#[test]
fn loader_defers_to_host_without_argv() {
    let argv: Vec<Vec<u8>> = vec![];
    assert!(matches!(load_script_args_and_witness(&argv), Ok(LoadedArgs::FromHost)));
}

#[test]
fn loader_decodes_two_hex_argv() {
    let argv: Vec<Vec<u8>> = vec![b"00ff".to_vec(), b"1234".to_vec()];
    match load_script_args_and_witness(&argv) {
        Ok(LoadedArgs::Supplied(script_args, witness)) => {
            assert_eq!(script_args, vec![0x00, 0xff]);
            assert_eq!(witness, vec![0x12, 0x34]);
        }
        other => panic!("unexpected loader outcome: {:?}", other.is_ok()),
    }
}

#[test]
fn loader_rejects_other_argv_counts() {
    let one: Vec<Vec<u8>> = vec![b"00".to_vec()];
    assert!(matches!(load_script_args_and_witness(&one), Err(Error::WrongArgv)));
    let three: Vec<Vec<u8>> = vec![b"00".to_vec(), b"11".to_vec(), b"22".to_vec()];
    assert!(matches!(load_script_args_and_witness(&three), Err(Error::WrongArgv)));
}

#[test]
fn loader_surfaces_malformed_hex() {
    let argv: Vec<Vec<u8>> = vec![b"0".to_vec(), b"11".to_vec()];
    assert!(matches!(load_script_args_and_witness(&argv), Err(Error::Encoding)));
    let argv: Vec<Vec<u8>> = vec![b"00".to_vec(), b"xy".to_vec()];
    assert!(matches!(load_script_args_and_witness(&argv), Err(Error::Encoding)));
}
