use ckb_time_scripts::index_state;
use ckb_time_scripts::info::entry::{
    block_number_from_info_data, check_cells_type_scripts_valid, check_info_cell_data,
    check_info_cells_data, check_type_script_exists_in_inputs, is_info_data_len_invalid,
    load_output_type_script, main, timestamp_from_info_data, BLOCK_NUMBER_DATA_LEN,
    INDEX_STATE_CELL_DATA_LEN, SINCE_TIMESTAMP_BASE, TIMESTAMP_DATA_LEN,
};
use ckb_time_scripts::info::error::Error;
use ckb_time_scripts::transaction::{Script, SysError, TransactionView};

fn script(code: u8, args: &[u8]) -> Script {
    Script {
        code_hash: vec![code; 32],
        hash_type: 0,
        args: args.to_vec(),
    }
}

fn out_point(n: u8) -> Vec<u8> {
    let mut out_point = vec![n; 32];
    out_point.extend_from_slice(&(n as u32).to_le_bytes());
    out_point
}

fn timestamp_data(index: u8, timestamp: u32) -> Vec<u8> {
    let mut data = vec![index];
    data.extend_from_slice(&timestamp.to_be_bytes());
    data
}

fn block_number_data(index: u8, block_number: u64) -> Vec<u8> {
    let mut data = vec![index];
    data.extend_from_slice(&block_number.to_be_bytes());
    data
}

// A transaction that consumes two untyped cells and puts out an index-state
// cell and then one cell of the type, bound to `args`, with the payload
// `data`.
fn creation(args: &[u8], data: &[u8]) -> TransactionView {
    TransactionView {
        script: Ok(script(0x1f, args)),
        input_types: vec![Ok(None), Ok(None)],
        input_out_points: vec![Ok(out_point(1)), Ok(out_point(2))],
        group_input_type: Err(SysError),
        group_output_type: Ok(Some(script(0x1f, args))),
        group_input_data: Err(SysError),
        group_output_data: Ok(data.to_vec()),
        group_input_since: Err(SysError),
        first_output_data: Ok(vec![0, 12]),
    }
}

// A transaction that replaces a cell of the type with payload `input` by
// one with payload `output`, under the timelock `since`, and whose first
// output is an index-state cell with payload `index_state`.
fn update(index_state: &[u8], input: &[u8], output: &[u8], since: u64) -> TransactionView {
    let own = script(0x1f, &out_point(9));
    TransactionView {
        script: Ok(own.clone()),
        input_types: vec![Ok(Some(script(0x1d, &out_point(9)))), Ok(Some(own.clone()))],
        input_out_points: vec![Ok(out_point(1)), Ok(out_point(2))],
        group_input_type: Ok(Some(own.clone())),
        group_output_type: Ok(Some(own)),
        group_input_data: Ok(input.to_vec()),
        group_output_data: Ok(output.to_vec()),
        group_input_since: Ok(since),
        first_output_data: Ok(index_state.to_vec()),
    }
}

// The same transaction as the index-state validator sees it, where the
// index-state cell that it consumes has the payload `old_index_state`.
fn index_state_update(old_index_state: &[u8], index_state: &[u8]) -> TransactionView {
    let own = script(0x1d, &out_point(9));
    TransactionView {
        script: Ok(own.clone()),
        input_types: vec![Ok(Some(own.clone())), Ok(Some(script(0x1f, &out_point(9))))],
        input_out_points: vec![Ok(out_point(1)), Ok(out_point(2))],
        group_input_type: Ok(Some(own.clone())),
        group_output_type: Ok(Some(own)),
        group_input_data: Ok(old_index_state.to_vec()),
        group_output_data: Ok(index_state.to_vec()),
        group_input_since: Ok(0),
        first_output_data: Ok(index_state.to_vec()),
    }
}

#[test]
fn constants_of_the_info_layout() {
    assert_eq!(TIMESTAMP_DATA_LEN, 5);
    assert_eq!(BLOCK_NUMBER_DATA_LEN, 9);
    assert_eq!(INDEX_STATE_CELL_DATA_LEN, 2);
    assert_eq!(SINCE_TIMESTAMP_BASE, 1 << 62);
    assert_eq!(SINCE_TIMESTAMP_BASE, 4611686018427387904);
}

#[test]
fn info_error_codes_are_fixed_distinct_and_nonzero() {
    let all = [
        (Error::Encoding, 4),
        (Error::InvalidArgument, 5),
        (Error::TimeInfoDataLenError, 6),
        (Error::IndexStateDataLenError, 7),
        (Error::TimeInfoTypeNotExist, 8),
        (Error::TimeInfoIndexNotSame, 9),
        (Error::OutputTimestampNotBigger, 10),
        (Error::OutputBlockNumberNotBigger, 11),
        (Error::InvalidTimeInfoSince, 12),
    ];
    for (i, (error, code)) in all.iter().enumerate() {
        assert_eq!(error.code(), *code);
        assert_ne!(error.code(), 0);
        for (other, _) in &all[i + 1..] {
            assert_ne!(error.code(), other.code());
        }
    }
    assert_eq!(Error::from(SysError), Error::Encoding);
}

#[test]
fn timestamp_is_read_big_endian_after_the_index() {
    assert_eq!(timestamp_from_info_data(&vec![9, 0, 0, 0, 0]), 0);
    assert_eq!(timestamp_from_info_data(&vec![9, 0, 0, 0, 1]), 1);
    assert_eq!(timestamp_from_info_data(&vec![9, 0, 0, 1, 0]), 256);
    assert_eq!(timestamp_from_info_data(&vec![9, 0, 1, 0, 0]), 65536);
    assert_eq!(timestamp_from_info_data(&vec![9, 1, 0, 0, 0]), 16777216);
    assert_eq!(timestamp_from_info_data(&vec![9, 1, 2, 3, 4]), 0x01020304);
    assert_eq!(
        timestamp_from_info_data(&vec![6, 0x60, 0x40, 0x54, 0x8b]),
        1614828683
    );
    assert_eq!(
        timestamp_from_info_data(&vec![0, 0xff, 0xff, 0xff, 0xff]),
        u32::MAX
    );
    for timestamp in [0u32, 1, 255, 256, 1614829080, u32::MAX - 1, u32::MAX] {
        assert_eq!(
            timestamp_from_info_data(&timestamp_data(3, timestamp)),
            timestamp
        );
    }
}

#[test]
fn block_number_is_read_big_endian_after_the_index() {
    assert_eq!(
        block_number_from_info_data(&vec![9, 0, 0, 0, 0, 0, 0, 0, 0]),
        0
    );
    assert_eq!(
        block_number_from_info_data(&vec![9, 0, 0, 0, 0, 0, 0, 0x27, 0x10]),
        10000
    );
    assert_eq!(
        block_number_from_info_data(&vec![9, 1, 2, 3, 4, 5, 6, 7, 8]),
        0x0102030405060708
    );
    assert_eq!(
        block_number_from_info_data(&vec![9, 1, 0, 0, 0, 0, 0, 0, 0]),
        1 << 56
    );
    assert_eq!(
        block_number_from_info_data(&vec![0, 0xff, 0xff, 0xff, 0xff, 0xff, 0xff, 0xff, 0xff]),
        u64::MAX
    );
    for block_number in [0u64, 1, 255, 256, 10003, 1 << 32, 1 << 62, u64::MAX] {
        assert_eq!(
            block_number_from_info_data(&block_number_data(3, block_number)),
            block_number
        );
    }
}

#[test]
fn only_five_and_nine_are_lengths_of_a_payload() {
    for len in 0..=20usize {
        assert_eq!(
            is_info_data_len_invalid(&vec![0; len]),
            len != 5 && len != 9
        );
    }
}

#[test]
fn creation_accepts_a_payload_of_five_bytes() {
    assert_eq!(main(&creation(&out_point(1), &[2, 0, 0, 0, 0])), Ok(()));
    assert_eq!(check_info_cell_data(&Ok(vec![2, 0, 0, 0, 0])), Ok(()));
}

#[test]
fn creation_accepts_a_payload_of_nine_bytes() {
    assert_eq!(
        main(&creation(&out_point(1), &[2, 0, 0, 0, 0, 0, 0, 0, 0])),
        Ok(())
    );
    assert_eq!(
        check_info_cell_data(&Ok(vec![2, 0, 0, 0, 0, 0, 0, 0, 0])),
        Ok(())
    );
}

#[test]
fn creation_rejects_every_other_length() {
    for len in (0..=20usize).filter(|len| *len != 5 && *len != 9) {
        assert_eq!(
            main(&creation(&out_point(1), &vec![0; len])),
            Err(Error::TimeInfoDataLenError)
        );
        assert_eq!(
            check_info_cell_data(&Ok(vec![0; len])),
            Err(Error::TimeInfoDataLenError)
        );
    }
}

#[test]
fn creation_rejects_an_empty_payload() {
    assert_eq!(
        main(&creation(&out_point(1), &[])),
        Err(Error::TimeInfoDataLenError)
    );
}

#[test]
fn creation_places_no_rule_on_index_or_value() {
    assert_eq!(
        main(&creation(&out_point(1), &timestamp_data(255, 0))),
        Ok(())
    );
    assert_eq!(
        main(&creation(&out_point(1), &block_number_data(77, u64::MAX))),
        Ok(())
    );
    let mut tx = creation(&out_point(1), &timestamp_data(3, 5));
    tx.first_output_data = Err(SysError);
    assert_eq!(main(&tx), Ok(()));
}

#[test]
fn info_creation_is_bound_to_any_consumed_outpoint() {
    let data = timestamp_data(2, 1614828683);
    assert_eq!(main(&creation(&out_point(1), &data)), Ok(()));
    assert_eq!(main(&creation(&out_point(2), &data)), Ok(()));
    assert_eq!(
        main(&creation(&out_point(3), &data)),
        Err(Error::InvalidArgument)
    );
    assert_eq!(main(&creation(&[], &data)), Err(Error::InvalidArgument));
    // the binding is judged before the payload
    assert_eq!(main(&creation(&[], &[])), Err(Error::InvalidArgument));
}

#[test]
fn info_creation_needs_an_output_of_the_type() {
    let mut tx = creation(&out_point(1), &timestamp_data(2, 1));
    tx.group_output_type = Err(SysError);
    assert_eq!(main(&tx), Err(Error::TimeInfoTypeNotExist));
    assert_eq!(
        load_output_type_script(&tx),
        Err(Error::TimeInfoTypeNotExist)
    );
    tx.group_output_type = Ok(None);
    assert_eq!(main(&tx), Err(Error::TimeInfoTypeNotExist));
    assert_eq!(
        load_output_type_script(&tx),
        Err(Error::TimeInfoTypeNotExist)
    );
    let tx = creation(&out_point(1), &timestamp_data(2, 1));
    assert_eq!(
        load_output_type_script(&tx),
        Ok(&script(0x1f, &out_point(1)))
    );
}

#[test]
fn info_host_failures_are_encoding_errors() {
    let mut tx = creation(&out_point(1), &timestamp_data(2, 1));
    tx.script = Err(SysError);
    assert_eq!(main(&tx), Err(Error::Encoding));
    assert_eq!(
        check_type_script_exists_in_inputs(&tx),
        Err(Error::Encoding)
    );

    let mut tx = creation(&out_point(1), &timestamp_data(2, 1));
    tx.group_output_data = Err(SysError);
    assert_eq!(main(&tx), Err(Error::Encoding));

    let good = || update(&[7, 12], &timestamp_data(6, 10), &timestamp_data(7, 11), (1 << 62) + 11);
    assert_eq!(main(&good()), Ok(()));

    let mut tx = good();
    tx.first_output_data = Err(SysError);
    assert_eq!(main(&tx), Err(Error::Encoding));

    let mut tx = good();
    tx.group_input_data = Err(SysError);
    assert_eq!(main(&tx), Err(Error::Encoding));

    let mut tx = good();
    tx.group_output_data = Err(SysError);
    assert_eq!(main(&tx), Err(Error::Encoding));

    let mut tx = good();
    tx.group_input_since = Err(SysError);
    assert_eq!(main(&tx), Err(Error::Encoding));
}

#[test]
fn info_mode_is_told_by_the_code_hash_among_the_inputs() {
    assert_eq!(
        check_type_script_exists_in_inputs(&creation(&out_point(1), &timestamp_data(2, 1))),
        Ok(false)
    );
    assert_eq!(
        check_type_script_exists_in_inputs(&update(
            &[7, 12],
            &timestamp_data(6, 10),
            &timestamp_data(7, 11),
            (1 << 62) + 11
        )),
        Ok(true)
    );
}

#[test]
fn timestamp_update_with_its_timelock_is_accepted() {
    let tx = update(
        &[7, 12],
        &timestamp_data(6, 1614828683),
        &timestamp_data(7, 1614829080),
        (1 << 62) + 1614829080,
    );
    assert_eq!(main(&tx), Ok(()));
}

#[test]
fn timestamp_update_under_a_timelock_without_the_flag_is_rejected() {
    let tx = update(
        &[7, 12],
        &timestamp_data(6, 1614828683),
        &timestamp_data(7, 1614829080),
        1614829580,
    );
    assert_eq!(main(&tx), Err(Error::InvalidTimeInfoSince));
}

#[test]
fn block_number_update_is_accepted_while_the_index_state_wraps() {
    let index_state_tx = index_state_update(&[11, 12], &[0, 12]);
    let info_tx = update(
        &[0, 12],
        &block_number_data(11, 10000),
        &block_number_data(0, 10003),
        10003,
    );
    assert_eq!(index_state_tx.group_output_data, info_tx.first_output_data);
    assert_eq!(index_state::entry::main(&index_state_tx), Ok(()));
    assert_eq!(main(&info_tx), Ok(()));
}

#[test]
fn the_validators_keep_step_round_the_whole_cycle() {
    let mut timestamp = 1614828683u32;
    for old_index in 0..12u8 {
        let new_index = (old_index + 1) % 12;
        let index_state_tx = index_state_update(&[old_index, 12], &[new_index, 12]);
        let info_tx = update(
            &[new_index, 12],
            &timestamp_data(new_index, timestamp),
            &timestamp_data(new_index, timestamp + 60),
            (1 << 62) + (timestamp + 60) as u64,
        );
        assert_eq!(index_state::entry::main(&index_state_tx), Ok(()));
        assert_eq!(main(&info_tx), Ok(()));

        // an info cell that keeps the old index falls out of step
        let stale = update(
            &[new_index, 12],
            &timestamp_data(old_index, timestamp),
            &timestamp_data(old_index, timestamp + 60),
            (1 << 62) + (timestamp + 60) as u64,
        );
        assert_eq!(main(&stale), Err(Error::TimeInfoIndexNotSame));
        timestamp += 60;
    }
}

#[test]
fn update_cannot_change_the_form() {
    let five = timestamp_data(7, 100);
    let nine = block_number_data(7, 100);
    assert_eq!(
        main(&update(&[7, 12], &five, &nine, 100)),
        Err(Error::TimeInfoDataLenError)
    );
    assert_eq!(
        main(&update(&[7, 12], &nine, &five, (1 << 62) + 100)),
        Err(Error::TimeInfoDataLenError)
    );
    assert_eq!(
        check_info_cells_data(&Ok(vec![7, 12]), &Ok(five), &Ok(nine), &Ok(100)),
        Err(Error::TimeInfoDataLenError)
    );
}

#[test]
fn update_rejects_an_output_of_no_form() {
    for len in (0..=12usize).filter(|len| *len != 5 && *len != 9) {
        let odd = vec![7; len];
        assert_eq!(
            main(&update(&[7, 12], &odd, &odd, 0)),
            Err(Error::TimeInfoDataLenError)
        );
        assert_eq!(
            main(&update(&[7, 12], &timestamp_data(6, 1), &odd, 0)),
            Err(Error::TimeInfoDataLenError)
        );
    }
}

#[test]
fn update_takes_the_index_of_the_index_state() {
    for index in 0..=255u8 {
        let tx = update(
            &[7, 12],
            &block_number_data(6, 10000),
            &block_number_data(index, 10003),
            10003,
        );
        let expected = if index == 7 {
            Ok(())
        } else {
            Err(Error::TimeInfoIndexNotSame)
        };
        assert_eq!(main(&tx), expected);
    }
}

#[test]
fn update_reads_the_index_state_for_its_length_and_index_only() {
    let input = timestamp_data(6, 10);
    let output = timestamp_data(200, 11);
    let since = (1 << 62) + 11;
    assert_eq!(main(&update(&[200, 0], &input, &output, since)), Ok(()));
    for index_state in [&[][..], &[200], &[200, 12, 0]] {
        assert_eq!(
            main(&update(index_state, &input, &output, since)),
            Err(Error::IndexStateDataLenError)
        );
    }
}

#[test]
fn timestamp_update_needs_a_later_timestamp_and_its_timelock() {
    let base: u64 = 1 << 62;
    let check = |input: u32, output: u32, since: u64| {
        main(&update(
            &[7, 12],
            &timestamp_data(6, input),
            &timestamp_data(7, output),
            since,
        ))
    };
    assert_eq!(check(100, 101, base + 101), Ok(()));
    assert_eq!(check(0, u32::MAX, base + u32::MAX as u64), Ok(()));
    assert_eq!(check(0, 1, base + 1), Ok(()));

    // a timestamp that does not rise, whatever the timelock
    assert_eq!(check(100, 100, base + 100), Err(Error::OutputTimestampNotBigger));
    assert_eq!(check(100, 99, base + 99), Err(Error::OutputTimestampNotBigger));
    assert_eq!(check(100, 99, 0), Err(Error::OutputTimestampNotBigger));
    assert_eq!(check(u32::MAX, 0, base), Err(Error::OutputTimestampNotBigger));
    // bytes are weighed by their place: 0x0100 is above 0x00ff
    assert_eq!(check(0x0100, 0x00ff, base + 0x00ff), Err(Error::OutputTimestampNotBigger));
    assert_eq!(check(0x00ff, 0x0100, base + 0x0100), Ok(()));

    // a timestamp that rises under another timelock
    assert_eq!(check(100, 101, 101), Err(Error::InvalidTimeInfoSince));
    assert_eq!(check(100, 101, base + 100), Err(Error::InvalidTimeInfoSince));
    assert_eq!(check(100, 101, base + 102), Err(Error::InvalidTimeInfoSince));
    assert_eq!(check(100, 101, base), Err(Error::InvalidTimeInfoSince));
    assert_eq!(check(100, 101, (1 << 63) + 101), Err(Error::InvalidTimeInfoSince));
    assert_eq!(check(100, 101, (1 << 63) + base + 101), Err(Error::InvalidTimeInfoSince));
    assert_eq!(check(100, 101, u64::MAX), Err(Error::InvalidTimeInfoSince));
}

#[test]
fn block_number_update_needs_a_higher_number_and_its_timelock() {
    let check = |input: u64, output: u64, since: u64| {
        main(&update(
            &[7, 12],
            &block_number_data(6, input),
            &block_number_data(7, output),
            since,
        ))
    };
    assert_eq!(check(10000, 10003, 10003), Ok(()));
    assert_eq!(check(0, 1, 1), Ok(()));
    assert_eq!(check(0, u64::MAX, u64::MAX), Ok(()));

    assert_eq!(check(10000, 10000, 10000), Err(Error::OutputBlockNumberNotBigger));
    assert_eq!(check(10000, 999, 999), Err(Error::OutputBlockNumberNotBigger));
    assert_eq!(check(u64::MAX, 0, 0), Err(Error::OutputBlockNumberNotBigger));
    assert_eq!(check(1 << 32, (1 << 32) - 1, (1 << 32) - 1), Err(Error::OutputBlockNumberNotBigger));

    assert_eq!(check(10000, 10004, 10030), Err(Error::InvalidTimeInfoSince));
    assert_eq!(check(10000, 10004, 10003), Err(Error::InvalidTimeInfoSince));
    assert_eq!(check(10000, 10004, (1 << 62) + 10004), Err(Error::InvalidTimeInfoSince));
    assert_eq!(check(10000, 10004, 0), Err(Error::InvalidTimeInfoSince));
}

#[test]
fn update_rules_are_judged_in_order() {
    let input = timestamp_data(6, 10);
    // the index state's length before the payloads' lengths
    assert_eq!(
        main(&update(&[7], &input, &[], 0)),
        Err(Error::IndexStateDataLenError)
    );
    // the payloads' lengths before the index
    assert_eq!(
        main(&update(&[7, 12], &input, &block_number_data(8, 0), 0)),
        Err(Error::TimeInfoDataLenError)
    );
    // the index before the value
    assert_eq!(
        main(&update(&[7, 12], &input, &timestamp_data(8, 5), 0)),
        Err(Error::TimeInfoIndexNotSame)
    );
    // the index before the timelock is read
    let mut tx = update(&[7, 12], &input, &timestamp_data(8, 5), 0);
    tx.group_input_since = Err(SysError);
    assert_eq!(main(&tx), Err(Error::TimeInfoIndexNotSame));
    // the value before the timelock's match
    assert_eq!(
        main(&update(&[7, 12], &input, &timestamp_data(7, 5), 0)),
        Err(Error::OutputTimestampNotBigger)
    );
}

#[test]
fn info_update_needs_the_same_type_on_both_sides() {
    let good = || update(&[7, 12], &timestamp_data(6, 10), &timestamp_data(7, 11), (1 << 62) + 11);
    assert_eq!(check_cells_type_scripts_valid(&good()), Ok(()));

    let mut tx = good();
    tx.group_output_type = Err(SysError);
    assert_eq!(main(&tx), Err(Error::TimeInfoTypeNotExist));

    let mut tx = good();
    tx.group_output_type = Ok(None);
    assert_eq!(main(&tx), Err(Error::TimeInfoTypeNotExist));

    let mut tx = good();
    tx.group_input_type = Err(SysError);
    assert_eq!(main(&tx), Err(Error::TimeInfoTypeNotExist));

    let mut tx = good();
    tx.group_input_type = Ok(None);
    assert_eq!(main(&tx), Err(Error::TimeInfoTypeNotExist));

    let mut tx = good();
    tx.group_input_type = Ok(Some(script(0x1f, &out_point(8))));
    assert_eq!(main(&tx), Err(Error::TimeInfoTypeNotExist));
    assert_eq!(
        check_cells_type_scripts_valid(&tx),
        Err(Error::TimeInfoTypeNotExist)
    );
}

#[test]
fn info_failed_listing_counts_only_before_the_answer_that_decides() {
    let good = || update(&[7, 12], &timestamp_data(6, 10), &timestamp_data(7, 11), (1 << 62) + 11);
    let mut tx = good();
    tx.input_types = vec![Err(SysError)];
    assert_eq!(main(&tx), Err(Error::Encoding));
    tx.input_types = vec![Ok(Some(script(0x1f, &[]))), Err(SysError)];
    assert_eq!(main(&tx), Ok(()));

    let mut tx = creation(&out_point(2), &timestamp_data(2, 1));
    tx.input_out_points = vec![Ok(out_point(1)), Err(SysError), Ok(out_point(2))];
    assert_eq!(main(&tx), Err(Error::Encoding));
    tx.input_out_points = vec![Ok(out_point(2)), Err(SysError)];
    assert_eq!(main(&tx), Ok(()));
    tx.input_out_points = vec![];
    assert_eq!(main(&tx), Err(Error::InvalidArgument));
}
