//! The decision of the info validator.
//!
//! A time-info cell holds an index byte and a value: a timestamp in seconds,
//! four bytes, or a block number, eight bytes, big-endian either way. A
//! transaction creates the cell once, bound to an outpoint that it consumes,
//! and from then on replaces it. Each replacement takes the index from the
//! index-state cell that the transaction puts out first, raises the value,
//! and is locked until the ledger has reached that value.

use crate::info::error::Error;
use crate::transaction::{
    args_bound_to_input, bound_to_input, code_hash_in_inputs, code_runs_in_inputs,
    loaded_data_model, Script, SysError, TransactionModel, TransactionView,
};
use vstd::prelude::*;

verus! {

/// The length of a payload that holds a timestamp.
pub const TIMESTAMP_DATA_LEN: usize = 5;

/// The length of a payload that holds a block number.
pub const BLOCK_NUMBER_DATA_LEN: usize = 9;

/// The length of an index-state payload.
pub const INDEX_STATE_CELL_DATA_LEN: usize = 2;

/// The timelock flag of an absolute timestamp: bit 62. A timelock with the
/// flag clear is an absolute block number.
pub const SINCE_TIMESTAMP_BASE: u64 = 0x4000_0000_0000_0000;

/// A payload of the timestamp form.
pub open spec fn is_timestamp_data(data: Seq<u8>) -> bool {
    data.len() == TIMESTAMP_DATA_LEN
}

/// A payload of the block-number form.
pub open spec fn is_block_number_data(data: Seq<u8>) -> bool {
    data.len() == BLOCK_NUMBER_DATA_LEN
}

/// A payload of either form.
pub open spec fn is_info_data(data: Seq<u8>) -> bool {
    is_timestamp_data(data) || is_block_number_data(data)
}

/// The timestamp that a payload of the timestamp form holds: the four
/// bytes after the index, most significant first.
pub open spec fn timestamp_of(data: Seq<u8>) -> int {
    data[1] * 0x100_0000 + data[2] * 0x1_0000 + data[3] * 0x100 + data[4]
}

/// The block number that a payload of the block-number form holds: the
/// eight bytes after the index, most significant first.
pub open spec fn block_number_of(data: Seq<u8>) -> int {
    data[1] * 0x100_0000_0000_0000 + data[2] * 0x1_0000_0000_0000 + data[3] * 0x100_0000_0000
        + data[4] * 0x1_0000_0000 + data[5] * 0x100_0000 + data[6] * 0x1_0000 + data[7] * 0x100
        + data[8]
}

/// The timelock that admits a cell of the timestamp form with this value.
pub open spec fn timestamp_since(timestamp: int) -> int {
    SINCE_TIMESTAMP_BASE + timestamp
}

/// Whether the transaction creates the cell rather than updates one: the
/// running script is known and a scan of the inputs finds none that runs
/// its code.
pub open spec fn is_creation(tx: TransactionModel) -> bool {
    tx.script matches Ok(script) && code_runs_in_inputs(script.code_hash, tx.input_types) == Ok::<
        bool,
        SysError,
    >(false)
}

/// Whether the transaction updates a cell: the running script is known and
/// a scan of the inputs finds one that runs its code.
pub open spec fn is_update(tx: TransactionModel) -> bool {
    tx.script matches Ok(script) && code_runs_in_inputs(script.code_hash, tx.input_types) == Ok::<
        bool,
        SysError,
    >(true)
}

/// A legal step of the cell, given the index-state payload that the
/// transaction puts out first and the timelock of the consumed cell: the
/// form stays, the index is that of the index state, the value rises, and
/// the timelock encodes the new value exactly.
pub open spec fn is_legal_update(
    index_state_data: Seq<u8>,
    input: Seq<u8>,
    output: Seq<u8>,
    since: u64,
) -> bool {
    &&& index_state_data.len() == INDEX_STATE_CELL_DATA_LEN
    &&& output[0] == index_state_data[0]
    &&& {
        ||| {
            &&& is_timestamp_data(input)
            &&& is_timestamp_data(output)
            &&& timestamp_of(output) > timestamp_of(input)
            &&& since == timestamp_since(timestamp_of(output))
        }
        ||| {
            &&& is_block_number_data(input)
            &&& is_block_number_data(output)
            &&& block_number_of(output) > block_number_of(input)
            &&& since == block_number_of(output)
        }
    }
}

/// The answer on the payload of a created cell.
pub open spec fn cell_data_verdict(loaded: Result<Seq<u8>, SysError>) -> Result<(), Error> {
    match loaded {
        Err(_) => Err(Error::Encoding),
        Ok(data) => {
            if is_info_data(data) {
                Ok(())
            } else {
                Err(Error::TimeInfoDataLenError)
            }
        },
    }
}

/// The answer on the value of an update whose payloads have the same form
/// and the right index: the value must rise, and the timelock must encode
/// the new value.
pub open spec fn value_verdict(input: Seq<u8>, output: Seq<u8>, since: u64) -> Result<(), Error> {
    if is_timestamp_data(output) {
        if timestamp_of(input) >= timestamp_of(output) {
            Err(Error::OutputTimestampNotBigger)
        } else if since != timestamp_since(timestamp_of(output)) {
            Err(Error::InvalidTimeInfoSince)
        } else {
            Ok(())
        }
    } else {
        if block_number_of(input) >= block_number_of(output) {
            Err(Error::OutputBlockNumberNotBigger)
        } else if since != block_number_of(output) {
            Err(Error::InvalidTimeInfoSince)
        } else {
            Ok(())
        }
    }
}

/// The answer on the payloads of an update, rule by rule in the order in
/// which the validator reads what each rule needs: the index state, the
/// two payloads and their lengths, the index, the timelock, the value.
pub open spec fn cells_data_verdict(
    index_state_data: Result<Seq<u8>, SysError>,
    input_info_data: Result<Seq<u8>, SysError>,
    output_info_data: Result<Seq<u8>, SysError>,
    since: Result<u64, SysError>,
) -> Result<(), Error> {
    match (index_state_data, input_info_data, output_info_data, since) {
        (Err(_), _, _, _) => Err(Error::Encoding),
        (Ok(index_state), _, _, _) if index_state.len() != INDEX_STATE_CELL_DATA_LEN => Err(
            Error::IndexStateDataLenError,
        ),
        (Ok(_), Err(_), _, _) => Err(Error::Encoding),
        (Ok(_), Ok(_), Err(_), _) => Err(Error::Encoding),
        (Ok(index_state), Ok(input), Ok(output), _) if !is_info_data(output) || output.len()
            != input.len() => Err(Error::TimeInfoDataLenError),
        (Ok(index_state), Ok(input), Ok(output), _) if output[0] != index_state[0] => Err(
            Error::TimeInfoIndexNotSame,
        ),
        (Ok(_), Ok(_), Ok(_), Err(_)) => Err(Error::Encoding),
        (Ok(_), Ok(input), Ok(output), Ok(since_value)) => value_verdict(
            input,
            output,
            since_value,
        ),
    }
}

/// The answer on the type identities of an update: the group must have an
/// output and an input that carry one, and the two must be the same.
pub open spec fn type_scripts_verdict(tx: TransactionModel) -> Result<(), Error> {
    if tx.group_output_type matches Ok(Some(output_type)) && tx.group_input_type matches Ok(
        Some(input_type),
    ) && input_type == output_type {
        Ok(())
    } else {
        Err(Error::TimeInfoTypeNotExist)
    }
}

/// The answer on a transaction that creates the cell.
pub open spec fn creation_verdict(tx: TransactionModel) -> Result<(), Error> {
    match tx.group_output_type {
        Ok(Some(output_type)) => {
            match bound_to_input(output_type.args, tx.input_out_points) {
                Err(_) => Err(Error::Encoding),
                Ok(false) => Err(Error::InvalidArgument),
                Ok(true) => cell_data_verdict(tx.group_output_data),
            }
        },
        _ => Err(Error::TimeInfoTypeNotExist),
    }
}

/// The answer on a transaction that updates the cell.
pub open spec fn update_verdict(tx: TransactionModel) -> Result<(), Error> {
    match type_scripts_verdict(tx) {
        Err(e) => Err(e),
        Ok(_) => cells_data_verdict(
            tx.first_output_data,
            tx.group_input_data,
            tx.group_output_data,
            tx.group_input_since,
        ),
    }
}

/// The answer of the validator: acceptance, or the one rule that the
/// transaction breaks first.
pub open spec fn verdict(tx: TransactionModel) -> Result<(), Error> {
    match tx.script {
        Err(_) => Err(Error::Encoding),
        Ok(script) => match code_runs_in_inputs(script.code_hash, tx.input_types) {
            Err(_) => Err(Error::Encoding),
            Ok(true) => update_verdict(tx),
            Ok(false) => creation_verdict(tx),
        },
    }
}

/// Validates the transaction for the time-info cell of the group.
pub fn main(tx: &TransactionView) -> (result: Result<(), Error>)
    ensures
        result == verdict(tx@),
{
    let exists = match check_type_script_exists_in_inputs(tx) {
        Ok(exists) => exists,
        Err(e) => {
            return Err(e);
        },
    };
    if !exists {
        let output_type_script = match load_output_type_script(tx) {
            Ok(script) => script,
            Err(e) => {
                return Err(e);
            },
        };
        match args_bound_to_input(&output_type_script.args, &tx.input_out_points) {
            Ok(true) => {},
            Ok(false) => {
                return Err(Error::InvalidArgument);
            },
            Err(e) => {
                return Err(Error::from(e));
            },
        }
        check_info_cell_data(&tx.group_output_data)
    } else {
        match check_cells_type_scripts_valid(tx) {
            Ok(_) => check_info_cells_data(
                &tx.first_output_data,
                &tx.group_input_data,
                &tx.group_output_data,
                &tx.group_input_since,
            ),
            Err(e) => Err(e),
        }
    }
}

/// Tells an update from a creation: whether some input of the transaction
/// runs the code of the running script. Where the host could not supply the
/// script, or an input's type before one was found, that is a host failure.
pub fn check_type_script_exists_in_inputs(tx: &TransactionView) -> (exists: Result<bool, Error>)
    ensures
        exists == Ok::<bool, Error>(true) <==> is_update(tx@),
        exists == Ok::<bool, Error>(false) <==> is_creation(tx@),
        exists is Err <==> exists == Err::<bool, Error>(Error::Encoding),
{
    match &tx.script {
        Ok(script) => match code_hash_in_inputs(script, &tx.input_types) {
            Ok(found) => Ok(found),
            Err(e) => Err(Error::from(e)),
        },
        Err(e) => Err(Error::from(*e)),
    }
}

/// The type identity of the group's output, which must be there.
pub fn load_output_type_script(tx: &TransactionView) -> (loaded: Result<&Script, Error>)
    ensures
        match loaded {
            Ok(script) => tx.group_output_type == Ok::<Option<Script>, SysError>(Some(*script)),
            Err(e) => e == Error::TimeInfoTypeNotExist && !(tx.group_output_type matches Ok(
                Some(_),
            )),
        },
{
    match &tx.group_output_type {
        Ok(Some(output_type_script)) => Ok(output_type_script),
        Ok(None) => Err(Error::TimeInfoTypeNotExist),
        Err(_) => Err(Error::TimeInfoTypeNotExist),
    }
}

/// Checks the payload of a created cell: it must have one of the two
/// forms.
pub fn check_info_cell_data(loaded: &Result<Vec<u8>, SysError>) -> (result: Result<(), Error>)
    ensures
        result == cell_data_verdict(loaded_data_model(*loaded)),
        result is Ok <==> (*loaded matches Ok(data) && (data@.len() == 5 || data@.len() == 9)),
{
    let info_data = match loaded {
        Ok(data) => data,
        Err(e) => {
            return Err(Error::from(*e));
        },
    };
    if is_info_data_len_invalid(info_data) {
        return Err(Error::TimeInfoDataLenError);
    }
    Ok(())
}

/// Checks that the group has an output and an input that carry the same
/// type identity: an update replaces a cell by one of its own type.
pub fn check_cells_type_scripts_valid(tx: &TransactionView) -> (result: Result<(), Error>)
    ensures
        result == type_scripts_verdict(tx@),
{
    match load_output_type_script(tx) {
        Ok(output_type_script) => match &tx.group_input_type {
            Ok(Some(input_type_script)) => {
                if input_type_script == output_type_script {
                    Ok(())
                } else {
                    Err(Error::TimeInfoTypeNotExist)
                }
            },
            Ok(None) => Err(Error::TimeInfoTypeNotExist),
            Err(_) => Err(Error::TimeInfoTypeNotExist),
        },
        Err(e) => Err(e),
    }
}

/// Checks the payloads of an update against the index-state payload that
/// the transaction puts out first and the timelock of the consumed cell.
pub fn check_info_cells_data(
    index_state_data: &Result<Vec<u8>, SysError>,
    input_info_data: &Result<Vec<u8>, SysError>,
    output_info_data: &Result<Vec<u8>, SysError>,
    since: &Result<u64, SysError>,
) -> (result: Result<(), Error>)
    ensures
        result == cells_data_verdict(
            loaded_data_model(*index_state_data),
            loaded_data_model(*input_info_data),
            loaded_data_model(*output_info_data),
            *since,
        ),
        result is Ok <==> (*index_state_data matches Ok(index_state) && *input_info_data matches Ok(
            input,
        ) && *output_info_data matches Ok(output) && *since matches Ok(since_value)
            && is_legal_update(index_state@, input@, output@, since_value)),
{
    let index_state_data = match index_state_data {
        Ok(data) => data,
        Err(e) => {
            return Err(Error::from(*e));
        },
    };
    if index_state_data.len() != INDEX_STATE_CELL_DATA_LEN {
        return Err(Error::IndexStateDataLenError);
    }
    let input_info_data = match input_info_data {
        Ok(data) => data,
        Err(e) => {
            return Err(Error::from(*e));
        },
    };
    let output_info_data = match output_info_data {
        Ok(data) => data,
        Err(e) => {
            return Err(Error::from(*e));
        },
    };

    if is_info_data_len_invalid(output_info_data) {
        return Err(Error::TimeInfoDataLenError);
    }
    if output_info_data.len() != input_info_data.len() {
        return Err(Error::TimeInfoDataLenError);
    }
    if output_info_data[0] != index_state_data[0] {
        return Err(Error::TimeInfoIndexNotSame);
    }
    let since = match since {
        Ok(since) => *since,
        Err(e) => {
            return Err(Error::from(*e));
        },
    };

    if output_info_data.len() == TIMESTAMP_DATA_LEN {
        let input_timestamp = timestamp_from_info_data(input_info_data);
        let output_timestamp = timestamp_from_info_data(output_info_data);

        if input_timestamp >= output_timestamp {
            return Err(Error::OutputTimestampNotBigger);
        }
        if SINCE_TIMESTAMP_BASE + output_timestamp as u64 != since {
            return Err(Error::InvalidTimeInfoSince);
        }
    } else if output_info_data.len() == BLOCK_NUMBER_DATA_LEN {
        let input_block_number = block_number_from_info_data(input_info_data);
        let output_block_number = block_number_from_info_data(output_info_data);

        if input_block_number >= output_block_number {
            return Err(Error::OutputBlockNumberNotBigger);
        }
        if output_block_number != since {
            return Err(Error::InvalidTimeInfoSince);
        }
    }
    Ok(())
}

/// Reads the timestamp of a payload of the timestamp form.
pub fn timestamp_from_info_data(info_data: &Vec<u8>) -> (timestamp: u32)
    requires
        info_data@.len() == TIMESTAMP_DATA_LEN,
    ensures
        timestamp == timestamp_of(info_data@),
{
    (info_data[1] as u32) * 0x100_0000 + (info_data[2] as u32) * 0x1_0000 + (info_data[3] as u32)
        * 0x100 + (info_data[4] as u32)
}

/// Reads the block number of a payload of the block-number form.
pub fn block_number_from_info_data(info_data: &Vec<u8>) -> (block_number: u64)
    requires
        info_data@.len() == BLOCK_NUMBER_DATA_LEN,
    ensures
        block_number == block_number_of(info_data@),
{
    (info_data[1] as u64) * 0x100_0000_0000_0000 + (info_data[2] as u64) * 0x1_0000_0000_0000 + (
    info_data[3] as u64) * 0x100_0000_0000 + (info_data[4] as u64) * 0x1_0000_0000 + (
    info_data[5] as u64) * 0x100_0000 + (info_data[6] as u64) * 0x1_0000 + (info_data[7] as u64)
        * 0x100 + (info_data[8] as u64)
}

/// Whether a payload has neither the timestamp form nor the block-number
/// form.
pub fn is_info_data_len_invalid(info_data: &Vec<u8>) -> (invalid: bool)
    ensures
        invalid == !is_info_data(info_data@),
        invalid == (info_data@.len() != 5 && info_data@.len() != 9),
{
    info_data.len() != TIMESTAMP_DATA_LEN && info_data.len() != BLOCK_NUMBER_DATA_LEN
}

} // verus!
