//! The decision of the index-state validator.
//!
//! An index-state cell holds two bytes: the index of the time-info cell that
//! is current, and the number of time-info cells. A transaction creates the
//! cell once, bound to an outpoint that it consumes, and from then on
//! replaces it, each time moving the index one step round the cycle.

use crate::index_state::error::Error;
use crate::transaction::{
    args_bound_to_input, bound_to_input, code_hash_in_inputs, code_runs_in_inputs,
    loaded_data_model, Script, SysError, TransactionModel, TransactionView,
};
use vstd::prelude::*;

verus! {

/// The number of time-info cells, and so the length of the cycle.
pub const SUM_OF_TIME_INFO_CELLS: u8 = 12;

/// The length of an index-state payload in bytes.
pub const INDEX_STATE_CELL_DATA_LEN: usize = 2;

/// A well-formed index-state payload: the index, below the count, and then
/// the count, which is fixed.
pub open spec fn is_index_state_data(data: Seq<u8>) -> bool {
    &&& data.len() == INDEX_STATE_CELL_DATA_LEN
    &&& data[0] < SUM_OF_TIME_INFO_CELLS
    &&& data[1] == SUM_OF_TIME_INFO_CELLS
}

/// The index that follows `index` in the cycle.
pub open spec fn next_index(index: int) -> int {
    (index + 1) % (SUM_OF_TIME_INFO_CELLS as int)
}

/// Whether the transaction creates the cell rather than updates one: the
/// running script is known and a scan of the inputs finds none that runs
/// its code.
pub open spec fn is_creation(tx: TransactionModel) -> bool {
    tx.script matches Ok(script) && code_runs_in_inputs(script.code_hash, tx.input_types) == Ok::<
        bool,
        SysError,
    >(false)
}

/// Whether the transaction updates a cell: the running script is known and
/// a scan of the inputs finds one that runs its code.
pub open spec fn is_update(tx: TransactionModel) -> bool {
    tx.script matches Ok(script) && code_runs_in_inputs(script.code_hash, tx.input_types) == Ok::<
        bool,
        SysError,
    >(true)
}

/// The answer on one payload: the payload itself where it is well formed,
/// else the first rule that it breaks, length before index before count.
pub open spec fn cell_data_verdict(loaded: Result<Seq<u8>, SysError>) -> Result<Seq<u8>, Error> {
    match loaded {
        Err(_) => Err(Error::Encoding),
        Ok(data) => {
            if data.len() != INDEX_STATE_CELL_DATA_LEN {
                Err(Error::IndexStateDataLenError)
            } else if data[0] >= SUM_OF_TIME_INFO_CELLS {
                Err(Error::TimeIndexOutOfBound)
            } else if data[1] != SUM_OF_TIME_INFO_CELLS {
                Err(Error::TimeInfoAmountError)
            } else {
                Ok(data)
            }
        },
    }
}

/// The answer on the payloads of an update: each must be well formed, the
/// input's first, and the output's index must follow the input's.
pub open spec fn cells_data_verdict(
    input: Result<Seq<u8>, SysError>,
    output: Result<Seq<u8>, SysError>,
) -> Result<(), Error> {
    match cell_data_verdict(input) {
        Err(e) => Err(e),
        Ok(input_data) => match cell_data_verdict(output) {
            Err(e) => Err(e),
            Ok(output_data) => {
                if output_data[0] == next_index(input_data[0] as int) {
                    Ok(())
                } else {
                    Err(Error::TimeIndexIncreaseError)
                }
            },
        },
    }
}

/// The answer on the type identities of an update: the group must have an
/// output and an input that carry one, and the two must be the same.
pub open spec fn type_scripts_verdict(tx: TransactionModel) -> Result<(), Error> {
    match (tx.group_output_type, tx.group_input_type) {
        (Ok(Some(output_type)), Ok(Some(input_type))) => {
            if input_type == output_type {
                Ok(())
            } else {
                Err(Error::TypeOfCellsNotSame)
            }
        },
        _ => Err(Error::IndexStateTypeNotExist),
    }
}

/// The answer on a transaction that creates the cell.
pub open spec fn creation_verdict(tx: TransactionModel) -> Result<(), Error> {
    match tx.group_output_type {
        Ok(Some(output_type)) => {
            match bound_to_input(output_type.args, tx.input_out_points) {
                Err(_) => Err(Error::Encoding),
                Ok(false) => Err(Error::InvalidArgument),
                Ok(true) => match cell_data_verdict(tx.group_output_data) {
                    Ok(_) => Ok(()),
                    Err(e) => Err(e),
                },
            }
        },
        _ => Err(Error::IndexStateTypeNotExist),
    }
}

/// The answer on a transaction that updates the cell.
pub open spec fn update_verdict(tx: TransactionModel) -> Result<(), Error> {
    match type_scripts_verdict(tx) {
        Err(e) => Err(e),
        Ok(_) => cells_data_verdict(tx.group_input_data, tx.group_output_data),
    }
}

/// The answer of the validator: acceptance, or the one rule that the
/// transaction breaks first.
pub open spec fn verdict(tx: TransactionModel) -> Result<(), Error> {
    match tx.script {
        Err(_) => Err(Error::Encoding),
        Ok(script) => match code_runs_in_inputs(script.code_hash, tx.input_types) {
            Err(_) => Err(Error::Encoding),
            Ok(true) => update_verdict(tx),
            Ok(false) => creation_verdict(tx),
        },
    }
}

/// Validates the transaction for the index-state cell of the group.
pub fn main(tx: &TransactionView) -> (result: Result<(), Error>)
    ensures
        result == verdict(tx@),
{
    let exists = match check_type_script_exists_in_inputs(tx) {
        Ok(exists) => exists,
        Err(e) => {
            return Err(e);
        },
    };
    if !exists {
        let output_type_script = match load_output_type_script(tx) {
            Ok(script) => script,
            Err(e) => {
                return Err(e);
            },
        };
        match args_bound_to_input(&output_type_script.args, &tx.input_out_points) {
            Ok(true) => {},
            Ok(false) => {
                return Err(Error::InvalidArgument);
            },
            Err(e) => {
                return Err(Error::from(e));
            },
        }
        match check_index_state_cell_data(&tx.group_output_data) {
            Ok(_) => Ok(()),
            Err(e) => Err(e),
        }
    } else {
        match check_cells_type_scripts_valid(tx) {
            Ok(_) => check_index_state_cells_data(&tx.group_input_data, &tx.group_output_data),
            Err(e) => Err(e),
        }
    }
}

/// Tells an update from a creation: whether some input of the transaction
/// runs the code of the running script. Where the host could not supply the
/// script, or an input's type before one was found, that is a host failure.
pub fn check_type_script_exists_in_inputs(tx: &TransactionView) -> (exists: Result<bool, Error>)
    ensures
        exists == Ok::<bool, Error>(true) <==> is_update(tx@),
        exists == Ok::<bool, Error>(false) <==> is_creation(tx@),
        exists is Err <==> exists == Err::<bool, Error>(Error::Encoding),
{
    match &tx.script {
        Ok(script) => match code_hash_in_inputs(script, &tx.input_types) {
            Ok(found) => Ok(found),
            Err(e) => Err(Error::from(e)),
        },
        Err(e) => Err(Error::from(*e)),
    }
}

/// The type identity of the group's output, which must be there.
pub fn load_output_type_script(tx: &TransactionView) -> (loaded: Result<&Script, Error>)
    ensures
        match loaded {
            Ok(script) => tx.group_output_type == Ok::<Option<Script>, SysError>(Some(*script)),
            Err(e) => e == Error::IndexStateTypeNotExist && !(tx.group_output_type matches Ok(
                Some(_),
            )),
        },
{
    match &tx.group_output_type {
        Ok(Some(output_type_script)) => Ok(output_type_script),
        Ok(None) => Err(Error::IndexStateTypeNotExist),
        Err(_) => Err(Error::IndexStateTypeNotExist),
    }
}

/// Checks one payload against the layout: two bytes, the index below the
/// count, the count as fixed. Gives the payload back where it passes.
pub fn check_index_state_cell_data(loaded: &Result<Vec<u8>, SysError>) -> (checked: Result<
    &Vec<u8>,
    Error,
>)
    ensures
        match checked {
            Ok(data) => *loaded == Ok::<Vec<u8>, SysError>(*data) && is_index_state_data(data@),
            Err(e) => cell_data_verdict(loaded_data_model(*loaded)) == Err::<Seq<u8>, Error>(e),
        },
        checked is Ok <==> cell_data_verdict(loaded_data_model(*loaded)) is Ok,
        checked is Ok <==> (*loaded matches Ok(data) && is_index_state_data(data@)),
{
    let data = match loaded {
        Ok(data) => data,
        Err(e) => {
            return Err(Error::from(*e));
        },
    };
    if data.len() != INDEX_STATE_CELL_DATA_LEN {
        return Err(Error::IndexStateDataLenError);
    }
    if data[0] >= SUM_OF_TIME_INFO_CELLS {
        return Err(Error::TimeIndexOutOfBound);
    }
    if data[1] != SUM_OF_TIME_INFO_CELLS {
        return Err(Error::TimeInfoAmountError);
    }
    Ok(data)
}

/// Checks the payloads of an update: both against the layout, and the
/// output's index against the input's. From the last index the cycle goes
/// back to zero; from any other it goes up by one.
pub fn check_index_state_cells_data(
    input: &Result<Vec<u8>, SysError>,
    output: &Result<Vec<u8>, SysError>,
) -> (result: Result<(), Error>)
    ensures
        result == cells_data_verdict(loaded_data_model(*input), loaded_data_model(*output)),
        result is Ok <==> (*input matches Ok(input_data) && *output matches Ok(output_data)
            && is_index_state_data(input_data@) && is_index_state_data(output_data@)
            && output_data@[0] == (input_data@[0] + 1) % 12),
{
    let input_data = match check_index_state_cell_data(input) {
        Ok(data) => data,
        Err(e) => {
            return Err(e);
        },
    };
    let output_data = match check_index_state_cell_data(output) {
        Ok(data) => data,
        Err(e) => {
            return Err(e);
        },
    };
    if input_data[0] == SUM_OF_TIME_INFO_CELLS - 1 {
        if output_data[0] != 0 {
            return Err(Error::TimeIndexIncreaseError);
        }
    } else if input_data[0] + 1 != output_data[0] {
        return Err(Error::TimeIndexIncreaseError);
    }
    Ok(())
}

/// Checks that the group has an output and an input that carry the same
/// type identity: an update replaces a cell by one of its own type. Where
/// one of the two is missing the type does not exist; where both are there
/// and differ the cells are not of the same type.
pub fn check_cells_type_scripts_valid(tx: &TransactionView) -> (result: Result<(), Error>)
    ensures
        result == type_scripts_verdict(tx@),
        result is Ok <==> (tx@.group_output_type matches Ok(Some(output_type))
            && tx@.group_input_type matches Ok(Some(input_type)) && input_type == output_type),
        result == Err::<(), Error>(Error::TypeOfCellsNotSame) <==> (
        tx@.group_output_type matches Ok(Some(output_type)) && tx@.group_input_type matches Ok(
            Some(input_type),
        ) && input_type != output_type),
{
    match load_output_type_script(tx) {
        Ok(output_type_script) => match &tx.group_input_type {
            Ok(Some(input_type_script)) => {
                if input_type_script == output_type_script {
                    Ok(())
                } else {
                    Err(Error::TypeOfCellsNotSame)
                }
            },
            Ok(None) => Err(Error::IndexStateTypeNotExist),
            Err(_) => Err(Error::IndexStateTypeNotExist),
        },
        Err(e) => Err(e),
    }
}

} // verus!
