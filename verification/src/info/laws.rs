//! What holds of every transaction that the info validator judges.

use crate::index_state;
use crate::info::entry::{
    block_number_of, cell_data_verdict, cells_data_verdict, is_block_number_data, is_creation,
    is_info_data, is_legal_update, is_timestamp_data, is_update, timestamp_of, verdict,
};
use crate::info::error::Error;
use crate::transaction::{
    bound_to_input, code_runs_in_inputs, is_bound_to_input, lemma_bound_to_answered_inputs,
    SysError, TransactionModel,
};
use vstd::prelude::*;

verus! {

/// A payload is accepted at creation exactly when it is five or nine bytes
/// long. Both lengths pass, and every other length, zero among them, is
/// rejected for its length.
pub proof fn lemma_creation_lengths(data: Seq<u8>)
    ensures
        cell_data_verdict(Ok(data)) is Ok <==> data.len() == 5 || data.len() == 9,
        data.len() == 5 ==> cell_data_verdict(Ok(data)) is Ok,
        data.len() == 9 ==> cell_data_verdict(Ok(data)) is Ok,
        data.len() != 5 && data.len() != 9 ==> cell_data_verdict(Ok(data)) == Err::<(), Error>(
            Error::TimeInfoDataLenError,
        ),
{
}

/// A transaction that creates the cell is accepted exactly when the
/// group's output carries the type identity, its `args` is the outpoint of
/// an input that the transaction consumes, and its payload is five or nine
/// bytes long.
pub proof fn lemma_creation_accepted(tx: TransactionModel)
    requires
        is_creation(tx),
    ensures
        verdict(tx) is Ok <==> (tx.group_output_type matches Ok(Some(output_type))
            && tx.group_output_data matches Ok(data) && is_bound_to_input(
            output_type.args,
            tx.input_out_points,
        ) && (data.len() == 5 || data.len() == 9)),
{
}

/// Where the host answered for the outpoint of every input, a creation
/// may be bound to any of them: it is accepted exactly when the group's
/// output carries the type identity, its `args` is the outpoint of some
/// input, and its payload passes.
pub proof fn lemma_creation_bound_to_any_input(tx: TransactionModel)
    requires
        is_creation(tx),
        forall|i: int|
            0 <= i < tx.input_out_points.len() ==> (#[trigger] tx.input_out_points[i]) is Ok,
    ensures
        verdict(tx) is Ok <==> (tx.group_output_type matches Ok(Some(output_type))
            && tx.group_output_data matches Ok(data) && (exists|i: int|
            0 <= i < tx.input_out_points.len() && #[trigger] tx.input_out_points[i] == Ok::<
                Seq<u8>,
                SysError,
            >(output_type.args)) && (data.len() == 5 || data.len() == 9)),
{
    match tx.group_output_type {
        Ok(Some(output_type)) => {
            lemma_bound_to_answered_inputs(output_type.args, tx.input_out_points);
        },
        _ => {},
    }
}

/// An update cannot change the form of the cell: where the output's length
/// differs from the input's it is rejected, also where each length alone
/// would pass.
pub proof fn lemma_update_keeps_form(
    index_state_data: Result<Seq<u8>, SysError>,
    input: Seq<u8>,
    output: Seq<u8>,
    since: Result<u64, SysError>,
)
    requires
        output.len() != input.len(),
    ensures
        cells_data_verdict(index_state_data, Ok(input), Ok(output), since) is Err,
        index_state_data matches Ok(index_state) && index_state.len() == 2 ==> cells_data_verdict(
            index_state_data,
            Ok(input),
            Ok(output),
            since,
        ) == Err::<(), Error>(Error::TimeInfoDataLenError),
{
}

/// An update must carry the index of the index-state payload that the
/// transaction puts out first: with any other index byte it is rejected.
pub proof fn lemma_update_takes_index(
    index_state: Seq<u8>,
    input: Result<Seq<u8>, SysError>,
    output: Seq<u8>,
    since: Result<u64, SysError>,
)
    requires
        output[0] != index_state[0],
    ensures
        cells_data_verdict(Ok(index_state), input, Ok(output), since) is Err,
        input matches Ok(input_data) && index_state.len() == 2 && is_info_data(output)
            && output.len() == input_data.len() ==> cells_data_verdict(
            Ok(index_state),
            input,
            Ok(output),
            since,
        ) == Err::<(), Error>(Error::TimeInfoIndexNotSame),
{
}

/// An update of a cell of the timestamp form, with the right index, is
/// accepted exactly when the timestamp rises and the timelock is the
/// timestamp flag plus the new timestamp. A timestamp that does not rise
/// is rejected as such; one that rises under any other timelock is
/// rejected for the timelock.
pub proof fn lemma_timestamp_update(
    index_state: Seq<u8>,
    input: Seq<u8>,
    output: Seq<u8>,
    since: u64,
)
    requires
        index_state.len() == 2,
        is_timestamp_data(input),
        is_timestamp_data(output),
        output[0] == index_state[0],
    ensures
        cells_data_verdict(Ok(index_state), Ok(input), Ok(output), Ok(since)) is Ok <==> (
        timestamp_of(output) > timestamp_of(input) && since == 0x4000_0000_0000_0000
            + timestamp_of(output)),
        timestamp_of(output) <= timestamp_of(input) ==> cells_data_verdict(
            Ok(index_state),
            Ok(input),
            Ok(output),
            Ok(since),
        ) == Err::<(), Error>(Error::OutputTimestampNotBigger),
        timestamp_of(output) > timestamp_of(input) && since != 0x4000_0000_0000_0000
            + timestamp_of(output) ==> cells_data_verdict(
            Ok(index_state),
            Ok(input),
            Ok(output),
            Ok(since),
        ) == Err::<(), Error>(Error::InvalidTimeInfoSince),
{
}

/// An update of a cell of the block-number form, with the right index, is
/// accepted exactly when the block number rises and the timelock is the
/// new block number itself. A block number that does not rise is rejected
/// as such; one that rises under any other timelock is rejected for the
/// timelock.
pub proof fn lemma_block_number_update(
    index_state: Seq<u8>,
    input: Seq<u8>,
    output: Seq<u8>,
    since: u64,
)
    requires
        index_state.len() == 2,
        is_block_number_data(input),
        is_block_number_data(output),
        output[0] == index_state[0],
    ensures
        cells_data_verdict(Ok(index_state), Ok(input), Ok(output), Ok(since)) is Ok <==> (
        block_number_of(output) > block_number_of(input) && since == block_number_of(output)),
        block_number_of(output) <= block_number_of(input) ==> cells_data_verdict(
            Ok(index_state),
            Ok(input),
            Ok(output),
            Ok(since),
        ) == Err::<(), Error>(Error::OutputBlockNumberNotBigger),
        block_number_of(output) > block_number_of(input) && since != block_number_of(output)
            ==> cells_data_verdict(Ok(index_state), Ok(input), Ok(output), Ok(since)) == Err::<
            (),
            Error,
        >(Error::InvalidTimeInfoSince),
{
}

/// The payloads of an update pass exactly when the step is legal.
pub proof fn lemma_update_data_accepted(
    index_state: Seq<u8>,
    input: Seq<u8>,
    output: Seq<u8>,
    since: u64,
)
    ensures
        cells_data_verdict(Ok(index_state), Ok(input), Ok(output), Ok(since)) is Ok
            <==> is_legal_update(index_state, input, output, since),
{
}

/// A transaction that updates the cell is accepted exactly when the group
/// has an input and an output that carry the same type identity, the host
/// supplied the payloads and the timelock, and the step is legal.
pub proof fn lemma_update_accepted(tx: TransactionModel)
    requires
        is_update(tx),
    ensures
        verdict(tx) is Ok <==> (tx.group_output_type matches Ok(Some(output_type))
            && tx.group_input_type matches Ok(Some(input_type))
            && tx.first_output_data matches Ok(index_state) && tx.group_input_data matches Ok(
            input,
        ) && tx.group_output_data matches Ok(output) && tx.group_input_since matches Ok(since)
            && input_type == output_type && is_legal_update(
            index_state,
            input,
            output,
            since,
        )),
{
}

/// An update whose group lacks the output or the input, or whose output
/// carries another type identity than its input, is rejected because the
/// type does not exist, whatever the payloads hold.
pub proof fn lemma_update_keeps_type(tx: TransactionModel)
    requires
        is_update(tx),
    ensures
        tx.group_output_type matches Ok(Some(output_type)) && tx.group_input_type matches Ok(
            Some(input_type),
        ) && input_type != output_type ==> verdict(tx) == Err::<(), Error>(
            Error::TimeInfoTypeNotExist,
        ),
        !(tx.group_output_type matches Ok(Some(_))) || !(tx.group_input_type matches Ok(Some(_)))
            ==> verdict(tx) == Err::<(), Error>(Error::TimeInfoTypeNotExist),
{
}

/// A transaction whose running script the host could not supply, or an
/// input's type before the scan had found the script's code, is rejected as
/// a host failure; any other is a creation or an update, never both.
pub proof fn lemma_modes(tx: TransactionModel)
    ensures
        tx.script is Err ==> verdict(tx) == Err::<(), Error>(Error::Encoding),
        tx.script matches Ok(script) && code_runs_in_inputs(script.code_hash, tx.input_types)
            is Err ==> verdict(tx) == Err::<(), Error>(Error::Encoding),
        tx.script matches Ok(script) && code_runs_in_inputs(script.code_hash, tx.input_types)
            is Ok ==> (is_creation(tx) <==> !is_update(tx)),
        !(is_creation(tx) && is_update(tx)),
{
}

/// A creation whose output carries the type identity is rejected as a host
/// failure where an input's outpoint failed to come before the scan had
/// found `args`, and for its argument where the scan ends without finding
/// it.
pub proof fn lemma_creation_binding(tx: TransactionModel)
    requires
        is_creation(tx),
        tx.group_output_type matches Ok(Some(_)),
    ensures
        ({
            let args = tx.group_output_type->Ok_0->Some_0.args;
            &&& bound_to_input(args, tx.input_out_points) is Err ==> verdict(tx) == Err::<
                (),
                Error,
            >(Error::Encoding)
            &&& bound_to_input(args, tx.input_out_points) == Ok::<bool, SysError>(false)
                ==> verdict(tx) == Err::<(), Error>(Error::InvalidArgument)
        }),
{
}

/// The two validators keep step. Take one transaction that updates both
/// cells and whose first output is the index-state cell, seen once from
/// the index-state group and once from the info group. Where both
/// validators accept it, the new info cell carries the index that follows
/// the old index state's in the cycle, and that index is below twelve.
pub proof fn lemma_lock_step(index_state_tx: TransactionModel, info_tx: TransactionModel)
    requires
        index_state::entry::is_update(index_state_tx),
        is_update(info_tx),
        info_tx.first_output_data == index_state_tx.group_output_data,
        index_state::entry::verdict(index_state_tx) is Ok,
        verdict(info_tx) is Ok,
    ensures
        index_state_tx.group_input_data matches Ok(old_index_state)
            && info_tx.group_output_data matches Ok(new_info) && new_info[0] < 12 && new_info[0]
            == (old_index_state[0] + 1) % 12,
{
}

} // verus!
