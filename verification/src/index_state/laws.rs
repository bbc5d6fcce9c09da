//! What holds of every transaction that the index-state validator judges.

use crate::index_state::entry::{
    cells_data_verdict, is_creation, is_index_state_data, is_update, next_index, verdict,
};
use crate::index_state::error::Error;
use crate::transaction::{
    bound_to_input, code_runs_in_inputs, is_bound_to_input, lemma_bound_to_answered_inputs,
    SysError, TransactionModel,
};
use vstd::prelude::*;

verus! {

/// A transaction that creates the cell is accepted exactly when the
/// group's output carries the type identity, its `args` is the outpoint of
/// an input that the transaction consumes, and its payload is well formed.
/// Nothing else is asked of the first index: any index below the count
/// will do.
pub proof fn lemma_creation_accepted(tx: TransactionModel)
    requires
        is_creation(tx),
    ensures
        verdict(tx) is Ok <==> (tx.group_output_type matches Ok(Some(output_type))
            && tx.group_output_data matches Ok(data) && is_bound_to_input(
            output_type.args,
            tx.input_out_points,
        ) && data.len() == 2 && data[0] < 12 && data[1] == 12),
{
}

/// Where the host answered for the outpoint of every input, a creation
/// may be bound to any of them: it is accepted exactly when the group's
/// output carries the type identity, its `args` is the outpoint of some
/// input, and its payload passes.
pub proof fn lemma_creation_bound_to_any_input(tx: TransactionModel)
    requires
        is_creation(tx),
        forall|i: int|
            0 <= i < tx.input_out_points.len() ==> (#[trigger] tx.input_out_points[i]) is Ok,
    ensures
        verdict(tx) is Ok <==> (tx.group_output_type matches Ok(Some(output_type))
            && tx.group_output_data matches Ok(data) && (exists|i: int|
            0 <= i < tx.input_out_points.len() && #[trigger] tx.input_out_points[i] == Ok::<
                Seq<u8>,
                SysError,
            >(output_type.args)) && data.len() == 2 && data[0] < 12 && data[1] == 12),
{
    match tx.group_output_type {
        Ok(Some(output_type)) => {
            lemma_bound_to_answered_inputs(output_type.args, tx.input_out_points);
        },
        _ => {},
    }
}

/// A transaction whose output payload is malformed is rejected, whatever
/// its other fields hold: a length other than two, an index that is not
/// below twelve, or a count other than twelve.
pub proof fn lemma_malformed_output_rejected(tx: TransactionModel)
    requires
        tx.group_output_data matches Ok(data) && (data.len() != 2 || data[0] >= 12 || data[1]
            != 12),
    ensures
        verdict(tx) is Err,
{
}

/// Where a creation is rejected for its payload alone, the rejection
/// names the first rule that the payload breaks: its length, then its
/// index, then its count.
pub proof fn lemma_creation_rejections(tx: TransactionModel)
    requires
        is_creation(tx),
        tx.group_output_type matches Ok(Some(output_type)) && is_bound_to_input(
            output_type.args,
            tx.input_out_points,
        ),
        tx.group_output_data is Ok,
    ensures
        ({
            let data = tx.group_output_data->Ok_0;
            &&& verdict(tx) == Err::<(), Error>(Error::IndexStateDataLenError) <==> data.len() != 2
            &&& verdict(tx) == Err::<(), Error>(Error::TimeIndexOutOfBound) <==> data.len() == 2
                && data[0] >= 12
            &&& verdict(tx) == Err::<(), Error>(Error::TimeInfoAmountError) <==> data.len() == 2
                && data[0] < 12 && data[1] != 12
        }),
{
}

/// Between two well-formed payloads an update is accepted exactly when the
/// output's index is the input's plus one, modulo twelve. So the cycle
/// wraps from eleven to zero and from nowhere else, and an index that
/// stays, or that skips one, is rejected.
pub proof fn lemma_update_advances_by_one(input: Seq<u8>, output: Seq<u8>)
    requires
        is_index_state_data(input),
        is_index_state_data(output),
    ensures
        cells_data_verdict(Ok(input), Ok(output)) is Ok <==> output[0] == (input[0] + 1) % 12,
        cells_data_verdict(Ok(input), Ok(output)) is Ok <==> (if input[0] == 11 {
            output[0] == 0
        } else {
            output[0] == input[0] + 1
        }),
        cells_data_verdict(Ok(input), Ok(output)) is Err ==> cells_data_verdict(
            Ok(input),
            Ok(output),
        ) == Err::<(), Error>(Error::TimeIndexIncreaseError),
        output[0] == input[0] ==> cells_data_verdict(Ok(input), Ok(output)) is Err,
        output[0] == input[0] + 2 ==> cells_data_verdict(Ok(input), Ok(output)) is Err,
{
}

/// A transaction that updates the cell is accepted exactly when the group
/// has an input and an output that carry the same type identity, both payloads
/// are well formed, and the index advances by one step of the cycle.
pub proof fn lemma_update_accepted(tx: TransactionModel)
    requires
        is_update(tx),
    ensures
        verdict(tx) is Ok <==> (tx.group_output_type matches Ok(Some(output_type))
            && tx.group_input_type matches Ok(Some(input_type))
            && tx.group_input_data matches Ok(input) && tx.group_output_data matches Ok(output)
            && input_type == output_type && is_index_state_data(input) && is_index_state_data(
            output,
        ) && output[0] == next_index(input[0] as int)),
{
}

/// An update whose output carries another type identity than its input is
/// rejected as such, whatever the payloads hold; one whose group lacks the
/// output or the input is rejected because the type does not exist.
pub proof fn lemma_update_keeps_type(tx: TransactionModel)
    requires
        is_update(tx),
    ensures
        tx.group_output_type matches Ok(Some(output_type)) && tx.group_input_type matches Ok(
            Some(input_type),
        ) && input_type != output_type ==> verdict(tx) == Err::<(), Error>(
            Error::TypeOfCellsNotSame,
        ),
        !(tx.group_output_type matches Ok(Some(_))) || !(tx.group_input_type matches Ok(Some(_)))
            ==> verdict(tx) == Err::<(), Error>(Error::IndexStateTypeNotExist),
        verdict(tx) == Err::<(), Error>(Error::TypeOfCellsNotSame) ==> tx.group_output_type is Ok
            && tx.group_input_type is Ok,
{
}

/// The validator reads neither the timelock of the consumed cell nor the
/// payload of the transaction's first output: two transactions that differ
/// in those answers alone get the same verdict.
pub proof fn lemma_reads_no_info_answers(tx: TransactionModel, other: TransactionModel)
    requires
        other == (TransactionModel {
            group_input_since: other.group_input_since,
            first_output_data: other.first_output_data,
            ..tx
        }),
    ensures
        verdict(other) == verdict(tx),
{
}

/// A transaction whose running script the host could not supply, or an
/// input's type before the scan had found the script's code, is rejected as
/// a host failure; any other is a creation or an update, never both.
pub proof fn lemma_modes(tx: TransactionModel)
    ensures
        tx.script is Err ==> verdict(tx) == Err::<(), Error>(Error::Encoding),
        tx.script matches Ok(script) && code_runs_in_inputs(script.code_hash, tx.input_types)
            is Err ==> verdict(tx) == Err::<(), Error>(Error::Encoding),
        tx.script matches Ok(script) && code_runs_in_inputs(script.code_hash, tx.input_types)
            is Ok ==> (is_creation(tx) <==> !is_update(tx)),
        !(is_creation(tx) && is_update(tx)),
{
}

/// A creation whose output carries the type identity is rejected as a host
/// failure where an input's outpoint failed to come before the scan had
/// found `args`, and for its argument where the scan ends without finding
/// it.
pub proof fn lemma_creation_binding(tx: TransactionModel)
    requires
        is_creation(tx),
        tx.group_output_type matches Ok(Some(_)),
    ensures
        ({
            let args = tx.group_output_type->Ok_0->Some_0.args;
            &&& bound_to_input(args, tx.input_out_points) is Err ==> verdict(tx) == Err::<
                (),
                Error,
            >(Error::Encoding)
            &&& bound_to_input(args, tx.input_out_points) == Ok::<bool, SysError>(false)
                ==> verdict(tx) == Err::<(), Error>(Error::InvalidArgument)
        }),
{
}

} // verus!
