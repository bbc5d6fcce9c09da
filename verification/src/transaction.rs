//! The transaction as the host shows it to one script group.
//!
//! A validator never reaches into the ledger. It is handed the answers that
//! the host gave to a fixed set of read-only queries about the transaction
//! under validation, and decides on those alone.

use vstd::prelude::*;
use vstd::std_specs::cmp::PartialEqSpecImpl;

verus! {

/// Marks a query that the host could not answer.
#[derive(Clone, Copy, Debug, PartialEq, Eq, Structural)]
pub struct SysError;

/// The type identity of a cell: the hash of the validator's code, how that
/// hash is to be read, and the arguments bound to the cell at creation.
#[derive(Clone, Debug, Eq)]
pub struct Script {
    pub code_hash: Vec<u8>,
    pub hash_type: u8,
    pub args: Vec<u8>,
}

/// A [`Script`] as plain values.
pub struct ScriptModel {
    pub code_hash: Seq<u8>,
    pub hash_type: u8,
    pub args: Seq<u8>,
}

impl View for Script {
    type V = ScriptModel;

    open spec fn view(&self) -> ScriptModel {
        ScriptModel { code_hash: self.code_hash@, hash_type: self.hash_type, args: self.args@ }
    }
}

impl PartialEq for Script {
    /// Two type identities are the same where all three parts are.
    fn eq(&self, other: &Script) -> (same: bool) {
        bytes_equal(&self.code_hash, &other.code_hash) && self.hash_type == other.hash_type
            && bytes_equal(&self.args, &other.args)
    }
}

impl PartialEqSpecImpl for Script {
    open spec fn obeys_eq_spec() -> bool {
        true
    }

    open spec fn eq_spec(&self, other: &Script) -> bool {
        self@ == other@
    }
}

/// The host's answers to the queries that the validators make.
///
/// "Group" is the set of cells of the transaction that carry the type
/// identity under validation; the host resolves it. A query that names a
/// position is asked for the first cell of its zone. A list holds one
/// answer for each input, in order, and ends with the last input or with
/// the first answer that failed. A validator reads a list from the front
/// and no further than it needs, so what lies behind the answer that
/// decides does not count.
#[derive(Debug)]
pub struct TransactionView {
    /// The script that is running: the type identity under validation.
    pub script: Result<Script, SysError>,
    /// The type identity of each input of the transaction, in order;
    /// `None` for an input that has none.
    pub input_types: Vec<Result<Option<Script>, SysError>>,
    /// The serialized outpoint of each input of the transaction, in order.
    pub input_out_points: Vec<Result<Vec<u8>, SysError>>,
    /// The type identity of the group's first input.
    pub group_input_type: Result<Option<Script>, SysError>,
    /// The type identity of the group's first output.
    pub group_output_type: Result<Option<Script>, SysError>,
    /// The payload of the group's first input.
    pub group_input_data: Result<Vec<u8>, SysError>,
    /// The payload of the group's first output.
    pub group_output_data: Result<Vec<u8>, SysError>,
    /// The timelock attached to the group's first input.
    pub group_input_since: Result<u64, SysError>,
    /// The payload of the transaction's first output, whatever its group.
    pub first_output_data: Result<Vec<u8>, SysError>,
}

/// A [`TransactionView`] as plain values.
pub struct TransactionModel {
    pub script: Result<ScriptModel, SysError>,
    pub input_types: Seq<Result<Option<ScriptModel>, SysError>>,
    pub input_out_points: Seq<Result<Seq<u8>, SysError>>,
    pub group_input_type: Result<Option<ScriptModel>, SysError>,
    pub group_output_type: Result<Option<ScriptModel>, SysError>,
    pub group_input_data: Result<Seq<u8>, SysError>,
    pub group_output_data: Result<Seq<u8>, SysError>,
    pub group_input_since: Result<u64, SysError>,
    pub first_output_data: Result<Seq<u8>, SysError>,
}

/// The model of an optional type identity.
pub open spec fn type_model(cell_type: Option<Script>) -> Option<ScriptModel> {
    match cell_type {
        Some(script) => Some(script@),
        None => None,
    }
}

/// The model of an answer that holds a type identity.
pub open spec fn loaded_type_model(loaded: Result<Option<Script>, SysError>) -> Result<
    Option<ScriptModel>,
    SysError,
> {
    match loaded {
        Ok(cell_type) => Ok(type_model(cell_type)),
        Err(e) => Err(e),
    }
}

/// The model of an answer that holds a payload.
pub open spec fn loaded_data_model(loaded: Result<Vec<u8>, SysError>) -> Result<
    Seq<u8>,
    SysError,
> {
    match loaded {
        Ok(data) => Ok(data@),
        Err(e) => Err(e),
    }
}

/// The models of a list of answers that hold type identities, in order.
pub open spec fn loaded_type_models(answers: Seq<Result<Option<Script>, SysError>>) -> Seq<
    Result<Option<ScriptModel>, SysError>,
> {
    Seq::new(answers.len(), |i: int| loaded_type_model(answers[i]))
}

/// The models of a list of answers that hold byte strings, in order.
pub open spec fn loaded_data_models(answers: Seq<Result<Vec<u8>, SysError>>) -> Seq<
    Result<Seq<u8>, SysError>,
> {
    Seq::new(answers.len(), |i: int| loaded_data_model(answers[i]))
}

impl View for TransactionView {
    type V = TransactionModel;

    open spec fn view(&self) -> TransactionModel {
        TransactionModel {
            script: match self.script {
                Ok(script) => Ok(script@),
                Err(e) => Err(e),
            },
            input_types: loaded_type_models(self.input_types@),
            input_out_points: loaded_data_models(self.input_out_points@),
            group_input_type: loaded_type_model(self.group_input_type),
            group_output_type: loaded_type_model(self.group_output_type),
            group_input_data: loaded_data_model(self.group_input_data),
            group_output_data: loaded_data_model(self.group_output_data),
            group_input_since: self.group_input_since,
            first_output_data: loaded_data_model(self.first_output_data),
        }
    }
}

/// Whether a cell type is present and runs the code with hash `code_hash`.
pub open spec fn runs_code(cell_type: Option<ScriptModel>, code_hash: Seq<u8>) -> bool {
    cell_type matches Some(script) && script.code_hash == code_hash
}

/// Whether an answer came and holds a cell type that runs the code with
/// hash `code_hash`.
pub open spec fn answer_runs_code(
    answer: Result<Option<ScriptModel>, SysError>,
    code_hash: Seq<u8>,
) -> bool {
    answer matches Ok(cell_type) && runs_code(cell_type, code_hash)
}

/// Whether every answer before position `i` came.
pub open spec fn answered_before<T>(answers: Seq<Result<T, SysError>>, i: int) -> bool {
    forall|j: int| 0 <= j < i ==> (#[trigger] answers[j]) is Ok
}

/// Whether some input of the transaction runs the code with hash
/// `code_hash` as its type, as a scan finds it that takes the inputs in
/// order and stops at the first answer that decides: yes, if such an input
/// comes before any answer that failed; a failure, if an answer failed and
/// no such input comes before it; else no. A validator that finds its own
/// code among the inputs is updating a cell; one that does not is creating
/// it.
pub open spec fn code_runs_in_inputs(
    code_hash: Seq<u8>,
    input_types: Seq<Result<Option<ScriptModel>, SysError>>,
) -> Result<bool, SysError> {
    if exists|i: int|
        0 <= i < input_types.len() && answer_runs_code(#[trigger] input_types[i], code_hash)
            && answered_before(input_types, i) {
        Ok(true)
    } else if exists|i: int| 0 <= i < input_types.len() && (#[trigger] input_types[i]) is Err {
        Err(SysError)
    } else {
        Ok(false)
    }
}

/// Whether `args` is, byte for byte, the serialized outpoint of an input
/// that the transaction consumes, as a scan finds it that takes the inputs
/// in order and stops at the first answer that decides: yes, if such an
/// input comes before any answer that failed; a failure, if an answer
/// failed and no such input comes before it; else no. An outpoint is spent
/// once, so at most one cell can ever be created with a given `args`.
pub open spec fn bound_to_input(
    args: Seq<u8>,
    input_out_points: Seq<Result<Seq<u8>, SysError>>,
) -> Result<bool, SysError> {
    if exists|i: int|
        0 <= i < input_out_points.len() && #[trigger] input_out_points[i] == Ok::<
            Seq<u8>,
            SysError,
        >(args) && answered_before(input_out_points, i) {
        Ok(true)
    } else if exists|i: int|
        0 <= i < input_out_points.len() && (#[trigger] input_out_points[i]) is Err {
        Err(SysError)
    } else {
        Ok(false)
    }
}

/// Whether a scan of the inputs finds `args` among their outpoints.
pub open spec fn is_bound_to_input(
    args: Seq<u8>,
    input_out_points: Seq<Result<Seq<u8>, SysError>>,
) -> bool {
    bound_to_input(args, input_out_points) == Ok::<bool, SysError>(true)
}

/// Where the host answered for every input, the scan finds the code with
/// hash `code_hash` exactly when some input runs it.
pub proof fn lemma_code_runs_in_answered_inputs(
    code_hash: Seq<u8>,
    input_types: Seq<Result<Option<ScriptModel>, SysError>>,
)
    requires
        forall|i: int| 0 <= i < input_types.len() ==> (#[trigger] input_types[i]) is Ok,
    ensures
        code_runs_in_inputs(code_hash, input_types) == Ok::<bool, SysError>(
            exists|i: int|
                0 <= i < input_types.len() && answer_runs_code(#[trigger] input_types[i], code_hash),
        ),
{
}

/// Where the host answered for every input, `args` is bound exactly when
/// it is the outpoint of some input.
pub proof fn lemma_bound_to_answered_inputs(
    args: Seq<u8>,
    input_out_points: Seq<Result<Seq<u8>, SysError>>,
)
    requires
        forall|i: int| 0 <= i < input_out_points.len() ==> (#[trigger] input_out_points[i]) is Ok,
    ensures
        bound_to_input(args, input_out_points) == Ok::<bool, SysError>(
            exists|i: int|
                0 <= i < input_out_points.len() && #[trigger] input_out_points[i] == Ok::<
                    Seq<u8>,
                    SysError,
                >(args),
        ),
        is_bound_to_input(args, input_out_points) <==> exists|i: int|
            0 <= i < input_out_points.len() && #[trigger] input_out_points[i] == Ok::<
                Seq<u8>,
                SysError,
            >(args),
{
}

/// Whether two byte strings hold the same bytes.
pub fn bytes_equal(a: &Vec<u8>, b: &Vec<u8>) -> (same: bool)
    ensures
        same == (a@ == b@),
{
    if a.len() != b.len() {
        return false;
    }
    let mut i: usize = 0;
    while i < a.len()
        invariant
            a@.len() == b@.len(),
            i <= a@.len(),
            forall|j: int| 0 <= j < i ==> a@[j] == b@[j],
        decreases a@.len() - i,
    {
        if a[i] != b[i] {
            return false;
        }
        i += 1;
    }
    assert(a@ =~= b@);
    true
}

/// Scans the inputs' type identities, in order, for one that runs the
/// code of `script`. The scan stops at the first such input, and at the
/// first answer that failed.
pub fn code_hash_in_inputs(
    script: &Script,
    input_types: &Vec<Result<Option<Script>, SysError>>,
) -> (found: Result<bool, SysError>)
    ensures
        found == code_runs_in_inputs(script@.code_hash, loaded_type_models(input_types@)),
{
    let ghost models = loaded_type_models(input_types@);
    let mut i: usize = 0;
    while i < input_types.len()
        invariant
            i <= input_types@.len(),
            models == loaded_type_models(input_types@),
            answered_before(models, i as int),
            forall|j: int|
                0 <= j < i ==> !answer_runs_code(#[trigger] models[j], script@.code_hash),
        decreases input_types@.len() - i,
    {
        match &input_types[i] {
            Ok(Some(input_type)) => {
                if bytes_equal(&input_type.code_hash, &script.code_hash) {
                    assert(answer_runs_code(models[i as int], script@.code_hash));
                    return Ok(true);
                }
            },
            Ok(None) => {},
            Err(e) => {
                assert(models[i as int] is Err);
                return Err(*e);
            },
        }
        assert(models[i as int] is Ok);
        i += 1;
    }
    Ok(false)
}

/// Looks for `args` among the serialized outpoints of the inputs, in
/// order. The scan stops at the first outpoint that is `args`, and at the
/// first answer that failed.
pub fn args_bound_to_input(
    args: &Vec<u8>,
    input_out_points: &Vec<Result<Vec<u8>, SysError>>,
) -> (bound: Result<bool, SysError>)
    ensures
        bound == bound_to_input(args@, loaded_data_models(input_out_points@)),
{
    let ghost models = loaded_data_models(input_out_points@);
    let mut i: usize = 0;
    while i < input_out_points.len()
        invariant
            i <= input_out_points@.len(),
            models == loaded_data_models(input_out_points@),
            answered_before(models, i as int),
            forall|j: int| 0 <= j < i ==> #[trigger] models[j] != Ok::<Seq<u8>, SysError>(args@),
        decreases input_out_points@.len() - i,
    {
        match &input_out_points[i] {
            Ok(out_point) => {
                if bytes_equal(out_point, args) {
                    assert(models[i as int] == Ok::<Seq<u8>, SysError>(args@));
                    return Ok(true);
                }
            },
            Err(e) => {
                assert(models[i as int] is Err);
                return Err(*e);
            },
        }
        assert(models[i as int] is Ok);
        i += 1;
    }
    Ok(false)
}

} // verus!
