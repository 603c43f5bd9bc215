use crate::codec::{
    decode_trees, decode_trees_spec, encode_trees, encode_trees_spec, lemma_round_trip_all,
    opt_view, trees_view, wire_trees_view, wire_trees_wf,
};
use crate::error::ClientError;
use crate::schema::{tree_wf, DataTree, IoResponseSchema, Schema, TreeView};
use vstd::prelude::*;

verus! {

/// The standard base64 text (with padding) of a byte sequence.
pub uninterp spec fn base64_of(b: Seq<u8>) -> Seq<char>;

/// A definition of this many bytes can be encoded without the encoded
/// length overflowing `usize`.
pub open spec fn encodable(n: nat) -> bool {
    n / 3 * 4 + 4 <= usize::MAX
}

/// Relies on `base64::encode` (standard alphabet, padded): the text depends
/// on the bytes alone. It panics when the encoded length overflows `usize`,
/// which `requires` rules out.
#[verifier::external_body]
fn encode_definition(bytes: &[u8]) -> (r: String)
    requires
        encodable(bytes@.len()),
    ensures
        r@ == base64_of(bytes@),
{
    base64::encode(bytes)
}

/// The upload envelope for a definition: the encoded definition and no
/// cache handle, both tolerances zero, no caching, recursion level zero and
/// no values, warnings or errors.
pub open spec fn is_upload_request(s: Schema, definition: Seq<u8>) -> bool {
    &&& s.absolutetolerance@ == "0.0"@
    &&& s.angletolerance@ == "0.0"@
    &&& opt_view(s.algo) == Some(base64_of(definition))
    &&& s.pointer is None
    &&& !s.cachesolve
    &&& s.recursionlevel == 0
    &&& s.values@.len() == 0
    &&& s.warnings@.len() == 0
    &&& s.errors@.len() == 0
}

/// The solve envelope for a cache handle and input trees: the handle and no
/// definition, absolute tolerance 0.001, angle tolerance 1.0, no caching,
/// recursion level zero, the inputs in their wire form and in order, and no
/// warnings or errors.
pub open spec fn is_solve_request(
    s: Schema,
    cache_key: Seq<char>,
    inputs: Seq<TreeView>,
) -> bool {
    &&& s.absolutetolerance@ == "0.001"@
    &&& s.angletolerance@ == "1.0"@
    &&& s.algo is None
    &&& opt_view(s.pointer) == Some(cache_key)
    &&& !s.cachesolve
    &&& s.recursionlevel == 0
    &&& wire_trees_view(s.values@) == encode_trees_spec(inputs)
    &&& s.warnings@.len() == 0
    &&& s.errors@.len() == 0
}

/// An upload answer carries a usable cache handle when it holds a
/// non-empty one.
pub open spec fn has_cache_key(resp: IoResponseSchema) -> bool {
    resp.cache_key is Some && resp.cache_key->0@.len() > 0
}

/// What a solve answer yields: its decoded output trees together with its
/// warnings and errors, verbatim; `MalformedTree` when an output tree is
/// malformed. Errors that the service reports are returned, not raised.
pub open spec fn is_solve_outcome(resp: Schema, r: Result<SolveResult, ClientError>) -> bool {
    &&& r is Ok <==> wire_trees_wf(wire_trees_view(resp.values@))
    &&& r is Ok ==> {
        &&& trees_view(r->Ok_0.values@) == decode_trees_spec(wire_trees_view(resp.values@))
        &&& r->Ok_0.warnings@ == resp.warnings@
        &&& r->Ok_0.errors@ == resp.errors@
    }
    &&& r is Err ==> r->Err_0 == ClientError::MalformedTree
}

/// The outcome of a solve: the output trees, and the warnings and errors
/// that the service reported.
#[derive(Debug, PartialEq)]
pub struct SolveResult {
    pub values: Vec<DataTree>,
    pub warnings: Vec<String>,
    pub errors: Vec<String>,
}

/// Builds the upload envelope for the bytes of a definition file.
pub fn upload_request(definition: &[u8]) -> (r: Schema)
    requires
        encodable(definition@.len()),
    ensures
        is_upload_request(r, definition@),
{
    Schema {
        absolutetolerance: "0.0".to_owned(),
        angletolerance: "0.0".to_owned(),
        algo: Some(encode_definition(definition)),
        pointer: None,
        cachesolve: false,
        recursionlevel: 0,
        values: Vec::new(),
        warnings: Vec::new(),
        errors: Vec::new(),
    }
}

/// The cache handle of an upload answer; `UploadRejected` when the answer
/// holds none, or an empty one.
pub fn upload_outcome(resp: &IoResponseSchema) -> (r: Result<String, ClientError>)
    ensures
        r is Ok <==> has_cache_key(*resp),
        r is Ok ==> r->Ok_0@ == resp.cache_key->0@,
        r is Err ==> r->Err_0 == ClientError::UploadRejected,
{
    match &resp.cache_key {
        Some(k) => {
            if k.as_str().is_empty() {
                Err(ClientError::UploadRejected)
            } else {
                Ok(k.clone())
            }
        },
        None => Err(ClientError::UploadRejected),
    }
}

/// Builds the solve envelope for a cache handle and input trees. The input
/// names are not checked against what the definition declares.
pub fn solve_request(cache_key: String, inputs: &Vec<DataTree>) -> (r: Schema)
    requires
        cache_key@.len() > 0,
    ensures
        is_solve_request(r, cache_key@, trees_view(inputs@)),
{
    Schema {
        absolutetolerance: "0.001".to_owned(),
        angletolerance: "1.0".to_owned(),
        algo: None,
        pointer: Some(cache_key),
        cachesolve: false,
        recursionlevel: 0,
        values: encode_trees(inputs),
        warnings: Vec::new(),
        errors: Vec::new(),
    }
}

/// Reads a solve answer: decodes its output trees and hands back its
/// warnings and errors as data.
pub fn solve_outcome(resp: Schema) -> (r: Result<SolveResult, ClientError>)
    ensures
        is_solve_outcome(resp, r),
{
    match decode_trees(&resp.values) {
        Ok(values) => Ok(SolveResult { values, warnings: resp.warnings, errors: resp.errors }),
        Err(e) => Err(e),
    }
}

/// Whatever the service reports in `errors`, an answer whose output trees
/// are well formed is a success that carries those errors back unchanged.
pub proof fn lemma_reported_errors_are_returned(
    resp: Schema,
    r: Result<SolveResult, ClientError>,
)
    requires
        is_solve_outcome(resp, r),
        wire_trees_wf(wire_trees_view(resp.values@)),
    ensures
        r is Ok,
        r->Ok_0.errors@ == resp.errors@,
        r->Ok_0.warnings@ == resp.warnings@,
{
}

/// When the service answers a solve with the very trees it was sent, the
/// caller gets its own well-formed input trees back, in order.
pub proof fn lemma_echo_returns_inputs(
    req: Schema,
    cache_key: Seq<char>,
    inputs: Seq<TreeView>,
    resp: Schema,
    r: Result<SolveResult, ClientError>,
)
    requires
        is_solve_request(req, cache_key, inputs),
        forall|i: int| 0 <= i < inputs.len() ==> tree_wf(#[trigger] inputs[i]),
        wire_trees_view(resp.values@) == wire_trees_view(req.values@),
        is_solve_outcome(resp, r),
    ensures
        r is Ok,
        trees_view(r->Ok_0.values@) == inputs,
{
    lemma_round_trip_all(inputs);
}

/// Where one evaluation of a definition stands: the definition is read,
/// then uploaded for a cache handle, then solved with the inputs under that
/// handle.
#[derive(Debug)]
pub enum Evaluation {
    /// Waiting for the definition file's bytes; the inputs are held for later.
    ReadingDefinition { inputs: Vec<DataTree> },
    /// Waiting for the answer to the upload.
    Uploading { inputs: Vec<DataTree> },
    /// Waiting for the answer to the solve.
    Solving,
    /// Over: nothing more is asked.
    Finished,
}

/// What the outside world reports back to an evaluation.
#[derive(Debug)]
pub enum Event {
    /// The definition file was read, or could not be.
    DefinitionRead(Result<Vec<u8>, ClientError>),
    /// The upload was answered, or the exchange failed.
    Uploaded(Result<IoResponseSchema, ClientError>),
    /// The solve was answered, or the exchange failed.
    Solved(Result<Schema, ClientError>),
}

/// What an evaluation asks of the outside world next.
#[derive(Debug)]
pub enum Action {
    /// Send this envelope to the upload endpoint.
    PostIo(Schema),
    /// Send this envelope to the solve endpoint.
    PostGrasshopper(Schema),
    /// The evaluation is over, with this result.
    Done(Result<SolveResult, ClientError>),
}

impl Evaluation {
    /// Whether this is the event that the evaluation waits for.
    pub open spec fn accepts(&self, e: &Event) -> bool {
        match (self, e) {
            (Evaluation::ReadingDefinition { .. }, Event::DefinitionRead(_)) => true,
            (Evaluation::Uploading { .. }, Event::Uploaded(_)) => true,
            (Evaluation::Solving, Event::Solved(_)) => true,
            _ => false,
        }
    }

    /// A fresh evaluation of the given input trees.
    pub fn new(inputs: Vec<DataTree>) -> (r: Self)
        ensures
            r == (Evaluation::ReadingDefinition { inputs }),
    {
        Evaluation::ReadingDefinition { inputs }
    }

    /// Whether this is the event that the evaluation waits for.
    pub fn expects(&self, e: &Event) -> (r: bool)
        ensures
            r == self.accepts(e),
    {
        match (self, e) {
            (Evaluation::ReadingDefinition { .. }, Event::DefinitionRead(_)) => true,
            (Evaluation::Uploading { .. }, Event::Uploaded(_)) => true,
            (Evaluation::Solving, Event::Solved(_)) => true,
            _ => false,
        }
    }

    /// Takes the event that the evaluation waits for and decides the next
    /// step. A failure that the event reports ends the evaluation with that
    /// error; the solve is asked for only once a cache handle is known.
    pub fn step(self, e: Event) -> (r: (Evaluation, Action))
        requires
            self.accepts(&e),
            e matches Event::DefinitionRead(Ok(bytes)) ==> encodable(bytes@.len()),
        ensures
            match (self, e) {
                (Evaluation::ReadingDefinition { inputs }, Event::DefinitionRead(Ok(bytes))) => {
                    &&& r.0 == (Evaluation::Uploading { inputs })
                    &&& r.1 matches Action::PostIo(s) && is_upload_request(s, bytes@)
                },
                (Evaluation::Uploading { inputs }, Event::Uploaded(Ok(resp))) => {
                    if has_cache_key(resp) {
                        &&& r.0 == Evaluation::Solving
                        &&& r.1 matches Action::PostGrasshopper(s) && is_solve_request(
                            s,
                            resp.cache_key->0@,
                            trees_view(inputs@),
                        )
                    } else {
                        &&& r.0 == Evaluation::Finished
                        &&& r.1 == Action::Done(Err(ClientError::UploadRejected))
                    }
                },
                (Evaluation::Solving, Event::Solved(Ok(resp))) => {
                    &&& r.0 == Evaluation::Finished
                    &&& r.1 matches Action::Done(out) && is_solve_outcome(resp, out)
                },
                (_, Event::DefinitionRead(Err(err))) => r.0 == Evaluation::Finished && r.1
                    == Action::Done(Err(err)),
                (_, Event::Uploaded(Err(err))) => r.0 == Evaluation::Finished && r.1
                    == Action::Done(Err(err)),
                (_, Event::Solved(Err(err))) => r.0 == Evaluation::Finished && r.1
                    == Action::Done(Err(err)),
                _ => false,
            },
    {
        match (self, e) {
            (Evaluation::ReadingDefinition { inputs }, Event::DefinitionRead(Ok(bytes))) => {
                let s = upload_request(bytes.as_slice());
                (Evaluation::Uploading { inputs }, Action::PostIo(s))
            },
            (Evaluation::Uploading { inputs }, Event::Uploaded(Ok(resp))) => {
                match upload_outcome(&resp) {
                    Ok(key) => {
                        let s = solve_request(key, &inputs);
                        (Evaluation::Solving, Action::PostGrasshopper(s))
                    },
                    Err(err) => (Evaluation::Finished, Action::Done(Err(err))),
                }
            },
            (Evaluation::Solving, Event::Solved(Ok(resp))) => {
                (Evaluation::Finished, Action::Done(solve_outcome(resp)))
            },
            (_, Event::DefinitionRead(Err(err))) => (
                Evaluation::Finished,
                Action::Done(Err(err)),
            ),
            (_, Event::Uploaded(Err(err))) => (Evaluation::Finished, Action::Done(Err(err))),
            (_, Event::Solved(Err(err))) => (Evaluation::Finished, Action::Done(Err(err))),
            (st, _) => {
                // any other pairing is ruled out by `accepts`
                proof {
                    assert(false);
                }
                (st, Action::Done(Err(ClientError::DecodeFailure)))
            },
        }
    }
}

} // verus!
