//! Client-side model of a remote geometric-solver service: the parameter
//! trees it exchanges, their wire form, the request and response records,
//! and the two-phase upload/solve protocol that ties them together.

pub mod codec;
pub mod error;
pub mod protocol;
pub mod schema;

pub use codec::{decode_tree, decode_trees, encode_tree, encode_trees, WireObject, WireTree};
pub use error::ClientError;
pub use protocol::{
    solve_outcome, solve_request, upload_outcome, upload_request, Action, Evaluation, Event,
    SolveResult,
};
pub use schema::{
    DataTree, InputParamSchema, IoParamSchema, IoResponseSchema, RestHopperObject, Schema,
};
