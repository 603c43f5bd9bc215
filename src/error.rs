use vstd::prelude::*;

verus! {

/// Every way a call of this client can fail. Errors the service reports
/// inside a successful solve are data, not one of these.
#[derive(Debug, Clone, Copy, PartialEq, Eq, Structural)]
pub enum ClientError {
    /// The definition file could not be opened.
    FileNotFound,
    /// Reading the definition file did not complete.
    IoFailure,
    /// The connection failed or the service answered with a non-success status.
    TransportFailure,
    /// The response body does not match the expected record shape.
    DecodeFailure,
    /// A tree payload is structurally invalid.
    MalformedTree,
    /// The upload was answered without a cache handle.
    UploadRejected,
}

} // verus!
