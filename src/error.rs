use vstd::prelude::*;

verus! {

/// The errors of this library. Each operation returns exactly one of them on
/// failure; none is swallowed.
#[derive(Debug)]
pub enum ConductorApiError {
    /// The connection could not be established or was lost.
    WebsocketError(String),
    /// The host understood the request and rejected it with this payload.
    ExternalApiWireError(Vec<u8>),
    /// No fresh nonce could be drawn.
    FreshNonceError(String),
    /// The signer could not sign the call.
    SignZomeCallError(String),
    /// The signer has no identity for the resolved cell.
    ProvenanceNotFound,
    /// The role name of the target is not in the topology.
    RoleNotFound,
    /// The role exists but holds no matching cell.
    CellNotFound,
    /// The connection is closed: pending calls end with this, new ones fail at once.
    TransportClosed,
}

pub type ConductorApiResult<T> = Result<T, ConductorApiError>;

} // verus!
