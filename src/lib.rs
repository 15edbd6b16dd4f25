//! Client side of calls into the cells of a remote host: resolving call
//! targets against a topology snapshot, authorizing calls with fresh nonces
//! and a pluggable signer, matching replies to the requests that wait for
//! them, and routing push events to the handlers of the app's cells.
pub mod admin;
pub mod app_websocket;
pub mod correlator;
pub mod error;
pub mod resolver;
pub mod signal_router;
pub mod signing;
pub mod types;
pub mod zome_call;

pub use admin::{
    authorize_signing_credentials, AuthorizeSigningCredentialsPayload, CloneCellRequest,
    CloneCellState, EnableAppResponse, GrantedFunctions,
};
pub use app_websocket::{sign_with_data, sign_zome_call, AppWebsocket, AuthorizeStep};
pub use correlator::{Delivery, FrameAction, InboundFrame, ReplyBody, RequestCorrelator};
pub use error::{ConductorApiError, ConductorApiResult};
pub use resolver::{resolve, CloneCellId, ZomeCallTarget};
pub use signal_router::{Signal, SignalRouter};
pub use signing::{AgentSigner, ClientAgentSigner, KeystoreIdentity, LairAgentSigner, SigningCredentials};
pub use types::{AppInfo, CellId, CellInfo, RoleCells};
pub use zome_call::{NonceLedger, ZomeCall, ZomeCallUnsigned};
