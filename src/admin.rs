use vstd::prelude::*;
use crate::signing::{agent_key_of, ed25519_public_key_of, SigningCredentials};
use crate::types::{AppInfo, CellId};

verus! {

/// Which functions of a cell a capability grant covers.
#[derive(Clone, Debug)]
pub enum GrantedFunctions {
    All,
    /// (zome name, function name) pairs.
    Listed(Vec<(String, String)>),
}

/// A request to authorize signing credentials for a cell; without a list of
/// functions, all are granted.
pub struct AuthorizeSigningCredentialsPayload {
    pub cell_id: CellId,
    pub functions: Option<GrantedFunctions>,
}

/// A capability grant for zome calls, assigned to the holders of a secret
/// who sign as one of the assignees.
pub struct ZomeCallCapGrant {
    pub tag: String,
    pub secret: [u8; 64],
    pub assignees: Vec<Vec<u8>>,
    pub functions: GrantedFunctions,
}

/// The admin request that installs a grant on a cell.
pub struct GrantZomeCallCapabilityPayload {
    pub cell_id: CellId,
    pub cap_grant: ZomeCallCapGrant,
}

/// The host's answer to enabling an app: the app, and the cells that failed
/// to start with the reason.
pub struct EnableAppResponse {
    pub app: AppInfo,
    pub errors: Vec<(CellId, String)>,
}

/// New credentials, and the grant that the host must install before they
/// can be used.
pub struct SigningCredentialsGrant {
    pub credentials: SigningCredentials,
    pub grant: GrantZomeCallCapabilityPayload,
}

/// The grant that lets `credentials` call the functions of `request` on its
/// cell: assigned to the credentials' agent key alone, under their
/// capability secret, for the listed functions or all of them.
pub fn signing_grant(request: AuthorizeSigningCredentialsPayload, credentials: &SigningCredentials) -> (r:
    GrantZomeCallCapabilityPayload)
    ensures
        r.cell_id == request.cell_id,
        r.cap_grant.tag@ == "zome-call-signing-key"@,
        r.cap_grant.secret == credentials.cap_secret,
        r.cap_grant.assignees@.len() == 1,
        r.cap_grant.assignees@[0]@ == credentials.signing_agent_key@,
        match request.functions {
            Some(f) => r.cap_grant.functions == f,
            None => r.cap_grant.functions is All,
        },
{
    let functions = match request.functions {
        Some(f) => f,
        None => GrantedFunctions::All,
    };
    let mut assignees: Vec<Vec<u8>> = Vec::new();
    assignees.push(crate::types::copy_bytes(&credentials.signing_agent_key));
    GrantZomeCallCapabilityPayload {
        cell_id: request.cell_id,
        cap_grant: ZomeCallCapGrant {
            tag: "zome-call-signing-key".to_owned(),
            secret: credentials.cap_secret,
            assignees,
            functions,
        },
    }
}

/// Generates fresh signing credentials for the cell of `request` and the
/// grant that authorizes them there. The credentials' agent key is the one
/// of their secret key; the grant is assigned to it alone.
pub fn authorize_signing_credentials(request: AuthorizeSigningCredentialsPayload) -> (r:
    SigningCredentialsGrant)
    ensures
        r.credentials.signing_agent_key@ == agent_key_of(
            ed25519_public_key_of(r.credentials.keypair@),
        ),
        r.grant.cell_id == request.cell_id,
        r.grant.cap_grant.tag@ == "zome-call-signing-key"@,
        r.grant.cap_grant.secret == r.credentials.cap_secret,
        r.grant.cap_grant.assignees@.len() == 1,
        r.grant.cap_grant.assignees@[0]@ == r.credentials.signing_agent_key@,
        match request.functions {
            Some(f) => r.grant.cap_grant.functions == f,
            None => r.grant.cap_grant.functions is All,
        },
{
    let credentials = SigningCredentials::generate();
    let grant = signing_grant(request, &credentials);
    SigningCredentialsGrant { credentials, grant }
}

/// The life of a clone cell. A deleted clone stays deleted.
#[derive(Clone, Copy, Debug, PartialEq, Eq, Structural)]
pub enum CloneCellState {
    Created,
    Enabled,
    Disabled,
    Deleted,
}

/// A change asked of a clone cell.
#[derive(Clone, Copy, Debug, PartialEq, Eq, Structural)]
pub enum CloneCellRequest {
    Enable,
    Disable,
    Delete,
}

/// The state after `request`: a created clone can only be enabled; enabled
/// and disabled move into each other; only a disabled clone can be deleted,
/// and a deleted one stays so. Asking for the state a clone is already in
/// leaves it there. `None` where the change is not allowed.
pub open spec fn clone_transition(state: CloneCellState, request: CloneCellRequest) -> Option<
    CloneCellState,
> {
    match (state, request) {
        (CloneCellState::Created, CloneCellRequest::Enable) => Some(CloneCellState::Enabled),
        (CloneCellState::Enabled, CloneCellRequest::Enable) => Some(CloneCellState::Enabled),
        (CloneCellState::Enabled, CloneCellRequest::Disable) => Some(CloneCellState::Disabled),
        (CloneCellState::Disabled, CloneCellRequest::Enable) => Some(CloneCellState::Enabled),
        (CloneCellState::Disabled, CloneCellRequest::Disable) => Some(CloneCellState::Disabled),
        (CloneCellState::Disabled, CloneCellRequest::Delete) => Some(CloneCellState::Deleted),
        (CloneCellState::Deleted, CloneCellRequest::Delete) => Some(CloneCellState::Deleted),
        _ => None,
    }
}

impl CloneCellState {
    /// Applies a request to the state.
    pub fn apply(self, request: CloneCellRequest) -> (r: Option<CloneCellState>)
        ensures
            r == clone_transition(self, request),
    {
        match (self, request) {
            (CloneCellState::Created, CloneCellRequest::Enable) => Some(CloneCellState::Enabled),
            (CloneCellState::Enabled, CloneCellRequest::Enable) => Some(CloneCellState::Enabled),
            (CloneCellState::Enabled, CloneCellRequest::Disable) => Some(CloneCellState::Disabled),
            (CloneCellState::Disabled, CloneCellRequest::Enable) => Some(CloneCellState::Enabled),
            (CloneCellState::Disabled, CloneCellRequest::Disable) => Some(CloneCellState::Disabled),
            (CloneCellState::Disabled, CloneCellRequest::Delete) => Some(CloneCellState::Deleted),
            (CloneCellState::Deleted, CloneCellRequest::Delete) => Some(CloneCellState::Deleted),
            _ => None,
        }
    }
}

/// Every transition is idempotent: applying an allowed request a second time
/// leaves the state where the first left it.
pub proof fn lemma_clone_transitions_idempotent(state: CloneCellState, request: CloneCellRequest)
    ensures
        clone_transition(state, request) matches Some(s) ==> clone_transition(s, request) == Some(
            s,
        ),
{
}

} // verus!
