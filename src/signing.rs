use vstd::prelude::*;
use crate::error::ConductorApiError;
use crate::types::{CellId, HASH_LEN};

verus! {

/// Bytes of a capability secret.
pub const CAP_SECRET_BYTES: usize = 64;

/// The Ed25519 signature of `message` under the secret key `secret`.
pub uninterp spec fn ed25519_signature_of(secret: Seq<u8>, message: Seq<u8>) -> Seq<u8>;

/// The Ed25519 public key of the secret key `secret`.
pub uninterp spec fn ed25519_public_key_of(secret: Seq<u8>) -> Seq<u8>;

/// The full 39-byte agent key hash built from a raw 32-byte public key.
pub uninterp spec fn agent_key_of(raw: Seq<u8>) -> Seq<u8>;

/// Relies on ed25519_dalek's `SigningKey::sign`: the deterministic Ed25519
/// signature of the message under the secret key. It cannot fail.
#[verifier::external_body]
fn ed25519_sign(secret: &[u8; 32], message: &[u8]) -> (r: [u8; 64])
    ensures
        r@ == ed25519_signature_of(secret@, message@),
{
    ed25519_dalek::Signer::sign(&ed25519_dalek::SigningKey::from_bytes(secret), message).to_bytes()
}

/// Relies on ed25519_dalek's `SigningKey::verifying_key`: the public key of
/// the secret key, as 32 bytes.
#[verifier::external_body]
fn ed25519_public_key(secret: &[u8; 32]) -> (r: [u8; 32])
    ensures
        r@ == ed25519_public_key_of(secret@),
{
    ed25519_dalek::SigningKey::from_bytes(secret).verifying_key().to_bytes()
}

/// Relies on holo_hash's `AgentPubKey::from_raw_32`: the agent prefix, the
/// 32 raw bytes, then four location bytes computed from them.
#[verifier::external_body]
fn agent_key_from_raw_32(raw: &[u8; 32]) -> (r: Vec<u8>)
    ensures
        r@ == agent_key_of(raw@),
        r@.len() == HASH_LEN,
        r@.subrange(3, 35) == raw@,
{
    holo_hash::AgentPubKey::from_raw_32(raw.to_vec()).get_raw_39().to_vec()
}

/// Relies on rand's `OsRng`: 32 bytes from the operating system's secure
/// random source.
#[verifier::external_body]
fn random_secret_key() -> (r: [u8; 32]) {
    let mut bytes = [0u8; 32];
    rand::RngCore::fill_bytes(&mut rand::rngs::OsRng, &mut bytes);
    bytes
}

/// Relies on rand's `OsRng`: 64 bytes from the operating system's secure
/// random source.
#[verifier::external_body]
fn random_cap_secret() -> (r: [u8; 64]) {
    let mut bytes = [0u8; 64];
    rand::RngCore::fill_bytes(&mut rand::rngs::OsRng, &mut bytes);
    bytes
}

/// What a local signer holds for one cell: the agent key it signs as, the
/// secret key it signs with, and the capability secret it presents.
pub struct SigningCredentials {
    pub signing_agent_key: Vec<u8>,
    pub keypair: [u8; 32],
    pub cap_secret: [u8; 64],
}

impl SigningCredentials {
    /// Whether the agent key is the one of the secret key.
    pub open spec fn well_formed(&self) -> bool {
        self.signing_agent_key@ == agent_key_of(ed25519_public_key_of(self.keypair@))
    }

    /// Credentials for the given secret key and capability secret; the agent
    /// key is derived from the key's public half.
    pub fn from_key_material(keypair: [u8; 32], cap_secret: [u8; 64]) -> (r: SigningCredentials)
        ensures
            r.keypair@ == keypair@,
            r.cap_secret@ == cap_secret@,
            r.well_formed(),
    {
        let public_key = ed25519_public_key(&keypair);
        let signing_agent_key = agent_key_from_raw_32(&public_key);
        SigningCredentials { signing_agent_key, keypair, cap_secret }
    }

    /// Fresh credentials: a new secret key and capability secret from the
    /// operating system's secure random source.
    pub fn generate() -> (r: SigningCredentials)
        ensures
            r.well_formed(),
    {
        let keypair = random_secret_key();
        let cap_secret = random_cap_secret();
        Self::from_key_material(keypair, cap_secret)
    }

    pub fn copy(&self) -> (r: SigningCredentials)
        ensures
            r.signing_agent_key@ == self.signing_agent_key@,
            r.keypair@ == self.keypair@,
            r.cap_secret@ == self.cap_secret@,
    {
        SigningCredentials {
            signing_agent_key: crate::types::copy_bytes(&self.signing_agent_key),
            keypair: self.keypair,
            cap_secret: self.cap_secret,
        }
    }
}

/// The value stored last under `cell` in a table of entries.
pub open spec fn last_entry_for<V>(entries: Seq<(CellId, V)>, cell: (Seq<u8>, Seq<u8>)) -> Option<V>
    decreases entries.len(),
{
    if entries.len() == 0 {
        None
    } else if entries.last().0@ == cell {
        Some(entries.last().1)
    } else {
        last_entry_for(entries.drop_last(), cell)
    }
}

/// The position of the last entry for `cell`, if any.
fn find_entry<V>(entries: &Vec<(CellId, V)>, cell: &CellId) -> (r: Option<usize>)
    ensures
        match r {
            Some(i) => i < entries@.len() && last_entry_for(entries@, cell@) == Some(
                entries@[i as int].1,
            ),
            None => last_entry_for(entries@, cell@) is None,
        },
{
    let mut i: usize = entries.len();
    assert(entries@.subrange(0, i as int) =~= entries@);
    while i > 0
        invariant
            i <= entries@.len(),
            last_entry_for(entries@, cell@) == last_entry_for(
                entries@.subrange(0, i as int),
                cell@,
            ),
        decreases i,
    {
        assert(entries@.subrange(0, i as int).drop_last() =~= entries@.subrange(0, i - 1));
        if entries[i - 1].0.equals(cell) {
            return Some(i - 1);
        }
        i = i - 1;
    }
    None
}

/// A signer that holds the secret keys itself and signs on the spot.
pub struct ClientAgentSigner {
    pub credentials: Vec<(CellId, SigningCredentials)>,
}

impl ClientAgentSigner {
    pub fn new() -> (r: ClientAgentSigner)
        ensures
            r.credentials@.len() == 0,
    {
        ClientAgentSigner { credentials: Vec::new() }
    }

    /// The credentials in force for `cell`.
    pub open spec fn credentials_for(&self, cell: (Seq<u8>, Seq<u8>)) -> Option<
        SigningCredentials,
    > {
        last_entry_for(self.credentials@, cell)
    }

    /// Registers credentials for a cell; they replace any earlier ones.
    pub fn add_credentials(&mut self, cell_id: CellId, credentials: SigningCredentials)
        ensures
            final(self).credentials_for(cell_id@) == Some(credentials),
            forall|c: (Seq<u8>, Seq<u8>)|
                c != cell_id@ ==> final(self).credentials_for(c) == old(self).credentials_for(c),
    {
        let ghost key = cell_id@;
        self.credentials.push((cell_id, credentials));
        assert(self.credentials@.drop_last() =~= old(self).credentials@);
        assert forall|c: (Seq<u8>, Seq<u8>)| c != key implies self.credentials_for(c)
            == old(self).credentials_for(c) by {
            assert(self.credentials@.drop_last() =~= old(self).credentials@);
        }
    }
}

/// Side table of a signer whose keys live in a separate keystore: the agent
/// key and capability secret of each cell, but no secret key.
pub struct KeystoreIdentity {
    pub agent_key: Vec<u8>,
    pub cap_secret: [u8; 64],
}

/// A signer that hands signing to a separate keystore service.
pub struct LairAgentSigner {
    pub identities: Vec<(CellId, KeystoreIdentity)>,
}

impl LairAgentSigner {
    pub fn new() -> (r: LairAgentSigner)
        ensures
            r.identities@.len() == 0,
    {
        LairAgentSigner { identities: Vec::new() }
    }

    /// The identity in force for `cell`.
    pub open spec fn identity_for(&self, cell: (Seq<u8>, Seq<u8>)) -> Option<KeystoreIdentity> {
        last_entry_for(self.identities@, cell)
    }

    /// Registers the agent key and capability secret of a cell; they replace
    /// any earlier ones.
    pub fn add_identity(&mut self, cell_id: CellId, identity: KeystoreIdentity)
        ensures
            final(self).identity_for(cell_id@) == Some(identity),
            forall|c: (Seq<u8>, Seq<u8>)|
                c != cell_id@ ==> final(self).identity_for(c) == old(self).identity_for(c),
    {
        let ghost key = cell_id@;
        self.identities.push((cell_id, identity));
        assert forall|c: (Seq<u8>, Seq<u8>)| c != key implies self.identity_for(c)
            == old(self).identity_for(c) by {
            assert(self.identities@.drop_last() =~= old(self).identities@);
        }
    }
}

/// The result of asking a signer to sign: a signature at once, or a request
/// that the keystore service must answer.
pub enum SignStep {
    Signed([u8; 64]),
    Delegate { public_key: Vec<u8>, data: Vec<u8> },
}

/// The signing strategies, used interchangeably when authorizing calls.
pub enum AgentSigner {
    Client(ClientAgentSigner),
    Lair(LairAgentSigner),
}

impl AgentSigner {
    /// The agent key the signer declares for `cell`.
    pub open spec fn provenance_of(&self, cell: (Seq<u8>, Seq<u8>)) -> Option<Seq<u8>> {
        match self {
            AgentSigner::Client(s) => match s.credentials_for(cell) {
                Some(c) => Some(c.signing_agent_key@),
                None => None,
            },
            AgentSigner::Lair(s) => match s.identity_for(cell) {
                Some(i) => Some(i.agent_key@),
                None => None,
            },
        }
    }

    /// The capability secret the signer holds for `cell`.
    pub open spec fn cap_secret_of(&self, cell: (Seq<u8>, Seq<u8>)) -> Option<Seq<u8>> {
        match self {
            AgentSigner::Client(s) => match s.credentials_for(cell) {
                Some(c) => Some(c.cap_secret@),
                None => None,
            },
            AgentSigner::Lair(s) => match s.identity_for(cell) {
                Some(i) => Some(i.cap_secret@),
                None => None,
            },
        }
    }

    pub fn get_provenance(&self, cell_id: &CellId) -> (r: Option<Vec<u8>>)
        ensures
            match (r, self.provenance_of(cell_id@)) {
                (Some(k), Some(p)) => k@ == p,
                (None, None) => true,
                _ => false,
            },
    {
        match self {
            AgentSigner::Client(s) => match find_entry(&s.credentials, cell_id) {
                Some(i) => Some(crate::types::copy_bytes(&s.credentials[i].1.signing_agent_key)),
                None => None,
            },
            AgentSigner::Lair(s) => match find_entry(&s.identities, cell_id) {
                Some(i) => Some(crate::types::copy_bytes(&s.identities[i].1.agent_key)),
                None => None,
            },
        }
    }

    pub fn get_cap_secret(&self, cell_id: &CellId) -> (r: Option<[u8; 64]>)
        ensures
            match (r, self.cap_secret_of(cell_id@)) {
                (Some(k), Some(p)) => k@ == p,
                (None, None) => true,
                _ => false,
            },
    {
        match self {
            AgentSigner::Client(s) => match find_entry(&s.credentials, cell_id) {
                Some(i) => Some(s.credentials[i].1.cap_secret),
                None => None,
            },
            AgentSigner::Lair(s) => match find_entry(&s.identities, cell_id) {
                Some(i) => Some(s.identities[i].1.cap_secret),
                None => None,
            },
        }
    }

    /// Signs `data` for `cell_id` as `provenance`. A local signer signs with
    /// the cell's secret key and fails if it has none; a keystore signer asks
    /// its keystore to sign with the key whose raw bytes the provenance holds.
    pub fn sign(&self, cell_id: &CellId, provenance: &Vec<u8>, data: &Vec<u8>) -> (r: Result<
        SignStep,
        ConductorApiError,
    >)
        ensures
            match self {
                AgentSigner::Client(s) => match s.credentials_for(cell_id@) {
                    Some(c) => r matches Ok(SignStep::Signed(sig)) && sig@ == ed25519_signature_of(
                        c.keypair@,
                        data@,
                    ),
                    None => r matches Err(ConductorApiError::SignZomeCallError(_)),
                },
                AgentSigner::Lair(_) => if provenance@.len() == HASH_LEN {
                    r matches Ok(SignStep::Delegate { public_key, data: d }) && public_key@
                        == provenance@.subrange(3, 35) && d@ == data@
                } else {
                    r matches Err(ConductorApiError::SignZomeCallError(_))
                },
            },
    {
        match self {
            AgentSigner::Client(s) => match find_entry(&s.credentials, cell_id) {
                Some(i) => Ok(SignStep::Signed(ed25519_sign(&s.credentials[i].1.keypair, data.as_slice()))),
                None => Err(ConductorApiError::SignZomeCallError("no credentials for the cell".to_owned())),
            },
            AgentSigner::Lair(_) => {
                if provenance.len() != HASH_LEN {
                    return Err(ConductorApiError::SignZomeCallError("malformed agent key".to_owned()));
                }
                let mut public_key: Vec<u8> = Vec::new();
                let mut i: usize = 3;
                while i < 35
                    invariant
                        provenance@.len() == HASH_LEN,
                        3 <= i <= 35,
                        public_key@ == provenance@.subrange(3, i as int),
                    decreases 35 - i,
                {
                    public_key.push(provenance[i]);
                    i = i + 1;
                    assert(public_key@ =~= provenance@.subrange(3, i as int));
                }
                Ok(SignStep::Delegate { public_key, data: crate::types::copy_bytes(data) })
            },
        }
    }
}

} // verus!
