use vstd::prelude::*;
use crate::error::ConductorApiError;
use crate::resolver::{failure_error, resolve, resolve_spec, ZomeCallTarget};
use crate::signing::{ed25519_signature_of, AgentSigner, SignStep};
use crate::types::{AppInfo, CellId, HASH_LEN};
use crate::zome_call::{
    signable, cap_secret_view, timestamp_now, zome_call_digest_of, NonceLedger, ZomeCall, ZomeCallUnsigned,
    ZomeCallUnsignedView, ZomeCallView, FRESH_NONCE_EXPIRES_AFTER_MICROS,
};

verus! {

/// Where authorizing a call stands: signed, or waiting for the keystore to
/// sign `data` with the key whose raw bytes are `public_key`.
pub enum AuthorizeStep {
    Ready(ZomeCall),
    AwaitKeystore { unsigned: ZomeCallUnsigned, public_key: Vec<u8>, data: Vec<u8> },
}

/// The unsigned call that a step carries.
pub open spec fn step_unsigned(step: AuthorizeStep) -> ZomeCallUnsigned {
    match step {
        AuthorizeStep::Ready(z) => z.unsigned,
        AuthorizeStep::AwaitKeystore { unsigned, .. } => unsigned,
    }
}

/// What signing `u` through `signer` yields: a local signer signs the call's
/// bytes with the cell's secret key; a keystore signer asks its keystore to
/// sign them with the provenance's key.
pub open spec fn signed_as(signer: AgentSigner, u: ZomeCallUnsignedView, step: AuthorizeStep) -> bool {
    match step {
        AuthorizeStep::Ready(z) => {
            &&& z.unsigned@ == u
            &&& signer matches AgentSigner::Client(s)
            &&& s.credentials_for(u.cell_id) matches Some(c)
            &&& z.signature@ == ed25519_signature_of(c.keypair@, zome_call_digest_of(u))
        },
        AuthorizeStep::AwaitKeystore { unsigned, public_key, data } => {
            &&& unsigned@ == u
            &&& signer is Lair
            &&& data@ == zome_call_digest_of(u)
            &&& public_key@ == u.provenance.subrange(3, 35)
        },
    }
}

/// Signs an unsigned call whose bytes to sign are `data`. A local signer
/// signs them with the cell's secret key and fails without credentials for
/// the cell; a keystore signer asks for them to be signed with the
/// provenance's key and fails where the provenance is not a full hash.
pub fn sign_with_data(unsigned: ZomeCallUnsigned, data: Vec<u8>, signer: &AgentSigner) -> (r: Result<
    AuthorizeStep,
    ConductorApiError,
>)
    ensures
        match signer {
            AgentSigner::Client(s) => match s.credentials_for(unsigned.cell_id@) {
                Some(c) => r matches Ok(AuthorizeStep::Ready(z)) && z.unsigned == unsigned
                    && z.signature@ == ed25519_signature_of(c.keypair@, data@),
                None => r matches Err(ConductorApiError::SignZomeCallError(_)),
            },
            AgentSigner::Lair(_) => if unsigned.provenance@.len() == HASH_LEN {
                r matches Ok(AuthorizeStep::AwaitKeystore { unsigned: u, public_key, data: d })
                    && u == unsigned && public_key@ == unsigned.provenance@.subrange(3, 35) && d@
                    == data@
            } else {
                r matches Err(ConductorApiError::SignZomeCallError(_))
            },
        },
{
    match signer.sign(&unsigned.cell_id, &unsigned.provenance, &data) {
        Err(e) => Err(e),
        Ok(SignStep::Signed(signature)) => Ok(AuthorizeStep::Ready(ZomeCall::from_unsigned(unsigned, signature))),
        Ok(SignStep::Delegate { public_key, data }) => Ok(
            AuthorizeStep::AwaitKeystore { unsigned, public_key, data },
        ),
    }
}

/// Whether `signer` can sign `u`: its bytes to sign can be computed, and a
/// local signer holds credentials for its cell.
pub open spec fn can_sign(signer: AgentSigner, u: ZomeCallUnsigned) -> bool {
    &&& signable(u)
    &&& match signer {
        AgentSigner::Client(s) => s.credentials_for(u.cell_id@) is Some,
        AgentSigner::Lair(_) => true,
    }
}

/// Signs an unsigned call through the signer. It fails where the call's
/// hashes are malformed, its bytes to sign cannot be computed, or the signer
/// cannot sign them (see `sign_with_data`).
pub fn sign_zome_call(unsigned: ZomeCallUnsigned, signer: &AgentSigner) -> (r: Result<
    AuthorizeStep,
    ConductorApiError,
>)
    ensures
        match r {
            Ok(step) => signed_as(*signer, unsigned@, step) && step_unsigned(step) == unsigned,
            Err(e) => e is SignZomeCallError,
        },
        r is Ok <==> can_sign(*signer, unsigned),
{
    let data = match unsigned.data_to_sign() {
        Some(d) => d,
        None => {
            return Err(ConductorApiError::SignZomeCallError("cannot compute the bytes to sign".to_owned()));
        },
    };
    sign_with_data(unsigned, data, signer)
}

/// The client side of an app connection: the topology snapshot it resolves
/// against, the signer it authorizes calls with, and the nonces it has used.
pub struct AppWebsocket {
    pub my_pub_key: Vec<u8>,
    pub app_info: AppInfo,
    pub signer: AgentSigner,
    pub nonces: NonceLedger,
}

/// Whether `u` is the unsigned call for `target` that `ws` prepares at
/// `now`: resolved cell, the signer's provenance and capability secret for
/// it, the given function and payload, a nonce that `ws` had not used, and
/// the expiry `now` plus the horizon.
pub open spec fn prepared(
    ws: AppWebsocket,
    target: ZomeCallTarget,
    zome_name: Seq<char>,
    fn_name: Seq<char>,
    payload: Seq<u8>,
    now: i64,
    u: ZomeCallUnsigned,
) -> bool {
    &&& resolve_spec(ws.app_info.cell_info@, target) == Ok::<(Seq<u8>, Seq<u8>), crate::resolver::ResolveFailure>(u.cell_id@)
    &&& ws.signer.provenance_of(u.cell_id@) == Some(u.provenance@)
    &&& cap_secret_view(u.cap_secret) == ws.signer.cap_secret_of(u.cell_id@)
    &&& u.zome_name@ == zome_name
    &&& u.fn_name@ == fn_name
    &&& u.payload@ == payload
    &&& !ws.nonces.holds(u.nonce@)
    &&& u.expires_at == now + FRESH_NONCE_EXPIRES_AFTER_MICROS
    &&& u.expires_at > now
}

/// The failure that preparing a call for `target` meets before a nonce is
/// drawn, if any.
pub open spec fn early_failure(ws: AppWebsocket, target: ZomeCallTarget) -> Option<ConductorApiError> {
    match resolve_spec(ws.app_info.cell_info@, target) {
        Err(f) => Some(failure_error(f)),
        Ok(cell) => match ws.signer.provenance_of(cell) {
            None => Some(ConductorApiError::ProvenanceNotFound),
            Some(_) => None,
        },
    }
}

/// What authorizing a call for `target` at `now` on `ws` may end in, with
/// `used_after` the nonces used afterwards. The early failures come before
/// a nonce is drawn and use none. Otherwise the call is prepared with a
/// fresh nonce, which is then used whatever follows: it is signed where the
/// signer can sign it, and fails with `SignZomeCallError` where it cannot.
/// Only a failed draw uses no nonce.
pub open spec fn authorize_outcome(
    ws: AppWebsocket,
    used_after: Seq<[u8; 32]>,
    target: ZomeCallTarget,
    zome_name: Seq<char>,
    fn_name: Seq<char>,
    payload: Seq<u8>,
    now: i64,
    r: Result<AuthorizeStep, ConductorApiError>,
) -> bool {
    match early_failure(ws, target) {
        Some(e) => r == Err::<AuthorizeStep, ConductorApiError>(e) && used_after == ws.nonces.used@,
        None => match r {
            Ok(step) => {
                &&& prepared(ws, target, zome_name, fn_name, payload, now, step_unsigned(step))
                &&& can_sign(ws.signer, step_unsigned(step))
                &&& signed_as(ws.signer, step_unsigned(step)@, step)
                &&& used_after == ws.nonces.used@.push(step_unsigned(step).nonce)
            },
            Err(e) => {
                ||| e is FreshNonceError && used_after == ws.nonces.used@
                ||| e is SignZomeCallError && exists|u: ZomeCallUnsigned|
                    #[trigger] prepared(ws, target, zome_name, fn_name, payload, now, u)
                        && !can_sign(ws.signer, u) && used_after == ws.nonces.used@.push(u.nonce)
            },
        },
    }
}

impl AppWebsocket {
    pub open spec fn well_formed(&self) -> bool {
        self.nonces.well_formed()
    }

    pub fn new(app_info: AppInfo, signer: AgentSigner) -> (r: AppWebsocket)
        ensures
            r.my_pub_key@ == app_info.agent_pub_key@,
            r.app_info == app_info,
            r.signer == signer,
            r.nonces.used@.len() == 0,
            r.well_formed(),
    {
        let my_pub_key = crate::types::copy_bytes(&app_info.agent_pub_key);
        AppWebsocket { my_pub_key, app_info, signer, nonces: NonceLedger::new() }
    }

    /// Replaces the topology snapshot as a whole.
    pub fn refresh_app_info(&mut self, app_info: AppInfo)
        ensures
            final(self).app_info == app_info,
            final(self).signer == old(self).signer,
            final(self).nonces == old(self).nonces,
            final(self).my_pub_key == old(self).my_pub_key,
    {
        self.app_info = app_info;
    }

    /// The cell that a role name stands for in the current snapshot.
    pub fn get_cell_id_from_role_name(&self, role_name: &String) -> (r: Result<
        CellId,
        ConductorApiError,
    >)
        ensures
            crate::resolver::is_resolution(
                r,
                crate::resolver::resolve_role_name(self.app_info.cell_info@, role_name@),
            ),
    {
        crate::resolver::get_cell_id_from_role_name(&self.app_info, role_name)
    }

    /// Builds the unsigned call for `target` at time `now`: resolves the
    /// target, takes the signer's provenance and capability secret for the
    /// cell, and draws a nonce this connection has not used.
    pub fn prepare_zome_call(
        &mut self,
        target: &ZomeCallTarget,
        zome_name: String,
        fn_name: String,
        payload: Vec<u8>,
        now: i64,
    ) -> (r: Result<ZomeCallUnsigned, ConductorApiError>)
        requires
            old(self).well_formed(),
        ensures
            final(self).well_formed(),
            final(self).app_info == old(self).app_info,
            final(self).signer == old(self).signer,
            final(self).my_pub_key == old(self).my_pub_key,
            match early_failure(*old(self), *target) {
                Some(e) => r == Err::<ZomeCallUnsigned, ConductorApiError>(e) && final(self).nonces
                    == old(self).nonces,
                None => match r {
                    Ok(u) => prepared(*old(self), *target, zome_name@, fn_name@, payload@, now, u)
                        && final(self).nonces.used@ == old(self).nonces.used@.push(u.nonce),
                    Err(e) => e is FreshNonceError && final(self).nonces.used@ == old(
                        self,
                    ).nonces.used@,
                },
            },
    {
        let cell_id = match resolve(target, &self.app_info) {
            Ok(c) => c,
            Err(e) => {
                return Err(e);
            },
        };
        let provenance = match self.signer.get_provenance(&cell_id) {
            Some(p) => p,
            None => {
                return Err(ConductorApiError::ProvenanceNotFound);
            },
        };
        let cap_secret = self.signer.get_cap_secret(&cell_id);
        let (nonce, expires_at) = match self.nonces.draw(now) {
            Ok(p) => p,
            Err(e) => {
                return Err(ConductorApiError::FreshNonceError(e));
            },
        };
        Ok(ZomeCallUnsigned { provenance, cell_id, zome_name, fn_name, cap_secret, payload, nonce, expires_at })
    }

    /// Authorizes a call for `target` at time `now`: prepares it and signs
    /// it through the signer, or says what the keystore must sign.
    pub fn call_zome_at(
        &mut self,
        target: &ZomeCallTarget,
        zome_name: String,
        fn_name: String,
        payload: Vec<u8>,
        now: i64,
    ) -> (r: Result<AuthorizeStep, ConductorApiError>)
        requires
            old(self).well_formed(),
        ensures
            final(self).well_formed(),
            final(self).app_info == old(self).app_info,
            final(self).signer == old(self).signer,
            final(self).my_pub_key == old(self).my_pub_key,
            final(self).nonces.used@.len() >= old(self).nonces.used@.len(),
            final(self).nonces.used@.subrange(0, old(self).nonces.used@.len() as int) == old(
                self,
            ).nonces.used@,
            authorize_outcome(
                *old(self),
                final(self).nonces.used@,
                *target,
                zome_name@,
                fn_name@,
                payload@,
                now,
                r,
            ),
    {
        let ghost (z, f, p) = (zome_name@, fn_name@, payload@);
        let unsigned = match self.prepare_zome_call(target, zome_name, fn_name, payload, now) {
            Ok(u) => u,
            Err(e) => {
                return Err(e);
            },
        };
        let ghost u = unsigned;
        let r = sign_zome_call(unsigned, &self.signer);
        proof {
            assert(self.nonces.used@.subrange(0, old(self).nonces.used@.len() as int) =~= old(
                self,
            ).nonces.used@);
            if r is Err {
                assert(prepared(*old(self), *target, z, f, p, now, u));
            }
        }
        r
    }

    /// Authorizes a call for `target` at the current wall-clock time.
    pub fn call_zome(
        &mut self,
        target: &ZomeCallTarget,
        zome_name: String,
        fn_name: String,
        payload: Vec<u8>,
    ) -> (r: Result<AuthorizeStep, ConductorApiError>)
        requires
            old(self).well_formed(),
        ensures
            final(self).well_formed(),
            final(self).app_info == old(self).app_info,
            final(self).signer == old(self).signer,
            final(self).my_pub_key == old(self).my_pub_key,
            final(self).nonces.used@.len() >= old(self).nonces.used@.len(),
            final(self).nonces.used@.subrange(0, old(self).nonces.used@.len() as int) == old(
                self,
            ).nonces.used@,
            exists|now: i64|
                #[trigger] authorize_outcome(
                    *old(self),
                    final(self).nonces.used@,
                    *target,
                    zome_name@,
                    fn_name@,
                    payload@,
                    now,
                    r,
                ),
    {
        let ghost (z, f, p) = (zome_name@, fn_name@, payload@);
        let now = timestamp_now();
        let r = self.call_zome_at(target, zome_name, fn_name, payload, now);
        assert(authorize_outcome(*old(self), self.nonces.used@, *target, z, f, p, now, r));
        r
    }
}

/// Swapping a local signer for a keystore signer that holds the same
/// secret key changes nothing: for the same unsigned call, the call the local
/// signer signs equals the call completed with the keystore's signature over
/// the bytes it was asked to sign.
pub proof fn lemma_signers_interchangeable(
    local: AgentSigner,
    keystore: AgentSigner,
    u: ZomeCallUnsignedView,
    by_local: AuthorizeStep,
    by_keystore: AuthorizeStep,
    keystore_secret: Seq<u8>,
)
    requires
        signed_as(local, u, by_local),
        by_local is Ready,
        signed_as(keystore, u, by_keystore),
        keystore is Lair,
        local matches AgentSigner::Client(s) && s.credentials_for(u.cell_id) matches Some(c)
            && c.keypair@ == keystore_secret,
    ensures
        by_local matches AuthorizeStep::Ready(z) && by_keystore matches AuthorizeStep::AwaitKeystore {
            unsigned,
            data,
            ..
        } && z@ == (ZomeCallView {
            unsigned: unsigned@,
            signature: ed25519_signature_of(keystore_secret, data@),
        }),
{
}

} // verus!
