use vstd::prelude::*;
use holo_hash::{AgentPubKey, DnaHash};
use holochain_zome_types::prelude::{CapSecret, ExternIO, FunctionName};
use holochain_zome_types::prelude::CellId as HostCellId;
use holochain_zome_types::prelude::ZomeCallUnsigned as HostZomeCallUnsigned;
use holochain_zome_types::timestamp::Timestamp;
use crate::types::{CellId, HASH_LEN};

verus! {

/// How long after its creation a call stays valid, in microseconds (five
/// minutes), as the nonce source sets it.
pub const FRESH_NONCE_EXPIRES_AFTER_MICROS: i64 = 300_000_000;

/// How many nonces are drawn at most before a call is given up.
pub const NONCE_ATTEMPTS: usize = 4;

/// The abstract content of an unsigned call.
pub struct ZomeCallUnsignedView {
    pub provenance: Seq<u8>,
    pub cell_id: (Seq<u8>, Seq<u8>),
    pub zome_name: Seq<char>,
    pub fn_name: Seq<char>,
    pub cap_secret: Option<Seq<u8>>,
    pub payload: Seq<u8>,
    pub nonce: Seq<u8>,
    pub expires_at: i64,
}

/// The bytes that are signed for a call: the hash of its canonical encoding.
pub uninterp spec fn zome_call_digest_of(call: ZomeCallUnsignedView) -> Seq<u8>;

/// Whether a call's canonical encoding can be made: its hashes carry the
/// prefixes of their types and the encoding succeeds.
pub uninterp spec fn zome_call_signable(call: ZomeCallUnsignedView) -> bool;

/// A call before it is signed: who calls, which function of which cell,
/// with what payload and capability secret, and its freshness fields.
pub struct ZomeCallUnsigned {
    pub provenance: Vec<u8>,
    pub cell_id: CellId,
    pub zome_name: String,
    pub fn_name: String,
    pub cap_secret: Option<[u8; 64]>,
    pub payload: Vec<u8>,
    pub nonce: [u8; 32],
    pub expires_at: i64,
}

pub open spec fn cap_secret_view(c: Option<[u8; 64]>) -> Option<Seq<u8>> {
    match c {
        Some(s) => Some(s@),
        None => None,
    }
}

impl View for ZomeCallUnsigned {
    type V = ZomeCallUnsignedView;

    open spec fn view(&self) -> ZomeCallUnsignedView {
        ZomeCallUnsignedView {
            provenance: self.provenance@,
            cell_id: self.cell_id@,
            zome_name: self.zome_name@,
            fn_name: self.fn_name@,
            cap_secret: cap_secret_view(self.cap_secret),
            payload: self.payload@,
            nonce: self.nonce@,
            expires_at: self.expires_at,
        }
    }
}

/// Relies on holochain_zome_types' `ZomeCallUnsigned::data_to_sign`: the
/// BLAKE2b-256 hash of the call's canonical encoding, 32 bytes. `None` where
/// the encoding fails or a hash carries a prefix of another hash type; which
/// of the two comes depends on the call alone.
#[verifier::external_body]
fn data_to_sign(c: &ZomeCallUnsigned) -> (r: Option<Vec<u8>>)
    requires
        c.provenance@.len() == HASH_LEN,
        c.cell_id.well_formed(),
    ensures
        r is Some <==> zome_call_signable(c@),
        r matches Some(d) ==> d@ == zome_call_digest_of(c@) && d@.len() == 32,
{
    let dna = DnaHash::from_raw_39(c.cell_id.dna_hash.clone()).ok()?;
    let agent = AgentPubKey::from_raw_39(c.cell_id.agent_pub_key.clone()).ok()?;
    HostZomeCallUnsigned {
        provenance: AgentPubKey::from_raw_39(c.provenance.clone()).ok()?,
        cell_id: HostCellId::new(dna, agent),
        zome_name: c.zome_name.clone().into(),
        fn_name: FunctionName(c.fn_name.clone()),
        cap_secret: c.cap_secret.map(CapSecret::from),
        payload: ExternIO(c.payload.clone()),
        nonce: c.nonce.into(),
        expires_at: Timestamp(c.expires_at),
    }.data_to_sign().ok().map(|d| d.to_vec())
}

/// Relies on holochain_nonce's `fresh_nonce`: 32 bytes from the operating
/// system's random source, and the expiry `now` plus five minutes. It fails
/// when the random source fails or the expiry overflows.
#[verifier::external_body]
fn fresh_nonce(now: i64) -> (r: Result<([u8; 32], i64), String>)
    ensures
        r matches Ok(p) ==> p.1 == now + FRESH_NONCE_EXPIRES_AFTER_MICROS,
        now + FRESH_NONCE_EXPIRES_AFTER_MICROS > i64::MAX ==> r is Err,
{
    let (nonce, expires) = holochain_nonce::fresh_nonce(Timestamp(now)).map_err(|e| e.to_string())?;
    Ok((nonce.into_inner(), expires.as_micros()))
}

/// Relies on kitsune_p2p_timestamp's `Timestamp::now`: the wall-clock time
/// in microseconds since the UNIX epoch.
#[verifier::external_body]
pub(crate) fn timestamp_now() -> (r: i64) {
    Timestamp::now().as_micros()
}

/// Whether the bytes to sign can be computed for `c`: its hashes are full
/// hashes of their types and it can be encoded.
pub open spec fn signable(c: ZomeCallUnsigned) -> bool {
    c.provenance@.len() == HASH_LEN && c.cell_id.well_formed() && zome_call_signable(c@)
}

impl ZomeCallUnsigned {
    /// The bytes to sign for this call, where its hashes are well formed and
    /// it can be encoded.
    pub fn data_to_sign(&self) -> (r: Option<Vec<u8>>)
        ensures
            r matches Some(d) ==> d@ == zome_call_digest_of(self@) && d@.len() == 32,
            r is Some <==> signable(*self),
    {
        if self.provenance.len() != HASH_LEN || self.cell_id.dna_hash.len() != HASH_LEN
            || self.cell_id.agent_pub_key.len() != HASH_LEN {
            return None;
        }
        data_to_sign(self)
    }
}

/// The abstract content of a signed call.
pub struct ZomeCallView {
    pub unsigned: ZomeCallUnsignedView,
    pub signature: Seq<u8>,
}

/// A signed call: an unsigned call and the signature over its bytes to sign.
pub struct ZomeCall {
    pub unsigned: ZomeCallUnsigned,
    pub signature: [u8; 64],
}

impl View for ZomeCall {
    type V = ZomeCallView;

    open spec fn view(&self) -> ZomeCallView {
        ZomeCallView { unsigned: self.unsigned@, signature: self.signature@ }
    }
}

impl ZomeCall {
    /// Attaches a signature to an unsigned call.
    pub fn from_unsigned(unsigned: ZomeCallUnsigned, signature: [u8; 64]) -> (r: ZomeCall)
        ensures
            r.unsigned == unsigned,
            r.signature == signature,
            r@ == (ZomeCallView { unsigned: unsigned@, signature: signature@ }),
    {
        ZomeCall { unsigned, signature }
    }
}

/// The nonces a signer has used, so that none is used twice.
pub struct NonceLedger {
    pub used: Vec<[u8; 32]>,
}

impl NonceLedger {
    /// Whether `n` has been used.
    pub open spec fn holds(&self, n: Seq<u8>) -> bool {
        exists|i: int| 0 <= i < self.used@.len() && (#[trigger] self.used@[i])@ == n
    }

    /// No nonce stands twice.
    pub open spec fn well_formed(&self) -> bool {
        forall|i: int, j: int|
            0 <= i < j < self.used@.len() ==> (#[trigger] self.used@[i])@ != (
            #[trigger] self.used@[j])@
    }

    pub fn new() -> (r: NonceLedger)
        ensures
            r.used@.len() == 0,
            r.well_formed(),
    {
        NonceLedger { used: Vec::new() }
    }

    pub fn contains(&self, n: &[u8; 32]) -> (r: bool)
        ensures
            r == self.holds(n@),
    {
        let mut i: usize = 0;
        while i < self.used.len()
            invariant
                i <= self.used@.len(),
                forall|k: int| 0 <= k < i ==> (#[trigger] self.used@[k])@ != n@,
            decreases self.used@.len() - i,
        {
            if crate::types::bytes_equal(self.used[i].as_slice(), n.as_slice()) {
                return true;
            }
            i = i + 1;
        }
        false
    }

    /// Records `n` as used, unless it already is; whether it was new.
    pub fn record(&mut self, n: [u8; 32]) -> (r: bool)
        requires
            old(self).well_formed(),
        ensures
            final(self).well_formed(),
            r == !old(self).holds(n@),
            r ==> final(self).used@ == old(self).used@.push(n),
            !r ==> final(self).used@ == old(self).used@,
    {
        if self.contains(&n) {
            return false;
        }
        let ghost before = self.used@;
        self.used.push(n);
        assert(self.used@[before.len() as int] == n);
        assert forall|i: int, j: int| 0 <= i < j < self.used@.len() implies (
        #[trigger] self.used@[i])@ != (#[trigger] self.used@[j])@ by {
            if j == before.len() {
                assert(before[i] == self.used@[i]);
            } else {
                assert(before[i] == self.used@[i] && before[j] == self.used@[j]);
            }
        }
        true
    }

    /// Draws a nonce that this ledger has not seen, records it, and returns
    /// it with its expiry. The expiry is `now` plus the nonce horizon.
    pub fn draw(&mut self, now: i64) -> (r: Result<([u8; 32], i64), String>)
        requires
            old(self).well_formed(),
        ensures
            final(self).well_formed(),
            match r {
                Ok((n, expires)) => {
                    &&& !old(self).holds(n@)
                    &&& final(self).used@ == old(self).used@.push(n)
                    &&& expires == now + FRESH_NONCE_EXPIRES_AFTER_MICROS
                },
                Err(_) => final(self).used@ == old(self).used@,
            },
    {
        let mut attempt: usize = 0;
        while attempt < NONCE_ATTEMPTS
            invariant
                self.used@ == old(self).used@,
                self.well_formed(),
            decreases NONCE_ATTEMPTS - attempt,
        {
            match fresh_nonce(now) {
                Err(e) => {
                    return Err(e);
                },
                Ok((n, expires)) => {
                    if self.record(n) {
                        return Ok((n, expires));
                    }
                },
            }
            attempt = attempt + 1;
        }
        Err("every nonce drawn had been used".to_owned())
    }
}

} // verus!
