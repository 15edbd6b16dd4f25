use holochain_client::signing::SignStep;
use holochain_client::zome_call::FRESH_NONCE_EXPIRES_AFTER_MICROS;
use holochain_client::{
    sign_zome_call, AgentSigner, AppInfo, AppWebsocket, AuthorizeStep, CellId, CellInfo, ClientAgentSigner,
    ConductorApiError, KeystoreIdentity, LairAgentSigner, RoleCells, SigningCredentials, ZomeCall,
    ZomeCallTarget,
};
use std::collections::HashSet;

fn hex(s: &str) -> Vec<u8> {
    (0..s.len()).step_by(2).map(|i| u8::from_str_radix(&s[i..i + 2], 16).unwrap()).collect()
}

const RFC_SECRET: &str = "9d61b19deffd5a60ba844af492ec2cc44449c5697b326919703bac031cae7f60";
const RFC_PUBLIC: &str = "d75a980182b10ab7d54bfed3c964073a0ee172f3daa62325af021a68f707511a";
const RFC_EMPTY_SIGNATURE: &str = "e5564300c360ac729086e2cc806e828a84877f1eb8e5d974d873e065224901555fb8821590a33bacc61e39701cf9b46bd25bf5f0595bbe24655141438e7a100b";

fn rfc_secret() -> [u8; 32] {
    hex(RFC_SECRET).try_into().unwrap()
}

fn dna_cell(agent: &[u8]) -> CellId {
    let mut dna = vec![0x84, 0x2d, 0x24];
    dna.extend(std::iter::repeat(7u8).take(36));
    CellId::new(dna, agent.to_vec())
}

fn credentials() -> SigningCredentials {
    SigningCredentials::from_key_material(rfc_secret(), [5u8; 64])
}

fn app_info(cell: &CellId) -> AppInfo {
    AppInfo {
        installed_app_id: "test-app".to_string(),
        agent_pub_key: cell.agent_pub_key.clone(),
        cell_info: vec![RoleCells {
            role_name: "foo".to_string(),
            cells: vec![CellInfo::Provisioned { cell_id: cell.clone() }],
        }],
    }
}

fn client_setup() -> (AppWebsocket, CellId) {
    let creds = credentials();
    let cell = dna_cell(&creds.signing_agent_key);
    let mut signer = ClientAgentSigner::new();
    signer.add_credentials(cell.clone(), creds);
    (AppWebsocket::new(app_info(&cell), AgentSigner::Client(signer)), cell)
}

#[test]
fn credentials_derive_agent_key_from_public_key() {
    let creds = credentials();
    assert_eq!(creds.signing_agent_key.len(), 39);
    assert_eq!(&creds.signing_agent_key[0..3], &[0x84, 0x20, 0x24]);
    assert_eq!(&creds.signing_agent_key[3..35], hex(RFC_PUBLIC).as_slice());
}

#[test]
fn local_signer_signs_with_ed25519() {
    let creds = credentials();
    let cell = dna_cell(&creds.signing_agent_key);
    let key = creds.signing_agent_key.clone();
    let mut client = ClientAgentSigner::new();
    client.add_credentials(cell.clone(), creds);
    let signer = AgentSigner::Client(client);
    match signer.sign(&cell, &key, &Vec::new()).unwrap() {
        SignStep::Signed(sig) => assert_eq!(sig.to_vec(), hex(RFC_EMPTY_SIGNATURE)),
        _ => panic!("expected a signature"),
    }
    let other = dna_cell(&[0u8; 39]);
    assert!(matches!(signer.sign(&other, &key, &Vec::new()), Err(ConductorApiError::SignZomeCallError(_))));
    assert_eq!(signer.get_cap_secret(&cell), Some([5u8; 64]));
    assert_eq!(signer.get_provenance(&cell), Some(key));
    assert_eq!(signer.get_provenance(&other), None);
}

#[test]
fn generated_credentials_differ() {
    let a = SigningCredentials::generate();
    let b = SigningCredentials::generate();
    assert_ne!(a.keypair, b.keypair);
    assert_ne!(a.signing_agent_key, b.signing_agent_key);
}

#[test]
fn expiry_is_now_plus_horizon() {
    let (mut ws, _) = client_setup();
    let now: i64 = 1_700_000_000_000_000;
    let step = ws
        .call_zome_at(&ZomeCallTarget::RoleName("foo".to_string()), "z".to_string(), "f".to_string(), vec![1, 2], now)
        .unwrap();
    let call = match step {
        AuthorizeStep::Ready(c) => c,
        _ => panic!("a local signer signs at once"),
    };
    assert_eq!(call.unsigned.expires_at, now + 300_000_000);
    assert_eq!(FRESH_NONCE_EXPIRES_AFTER_MICROS, 300_000_000);
    assert!(call.unsigned.expires_at > now);
    assert_eq!(call.unsigned.zome_name, "z");
    assert_eq!(call.unsigned.fn_name, "f");
    assert_eq!(call.unsigned.payload, vec![1, 2]);
    assert_eq!(call.unsigned.cap_secret, Some([5u8; 64]));
}

#[test]
fn expiry_overflow_is_a_nonce_error() {
    let (mut ws, _) = client_setup();
    let r = ws.call_zome_at(&ZomeCallTarget::RoleName("foo".to_string()), "z".to_string(), "f".to_string(), vec![], i64::MAX - 5);
    assert!(matches!(r, Err(ConductorApiError::FreshNonceError(_))));
}

#[test]
fn nonces_are_unique_across_many_calls() {
    let (mut ws, cell) = client_setup();
    let mut seen = HashSet::new();
    for _ in 0..1000 {
        let step = ws.call_zome(&ZomeCallTarget::CellId(cell.clone()), "z".to_string(), "f".to_string(), vec![]).unwrap();
        let nonce = match step {
            AuthorizeStep::Ready(c) => c.unsigned.nonce,
            _ => panic!("a local signer signs at once"),
        };
        assert!(seen.insert(nonce));
    }
    assert_eq!(ws.nonces.used.len(), 1000);
}

#[test]
fn signature_covers_the_bytes_to_sign() {
    let (mut ws, _) = client_setup();
    let step = ws
        .call_zome_at(&ZomeCallTarget::RoleName("foo".to_string()), "z".to_string(), "f".to_string(), vec![9], 10)
        .unwrap();
    let call = match step {
        AuthorizeStep::Ready(c) => c,
        _ => panic!("a local signer signs at once"),
    };
    let data = call.unsigned.data_to_sign().unwrap();
    assert_eq!(data.len(), 32);
    let key = ed25519_dalek::SigningKey::from_bytes(&rfc_secret());
    let expected = ed25519_dalek::Signer::sign(&key, &data).to_bytes();
    assert_eq!(call.signature, expected);
}

#[test]
fn missing_provenance_and_role() {
    let (mut ws, _) = client_setup();
    let stranger = dna_cell(&[1u8; 39]);
    let r = ws.call_zome_at(&ZomeCallTarget::CellId(stranger), "z".to_string(), "f".to_string(), vec![], 0);
    assert!(matches!(r, Err(ConductorApiError::ProvenanceNotFound)));
    let r = ws.call_zome_at(&ZomeCallTarget::RoleName("bar".to_string()), "z".to_string(), "f".to_string(), vec![], 0);
    assert!(matches!(r, Err(ConductorApiError::RoleNotFound)));
    assert_eq!(ws.nonces.used.len(), 0);
}

#[test]
fn malformed_hash_cannot_be_signed() {
    let creds = credentials();
    let cell = CellId::new(vec![1, 2, 3], creds.signing_agent_key.clone());
    let mut client = ClientAgentSigner::new();
    client.add_credentials(cell.clone(), creds);
    let mut ws = AppWebsocket::new(app_info(&cell), AgentSigner::Client(client));
    let r = ws.call_zome_at(&ZomeCallTarget::CellId(cell), "z".to_string(), "f".to_string(), vec![], 0);
    assert!(matches!(r, Err(ConductorApiError::SignZomeCallError(_))));
}

#[test]
fn keystore_and_local_signers_agree() {
    let creds = credentials();
    let key = creds.signing_agent_key.clone();
    let cell = dna_cell(&key);
    let mut client = ClientAgentSigner::new();
    client.add_credentials(cell.clone(), creds);
    let local = AgentSigner::Client(client);
    let mut lair = LairAgentSigner::new();
    lair.add_identity(cell.clone(), KeystoreIdentity { agent_key: key.clone(), cap_secret: [5u8; 64] });
    let keystore = AgentSigner::Lair(lair);

    let mut ws_local = AppWebsocket::new(app_info(&cell), local);
    let unsigned = ws_local
        .prepare_zome_call(&ZomeCallTarget::RoleName("foo".to_string()), "z".to_string(), "f".to_string(), vec![3], 42)
        .unwrap();
    let twin = holochain_client::ZomeCallUnsigned {
        provenance: unsigned.provenance.clone(),
        cell_id: unsigned.cell_id.clone(),
        zome_name: unsigned.zome_name.clone(),
        fn_name: unsigned.fn_name.clone(),
        cap_secret: unsigned.cap_secret,
        payload: unsigned.payload.clone(),
        nonce: unsigned.nonce,
        expires_at: unsigned.expires_at,
    };
    let by_local = match sign_zome_call(unsigned, &ws_local.signer).unwrap() {
        AuthorizeStep::Ready(c) => c,
        _ => panic!("a local signer signs at once"),
    };
    let by_keystore = match sign_zome_call(twin, &keystore).unwrap() {
        AuthorizeStep::AwaitKeystore { unsigned, public_key, data } => {
            assert_eq!(public_key, key[3..35].to_vec());
            let signing_key = ed25519_dalek::SigningKey::from_bytes(&rfc_secret());
            assert_eq!(signing_key.verifying_key().to_bytes().to_vec(), public_key);
            let reply = ed25519_dalek::Signer::sign(&signing_key, &data).to_bytes();
            ZomeCall::from_unsigned(unsigned, reply)
        }
        _ => panic!("a keystore signer delegates"),
    };
    assert_eq!(by_local.signature, by_keystore.signature);
    assert_eq!(by_local.unsigned.nonce, by_keystore.unsigned.nonce);
    assert_eq!(by_local.unsigned.provenance, by_keystore.unsigned.provenance);
    assert_eq!(by_local.unsigned.cap_secret, by_keystore.unsigned.cap_secret);
}

#[test]
fn credentials_replace_earlier_ones() {
    let creds = credentials();
    let cell = dna_cell(&creds.signing_agent_key);
    let mut client = ClientAgentSigner::new();
    client.add_credentials(cell.clone(), SigningCredentials::from_key_material([1u8; 32], [1u8; 64]));
    client.add_credentials(cell.clone(), creds);
    let signer = AgentSigner::Client(client);
    assert_eq!(signer.get_cap_secret(&cell), Some([5u8; 64]));
}

#[test]
fn sign_with_data_uses_the_given_bytes() {
    let creds = credentials();
    let key = creds.signing_agent_key.clone();
    let cell = dna_cell(&key);
    let mut client = ClientAgentSigner::new();
    client.add_credentials(cell.clone(), creds);
    let unsigned = holochain_client::ZomeCallUnsigned {
        provenance: key.clone(),
        cell_id: cell.clone(),
        zome_name: "z".to_string(),
        fn_name: "f".to_string(),
        cap_secret: None,
        payload: vec![],
        nonce: [0u8; 32],
        expires_at: 0,
    };
    match holochain_client::sign_with_data(unsigned, Vec::new(), &AgentSigner::Client(client)).unwrap() {
        AuthorizeStep::Ready(call) => assert_eq!(call.signature.to_vec(), hex(RFC_EMPTY_SIGNATURE)),
        _ => panic!("a local signer signs at once"),
    }
    let short = holochain_client::ZomeCallUnsigned {
        provenance: vec![1, 2, 3],
        cell_id: cell,
        zome_name: "z".to_string(),
        fn_name: "f".to_string(),
        cap_secret: None,
        payload: vec![],
        nonce: [0u8; 32],
        expires_at: 0,
    };
    let r = holochain_client::sign_with_data(short, vec![1], &AgentSigner::Lair(LairAgentSigner::new()));
    assert!(matches!(r, Err(ConductorApiError::SignZomeCallError(_))));
}

#[test]
fn ledger_records_each_nonce_once() {
    let mut ledger = holochain_client::NonceLedger::new();
    assert!(ledger.record([1u8; 32]));
    assert!(ledger.record([2u8; 32]));
    assert!(!ledger.record([1u8; 32]));
    assert_eq!(ledger.used, vec![[1u8; 32], [2u8; 32]]);
    assert!(ledger.contains(&[2u8; 32]));
    assert!(!ledger.contains(&[3u8; 32]));
}

#[test]
fn foreign_hash_prefix_cannot_be_signed() {
    let creds = credentials();
    let key = creds.signing_agent_key.clone();
    // a full-length hash whose prefix is that of an agent key, not of a DNA
    let cell = CellId::new(key.clone(), key.clone());
    let mut client = ClientAgentSigner::new();
    client.add_credentials(cell.clone(), creds);
    let unsigned = holochain_client::ZomeCallUnsigned {
        provenance: key,
        cell_id: cell,
        zome_name: "z".to_string(),
        fn_name: "f".to_string(),
        cap_secret: None,
        payload: vec![],
        nonce: [0u8; 32],
        expires_at: 0,
    };
    assert!(unsigned.data_to_sign().is_none());
    let r = sign_zome_call(unsigned, &AgentSigner::Client(client));
    assert!(matches!(r, Err(ConductorApiError::SignZomeCallError(_))));
}

#[test]
fn failed_signing_still_uses_the_nonce() {
    let creds = credentials();
    let key = creds.signing_agent_key.clone();
    let cell = CellId::new(key.clone(), key);
    let mut client = ClientAgentSigner::new();
    client.add_credentials(cell.clone(), creds);
    let mut ws = AppWebsocket::new(app_info(&cell), AgentSigner::Client(client));
    let r = ws.call_zome_at(&ZomeCallTarget::CellId(cell), "z".to_string(), "f".to_string(), vec![], 0);
    assert!(matches!(r, Err(ConductorApiError::SignZomeCallError(_))));
    assert_eq!(ws.nonces.used.len(), 1);
}
