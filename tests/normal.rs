use parsec_core::auth::{AUTH_DIRECT, AUTH_NONE};
use parsec_core::dispatch::{dispatch, CoreResult, Dispatched, RequestHeader};
use parsec_core::registry::{AuthType, Opcode, ProviderId};
use parsec_core::session::{Action, Context, KeyAttributes, RemoteCall, RemoteReply};
use parsec_core::status::{RemoteError, Status};
use parsec_core::store::{KeyInfoStore, KeyRecord, KeyTriple};
use parsec_core::trusted_service::{
    destroy_key_finish, destroy_key_start, generate_key_finish, generate_key_start,
    psa_asymmetric_decrypt_internal, psa_asymmetric_encrypt_internal, AsymmetricOperation,
};
use std::collections::{HashMap, HashSet};

fn uuid(s: &str) -> u128 {
    u128::from_str_radix(&s.replace('-', ""), 16).unwrap()
}

fn header(provider: u8, opcode: Opcode, auth_type: u8) -> RequestHeader {
    RequestHeader { version_maj: 1, version_min: 0, provider, opcode: opcode_code(opcode), auth_type }
}

fn opcode_code(o: Opcode) -> u32 {
    match o {
        Opcode::Ping => 0x01,
        Opcode::PsaGenerateKey => 0x02,
        Opcode::PsaDestroyKey => 0x03,
        Opcode::ListProviders => 0x08,
        Opcode::ListOpcodes => 0x09,
        Opcode::ListAuthenticators => 0x0E,
        Opcode::ListKeys => 0x1A,
        Opcode::ListClients => 0x1B,
        Opcode::DeleteClient => 0x1C,
        _ => panic!("no code needed"),
    }
}

/// A remote partition held in memory, counting the calls it receives.
struct Partition {
    keys: HashSet<u32>,
    locked: HashSet<u32>,
    open: HashMap<u32, u32>,
    next: u32,
    destroy_calls: usize,
}

impl Partition {
    fn new() -> Partition {
        Partition { keys: HashSet::new(), locked: HashSet::new(), open: HashMap::new(), next: 100, destroy_calls: 0 }
    }

    fn grant(&mut self, id: u32) -> RemoteReply {
        let h = self.next;
        self.next += 1;
        self.open.insert(h, id);
        RemoteReply::Handle(h)
    }

    fn serve(&mut self, call: RemoteCall) -> RemoteReply {
        match call {
            RemoteCall::GenerateKey(w) => {
                if self.keys.contains(&w.id) {
                    RemoteReply::Failed(RemoteError::AlreadyExists)
                } else {
                    self.keys.insert(w.id);
                    self.grant(w.id)
                }
            }
            RemoteCall::OpenKey(id) => {
                if self.keys.contains(&id) {
                    self.grant(id)
                } else {
                    RemoteReply::Failed(RemoteError::DoesNotExist)
                }
            }
            RemoteCall::CloseKey(h) => match self.open.remove(&h) {
                Some(_) => RemoteReply::Done,
                None => RemoteReply::Failed(RemoteError::Other(-136)),
            },
            RemoteCall::DestroyKey(h) => {
                self.destroy_calls += 1;
                if self.open.get(&h).map_or(false, |id| self.locked.contains(id)) {
                    return RemoteReply::Failed(RemoteError::Other(-133));
                }
                match self.open.remove(&h) {
                    Some(id) => {
                        self.keys.remove(&id);
                        RemoteReply::Done
                    }
                    None => RemoteReply::Failed(RemoteError::Other(-136)),
                }
            }
        }
    }
}

fn drive(mut ctx: Context, mut call: RemoteCall, p: &mut Partition) -> Action {
    loop {
        let reply = p.serve(call);
        match ctx.next(reply) {
            Action::Send(c) => call = c,
            a => return a,
        }
    }
}

fn attrs() -> KeyAttributes {
    KeyAttributes { key_type: 0x7001, bits: 1024, usage_flags: 0x0000_3000, permitted_algorithms: 0x0600_0209 }
}

fn generate_ts(store: &mut KeyInfoStore, p: &mut Partition, app: &str, name: &str, id: u32) -> Result<(), Status> {
    let (op, call) = generate_key_start(store, app.to_string(), name.to_string(), attrs(), id)?;
    let ctx = op.context;
    let outcome = drive(ctx, call, p);
    generate_key_finish(store, op, outcome)
}

/// A backend that keeps its keys locally records them directly once made.
fn generate_local(store: &mut KeyInfoStore, app: &str, provider: ProviderId, name: &str, id: u32) -> Result<(), Status> {
    store.insert(
        KeyTriple::new(app.to_string(), provider, name.to_string()),
        KeyRecord { id, attributes: attrs() },
    )
}

fn generate_on(store: &mut KeyInfoStore, p: &mut Partition, app: &str, provider: ProviderId, name: &str, id: u32) -> Result<(), Status> {
    if provider == ProviderId::TrustedService {
        generate_ts(store, p, app, name, id)
    } else {
        generate_local(store, app, provider, name, id)
    }
}

fn list_providers_via(store: &mut KeyInfoStore) -> Vec<parsec_core::registry::ProviderInfo> {
    match dispatch(store, header(0, Opcode::ListProviders, AUTH_NONE), &vec![], &vec![]) {
        Dispatched::Answered(CoreResult::Providers(v)) => v,
        _ => panic!("list providers failed"),
    }
}

fn list_opcodes_via(store: &mut KeyInfoStore, p: ProviderId) -> HashSet<Opcode> {
    match dispatch(store, header(0, Opcode::ListOpcodes, AUTH_NONE), &vec![], &vec![p.code()]) {
        Dispatched::Answered(CoreResult::Opcodes(v)) => v.into_iter().collect(),
        _ => panic!("list providers failed"),
    }
}

fn list_keys_via(store: &mut KeyInfoStore, app: &str) -> Vec<(String, ProviderId)> {
    match dispatch(store, header(0, Opcode::ListKeys, AUTH_DIRECT), &app.as_bytes().to_vec(), &vec![]) {
        Dispatched::Answered(CoreResult::Keys(v)) => v,
        _ => panic!("list_keys failed"),
    }
}

fn list_clients_via(store: &mut KeyInfoStore, app: &str) -> Vec<String> {
    match dispatch(store, header(0, Opcode::ListClients, AUTH_DIRECT), &app.as_bytes().to_vec(), &vec![]) {
        Dispatched::Answered(CoreResult::Clients(v)) => v,
        _ => panic!("list_clients failed"),
    }
}

fn delete_client_via(store: &mut KeyInfoStore, p: &mut Partition, admin: &str, client: &str) -> Result<(), Status> {
    let (app_name, keys) = match dispatch(
        store,
        header(0, Opcode::DeleteClient, AUTH_DIRECT),
        &admin.as_bytes().to_vec(),
        &client.as_bytes().to_vec(),
    ) {
        Dispatched::DeleteKeys { app_name, keys } => (app_name, keys),
        Dispatched::Failed(s) => return Err(s),
        _ => panic!("unexpected answer"),
    };
    for (key_name, provider) in keys {
        if provider == ProviderId::TrustedService {
            destroy_ts(store, p, &app_name, &key_name)?;
        } else {
            store.remove(&KeyTriple::new(app_name.clone(), provider, key_name))?;
        }
    }
    Ok(())
}

fn supports_generate(store: &mut KeyInfoStore, p: ProviderId) -> bool {
    list_opcodes_via(store, p).contains(&Opcode::PsaGenerateKey)
}

#[test]
fn list_providers() {
    let mut store = KeyInfoStore::new();
    let providers = list_providers_via(&mut store);
    assert_eq!(providers.len(), 6);
    let uuids: HashSet<u128> = providers.iter().map(|p| p.uuid).collect();
    assert!(uuids.contains(&uuid("47049873-2a43-4845-9d72-831eab668784")));
    assert!(uuids.contains(&uuid("1c1139dc-ad7c-47dc-ad6b-db6fdb466552")));
    assert!(uuids.contains(&uuid("30e39502-eba6-4d60-a4af-c518b7f5e38f")));
    assert!(uuids.contains(&uuid("1e4954a4-ff21-46d3-ab0c-661eeb667e1d")));
    assert!(uuids.contains(&uuid("b8ba81e2-e9f7-4bdd-b096-a29d0019960c")));
    assert!(uuids.contains(&uuid("71129441-508a-4da6-b6e8-7b98a777e4c0")));
}

#[test]
fn list_providers_order_respected() {
    let mut store = KeyInfoStore::new();
    let providers = list_providers_via(&mut store);
    assert_eq!(providers[0].uuid, uuid("1c1139dc-ad7c-47dc-ad6b-db6fdb466552"));
    assert_eq!(providers[1].uuid, uuid("1e4954a4-ff21-46d3-ab0c-661eeb667e1d"));
    assert_eq!(providers[2].uuid, uuid("71129441-508a-4da6-b6e8-7b98a777e4c0"));
    assert_eq!(providers[3].uuid, uuid("30e39502-eba6-4d60-a4af-c518b7f5e38f"));
    assert_eq!(providers[4].uuid, uuid("b8ba81e2-e9f7-4bdd-b096-a29d0019960c"));
    assert_eq!(providers[5].uuid, uuid("47049873-2a43-4845-9d72-831eab668784"));
}

#[test]
fn list_authenticators() {
    let mut store = KeyInfoStore::new();
    let authenticators = match dispatch(&mut store, header(0, Opcode::ListAuthenticators, AUTH_NONE), &vec![], &vec![]) {
        Dispatched::Answered(CoreResult::Authenticators(v)) => v,
        _ => panic!("list authenticators failed"),
    };
    assert_eq!(authenticators.len(), 1);
    let ids: HashSet<AuthType> = authenticators.into_iter().collect();
    assert!(ids.contains(&AuthType::Direct));
}

#[test]
fn list_opcodes() {
    let mut store = KeyInfoStore::new();
    let mut crypto_providers_hsm = HashSet::new();
    let mut core_provider_opcodes = HashSet::new();
    let mut crypto_providers_cal = HashSet::new();
    let mut crypto_ts_provider = HashSet::new();

    let _ = crypto_providers_hsm.insert(Opcode::PsaGenerateKey);
    let _ = crypto_providers_hsm.insert(Opcode::PsaDestroyKey);
    let _ = crypto_providers_hsm.insert(Opcode::PsaSignHash);
    let _ = crypto_providers_hsm.insert(Opcode::PsaVerifyHash);
    let _ = crypto_providers_hsm.insert(Opcode::PsaImportKey);
    let _ = crypto_providers_hsm.insert(Opcode::PsaExportPublicKey);
    let _ = crypto_providers_hsm.insert(Opcode::PsaAsymmetricDecrypt);
    let _ = crypto_providers_hsm.insert(Opcode::PsaAsymmetricEncrypt);

    let crypto_providers_tpm = crypto_providers_hsm.clone();

    let mut crypto_providers_mbed_crypto = crypto_providers_tpm.clone();
    let _ = crypto_providers_mbed_crypto.insert(Opcode::PsaHashCompute);
    let _ = crypto_providers_mbed_crypto.insert(Opcode::PsaHashCompare);
    let _ = crypto_providers_mbed_crypto.insert(Opcode::PsaRawKeyAgreement);
    let _ = crypto_providers_mbed_crypto.insert(Opcode::PsaAeadEncrypt);
    let _ = crypto_providers_mbed_crypto.insert(Opcode::PsaAeadDecrypt);
    let _ = crypto_providers_mbed_crypto.insert(Opcode::PsaExportKey);
    let _ = crypto_providers_mbed_crypto.insert(Opcode::PsaGenerateRandom);

    let _ = crypto_ts_provider.insert(Opcode::PsaGenerateKey);
    let _ = crypto_ts_provider.insert(Opcode::PsaDestroyKey);
    let _ = crypto_ts_provider.insert(Opcode::PsaSignHash);
    let _ = crypto_ts_provider.insert(Opcode::PsaVerifyHash);
    let _ = crypto_ts_provider.insert(Opcode::PsaImportKey);
    let _ = crypto_ts_provider.insert(Opcode::PsaExportPublicKey);
    let _ = crypto_ts_provider.insert(Opcode::PsaAsymmetricEncrypt);
    let _ = crypto_ts_provider.insert(Opcode::PsaAsymmetricDecrypt);

    let _ = core_provider_opcodes.insert(Opcode::Ping);
    let _ = core_provider_opcodes.insert(Opcode::ListProviders);
    let _ = core_provider_opcodes.insert(Opcode::ListAuthenticators);
    let _ = core_provider_opcodes.insert(Opcode::ListOpcodes);
    let _ = core_provider_opcodes.insert(Opcode::ListKeys);

    let _ = crypto_providers_cal.insert(Opcode::PsaGenerateRandom);

    assert_eq!(list_opcodes_via(&mut store, ProviderId::Core), core_provider_opcodes);
    assert_eq!(list_opcodes_via(&mut store, ProviderId::Tpm), crypto_providers_tpm);
    assert_eq!(list_opcodes_via(&mut store, ProviderId::Pkcs11), crypto_providers_hsm);
    assert_eq!(list_opcodes_via(&mut store, ProviderId::MbedCrypto), crypto_providers_mbed_crypto);
    assert_eq!(list_opcodes_via(&mut store, ProviderId::CryptoAuthLib), crypto_providers_cal);
    assert_eq!(list_opcodes_via(&mut store, ProviderId::TrustedService), crypto_ts_provider);
}

#[test]
fn mangled_list_providers() {
    let mut store = KeyInfoStore::new();
    let body = vec![0x11, 0x22, 0x33, 0x44, 0x55];
    let resp = dispatch(&mut store, header(0, Opcode::ListProviders, AUTH_NONE), &vec![], &body);
    assert!(matches!(resp, Dispatched::Failed(Status::MalformedBody)));
}

#[test]
fn sign_verify_with_provider_discovery() -> Result<(), Status> {
    let mut store = KeyInfoStore::new();
    let mut partition = Partition::new();
    let key_name = String::from("sign_verify_with_provider_discovery");
    let providers = list_providers_via(&mut store);
    let provider = providers
        .iter()
        .map(|p| p.id)
        .find(|p| *p == ProviderId::TrustedService)
        .unwrap();
    let app = match dispatch(&mut store, header(provider.code(), Opcode::PsaGenerateKey, AUTH_DIRECT), &b"client".to_vec(), &vec![]) {
        Dispatched::Forward { app_name, .. } => app_name,
        _ => panic!("not forwarded"),
    };
    generate_ts(&mut store, &mut partition, &app, &key_name, 1)
}

#[test]
fn list_keys() {
    let mut store = KeyInfoStore::new();
    let mut partition = Partition::new();
    let app = "list_keys test";
    let keys = list_keys_via(&mut store, app);
    assert!(keys.is_empty());

    let providers = list_providers_via(&mut store);
    let mut suitable_providers = vec![];
    let mut id = 1;
    for provider in providers.iter() {
        if !supports_generate(&mut store, provider.id) {
            continue;
        }
        suitable_providers.push(*provider);
        generate_on(&mut store, &mut partition, app, provider.id, &format!("list_keys_{:?}", provider.id), id).unwrap();
        id += 1;
    }

    let key_names = list_keys_via(&mut store, app);
    assert_eq!(key_names.len(), suitable_providers.len());
    for provider in suitable_providers.iter() {
        assert!(key_names.contains(&(format!("list_keys_{:?}", provider.id), provider.id)));
    }
}

#[test]
fn invalid_provider_list_keys() {
    let mut store = KeyInfoStore::new();
    let resp = dispatch(&mut store, header(0x1, Opcode::ListKeys, AUTH_NONE), &vec![], &vec![]);
    assert!(matches!(resp, Dispatched::Failed(Status::OperationNotSupported)));
}

#[test]
fn invalid_provider_list_clients() {
    let mut store = KeyInfoStore::new();
    let resp = dispatch(&mut store, header(0x1, Opcode::ListClients, AUTH_NONE), &vec![], &vec![]);
    assert!(matches!(resp, Dispatched::Failed(Status::OperationNotSupported)));
}

#[test]
fn list_and_delete_clients() {
    let mut store = KeyInfoStore::new();
    let mut partition = Partition::new();
    let all_providers_user = "list_clients test".to_string();

    let clients = list_clients_via(&mut store, &all_providers_user);
    assert!(!clients.contains(&all_providers_user));

    let providers = list_providers_via(&mut store);
    let mut suitable_providers = vec![];
    let mut id = 1;
    for provider in providers.iter() {
        if !supports_generate(&mut store, provider.id) {
            continue;
        }
        suitable_providers.push(*provider);
        generate_on(&mut store, &mut partition, &all_providers_user, provider.id, "all-providers-user-key", id).unwrap();
        let user = format!("user_{:?}", provider.id);
        generate_on(&mut store, &mut partition, &user, provider.id, &format!("user_{:?}-key", provider.id), id + 1).unwrap();
        id += 2;
    }

    let clients = list_clients_via(&mut store, &all_providers_user);
    assert!(clients.contains(&all_providers_user));
    delete_client_via(&mut store, &mut partition, &all_providers_user, &all_providers_user).unwrap();

    for provider in suitable_providers.iter() {
        let username = format!("user_{:?}", provider.id);
        assert!(clients.contains(&username));
        delete_client_via(&mut store, &mut partition, &all_providers_user, &username).unwrap();
    }

    let keys = list_keys_via(&mut store, &all_providers_user);
    assert!(keys.is_empty());
}

#[test]
fn get_and_use_provider_id() {
    let mut store = KeyInfoStore::new();
    let providers: Vec<ProviderId> = list_providers_via(&mut store)
        .into_iter()
        .map(|v| v.id)
        .filter(|v| *v != ProviderId::Core)
        .collect();
    for provider in providers {
        let error = match dispatch(&mut store, header(provider.code(), Opcode::PsaDestroyKey, AUTH_DIRECT), &b"client".to_vec(), &vec![]) {
            Dispatched::Forward { app_name, provider, .. } => {
                if provider == ProviderId::TrustedService {
                    destroy_key_start(&store, app_name, "this_key_does_not_exist".to_string()).err().unwrap()
                } else {
                    store
                        .lookup(&KeyTriple::new(app_name, provider, "this_key_does_not_exist".to_string()))
                        .err()
                        .unwrap()
                }
            }
            Dispatched::Failed(s) => s,
            _ => panic!("answered by the core"),
        };
        if error == Status::ProviderNotFound {
            panic!("Was expecting {:?} but got {:?}", Status::ProviderNotFound, error);
        }
    }
}

fn destroy_ts(store: &mut KeyInfoStore, p: &mut Partition, app: &str, name: &str) -> Result<(), Status> {
    let (op, call) = destroy_key_start(store, app.to_string(), name.to_string())?;
    let ctx = op.context;
    let outcome = drive(ctx, call, p);
    destroy_key_finish(store, op, outcome)
}

fn probe(p: &mut Partition, id: u32) -> Action {
    let (ctx, call) = Context::check_key_exists(id);
    drive(ctx, call, p)
}

fn generate_remote(p: &mut Partition, id: u32) -> Action {
    let (ctx, call) = Context::generate_key(&attrs(), id).unwrap();
    drive(ctx, call, p)
}

fn destroy_remote(p: &mut Partition, id: u32) -> Action {
    let (ctx, call) = Context::destroy_key(id);
    drive(ctx, call, p)
}

#[test]
fn capability_sets_are_declared_and_fixed() {
    let all = [
        ProviderId::Core,
        ProviderId::MbedCrypto,
        ProviderId::Pkcs11,
        ProviderId::Tpm,
        ProviderId::TrustedService,
        ProviderId::CryptoAuthLib,
    ];
    for p in all {
        assert_eq!(parsec_core::registry::list_opcodes(p), parsec_core::registry::list_opcodes(p));
    }
    assert_eq!(parsec_core::registry::list_opcodes(ProviderId::CryptoAuthLib), vec![Opcode::PsaGenerateRandom]);
    assert_eq!(parsec_core::registry::list_opcodes(ProviderId::MbedCrypto).len(), 15);
    assert_eq!(parsec_core::registry::list_opcodes(ProviderId::Pkcs11).len(), 8);
}

#[test]
fn provider_listing_is_deterministic() {
    let a: Vec<(ProviderId, u128)> = parsec_core::registry::list_providers().iter().map(|p| (p.id, p.uuid)).collect();
    let b: Vec<(ProviderId, u128)> = parsec_core::registry::list_providers().iter().map(|p| (p.id, p.uuid)).collect();
    assert_eq!(a, b);
    assert_eq!(a[0].0, ProviderId::MbedCrypto);
    assert_eq!(a[5].0, ProviderId::Core);
}

#[test]
fn insert_then_lookup_then_remove() {
    let mut store = KeyInfoStore::new();
    let k = KeyTriple::new("app".to_string(), ProviderId::Tpm, "key".to_string());
    let rec = KeyRecord { id: 7, attributes: attrs() };
    assert_eq!(store.insert(k.duplicate(), rec), Ok(()));
    assert_eq!(store.lookup(&k), Ok(rec));
    let other = KeyRecord { id: 8, attributes: attrs() };
    assert_eq!(store.insert(k.duplicate(), other), Err(Status::AlreadyExists));
    assert_eq!(store.lookup(&k), Ok(rec));
    assert_eq!(store.remove(&k), Ok(()));
    assert_eq!(store.lookup(&k), Err(Status::KeyNotFound));
    assert_eq!(store.remove(&k), Err(Status::KeyNotFound));
}

#[test]
fn remove_all_for_application_empties_its_listing() {
    let mut store = KeyInfoStore::new();
    for (i, p) in [ProviderId::MbedCrypto, ProviderId::Tpm, ProviderId::Pkcs11].iter().enumerate() {
        generate_local(&mut store, "gone", *p, "k", i as u32).unwrap();
    }
    generate_local(&mut store, "stays", ProviderId::Tpm, "k", 9).unwrap();
    assert_eq!(store.list_for_application(&"gone".to_string()).len(), 3);
    store.remove_all_for_application(&"gone".to_string());
    assert!(store.list_for_application(&"gone".to_string()).is_empty());
    assert_eq!(store.list_for_application(&"stays".to_string()), vec![("k".to_string(), ProviderId::Tpm)]);
    assert_eq!(store.list_applications(), vec!["stays".to_string()]);
}

#[test]
fn exists_probe_leaves_no_handle_open() {
    let mut p = Partition::new();
    assert_eq!(probe(&mut p, 5), Action::Answer(false));
    assert!(p.open.is_empty());
    assert_eq!(generate_remote(&mut p, 5), Action::Complete);
    assert!(p.open.is_empty());
    assert_eq!(probe(&mut p, 5), Action::Answer(true));
    assert!(p.open.is_empty());
}

#[test]
fn exists_probe_propagates_other_failures() {
    let (mut ctx, call) = Context::check_key_exists(3);
    assert_eq!(call, RemoteCall::OpenKey(3));
    assert_eq!(ctx.next(RemoteReply::Failed(RemoteError::Other(-132))), Action::Fail(Status::Backend(-132)));
    let (mut ctx, _) = Context::check_key_exists(3);
    assert_eq!(ctx.next(RemoteReply::Handle(44)), Action::Send(RemoteCall::CloseKey(44)));
    assert_eq!(ctx.next(RemoteReply::Failed(RemoteError::Other(-136))), Action::Fail(Status::Backend(-136)));
}

#[test]
fn destroy_of_absent_key_sends_no_destroy() {
    let mut p = Partition::new();
    assert_eq!(destroy_remote(&mut p, 42), Action::Fail(Status::KeyNotFound));
    assert_eq!(p.destroy_calls, 0);
    assert!(p.open.is_empty());
}

#[test]
fn generate_exists_destroy_round_trip() {
    let mut p = Partition::new();
    assert_eq!(generate_remote(&mut p, 77), Action::Complete);
    assert_eq!(probe(&mut p, 77), Action::Answer(true));
    assert_eq!(destroy_remote(&mut p, 77), Action::Complete);
    assert_eq!(p.destroy_calls, 1);
    assert_eq!(probe(&mut p, 77), Action::Answer(false));
    assert!(p.keys.is_empty());
    assert!(p.open.is_empty());
}

#[test]
fn discovery_scenario() {
    let mut store = KeyInfoStore::new();
    let providers = list_providers_via(&mut store);
    let ids: Vec<ProviderId> = providers.iter().map(|p| p.id).collect();
    assert_eq!(
        ids,
        vec![
            ProviderId::MbedCrypto,
            ProviderId::Tpm,
            ProviderId::TrustedService,
            ProviderId::Pkcs11,
            ProviderId::CryptoAuthLib,
            ProviderId::Core,
        ]
    );
    let core: HashSet<Opcode> = [
        Opcode::Ping,
        Opcode::ListProviders,
        Opcode::ListAuthenticators,
        Opcode::ListOpcodes,
        Opcode::ListKeys,
    ]
    .into_iter()
    .collect();
    assert_eq!(list_opcodes_via(&mut store, ProviderId::Core), core);
    let resp = dispatch(&mut store, header(0, Opcode::ListOpcodes, AUTH_NONE), &vec![], &vec![1, 2]);
    assert!(matches!(resp, Dispatched::Failed(Status::MalformedBody)));
    let err = destroy_key_start(&store, "client".to_string(), "unused".to_string()).err().unwrap();
    assert_eq!(err, Status::KeyNotFound);
}

#[test]
fn same_key_name_for_two_applications() {
    let mut store = KeyInfoStore::new();
    let mut p = Partition::new();
    assert_eq!(generate_ts(&mut store, &mut p, "alice", "shared", 1), Ok(()));
    assert_eq!(generate_ts(&mut store, &mut p, "bob", "shared", 2), Ok(()));
    assert_eq!(generate_ts(&mut store, &mut p, "bob", "shared", 3), Err(Status::AlreadyExists));
    delete_client_via(&mut store, &mut p, "admin", "alice").unwrap();
    assert!(!p.keys.contains(&1));
    assert!(p.keys.contains(&2));
    assert!(list_keys_via(&mut store, "alice").is_empty());
    assert_eq!(list_keys_via(&mut store, "bob"), vec![("shared".to_string(), ProviderId::TrustedService)]);
    assert_eq!(destroy_ts(&mut store, &mut p, "bob", "shared"), Ok(()));
    assert!(list_keys_via(&mut store, "bob").is_empty());
    assert!(!p.keys.contains(&2));
}

#[test]
fn version_mismatch() {
    let mut store = KeyInfoStore::new();
    let mut h = header(0, Opcode::Ping, AUTH_NONE);
    h.version_maj = 2;
    assert!(matches!(dispatch(&mut store, h, &vec![], &vec![]), Dispatched::Failed(Status::VersionMismatch)));
}

#[test]
fn authentication_failures() {
    let mut store = KeyInfoStore::new();
    let h = header(0, Opcode::Ping, AUTH_DIRECT);
    assert!(matches!(dispatch(&mut store, h, &vec![], &vec![]), Dispatched::Failed(Status::AuthenticationFailed)));
    assert!(matches!(dispatch(&mut store, h, &vec![0xff, 0xfe], &vec![]), Dispatched::Failed(Status::AuthenticationFailed)));
    let h = header(0, Opcode::Ping, 7);
    assert!(matches!(dispatch(&mut store, h, &b"x".to_vec(), &vec![]), Dispatched::Failed(Status::AuthenticationFailed)));
    let h = header(0, Opcode::ListKeys, AUTH_NONE);
    assert!(matches!(dispatch(&mut store, h, &vec![], &vec![]), Dispatched::Failed(Status::AuthenticationFailed)));
    let h = header(4, Opcode::PsaGenerateKey, AUTH_NONE);
    assert!(matches!(dispatch(&mut store, h, &vec![], &vec![]), Dispatched::Failed(Status::AuthenticationFailed)));
}

#[test]
fn unknown_provider_and_opcode() {
    let mut store = KeyInfoStore::new();
    assert!(matches!(dispatch(&mut store, header(9, Opcode::Ping, AUTH_NONE), &vec![], &vec![]), Dispatched::Failed(Status::ProviderNotFound)));
    let mut h = header(0, Opcode::Ping, AUTH_NONE);
    h.opcode = 0x7777;
    assert!(matches!(dispatch(&mut store, h, &vec![], &vec![]), Dispatched::Failed(Status::OperationNotSupported)));
    let resp = dispatch(&mut store, header(0, Opcode::ListOpcodes, AUTH_NONE), &vec![], &vec![6]);
    assert!(matches!(resp, Dispatched::Failed(Status::ProviderNotFound)));
    let resp = dispatch(&mut store, header(5, Opcode::PsaGenerateKey, AUTH_DIRECT), &b"a".to_vec(), &vec![]);
    assert!(matches!(resp, Dispatched::Failed(Status::OperationNotSupported)));
}

#[test]
fn ping_and_forwarding() {
    let mut store = KeyInfoStore::new();
    assert!(matches!(dispatch(&mut store, header(0, Opcode::Ping, AUTH_NONE), &vec![], &vec![]), Dispatched::Answered(CoreResult::Ping(1, 0))));
    match dispatch(&mut store, header(2, Opcode::PsaGenerateKey, AUTH_DIRECT), &"ünïcode".as_bytes().to_vec(), &vec![1, 2, 3]) {
        Dispatched::Forward { provider, opcode, app_name } => {
            assert_eq!(provider, ProviderId::Pkcs11);
            assert_eq!(opcode, Opcode::PsaGenerateKey);
            assert_eq!(app_name, "ünïcode");
        }
        _ => panic!("not forwarded"),
    }
    let resp = dispatch(&mut store, header(0, Opcode::DeleteClient, AUTH_DIRECT), &b"a".to_vec(), &vec![0xc3]);
    assert!(matches!(resp, Dispatched::Failed(Status::MalformedBody)));
}

#[test]
fn generate_maps_attributes_to_the_wire() {
    let (ctx, call) = Context::generate_key(&attrs(), 12).unwrap();
    assert_eq!(ctx.id, 12);
    match call {
        RemoteCall::GenerateKey(w) => {
            assert_eq!(w.key_type, 0x7001);
            assert_eq!(w.key_bits, 1024);
            assert_eq!(w.lifetime, 1);
            assert_eq!(w.id, 12);
            assert_eq!(w.usage, 0x0000_3000);
            assert_eq!(w.alg, 0x0600_0209);
        }
        _ => panic!("wrong call"),
    }
    let big = KeyAttributes { bits: (u32::MAX as usize) + 1, ..attrs() };
    assert_eq!(Context::generate_key(&big, 1).err(), Some(Status::InvalidEncoding));
}

#[test]
fn remote_failures_and_stray_replies() {
    let mut p = Partition::new();
    assert_eq!(generate_remote(&mut p, 1), Action::Complete);
    assert_eq!(generate_remote(&mut p, 1), Action::Fail(Status::AlreadyExists));
    let (mut ctx, _) = Context::destroy_key(1);
    assert_eq!(ctx.next(RemoteReply::Done), Action::Fail(Status::Backend(-145)));
    assert_eq!(Status::from_remote(RemoteError::DoesNotExist), Status::KeyNotFound);
}

#[test]
fn asymmetric_operations_resolve_the_key() {
    let mut store = KeyInfoStore::new();
    let mut p = Partition::new();
    generate_ts(&mut store, &mut p, "app", "rsa", 31).unwrap();
    let op = AsymmetricOperation { key_name: "rsa".to_string(), alg: 0x0700_0200, input: vec![1, 2, 3], salt: None };
    let call = psa_asymmetric_encrypt_internal(&store, "app".to_string(), op).ok().unwrap();
    assert_eq!(call.key_id, 31);
    assert_eq!(call.alg, 0x0700_0200);
    assert_eq!(call.input, vec![1, 2, 3]);
    assert!(call.salt.is_empty());
    let op = AsymmetricOperation { key_name: "rsa".to_string(), alg: 1, input: vec![9], salt: Some(vec![5, 6]) };
    let call = psa_asymmetric_decrypt_internal(&store, "app".to_string(), op).ok().unwrap();
    assert_eq!(call.salt, vec![5, 6]);
    let op = AsymmetricOperation { key_name: "rsa".to_string(), alg: 1, input: vec![9], salt: None };
    assert_eq!(psa_asymmetric_encrypt_internal(&store, "other".to_string(), op).err(), Some(Status::KeyNotFound));
}

#[test]
fn failed_destroy_still_closes_its_handle() {
    let mut p = Partition::new();
    assert_eq!(generate_remote(&mut p, 9), Action::Complete);
    p.locked.insert(9);
    assert_eq!(destroy_remote(&mut p, 9), Action::Fail(Status::Backend(-133)));
    assert_eq!(p.destroy_calls, 1);
    assert!(p.open.is_empty());
    assert!(p.keys.contains(&9));

    let (mut ctx, _) = Context::destroy_key(4);
    assert_eq!(ctx.next(RemoteReply::Handle(20)), Action::Send(RemoteCall::CloseKey(20)));
    assert_eq!(ctx.next(RemoteReply::Done), Action::Send(RemoteCall::OpenKey(4)));
    assert_eq!(ctx.next(RemoteReply::Handle(21)), Action::Send(RemoteCall::DestroyKey(21)));
    assert_eq!(
        ctx.next(RemoteReply::Failed(RemoteError::Other(-147))),
        Action::Send(RemoteCall::CloseKey(21))
    );
    assert_eq!(ctx.next(RemoteReply::Failed(RemoteError::Other(-136))), Action::Fail(Status::Backend(-147)));
}

#[test]
fn failed_destroy_keeps_the_record() {
    let mut store = KeyInfoStore::new();
    let mut p = Partition::new();
    generate_ts(&mut store, &mut p, "app", "pinned", 8).unwrap();
    p.locked.insert(8);
    assert_eq!(destroy_ts(&mut store, &mut p, "app", "pinned"), Err(Status::Backend(-133)));
    assert_eq!(list_keys_via(&mut store, "app"), vec![("pinned".to_string(), ProviderId::TrustedService)]);
    assert_eq!(delete_client_via(&mut store, &mut p, "admin", "app"), Err(Status::Backend(-133)));
    assert_eq!(list_keys_via(&mut store, "app").len(), 1);
}
