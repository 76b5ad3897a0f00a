use vstd::prelude::*;
use crate::registry::ProviderId;
use crate::session::{Action, Context, KeyAttributes, RemoteCall, wire_attributes, Phase};
use crate::status::Status;
use crate::store::{KeyInfoStore, KeyRecord, KeyTriple, TripleView};

verus! {

/// An asymmetric encryption or decryption as a client asks for it.
pub struct AsymmetricOperation {
    pub key_name: String,
    pub alg: u32,
    /// The plaintext to encrypt, or the ciphertext to decrypt.
    pub input: Vec<u8>,
    pub salt: Option<Vec<u8>>,
}

/// The call that the remote partition receives for an asymmetric operation.
pub struct AsymmetricCall {
    pub key_id: u32,
    pub alg: u32,
    pub input: Vec<u8>,
    pub salt: Vec<u8>,
}

/// The identity under which this backend files an application's key.
pub open spec fn ts_triple(app_name: Seq<char>, key_name: Seq<char>) -> TripleView {
    (app_name, ProviderId::TrustedService, key_name)
}

/// The salt as sent: the one given, or none at all.
pub open spec fn salt_bytes(salt: Option<Vec<u8>>) -> Seq<u8> {
    match salt {
        Some(s) => s@,
        None => Seq::empty(),
    }
}

/// Resolves the key of an asymmetric operation and builds the remote call.
fn asymmetric_call(store: &KeyInfoStore, app_name: String, op: AsymmetricOperation) -> (r: Result<
    AsymmetricCall,
    Status,
>)
    requires
        store.wf(),
    ensures
        !store.view().contains_key(ts_triple(app_name@, op.key_name@)) ==> r == Err::<
            AsymmetricCall,
            Status,
        >(Status::KeyNotFound),
        store.view().contains_key(ts_triple(app_name@, op.key_name@)) ==> (r matches Ok(c)
            && c.key_id == store.view()[ts_triple(app_name@, op.key_name@)].id && c.alg == op.alg
            && c.input@ == op.input@ && c.salt@ == salt_bytes(op.salt)),
{
    let key_triple = KeyTriple::new(app_name, ProviderId::TrustedService, op.key_name);
    let rec = match store.lookup(&key_triple) {
        Ok(rec) => rec,
        Err(e) => return Err(e),
    };
    let salt_buff = match op.salt {
        Some(salt) => salt,
        None => Vec::new(),
    };
    Ok(AsymmetricCall { key_id: rec.id, alg: op.alg, input: op.input, salt: salt_buff })
}

/// The remote call for an asymmetric encryption with an application's key;
/// `KeyNotFound` where the application has no such key on this backend.
pub fn psa_asymmetric_encrypt_internal(
    store: &KeyInfoStore,
    app_name: String,
    op: AsymmetricOperation,
) -> (r: Result<AsymmetricCall, Status>)
    requires
        store.wf(),
    ensures
        !store.view().contains_key(ts_triple(app_name@, op.key_name@)) ==> r == Err::<
            AsymmetricCall,
            Status,
        >(Status::KeyNotFound),
        store.view().contains_key(ts_triple(app_name@, op.key_name@)) ==> (r matches Ok(c)
            && c.key_id == store.view()[ts_triple(app_name@, op.key_name@)].id && c.alg == op.alg
            && c.input@ == op.input@ && c.salt@ == salt_bytes(op.salt)),
{
    asymmetric_call(store, app_name, op)
}

/// The remote call for an asymmetric decryption with an application's key;
/// `KeyNotFound` where the application has no such key on this backend.
pub fn psa_asymmetric_decrypt_internal(
    store: &KeyInfoStore,
    app_name: String,
    op: AsymmetricOperation,
) -> (r: Result<AsymmetricCall, Status>)
    requires
        store.wf(),
    ensures
        !store.view().contains_key(ts_triple(app_name@, op.key_name@)) ==> r == Err::<
            AsymmetricCall,
            Status,
        >(Status::KeyNotFound),
        store.view().contains_key(ts_triple(app_name@, op.key_name@)) ==> (r matches Ok(c)
            && c.key_id == store.view()[ts_triple(app_name@, op.key_name@)].id && c.alg == op.alg
            && c.input@ == op.input@ && c.salt@ == salt_bytes(op.salt)),
{
    asymmetric_call(store, app_name, op)
}

/// A key creation or destruction in flight: the identity it is about and the
/// remote context that carries it out.
pub struct KeyOperation {
    pub key_triple: KeyTriple,
    pub record: KeyRecord,
    pub context: Context,
}

/// Starts creating an application's key under the logical id `id`. The store
/// is not touched before the remote side has made the key.
pub fn generate_key_start(
    store: &KeyInfoStore,
    app_name: String,
    key_name: String,
    attributes: KeyAttributes,
    id: u32,
) -> (r: Result<(KeyOperation, RemoteCall), Status>)
    requires
        store.wf(),
    ensures
        store.view().contains_key(ts_triple(app_name@, key_name@)) ==> r == Err::<
            (KeyOperation, RemoteCall),
            Status,
        >(Status::AlreadyExists),
        !store.view().contains_key(ts_triple(app_name@, key_name@)) && wire_attributes(
            attributes,
            id,
        ) is None ==> r == Err::<(KeyOperation, RemoteCall), Status>(Status::InvalidEncoding),
        !store.view().contains_key(ts_triple(app_name@, key_name@)) ==> (wire_attributes(
            attributes,
            id,
        ) matches Some(w) ==> (r matches Ok((op, call)) && op.key_triple@ == ts_triple(
            app_name@,
            key_name@,
        ) && op.record == (KeyRecord { id, attributes }) && op.context == (Context {
            phase: Phase::Generating,
            id,
        }) && call == RemoteCall::GenerateKey(w))),
{
    let key_triple = KeyTriple::new(app_name, ProviderId::TrustedService, key_name);
    if store.contains(&key_triple) {
        return Err(Status::AlreadyExists);
    }
    match Context::generate_key(&attributes, id) {
        Ok((context, call)) => Ok(
            (KeyOperation { key_triple, record: KeyRecord { id, attributes }, context }, call),
        ),
        Err(e) => Err(e),
    }
}

/// Starts destroying an application's key: `KeyNotFound` where it has none
/// under that name on this backend.
pub fn destroy_key_start(store: &KeyInfoStore, app_name: String, key_name: String) -> (r: Result<
    (KeyOperation, RemoteCall),
    Status,
>)
    requires
        store.wf(),
    ensures
        !store.view().contains_key(ts_triple(app_name@, key_name@)) ==> r == Err::<
            (KeyOperation, RemoteCall),
            Status,
        >(Status::KeyNotFound),
        store.view().contains_key(ts_triple(app_name@, key_name@)) ==> (r matches Ok((op, call))
            && op.key_triple@ == ts_triple(app_name@, key_name@) && op.record == store.view()[ts_triple(
            app_name@,
            key_name@,
        )] && op.context == (Context { phase: Phase::DestroyProbing, id: op.record.id })
            && call == RemoteCall::OpenKey(op.record.id)),
{
    let key_triple = KeyTriple::new(app_name, ProviderId::TrustedService, key_name);
    match store.lookup(&key_triple) {
        Ok(record) => {
            let (context, call) = Context::destroy_key(record.id);
            Ok((KeyOperation { key_triple, record, context }, call))
        },
        Err(e) => Err(e),
    }
}

/// Ends a key creation with the final action of its context: on success the
/// key is recorded.
pub fn generate_key_finish(store: &mut KeyInfoStore, op: KeyOperation, outcome: Action) -> (r:
    Result<(), Status>)
    requires
        old(store).wf(),
    ensures
        final(store).wf(),
        outcome == Action::Complete ==> r == old(store).insert_result(op.key_triple@)
            && final(store).view() == old(store).insert_view(op.key_triple@, op.record),
        outcome matches Action::Fail(s) ==> r == Err::<(), Status>(s) && final(store).view()
            == old(store).view(),
        !(outcome is Complete) && !(outcome is Fail) ==> r == Err::<(), Status>(
            Status::Backend(crate::session::COMMUNICATION_FAILURE),
        ) && final(store).view() == old(store).view(),
{
    match outcome {
        Action::Complete => store.insert(op.key_triple, op.record),
        Action::Fail(s) => Err(s),
        _ => Err(Status::Backend(crate::session::COMMUNICATION_FAILURE)),
    }
}

/// Ends a key destruction with the final action of its context: on success
/// the record goes.
pub fn destroy_key_finish(store: &mut KeyInfoStore, op: KeyOperation, outcome: Action) -> (r:
    Result<(), Status>)
    requires
        old(store).wf(),
    ensures
        final(store).wf(),
        outcome == Action::Complete ==> r == old(store).remove_result(op.key_triple@)
            && final(store).view() == old(store).view().remove(op.key_triple@),
        outcome matches Action::Fail(s) ==> r == Err::<(), Status>(s) && final(store).view()
            == old(store).view(),
        !(outcome is Complete) && !(outcome is Fail) ==> r == Err::<(), Status>(
            Status::Backend(crate::session::COMMUNICATION_FAILURE),
        ) && final(store).view() == old(store).view(),
{
    match outcome {
        Action::Complete => store.remove(&op.key_triple),
        Action::Fail(s) => Err(s),
        _ => Err(Status::Backend(crate::session::COMMUNICATION_FAILURE)),
    }
}

} // verus!
