use vstd::prelude::*;
use crate::auth::{authenticate, authenticated, text_of};
use vstd::utf8::{decode_utf8, valid_utf8};
use crate::registry::{
    AuthType, Opcode, ProviderId, ProviderInfo, accepts, declared_opcodes, list_authenticators,
    list_opcodes, list_providers, opcode_from, provider_accepts, provider_from, provider_listing,
};
use crate::status::Status;
use crate::store::{KeyInfoStore, KeyRecord, TripleView, app_listing, key_listing};

verus! {

/// The protocol version the service speaks.
pub const VERSION_MAJ: u8 = 1;

pub const VERSION_MIN: u8 = 0;

/// The fields of a request header that dispatch reads.
#[derive(Clone, Copy, Debug, PartialEq, Eq, Structural)]
pub struct RequestHeader {
    pub version_maj: u8,
    pub version_min: u8,
    pub provider: u8,
    pub opcode: u32,
    pub auth_type: u8,
}

/// The result of an operation that the service answers itself.
pub enum CoreResult {
    Ping(u8, u8),
    Providers(Vec<ProviderInfo>),
    Authenticators(Vec<AuthType>),
    Opcodes(Vec<Opcode>),
    Keys(Vec<(String, ProviderId)>),
    Clients(Vec<String>),
}

/// Where a request ends up.
pub enum Dispatched {
    Answered(CoreResult),
    Failed(Status),
    /// Deleting an application: each of its keys, named with its backend, is
    /// to be destroyed there and only then its record removed.
    DeleteKeys { app_name: String, keys: Vec<(String, ProviderId)> },
    /// The request goes to a backend's cryptographic path for this application.
    Forward { provider: ProviderId, opcode: Opcode, app_name: String },
}

/// The failure, if any, of the checks that come before a request's body is read:
/// version, authentication, operation, backend and its capability set, in that order.
pub open spec fn header_failure(h: RequestHeader, auth: Seq<u8>) -> Option<Status> {
    if h.version_maj != VERSION_MAJ || h.version_min != VERSION_MIN {
        Some(Status::VersionMismatch)
    } else if authenticated(h.auth_type, auth) is None {
        Some(Status::AuthenticationFailed)
    } else if opcode_from(h.opcode) is None {
        Some(Status::OperationNotSupported)
    } else if provider_from(h.provider) is None {
        Some(Status::ProviderNotFound)
    } else if !accepts(provider_from(h.provider).unwrap(), opcode_from(h.opcode).unwrap()) {
        Some(Status::OperationNotSupported)
    } else {
        None
    }
}

/// The failure, if any, of an operation answered by the service itself, from
/// its body and the caller's application.
pub open spec fn core_failure(o: Opcode, app: Option<Seq<char>>, body: Seq<u8>) -> Option<Status> {
    match o {
        Opcode::ListOpcodes => if body.len() != 1 {
            Some(Status::MalformedBody)
        } else if provider_from(body[0]) is None {
            Some(Status::ProviderNotFound)
        } else {
            None
        },
        Opcode::DeleteClient => if body.len() == 0 || !valid_utf8(body) {
            Some(Status::MalformedBody)
        } else if app is None {
            Some(Status::AuthenticationFailed)
        } else {
            None
        },
        _ => if body.len() != 0 {
            Some(Status::MalformedBody)
        } else if (o == Opcode::ListKeys || o == Opcode::ListClients) && app is None {
            Some(Status::AuthenticationFailed)
        } else {
            None
        },
    }
}

/// What a successful operation of the service itself answers, over the store `m`.
pub open spec fn core_answer(
    o: Opcode,
    app: Option<Seq<char>>,
    body: Seq<u8>,
    m: Map<TripleView, KeyRecord>,
    r: Dispatched,
) -> bool {
    match o {
        Opcode::Ping => r == Dispatched::Answered(CoreResult::Ping(VERSION_MAJ, VERSION_MIN)),
        Opcode::ListProviders => r matches Dispatched::Answered(CoreResult::Providers(v))
            && provider_listing(v@),
        Opcode::ListAuthenticators => r matches Dispatched::Answered(CoreResult::Authenticators(v))
            && v@ == seq![AuthType::Direct],
        Opcode::ListOpcodes => r matches Dispatched::Answered(CoreResult::Opcodes(v)) && v@
            == declared_opcodes(provider_from(body[0]).unwrap()),
        Opcode::ListKeys => r matches Dispatched::Answered(CoreResult::Keys(v)) && key_listing(
            m,
            app.unwrap(),
            v@,
        ),
        Opcode::ListClients => r matches Dispatched::Answered(CoreResult::Clients(v)) && app_listing(
            m,
            v@,
        ),
        Opcode::DeleteClient => r matches Dispatched::DeleteKeys { app_name, keys } && app_name@
            == decode_utf8(body) && key_listing(m, decode_utf8(body), keys@),
        _ => false,
    }
}

pub open spec fn name_view(app: Option<String>) -> Option<Seq<char>> {
    match app {
        Some(a) => Some(a@),
        None => None,
    }
}

/// Answers an operation of the service itself, once its header has passed.
fn dispatch_core(store: &KeyInfoStore, o: Opcode, app: Option<String>, body: &Vec<u8>) -> (r:
    Dispatched)
    requires
        store.wf(),
        accepts(ProviderId::Core, o),
    ensures
        core_failure(o, name_view(app), body@) matches Some(s) ==> r == Dispatched::Failed(s)
           ,
        core_failure(o, name_view(app), body@) is None ==> core_answer(
            o,
            name_view(app),
            body@,
            store.view(),
            r,
        ),
{
    match o {
        Opcode::ListOpcodes => {
            if body.len() != 1 {
                return Dispatched::Failed(Status::MalformedBody);
            }
            match ProviderId::from_code(body[0]) {
                Some(p) => Dispatched::Answered(CoreResult::Opcodes(list_opcodes(p))),
                None => Dispatched::Failed(Status::ProviderNotFound),
            }
        },
        Opcode::DeleteClient => {
            if body.len() == 0 {
                return Dispatched::Failed(Status::MalformedBody);
            }
            let name = match text_of(body) {
                Some(name) => name,
                None => return Dispatched::Failed(Status::MalformedBody),
            };
            if app.is_none() {
                return Dispatched::Failed(Status::AuthenticationFailed);
            }
            let keys = store.list_for_application(&name);
            Dispatched::DeleteKeys { app_name: name, keys }
        },
        _ => {
            if body.len() != 0 {
                return Dispatched::Failed(Status::MalformedBody);
            }
            match o {
                Opcode::Ping => Dispatched::Answered(CoreResult::Ping(VERSION_MAJ, VERSION_MIN)),
                Opcode::ListProviders => Dispatched::Answered(
                    CoreResult::Providers(list_providers()),
                ),
                Opcode::ListAuthenticators => Dispatched::Answered(
                    CoreResult::Authenticators(list_authenticators()),
                ),
                Opcode::ListKeys => match app {
                    Some(a) => Dispatched::Answered(
                        CoreResult::Keys(store.list_for_application(&a)),
                    ),
                    None => Dispatched::Failed(Status::AuthenticationFailed),
                },
                _ => match app {
                    Some(_) => Dispatched::Answered(CoreResult::Clients(store.list_applications())),
                    None => Dispatched::Failed(Status::AuthenticationFailed),
                },
            }
        },
    }
}

/// Routes one request: checks its header, answers the operations of the
/// service itself, and hands the others to their backend. The store is only
/// read: its records change once a backend has done its part.
pub fn dispatch(store: &KeyInfoStore, header: RequestHeader, auth: &Vec<u8>, body: &Vec<u8>) -> (r:
    Dispatched)
    requires
        store.wf(),
    ensures
        header_failure(header, auth@) matches Some(s) ==> r == Dispatched::Failed(s)
           ,
        header_failure(header, auth@) is None && provider_from(header.provider) != Some(
            ProviderId::Core,
        ) ==> (authenticated(header.auth_type, auth@)
            == Some(None::<Seq<char>>) ==> r == Dispatched::Failed(Status::AuthenticationFailed))
            && (authenticated(header.auth_type, auth@) matches Some(Some(a)) ==> (r matches Dispatched::Forward { provider, opcode, app_name }
            && Some(provider) == provider_from(header.provider) && Some(opcode) == opcode_from(
            header.opcode,
        ) && app_name@ == a)),
        header_failure(header, auth@) is None && provider_from(header.provider) == Some(
            ProviderId::Core,
        ) ==> {
            let o = opcode_from(header.opcode).unwrap();
            let app = authenticated(header.auth_type, auth@).unwrap();
            &&& core_failure(o, app, body@) matches Some(s) ==> r == Dispatched::Failed(s)
               
            &&& core_failure(o, app, body@) is None ==> core_answer(
                o,
                app,
                body@,
                store.view(),
                r,
            )
        },
{
    if header.version_maj != VERSION_MAJ || header.version_min != VERSION_MIN {
        return Dispatched::Failed(Status::VersionMismatch);
    }
    let app = match authenticate(header.auth_type, auth) {
        Ok(app) => app,
        Err(e) => return Dispatched::Failed(e),
    };
    let ghost app_view = name_view(app);
    proof {
        assert(authenticated(header.auth_type, auth@) == Some(app_view));
    }
    let opcode = match Opcode::from_code(header.opcode) {
        Some(o) => o,
        None => return Dispatched::Failed(Status::OperationNotSupported),
    };
    let provider = match ProviderId::from_code(header.provider) {
        Some(p) => p,
        None => return Dispatched::Failed(Status::ProviderNotFound),
    };
    if !provider_accepts(provider, opcode) {
        return Dispatched::Failed(Status::OperationNotSupported);
    }
    match provider {
        ProviderId::Core => dispatch_core(store, opcode, app, body),
        _ => match app {
            Some(app_name) => Dispatched::Forward { provider, opcode, app_name },
            None => Dispatched::Failed(Status::AuthenticationFailed),
        },
    }
}

} // verus!
