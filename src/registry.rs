use vstd::prelude::*;

verus! {

/// The backends known to the service.
#[derive(Clone, Copy, Debug, PartialEq, Eq, Structural, Hash)]
pub enum ProviderId {
    Core,
    MbedCrypto,
    Pkcs11,
    Tpm,
    TrustedService,
    CryptoAuthLib,
}

/// Operation codes of the protocol.
#[derive(Clone, Copy, Debug, PartialEq, Eq, Structural, Hash)]
pub enum Opcode {
    Ping,
    PsaGenerateKey,
    PsaDestroyKey,
    PsaSignHash,
    PsaVerifyHash,
    PsaImportKey,
    PsaExportPublicKey,
    ListProviders,
    ListOpcodes,
    PsaAsymmetricEncrypt,
    PsaAsymmetricDecrypt,
    PsaExportKey,
    PsaGenerateRandom,
    ListAuthenticators,
    PsaHashCompute,
    PsaHashCompare,
    PsaAeadEncrypt,
    PsaAeadDecrypt,
    PsaRawKeyAgreement,
    ListKeys,
    ListClients,
    DeleteClient,
}

/// Authentication kinds.
#[derive(Clone, Copy, Debug, PartialEq, Eq, Structural, Hash)]
pub enum AuthType {
    NoAuth,
    Direct,
}

/// What discovery reports of one backend.
#[derive(Clone, Copy, Debug)]
pub struct ProviderInfo {
    pub id: ProviderId,
    /// The backend's globally unique identifier, as a 128-bit number.
    pub uuid: u128,
    pub description: &'static str,
}

pub open spec fn provider_code(p: ProviderId) -> u8 {
    match p {
        ProviderId::Core => 0,
        ProviderId::MbedCrypto => 1,
        ProviderId::Pkcs11 => 2,
        ProviderId::Tpm => 3,
        ProviderId::TrustedService => 4,
        ProviderId::CryptoAuthLib => 5,
    }
}

/// The backend that a wire code names.
pub open spec fn provider_from(c: u8) -> Option<ProviderId> {
    match c {
        0 => Some(ProviderId::Core),
        1 => Some(ProviderId::MbedCrypto),
        2 => Some(ProviderId::Pkcs11),
        3 => Some(ProviderId::Tpm),
        4 => Some(ProviderId::TrustedService),
        5 => Some(ProviderId::CryptoAuthLib),
        _ => None,
    }
}

impl ProviderId {
    /// The backend with the given wire code, if any.
    pub fn from_code(c: u8) -> (r: Option<ProviderId>)
        ensures
            r == provider_from(c),
    {
        match c {
            0 => Some(ProviderId::Core),
            1 => Some(ProviderId::MbedCrypto),
            2 => Some(ProviderId::Pkcs11),
            3 => Some(ProviderId::Tpm),
            4 => Some(ProviderId::TrustedService),
            5 => Some(ProviderId::CryptoAuthLib),
            _ => None,
        }
    }

    pub fn code(self) -> (r: u8)
        ensures
            r == provider_code(self),
    {
        match self {
            ProviderId::Core => 0,
            ProviderId::MbedCrypto => 1,
            ProviderId::Pkcs11 => 2,
            ProviderId::Tpm => 3,
            ProviderId::TrustedService => 4,
            ProviderId::CryptoAuthLib => 5,
        }
    }
}

/// The operation that a wire code names.
pub open spec fn opcode_from(c: u32) -> Option<Opcode> {
    match c {
        0x01 => Some(Opcode::Ping),
        0x02 => Some(Opcode::PsaGenerateKey),
        0x03 => Some(Opcode::PsaDestroyKey),
        0x04 => Some(Opcode::PsaSignHash),
        0x05 => Some(Opcode::PsaVerifyHash),
        0x06 => Some(Opcode::PsaImportKey),
        0x07 => Some(Opcode::PsaExportPublicKey),
        0x08 => Some(Opcode::ListProviders),
        0x09 => Some(Opcode::ListOpcodes),
        0x0A => Some(Opcode::PsaAsymmetricEncrypt),
        0x0B => Some(Opcode::PsaAsymmetricDecrypt),
        0x0C => Some(Opcode::PsaExportKey),
        0x0D => Some(Opcode::PsaGenerateRandom),
        0x0E => Some(Opcode::ListAuthenticators),
        0x0F => Some(Opcode::PsaHashCompute),
        0x10 => Some(Opcode::PsaHashCompare),
        0x11 => Some(Opcode::PsaAeadEncrypt),
        0x12 => Some(Opcode::PsaAeadDecrypt),
        0x13 => Some(Opcode::PsaRawKeyAgreement),
        0x1A => Some(Opcode::ListKeys),
        0x1B => Some(Opcode::ListClients),
        0x1C => Some(Opcode::DeleteClient),
        _ => None,
    }
}

impl Opcode {
    /// The operation with the given wire code, if any.
    pub fn from_code(c: u32) -> (r: Option<Opcode>)
        ensures
            r == opcode_from(c),
    {
        match c {
            0x01 => Some(Opcode::Ping),
            0x02 => Some(Opcode::PsaGenerateKey),
            0x03 => Some(Opcode::PsaDestroyKey),
            0x04 => Some(Opcode::PsaSignHash),
            0x05 => Some(Opcode::PsaVerifyHash),
            0x06 => Some(Opcode::PsaImportKey),
            0x07 => Some(Opcode::PsaExportPublicKey),
            0x08 => Some(Opcode::ListProviders),
            0x09 => Some(Opcode::ListOpcodes),
            0x0A => Some(Opcode::PsaAsymmetricEncrypt),
            0x0B => Some(Opcode::PsaAsymmetricDecrypt),
            0x0C => Some(Opcode::PsaExportKey),
            0x0D => Some(Opcode::PsaGenerateRandom),
            0x0E => Some(Opcode::ListAuthenticators),
            0x0F => Some(Opcode::PsaHashCompute),
            0x10 => Some(Opcode::PsaHashCompare),
            0x11 => Some(Opcode::PsaAeadEncrypt),
            0x12 => Some(Opcode::PsaAeadDecrypt),
            0x13 => Some(Opcode::PsaRawKeyAgreement),
            0x1A => Some(Opcode::ListKeys),
            0x1B => Some(Opcode::ListClients),
            0x1C => Some(Opcode::DeleteClient),
            _ => None,
        }
    }
}

/// Administrative operations: answered by the core backend, not advertised by it.
pub open spec fn is_admin_operation(o: Opcode) -> bool {
    o == Opcode::ListClients || o == Opcode::DeleteClient
}

/// The operations that the hardware-token and TPM backends support.
pub open spec fn token_opcodes() -> Seq<Opcode> {
    seq![
        Opcode::PsaGenerateKey,
        Opcode::PsaDestroyKey,
        Opcode::PsaSignHash,
        Opcode::PsaVerifyHash,
        Opcode::PsaImportKey,
        Opcode::PsaExportPublicKey,
        Opcode::PsaAsymmetricDecrypt,
        Opcode::PsaAsymmetricEncrypt,
    ]
}

/// The declared capability set of each backend.
pub open spec fn declared_opcodes(p: ProviderId) -> Seq<Opcode> {
    match p {
        ProviderId::Core => seq![
            Opcode::Ping,
            Opcode::ListProviders,
            Opcode::ListAuthenticators,
            Opcode::ListOpcodes,
            Opcode::ListKeys,
        ],
        ProviderId::MbedCrypto => token_opcodes() + seq![
            Opcode::PsaHashCompute,
            Opcode::PsaHashCompare,
            Opcode::PsaRawKeyAgreement,
            Opcode::PsaAeadEncrypt,
            Opcode::PsaAeadDecrypt,
            Opcode::PsaExportKey,
            Opcode::PsaGenerateRandom,
        ],
        ProviderId::Pkcs11 => token_opcodes(),
        ProviderId::Tpm => token_opcodes(),
        ProviderId::TrustedService => token_opcodes(),
        ProviderId::CryptoAuthLib => seq![Opcode::PsaGenerateRandom],
    }
}

/// Whether a backend accepts an operation: its declared set, and for the core
/// backend also the administrative operations.
pub open spec fn accepts(p: ProviderId, o: Opcode) -> bool {
    declared_opcodes(p).contains(o) || (p == ProviderId::Core && is_admin_operation(o))
}

pub const CORE_UUID: u128 = 0x47049873_2a43_4845_9d72_831eab668784;
pub const MBED_CRYPTO_UUID: u128 = 0x1c1139dc_ad7c_47dc_ad6b_db6fdb466552;
pub const PKCS11_UUID: u128 = 0x30e39502_eba6_4d60_a4af_c518b7f5e38f;
pub const TPM_UUID: u128 = 0x1e4954a4_ff21_46d3_ab0c_661eeb667e1d;
pub const TRUSTED_SERVICE_UUID: u128 = 0x71129441_508a_4da6_b6e8_7b98a777e4c0;
pub const CRYPTO_AUTH_LIB_UUID: u128 = 0xb8ba81e2_e9f7_4bdd_b096_a29d0019960c;

/// The backends in the fixed order in which discovery reports them.
pub open spec fn provider_order() -> Seq<ProviderId> {
    seq![
        ProviderId::MbedCrypto,
        ProviderId::Tpm,
        ProviderId::TrustedService,
        ProviderId::Pkcs11,
        ProviderId::CryptoAuthLib,
        ProviderId::Core,
    ]
}

/// `r` describes the registered backends in their discovery order.
pub open spec fn provider_listing(r: Seq<ProviderInfo>) -> bool {
    &&& r.len() == provider_order().len()
    &&& forall|i: int|
        0 <= i < r.len() ==> r[i] == info_of(provider_order()[i])
}

/// The descriptor of each backend.
pub open spec fn info_of(p: ProviderId) -> ProviderInfo {
    match p {
        ProviderId::Core => ProviderInfo {
            id: p,
            uuid: CORE_UUID,
            description: "Software provider that implements only administrative operations",
        },
        ProviderId::MbedCrypto => ProviderInfo {
            id: p,
            uuid: MBED_CRYPTO_UUID,
            description: "User space software provider, based on Mbed Crypto",
        },
        ProviderId::Pkcs11 => ProviderInfo {
            id: p,
            uuid: PKCS11_UUID,
            description: "PKCS #11 provider, interfacing with a PKCS #11 library",
        },
        ProviderId::Tpm => ProviderInfo {
            id: p,
            uuid: TPM_UUID,
            description: "TPM provider, interfacing with a library implementing the TCG TSS 2.0",
        },
        ProviderId::TrustedService => ProviderInfo {
            id: p,
            uuid: TRUSTED_SERVICE_UUID,
            description: "Provider exposing functionality provided by the Crypto Trusted Service",
        },
        ProviderId::CryptoAuthLib => ProviderInfo {
            id: p,
            uuid: CRYPTO_AUTH_LIB_UUID,
            description: "User space hardware provider, based on the CryptoAuthentication Library",
        },
    }
}

/// The descriptor that discovery reports for one backend.
pub fn provider_info(p: ProviderId) -> (r: ProviderInfo)
    ensures
        r == info_of(p),
{
    match p {
        ProviderId::Core => ProviderInfo {
            id: p,
            uuid: CORE_UUID,
            description: "Software provider that implements only administrative operations",
        },
        ProviderId::MbedCrypto => ProviderInfo {
            id: p,
            uuid: MBED_CRYPTO_UUID,
            description: "User space software provider, based on Mbed Crypto",
        },
        ProviderId::Pkcs11 => ProviderInfo {
            id: p,
            uuid: PKCS11_UUID,
            description: "PKCS #11 provider, interfacing with a PKCS #11 library",
        },
        ProviderId::Tpm => ProviderInfo {
            id: p,
            uuid: TPM_UUID,
            description: "TPM provider, interfacing with a library implementing the TCG TSS 2.0",
        },
        ProviderId::TrustedService => ProviderInfo {
            id: p,
            uuid: TRUSTED_SERVICE_UUID,
            description: "Provider exposing functionality provided by the Crypto Trusted Service",
        },
        ProviderId::CryptoAuthLib => ProviderInfo {
            id: p,
            uuid: CRYPTO_AUTH_LIB_UUID,
            description: "User space hardware provider, based on the CryptoAuthentication Library",
        },
    }
}

/// The registered backends, in their fixed discovery order.
pub fn list_providers() -> (r: Vec<ProviderInfo>)
    ensures
        provider_listing(r@),
{
    let v = vec![
        provider_info(ProviderId::MbedCrypto),
        provider_info(ProviderId::Tpm),
        provider_info(ProviderId::TrustedService),
        provider_info(ProviderId::Pkcs11),
        provider_info(ProviderId::CryptoAuthLib),
        provider_info(ProviderId::Core),
    ];
    v
}

/// Discovery is deterministic: any two listings of the backends are the same
/// sequence, in the same order.
pub proof fn lemma_provider_listing_unique(a: Seq<ProviderInfo>, b: Seq<ProviderInfo>)
    requires
        provider_listing(a),
        provider_listing(b),
    ensures
        a == b,
{
    assert(a =~= b);
}

/// The operations a backend supports, exactly its declared capability set.
pub fn list_opcodes(p: ProviderId) -> (r: Vec<Opcode>)
    ensures
        r@ == declared_opcodes(p),
{
    let r = match p {
        ProviderId::Core => vec![
            Opcode::Ping,
            Opcode::ListProviders,
            Opcode::ListAuthenticators,
            Opcode::ListOpcodes,
            Opcode::ListKeys,
        ],
        ProviderId::MbedCrypto => vec![
            Opcode::PsaGenerateKey,
            Opcode::PsaDestroyKey,
            Opcode::PsaSignHash,
            Opcode::PsaVerifyHash,
            Opcode::PsaImportKey,
            Opcode::PsaExportPublicKey,
            Opcode::PsaAsymmetricDecrypt,
            Opcode::PsaAsymmetricEncrypt,
            Opcode::PsaHashCompute,
            Opcode::PsaHashCompare,
            Opcode::PsaRawKeyAgreement,
            Opcode::PsaAeadEncrypt,
            Opcode::PsaAeadDecrypt,
            Opcode::PsaExportKey,
            Opcode::PsaGenerateRandom,
        ],
        ProviderId::Pkcs11 | ProviderId::Tpm | ProviderId::TrustedService => vec![
            Opcode::PsaGenerateKey,
            Opcode::PsaDestroyKey,
            Opcode::PsaSignHash,
            Opcode::PsaVerifyHash,
            Opcode::PsaImportKey,
            Opcode::PsaExportPublicKey,
            Opcode::PsaAsymmetricDecrypt,
            Opcode::PsaAsymmetricEncrypt,
        ],
        ProviderId::CryptoAuthLib => vec![Opcode::PsaGenerateRandom],
    };
    proof {
        assert(r@ =~= declared_opcodes(p));
    }
    r
}

/// Whether a backend accepts an operation.
pub fn provider_accepts(p: ProviderId, o: Opcode) -> (r: bool)
    ensures
        r == accepts(p, o),
{
    let ops = list_opcodes(p);
    let mut i: usize = 0;
    while i < ops.len()
        invariant
            ops@ == declared_opcodes(p),
            0 <= i <= ops@.len(),
            forall|j: int| 0 <= j < i ==> ops@[j] != o,
        decreases ops@.len() - i,
    {
        if ops[i] == o {
            proof {
                assert(declared_opcodes(p).contains(o));
            }
            return true;
        }
        i = i + 1;
    }
    match p {
        ProviderId::Core => match o {
            Opcode::ListClients | Opcode::DeleteClient => true,
            _ => false,
        },
        _ => false,
    }
}

/// The authentication kinds the service accepts.
pub fn list_authenticators() -> (r: Vec<AuthType>)
    ensures
        r@ == seq![AuthType::Direct],
{
    let r = vec![AuthType::Direct];
    proof {
        assert(r@ =~= seq![AuthType::Direct]);
    }
    r
}

} // verus!
