//! P-256 operands of LE Secure Connections.
//!
//! The vendor stores a 256-bit value with its least significant byte first; the
//! crypto engine takes and gives it with its most significant byte first.

use hisi_crypto::p256::P256PrivateKey;
use vstd::prelude::*;

verus! {

/// The number that bytes stand for, the most significant first.
pub open spec fn be_value(bytes: Seq<u8>) -> int
    decreases bytes.len(),
{
    if bytes.len() == 0 {
        0
    } else {
        be_value(bytes.drop_last()) * 256 + bytes.last()
    }
}

/// The order of the P-256 group.
pub open spec fn p256_order() -> int {
    0xFFFFFFFF00000000FFFFFFFFFFFFFFFFBCE6FAADA7179E84F3B9CAC2FC632551int
}

/// The bytes are a private key: a number from one up to the order of the group.
pub open spec fn is_private_scalar(bytes: Seq<u8>) -> bool {
    0 < be_value(bytes) < p256_order()
}

/// `hisi_crypto::p256::P256PrivateKey::try_from_be_bytes`: the bytes are accepted
/// if and only if the number that they stand for is neither zero nor as large as
/// the order of the group.
#[verifier::external_body]
pub(crate) fn private_scalar_accepted(bytes: [u8; 32]) -> (accepted: bool)
    ensures
        accepted == is_private_scalar(bytes@),
{
    P256PrivateKey::try_from_be_bytes(bytes).is_ok()
}

/// The bytes in the opposite order.
pub fn reversed(bytes: [u8; 32]) -> (output: [u8; 32])
    ensures
        output@ == bytes@.reverse(),
{
    let mut output: [u8; 32] = [0;32];
    let mut i: usize = 0;
    while i < 32
        invariant
            i <= 32,
            forall|j: int| 0 <= j < i ==> output@[j] == bytes@[31 - j],
        decreases 32 - i,
    {
        output[i] = bytes[31 - i];
        i = i + 1;
    }
    assert(output@ =~= bytes@.reverse());
    output
}

/// A failure that the vendor contract cannot report.
#[derive(Clone, Copy, Debug, PartialEq, Eq, Structural)]
pub enum CryptoFatal {
    KeygenAbi,
    KeygenHardware,
    EcdhAbi,
    EcdhHardware,
}

impl CryptoFatal {
    /// The line that is logged before the process stops.
    pub open spec fn spec_marker(self) -> &'static str {
        match self {
            CryptoFatal::KeygenAbi => "RFDBG_BLE_SC_KEYGEN_ABI_ERR\r\n",
            CryptoFatal::KeygenHardware => "RFDBG_BLE_SC_KEYGEN_HW_ERR\r\n",
            CryptoFatal::EcdhAbi => "RFDBG_BLE_SC_ECDH_ABI_ERR\r\n",
            CryptoFatal::EcdhHardware => "RFDBG_BLE_SC_ECDH_HW_ERR\r\n",
        }
    }

    pub fn marker(self) -> (text: &'static str)
        ensures
            text == self.spec_marker(),
    {
        match self {
            CryptoFatal::KeygenAbi => "RFDBG_BLE_SC_KEYGEN_ABI_ERR\r\n",
            CryptoFatal::KeygenHardware => "RFDBG_BLE_SC_KEYGEN_HW_ERR\r\n",
            CryptoFatal::EcdhAbi => "RFDBG_BLE_SC_ECDH_ABI_ERR\r\n",
            CryptoFatal::EcdhHardware => "RFDBG_BLE_SC_ECDH_HW_ERR\r\n",
        }
    }
}

/// A key pair as the engine gives it.
#[derive(Clone, Copy, Debug, PartialEq, Eq)]
pub struct EnginePair {
    pub scalar: [u8; 32],
    pub x: [u8; 32],
    pub y: [u8; 32],
}

/// A key pair as the vendor takes it.
#[derive(Clone, Copy, Debug, PartialEq, Eq)]
pub struct VendorPair {
    pub private_key: [u8; 32],
    pub public_x: [u8; 32],
    pub public_y: [u8; 32],
}

impl VendorPair {
    /// The vendor form of a pair.
    pub open spec fn stores(self, pair: EnginePair) -> bool {
        self.private_key@ == pair.scalar@.reverse() && self.public_x@ == pair.x@.reverse()
            && self.public_y@ == pair.y@.reverse()
    }
}

/// The operands of a key agreement as the engine takes them.
#[derive(Clone, Copy, Debug, PartialEq, Eq)]
pub struct Agreement {
    pub scalar: [u8; 32],
    pub peer_x: [u8; 32],
    pub peer_y: [u8; 32],
}

/// How often keys were generated and agreed on, and how often that failed. The
/// counters wrap.
#[derive(Clone, Copy, Debug, PartialEq, Eq, Structural)]
pub struct BleScDiagnostics {
    pub ecdh_calls: u32,
    pub ecdh_failures: u32,
    pub keygen_calls: u32,
    pub keygen_failures: u32,
}

/// One more, from zero again behind the last.
pub open spec fn counted(count: u32) -> u32 {
    ((count + 1) % 0x1_0000_0000) as u32
}

impl BleScDiagnostics {
    pub fn new() -> (counters: Self)
        ensures
            counters == (Self {
                ecdh_calls: 0,
                ecdh_failures: 0,
                keygen_calls: 0,
                keygen_failures: 0,
            }),
    {
        Self { ecdh_calls: 0, ecdh_failures: 0, keygen_calls: 0, keygen_failures: 0 }
    }

    /// Enter a key generation, with its two output buffers or without one.
    pub fn begin_keygen(&mut self, buffers_present: bool) -> (result: Result<(), CryptoFatal>)
        ensures
            result == (if buffers_present {
                Ok::<(), CryptoFatal>(())
            } else {
                Err(CryptoFatal::KeygenAbi)
            }),
            *final(self) == (Self {
                keygen_calls: counted(old(self).keygen_calls),
                keygen_failures: if buffers_present {
                    old(self).keygen_failures
                } else {
                    counted(old(self).keygen_failures)
                },
                ..*old(self)
            }),
    {
        self.keygen_calls = self.keygen_calls.wrapping_add(1);
        if !buffers_present {
            self.keygen_failures = self.keygen_failures.wrapping_add(1);
            return Err(CryptoFatal::KeygenAbi);
        }
        Ok(())
    }

    /// Take the pair that the engine generated, if it did.
    pub fn finish_keygen(&mut self, pair: Option<EnginePair>) -> (result: Result<
        VendorPair,
        CryptoFatal,
    >)
        ensures
            match pair {
                Some(generated) => (result matches Ok(stored) && stored.stores(generated))
                    && *final(self) == *old(self),
                None => result == Err::<VendorPair, CryptoFatal>(CryptoFatal::KeygenHardware)
                    && *final(self) == (Self {
                    keygen_failures: counted(old(self).keygen_failures),
                    ..*old(self)
                }),
            },
    {
        match pair {
            Some(generated) => Ok(
                VendorPair {
                    private_key: reversed(generated.scalar),
                    public_x: reversed(generated.x),
                    public_y: reversed(generated.y),
                },
            ),
            None => {
                self.keygen_failures = self.keygen_failures.wrapping_add(1);
                Err(CryptoFatal::KeygenHardware)
            },
        }
    }

    /// Enter a key agreement with the operands of the vendor, if all are there. A
    /// private key that is out of range is not handed to the engine.
    pub fn begin_ecdh(&mut self, operands: Option<VendorPair>) -> (result: Result<
        Agreement,
        CryptoFatal,
    >)
        ensures
            match operands {
                None => result == Err::<Agreement, CryptoFatal>(CryptoFatal::EcdhAbi),
                Some(given) => if is_private_scalar(given.private_key@.reverse()) {
                    result matches Ok(agreement) && agreement.scalar@
                        == given.private_key@.reverse() && agreement.peer_x@
                        == given.public_x@.reverse() && agreement.peer_y@
                        == given.public_y@.reverse()
                } else {
                    result == Err::<Agreement, CryptoFatal>(CryptoFatal::EcdhHardware)
                },
            },
            *final(self) == (Self {
                ecdh_calls: counted(old(self).ecdh_calls),
                ecdh_failures: if result is Ok {
                    old(self).ecdh_failures
                } else {
                    counted(old(self).ecdh_failures)
                },
                ..*old(self)
            }),
    {
        self.ecdh_calls = self.ecdh_calls.wrapping_add(1);
        match operands {
            None => {
                self.ecdh_failures = self.ecdh_failures.wrapping_add(1);
                Err(CryptoFatal::EcdhAbi)
            },
            Some(given) => {
                let scalar = reversed(given.private_key);
                if private_scalar_accepted(scalar) {
                    Ok(
                        Agreement {
                            scalar,
                            peer_x: reversed(given.public_x),
                            peer_y: reversed(given.public_y),
                        },
                    )
                } else {
                    self.ecdh_failures = self.ecdh_failures.wrapping_add(1);
                    Err(CryptoFatal::EcdhHardware)
                }
            },
        }
    }

    /// Take the secret that the engine agreed on, if it did.
    pub fn finish_ecdh(&mut self, secret: Option<[u8; 32]>) -> (result: Result<
        [u8; 32],
        CryptoFatal,
    >)
        ensures
            match secret {
                Some(agreed) => (result matches Ok(stored) && stored@ == agreed@.reverse())
                    && *final(self) == *old(self),
                None => (result matches Err(error) && error is EcdhHardware) && *final(self) == (
                Self { ecdh_failures: counted(old(self).ecdh_failures), ..*old(self) }),
            },
    {
        match secret {
            Some(agreed) => Ok(reversed(agreed)),
            None => {
                self.ecdh_failures = self.ecdh_failures.wrapping_add(1);
                Err(CryptoFatal::EcdhHardware)
            },
        }
    }
}

/// The key that the vendor stored of a generated pair is the key that a later
/// agreement hands to the engine.
pub proof fn law_stored_key_is_handed_back(pair: EnginePair, stored: VendorPair)
    requires
        stored.stores(pair),
    ensures
        stored.private_key@.reverse() == pair.scalar@,
        stored.public_x@.reverse() == pair.x@,
        stored.public_y@.reverse() == pair.y@,
{
    assert(pair.scalar@.reverse().reverse() =~= pair.scalar@);
    assert(pair.x@.reverse().reverse() =~= pair.x@);
    assert(pair.y@.reverse().reverse() =~= pair.y@);
}

/// Reversing the bytes twice gives them back, and once puts the last one first.
pub proof fn law_bytes_are_reversed(bytes: [u8; 32], output: [u8; 32], again: [u8; 32])
    requires
        call_ensures(reversed, (bytes,), output),
        call_ensures(reversed, (output,), again),
    ensures
        again@ == bytes@,
        forall|i: int| 0 <= i < 32 ==> #[trigger] output@[i] == bytes@[31 - i],
{
    assert(again@ =~= bytes@);
}

/// What the engine generated is stored with its least significant byte first, each part
/// in its place; what it could not generate, or has no buffers for, is fatal and counted
/// as a failure.
pub proof fn law_generated_pair_is_stored(pair: Option<EnginePair>, present: bool)
    ensures
        forall|counters: &mut BleScDiagnostics, result: Result<VendorPair, CryptoFatal>| #[trigger]
            call_ensures(BleScDiagnostics::finish_keygen, (counters, pair), result) ==> {
                &&& result is Ok <==> pair is Some
                &&& result matches Err(fatal) ==> fatal is KeygenHardware
                &&& result matches Ok(stored) ==> forall|i: int|
                    0 <= i < 32 ==> #[trigger] stored.private_key@[i] == pair->0.scalar@[31 - i]
                &&& result matches Ok(stored) ==> forall|i: int|
                    0 <= i < 32 ==> #[trigger] stored.public_x@[i] == pair->0.x@[31 - i]
                &&& result matches Ok(stored) ==> forall|i: int|
                    0 <= i < 32 ==> #[trigger] stored.public_y@[i] == pair->0.y@[31 - i]
                &&& (*counters).keygen_failures < u32::MAX ==> (*final(counters)).keygen_failures
                    - (*counters).keygen_failures == (if pair is Some {
                    0int
                } else {
                    1
                })
                &&& (*final(counters)).keygen_calls == (*counters).keygen_calls
            },
        forall|counters: &mut BleScDiagnostics, result: Result<(), CryptoFatal>| #[trigger]
            call_ensures(BleScDiagnostics::begin_keygen, (counters, present), result) ==> {
                &&& result is Ok <==> present
                &&& result matches Err(fatal) ==> fatal is KeygenAbi
                &&& (*counters).keygen_calls < u32::MAX ==> (*final(counters)).keygen_calls
                    == (*counters).keygen_calls + 1
                &&& (*counters).keygen_failures < u32::MAX ==> (*final(counters)).keygen_failures
                    - (*counters).keygen_failures == (if present {
                    0int
                } else {
                    1
                })
            },
{
}

/// An agreement hands the vendor's operands to the engine with their most significant
/// byte first, each in its place, exactly when all are there and the private key is in
/// range; its secret is stored the other way round.
pub proof fn law_agreement_hands_over_the_operands(
    operands: Option<VendorPair>,
    secret: Option<[u8; 32]>,
)
    ensures
        forall|counters: &mut BleScDiagnostics, result: Result<Agreement, CryptoFatal>| #[trigger]
            call_ensures(BleScDiagnostics::begin_ecdh, (counters, operands), result) ==> {
                &&& result is Ok <==> operands is Some && is_private_scalar(
                    operands->0.private_key@.reverse(),
                )
                &&& result matches Err(fatal) ==> (fatal is EcdhAbi <==> operands is None) && (
                fatal is EcdhHardware <==> operands is Some)
                &&& result matches Ok(agreement) ==> forall|i: int|
                    0 <= i < 32 ==> #[trigger] agreement.scalar@[i] == operands->0.private_key@[31
                        - i]
                &&& result matches Ok(agreement) ==> forall|i: int|
                    0 <= i < 32 ==> #[trigger] agreement.peer_x@[i] == operands->0.public_x@[31 - i]
                &&& result matches Ok(agreement) ==> forall|i: int|
                    0 <= i < 32 ==> #[trigger] agreement.peer_y@[i] == operands->0.public_y@[31 - i]
                &&& (*counters).ecdh_calls < u32::MAX ==> (*final(counters)).ecdh_calls
                    == (*counters).ecdh_calls + 1
            },
        forall|counters: &mut BleScDiagnostics, result: Result<[u8; 32], CryptoFatal>| #[trigger]
            call_ensures(BleScDiagnostics::finish_ecdh, (counters, secret), result) ==> {
                &&& result is Ok <==> secret is Some
                &&& result matches Err(fatal) ==> fatal is EcdhHardware
                &&& result matches Ok(stored) ==> forall|i: int|
                    0 <= i < 32 ==> #[trigger] stored@[i] == secret->0@[31 - i]
                &&& (*final(counters)).ecdh_calls == (*counters).ecdh_calls
                &&& (*counters).ecdh_failures < u32::MAX ==> (*final(counters)).ecdh_failures
                    - (*counters).ecdh_failures == (if secret is Some {
                    0int
                } else {
                    1
                })
            },
{
}

/// Each fatal failure is logged as what it is.
pub proof fn law_fatal_failures_are_marked(fatal: CryptoFatal, text: &'static str)
    requires
        call_ensures(CryptoFatal::marker, (fatal,), text),
    ensures
        fatal is KeygenAbi ==> text@ == "RFDBG_BLE_SC_KEYGEN_ABI_ERR\r\n"@,
        fatal is KeygenHardware ==> text@ == "RFDBG_BLE_SC_KEYGEN_HW_ERR\r\n"@,
        fatal is EcdhAbi ==> text@ == "RFDBG_BLE_SC_ECDH_ABI_ERR\r\n"@,
        fatal is EcdhHardware ==> text@ == "RFDBG_BLE_SC_ECDH_HW_ERR\r\n"@,
{
}

} // verus!
