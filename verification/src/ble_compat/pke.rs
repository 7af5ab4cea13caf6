//! Cipher services of the vendor archives.
//!
//! Of the public-key services, only P-256 with a private key that the caller
//! gives is carried out. Every other cipher service reports failure and leaves
//! its outputs as they are.

use crate::ble::Platform;
use crate::ble_compat::{ERROR, OK};
use crate::ble_sc::private_scalar_accepted;
use vstd::prelude::*;

verus! {

/// The curve that is supported.
pub const PKE_FIPS_P256R: u32 = 6;

/// Bytes of a P-256 element.
pub const P256_BYTES: usize = 32;

/// An operand: its length, and its bytes where a buffer was given.
#[derive(Clone, Copy, Debug)]
pub struct CipherPkeData<'a> {
    pub length: u32,
    pub data: Option<&'a [u8]>,
}

impl<'a> CipherPkeData<'a> {
    /// The buffer holds as many bytes as the length says.
    pub open spec fn wf(self) -> bool {
        self.data matches Some(bytes) ==> bytes@.len() >= self.length
    }

    /// The element that the operand holds, if it holds one.
    pub open spec fn element(self) -> Option<Seq<u8>> {
        match self.data {
            Some(bytes) => if self.length == P256_BYTES {
                Some(bytes@.take(32))
            } else {
                None
            },
            None => None,
        }
    }
}

/// An affine point as an operand.
#[derive(Clone, Copy, Debug)]
pub struct CipherPkePoint<'a> {
    pub length: u32,
    pub x: Option<&'a [u8]>,
    pub y: Option<&'a [u8]>,
}

/// An output: its length, and whether a buffer was given.
#[derive(Clone, Copy, Debug, PartialEq, Eq, Structural)]
pub struct PkeOutput {
    pub length: u32,
    pub present: bool,
}

/// An affine point as an output.
#[derive(Clone, Copy, Debug, PartialEq, Eq, Structural)]
pub struct PkePointOutput {
    pub length: u32,
    pub x_present: bool,
    pub y_present: bool,
}

/// An affine point.
#[derive(Clone, Copy, Debug, PartialEq, Eq)]
pub struct AffinePoint {
    pub x: [u8; 32],
    pub y: [u8; 32],
}

/// The 32 bytes of an operand, where it has that length.
pub fn pke_bytes(operand: &CipherPkeData) -> (element: Option<[u8; 32]>)
    requires
        operand.wf(),
    ensures
        match operand.element() {
            Some(bytes) => element matches Some(copy) && copy@ == bytes,
            None => element is None,
        },
{
    match operand.data {
        None => None,
        Some(bytes) => {
            if operand.length != P256_BYTES as u32 {
                return None;
            }
            let mut element: [u8; 32] = [0;32];
            let mut i: usize = 0;
            while i < 32
                invariant
                    i <= 32 <= bytes@.len(),
                    forall|j: int| 0 <= j < i ==> element@[j] == bytes@[j],
                decreases 32 - i,
            {
                element[i] = bytes[i];
                i = i + 1;
            }
            assert(element@ =~= bytes@.take(32));
            Some(element)
        },
    }
}

/// The private key that a key generation is asked for, if it can be carried out.
pub open spec fn generation_scalar(
    platform: Platform,
    curve: u32,
    input: Option<CipherPkeData>,
    private_key: Option<PkeOutput>,
    public_key: Option<PkePointOutput>,
) -> Option<Seq<u8>> {
    match (input, private_key, public_key) {
        (Some(given), Some(private), Some(public)) => if platform is Firmware && curve
            == PKE_FIPS_P256R && private.length == P256_BYTES && public.length == P256_BYTES {
            match given.element() {
                Some(scalar) => if crate::ble_sc::is_private_scalar(scalar) {
                    Some(scalar)
                } else {
                    None
                },
                None => None,
            }
        } else {
            None
        },
        _ => None,
    }
}

/// Check a key generation. The result is the private key to hand to the engine.
pub fn begin_gen_key(
    platform: Platform,
    curve: u32,
    input: Option<CipherPkeData>,
    private_key: Option<PkeOutput>,
    public_key: Option<PkePointOutput>,
) -> (result: Result<[u8; 32], u32>)
    requires
        input matches Some(given) ==> given.wf(),
    ensures
        match generation_scalar(platform, curve, input, private_key, public_key) {
            Some(scalar) => result matches Ok(accepted) && accepted@ == scalar,
            None => result matches Err(status) && status == ERROR,
        },
{
    match platform {
        Platform::Host => {
            return Err(ERROR);
        },
        Platform::Firmware => {},
    }
    if curve != PKE_FIPS_P256R {
        return Err(ERROR);
    }
    match (input, private_key, public_key) {
        (Some(given), Some(private), Some(public)) => {
            if private.length != P256_BYTES as u32 || public.length != P256_BYTES as u32 {
                return Err(ERROR);
            }
            match pke_bytes(&given) {
                None => Err(ERROR),
                Some(scalar) => {
                    if private_scalar_accepted(scalar) {
                        Ok(scalar)
                    } else {
                        Err(ERROR)
                    }
                },
            }
        },
        _ => Err(ERROR),
    }
}

/// What a key generation writes, and its status.
#[derive(Clone, Copy, Debug, PartialEq, Eq)]
pub struct GeneratedKey {
    pub private_key: Option<[u8; 32]>,
    pub public_x: Option<[u8; 32]>,
    pub public_y: Option<[u8; 32]>,
    pub status: u32,
}

/// Write the private key and then the two coordinates, until a buffer is missing.
pub fn finish_gen_key(
    scalar: [u8; 32],
    point: Option<AffinePoint>,
    private_key: PkeOutput,
    public_key: PkePointOutput,
) -> (written: GeneratedKey)
    ensures
        match point {
            None => written == (GeneratedKey {
                private_key: None,
                public_x: None,
                public_y: None,
                status: ERROR,
            }),
            Some(generated) => {
                let private = private_key.present;
                let x = private && public_key.x_present;
                let y = x && public_key.y_present;
                written == (GeneratedKey {
                    private_key: if private {
                        Some(scalar)
                    } else {
                        None
                    },
                    public_x: if x {
                        Some(generated.x)
                    } else {
                        None
                    },
                    public_y: if y {
                        Some(generated.y)
                    } else {
                        None
                    },
                    status: if y {
                        OK
                    } else {
                        ERROR
                    },
                })
            },
        },
{
    let mut written = GeneratedKey {
        private_key: None,
        public_x: None,
        public_y: None,
        status: ERROR,
    };
    match point {
        None => {},
        Some(generated) => {
            if private_key.present {
                written.private_key = Some(scalar);
                if public_key.x_present {
                    written.public_x = Some(generated.x);
                    if public_key.y_present {
                        written.public_y = Some(generated.y);
                        written.status = OK;
                    }
                }
            }
        },
    }
    written
}

/// The operands that a key agreement is asked for, if it can be carried out: the
/// private key and the coordinates of the peer.
pub open spec fn agreement_operands(
    platform: Platform,
    curve: u32,
    public_key: Option<CipherPkePoint>,
    private_key: Option<CipherPkeData>,
    shared_key: Option<PkeOutput>,
) -> Option<(Seq<u8>, Seq<u8>, Seq<u8>)> {
    match (public_key, private_key, shared_key) {
        (Some(public), Some(private), Some(output)) => if platform is Firmware && curve
            == PKE_FIPS_P256R && public.length == P256_BYTES && output.length == P256_BYTES {
            let x = CipherPkeData { length: public.length, data: public.x }.element();
            let y = CipherPkeData { length: public.length, data: public.y }.element();
            match (x, y, private.element()) {
                (Some(x), Some(y), Some(scalar)) => if crate::ble_sc::is_private_scalar(scalar) {
                    Some((scalar, x, y))
                } else {
                    None
                },
                _ => None,
            }
        } else {
            None
        },
        _ => None,
    }
}

/// Check a key agreement. The result is the private key and the peer to hand to
/// the engine.
pub fn begin_ecdh_key(
    platform: Platform,
    curve: u32,
    public_key: Option<CipherPkePoint>,
    private_key: Option<CipherPkeData>,
    shared_key: Option<PkeOutput>,
) -> (result: Result<([u8; 32], AffinePoint), u32>)
    requires
        public_key matches Some(public) ==> (CipherPkeData {
            length: public.length,
            data: public.x,
        }).wf() && (CipherPkeData { length: public.length, data: public.y }).wf(),
        private_key matches Some(private) ==> private.wf(),
    ensures
        match agreement_operands(platform, curve, public_key, private_key, shared_key) {
            Some((scalar, x, y)) => result matches Ok((accepted, peer)) && accepted@ == scalar
                && peer.x@ == x && peer.y@ == y,
            None => result matches Err(status) && status == ERROR,
        },
{
    match platform {
        Platform::Host => {
            return Err(ERROR);
        },
        Platform::Firmware => {},
    }
    if curve != PKE_FIPS_P256R {
        return Err(ERROR);
    }
    match (public_key, private_key, shared_key) {
        (Some(public), Some(private), Some(output)) => {
            if public.length != P256_BYTES as u32 || output.length != P256_BYTES as u32 {
                return Err(ERROR);
            }
            let x = pke_bytes(&CipherPkeData { length: public.length, data: public.x });
            let y = pke_bytes(&CipherPkeData { length: public.length, data: public.y });
            match (x, y, pke_bytes(&private)) {
                (Some(x), Some(y), Some(scalar)) => {
                    if private_scalar_accepted(scalar) {
                        Ok((scalar, AffinePoint { x, y }))
                    } else {
                        Err(ERROR)
                    }
                },
                _ => Err(ERROR),
            }
        },
        _ => Err(ERROR),
    }
}

/// What a key agreement writes, and its status.
pub fn finish_ecdh_key(secret: Option<[u8; 32]>, shared_key: PkeOutput) -> (written: (
    Option<[u8; 32]>,
    u32,
))
    ensures
        written == (if shared_key.present && secret is Some {
            (secret, OK)
        } else {
            (None, ERROR)
        }),
{
    match secret {
        Some(agreed) => {
            if shared_key.present {
                (Some(agreed), OK)
            } else {
                (None, ERROR)
            }
        },
        None => (None, ERROR),
    }
}

pub fn uapi_drv_km_init() -> (status: u32)
    ensures
        status == ERROR,
{
    ERROR
}

pub fn uapi_drv_km_deinit() -> (status: u32)
    ensures
        status == ERROR,
{
    ERROR
}

pub fn uapi_drv_keyslot_create(_handle: &mut u32, _kind: u32) -> (status: u32)
    ensures
        status == ERROR,
        *final(_handle) == *old(_handle),
{
    ERROR
}

pub fn uapi_drv_keyslot_destroy(_handle: u32) -> (status: u32)
    ensures
        status == ERROR,
{
    ERROR
}

pub fn uapi_drv_klad_create(_handle: &mut u32) -> (status: u32)
    ensures
        status == ERROR,
        *final(_handle) == *old(_handle),
{
    ERROR
}

pub fn uapi_drv_klad_destroy(_handle: u32) -> (status: u32)
    ensures
        status == ERROR,
{
    ERROR
}

pub fn uapi_drv_klad_attach(_handle: u32, _destination: u32, _keyslot: u32) -> (status: u32)
    ensures
        status == ERROR,
{
    ERROR
}

pub fn uapi_drv_klad_detach(_handle: u32, _destination: u32, _keyslot: u32) -> (status: u32)
    ensures
        status == ERROR,
{
    ERROR
}

pub fn uapi_drv_klad_set_attr(_handle: u32) -> (status: u32)
    ensures
        status == ERROR,
{
    ERROR
}

pub fn uapi_drv_klad_set_clear_key(_handle: u32) -> (status: u32)
    ensures
        status == ERROR,
{
    ERROR
}

pub fn uapi_drv_cipher_hash_init() -> (status: u32)
    ensures
        status == ERROR,
{
    ERROR
}

pub fn uapi_drv_cipher_hash_deinit() -> (status: u32)
    ensures
        status == ERROR,
{
    ERROR
}

pub fn uapi_drv_cipher_hash_start(_handle: &mut u32) -> (status: u32)
    ensures
        status == ERROR,
        *final(_handle) == *old(_handle),
{
    ERROR
}

pub fn uapi_drv_cipher_hash_update(_handle: u32, _length: u32) -> (status: u32)
    ensures
        status == ERROR,
{
    ERROR
}

pub fn uapi_drv_cipher_hash_finish(_handle: u32, _length: &mut u32) -> (status: u32)
    ensures
        status == ERROR,
        *final(_length) == *old(_length),
{
    ERROR
}

pub fn uapi_drv_cipher_symc_init() -> (status: u32)
    ensures
        status == ERROR,
{
    ERROR
}

pub fn uapi_drv_cipher_symc_deinit() -> (status: u32)
    ensures
        status == ERROR,
{
    ERROR
}

pub fn uapi_drv_cipher_symc_destroy(_handle: u32) -> (status: u32)
    ensures
        status == ERROR,
{
    ERROR
}

pub fn uapi_drv_cipher_mac_start(_handle: &mut u32) -> (status: u32)
    ensures
        status == ERROR,
        *final(_handle) == *old(_handle),
{
    ERROR
}

pub fn uapi_drv_cipher_mac_update(_handle: u32, _length: u32) -> (status: u32)
    ensures
        status == ERROR,
{
    ERROR
}

pub fn uapi_drv_cipher_mac_finish(_handle: u32, _length: &mut u32) -> (status: u32)
    ensures
        status == ERROR,
        *final(_length) == *old(_length),
{
    ERROR
}

/// A key that is handed to the engine is in range, and comes from the caller.
pub proof fn law_engine_keys_are_given_and_in_range(
    platform: Platform,
    curve: u32,
    input: Option<CipherPkeData>,
    private_key: Option<PkeOutput>,
    public_key: Option<PkePointOutput>,
)
    ensures
        generation_scalar(platform, curve, input, private_key, public_key) matches Some(scalar)
            ==> input matches Some(given) && given.element() == Some(scalar)
            && crate::ble_sc::is_private_scalar(scalar) && curve == PKE_FIPS_P256R,
{
}

/// A key is generated exactly on firmware, on the one curve, from a private key of 32
/// bytes that is in range, with room for 32 bytes of each output; and it is that key which
/// the engine gets.
pub proof fn law_generation_uses_the_given_key(
    platform: Platform,
    curve: u32,
    input: CipherPkeData,
    private_key: PkeOutput,
    public_key: PkePointOutput,
    result: Result<[u8; 32], u32>,
)
    requires
        input.wf(),
        call_ensures(
            begin_gen_key,
            (platform, curve, Some(input), Some(private_key), Some(public_key)),
            result,
        ),
    ensures
        result is Ok <==> platform is Firmware && curve == 6 && input.length == 32 && input.data
            is Some && private_key.length == 32 && public_key.length == 32
            && crate::ble_sc::is_private_scalar(input.data->0@.take(32)),
        result matches Ok(scalar) ==> scalar@ == input.data->0@.take(32),
        result matches Err(status) ==> status == 1,
{
}

/// A generated key is written as far as there are buffers for it: the private key, then
/// the first and then the second coordinate. It is a success exactly when all are written,
/// and nothing is written where the engine failed.
pub proof fn law_generated_key_is_written_in_order(
    scalar: [u8; 32],
    point: Option<AffinePoint>,
    private_key: PkeOutput,
    public_key: PkePointOutput,
    written: GeneratedKey,
)
    requires
        call_ensures(finish_gen_key, (scalar, point, private_key, public_key), written),
    ensures
        written.status == 0 <==> point is Some && private_key.present && public_key.x_present
            && public_key.y_present,
        written.status == 0 || written.status == 1,
        written.status == 0 ==> written.private_key == Some(scalar) && written.public_x == Some(
            point->0.x,
        ) && written.public_y == Some(point->0.y),
        written.private_key matches Some(key) ==> key == scalar && point is Some,
        written.public_x matches Some(x) ==> written.private_key is Some && x == point->0.x,
        written.public_y matches Some(y) ==> written.public_x is Some && y == point->0.y,
        point is Some && private_key.present ==> written.private_key is Some,
{
}

/// A key is agreed on exactly on firmware, on the one curve, with a private key of 32
/// bytes that is in range and both coordinates of the peer; the engine gets these, in
/// their places.
pub proof fn law_agreement_uses_the_given_operands(
    platform: Platform,
    curve: u32,
    public_key: CipherPkePoint,
    private_key: CipherPkeData,
    shared_key: PkeOutput,
    result: Result<([u8; 32], AffinePoint), u32>,
)
    requires
        (CipherPkeData { length: public_key.length, data: public_key.x }).wf(),
        (CipherPkeData { length: public_key.length, data: public_key.y }).wf(),
        private_key.wf(),
        call_ensures(
            begin_ecdh_key,
            (platform, curve, Some(public_key), Some(private_key), Some(shared_key)),
            result,
        ),
    ensures
        result is Ok <==> platform is Firmware && curve == 6 && public_key.length == 32
            && shared_key.length == 32 && private_key.length == 32 && public_key.x is Some
            && public_key.y is Some && private_key.data is Some
            && crate::ble_sc::is_private_scalar(private_key.data->0@.take(32)),
        result matches Ok((scalar, peer)) ==> scalar@ == private_key.data->0@.take(32) && peer.x@
            == public_key.x->0@.take(32) && peer.y@ == public_key.y->0@.take(32),
        result matches Err(status) ==> status == 1,
{
}

/// The secret that was agreed on is written exactly where there is a buffer for it.
pub proof fn law_secret_is_written_where_there_is_room(
    secret: Option<[u8; 32]>,
    shared_key: PkeOutput,
    written: (Option<[u8; 32]>, u32),
)
    requires
        call_ensures(finish_ecdh_key, (secret, shared_key), written),
    ensures
        written.1 == 0 <==> secret is Some && shared_key.present,
        written.1 == 0 || written.1 == 1,
        written.1 == 0 ==> written.0 == secret,
        written.1 == 1 ==> written.0 is None,
{
}

} // verus!
