//! Caller-owned storage, and the buffers that vendor calls read.

use crate::ble::configuration::{
    AdvertisingConfig, GapBleAdvertisingParameters, GapBleScanParameters, ScanConfig, ScanMode,
};
use crate::ble::events::BleEventQueue;
use crate::ble::{BleB1InitError, BleB3Error, BLE_B1_ARENA_BYTES, BLE_B3_VALUE_CAPACITY};
use vstd::prelude::*;

verus! {

/// The bytes of a value at the start of a buffer of `capacity` bytes, and zeros
/// behind it.
pub open spec fn padded(value: Seq<u8>, capacity: int) -> Seq<u8> {
    Seq::new(
        capacity as nat,
        |i: int|
            if i < value.len() {
                value[i]
            } else {
                0
            },
    )
}

/// The first bytes of a buffer replaced by a value.
pub open spec fn overwritten(buffer: Seq<u8>, value: Seq<u8>) -> Seq<u8> {
    Seq::new(
        buffer.len(),
        |i: int|
            if i < value.len() {
                value[i]
            } else {
                buffer[i]
            },
    )
}

fn write_prefix<const N: usize>(buffer: &mut [u8; N], value: &[u8])
    requires
        value@.len() <= N,
    ensures
        final(buffer)@ == overwritten(old(buffer)@, value@),
{
    let mut i: usize = 0;
    while i < value.len()
        invariant
            i <= value@.len() <= N,
            buffer@ == overwritten(old(buffer)@, value@.take(i as int)),
        decreases value@.len() - i,
    {
        buffer[i] = value[i];
        i = i + 1;
        assert(buffer@ =~= overwritten(old(buffer)@, value@.take(i as int)));
    }
    assert(value@.take(i as int) =~= value@);
    assert(buffer@ =~= overwritten(old(buffer)@, value@));
}

/// A value at the start of a zeroed buffer.
pub fn padded_copy<const N: usize>(value: &[u8]) -> (buffer: [u8; N])
    requires
        value@.len() <= N,
    ensures
        buffer@ == padded(value@, N as int),
{
    let mut buffer: [u8; N] = [0; N];
    write_prefix(&mut buffer, value);
    assert(buffer@ =~= padded(value@, N as int));
    buffer
}

/// Buffers that stay in place while the vendor reads them.
#[derive(Clone, Copy, Debug)]
pub struct BleB2OperationStorage {
    pub advertising_data: [u8; 31],
    pub advertising_len: u8,
    pub gatt_characteristic_value: [u8; 32],
    pub gatt_descriptor_value: [u8; 32],
    pub advertising_parameters: GapBleAdvertisingParameters,
    pub scan_parameters: GapBleScanParameters,
}

impl BleB2OperationStorage {
    /// The advertising buffer after a payload was stored.
    pub open spec fn holds_payload(self, before: Self, payload: Seq<u8>) -> bool {
        self.advertising_data@ == overwritten(before.advertising_data@, payload)
            && self.advertising_len == payload.len()
    }

    /// Empty buffers, with the parameters that are used where none were stored.
    pub open spec fn fresh(self) -> bool {
        &&& self.advertising_data@ == Seq::new(31, |i: int| 0u8)
        &&& self.advertising_len == 0
        &&& self.gatt_characteristic_value@ == Seq::new(32, |i: int| 0u8)
        &&& self.gatt_descriptor_value@ == Seq::new(32, |i: int| 0u8)
        &&& self.advertising_parameters == crate::ble::configuration::advertising_parameters_of(
            0x20,
            0x60,
            0x07,
        )
        &&& self.scan_parameters == crate::ble::configuration::scan_parameters_of(0x48, 0x48, 0)
    }

    pub fn new() -> (storage: Self)
        ensures
            storage.fresh(),
    {
        let storage = Self {
            advertising_data: [0;31],
            advertising_len: 0,
            gatt_characteristic_value: [0;32],
            gatt_descriptor_value: [0;32],
            advertising_parameters: GapBleAdvertisingParameters::new(0x20, 0x60, 0x07),
            scan_parameters: GapBleScanParameters::new(0x48, 0x48, 0),
        };
        assert(storage.advertising_data@ =~= Seq::new(31, |i: int| 0u8));
        assert(storage.gatt_characteristic_value@ =~= Seq::new(32, |i: int| 0u8));
        assert(storage.gatt_descriptor_value@ =~= Seq::new(32, |i: int| 0u8));
        storage
    }

    /// Copy the payload of a request. Bytes behind it keep what they held.
    pub fn store_advertising_payload(&mut self, config: &AdvertisingConfig)
        requires
            config.wf(),
        ensures
            final(self).holds_payload(*old(self), config.payload@),
            *final(self) == (Self {
                advertising_data: final(self).advertising_data,
                advertising_len: final(self).advertising_len,
                ..*old(self)
            }),
    {
        write_prefix(&mut self.advertising_data, config.payload.as_slice());
        self.advertising_len = config.payload.len() as u8;
    }

    /// Copy the payload and the parameters of an advertising request.
    pub fn store_advertising(&mut self, config: &AdvertisingConfig)
        requires
            config.wf(),
        ensures
            final(self).holds_payload(*old(self), config.payload@),
            *final(self) == (Self {
                advertising_data: final(self).advertising_data,
                advertising_len: final(self).advertising_len,
                advertising_parameters: GapBleAdvertisingParameters {
                    min_interval: config.minimum as u32,
                    max_interval: config.maximum as u32,
                    channel_map: config.channels,
                    ..old(self).advertising_parameters
                },
                ..*old(self)
            }),
    {
        self.store_advertising_payload(config);
        self.advertising_parameters.min_interval = config.minimum as u32;
        self.advertising_parameters.max_interval = config.maximum as u32;
        self.advertising_parameters.channel_map = config.channels;
    }

    /// Copy the parameters of a scan request.
    pub fn store_scan(&mut self, config: &ScanConfig)
        ensures
            *final(self) == (Self {
                scan_parameters: GapBleScanParameters {
                    interval: config.interval,
                    window: config.window,
                    scan_type: if config.mode is Active {
                        1
                    } else {
                        0
                    },
                    ..old(self).scan_parameters
                },
                ..*old(self)
            }),
    {
        self.scan_parameters.interval = config.interval;
        self.scan_parameters.window = config.window;
        self.scan_parameters.scan_type = match config.mode {
            ScanMode::Passive => 0,
            ScanMode::Active => 1,
        };
    }

    /// Why two values cannot be stored, if they cannot.
    pub open spec fn value_refusal(characteristic: Seq<u8>, descriptor: Seq<u8>) -> Option<
        BleB3Error,
    > {
        if characteristic.len() > BLE_B3_VALUE_CAPACITY {
            Some(BleB3Error::ValueTooLong { length: characteristic.len() as usize })
        } else if descriptor.len() > BLE_B3_VALUE_CAPACITY {
            Some(BleB3Error::ValueTooLong { length: descriptor.len() as usize })
        } else {
            None
        }
    }

    /// Copy the initial values of a characteristic and its descriptor, each with
    /// zeros behind it. Nothing changes where one is too long.
    pub fn store_gatt_values(&mut self, characteristic: &[u8], descriptor: &[u8]) -> (result:
        Result<(), BleB3Error>)
        ensures
            match Self::value_refusal(characteristic@, descriptor@) {
                Some(error) => result == Err::<(), BleB3Error>(error) && *final(self) == *old(self),
                None => result is Ok && final(self).gatt_characteristic_value@ == padded(
                    characteristic@,
                    32,
                ) && final(self).gatt_descriptor_value@ == padded(descriptor@, 32) && *final(self)
                    == (Self {
                    gatt_characteristic_value: final(self).gatt_characteristic_value,
                    gatt_descriptor_value: final(self).gatt_descriptor_value,
                    ..*old(self)
                }),
            },
    {
        if characteristic.len() > BLE_B3_VALUE_CAPACITY {
            return Err(BleB3Error::ValueTooLong { length: characteristic.len() });
        }
        if descriptor.len() > BLE_B3_VALUE_CAPACITY {
            return Err(BleB3Error::ValueTooLong { length: descriptor.len() });
        }
        self.gatt_characteristic_value = padded_copy(characteristic);
        self.gatt_descriptor_value = padded_copy(descriptor);
        Ok(())
    }
}

/// Allocator bytes of the caller. They can be claimed once.
#[derive(Clone, Copy, Debug, PartialEq, Eq)]
pub struct BleB1ArenaStorage<const N: usize> {
    pub claimed: bool,
}

/// A claimed arena that the allocator has not accepted yet.
#[derive(Debug, PartialEq, Eq)]
pub struct ArenaClaim {
    pub bytes: usize,
}

/// Installed arena, with the control state that stands beside it.
#[derive(Clone, Copy, Debug)]
pub struct InstalledBleB1Storage {
    pub events: BleEventQueue,
    pub operations: BleB2OperationStorage,
}

impl<const N: usize> BleB1ArenaStorage<N> {
    pub fn new() -> (storage: Self)
        ensures
            !storage.claimed,
    {
        Self { claimed: false }
    }

    /// What a claim of the arena is answered.
    pub open spec fn install_result(self) -> Result<ArenaClaim, BleB1InitError> {
        if N < BLE_B1_ARENA_BYTES {
            Err(BleB1InitError::InsufficientArena { required: BLE_B1_ARENA_BYTES, available: N })
        } else if self.claimed {
            Err(BleB1InitError::StorageAlreadyInstalled)
        } else {
            Ok(ArenaClaim { bytes: N })
        }
    }

    /// The storage after a claim of the arena.
    pub open spec fn after_install(self) -> Self {
        Self { claimed: self.claimed || N >= BLE_B1_ARENA_BYTES }
    }

    /// Claim the arena for the process-wide allocator. A claim is never given
    /// back.
    pub fn install(&mut self) -> (result: Result<ArenaClaim, BleB1InitError>)
        ensures
            result == old(self).install_result(),
            *final(self) == old(self).after_install(),
    {
        if N < BLE_B1_ARENA_BYTES {
            return Err(
                BleB1InitError::InsufficientArena { required: BLE_B1_ARENA_BYTES, available: N },
            );
        }
        if self.claimed {
            return Err(BleB1InitError::StorageAlreadyInstalled);
        }
        self.claimed = true;
        Ok(ArenaClaim { bytes: N })
    }
}

impl ArenaClaim {
    /// Set up the control state once the allocator has answered.
    pub fn complete(self, accepted: bool) -> (result: Result<InstalledBleB1Storage, BleB1InitError>)
        ensures
            !accepted ==> result == Err::<InstalledBleB1Storage, BleB1InitError>(
                BleB1InitError::AllocatorInstall,
            ),
            accepted ==> result is Ok,
            result matches Ok(installed) ==> installed.events.wf() && installed.events@ == Seq::<
                crate::ble::BleB2Event,
            >::empty() && installed.events.dropped == 0 && installed.events.enable is None
                && installed.operations.fresh(),
    {
        if !accepted {
            return Err(BleB1InitError::AllocatorInstall);
        }
        Ok(
            InstalledBleB1Storage {
                events: BleEventQueue::new(),
                operations: BleB2OperationStorage::new(),
            },
        )
    }
}

/// What was stored as a value can be read back, and the bytes behind it are zero.
pub proof fn law_stored_values_are_exact(value: Seq<u8>)
    requires
        value.len() <= BLE_B3_VALUE_CAPACITY,
    ensures
        padded(value, 32).take(value.len() as int) == value,
        forall|i: int| value.len() <= i < 32 ==> padded(value, 32)[i] == 0,
{
    assert(padded(value, 32).take(value.len() as int) =~= value);
}

/// An arena is claimed at most once.
pub proof fn law_arena_is_claimed_once<const N: usize>(storage: BleB1ArenaStorage<N>)
    ensures
        storage.after_install().install_result() is Err,
        storage.after_install().after_install() == storage.after_install(),
{
}

/// What stands in the advertising buffer is the payload, over its whole length,
/// and what stood behind it before.
pub proof fn law_stored_payload_is_exact(
    before: BleB2OperationStorage,
    after: BleB2OperationStorage,
    payload: Seq<u8>,
)
    requires
        payload.len() <= 31,
        after.holds_payload(before, payload),
    ensures
        after.advertising_len == payload.len(),
        after.advertising_data@.take(payload.len() as int) == payload,
        after.advertising_data@.skip(payload.len() as int) == before.advertising_data@.skip(
            payload.len() as int,
        ),
{
    assert(after.advertising_data@.take(payload.len() as int) =~= payload);
    assert(after.advertising_data@.skip(payload.len() as int) =~= before.advertising_data@.skip(
        payload.len() as int,
    ));
}

/// Values are refused exactly when one is longer than 32 bytes; the error tells
/// the length of the first that is.
pub proof fn law_long_values_are_refused(characteristic: Seq<u8>, descriptor: Seq<u8>)
    requires
        characteristic.len() <= usize::MAX,
        descriptor.len() <= usize::MAX,
    ensures
        BleB2OperationStorage::value_refusal(characteristic, descriptor) is None
            <==> characteristic.len() <= 32 && descriptor.len() <= 32,
        characteristic.len() > 32 ==> BleB2OperationStorage::value_refusal(
            characteristic,
            descriptor,
        ) == Some(BleB3Error::ValueTooLong { length: characteristic.len() as usize }),
        characteristic.len() <= 32 && descriptor.len() > 32 ==> BleB2OperationStorage::value_refusal(
            characteristic,
            descriptor,
        ) == Some(BleB3Error::ValueTooLong { length: descriptor.len() as usize }),
{
}

/// Until a request is stored, advertising runs every 20 to 60 ms on all three
/// channels and scanning passively and without a pause; nothing is advertised.
pub proof fn law_fresh_storage_has_the_documented_timing(storage: BleB2OperationStorage)
    requires
        call_ensures(BleB2OperationStorage::new, (), storage),
    ensures
        storage.advertising_len == 0,
        storage.advertising_parameters.min_interval == 32,
        storage.advertising_parameters.max_interval == 96,
        storage.advertising_parameters.channel_map == 7,
        storage.scan_parameters.interval == 72,
        storage.scan_parameters.window == storage.scan_parameters.interval,
        storage.scan_parameters.scan_type == 0,
        storage.scan_parameters.phy == 1,
        forall|i: int| 0 <= i < 31 ==> storage.advertising_data@[i] == 0,
        forall|i: int| 0 <= i < 32 ==> storage.gatt_characteristic_value@[i] == 0,
        forall|i: int| 0 <= i < 32 ==> storage.gatt_descriptor_value@[i] == 0,
{
}

/// An arena is granted exactly to the first claim of one that is large enough. The
/// grant covers the whole arena; one that is too small is told both sizes and
/// stays unclaimed.
pub proof fn law_arena_is_granted_whole<const N: usize>(storage: BleB1ArenaStorage<N>)
    ensures
        storage.install_result() is Ok <==> !storage.claimed && N >= 303104,
        storage.install_result() matches Ok(claim) ==> claim.bytes == N,
        storage.install_result() is Ok ==> storage.after_install().claimed,
        N < 303104 ==> storage.after_install() == storage && storage.install_result() == Err::<
            ArenaClaim,
            BleB1InitError,
        >(BleB1InitError::InsufficientArena { required: 303104, available: N }),
        N >= 303104 && storage.claimed ==> storage.install_result() == Err::<
            ArenaClaim,
            BleB1InitError,
        >(BleB1InitError::StorageAlreadyInstalled),
{
}

/// The control state is set up, empty, exactly when the allocator took the arena.
pub proof fn law_control_state_needs_the_allocator(
    claim: ArenaClaim,
    accepted: bool,
    result: Result<InstalledBleB1Storage, BleB1InitError>,
)
    requires
        call_ensures(ArenaClaim::complete, (claim, accepted), result),
    ensures
        result is Ok <==> accepted,
        result matches Err(error) ==> error is AllocatorInstall,
        result matches Ok(installed) ==> installed.events@.len() == 0 && installed.events.dropped
            == 0 && installed.events.enable is None && installed.operations.advertising_len == 0,
{
}

/// Two values are stored exactly when both fit into 32 bytes, each in its own buffer and
/// with zeros behind it; nothing else changes.
pub proof fn law_values_are_stored_in_their_buffers(characteristic: &[u8], descriptor: &[u8])
    ensures
        forall|storage: &mut BleB2OperationStorage, result: Result<(), BleB3Error>| #[trigger]
            call_ensures(
                BleB2OperationStorage::store_gatt_values,
                (storage, characteristic, descriptor),
                result,
            ) ==> {
                let after = *final(storage);
                &&& result is Ok <==> characteristic@.len() <= 32 && descriptor@.len() <= 32
                &&& result is Err ==> after == *storage
                &&& result is Ok ==> forall|i: int|
                    0 <= i < 32 ==> #[trigger] after.gatt_characteristic_value@[i] == (if i
                        < characteristic@.len() {
                        characteristic@[i]
                    } else {
                        0
                    })
                &&& result is Ok ==> forall|i: int|
                    0 <= i < 32 ==> #[trigger] after.gatt_descriptor_value@[i] == (if i
                        < descriptor@.len() {
                        descriptor@[i]
                    } else {
                        0
                    })
                &&& after.advertising_len == (*storage).advertising_len
                    && after.scan_parameters == (*storage).scan_parameters
            },
{
}

} // verus!
