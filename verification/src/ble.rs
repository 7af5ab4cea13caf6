//! BLE controller and host: bounded initialization, advertising, scanning, GATT
//! and pairing.
//!
//! Every vendor call is made by the application. This module decides which call
//! comes next, what it is handed, and what its status means, and it copies what
//! the vendor reports into a bounded queue of events.

pub mod configuration;
pub mod controller;
pub mod events;
pub mod gatt_server;
pub mod init;
pub mod requests;
pub mod storage;

use vstd::prelude::*;

verus! {

/// Bytes of the heap shared by the radio stacks.
pub const WS63_SHARED_RADIO_ARENA_BYTES: usize = 303104;

/// Caller-owned heap shared by the BLE host, the controller and the RTOS objects.
pub const BLE_B1_ARENA_BYTES: usize = WS63_SHARED_RADIO_ARENA_BYTES;

/// Smallest stack in the task profile.
pub const BLE_B1_MINIMUM_TASK_STACK_BYTES: usize = 512;

pub const TASK_COUNT: usize = 4;

pub const STACK_BT: usize = 3_584;

pub const STACK_BT_SDK: usize = 2_048;

pub const STACK_BTH_SDK: usize = 512;

pub const STACK_BT_SERVICE: usize = 4_096;

pub const PRIORITY_BT: u8 = 1;

pub const PRIORITY_BT_SDK: u8 = 12;

pub const PRIORITY_BTH_SDK: u8 = 13;

pub const PRIORITY_BT_SERVICE: u8 = 12;

pub const OWNER_BT: u32 = 0x424c_4501;

pub const OWNER_BT_SDK: u32 = 0x424c_4502;

pub const OWNER_BTH_SDK: u32 = 0x424c_4503;

pub const OWNER_BT_SERVICE: u32 = 0x424c_4504;

/// Events that are kept until they are read.
pub const BLE_B2_EVENT_CAPACITY: usize = 32;

/// Bytes of a legacy advertising payload.
pub const BLE_B2_ADV_DATA_CAPACITY: usize = 31;

/// Bytes of a GATT value.
pub const BLE_B3_VALUE_CAPACITY: usize = 32;

/// UUID of the interoperability service.
pub const BLE_B3_SERVICE_UUID: u16 = 0xABCD;

/// UUID of the read, write, notify and indicate characteristic.
pub const BLE_B3_CHARACTERISTIC_UUID: u16 = 0xCDEF;

/// UUID of the Client Characteristic Configuration descriptor.
pub const BLE_B3_CCC_UUID: u16 = 0x2902;

/// UUID of the server application.
pub const BLE_B3_SERVER_APP_UUID: u16 = 0xB301;

/// UUID of the client application.
pub const BLE_B3_CLIENT_APP_UUID: u16 = 0xB302;

/// One bounded event copied out of a vendor callback.
#[derive(Clone, Copy, Debug, Eq, PartialEq)]
pub enum BleB2Event {
    /// The controller and host enable request completed.
    Enabled { status: u32 },
    /// Advertising data was accepted or rejected.
    AdvertisingData { adv_id: u8, status: u32 },
    /// Advertising parameters were accepted or rejected.
    AdvertisingParameters { adv_id: u8, status: u32 },
    /// Advertising entered the reported vendor state.
    AdvertisingState { adv_id: u8, status: u32 },
    /// Advertising stopped for the reported handle.
    AdvertisingStopped { adv_id: u8, status: u32 },
    /// Scan parameters were accepted or rejected.
    ScanParameters { status: u32 },
    /// A scan result.
    ScanResult { address: [u8; 6], address_type: u8, rssi: i8, data_len: u8, data: [u8; 31] },
    /// A peer connected or disconnected.
    ConnectionState {
        conn_id: u16,
        address: [u8; 6],
        address_type: u8,
        connected: bool,
        pair_state: u32,
        reason: u32,
    },
    /// Pairing reached a terminal vendor result. It carries no key bytes.
    PairingComplete { conn_id: u16, address: [u8; 6], address_type: u8, status: u32 },
    /// Link authentication completed. It carries no key bytes.
    AuthenticationComplete {
        conn_id: u16,
        address: [u8; 6],
        address_type: u8,
        status: u32,
        ltk_present: bool,
    },
    /// The local service start request completed.
    GattServiceStarted { server_id: u8, service_handle: u16, status: u32 },
    /// A write request arrived at the server.
    GattServerWrite {
        server_id: u8,
        conn_id: u16,
        handle: u16,
        status: u32,
        value_len: u8,
        value: [u8; 32],
    },
    /// The peer confirmed a server indication.
    GattIndicationConfirmed { server_id: u8, conn_id: u16, status: u32 },
    /// A service that matches a discovery request.
    GattServiceDiscovered {
        client_id: u8,
        conn_id: u16,
        start_handle: u16,
        end_handle: u16,
        uuid: u16,
        status: u32,
    },
    /// A characteristic that matches a discovery request.
    GattCharacteristicDiscovered {
        client_id: u8,
        conn_id: u16,
        declaration_handle: u16,
        value_handle: u16,
        properties: u8,
        uuid: u16,
        status: u32,
    },
    /// A descriptor of a characteristic.
    GattDescriptorDiscovered {
        client_id: u8,
        conn_id: u16,
        handle: u16,
        uuid: u16,
        status: u32,
    },
    /// A client write request completed.
    GattWriteCompleted { client_id: u8, conn_id: u16, handle: u16, status: u32 },
    /// A notification arrived at the client.
    GattNotification {
        client_id: u8,
        conn_id: u16,
        handle: u16,
        status: u32,
        value_len: u8,
        value: [u8; 32],
    },
    /// An indication arrived at the client.
    GattIndication {
        client_id: u8,
        conn_id: u16,
        handle: u16,
        status: u32,
        value_len: u8,
        value: [u8; 32],
    },
}

/// Handles that the vendor allocated for the GATT server.
#[derive(Clone, Copy, Debug, Eq, PartialEq, Structural)]
pub struct BleGattServer {
    /// Vendor server identifier.
    pub server_id: u8,
    /// Primary service handle.
    pub service_handle: u16,
    /// Characteristic value handle, for writes and outbound values.
    pub value_handle: u16,
    /// Client Characteristic Configuration descriptor handle.
    pub ccc_handle: u16,
}

/// Identifier that the vendor allocated for the GATT client.
#[derive(Clone, Copy, Debug, Eq, PartialEq, Structural)]
pub struct BleGattClient {
    /// Vendor client identifier.
    pub client_id: u8,
}

/// Errors of the pairing contract.
#[derive(Clone, Copy, Debug, Eq, PartialEq, Structural)]
pub enum BleSecurityError {
    /// The vendor host rejected the security policy.
    Configure(u32),
    /// The vendor host rejected the pairing request.
    Pair(u32),
    /// Querying the pairing state failed.
    Query(u32),
    /// The vendor host returned a pairing state outside its ABI.
    UnknownPairingState(u32),
    /// Removing the stored peer relationship failed.
    RemoveBond(u32),
    /// The operation is unavailable outside target firmware.
    UnsupportedTarget,
}

/// Errors of the GATT contract.
#[derive(Clone, Copy, Debug, Eq, PartialEq, Structural)]
pub enum BleB3Error {
    /// Stopping the active scan failed.
    StopScanning(u32),
    /// Starting an ACL connection failed.
    Connect(u32),
    /// Registering the GATT server application failed.
    RegisterServer(u32),
    /// Adding the primary service failed.
    AddService(u32),
    /// Adding the characteristic failed.
    AddCharacteristic(u32),
    /// Adding the CCC descriptor failed.
    AddDescriptor(u32),
    /// Starting the primary service failed.
    StartService(u32),
    /// Registering the GATT client application failed.
    RegisterClient(u32),
    /// Starting service discovery failed.
    DiscoverService(u32),
    /// Starting characteristic discovery failed.
    DiscoverCharacteristic(u32),
    /// Starting descriptor discovery failed.
    DiscoverDescriptor(u32),
    /// Submitting a GATT write request failed.
    Write(u32),
    /// Submitting a notification or indication failed.
    NotifyOrIndicate(u32),
    /// Disconnecting the peer failed.
    Disconnect(u32),
    /// A payload is longer than a value can be.
    ValueTooLong { length: usize },
    /// The definition is not one service with one characteristic and one
    /// descriptor, or its values can be too long.
    UnsupportedDatabase,
    /// The operation is unavailable outside target firmware.
    UnsupportedTarget,
}

/// Errors of advertising and scanning.
#[derive(Clone, Copy, Debug, Eq, PartialEq, Structural)]
pub enum BleB2Error {
    /// Legacy advertising data is limited to 31 bytes.
    AdvertisingDataTooLong { length: usize },
    /// The vendor stack rejected the advertising data.
    SetAdvertisingData(u32),
    /// The vendor stack rejected the advertising parameters.
    SetAdvertisingParameters(u32),
    /// The vendor stack rejected the advertising start request.
    StartAdvertising(u32),
    /// The vendor stack rejected the scan parameters.
    SetScanParameters(u32),
    /// The vendor stack rejected the scan start request.
    StartScanning(u32),
    /// The vendor stack rejected the advertising stop request.
    StopAdvertising(u32),
    /// The vendor stack rejected the scan stop request.
    StopScanning(u32),
    /// Duplicate filtering is not exposed.
    DuplicateFilteringUnsupported,
    /// The operation is unavailable outside target firmware.
    UnsupportedTarget,
}

/// Errors of initialization.
#[derive(Clone, Copy, Debug, Eq, PartialEq, Structural)]
pub enum BleB1InitError {
    /// Caller storage was already consumed.
    StorageAlreadyInstalled,
    /// Caller storage is smaller than the arena.
    InsufficientArena { required: usize, available: usize },
    /// The process-wide allocator rejected the caller storage.
    AllocatorInstall,
    /// The task plan cannot be requested.
    TaskPlan,
    /// Task admission failed before any task was created.
    TaskAdmission,
    /// Scheduler locking failed.
    SchedulerLock,
    /// One admitted vendor task could not be created.
    TaskSpawn { index: usize },
    /// Scheduler unlocking failed.
    SchedulerUnlock,
    /// The runtime could not hand off to the newly ready tasks.
    TaskHandoff,
    /// The hardware entropy service could not be installed.
    Crypto,
    /// The vendor enable call failed.
    Enable(u32),
    /// Another controller already owns the process-wide callback sink.
    EventSinkAlreadyInstalled,
    /// GAP callback registration failed.
    RegisterCallbacks(u32),
    /// GATT server callback registration failed.
    RegisterGattServerCallbacks(u32),
    /// GATT client callback registration failed.
    RegisterGattClientCallbacks(u32),
    /// Initialization is executable only on target firmware.
    UnsupportedTarget,
}

/// Where the library runs.
#[derive(Clone, Copy, Debug, Eq, PartialEq, Structural)]
pub enum Platform {
    /// Target firmware, which can make the vendor calls.
    Firmware,
    /// A host build, which cannot.
    Host,
}

} // verus!
