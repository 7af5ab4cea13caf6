//! Operations of an initialized controller.
//!
//! An operation gives the vendor call to make first. The status of each call
//! either ends the operation with an error, or gives the next call.

use crate::ble::configuration::{
    decode_pairing_state, AdvertisingConfig, BdAddr, BluetoothAddress, BtUuid,
    GapBleSecurityParameters, PairingState, ScanConfig, ScanMode, SecurityConfig,
};
use crate::ble::events::BleEventQueue;
use crate::ble::storage::BleB2OperationStorage;
use crate::ble::{
    BleB2Error, BleB2Event, BleB3Error, BleGattClient, BleGattServer, BleSecurityError, Platform,
    BLE_B3_CHARACTERISTIC_UUID, BLE_B3_CLIENT_APP_UUID, BLE_B3_SERVICE_UUID, BLE_B3_VALUE_CAPACITY,
};
use vstd::prelude::*;

verus! {

/// A call of advertising or scanning. Its data stands in the operation storage.
#[derive(Clone, Copy, Debug, PartialEq, Eq, Structural)]
pub enum BleB2Call {
    SetAdvertisingData,
    SetAdvertisingParameters,
    StartAdvertising,
    SetScanParameters,
    StartScanning,
    StopAdvertising,
    StopScanning,
}

impl BleB2Call {
    /// The error that a failed call is reported as.
    pub open spec fn failure(self, status: u32) -> BleB2Error {
        match self {
            BleB2Call::SetAdvertisingData => BleB2Error::SetAdvertisingData(status),
            BleB2Call::SetAdvertisingParameters => BleB2Error::SetAdvertisingParameters(status),
            BleB2Call::StartAdvertising => BleB2Error::StartAdvertising(status),
            BleB2Call::SetScanParameters => BleB2Error::SetScanParameters(status),
            BleB2Call::StartScanning => BleB2Error::StartScanning(status),
            BleB2Call::StopAdvertising => BleB2Error::StopAdvertising(status),
            BleB2Call::StopScanning => BleB2Error::StopScanning(status),
        }
    }

    /// The call that follows an accepted one, if one does.
    pub open spec fn following(self) -> Option<BleB2Call> {
        match self {
            BleB2Call::SetAdvertisingData => Some(BleB2Call::SetAdvertisingParameters),
            BleB2Call::SetAdvertisingParameters => Some(BleB2Call::StartAdvertising),
            BleB2Call::SetScanParameters => Some(BleB2Call::StartScanning),
            _ => None,
        }
    }

    /// What the status of a call leads to: the next call, the end, or an error.
    pub open spec fn outcome(self, status: u32) -> Result<Option<BleB2Call>, BleB2Error> {
        if status != 0 {
            Err(self.failure(status))
        } else {
            Ok(self.following())
        }
    }

    /// Take the status of a call.
    pub fn complete(self, status: u32) -> (result: Result<Option<BleB2Call>, BleB2Error>)
        ensures
            result == self.outcome(status),
    {
        if status != 0 {
            return Err(
                match self {
                    BleB2Call::SetAdvertisingData => BleB2Error::SetAdvertisingData(status),
                    BleB2Call::SetAdvertisingParameters => {
                        BleB2Error::SetAdvertisingParameters(status)
                    },
                    BleB2Call::StartAdvertising => BleB2Error::StartAdvertising(status),
                    BleB2Call::SetScanParameters => BleB2Error::SetScanParameters(status),
                    BleB2Call::StartScanning => BleB2Error::StartScanning(status),
                    BleB2Call::StopAdvertising => BleB2Error::StopAdvertising(status),
                    BleB2Call::StopScanning => BleB2Error::StopScanning(status),
                },
            );
        }
        Ok(
            match self {
                BleB2Call::SetAdvertisingData => Some(BleB2Call::SetAdvertisingParameters),
                BleB2Call::SetAdvertisingParameters => Some(BleB2Call::StartAdvertising),
                BleB2Call::SetScanParameters => Some(BleB2Call::StartScanning),
                _ => None,
            },
        )
    }

    /// The end of an operation that starts with this call, once enough statuses
    /// are there.
    pub open spec fn end(self, statuses: Seq<u32>) -> Option<Result<(), BleB2Error>>
        decreases statuses.len(),
    {
        if statuses.len() == 0 {
            None
        } else {
            match self.outcome(statuses[0]) {
                Err(error) => Some(Err(error)),
                Ok(None) => Some(Ok(())),
                Ok(Some(next)) => next.end(statuses.skip(1)),
            }
        }
    }
}

/// A call of the GATT client, of an outbound value or of a link.
#[derive(Clone, Copy, Debug, PartialEq, Eq)]
pub enum BleB3Call {
    /// Stop the scan, before a connection to the address is started.
    StopScanning { then: BdAddr },
    Connect { address: BdAddr },
    Disconnect { address: BdAddr },
    RegisterClient { app: BtUuid },
    DiscoverService { client_id: u8, conn_id: u16, uuid: BtUuid },
    DiscoverCharacteristic { client_id: u8, conn_id: u16, service_handle: u16, uuid: BtUuid },
    DiscoverDescriptors { client_id: u8, conn_id: u16, declaration_handle: u16 },
    Write { client_id: u8, conn_id: u16, handle: u16, data_len: u16 },
    NotifyOrIndicate { server_id: u8, conn_id: u16, attr_handle: u16, value_len: u16 },
}

impl BleB3Call {
    /// The error that a failed call is reported as.
    pub open spec fn failure(self, status: u32) -> BleB3Error {
        match self {
            BleB3Call::StopScanning { .. } => BleB3Error::StopScanning(status),
            BleB3Call::Connect { .. } => BleB3Error::Connect(status),
            BleB3Call::Disconnect { .. } => BleB3Error::Disconnect(status),
            BleB3Call::RegisterClient { .. } => BleB3Error::RegisterClient(status),
            BleB3Call::DiscoverService { .. } => BleB3Error::DiscoverService(status),
            BleB3Call::DiscoverCharacteristic { .. } => BleB3Error::DiscoverCharacteristic(status),
            BleB3Call::DiscoverDescriptors { .. } => BleB3Error::DiscoverDescriptor(status),
            BleB3Call::Write { .. } => BleB3Error::Write(status),
            BleB3Call::NotifyOrIndicate { .. } => BleB3Error::NotifyOrIndicate(status),
        }
    }

    /// What the status of a call leads to: the next call, the end, or an error.
    pub open spec fn outcome(self, status: u32) -> Result<Option<BleB3Call>, BleB3Error> {
        if status != 0 {
            Err(self.failure(status))
        } else {
            match self {
                BleB3Call::StopScanning { then } => Ok(Some(BleB3Call::Connect { address: then })),
                _ => Ok(None),
            }
        }
    }

    /// Take the status of a call.
    pub fn complete(self, status: u32) -> (result: Result<Option<BleB3Call>, BleB3Error>)
        ensures
            result == self.outcome(status),
    {
        if status != 0 {
            return Err(
                match self {
                    BleB3Call::StopScanning { .. } => BleB3Error::StopScanning(status),
                    BleB3Call::Connect { .. } => BleB3Error::Connect(status),
                    BleB3Call::Disconnect { .. } => BleB3Error::Disconnect(status),
                    BleB3Call::RegisterClient { .. } => BleB3Error::RegisterClient(status),
                    BleB3Call::DiscoverService { .. } => BleB3Error::DiscoverService(status),
                    BleB3Call::DiscoverCharacteristic { .. } => {
                        BleB3Error::DiscoverCharacteristic(status)
                    },
                    BleB3Call::DiscoverDescriptors { .. } => BleB3Error::DiscoverDescriptor(status),
                    BleB3Call::Write { .. } => BleB3Error::Write(status),
                    BleB3Call::NotifyOrIndicate { .. } => BleB3Error::NotifyOrIndicate(status),
                },
            );
        }
        match self {
            BleB3Call::StopScanning { then } => Ok(Some(BleB3Call::Connect { address: then })),
            _ => Ok(None),
        }
    }
}

/// The client of a registration call.
pub fn registered_client(status: u32, client_id: u8) -> (result: Result<BleGattClient, BleB3Error>)
    ensures
        result == (if status != 0 {
            Err::<BleGattClient, BleB3Error>(BleB3Error::RegisterClient(status))
        } else {
            Ok(BleGattClient { client_id })
        }),
{
    if status != 0 {
        return Err(BleB3Error::RegisterClient(status));
    }
    Ok(BleGattClient { client_id })
}

/// A call of the pairing contract.
#[derive(Clone, Copy, Debug, PartialEq, Eq)]
pub enum BleSecurityCall {
    Configure { parameters: GapBleSecurityParameters },
    Pair { address: BdAddr },
    Query { address: BdAddr },
    RemoveBond { address: BdAddr },
}

impl BleSecurityCall {
    /// The error that a failed call is reported as.
    pub open spec fn failure(self, status: u32) -> BleSecurityError {
        match self {
            BleSecurityCall::Configure { .. } => BleSecurityError::Configure(status),
            BleSecurityCall::Pair { .. } => BleSecurityError::Pair(status),
            BleSecurityCall::Query { .. } => BleSecurityError::Query(status),
            BleSecurityCall::RemoveBond { .. } => BleSecurityError::RemoveBond(status),
        }
    }

    /// Take the status of a call.
    pub fn complete(self, status: u32) -> (result: Result<(), BleSecurityError>)
        ensures
            result == (if status != 0 {
                Err::<(), BleSecurityError>(self.failure(status))
            } else {
                Ok(())
            }),
    {
        if status == 0 {
            return Ok(());
        }
        Err(
            match self {
                BleSecurityCall::Configure { .. } => BleSecurityError::Configure(status),
                BleSecurityCall::Pair { .. } => BleSecurityError::Pair(status),
                BleSecurityCall::Query { .. } => BleSecurityError::Query(status),
                BleSecurityCall::RemoveBond { .. } => BleSecurityError::RemoveBond(status),
            },
        )
    }
}

/// The pairing state that a query reported.
pub fn queried_pairing_state(status: u32, state: u32) -> (result: Result<
    PairingState,
    BleSecurityError,
>)
    ensures
        result == (if status != 0 {
            Err::<PairingState, BleSecurityError>(BleSecurityError::Query(status))
        } else {
            crate::ble::configuration::pairing_state_of(state)
        }),
{
    if status != 0 {
        return Err(BleSecurityError::Query(status));
    }
    decode_pairing_state(state)
}

/// An initialized controller.
#[derive(Clone, Copy, Debug)]
pub struct BleB1Controller {
    pub platform: Platform,
    pub events: BleEventQueue,
    pub operations: BleB2OperationStorage,
}

impl BleB1Controller {
    pub open spec fn wf(self) -> bool {
        self.events.wf()
    }

    /// Take the oldest event.
    pub fn next_event(&mut self) -> (event: Option<BleB2Event>)
        requires
            old(self).wf(),
        ensures
            final(self).wf(),
            match event {
                Some(oldest) => old(self).events@.len() > 0 && oldest == old(self).events@[0]
                    && final(self).events@ == old(self).events@.skip(1),
                None => old(self).events@.len() == 0 && final(self).events@ == old(self).events@,
            },
            *final(self) == (Self { events: final(self).events, ..*old(self) }),
            final(self).events.dropped == old(self).events.dropped,
            final(self).events.enable == old(self).events.enable,
    {
        self.events.pop()
    }

    /// Number of events that were rejected because the queue was full.
    pub fn dropped_events(&self) -> (dropped: u32)
        ensures
            dropped == self.events.dropped,
    {
        self.events.dropped
    }

    /// The status of the enable request, once it was reported. Its event stays.
    pub fn enable_status(&self) -> (status: Option<u32>)
        ensures
            status == self.events.enable,
    {
        self.events.enable_status()
    }

    /// Store an advertising request and start it.
    pub fn start_advertising_config(&mut self, config: &AdvertisingConfig) -> (result: Result<
        BleB2Call,
        BleB2Error,
    >)
        requires
            config.wf(),
        ensures
            match old(self).platform {
                Platform::Host => result == Err::<BleB2Call, BleB2Error>(
                    BleB2Error::UnsupportedTarget,
                ) && *final(self) == *old(self),
                Platform::Firmware => result == Ok::<BleB2Call, BleB2Error>(
                    BleB2Call::SetAdvertisingData,
                ) && final(self).operations.holds_payload(old(self).operations, config.payload@)
                    && final(self).advertises(config.minimum, config.maximum, config.channels)
                    && final(self).advertising_only(*old(self)),
            },
    {
        match self.platform {
            Platform::Host => Err(BleB2Error::UnsupportedTarget),
            Platform::Firmware => {
                self.operations.store_advertising(config);
                Ok(BleB2Call::SetAdvertisingData)
            },
        }
    }

    /// The intervals and the channels that the next advertising uses.
    pub open spec fn advertises(self, minimum: u16, maximum: u16, channels: u8) -> bool {
        let parameters = self.operations.advertising_parameters;
        parameters.min_interval == minimum && parameters.max_interval == maximum
            && parameters.channel_map == channels
    }

    /// Nothing but the payload, the intervals and the channels of the advertising
    /// request differs.
    pub open spec fn advertising_only(self, before: Self) -> bool {
        let now = self.operations.advertising_parameters;
        let then = before.operations.advertising_parameters;
        &&& self.platform == before.platform
        &&& self.events == before.events
        &&& self.operations == (BleB2OperationStorage {
            advertising_data: self.operations.advertising_data,
            advertising_len: self.operations.advertising_len,
            advertising_parameters: now,
            ..before.operations
        })
        &&& now == (crate::ble::configuration::GapBleAdvertisingParameters {
            min_interval: now.min_interval,
            max_interval: now.max_interval,
            channel_map: now.channel_map,
            ..then
        })
    }

    /// Advertise a payload on every channel, every 20 to 60 ms.
    pub fn start_advertising(&mut self, advertising_data: &[u8]) -> (result: Result<
        BleB2Call,
        BleB2Error,
    >)
        ensures
            result == (match old(self).platform {
                Platform::Host => Err::<BleB2Call, BleB2Error>(BleB2Error::UnsupportedTarget),
                Platform::Firmware => if advertising_data@.len() > 31 {
                    Err(
                        BleB2Error::AdvertisingDataTooLong {
                            length: advertising_data@.len() as usize,
                        },
                    )
                } else {
                    Ok(BleB2Call::SetAdvertisingData)
                },
            }),
            result is Err ==> *final(self) == *old(self),
            result is Ok ==> final(self).operations.holds_payload(
                old(self).operations,
                advertising_data@,
            ),
            result is Ok ==> final(self).advertises(0x20, 0x60, 0x07),
            result is Ok ==> final(self).advertising_only(*old(self)),
    {
        match self.platform {
            Platform::Host => Err(BleB2Error::UnsupportedTarget),
            Platform::Firmware => match AdvertisingConfig::try_new(
                0x20,
                0x60,
                0x07,
                advertising_data,
            ) {
                None => Err(BleB2Error::AdvertisingDataTooLong { length: advertising_data.len() }),
                Some(config) => self.start_advertising_config(&config),
            },
        }
    }

    /// Store a scan request and start it.
    pub fn start_scanning_config(&mut self, config: &ScanConfig) -> (result: Result<
        BleB2Call,
        BleB2Error,
    >)
        ensures
            result == (match old(self).platform {
                Platform::Host => Err::<BleB2Call, BleB2Error>(BleB2Error::UnsupportedTarget),
                Platform::Firmware => if config.filter_duplicates {
                    Err(BleB2Error::DuplicateFilteringUnsupported)
                } else {
                    Ok(BleB2Call::SetScanParameters)
                },
            }),
            result is Err ==> *final(self) == *old(self),
            result is Ok ==> *final(self) == old(self).scanning(*config),
    {
        match self.platform {
            Platform::Host => Err(BleB2Error::UnsupportedTarget),
            Platform::Firmware => {
                if config.filter_duplicates {
                    return Err(BleB2Error::DuplicateFilteringUnsupported);
                }
                self.operations.store_scan(config);
                Ok(BleB2Call::SetScanParameters)
            },
        }
    }

    /// The controller with a scan request stored.
    pub open spec fn scanning(self, config: ScanConfig) -> Self {
        Self {
            operations: BleB2OperationStorage {
                scan_parameters: crate::ble::configuration::GapBleScanParameters {
                    interval: config.interval,
                    window: config.window,
                    scan_type: if config.mode is Active {
                        1
                    } else {
                        0
                    },
                    ..self.operations.scan_parameters
                },
                ..self.operations
            },
            ..self
        }
    }

    /// Scan passively and continuously on the 1M PHY.
    pub fn start_scanning(&mut self) -> (result: Result<BleB2Call, BleB2Error>)
        ensures
            match old(self).platform {
                Platform::Host => result == Err::<BleB2Call, BleB2Error>(
                    BleB2Error::UnsupportedTarget,
                ) && *final(self) == *old(self),
                Platform::Firmware => result == Ok::<BleB2Call, BleB2Error>(
                    BleB2Call::SetScanParameters,
                ) && *final(self) == old(self).scanning(
                    ScanConfig {
                        interval: 0x48,
                        window: 0x48,
                        mode: ScanMode::Passive,
                        filter_duplicates: false,
                    },
                ),
            },
    {
        self.start_scanning_config(
            &ScanConfig {
                interval: 0x48,
                window: 0x48,
                mode: ScanMode::Passive,
                filter_duplicates: false,
            },
        )
    }

    fn supported<T>(&self, call: T) -> (result: Option<T>)
        ensures
            result == (if self.platform is Firmware {
                Some(call)
            } else {
                None
            }),
    {
        match self.platform {
            Platform::Firmware => Some(call),
            Platform::Host => None,
        }
    }

    /// Stop advertising.
    pub fn stop_advertising(&self) -> (result: Result<BleB2Call, BleB2Error>)
        ensures
            result == self.b2_request(BleB2Call::StopAdvertising),
    {
        self.supported(BleB2Call::StopAdvertising).ok_or(BleB2Error::UnsupportedTarget)
    }

    /// Stop the active scan.
    pub fn stop_scanning(&self) -> (result: Result<BleB2Call, BleB2Error>)
        ensures
            result == self.b2_request(BleB2Call::StopScanning),
    {
        self.supported(BleB2Call::StopScanning).ok_or(BleB2Error::UnsupportedTarget)
    }

    /// A call that only target firmware can make.
    pub open spec fn b2_request(self, call: BleB2Call) -> Result<BleB2Call, BleB2Error> {
        if self.platform is Firmware {
            Ok(call)
        } else {
            Err(BleB2Error::UnsupportedTarget)
        }
    }

    /// A call that only target firmware can make.
    pub open spec fn b3_request(self, call: BleB3Call) -> Result<BleB3Call, BleB3Error> {
        if self.platform is Firmware {
            Ok(call)
        } else {
            Err(BleB3Error::UnsupportedTarget)
        }
    }

    /// A call that only target firmware can make.
    pub open spec fn security_request(self, call: BleSecurityCall) -> Result<
        BleSecurityCall,
        BleSecurityError,
    > {
        if self.platform is Firmware {
            Ok(call)
        } else {
            Err(BleSecurityError::UnsupportedTarget)
        }
    }

    /// Stop scanning and connect to an address.
    pub fn connect(&self, address: [u8; 6], address_type: u8) -> (result: Result<
        BleB3Call,
        BleB3Error,
    >)
        ensures
            result == self.b3_request(
                BleB3Call::StopScanning { then: BdAddr { addr: address, address_type } },
            ),
    {
        self.supported(
            BleB3Call::StopScanning { then: BdAddr { addr: address, address_type } },
        ).ok_or(BleB3Error::UnsupportedTarget)
    }

    /// Disconnect a peer. Its event tells when the link is gone.
    pub fn disconnect(&self, address: [u8; 6], address_type: u8) -> (result: Result<
        BleB3Call,
        BleB3Error,
    >)
        ensures
            result == self.b3_request(
                BleB3Call::Disconnect { address: BdAddr { addr: address, address_type } },
            ),
    {
        self.supported(
            BleB3Call::Disconnect { address: BdAddr { addr: address, address_type } },
        ).ok_or(BleB3Error::UnsupportedTarget)
    }

    /// Register the client application.
    pub fn register_gatt_client(&self) -> (result: Result<BleB3Call, BleB3Error>)
        ensures
            match result {
                Ok(call) => self.platform is Firmware && (call matches BleB3Call::RegisterClient {
                    app,
                } && app.is_short(BLE_B3_CLIENT_APP_UUID)),
                Err(error) => self.platform is Host && error is UnsupportedTarget,
            },
    {
        let app = BtUuid::from_u16(BLE_B3_CLIENT_APP_UUID);
        self.supported(BleB3Call::RegisterClient { app }).ok_or(BleB3Error::UnsupportedTarget)
    }

    /// Discover the service on a connected peer.
    pub fn discover_b3_service(&self, client: BleGattClient, conn_id: u16) -> (result: Result<
        BleB3Call,
        BleB3Error,
    >)
        ensures
            match result {
                Ok(call) => self.platform is Firmware && (call matches BleB3Call::DiscoverService {
                    client_id,
                    conn_id: connection,
                    uuid,
                } && client_id == client.client_id && connection == conn_id && uuid.is_short(
                    BLE_B3_SERVICE_UUID,
                )),
                Err(error) => self.platform is Host && error is UnsupportedTarget,
            },
    {
        let uuid = BtUuid::from_u16(BLE_B3_SERVICE_UUID);
        self.supported(
            BleB3Call::DiscoverService { client_id: client.client_id, conn_id, uuid },
        ).ok_or(BleB3Error::UnsupportedTarget)
    }

    /// Discover the characteristic within a discovered service.
    pub fn discover_b3_characteristic(
        &self,
        client: BleGattClient,
        conn_id: u16,
        service_handle: u16,
    ) -> (result: Result<BleB3Call, BleB3Error>)
        ensures
            match result {
                Ok(call) => self.platform is Firmware && (
                call matches BleB3Call::DiscoverCharacteristic {
                    client_id,
                    conn_id: connection,
                    service_handle: service,
                    uuid,
                } && client_id == client.client_id && connection == conn_id && service
                    == service_handle && uuid.is_short(BLE_B3_CHARACTERISTIC_UUID)),
                Err(error) => self.platform is Host && error is UnsupportedTarget,
            },
    {
        let uuid = BtUuid::from_u16(BLE_B3_CHARACTERISTIC_UUID);
        self.supported(
            BleB3Call::DiscoverCharacteristic {
                client_id: client.client_id,
                conn_id,
                service_handle,
                uuid,
            },
        ).ok_or(BleB3Error::UnsupportedTarget)
    }

    /// Discover the descriptors of a characteristic.
    pub fn discover_descriptors(
        &self,
        client: BleGattClient,
        conn_id: u16,
        declaration_handle: u16,
    ) -> (result: Result<BleB3Call, BleB3Error>)
        ensures
            result == self.b3_request(
                BleB3Call::DiscoverDescriptors {
                    client_id: client.client_id,
                    conn_id,
                    declaration_handle,
                },
            ),
    {
        self.supported(
            BleB3Call::DiscoverDescriptors {
                client_id: client.client_id,
                conn_id,
                declaration_handle,
            },
        ).ok_or(BleB3Error::UnsupportedTarget)
    }

    /// Write a value to a peer.
    pub fn gatt_write(&self, client: BleGattClient, conn_id: u16, handle: u16, value: &[u8]) -> (
    result: Result<BleB3Call, BleB3Error>)
        ensures
            result == (if self.platform is Firmware && value@.len() > BLE_B3_VALUE_CAPACITY {
                Err::<BleB3Call, BleB3Error>(
                    BleB3Error::ValueTooLong { length: value@.len() as usize },
                )
            } else {
                self.b3_request(
                    BleB3Call::Write {
                        client_id: client.client_id,
                        conn_id,
                        handle,
                        data_len: value@.len() as u16,
                    },
                )
            }),
    {
        match self.platform {
            Platform::Host => Err(BleB3Error::UnsupportedTarget),
            Platform::Firmware => {
                if value.len() > BLE_B3_VALUE_CAPACITY {
                    return Err(BleB3Error::ValueTooLong { length: value.len() });
                }
                Ok(
                    BleB3Call::Write {
                        client_id: client.client_id,
                        conn_id,
                        handle,
                        data_len: value.len() as u16,
                    },
                )
            },
        }
    }

    /// Send a value to a peer, as its CCC value asks for.
    pub fn gatt_notify_or_indicate(
        &self,
        server: BleGattServer,
        conn_id: u16,
        value: &[u8],
    ) -> (result: Result<BleB3Call, BleB3Error>)
        ensures
            result == (if self.platform is Firmware && value@.len() > BLE_B3_VALUE_CAPACITY {
                Err::<BleB3Call, BleB3Error>(
                    BleB3Error::ValueTooLong { length: value@.len() as usize },
                )
            } else {
                self.b3_request(
                    BleB3Call::NotifyOrIndicate {
                        server_id: server.server_id,
                        conn_id,
                        attr_handle: server.value_handle,
                        value_len: value@.len() as u16,
                    },
                )
            }),
    {
        match self.platform {
            Platform::Host => Err(BleB3Error::UnsupportedTarget),
            Platform::Firmware => {
                if value.len() > BLE_B3_VALUE_CAPACITY {
                    return Err(BleB3Error::ValueTooLong { length: value.len() });
                }
                Ok(
                    BleB3Call::NotifyOrIndicate {
                        server_id: server.server_id,
                        conn_id,
                        attr_handle: server.value_handle,
                        value_len: value.len() as u16,
                    },
                )
            },
        }
    }

    /// Configure the host from a pairing policy.
    pub fn configure_security(&self, config: SecurityConfig) -> (result: Result<
        BleSecurityCall,
        BleSecurityError,
    >)
        ensures
            result == self.security_request(
                BleSecurityCall::Configure { parameters: GapBleSecurityParameters::of(config) },
            ),
    {
        self.supported(
            BleSecurityCall::Configure { parameters: GapBleSecurityParameters::from_config(config) },
        ).ok_or(BleSecurityError::UnsupportedTarget)
    }

    /// Start pairing with a peer.
    pub fn pair(&self, peer: BluetoothAddress) -> (result: Result<
        BleSecurityCall,
        BleSecurityError,
    >)
        ensures
            result == self.security_request(BleSecurityCall::Pair { address: BdAddr::of(peer) }),
    {
        self.supported(BleSecurityCall::Pair { address: BdAddr::from_typed(peer) }).ok_or(
            BleSecurityError::UnsupportedTarget,
        )
    }

    /// Query the pairing state of a peer.
    pub fn pairing_state(&self, peer: BluetoothAddress) -> (result: Result<
        BleSecurityCall,
        BleSecurityError,
    >)
        ensures
            result == self.security_request(BleSecurityCall::Query { address: BdAddr::of(peer) }),
    {
        self.supported(BleSecurityCall::Query { address: BdAddr::from_typed(peer) }).ok_or(
            BleSecurityError::UnsupportedTarget,
        )
    }

    /// Remove the stored relationship with a peer.
    pub fn remove_bond(&self, peer: BluetoothAddress) -> (result: Result<
        BleSecurityCall,
        BleSecurityError,
    >)
        ensures
            result == self.security_request(
                BleSecurityCall::RemoveBond { address: BdAddr::of(peer) },
            ),
    {
        self.supported(BleSecurityCall::RemoveBond { address: BdAddr::from_typed(peer) }).ok_or(
            BleSecurityError::UnsupportedTarget,
        )
    }
}

/// Advertising is started if and only if its data, its parameters and its start
/// were accepted, in this order. A refused call ends the operation with the error
/// of that call.
pub proof fn law_advertising_needs_every_acceptance(data: u32, parameters: u32, start: u32)
    ensures
        BleB2Call::SetAdvertisingData.end(seq![data, parameters, start]) == Some(
            if data != 0 {
                Err(BleB2Error::SetAdvertisingData(data))
            } else if parameters != 0 {
                Err(BleB2Error::SetAdvertisingParameters(parameters))
            } else if start != 0 {
                Err(BleB2Error::StartAdvertising(start))
            } else {
                Ok(())
            },
        ),
{
    let statuses = seq![data, parameters, start];
    reveal_with_fuel(BleB2Call::end, 4);
    assert(statuses.skip(1)[0] == parameters);
    assert(statuses.skip(1).skip(1)[0] == start);
}

/// Scanning is started if and only if its parameters and its start were accepted,
/// in this order.
pub proof fn law_scanning_needs_every_acceptance(parameters: u32, start: u32)
    ensures
        BleB2Call::SetScanParameters.end(seq![parameters, start]) == Some(
            if parameters != 0 {
                Err(BleB2Error::SetScanParameters(parameters))
            } else if start != 0 {
                Err(BleB2Error::StartScanning(start))
            } else {
                Ok(())
            },
        ),
{
    let statuses = seq![parameters, start];
    reveal_with_fuel(BleB2Call::end, 3);
    assert(statuses.skip(1)[0] == start);
}

/// A connection is asked for only once the scan was stopped, and at the address
/// that was given.
pub proof fn law_connection_follows_the_stopped_scan(address: BdAddr, status: u32)
    ensures
        (BleB3Call::StopScanning { then: address }).outcome(status) == (if status == 0 {
            Ok::<Option<BleB3Call>, BleB3Error>(Some(BleB3Call::Connect { address }))
        } else {
            Err(BleB3Error::StopScanning(status))
        }),
{
}

/// No call is made outside target firmware.
pub proof fn law_host_operations_fail_closed(
    controller: BleB1Controller,
    b2: BleB2Call,
    b3: BleB3Call,
    security: BleSecurityCall,
)
    requires
        controller.platform is Host,
    ensures
        controller.b2_request(b2) is Err,
        controller.b3_request(b3) is Err,
        controller.security_request(security) is Err,
{
}

} // verus!
