//! Registration of a GATT database with the vendor stack.

use crate::ble::configuration::{
    map_gatt_permissions, map_gatt_properties, BtUuid, GattPermissions, GattProperties, GattUuid,
};
use crate::ble::controller::BleB1Controller;
use crate::ble::storage::BleB2OperationStorage;
use crate::ble::{
    BleB3Error, BleGattServer, Platform, BLE_B3_CCC_UUID, BLE_B3_CHARACTERISTIC_UUID,
    BLE_B3_SERVER_APP_UUID, BLE_B3_SERVICE_UUID, BLE_B3_VALUE_CAPACITY,
};
use vstd::prelude::*;

verus! {

/// A descriptor of a characteristic.
#[derive(Clone, Debug)]
pub struct GattDescriptorDefinition {
    pub uuid: GattUuid,
    pub permissions: GattPermissions,
    pub initial_value: Vec<u8>,
    pub maximum_len: u16,
}

/// A characteristic of a service.
#[derive(Clone, Debug)]
pub struct GattCharacteristicDefinition {
    pub uuid: GattUuid,
    pub permissions: GattPermissions,
    pub properties: GattProperties,
    pub initial_value: Vec<u8>,
    pub maximum_len: u16,
    pub descriptors: Vec<GattDescriptorDefinition>,
}

/// A service of a database.
#[derive(Clone, Debug)]
pub struct GattServiceDefinition {
    pub uuid: GattUuid,
    pub primary: bool,
    pub characteristics: Vec<GattCharacteristicDefinition>,
}

/// A database, and the application it belongs to.
#[derive(Clone, Debug)]
pub struct GattServerDefinition {
    pub app_uuid: GattUuid,
    pub services: Vec<GattServiceDefinition>,
}

impl GattServerDefinition {
    /// The database is one service with one characteristic with one descriptor.
    pub open spec fn single(self) -> bool {
        self.services@.len() == 1 && self.services@[0].characteristics@.len() == 1
            && self.services@[0].characteristics@[0].descriptors@.len() == 1
    }

    pub open spec fn service(self) -> GattServiceDefinition {
        self.services@[0]
    }

    pub open spec fn characteristic(self) -> GattCharacteristicDefinition {
        self.service().characteristics@[0]
    }

    pub open spec fn descriptor(self) -> GattDescriptorDefinition {
        self.characteristic().descriptors@[0]
    }

    /// Why the database cannot be registered, if it cannot.
    pub open spec fn refusal(self) -> Option<BleB3Error> {
        if !self.single() || self.characteristic().maximum_len > BLE_B3_VALUE_CAPACITY
            || self.descriptor().maximum_len > BLE_B3_VALUE_CAPACITY {
            Some(BleB3Error::UnsupportedDatabase)
        } else {
            BleB2OperationStorage::value_refusal(
                self.characteristic().initial_value@,
                self.descriptor().initial_value@,
            )
        }
    }
}

/// A call of the registration. The values stand in the operation storage.
#[derive(Clone, Copy, Debug, PartialEq, Eq)]
pub enum GattServerCall {
    RegisterServer { app: BtUuid },
    AddService { server_id: u8, uuid: BtUuid, primary: bool },
    AddCharacteristic {
        server_id: u8,
        service_handle: u16,
        uuid: BtUuid,
        permissions: u8,
        properties: u8,
        value_len: u16,
    },
    AddDescriptor {
        server_id: u8,
        service_handle: u16,
        uuid: BtUuid,
        permissions: u8,
        value_len: u16,
    },
    StartService { server_id: u8, service_handle: u16 },
}

/// What a call reported: its status, and the identifier or handle that it
/// allocated.
#[derive(Clone, Copy, Debug, PartialEq, Eq, Structural)]
pub enum GattServerReply {
    Server { status: u32, server_id: u8 },
    Service { status: u32, handle: u16 },
    Characteristic { status: u32, value_handle: u16 },
    Descriptor { status: u32, handle: u16 },
    Started { status: u32 },
}

/// Where the registration stands.
#[derive(Clone, Copy, Debug, PartialEq, Eq)]
pub enum GattServerStep {
    Call(GattServerCall),
    Done(Result<BleGattServer, BleB3Error>),
}

/// A registration under way.
#[derive(Clone, Copy, Debug, PartialEq, Eq)]
pub struct GattServerRegistration {
    pub service: BtUuid,
    pub primary: bool,
    pub characteristic: BtUuid,
    pub characteristic_permissions: u8,
    pub properties: u8,
    pub characteristic_len: u16,
    pub descriptor: BtUuid,
    pub descriptor_permissions: u8,
    pub descriptor_len: u16,
    /// The identifiers and handles so far.
    pub server: BleGattServer,
    pub step: GattServerStep,
}

impl GattServerRegistration {
    /// The registration of a database, before its first call was answered.
    pub open spec fn begins(self, definition: GattServerDefinition) -> bool {
        &&& self.service.encodes(definition.service().uuid)
        &&& self.primary == definition.service().primary
        &&& self.characteristic.encodes(definition.characteristic().uuid)
        &&& self.characteristic_permissions == crate::ble::configuration::permission_bits(
            definition.characteristic().permissions,
        )
        &&& self.properties == crate::ble::configuration::property_bits(
            definition.characteristic().properties,
        )
        &&& self.characteristic_len == definition.characteristic().initial_value@.len()
        &&& self.descriptor.encodes(definition.descriptor().uuid)
        &&& self.descriptor_permissions == crate::ble::configuration::permission_bits(
            definition.descriptor().permissions,
        )
        &&& self.descriptor_len == definition.descriptor().initial_value@.len()
        &&& self.server == (BleGattServer {
            server_id: 0,
            service_handle: 0,
            value_handle: 0,
            ccc_handle: 0,
        })
        &&& self.step matches GattServerStep::Call(GattServerCall::RegisterServer { app })
            && app.encodes(definition.app_uuid)
    }

    /// The reply answers the call that was made.
    pub open spec fn awaits(self, reply: GattServerReply) -> bool {
        match self.step {
            GattServerStep::Call(GattServerCall::RegisterServer { .. }) => reply is Server,
            GattServerStep::Call(GattServerCall::AddService { .. }) => reply is Service,
            GattServerStep::Call(GattServerCall::AddCharacteristic { .. }) => {
                reply is Characteristic
            },
            GattServerStep::Call(GattServerCall::AddDescriptor { .. }) => reply is Descriptor,
            GattServerStep::Call(GattServerCall::StartService { .. }) => reply is Started,
            GattServerStep::Done(_) => false,
        }
    }

    /// The error of a call that reported a status other than zero.
    pub open spec fn failure(reply: GattServerReply) -> Option<BleB3Error> {
        let (status, error) = match reply {
            GattServerReply::Server { status, .. } => (status, BleB3Error::RegisterServer(status)),
            GattServerReply::Service { status, .. } => (status, BleB3Error::AddService(status)),
            GattServerReply::Characteristic { status, .. } => (
                status,
                BleB3Error::AddCharacteristic(status),
            ),
            GattServerReply::Descriptor { status, .. } => (
                status,
                BleB3Error::AddDescriptor(status),
            ),
            GattServerReply::Started { status } => (status, BleB3Error::StartService(status)),
        };
        if status != 0 {
            Some(error)
        } else {
            None
        }
    }

    /// The handles after a call was accepted.
    pub open spec fn allocated(self, reply: GattServerReply) -> BleGattServer {
        match reply {
            GattServerReply::Server { server_id, .. } => BleGattServer { server_id, ..self.server },
            GattServerReply::Service { handle, .. } => BleGattServer {
                service_handle: handle,
                ..self.server
            },
            GattServerReply::Characteristic { value_handle, .. } => BleGattServer {
                value_handle,
                ..self.server
            },
            GattServerReply::Descriptor { handle, .. } => BleGattServer {
                ccc_handle: handle,
                ..self.server
            },
            GattServerReply::Started { .. } => self.server,
        }
    }

    /// Where the registration stands after a call was accepted.
    pub open spec fn following(self, reply: GattServerReply) -> GattServerStep {
        let server = self.allocated(reply);
        match reply {
            GattServerReply::Server { .. } => GattServerStep::Call(
                GattServerCall::AddService {
                    server_id: server.server_id,
                    uuid: self.service,
                    primary: self.primary,
                },
            ),
            GattServerReply::Service { .. } => GattServerStep::Call(
                GattServerCall::AddCharacteristic {
                    server_id: server.server_id,
                    service_handle: server.service_handle,
                    uuid: self.characteristic,
                    permissions: self.characteristic_permissions,
                    properties: self.properties,
                    value_len: self.characteristic_len,
                },
            ),
            GattServerReply::Characteristic { .. } => GattServerStep::Call(
                GattServerCall::AddDescriptor {
                    server_id: server.server_id,
                    service_handle: server.service_handle,
                    uuid: self.descriptor,
                    permissions: self.descriptor_permissions,
                    value_len: self.descriptor_len,
                },
            ),
            GattServerReply::Descriptor { .. } => GattServerStep::Call(
                GattServerCall::StartService {
                    server_id: server.server_id,
                    service_handle: server.service_handle,
                },
            ),
            GattServerReply::Started { .. } => GattServerStep::Done(Ok(server)),
        }
    }

    /// The registration after a reply.
    pub open spec fn next(self, reply: GattServerReply) -> Self {
        match Self::failure(reply) {
            Some(error) => Self { step: GattServerStep::Done(Err(error)), ..self },
            None => Self { server: self.allocated(reply), step: self.following(reply), ..self },
        }
    }

    /// Take the reply of the call that was made.
    pub fn resume(&mut self, reply: GattServerReply)
        requires
            old(self).awaits(reply),
        ensures
            *final(self) == old(self).next(reply),
    {
        match reply {
            GattServerReply::Server { status, server_id } => {
                if status != 0 {
                    self.step = GattServerStep::Done(Err(BleB3Error::RegisterServer(status)));
                } else {
                    self.server.server_id = server_id;
                    self.step = GattServerStep::Call(
                        GattServerCall::AddService {
                            server_id,
                            uuid: self.service,
                            primary: self.primary,
                        },
                    );
                }
            },
            GattServerReply::Service { status, handle } => {
                if status != 0 {
                    self.step = GattServerStep::Done(Err(BleB3Error::AddService(status)));
                } else {
                    self.server.service_handle = handle;
                    self.step = GattServerStep::Call(
                        GattServerCall::AddCharacteristic {
                            server_id: self.server.server_id,
                            service_handle: handle,
                            uuid: self.characteristic,
                            permissions: self.characteristic_permissions,
                            properties: self.properties,
                            value_len: self.characteristic_len,
                        },
                    );
                }
            },
            GattServerReply::Characteristic { status, value_handle } => {
                if status != 0 {
                    self.step = GattServerStep::Done(Err(BleB3Error::AddCharacteristic(status)));
                } else {
                    self.server.value_handle = value_handle;
                    self.step = GattServerStep::Call(
                        GattServerCall::AddDescriptor {
                            server_id: self.server.server_id,
                            service_handle: self.server.service_handle,
                            uuid: self.descriptor,
                            permissions: self.descriptor_permissions,
                            value_len: self.descriptor_len,
                        },
                    );
                }
            },
            GattServerReply::Descriptor { status, handle } => {
                if status != 0 {
                    self.step = GattServerStep::Done(Err(BleB3Error::AddDescriptor(status)));
                } else {
                    self.server.ccc_handle = handle;
                    self.step = GattServerStep::Call(
                        GattServerCall::StartService {
                            server_id: self.server.server_id,
                            service_handle: self.server.service_handle,
                        },
                    );
                }
            },
            GattServerReply::Started { status } => {
                if status != 0 {
                    self.step = GattServerStep::Done(Err(BleB3Error::StartService(status)));
                } else {
                    self.step = GattServerStep::Done(Ok(self.server));
                }
            },
        }
    }
}

/// The database of the interoperability service.
pub open spec fn is_b3_definition(definition: GattServerDefinition) -> bool {
    &&& definition.app_uuid == GattUuid::Uuid16(BLE_B3_SERVER_APP_UUID)
    &&& definition.single()
    &&& definition.service().uuid == GattUuid::Uuid16(BLE_B3_SERVICE_UUID)
    &&& definition.service().primary
    &&& definition.characteristic().uuid == GattUuid::Uuid16(BLE_B3_CHARACTERISTIC_UUID)
    &&& definition.characteristic().permissions == (GattPermissions { read: true, write: true })
    &&& definition.characteristic().properties == (GattProperties {
        read: true,
        write: true,
        write_without_response: false,
        notify: true,
        indicate: true,
    })
    &&& definition.characteristic().initial_value@ == seq![0x42u8, 0x33u8]
    &&& definition.characteristic().maximum_len == BLE_B3_VALUE_CAPACITY
    &&& definition.descriptor().uuid == GattUuid::Uuid16(BLE_B3_CCC_UUID)
    &&& definition.descriptor().permissions == (GattPermissions { read: true, write: true })
    &&& definition.descriptor().initial_value@ == seq![0u8, 0u8]
    &&& definition.descriptor().maximum_len == 2
}

/// The database of the interoperability service, whose characteristic starts as
/// the text `B3`.
pub fn b3_definition() -> (definition: GattServerDefinition)
    ensures
        is_b3_definition(definition),
{
    let ccc = GattDescriptorDefinition {
        uuid: GattUuid::Uuid16(BLE_B3_CCC_UUID),
        permissions: GattPermissions { read: true, write: true },
        initial_value: vec![0, 0],
        maximum_len: 2,
    };
    let characteristic = GattCharacteristicDefinition {
        uuid: GattUuid::Uuid16(BLE_B3_CHARACTERISTIC_UUID),
        permissions: GattPermissions { read: true, write: true },
        properties: GattProperties {
            read: true,
            write: true,
            write_without_response: false,
            notify: true,
            indicate: true,
        },
        initial_value: vec![0x42, 0x33],
        maximum_len: BLE_B3_VALUE_CAPACITY as u16,
        descriptors: vec![ccc],
    };
    let service = GattServiceDefinition {
        uuid: GattUuid::Uuid16(BLE_B3_SERVICE_UUID),
        primary: true,
        characteristics: vec![characteristic],
    };
    GattServerDefinition {
        app_uuid: GattUuid::Uuid16(BLE_B3_SERVER_APP_UUID),
        services: vec![service],
    }
}

impl BleB1Controller {
    /// The controller after the values of a database were stored.
    pub open spec fn holds_database(self, before: Self, definition: GattServerDefinition) -> bool {
        &&& self == (Self { operations: self.operations, ..before })
        &&& self.operations == (BleB2OperationStorage {
            gatt_characteristic_value: self.operations.gatt_characteristic_value,
            gatt_descriptor_value: self.operations.gatt_descriptor_value,
            ..before.operations
        })
        &&& self.operations.gatt_characteristic_value@ == crate::ble::storage::padded(
            definition.characteristic().initial_value@,
            32,
        )
        &&& self.operations.gatt_descriptor_value@ == crate::ble::storage::padded(
            definition.descriptor().initial_value@,
            32,
        )
    }

    /// Store the values of a database and begin its registration.
    pub fn register_gatt_server_definition(&mut self, definition: &GattServerDefinition) -> (result:
        Result<GattServerRegistration, BleB3Error>)
        ensures
            match result {
                Ok(registration) => old(self).platform is Firmware && definition.refusal() is None
                    && registration.begins(*definition) && final(self).holds_database(
                    *old(self),
                    *definition,
                ),
                Err(error) => *final(self) == *old(self) && (if old(self).platform is Host {
                    error is UnsupportedTarget
                } else {
                    definition.refusal() == Some(error)
                }),
            },
    {
        match self.platform {
            Platform::Host => {
                return Err(BleB3Error::UnsupportedTarget);
            },
            Platform::Firmware => {},
        }
        if definition.services.len() != 1 {
            return Err(BleB3Error::UnsupportedDatabase);
        }
        let service = &definition.services[0];
        if service.characteristics.len() != 1 {
            return Err(BleB3Error::UnsupportedDatabase);
        }
        let characteristic = &service.characteristics[0];
        if characteristic.descriptors.len() != 1 {
            return Err(BleB3Error::UnsupportedDatabase);
        }
        let descriptor = &characteristic.descriptors[0];
        if characteristic.maximum_len as usize > BLE_B3_VALUE_CAPACITY
            || descriptor.maximum_len as usize > BLE_B3_VALUE_CAPACITY {
            return Err(BleB3Error::UnsupportedDatabase);
        }
        match self.operations.store_gatt_values(
            characteristic.initial_value.as_slice(),
            descriptor.initial_value.as_slice(),
        ) {
            Err(error) => {
                return Err(error);
            },
            Ok(()) => {},
        }
        let app = BtUuid::from_core(definition.app_uuid);
        Ok(
            GattServerRegistration {
                service: BtUuid::from_core(service.uuid),
                primary: service.primary,
                characteristic: BtUuid::from_core(characteristic.uuid),
                characteristic_permissions: map_gatt_permissions(characteristic.permissions),
                properties: map_gatt_properties(characteristic.properties),
                characteristic_len: characteristic.initial_value.len() as u16,
                descriptor: BtUuid::from_core(descriptor.uuid),
                descriptor_permissions: map_gatt_permissions(descriptor.permissions),
                descriptor_len: descriptor.initial_value.len() as u16,
                server: BleGattServer {
                    server_id: 0,
                    service_handle: 0,
                    value_handle: 0,
                    ccc_handle: 0,
                },
                step: GattServerStep::Call(GattServerCall::RegisterServer { app }),
            },
        )
    }

    /// Begin the registration of the interoperability service.
    pub fn register_gatt_server(&mut self) -> (result: Result<GattServerRegistration, BleB3Error>)
        ensures
            match result {
                Ok(registration) => old(self).platform is Firmware && exists|
                    definition: GattServerDefinition,
                |
                    #[trigger] is_b3_definition(definition) && registration.begins(definition)
                        && final(self).holds_database(*old(self), definition),
                Err(error) => old(self).platform is Host && error is UnsupportedTarget
                    && *final(self) == *old(self),
            },
    {
        let definition = b3_definition();
        self.register_gatt_server_definition(&definition)
    }
}

/// A registration whose calls are all accepted ends with exactly the identifier
/// and the handles that the calls reported.
pub proof fn law_registration_reports_vendor_handles(
    registration: GattServerRegistration,
    definition: GattServerDefinition,
    server_id: u8,
    service: u16,
    value: u16,
    ccc: u16,
)
    requires
        registration.begins(definition),
    ensures
        registration.next(GattServerReply::Server { status: 0, server_id }).next(
            GattServerReply::Service { status: 0, handle: service },
        ).next(GattServerReply::Characteristic { status: 0, value_handle: value }).next(
            GattServerReply::Descriptor { status: 0, handle: ccc },
        ).next(GattServerReply::Started { status: 0 }).step == GattServerStep::Done(
            Ok::<BleGattServer, BleB3Error>(
                BleGattServer {
                    server_id,
                    service_handle: service,
                    value_handle: value,
                    ccc_handle: ccc,
                },
            ),
        ),
{
}

/// A registration ends in success only with the service started; every call that
/// is refused ends it at once, with the error of that call.
pub proof fn law_refused_call_ends_the_registration(
    registration: GattServerRegistration,
    reply: GattServerReply,
)
    requires
        registration.awaits(reply),
    ensures
        GattServerRegistration::failure(reply) matches Some(error) ==> registration.next(
            reply,
        ).step == GattServerStep::Done(Err::<BleGattServer, BleB3Error>(error)),
        registration.next(reply).step matches GattServerStep::Done(Ok(_)) ==> registration.step
            matches GattServerStep::Call(GattServerCall::StartService { .. }),
{
}

/// The calls of a registration hand the database over as it was defined. First
/// the application; then the service, at the server that was registered; then the
/// characteristic and its descriptor, each with its own UUID, permissions and
/// length, at that server and at the service that was added; last, that service is
/// started.
pub proof fn law_registration_hands_over_the_definition(
    registration: GattServerRegistration,
    definition: GattServerDefinition,
    server: u8,
    service: u16,
    value: u16,
    ccc: u16,
)
    requires
        registration.begins(definition),
    ensures
        ({
            let first = registration;
            let second = first.next(GattServerReply::Server { status: 0, server_id: server });
            let third = second.next(GattServerReply::Service { status: 0, handle: service });
            let fourth = third.next(
                GattServerReply::Characteristic { status: 0, value_handle: value },
            );
            let fifth = fourth.next(GattServerReply::Descriptor { status: 0, handle: ccc });
            &&& first.step matches GattServerStep::Call(GattServerCall::RegisterServer { app })
                && app.encodes(definition.app_uuid)
            &&& second.step matches GattServerStep::Call(
                GattServerCall::AddService { server_id, uuid, primary },
            ) && server_id == server && uuid.encodes(definition.service().uuid) && primary
                == definition.service().primary
            &&& third.step matches GattServerStep::Call(
                GattServerCall::AddCharacteristic {
                    server_id,
                    service_handle,
                    uuid,
                    permissions,
                    properties,
                    value_len,
                },
            ) && {
                &&& server_id == server && service_handle == service
                &&& uuid.encodes(definition.characteristic().uuid)
                &&& permissions == crate::ble::configuration::permission_bits(
                    definition.characteristic().permissions,
                )
                &&& properties == crate::ble::configuration::property_bits(
                    definition.characteristic().properties,
                )
                &&& value_len == definition.characteristic().initial_value@.len()
            }
            &&& fourth.step matches GattServerStep::Call(
                GattServerCall::AddDescriptor {
                    server_id,
                    service_handle,
                    uuid,
                    permissions,
                    value_len,
                },
            ) && {
                &&& server_id == server && service_handle == service
                &&& uuid.encodes(definition.descriptor().uuid)
                &&& permissions == crate::ble::configuration::permission_bits(
                    definition.descriptor().permissions,
                )
                &&& value_len == definition.descriptor().initial_value@.len()
            }
            &&& fifth.step matches GattServerStep::Call(
                GattServerCall::StartService { server_id, service_handle },
            ) && server_id == server && service_handle == service
        }),
{
}

/// The interoperability service registers a readable and writable characteristic
/// that can notify and indicate, and with it the client configuration descriptor,
/// without which no peer could subscribe.
pub proof fn law_interoperability_service_can_be_subscribed(definition: GattServerDefinition)
    requires
        call_ensures(b3_definition, (), definition),
    ensures
        definition.services@.len() == 1,
        definition.services@[0].primary,
        definition.services@[0].uuid == GattUuid::Uuid16(0xabcd),
        definition.services@[0].characteristics@.len() == 1,
        ({
            let characteristic = definition.services@[0].characteristics@[0];
            &&& characteristic.uuid == GattUuid::Uuid16(0xcdef)
            &&& characteristic.permissions.read && characteristic.permissions.write
            &&& characteristic.properties.read && characteristic.properties.write
            &&& characteristic.properties.notify && characteristic.properties.indicate
            &&& !characteristic.properties.write_without_response
            &&& characteristic.initial_value@ == seq![0x42u8, 0x33u8]
            &&& characteristic.maximum_len == 32
            &&& characteristic.descriptors@.len() == 1
            &&& characteristic.descriptors@[0].uuid == GattUuid::Uuid16(0x2902)
            &&& characteristic.descriptors@[0].permissions.read
            &&& characteristic.descriptors@[0].permissions.write
            &&& characteristic.descriptors@[0].initial_value@ == seq![0u8, 0u8]
            &&& characteristic.descriptors@[0].maximum_len == 2
        }),
        definition.app_uuid == GattUuid::Uuid16(0xb301),
        definition.refusal() is None,
{
}

/// A database is refused exactly when it is not one service with one
/// characteristic with one descriptor, or when a value or its limit exceeds 32
/// bytes; a value that is too long is named by its length.
pub proof fn law_only_small_databases_are_registered(definition: GattServerDefinition)
    ensures
        definition.refusal() is None <==> {
            &&& definition.services@.len() == 1
            &&& definition.services@[0].characteristics@.len() == 1
            &&& definition.services@[0].characteristics@[0].descriptors@.len() == 1
            &&& definition.services@[0].characteristics@[0].maximum_len <= 32
            &&& definition.services@[0].characteristics@[0].descriptors@[0].maximum_len <= 32
            &&& definition.services@[0].characteristics@[0].initial_value@.len() <= 32
            &&& definition.services@[0].characteristics@[0].descriptors@[0].initial_value@.len()
                <= 32
        },
        definition.refusal() matches Some(error) ==> error is UnsupportedDatabase
            || error is ValueTooLong,
{
}

/// Each call of a registration has an error of its own, which carries the status
/// of that call; status zero is no error.
pub proof fn law_registration_errors_name_their_call(
    registration: GattServerRegistration,
    status: u32,
    id: u8,
    handle: u16,
)
    ensures
        ({
            let failed = |error: BleB3Error| GattServerStep::Done(Err::<BleGattServer, BleB3Error>(error));
            status != 0 ==> {
                &&& registration.next(GattServerReply::Server { status, server_id: id }).step
                    == failed(BleB3Error::RegisterServer(status))
                &&& registration.next(GattServerReply::Service { status, handle }).step == failed(
                    BleB3Error::AddService(status),
                )
                &&& registration.next(
                    GattServerReply::Characteristic { status, value_handle: handle },
                ).step == failed(BleB3Error::AddCharacteristic(status))
                &&& registration.next(GattServerReply::Descriptor { status, handle }).step
                    == failed(BleB3Error::AddDescriptor(status))
                &&& registration.next(GattServerReply::Started { status }).step == failed(
                    BleB3Error::StartService(status),
                )
            }
        }),
{
}

} // verus!
