use hisi_rf_ws63::ble::configuration::{
    map_gatt_permissions, map_gatt_properties, AddressType, AdvertisingConfig, BdAddr,
    BluetoothAddress, Bonding, BtUuid, GapBleSecurityParameters, GattPermissions, GattProperties,
    GattUuid, IoCapability, PairingState, ScanConfig, ScanMode, SecurityConfig,
    SecurityRequirement,
};
use hisi_rf_ws63::ble::controller::{
    queried_pairing_state, registered_client, BleB1Controller, BleB2Call, BleB3Call,
    BleSecurityCall,
};
use hisi_rf_ws63::ble::events::{
    authentication_complete, client_value, connection_state, descriptor_discovered, scan_result,
    server_write, service_discovered, BleEventQueue,
};
use hisi_rf_ws63::ble::gatt_server::{
    b3_definition, GattServerCall, GattServerReply, GattServerStep,
};
use hisi_rf_ws63::ble::init::{
    b1_task_groups, b1_task_plan, task_group, BleInit, BleInitAction, BleInitMarker, BleTask,
};
use hisi_rf_ws63::ble::storage::{BleB1ArenaStorage, BleB2OperationStorage};
use hisi_rf_ws63::ble::{
    BleB1InitError, BleB2Error, BleB2Event, BleB3Error, BleGattClient, BleGattServer,
    BleSecurityError, Platform, BLE_B1_ARENA_BYTES, BLE_B1_MINIMUM_TASK_STACK_BYTES,
    BLE_B2_EVENT_CAPACITY, BLE_B3_VALUE_CAPACITY, OWNER_BT, OWNER_BTH_SDK, OWNER_BT_SDK,
    OWNER_BT_SERVICE, PRIORITY_BT, PRIORITY_BTH_SDK, PRIORITY_BT_SDK, PRIORITY_BT_SERVICE,
    STACK_BT, STACK_BTH_SDK, STACK_BT_SDK, STACK_BT_SERVICE, TASK_COUNT,
};

#[test]
fn b1_task_inventory_matches_archive_profile() {
    assert_eq!(TASK_COUNT, 4);
    assert_eq!(
        STACK_BT + STACK_BT_SDK + STACK_BTH_SDK + STACK_BT_SERVICE,
        10_240
    );
    assert_eq!(STACK_BTH_SDK, BLE_B1_MINIMUM_TASK_STACK_BYTES);
    assert_eq!(
        [
            PRIORITY_BT,
            PRIORITY_BT_SDK,
            PRIORITY_BTH_SDK,
            PRIORITY_BT_SERVICE,
        ],
        [1, 12, 13, 12]
    );
}

#[test]
fn typed_advertising_payload_moves_into_backend_storage() {
    let mut storage = BleB2OperationStorage::new();
    {
        let config = AdvertisingConfig::try_new(0x20, 0x20, 0x07, b"u2-payload").unwrap();
        storage.store_advertising_payload(&config);
    }

    assert_eq!(storage.advertising_len, 10);
    assert_eq!(&storage.advertising_data[..10], b"u2-payload");
}

#[test]
fn typed_gatt_values_and_bits_match_the_ws63_abi() {
    let mut storage = BleB2OperationStorage::new();
    storage.store_gatt_values(b"value", &[1, 2]).unwrap();
    assert_eq!(&storage.gatt_characteristic_value[..5], b"value");
    assert_eq!(&storage.gatt_descriptor_value[..2], &[1, 2]);
    assert_eq!(
        map_gatt_permissions(GattPermissions {
            read: true,
            write: true
        }),
        0x03
    );
    assert_eq!(
        map_gatt_properties(GattProperties {
            read: true,
            write: true,
            write_without_response: false,
            notify: true,
            indicate: true,
        }),
        0x3a
    );
    assert_eq!(
        BtUuid::from_core(GattUuid::Uuid16(0xabcd)).bytes[..2],
        [0xab, 0xcd]
    );
    assert_eq!(
        storage.store_gatt_values(&[0; BLE_B3_VALUE_CAPACITY + 1], &[]),
        Err(BleB3Error::ValueTooLong {
            length: BLE_B3_VALUE_CAPACITY + 1
        })
    );
}

#[test]
fn typed_security_policy_maps_to_the_reviewed_ws63_gap_abi() {
    let parameters = GapBleSecurityParameters::from_config(SecurityConfig {
        bonding: Bonding::Enabled,
        io_capability: IoCapability::NoInputNoOutput,
        requirement: SecurityRequirement::SecureConnectionsAuthenticated,
    });
    assert_eq!(core::mem::size_of::<GapBleSecurityParameters>(), 4);
    assert_eq!(parameters.bondable, 1);
    assert_eq!(parameters.io_capability, 3);
    assert_eq!(parameters.secure_connections, 1);
    assert_eq!(parameters.security_mode, 3);
}

fn requirements(
    owner: u32,
    stack_bytes: usize,
) -> hisi_rf_rtos_driver::TaskResourceGroupRequirements {
    let group = task_group(owner, stack_bytes).unwrap();
    hisi_rf_rtos_driver::TaskResourceGroupRequirements::new(
        hisi_rf_rtos_driver::TaskResourceOwner::new(
            core::num::NonZeroU32::new(group.owner).unwrap(),
        ),
        hisi_rf_rtos_driver::TaskResourceRequirements::new(
            core::num::NonZeroUsize::new(group.task_slots).unwrap(),
            core::num::NonZeroUsize::new(group.stack_bytes_per_task).unwrap(),
        )
        .unwrap(),
    )
}

#[test]
fn b1_task_groups_form_one_atomic_plan() {
    let groups = [
        requirements(OWNER_BT, STACK_BT),
        requirements(OWNER_BT_SDK, STACK_BT_SDK),
        requirements(OWNER_BTH_SDK, STACK_BTH_SDK),
        requirements(OWNER_BT_SERVICE, STACK_BT_SERVICE),
    ];
    let plan = hisi_rf_rtos_driver::TaskResourcePlan::new(&groups).unwrap();
    assert_eq!(plan.total_task_slots(), TASK_COUNT);
    assert_eq!(plan.total_stack_bytes(), 10_240);
}

#[test]
fn b2_event_queue_is_fifo_and_counts_overflow() {
    let mut queue = BleEventQueue::new();
    for status in 0..BLE_B2_EVENT_CAPACITY as u32 {
        queue.push(BleB2Event::Enabled { status });
    }
    queue.push(BleB2Event::Enabled { status: 99 });
    assert_eq!(queue.dropped, 1);
    for status in 0..BLE_B2_EVENT_CAPACITY as u32 {
        assert_eq!(queue.pop(), Some(BleB2Event::Enabled { status }));
    }
    assert_eq!(queue.pop(), None);
}

#[test]
fn enable_status_does_not_consume_the_public_event() {
    let mut queue = BleEventQueue::new();
    assert_eq!(queue.enable_status(), None);
    queue.record_enable(0);
    assert_eq!(queue.enable_status(), Some(0));
    assert_eq!(queue.pop(), Some(BleB2Event::Enabled { status: 0 }));
    assert_eq!(queue.enable_status(), Some(0));
}

#[test]
fn b3_payload_event_is_copied_through_the_bounded_queue() {
    let mut queue = BleEventQueue::new();
    let mut value = [0; BLE_B3_VALUE_CAPACITY];
    value[..2].copy_from_slice(b"B3");
    let event = BleB2Event::GattNotification {
        client_id: 1,
        conn_id: 2,
        handle: 3,
        status: 0,
        value_len: 2,
        value,
    };
    queue.push(event);
    assert_eq!(queue.pop(), Some(event));
    assert_eq!(queue.dropped, 0);
}

fn controller(platform: Platform) -> BleB1Controller {
    BleB1Controller {
        platform,
        events: BleEventQueue::new(),
        operations: BleB2OperationStorage::new(),
    }
}

#[test]
fn host_stop_operations_fail_closed() {
    let controller = controller(Platform::Host);
    assert_eq!(
        controller.stop_advertising(),
        Err(BleB2Error::UnsupportedTarget)
    );
    assert_eq!(
        controller.stop_scanning(),
        Err(BleB2Error::UnsupportedTarget)
    );
}

#[test]
fn events_wrap_around_the_ring_in_order() {
    let mut queue = BleEventQueue::new();
    for status in 0..100 {
        queue.push(BleB2Event::ScanParameters { status });
        queue.push(BleB2Event::Enabled { status });
        assert_eq!(queue.pop(), Some(BleB2Event::ScanParameters { status }));
        assert_eq!(queue.pop(), Some(BleB2Event::Enabled { status }));
    }
    assert_eq!(queue.dropped, 0);
}

#[test]
fn an_arena_is_claimed_once_and_must_be_large_enough() {
    let mut small = BleB1ArenaStorage::<1024>::new();
    assert_eq!(
        small.install(),
        Err(BleB1InitError::InsufficientArena {
            required: BLE_B1_ARENA_BYTES,
            available: 1024
        })
    );
    let mut arena = BleB1ArenaStorage::<BLE_B1_ARENA_BYTES>::new();
    let claim = arena.install().unwrap();
    assert_eq!(claim.bytes, BLE_B1_ARENA_BYTES);
    assert_eq!(
        claim.complete(false).err(),
        Some(BleB1InitError::AllocatorInstall)
    );
    assert_eq!(
        arena.install(),
        Err(BleB1InitError::StorageAlreadyInstalled)
    );
}

#[test]
fn advertising_stores_the_payload_and_starts_after_three_acceptances() {
    let mut controller = controller(Platform::Firmware);
    let call = controller.start_advertising(b"beacon").unwrap();
    assert_eq!(call, BleB2Call::SetAdvertisingData);
    assert_eq!(controller.operations.advertising_len, 6);
    assert_eq!(&controller.operations.advertising_data[..6], b"beacon");
    let parameters = controller.operations.advertising_parameters;
    assert_eq!(parameters.min_interval, 0x20);
    assert_eq!(parameters.max_interval, 0x60);
    assert_eq!(parameters.channel_map, 0x07);
    let call = call.complete(0).unwrap().unwrap();
    assert_eq!(call, BleB2Call::SetAdvertisingParameters);
    assert_eq!(
        call.complete(7),
        Err(BleB2Error::SetAdvertisingParameters(7))
    );
    let call = call.complete(0).unwrap().unwrap();
    assert_eq!(call, BleB2Call::StartAdvertising);
    assert_eq!(call.complete(0), Ok(None));
    assert_eq!(
        controller.start_advertising(&[0; 32]),
        Err(BleB2Error::AdvertisingDataTooLong { length: 32 })
    );
}

#[test]
fn scanning_refuses_duplicate_filtering() {
    let mut controller = controller(Platform::Firmware);
    let filtered = ScanConfig::try_new(0x60, 0x30, ScanMode::Active, true).unwrap();
    assert_eq!(
        controller.start_scanning_config(&filtered),
        Err(BleB2Error::DuplicateFilteringUnsupported)
    );
    let active = ScanConfig::try_new(0x60, 0x30, ScanMode::Active, false).unwrap();
    assert_eq!(
        controller.start_scanning_config(&active),
        Ok(BleB2Call::SetScanParameters)
    );
    assert_eq!(controller.operations.scan_parameters.interval, 0x60);
    assert_eq!(controller.operations.scan_parameters.window, 0x30);
    assert_eq!(controller.operations.scan_parameters.scan_type, 1);
    assert_eq!(
        controller.start_scanning(),
        Ok(BleB2Call::SetScanParameters)
    );
    assert_eq!(controller.operations.scan_parameters.interval, 0x48);
    assert_eq!(controller.operations.scan_parameters.scan_type, 0);
    assert_eq!(
        BleB2Call::SetScanParameters.complete(0),
        Ok(Some(BleB2Call::StartScanning))
    );
    assert_eq!(
        BleB2Call::StartScanning.complete(4),
        Err(BleB2Error::StartScanning(4))
    );
}

#[test]
fn requests_outside_their_range_are_refused() {
    assert!(AdvertisingConfig::try_new(0x1f, 0x20, 7, b"").is_none());
    assert!(AdvertisingConfig::try_new(0x30, 0x20, 7, b"").is_none());
    assert!(AdvertisingConfig::try_new(0x20, 0x4001, 7, b"").is_none());
    assert!(AdvertisingConfig::try_new(0x20, 0x20, 0, b"").is_none());
    assert!(AdvertisingConfig::try_new(0x20, 0x20, 8, b"").is_none());
    assert!(AdvertisingConfig::try_new(0x20, 0x4000, 1, &[0; 31]).is_some());
    assert!(ScanConfig::try_new(4, 3, ScanMode::Passive, false).is_none());
    assert!(ScanConfig::try_new(4, 5, ScanMode::Passive, false).is_none());
    assert!(ScanConfig::try_new(4, 4, ScanMode::Passive, false).is_some());
}

#[test]
fn a_connection_is_asked_for_after_the_scan_was_stopped() {
    let controller = controller(Platform::Firmware);
    let call = controller.connect([1, 2, 3, 4, 5, 6], 1).unwrap();
    assert_eq!(call.complete(9), Err(BleB3Error::StopScanning(9)));
    let connect = call.complete(0).unwrap().unwrap();
    assert_eq!(
        connect,
        BleB3Call::Connect {
            address: BdAddr {
                addr: [1, 2, 3, 4, 5, 6],
                address_type: 1
            }
        }
    );
    assert_eq!(connect.complete(5), Err(BleB3Error::Connect(5)));
    assert_eq!(connect.complete(0), Ok(None));
}

#[test]
fn client_calls_carry_their_identifiers() {
    let controller = controller(Platform::Firmware);
    let client = registered_client(0, 3).unwrap();
    assert_eq!(client, BleGattClient { client_id: 3 });
    assert_eq!(
        registered_client(8, 3),
        Err(BleB3Error::RegisterClient(8))
    );
    match controller.register_gatt_client().unwrap() {
        BleB3Call::RegisterClient { app } => assert_eq!(app.as_u16(), 0xb302),
        _ => panic!("not a registration"),
    }
    match controller.discover_b3_service(client, 2).unwrap() {
        BleB3Call::DiscoverService {
            client_id,
            conn_id,
            uuid,
        } => assert_eq!((client_id, conn_id, uuid.as_u16()), (3, 2, 0xabcd)),
        _ => panic!("not a discovery"),
    }
    match controller.discover_b3_characteristic(client, 2, 9).unwrap() {
        BleB3Call::DiscoverCharacteristic {
            service_handle,
            uuid,
            ..
        } => assert_eq!((service_handle, uuid.as_u16()), (9, 0xcdef)),
        _ => panic!("not a discovery"),
    }
    assert_eq!(
        controller
            .discover_descriptors(client, 2, 4)
            .unwrap()
            .complete(6),
        Err(BleB3Error::DiscoverDescriptor(6))
    );
    assert_eq!(
        controller.gatt_write(client, 2, 7, &[0; 33]),
        Err(BleB3Error::ValueTooLong { length: 33 })
    );
    assert_eq!(
        controller.gatt_write(client, 2, 7, &[0; 32]),
        Ok(BleB3Call::Write {
            client_id: 3,
            conn_id: 2,
            handle: 7,
            data_len: 32
        })
    );
    let server = BleGattServer {
        server_id: 1,
        service_handle: 2,
        value_handle: 3,
        ccc_handle: 4,
    };
    assert_eq!(
        controller.gatt_notify_or_indicate(server, 5, b"x"),
        Ok(BleB3Call::NotifyOrIndicate {
            server_id: 1,
            conn_id: 5,
            attr_handle: 3,
            value_len: 1
        })
    );
    assert_eq!(
        controller.gatt_notify_or_indicate(server, 5, &[0; 40]),
        Err(BleB3Error::ValueTooLong { length: 40 })
    );
}

#[test]
fn pairing_calls_and_states_are_mapped() {
    let controller = controller(Platform::Firmware);
    let peer = BluetoothAddress {
        bytes: [9, 8, 7, 6, 5, 4],
        kind: AddressType::RandomStatic,
    };
    let address = BdAddr {
        addr: [9, 8, 7, 6, 5, 4],
        address_type: 1,
    };
    assert_eq!(controller.pair(peer), Ok(BleSecurityCall::Pair { address }));
    assert_eq!(
        controller.pairing_state(peer),
        Ok(BleSecurityCall::Query { address })
    );
    assert_eq!(
        controller.remove_bond(peer),
        Ok(BleSecurityCall::RemoveBond { address })
    );
    assert_eq!(
        BleSecurityCall::RemoveBond { address }.complete(3),
        Err(BleSecurityError::RemoveBond(3))
    );
    assert_eq!(queried_pairing_state(0, 1), Ok(PairingState::NotPaired));
    assert_eq!(queried_pairing_state(0, 2), Ok(PairingState::Pairing));
    assert_eq!(queried_pairing_state(0, 3), Ok(PairingState::Paired));
    assert_eq!(
        queried_pairing_state(0, 4),
        Err(BleSecurityError::UnknownPairingState(4))
    );
    assert_eq!(
        queried_pairing_state(5, 1),
        Err(BleSecurityError::Query(5))
    );
}

#[test]
fn long_payloads_are_cut_and_missing_ones_are_zero() {
    let address = BdAddr {
        addr: [1; 6],
        address_type: 0,
    };
    let payload = [0x55; 40];
    assert_eq!(
        scan_result(address, -50, 40, Some(&payload)),
        BleB2Event::ScanResult {
            address: [1; 6],
            address_type: 0,
            rssi: -50,
            data_len: 31,
            data: [0x55; 31],
        }
    );
    assert_eq!(
        scan_result(address, -50, 3, None),
        BleB2Event::ScanResult {
            address: [1; 6],
            address_type: 0,
            rssi: -50,
            data_len: 3,
            data: [0; 31],
        }
    );
    let mut value = [0; 32];
    value[..3].copy_from_slice(&[1, 2, 3]);
    assert_eq!(
        server_write(1, 2, 3, 0, 3, Some(&[1, 2, 3])),
        BleB2Event::GattServerWrite {
            server_id: 1,
            conn_id: 2,
            handle: 3,
            status: 0,
            value_len: 3,
            value,
        }
    );
    assert_eq!(
        client_value(1, 2, 3, 0, 3, Some(&[1, 2, 3]), true),
        BleB2Event::GattIndication {
            client_id: 1,
            conn_id: 2,
            handle: 3,
            status: 0,
            value_len: 3,
            value,
        }
    );
    assert_eq!(
        client_value(1, 2, 3, 0, 3, Some(&[1, 2, 3]), false),
        BleB2Event::GattNotification {
            client_id: 1,
            conn_id: 2,
            handle: 3,
            status: 0,
            value_len: 3,
            value,
        }
    );
}

#[test]
fn link_events_keep_no_key_and_no_vendor_encoding() {
    let address = BdAddr {
        addr: [2; 6],
        address_type: 1,
    };
    assert!(matches!(
        connection_state(1, address, 1, 0, 0),
        BleB2Event::ConnectionState {
            connected: true,
            ..
        }
    ));
    assert!(matches!(
        connection_state(1, address, 2, 0, 0),
        BleB2Event::ConnectionState {
            connected: false,
            ..
        }
    ));
    for (length, present) in [(None, false), (Some(0), false), (Some(16), true)] {
        assert!(matches!(
            authentication_complete(1, address, 0, length),
            BleB2Event::AuthenticationComplete { ltk_present, .. } if ltk_present == present
        ));
    }
    let long = BtUuid::from_core(GattUuid::Uuid128([7; 16]));
    assert!(matches!(
        service_discovered(1, 2, 3, 4, &long, 0),
        BleB2Event::GattServiceDiscovered { uuid: 0, .. }
    ));
    let short = BtUuid::from_u16(0x2902);
    assert!(matches!(
        descriptor_discovered(1, 2, 3, &short, 0),
        BleB2Event::GattDescriptorDiscovered { uuid: 0x2902, .. }
    ));
}

#[test]
fn registration_hands_out_the_vendor_handles() {
    let mut controller = controller(Platform::Firmware);
    let mut registration = controller.register_gatt_server().unwrap();
    assert_eq!(&controller.operations.gatt_characteristic_value[..3], b"B3\0");
    match registration.step {
        GattServerStep::Call(GattServerCall::RegisterServer { app }) => {
            assert_eq!(app.as_u16(), 0xb301)
        }
        _ => panic!("not a registration"),
    }
    registration.resume(GattServerReply::Server {
        status: 0,
        server_id: 5,
    });
    registration.resume(GattServerReply::Service {
        status: 0,
        handle: 10,
    });
    match registration.step {
        GattServerStep::Call(GattServerCall::AddCharacteristic {
            server_id,
            service_handle,
            uuid,
            permissions,
            properties,
            value_len,
        }) => {
            assert_eq!((server_id, service_handle), (5, 10));
            assert_eq!(uuid.as_u16(), 0xcdef);
            assert_eq!((permissions, properties, value_len), (0x03, 0x3a, 2));
        }
        _ => panic!("not a characteristic"),
    }
    registration.resume(GattServerReply::Characteristic {
        status: 0,
        value_handle: 12,
    });
    registration.resume(GattServerReply::Descriptor {
        status: 0,
        handle: 13,
    });
    registration.resume(GattServerReply::Started { status: 0 });
    assert_eq!(
        registration.step,
        GattServerStep::Done(Ok(BleGattServer {
            server_id: 5,
            service_handle: 10,
            value_handle: 12,
            ccc_handle: 13,
        }))
    );
}

#[test]
fn each_refused_registration_call_has_its_error() {
    let accepted = [
        GattServerReply::Server {
            status: 0,
            server_id: 1,
        },
        GattServerReply::Service {
            status: 0,
            handle: 2,
        },
        GattServerReply::Characteristic {
            status: 0,
            value_handle: 3,
        },
        GattServerReply::Descriptor {
            status: 0,
            handle: 4,
        },
        GattServerReply::Started { status: 0 },
    ];
    let refused = [
        (
            GattServerReply::Server {
                status: 7,
                server_id: 1,
            },
            BleB3Error::RegisterServer(7),
        ),
        (
            GattServerReply::Service {
                status: 7,
                handle: 2,
            },
            BleB3Error::AddService(7),
        ),
        (
            GattServerReply::Characteristic {
                status: 7,
                value_handle: 3,
            },
            BleB3Error::AddCharacteristic(7),
        ),
        (
            GattServerReply::Descriptor {
                status: 7,
                handle: 4,
            },
            BleB3Error::AddDescriptor(7),
        ),
        (
            GattServerReply::Started { status: 7 },
            BleB3Error::StartService(7),
        ),
    ];
    for (index, (reply, error)) in refused.into_iter().enumerate() {
        let mut controller = controller(Platform::Firmware);
        let mut registration = controller.register_gatt_server().unwrap();
        for earlier in &accepted[..index] {
            registration.resume(*earlier);
        }
        registration.resume(reply);
        assert_eq!(registration.step, GattServerStep::Done(Err(error)));
    }
}

#[test]
fn databases_of_another_shape_are_not_registered() {
    let mut controller = controller(Platform::Firmware);
    let mut empty = b3_definition();
    empty.services.clear();
    let mut bare = b3_definition();
    bare.services[0].characteristics[0].descriptors.clear();
    let mut large = b3_definition();
    large.services[0].characteristics[0].maximum_len = 33;
    for definition in [&empty, &bare, &large] {
        assert_eq!(
            controller.register_gatt_server_definition(definition).err(),
            Some(BleB3Error::UnsupportedDatabase)
        );
    }
    let mut long = b3_definition();
    long.services[0].characteristics[0].initial_value = vec![0; 40];
    assert_eq!(
        controller.register_gatt_server_definition(&long).err(),
        Some(BleB3Error::ValueTooLong { length: 40 })
    );
}

fn run(init: &mut BleInit, failing: Option<BleInitAction>) -> Vec<BleInitAction> {
    let mut actions = Vec::new();
    while !matches!(init.action, BleInitAction::Done(_)) {
        actions.push(init.action);
        let status = if Some(init.action) == failing { 6 } else { 0 };
        init.resume(status);
    }
    actions
}

#[test]
fn initialization_spawns_four_tasks_and_enables_the_controller() {
    let mut init = BleInit::new(Platform::Firmware, false);
    let actions = run(&mut init, None);
    assert_eq!(init.action, BleInitAction::Done(Ok(())));
    let spawned: Vec<(usize, usize, u8)> = actions
        .iter()
        .filter_map(|action| match action {
            BleInitAction::Spawn(task) => {
                Some((task.index(), task.stack_bytes(), task.priority()))
            }
            _ => None,
        })
        .collect();
    assert_eq!(
        spawned,
        [
            (0, 3_584, 1),
            (1, 2_048, 12),
            (2, 512, 13),
            (3, 4_096, 12)
        ]
    );
    assert_eq!(actions.last(), Some(&BleInitAction::EnableBle));
    assert_eq!(b1_task_groups().unwrap()[3].owner, OWNER_BT_SERVICE);
    assert_eq!(b1_task_plan(), b1_task_groups());
}

#[test]
fn each_failing_step_of_initialization_has_its_error() {
    let expected = [
        (BleInitAction::InstallCrypto, BleB1InitError::Crypto),
        (BleInitAction::CryptoSelfTest, BleB1InitError::Crypto),
        (
            BleInitAction::PublishEvents,
            BleB1InitError::EventSinkAlreadyInstalled,
        ),
        (
            BleInitAction::RegisterGapCallbacks,
            BleB1InitError::RegisterCallbacks(6),
        ),
        (
            BleInitAction::RegisterGattServerCallbacks,
            BleB1InitError::RegisterGattServerCallbacks(6),
        ),
        (
            BleInitAction::RegisterGattClientCallbacks,
            BleB1InitError::RegisterGattClientCallbacks(6),
        ),
        (BleInitAction::PlanTasks, BleB1InitError::TaskPlan),
        (BleInitAction::ReserveTasks, BleB1InitError::TaskAdmission),
        (BleInitAction::LockScheduler, BleB1InitError::SchedulerLock),
        (
            BleInitAction::Spawn(BleTask::BthSdk),
            BleB1InitError::TaskSpawn { index: 2 },
        ),
        (
            BleInitAction::UnlockScheduler,
            BleB1InitError::SchedulerUnlock,
        ),
        (BleInitAction::YieldNow, BleB1InitError::TaskHandoff),
        (BleInitAction::EnableBle, BleB1InitError::Enable(6)),
    ];
    for (failing, error) in expected {
        let mut init = BleInit::new(Platform::Firmware, true);
        run(&mut init, Some(failing));
        assert_eq!(init.action, BleInitAction::Done(Err(error)));
    }
    let host = BleInit::new(Platform::Host, false);
    assert_eq!(
        host.action,
        BleInitAction::Done(Err(BleB1InitError::UnsupportedTarget))
    );
}

#[test]
fn a_failed_spawn_still_unlocks_the_scheduler() {
    let mut init = BleInit::new(Platform::Firmware, false);
    let actions = run(&mut init, Some(BleInitAction::Spawn(BleTask::Bt)));
    assert!(actions.contains(&BleInitAction::UnlockScheduler));
    assert!(!actions.contains(&BleInitAction::Spawn(BleTask::BtSdk)));
    assert!(!actions.contains(&BleInitAction::EnableBle));
}

#[test]
fn markers_are_logged_in_order() {
    let mut init = BleInit::new(Platform::Firmware, true);
    let lines: Vec<&str> = run(&mut init, None)
        .into_iter()
        .filter_map(|action| match action {
            BleInitAction::Log(marker) => Some(marker.text()),
            _ => None,
        })
        .collect();
    assert_eq!(lines.len(), 13);
    assert_eq!(lines[0], "RFDBG_BLE_B1_LINK_CONTRACT_OK\r\n");
    assert_eq!(lines[5], "RFDBG_BLE_U5B_CRYPTO_COMPAT_OK\r\n");
    assert_eq!(lines[12], "RFDBG_BLE_B1_ENABLE_BEGIN\r\n");
    assert_eq!(
        BleInitMarker::CryptoIncompatible.text(),
        "RFDBG_BLE_U5B_CRYPTO_COMPAT_ERR\r\n"
    );
}

#[test]
fn a_group_without_an_owner_or_a_stack_is_no_plan() {
    assert_eq!(task_group(0, 1), Err(BleB1InitError::TaskPlan));
    assert_eq!(task_group(1, 0), Err(BleB1InitError::TaskPlan));
}
