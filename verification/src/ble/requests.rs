//! What each request of an initialized controller asks the vendor stack for.

use crate::ble::configuration::{
    AdvertisingConfig, BdAddr, BluetoothAddress, GapBleSecurityParameters, PairingState,
    ScanConfig, SecurityConfig,
};
use crate::ble::controller::{
    queried_pairing_state, registered_client, BleB1Controller, BleB2Call, BleB3Call,
    BleSecurityCall,
};
use crate::ble::{BleB2Error, BleB3Error, BleGattClient, BleGattServer, BleSecurityError};
use vstd::prelude::*;

verus! {

/// The connection that is made is to the peer that was named, once the scan was
/// stopped; so is the disconnection, which needs nothing before it.
pub proof fn law_links_are_made_with_the_named_peer(
    controller: BleB1Controller,
    address: [u8; 6],
    address_type: u8,
    connect: Result<BleB3Call, BleB3Error>,
    disconnect: Result<BleB3Call, BleB3Error>,
)
    requires
        call_ensures(BleB1Controller::connect, (&controller, address, address_type), connect),
        call_ensures(BleB1Controller::disconnect, (&controller, address, address_type), disconnect),
    ensures
        controller.platform is Firmware <==> connect is Ok,
        controller.platform is Firmware <==> disconnect is Ok,
        connect matches Err(error) ==> error is UnsupportedTarget,
        disconnect matches Err(error) ==> error is UnsupportedTarget,
        connect matches Ok(call) ==> {
            &&& call is StopScanning
            &&& call.outcome(0) matches Ok(Some(next)) && next is Connect
                && next->Connect_address.addr == address && next->Connect_address.address_type
                == address_type
        },
        disconnect matches Ok(call) ==> {
            &&& call is Disconnect
            &&& call->Disconnect_address.addr == address
            &&& call->Disconnect_address.address_type == address_type
            &&& call.outcome(0) == Ok::<Option<BleB3Call>, BleB3Error>(None)
        },
{
}

/// The client registers its own application, and discovers the service and then
/// its characteristic by their UUIDs, with the client, the connection and the
/// handle that it is given.
pub proof fn law_discovery_asks_for_the_interoperability_service(
    controller: BleB1Controller,
    client: BleGattClient,
    conn_id: u16,
    handle: u16,
    registered: BleB3Call,
    service: BleB3Call,
    characteristic: BleB3Call,
    descriptors: BleB3Call,
)
    requires
        call_ensures(BleB1Controller::register_gatt_client, (&controller,), Ok(registered)),
        call_ensures(
            BleB1Controller::discover_b3_service,
            (&controller, client, conn_id),
            Ok(service),
        ),
        call_ensures(
            BleB1Controller::discover_b3_characteristic,
            (&controller, client, conn_id, handle),
            Ok(characteristic),
        ),
        call_ensures(
            BleB1Controller::discover_descriptors,
            (&controller, client, conn_id, handle),
            Ok(descriptors),
        ),
    ensures
        controller.platform is Firmware,
        registered is RegisterClient && registered->app.length == 2 && 256
            * registered->app.bytes[0] + registered->app.bytes[1] == 0xb302,
        service is DiscoverService && service->DiscoverService_client_id == client.client_id
            && service->DiscoverService_conn_id == conn_id,
        service->DiscoverService_uuid.length == 2 && 256 * service->DiscoverService_uuid.bytes[0]
            + service->DiscoverService_uuid.bytes[1] == 0xabcd,
        characteristic is DiscoverCharacteristic
            && characteristic->DiscoverCharacteristic_client_id == client.client_id
            && characteristic->DiscoverCharacteristic_conn_id == conn_id
            && characteristic->service_handle == handle,
        characteristic->DiscoverCharacteristic_uuid.length == 2 && 256
            * characteristic->DiscoverCharacteristic_uuid.bytes[0]
            + characteristic->DiscoverCharacteristic_uuid.bytes[1] == 0xcdef,
        descriptors is DiscoverDescriptors && descriptors->DiscoverDescriptors_client_id
            == client.client_id && descriptors->DiscoverDescriptors_conn_id == conn_id
            && descriptors->declaration_handle == handle,
{
}

/// A value of at most 32 bytes is written to the attribute that was named, or sent
/// from the value of the server, over the connection that was named; a longer one
/// is refused with its length.
pub proof fn law_values_go_where_they_are_sent(
    controller: BleB1Controller,
    client: BleGattClient,
    server: BleGattServer,
    conn_id: u16,
    handle: u16,
    value: &[u8],
    written: Result<BleB3Call, BleB3Error>,
    sent: Result<BleB3Call, BleB3Error>,
)
    requires
        call_ensures(
            BleB1Controller::gatt_write,
            (&controller, client, conn_id, handle, value),
            written,
        ),
        call_ensures(
            BleB1Controller::gatt_notify_or_indicate,
            (&controller, server, conn_id, value),
            sent,
        ),
    ensures
        written is Ok <==> controller.platform is Firmware && value@.len() <= 32,
        sent is Ok <==> written is Ok,
        written matches Ok(call) ==> call is Write && call->Write_client_id == client.client_id
            && call->Write_conn_id == conn_id && call->Write_handle == handle && call->data_len
            == value@.len(),
        sent matches Ok(call) ==> call is NotifyOrIndicate && call->server_id == server.server_id
            && call->NotifyOrIndicate_conn_id == conn_id && call->attr_handle
            == server.value_handle && call->value_len == value@.len(),
        controller.platform is Firmware && value@.len() > 32 ==> written == Err::<
            BleB3Call,
            BleB3Error,
        >(BleB3Error::ValueTooLong { length: value@.len() as usize }),
        written matches Err(error) ==> sent == Err::<BleB3Call, BleB3Error>(error),
        controller.platform is Host ==> written == Err::<BleB3Call, BleB3Error>(
            BleB3Error::UnsupportedTarget,
        ),
{
}

/// Pairing, its query and the removal of a bond are asked for at the peer that was
/// named, and the policy that is configured is the one that was given.
pub proof fn law_pairing_is_with_the_named_peer(
    controller: BleB1Controller,
    config: SecurityConfig,
    parameters: GapBleSecurityParameters,
    peer: BluetoothAddress,
    encoded: BdAddr,
    configured: Result<BleSecurityCall, BleSecurityError>,
    paired: Result<BleSecurityCall, BleSecurityError>,
    queried: Result<BleSecurityCall, BleSecurityError>,
    removed: Result<BleSecurityCall, BleSecurityError>,
)
    requires
        call_ensures(GapBleSecurityParameters::from_config, (config,), parameters),
        call_ensures(BdAddr::from_typed, (peer,), encoded),
        call_ensures(BleB1Controller::configure_security, (&controller, config), configured),
        call_ensures(BleB1Controller::pair, (&controller, peer), paired),
        call_ensures(BleB1Controller::pairing_state, (&controller, peer), queried),
        call_ensures(BleB1Controller::remove_bond, (&controller, peer), removed),
    ensures
        controller.platform is Firmware ==> {
            &&& configured == Ok::<BleSecurityCall, BleSecurityError>(
                BleSecurityCall::Configure { parameters },
            )
            &&& paired == Ok::<BleSecurityCall, BleSecurityError>(
                BleSecurityCall::Pair { address: encoded },
            )
            &&& queried == Ok::<BleSecurityCall, BleSecurityError>(
                BleSecurityCall::Query { address: encoded },
            )
            &&& removed == Ok::<BleSecurityCall, BleSecurityError>(
                BleSecurityCall::RemoveBond { address: encoded },
            )
        },
        controller.platform is Host ==> {
            &&& configured == Err::<BleSecurityCall, BleSecurityError>(
                BleSecurityError::UnsupportedTarget,
            )
            &&& paired == configured && queried == configured && removed == configured
        },
{
}

/// Advertising and scanning are stopped by calls of their own, and nothing follows
/// them.
pub proof fn law_stopping_stops_what_it_names(
    controller: BleB1Controller,
    advertising: Result<BleB2Call, BleB2Error>,
    scanning: Result<BleB2Call, BleB2Error>,
    status: u32,
)
    requires
        call_ensures(BleB1Controller::stop_advertising, (&controller,), advertising),
        call_ensures(BleB1Controller::stop_scanning, (&controller,), scanning),
    ensures
        advertising is Ok <==> controller.platform is Firmware,
        scanning is Ok <==> controller.platform is Firmware,
        advertising matches Ok(call) ==> call is StopAdvertising && call.outcome(status) == (
        if status == 0 {
            Ok::<Option<BleB2Call>, BleB2Error>(None)
        } else {
            Err(BleB2Error::StopAdvertising(status))
        }),
        scanning matches Ok(call) ==> call is StopScanning && call.outcome(status) == (if status
            == 0 {
            Ok::<Option<BleB2Call>, BleB2Error>(None)
        } else {
            Err(BleB2Error::StopScanning(status))
        }),
        advertising matches Err(error) ==> error is UnsupportedTarget,
        scanning matches Err(error) ==> error is UnsupportedTarget,
{
}

/// A vendor status other than zero is never lost: it comes back in the error of the
/// call that reported it, and no other call has that error. Status zero is success.
pub proof fn law_vendor_status_names_its_call(call: BleB3Call, status: u32)
    ensures
        call.outcome(status) is Err <==> status != 0,
        call is StopScanning && status != 0 ==> call.outcome(status) == Err::<
            Option<BleB3Call>,
            BleB3Error,
        >(BleB3Error::StopScanning(status)),
        call is Connect && status != 0 ==> call.outcome(status) == Err::<
            Option<BleB3Call>,
            BleB3Error,
        >(BleB3Error::Connect(status)),
        call is Disconnect && status != 0 ==> call.outcome(status) == Err::<
            Option<BleB3Call>,
            BleB3Error,
        >(BleB3Error::Disconnect(status)),
        call is RegisterClient && status != 0 ==> call.outcome(status) == Err::<
            Option<BleB3Call>,
            BleB3Error,
        >(BleB3Error::RegisterClient(status)),
        call is DiscoverService && status != 0 ==> call.outcome(status) == Err::<
            Option<BleB3Call>,
            BleB3Error,
        >(BleB3Error::DiscoverService(status)),
        call is DiscoverCharacteristic && status != 0 ==> call.outcome(status) == Err::<
            Option<BleB3Call>,
            BleB3Error,
        >(BleB3Error::DiscoverCharacteristic(status)),
        call is DiscoverDescriptors && status != 0 ==> call.outcome(status) == Err::<
            Option<BleB3Call>,
            BleB3Error,
        >(BleB3Error::DiscoverDescriptor(status)),
        call is Write && status != 0 ==> call.outcome(status) == Err::<
            Option<BleB3Call>,
            BleB3Error,
        >(BleB3Error::Write(status)),
        call is NotifyOrIndicate && status != 0 ==> call.outcome(status) == Err::<
            Option<BleB3Call>,
            BleB3Error,
        >(BleB3Error::NotifyOrIndicate(status)),
        status == 0 && !(call is StopScanning) ==> call.outcome(status) == Ok::<
            Option<BleB3Call>,
            BleB3Error,
        >(None),
{
}

/// The same for the calls of pairing, for the registration of a client and for the
/// query of a pairing state, whose value is looked at only where it succeeded.
pub proof fn law_pairing_status_names_its_call(
    call: BleSecurityCall,
    status: u32,
    result: Result<(), BleSecurityError>,
    client_id: u8,
    client: Result<BleGattClient, BleB3Error>,
    value: u32,
    state: Result<PairingState, BleSecurityError>,
)
    requires
        call_ensures(BleSecurityCall::complete, (call, status), result),
        call_ensures(registered_client, (status, client_id), client),
        call_ensures(queried_pairing_state, (status, value), state),
    ensures
        result is Ok <==> status == 0,
        call is Configure && status != 0 ==> result == Err::<(), BleSecurityError>(
            BleSecurityError::Configure(status),
        ),
        call is Pair && status != 0 ==> result == Err::<(), BleSecurityError>(
            BleSecurityError::Pair(status),
        ),
        call is Query && status != 0 ==> result == Err::<(), BleSecurityError>(
            BleSecurityError::Query(status),
        ),
        call is RemoveBond && status != 0 ==> result == Err::<(), BleSecurityError>(
            BleSecurityError::RemoveBond(status),
        ),
        status == 0 ==> client == Ok::<BleGattClient, BleB3Error>(BleGattClient { client_id }),
        status != 0 ==> client == Err::<BleGattClient, BleB3Error>(
            BleB3Error::RegisterClient(status),
        ),
        status != 0 ==> state == Err::<PairingState, BleSecurityError>(
            BleSecurityError::Query(status),
        ),
        status == 0 && value == 3 ==> state == Ok::<PairingState, BleSecurityError>(
            PairingState::Paired,
        ),
        state == Ok::<PairingState, BleSecurityError>(PairingState::Paired) ==> status == 0 && value
            == 3,
{
}

/// A stored scan request is what the vendor is asked for: its interval and window,
/// and scan requests exactly in the active mode. Nothing else of the controller
/// changes.
pub proof fn law_scan_request_is_handed_over(controller: BleB1Controller, config: ScanConfig)
    ensures
        ({
            let after = controller.scanning(config);
            let parameters = after.operations.scan_parameters;
            &&& parameters.interval == config.interval && parameters.window == config.window
            &&& parameters.scan_type == 1 <==> config.mode is Active
            &&& parameters.scan_type == 0 <==> config.mode is Passive
            &&& parameters.phy == controller.operations.scan_parameters.phy
            &&& parameters.filter_policy == controller.operations.scan_parameters.filter_policy
            &&& after.platform == controller.platform && after.events == controller.events
            &&& after.operations.advertising_parameters
                == controller.operations.advertising_parameters
            &&& after.operations.advertising_data == controller.operations.advertising_data
            &&& after.operations.advertising_len == controller.operations.advertising_len
        }),
{
}

/// What is advertised after a request was accepted is its payload, in its interval
/// and on its channels; without a request of one's own, every 20 to 60 ms on all
/// three channels. A refused request leaves the controller as it was.
pub proof fn law_advertising_request_is_handed_over(
    config: &AdvertisingConfig,
    scan: &ScanConfig,
    payload: &[u8],
)
    requires
        config.wf(),
    ensures
        forall|controller: &mut BleB1Controller, result: Result<BleB2Call, BleB2Error>| #[trigger]
            call_ensures(
                BleB1Controller::start_advertising_config,
                (controller, config),
                result,
            ) ==> {
                &&& result is Ok <==> (*controller).platform is Firmware
                &&& result is Ok ==> result->Ok_0 is SetAdvertisingData && advertised(
                    *final(controller),
                    config.payload@,
                    config.minimum as int,
                    config.maximum as int,
                    config.channels as int,
                )
                &&& result is Err ==> result->Err_0 is UnsupportedTarget && *final(controller)
                    == *controller
            },
        forall|controller: &mut BleB1Controller, result: Result<BleB2Call, BleB2Error>| #[trigger]
            call_ensures(BleB1Controller::start_advertising, (controller, payload), result) ==> {
                &&& result is Ok <==> (*controller).platform is Firmware && payload@.len() <= 31
                &&& result is Ok ==> result->Ok_0 is SetAdvertisingData && advertised(
                    *final(controller),
                    payload@,
                    32,
                    96,
                    7,
                )
                &&& result is Err ==> *final(controller) == *controller
                &&& result is Err && (*controller).platform is Firmware ==> result == Err::<
                    BleB2Call,
                    BleB2Error,
                >(BleB2Error::AdvertisingDataTooLong { length: payload@.len() as usize })
            },
        forall|controller: &mut BleB1Controller, result: Result<BleB2Call, BleB2Error>| #[trigger]
            call_ensures(BleB1Controller::start_scanning_config, (controller, scan), result) ==> {
                &&& result is Ok <==> (*controller).platform is Firmware && !scan.filter_duplicates
                &&& result is Ok ==> result->Ok_0 is SetScanParameters
                    && (*final(controller)).operations.scan_parameters.interval == scan.interval
                    && (*final(controller)).operations.scan_parameters.window == scan.window
                &&& result is Err ==> *final(controller) == *controller
            },
        forall|controller: &mut BleB1Controller, result: Result<BleB2Call, BleB2Error>| #[trigger]
            call_ensures(BleB1Controller::start_scanning, (controller,), result) ==> {
                &&& result is Ok <==> (*controller).platform is Firmware
                &&& result is Ok ==> result->Ok_0 is SetScanParameters
                    && (*final(controller)).operations.scan_parameters.interval == 72
                    && (*final(controller)).operations.scan_parameters.window == 72
                    && (*final(controller)).operations.scan_parameters.scan_type == 0
            },
{
    assert forall|controller: &mut BleB1Controller, result: Result<BleB2Call, BleB2Error>| #[trigger]
        call_ensures(
            BleB1Controller::start_advertising_config,
            (controller, config),
            result,
        ) && result is Ok implies (*final(controller)).operations.advertising_data@.take(
        config.payload@.len() as int,
    ) == config.payload@ by {
        assert((*final(controller)).operations.advertising_data@.take(
            config.payload@.len() as int,
        ) =~= config.payload@);
    }
    assert forall|controller: &mut BleB1Controller, result: Result<BleB2Call, BleB2Error>| #[trigger]
        call_ensures(BleB1Controller::start_advertising, (controller, payload), result)
            && result is Ok implies (*final(controller)).operations.advertising_data@.take(
        payload@.len() as int,
    ) == payload@ by {
        assert((*final(controller)).operations.advertising_data@.take(payload@.len() as int)
            =~= payload@);
    }
}

/// The vendor would be handed this payload, these intervals and these channels.
pub open spec fn advertised(
    controller: BleB1Controller,
    payload: Seq<u8>,
    minimum: int,
    maximum: int,
    channels: int,
) -> bool {
    let operations = controller.operations;
    &&& operations.advertising_len == payload.len()
    &&& operations.advertising_data@.take(payload.len() as int) == payload
    &&& operations.advertising_parameters.min_interval == minimum
    &&& operations.advertising_parameters.max_interval == maximum
    &&& operations.advertising_parameters.channel_map == channels
}

} // verus!
