//! Bounded queue of events copied out of vendor callbacks.

use crate::ble::configuration::{BdAddr, BtUuid};
use crate::ble::{BleB2Event, BLE_B2_ADV_DATA_CAPACITY, BLE_B2_EVENT_CAPACITY, BLE_B3_VALUE_CAPACITY};
use vstd::prelude::*;

verus! {

/// Ring of events, the oldest at `head`.
#[derive(Clone, Copy, Debug)]
pub struct BleEventRing {
    pub events: [BleB2Event; 32],
    pub head: usize,
    pub len: usize,
}

/// The slot that is `offset` behind `head`.
pub open spec fn slot(head: usize, offset: int) -> int {
    (head + offset) % 32
}

impl View for BleEventRing {
    type V = Seq<BleB2Event>;

    /// The events in the order in which they arrived.
    open spec fn view(&self) -> Seq<BleB2Event> {
        Seq::new(self.len as nat, |i: int| self.events[slot(self.head, i)])
    }
}

impl BleEventRing {
    pub open spec fn wf(self) -> bool {
        self.head < BLE_B2_EVENT_CAPACITY && self.len <= BLE_B2_EVENT_CAPACITY
    }

    pub fn new() -> (ring: Self)
        ensures
            ring.wf(),
            ring@ == Seq::<BleB2Event>::empty(),
            ring.head == 0,
            ring.events@ == Seq::new(32, |i: int| BleB2Event::Enabled { status: 0xffff_ffff }),
    {
        let ring = Self {
            events: [BleB2Event::Enabled { status: 0xffff_ffff };32],
            head: 0,
            len: 0,
        };
        assert(ring@ =~= Seq::<BleB2Event>::empty());
        assert(ring.events@ =~= Seq::new(
            32,
            |i: int| BleB2Event::Enabled { status: 0xffff_ffff },
        ));
        ring
    }

    /// Put an event behind the others. A full ring does not take it.
    pub fn push(&mut self, event: BleB2Event) -> (accepted: bool)
        requires
            old(self).wf(),
        ensures
            final(self).wf(),
            accepted == (old(self)@.len() < BLE_B2_EVENT_CAPACITY),
            final(self)@ == (if accepted {
                old(self)@.push(event)
            } else {
                old(self)@
            }),
    {
        if self.len == BLE_B2_EVENT_CAPACITY {
            return false;
        }
        let index: usize = (self.head + self.len) % BLE_B2_EVENT_CAPACITY;
        self.events[index] = event;
        self.len = self.len + 1;
        assert(self@ =~= old(self)@.push(event));
        true
    }

    /// Take the oldest event.
    pub fn pop(&mut self) -> (event: Option<BleB2Event>)
        requires
            old(self).wf(),
        ensures
            final(self).wf(),
            match event {
                Some(oldest) => old(self)@.len() > 0 && oldest == old(self)@[0] && final(self)@
                    == old(self)@.skip(1),
                None => old(self)@.len() == 0 && final(self)@ == old(self)@,
            },
    {
        if self.len == 0 {
            return None;
        }
        let event = self.events[self.head];
        self.head = (self.head + 1) % BLE_B2_EVENT_CAPACITY;
        self.len = self.len - 1;
        assert(self@ =~= old(self)@.skip(1));
        Some(event)
    }
}

/// Event ring, with the number of events that it could not take and the last
/// status of the enable request.
#[derive(Clone, Copy, Debug)]
pub struct BleEventQueue {
    pub ring: BleEventRing,
    pub dropped: u32,
    pub enable: Option<u32>,
}

impl View for BleEventQueue {
    type V = Seq<BleB2Event>;

    open spec fn view(&self) -> Seq<BleB2Event> {
        self.ring@
    }
}

impl BleEventQueue {
    pub open spec fn wf(self) -> bool {
        self.ring.wf()
    }

    /// The queue after an event arrived.
    pub open spec fn received(before: Self, after: Self, event: BleB2Event) -> bool {
        &&& after.wf()
        &&& before@.len() < BLE_B2_EVENT_CAPACITY ==> after@ == before@.push(event)
            && after.dropped == before.dropped
        &&& before@.len() >= BLE_B2_EVENT_CAPACITY ==> after@ == before@ && after.dropped == (
        before.dropped + 1) % 0x1_0000_0000
    }

    pub fn new() -> (queue: Self)
        ensures
            queue.wf(),
            queue@ == Seq::<BleB2Event>::empty(),
            queue.dropped == 0,
            queue.enable is None,
    {
        Self { ring: BleEventRing::new(), dropped: 0, enable: None }
    }

    /// The status of the enable request, once it was reported.
    pub fn enable_status(&self) -> (status: Option<u32>)
        ensures
            status == self.enable,
    {
        self.enable
    }

    /// Keep an event, or count it as dropped where the queue is full.
    pub fn push(&mut self, event: BleB2Event)
        requires
            old(self).wf(),
        ensures
            Self::received(*old(self), *final(self), event),
            final(self).enable == old(self).enable,
    {
        if !self.ring.push(event) {
            self.dropped = self.dropped.wrapping_add(1);
        }
    }

    /// Take the oldest event.
    pub fn pop(&mut self) -> (event: Option<BleB2Event>)
        requires
            old(self).wf(),
        ensures
            final(self).wf(),
            match event {
                Some(oldest) => old(self)@.len() > 0 && oldest == old(self)@[0] && final(self)@
                    == old(self)@.skip(1),
                None => old(self)@.len() == 0 && final(self)@ == old(self)@,
            },
            final(self).dropped == old(self).dropped,
            final(self).enable == old(self).enable,
    {
        self.ring.pop()
    }

    /// Record the status of the enable request, beside the event that reports it.
    pub fn record_enable(&mut self, status: u32)
        requires
            old(self).wf(),
        ensures
            final(self).enable == Some(status),
            Self::received(*old(self), *final(self), BleB2Event::Enabled { status }),
    {
        self.enable = Some(status);
        self.push(BleB2Event::Enabled { status });
    }
}

/// The length that is kept of a payload.
pub open spec fn kept_length(length: int, capacity: int) -> int {
    if length < capacity {
        length
    } else {
        capacity
    }
}

/// Bytes that are copied of a payload: at most `capacity` of the length that is
/// reported, and zeros in place of what is not there.
pub open spec fn copied(length: int, data: Option<Seq<u8>>, capacity: int) -> Seq<u8> {
    Seq::new(
        capacity as nat,
        |i: int|
            match data {
                Some(bytes) => if i < kept_length(length, capacity) {
                    bytes[i]
                } else {
                    0
                },
                None => 0,
            },
    )
}

/// The payload holds the bytes whose length the vendor reports.
pub open spec fn readable(length: int, data: Option<&[u8]>) -> bool {
    data matches Some(bytes) ==> bytes@.len() >= length
}

/// The bytes of an optional payload.
pub open spec fn bytes_of(data: Option<&[u8]>) -> Option<Seq<u8>> {
    match data {
        Some(bytes) => Some(bytes@),
        None => None,
    }
}

fn copy_payload<const N: usize>(length: usize, data: Option<&[u8]>) -> (copy: [u8; N])
    requires
        readable(length as int, data),
    ensures
        copy@ == copied(length as int, bytes_of(data), N as int),
{
    let mut copy: [u8; N] = [0; N];
    match data {
        Some(bytes) => {
            let mut i: usize = 0;
            while i < length && i < N
                invariant
                    i <= length <= bytes@.len(),
                    i <= N,
                    copy@.len() == N,
                    forall|j: int| 0 <= j < i ==> copy@[j] == bytes@[j],
                    forall|j: int| i <= j < N ==> copy@[j] == 0,
                decreases N - i,
            {
                copy[i] = bytes[i];
                i = i + 1;
            }
            assert(copy@ =~= copied(length as int, bytes_of(data), N as int));
        },
        None => {
            assert(copy@ =~= copied(length as int, bytes_of(data), N as int));
        },
    }
    copy
}

fn bounded_length(length: usize, capacity: usize) -> (kept: u8)
    requires
        capacity <= 255,
    ensures
        kept == kept_length(length as int, capacity as int),
{
    if length < capacity {
        length as u8
    } else {
        capacity as u8
    }
}

/// The event of a scan result. At most 31 bytes are kept; a missing payload is
/// kept as zeros of the reported length.
pub fn scan_result(
    address: BdAddr,
    rssi: i8,
    advertising_length: u8,
    advertising_data: Option<&[u8]>,
) -> (event: BleB2Event)
    requires
        readable(advertising_length as int, advertising_data),
    ensures
        event matches BleB2Event::ScanResult {
            address: copied_address,
            address_type,
            rssi: copied_rssi,
            data_len,
            data,
        } && copied_address == address.addr && address_type == address.address_type && copied_rssi
            == rssi && data_len == kept_length(advertising_length as int, 31) && data@ == copied(
            advertising_length as int,
            bytes_of(advertising_data),
            31,
        ),
{
    let data: [u8; 31] = copy_payload(advertising_length as usize, advertising_data);
    BleB2Event::ScanResult {
        address: address.addr,
        address_type: address.address_type,
        rssi,
        data_len: bounded_length(advertising_length as usize, BLE_B2_ADV_DATA_CAPACITY),
        data,
    }
}

/// The event of a connection that changed state. State one is connected.
pub fn connection_state(conn_id: u16, address: BdAddr, state: u32, pair_state: u32, reason: u32) -> (
event: BleB2Event)
    ensures
        event == (BleB2Event::ConnectionState {
            conn_id,
            address: address.addr,
            address_type: address.address_type,
            connected: state == 1,
            pair_state,
            reason,
        }),
{
    BleB2Event::ConnectionState {
        conn_id,
        address: address.addr,
        address_type: address.address_type,
        connected: state == 1,
        pair_state,
        reason,
    }
}

/// The event of a link that was authenticated. Of the key, only whether there is
/// one is kept.
pub fn authentication_complete(
    conn_id: u16,
    address: BdAddr,
    status: u32,
    ltk_len: Option<u8>,
) -> (event: BleB2Event)
    ensures
        event == (BleB2Event::AuthenticationComplete {
            conn_id,
            address: address.addr,
            address_type: address.address_type,
            status,
            ltk_present: ltk_len matches Some(length) && length != 0,
        }),
{
    let ltk_present: bool = match ltk_len {
        Some(length) => length != 0,
        None => false,
    };
    BleB2Event::AuthenticationComplete {
        conn_id,
        address: address.addr,
        address_type: address.address_type,
        status,
        ltk_present,
    }
}

/// The event of a write request at the server. At most 32 bytes are kept.
pub fn server_write(
    server_id: u8,
    conn_id: u16,
    handle: u16,
    status: u32,
    length: u16,
    data: Option<&[u8]>,
) -> (event: BleB2Event)
    requires
        readable(length as int, data),
    ensures
        event matches BleB2Event::GattServerWrite {
            server_id: server,
            conn_id: connection,
            handle: attribute,
            status: reported,
            value_len,
            value,
        } && server == server_id && connection == conn_id && attribute == handle && reported
            == status && value_len == kept_length(length as int, 32) && value@ == copied(
            length as int,
            bytes_of(data),
            32,
        ),
{
    let value: [u8; 32] = copy_payload(length as usize, data);
    BleB2Event::GattServerWrite {
        server_id,
        conn_id,
        handle,
        status,
        value_len: bounded_length(length as usize, BLE_B3_VALUE_CAPACITY),
        value,
    }
}

/// The event of a value that arrived at the client, as an indication or as a
/// notification. At most 32 bytes are kept.
pub fn client_value(
    client_id: u8,
    conn_id: u16,
    handle: u16,
    status: u32,
    length: u16,
    data: Option<&[u8]>,
    indication: bool,
) -> (event: BleB2Event)
    requires
        readable(length as int, data),
    ensures
        indication ==> (event matches BleB2Event::GattIndication {
            client_id: client,
            conn_id: connection,
            handle: attribute,
            status: reported,
            value_len,
            value,
        } && client == client_id && connection == conn_id && attribute == handle && reported
            == status && value_len == kept_length(length as int, 32) && value@ == copied(
            length as int,
            bytes_of(data),
            32,
        )),
        !indication ==> (event matches BleB2Event::GattNotification {
            client_id: client,
            conn_id: connection,
            handle: attribute,
            status: reported,
            value_len,
            value,
        } && client == client_id && connection == conn_id && attribute == handle && reported
            == status && value_len == kept_length(length as int, 32) && value@ == copied(
            length as int,
            bytes_of(data),
            32,
        )),
{
    let value: [u8; 32] = copy_payload(length as usize, data);
    let value_len: u8 = bounded_length(length as usize, BLE_B3_VALUE_CAPACITY);
    if indication {
        BleB2Event::GattIndication { client_id, conn_id, handle, status, value_len, value }
    } else {
        BleB2Event::GattNotification { client_id, conn_id, handle, status, value_len, value }
    }
}

/// The event of a discovered service.
pub fn service_discovered(
    client_id: u8,
    conn_id: u16,
    start_handle: u16,
    end_handle: u16,
    uuid: &BtUuid,
    status: u32,
) -> (event: BleB2Event)
    ensures
        event == (BleB2Event::GattServiceDiscovered {
            client_id,
            conn_id,
            start_handle,
            end_handle,
            uuid: uuid.short_value() as u16,
            status,
        }),
{
    BleB2Event::GattServiceDiscovered {
        client_id,
        conn_id,
        start_handle,
        end_handle,
        uuid: uuid.as_u16(),
        status,
    }
}

/// The event of a discovered characteristic.
pub fn characteristic_discovered(
    client_id: u8,
    conn_id: u16,
    declaration_handle: u16,
    value_handle: u16,
    properties: u8,
    uuid: &BtUuid,
    status: u32,
) -> (event: BleB2Event)
    ensures
        event == (BleB2Event::GattCharacteristicDiscovered {
            client_id,
            conn_id,
            declaration_handle,
            value_handle,
            properties,
            uuid: uuid.short_value() as u16,
            status,
        }),
{
    BleB2Event::GattCharacteristicDiscovered {
        client_id,
        conn_id,
        declaration_handle,
        value_handle,
        properties,
        uuid: uuid.as_u16(),
        status,
    }
}

/// The event of a discovered descriptor.
pub fn descriptor_discovered(
    client_id: u8,
    conn_id: u16,
    handle: u16,
    uuid: &BtUuid,
    status: u32,
) -> (event: BleB2Event)
    ensures
        event == (BleB2Event::GattDescriptorDiscovered {
            client_id,
            conn_id,
            handle,
            uuid: uuid.short_value() as u16,
            status,
        }),
{
    BleB2Event::GattDescriptorDiscovered {
        client_id,
        conn_id,
        handle,
        uuid: uuid.as_u16(),
        status,
    }
}

/// Events leave in the order in which they arrived: what a queue gives back after
/// an event was accepted is what it would have given back before, and then that
/// event.
pub proof fn law_events_are_first_in_first_out(
    before: BleEventQueue,
    after: BleEventQueue,
    event: BleB2Event,
)
    requires
        before.wf(),
        before@.len() < BLE_B2_EVENT_CAPACITY,
        BleEventQueue::received(before, after, event),
    ensures
        after@.len() == before@.len() + 1,
        after@.take(before@.len() as int) == before@,
        after@.last() == event,
{
    assert(after@.take(before@.len() as int) =~= before@);
}

/// An event is kept or counted as dropped, never both and never neither, until
/// the count wraps.
pub proof fn law_event_is_kept_or_counted(
    before: BleEventQueue,
    after: BleEventQueue,
    event: BleB2Event,
)
    requires
        before.wf(),
        before.dropped < 0xffff_ffff,
        BleEventQueue::received(before, after, event),
    ensures
        after@.len() + after.dropped == before@.len() + before.dropped + 1,
        after@.len() <= BLE_B2_EVENT_CAPACITY,
{
}

/// The event holds as many bytes of a payload as were reported, up to its
/// capacity, each in its place; behind them, and where there was no payload, it
/// holds zeros.
pub proof fn law_payload_is_copied_in_place(length: int, data: Option<Seq<u8>>, capacity: int)
    requires
        0 <= length,
        0 <= capacity,
        data matches Some(bytes) ==> bytes.len() >= length,
    ensures
        copied(length, data, capacity).len() == capacity,
        kept_length(length, capacity) <= length && kept_length(length, capacity) <= capacity,
        kept_length(length, capacity) == length || kept_length(length, capacity) == capacity,
        data matches Some(bytes) ==> copied(length, data, capacity).take(
            kept_length(length, capacity),
        ) == bytes.take(kept_length(length, capacity)),
        forall|i: int|
            0 <= i < capacity && (data is None || i >= length) ==> copied(
                length,
                data,
                capacity,
            )[i] == 0,
{
    if let Some(bytes) = data {
        assert(copied(length, data, capacity).take(kept_length(length, capacity)) =~= bytes.take(
            kept_length(length, capacity),
        ));
    }
}

/// A scan result is reported with the address and the signal of the peer, and at
/// most 31 bytes of what it advertises.
pub proof fn law_scan_result_tells_who_advertises(
    address: BdAddr,
    rssi: i8,
    length: u8,
    data: Option<&[u8]>,
    event: BleB2Event,
)
    requires
        readable(length as int, data),
        call_ensures(scan_result, (address, rssi, length, data), event),
    ensures
        event is ScanResult,
        event->ScanResult_address@ == address.addr@,
        event->ScanResult_address_type == address.address_type,
        event->ScanResult_rssi == rssi,
        event->data_len == (if length < 31 {
            length
        } else {
            31
        }),
        data matches Some(bytes) ==> forall|i: int|
            0 <= i < event->data_len ==> #[trigger] event->data@[i] == bytes@[i],
{
}

/// A peer is reported as connected in vendor state one and in no other, with its
/// connection, address and reason.
pub proof fn law_connection_event_tells_the_state(
    conn_id: u16,
    address: BdAddr,
    state: u32,
    pair_state: u32,
    reason: u32,
    event: BleB2Event,
)
    requires
        call_ensures(connection_state, (conn_id, address, state, pair_state, reason), event),
    ensures
        event is ConnectionState,
        event->connected <==> state == 1,
        event->ConnectionState_conn_id == conn_id,
        event->ConnectionState_address@ == address.addr@,
        event->ConnectionState_address_type == address.address_type,
        event->pair_state == pair_state,
        event->reason == reason,
{
}

/// An authenticated link is reported with its status, and a key as present
/// exactly when one of at least one byte is there.
pub proof fn law_authentication_event_tells_of_a_key(
    conn_id: u16,
    address: BdAddr,
    status: u32,
    ltk_len: Option<u8>,
    event: BleB2Event,
)
    requires
        call_ensures(authentication_complete, (conn_id, address, status, ltk_len), event),
    ensures
        event is AuthenticationComplete,
        event->ltk_present <==> ltk_len is Some && ltk_len->0 > 0,
        event->AuthenticationComplete_status == status,
        event->AuthenticationComplete_conn_id == conn_id,
        event->AuthenticationComplete_address@ == address.addr@,
        event->AuthenticationComplete_address_type == address.address_type,
{
}

/// A write at the server is reported for the attribute and the connection that it
/// was made at, with at most 32 bytes of the value.
pub proof fn law_write_event_tells_the_value(
    server_id: u8,
    conn_id: u16,
    handle: u16,
    status: u32,
    length: u16,
    data: Option<&[u8]>,
    event: BleB2Event,
)
    requires
        readable(length as int, data),
        call_ensures(server_write, (server_id, conn_id, handle, status, length, data), event),
    ensures
        event is GattServerWrite,
        event->GattServerWrite_server_id == server_id,
        event->GattServerWrite_conn_id == conn_id,
        event->GattServerWrite_handle == handle,
        event->GattServerWrite_status == status,
        event->GattServerWrite_value_len == (if length < 32 {
            length
        } else {
            32
        }),
        data matches Some(bytes) ==> forall|i: int|
            0 <= i < event->GattServerWrite_value_len
                ==> #[trigger] event->GattServerWrite_value@[i] == bytes@[i],
{
}

/// A value at the client is reported as an indication exactly when it came as
/// one, and else as a notification, with at most 32 bytes of it.
pub proof fn law_client_value_tells_how_it_came(
    client_id: u8,
    conn_id: u16,
    handle: u16,
    status: u32,
    length: u16,
    data: Option<&[u8]>,
    indication: bool,
    event: BleB2Event,
)
    requires
        readable(length as int, data),
        call_ensures(
            client_value,
            (client_id, conn_id, handle, status, length, data, indication),
            event,
        ),
    ensures
        event is GattIndication <==> indication,
        event is GattNotification <==> !indication,
        indication ==> event->GattIndication_handle == handle && event->GattIndication_conn_id
            == conn_id && event->GattIndication_client_id == client_id
            && event->GattIndication_status == status,
        !indication ==> event->GattNotification_handle == handle && event->GattNotification_conn_id
            == conn_id && event->GattNotification_client_id == client_id
            && event->GattNotification_status == status,
        data is Some && length <= 32 && indication ==> event->GattIndication_value@.take(
            length as int,
        ) == data->0@.take(length as int) && event->GattIndication_value_len == length,
        data is Some && length <= 32 && !indication ==> event->GattNotification_value@.take(
            length as int,
        ) == data->0@.take(length as int) && event->GattNotification_value_len == length,
{
    if let Some(bytes) = data {
        if length <= 32 && indication {
            assert(event->GattIndication_value@.take(length as int) =~= bytes@.take(length as int));
        }
        if length <= 32 && !indication {
            assert(event->GattNotification_value@.take(length as int) =~= bytes@.take(
                length as int,
            ));
        }
    }
}

/// What is discovered is reported with its own handles, and with its UUID where it
/// is a short one.
pub proof fn law_discovery_events_tell_the_handles(
    client_id: u8,
    conn_id: u16,
    first: u16,
    second: u16,
    properties: u8,
    uuid: BtUuid,
    status: u32,
    service: BleB2Event,
    characteristic: BleB2Event,
    descriptor: BleB2Event,
)
    requires
        call_ensures(
            service_discovered,
            (client_id, conn_id, first, second, &uuid, status),
            service,
        ),
        call_ensures(
            characteristic_discovered,
            (client_id, conn_id, first, second, properties, &uuid, status),
            characteristic,
        ),
        call_ensures(
            descriptor_discovered,
            (client_id, conn_id, first, &uuid, status),
            descriptor,
        ),
    ensures
        service is GattServiceDiscovered && service->start_handle == first && service->end_handle
            == second && service->GattServiceDiscovered_conn_id == conn_id
            && service->GattServiceDiscovered_client_id == client_id
            && service->GattServiceDiscovered_status == status,
        characteristic is GattCharacteristicDiscovered && characteristic->declaration_handle
            == first && characteristic->value_handle == second && characteristic->properties
            == properties && characteristic->GattCharacteristicDiscovered_conn_id == conn_id
            && characteristic->GattCharacteristicDiscovered_client_id == client_id
            && characteristic->GattCharacteristicDiscovered_status == status,
        descriptor is GattDescriptorDiscovered && descriptor->GattDescriptorDiscovered_handle
            == first && descriptor->GattDescriptorDiscovered_conn_id == conn_id
            && descriptor->GattDescriptorDiscovered_client_id == client_id
            && descriptor->GattDescriptorDiscovered_status == status,
        uuid.length == 2 ==> service->GattServiceDiscovered_uuid == 256 * uuid.bytes[0]
            + uuid.bytes[1],
        uuid.length != 2 ==> service->GattServiceDiscovered_uuid == 0,
        characteristic->GattCharacteristicDiscovered_uuid == service->GattServiceDiscovered_uuid,
        descriptor->GattDescriptorDiscovered_uuid == service->GattServiceDiscovered_uuid,
{
}

/// The queue keeps its events in the order in which they came, up to 32 of them; one more
/// is counted as dropped. The oldest is taken first, and the enable status is kept beside
/// its event.
pub proof fn law_queue_keeps_the_oldest_events(event: BleB2Event, status: u32)
    ensures
        forall|queue: &mut BleEventQueue, unit: ()|
            (*queue).wf() && #[trigger] call_ensures(BleEventQueue::push, (queue, event), unit) ==> {
                let before = (*queue)@;
                let after = (*final(queue))@;
                &&& before.len() < 32 ==> after.len() == before.len() + 1 && after.last() == event
                    && after.drop_last() == before && (*final(queue)).dropped == (*queue).dropped
                &&& before.len() >= 32 ==> after == before && ((*queue).dropped < u32::MAX
                    ==> (*final(queue)).dropped == (*queue).dropped + 1)
                &&& (*final(queue)).enable == (*queue).enable
            },
        forall|queue: &mut BleEventQueue, taken: Option<BleB2Event>|
            (*queue).wf() && #[trigger] call_ensures(BleEventQueue::pop, (queue,), taken) ==> {
                let before = (*queue)@;
                let after = (*final(queue))@;
                &&& taken is Some <==> before.len() > 0
                &&& taken matches Some(oldest) ==> before == seq![oldest] + after
                &&& taken is None ==> after == before
                &&& (*final(queue)).dropped == (*queue).dropped
            },
        forall|queue: &mut BleEventQueue, unit: ()|
            (*queue).wf() && #[trigger] call_ensures(
                BleEventQueue::record_enable,
                (queue, status),
                unit,
            ) ==> {
                &&& (*final(queue)).enable == Some(status)
                &&& (*queue)@.len() < 32 ==> (*final(queue))@.last() == (BleB2Event::Enabled {
                    status,
                })
            },
{
    assert forall|queue: &mut BleEventQueue, unit: ()|
        (*queue).wf() && #[trigger] call_ensures(BleEventQueue::push, (queue, event), unit)
            && (*queue)@.len() < 32 implies (*final(queue))@.drop_last() == (*queue)@ by {
        assert((*final(queue))@.drop_last() =~= (*queue)@);
    }
    assert forall|queue: &mut BleEventQueue, taken: Option<BleB2Event>|
        (*queue).wf() && #[trigger] call_ensures(BleEventQueue::pop, (queue,), taken)
            && taken is Some implies (*queue)@ == seq![taken->0] + (*final(queue))@ by {
        assert((*queue)@ =~= seq![taken->0] + (*final(queue))@);
    }
}

} // verus!
