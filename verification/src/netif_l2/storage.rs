//! Caller-owned queues of one network device.

use crate::netif_l2::{NATIVE_MTU, NATIVE_RX_SLOTS, NATIVE_TX_SLOTS};
use hisi_rf_core::l2::{L2Parts, L2Storage};
use hisi_rf_core::WifiL2Capabilities;
use vstd::prelude::*;

verus! {

/// Storage of the packet queues.
#[verifier::external_type_specification]
#[verifier::external_body]
pub struct ExL2Storage<const RX: usize, const TX: usize, const MTU: usize>(
    hisi_rf_core::l2::L2Storage<RX, TX, MTU>,
);

/// The device and the radio half of one storage.
#[verifier::external_type_specification]
#[verifier::external_body]
pub struct ExL2Parts<'a, const RX: usize, const TX: usize, const MTU: usize>(
    hisi_rf_core::l2::L2Parts<'a, RX, TX, MTU>,
);

/// A validated station address.
#[verifier::external_type_specification]
#[verifier::external_body]
pub struct ExWifiL2Capabilities(hisi_rf_core::WifiL2Capabilities);

/// The physical allocation, not a promise about throughput.
#[derive(Clone, Copy, Debug, PartialEq, Eq, Structural)]
pub struct StorageReport {
    pub rx_slots: usize,
    pub tx_slots: usize,
    pub mtu: usize,
    pub payload_bytes: usize,
    /// Slot state, epochs, wakers, counters, claim flag and padding.
    pub metadata_bytes: usize,
    pub total_bytes: usize,
}

#[derive(Clone, Copy, Debug, PartialEq, Eq, Structural)]
pub enum StorageError {
    AlreadyClaimed,
}

/// Queues that can be claimed once. A failed bring-up leaves them claimed:
/// native callbacks may still refer to them.
pub struct NativeStorage {
    pub queues: L2Storage<4, 4, 1514>,
    pub claimed: bool,
}

/// `hisi_rf_core::l2::L2Storage::new`: empty queues of a link that is down.
#[verifier::external_body]
fn empty_queues() -> L2Storage<4, 4, 1514> {
    L2Storage::new()
}

/// The station address of the device among the parts.
pub uninterp spec fn device_address(parts: L2Parts<'_, 4, 4, 1514>) -> WifiL2Capabilities;

/// `hisi_rf_core::l2::L2Storage::split`: the one device and the one radio half of
/// the queues, with the link down. The device has the address that is given.
#[verifier::external_body]
fn split_queues<'a>(queues: &'a mut L2Storage<4, 4, 1514>, address: WifiL2Capabilities) -> (parts:
    L2Parts<'a, 4, 4, 1514>)
    ensures
        device_address(parts) == address,
{
    queues.split(address)
}

impl NativeStorage {
    pub fn new() -> (storage: Self)
        ensures
            !storage.claimed,
    {
        NativeStorage { queues: empty_queues(), claimed: false }
    }

    /// Claim the queues for one driver and one worker. The claim is never given
    /// back.
    pub fn claim<'a>(&'a mut self, address: WifiL2Capabilities) -> (result: Result<
        L2Parts<'a, 4, 4, 1514>,
        StorageError,
    >)
        ensures
            result is Ok <==> !old(self).claimed,
            result matches Ok(parts) ==> device_address(parts) == address,
            result matches Err(error) ==> error == StorageError::AlreadyClaimed && *final(self)
                == *old(self),
            final(self).claimed,
    {
        if self.claimed {
            return Err(StorageError::AlreadyClaimed);
        }
        self.claimed = true;
        Ok(split_queues(&mut self.queues, address))
    }

    /// The report of a storage that takes `total_bytes`.
    pub fn report_of(total_bytes: usize) -> (report: StorageReport)
        requires
            total_bytes >= (NATIVE_RX_SLOTS + NATIVE_TX_SLOTS) * NATIVE_MTU,
        ensures
            report.rx_slots == NATIVE_RX_SLOTS,
            report.tx_slots == NATIVE_TX_SLOTS,
            report.mtu == NATIVE_MTU,
            report.payload_bytes == (NATIVE_RX_SLOTS + NATIVE_TX_SLOTS) * NATIVE_MTU,
            report.total_bytes == total_bytes,
            report.payload_bytes + report.metadata_bytes == total_bytes,
    {
        let payload_bytes: usize = (NATIVE_RX_SLOTS + NATIVE_TX_SLOTS) * NATIVE_MTU;
        StorageReport {
            rx_slots: NATIVE_RX_SLOTS,
            tx_slots: NATIVE_TX_SLOTS,
            mtu: NATIVE_MTU,
            payload_bytes,
            metadata_bytes: total_bytes - payload_bytes,
            total_bytes,
        }
    }

    /// The report of this storage. The queues hold their payload in place, so the
    /// storage is never smaller than it.
    pub fn report() -> (report: Option<StorageReport>)
        ensures
            match report {
                Some(known) => {
                    &&& known.rx_slots == NATIVE_RX_SLOTS
                    &&& known.tx_slots == NATIVE_TX_SLOTS
                    &&& known.mtu == NATIVE_MTU
                    &&& known.payload_bytes == (NATIVE_RX_SLOTS + NATIVE_TX_SLOTS) * NATIVE_MTU
                    &&& known.total_bytes == vstd::layout::size_of::<NativeStorage>()
                    &&& known.payload_bytes + known.metadata_bytes == known.total_bytes
                },
                None => vstd::layout::size_of::<NativeStorage>() < (NATIVE_RX_SLOTS
                    + NATIVE_TX_SLOTS) * NATIVE_MTU,
            },
    {
        let total_bytes: usize = core::mem::size_of::<NativeStorage>();
        if total_bytes >= (NATIVE_RX_SLOTS + NATIVE_TX_SLOTS) * NATIVE_MTU {
            Some(Self::report_of(total_bytes))
        } else {
            None
        }
    }
}

/// The queues of a storage are claimed once, by the device with the given address, and
/// never again.
pub proof fn law_queues_are_claimed_once(address: WifiL2Capabilities)
    ensures
        forall|
            storage: &mut NativeStorage,
            result: Result<L2Parts<'_, 4, 4, 1514>, StorageError>,
        | #[trigger]
            call_ensures(NativeStorage::claim, (storage, address), result) ==> {
                &&& result is Ok <==> !(*storage).claimed
                &&& (*final(storage)).claimed
                &&& result matches Ok(parts) ==> device_address(parts) == address
                &&& result matches Err(error) ==> error is AlreadyClaimed
            },
{
}

/// The report of a storage tells four slots each way of 1514 bytes, and accounts for every
/// byte as payload or as metadata.
pub proof fn law_report_accounts_for_every_byte(total_bytes: usize, report: StorageReport)
    requires
        total_bytes >= 8 * 1514,
        call_ensures(NativeStorage::report_of, (total_bytes,), report),
    ensures
        report.rx_slots == 4 && report.tx_slots == 4 && report.mtu == 1514,
        report.payload_bytes == 12112,
        report.metadata_bytes == total_bytes - 12112,
        report.total_bytes == total_bytes,
{
}

} // verus!
