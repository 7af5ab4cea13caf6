//! Chip-neutral requests, and the vendor encodings they are mapped to.

use crate::ble::BleSecurityError;
use vstd::prelude::*;

verus! {

/// A legacy advertising request. Intervals are in units of 0.625 ms.
#[derive(Clone, Debug)]
pub struct AdvertisingConfig {
    pub minimum: u16,
    pub maximum: u16,
    /// The primary channels 37, 38 and 39, one bit each.
    pub channels: u8,
    pub payload: Vec<u8>,
}

impl AdvertisingConfig {
    /// The fields make a request that the controller can be asked for.
    pub open spec fn valid(minimum: u16, maximum: u16, channels: u8, length: nat) -> bool {
        0x20 <= minimum <= maximum <= 0x4000 && 1 <= channels <= 7 && length <= 31
    }

    pub open spec fn wf(self) -> bool {
        Self::valid(self.minimum, self.maximum, self.channels, self.payload@.len())
    }

    /// A request, where its fields are in range.
    pub fn try_new(minimum: u16, maximum: u16, channels: u8, payload: &[u8]) -> (config: Option<
        Self,
    >)
        ensures
            config is Some <==> Self::valid(minimum, maximum, channels, payload@.len()),
            config matches Some(request) ==> request.wf() && request.minimum == minimum
                && request.maximum == maximum && request.channels == channels
                && request.payload@ == payload@,
    {
        if minimum < 0x20 || maximum > 0x4000 || minimum > maximum || channels == 0 || channels > 7
            || payload.len() > 31 {
            return None;
        }
        let mut bytes: Vec<u8> = Vec::new();
        crate::render::append(&mut bytes, payload);
        assert(bytes@ =~= payload@);
        Some(Self { minimum, maximum, channels, payload: bytes })
    }
}

/// Host scan behavior.
#[derive(Clone, Copy, Debug, PartialEq, Eq, Structural)]
pub enum ScanMode {
    /// Listen without sending scan requests.
    Passive,
    /// Send scan requests when the peer supports them.
    Active,
}

/// A scan request. Interval and window are in units of 0.625 ms.
#[derive(Clone, Copy, Debug, PartialEq, Eq, Structural)]
pub struct ScanConfig {
    pub interval: u16,
    pub window: u16,
    pub mode: ScanMode,
    pub filter_duplicates: bool,
}

impl ScanConfig {
    pub open spec fn wf(self) -> bool {
        4 <= self.window <= self.interval <= 0x4000
    }

    /// A request, where its timing is in range.
    pub fn try_new(interval: u16, window: u16, mode: ScanMode, filter_duplicates: bool) -> (config:
        Option<Self>)
        ensures
            config == (if 4 <= window <= interval <= 0x4000 {
                Some(ScanConfig { interval, window, mode, filter_duplicates })
            } else {
                None
            }),
    {
        if window < 4 || window > interval || interval > 0x4000 {
            return None;
        }
        Some(ScanConfig { interval, window, mode, filter_duplicates })
    }
}

/// Device address in the vendor encoding.
#[derive(Clone, Copy, Debug, PartialEq, Eq)]
pub struct BdAddr {
    pub addr: [u8; 6],
    pub address_type: u8,
}

/// Kind of a device address.
#[derive(Clone, Copy, Debug, PartialEq, Eq, Structural)]
pub enum AddressType {
    /// Controller-assigned public device address.
    Public,
    /// Static random device address.
    RandomStatic,
}

/// Device address of a peer.
#[derive(Clone, Copy, Debug, PartialEq, Eq)]
pub struct BluetoothAddress {
    pub bytes: [u8; 6],
    pub kind: AddressType,
}

impl BdAddr {
    /// The vendor encoding of an address.
    pub open spec fn of(address: BluetoothAddress) -> BdAddr {
        BdAddr {
            addr: address.bytes,
            address_type: match address.kind {
                AddressType::Public => 0,
                AddressType::RandomStatic => 1,
            },
        }
    }

    pub fn from_typed(address: BluetoothAddress) -> (encoded: BdAddr)
        ensures
            encoded == BdAddr::of(address),
    {
        BdAddr {
            addr: address.bytes,
            address_type: match address.kind {
                AddressType::Public => 0,
                AddressType::RandomStatic => 1,
            },
        }
    }
}

/// Advertising parameters in the vendor encoding.
#[derive(Clone, Copy, Debug, PartialEq, Eq)]
pub struct GapBleAdvertisingParameters {
    pub min_interval: u32,
    pub max_interval: u32,
    pub advertising_type: u8,
    pub own_address: BdAddr,
    pub peer_address: BdAddr,
    pub channel_map: u8,
    pub filter_policy: u8,
    pub tx_power: i8,
    pub duration: u32,
    pub max_events: u8,
}

/// Scan parameters in the vendor encoding.
#[derive(Clone, Copy, Debug, PartialEq, Eq, Structural)]
pub struct GapBleScanParameters {
    pub interval: u16,
    pub window: u16,
    pub scan_type: u8,
    pub phy: u8,
    pub filter_policy: u8,
}

/// Undirected connectable advertising without a filter or a limit.
pub open spec fn advertising_parameters_of(minimum: u32, maximum: u32, channels: u8) -> (
    GapBleAdvertisingParameters
) {
    GapBleAdvertisingParameters {
        min_interval: minimum,
        max_interval: maximum,
        advertising_type: 0,
        own_address: BdAddr { addr: [0, 0, 0, 0, 0, 0], address_type: 0 },
        peer_address: BdAddr { addr: [0, 0, 0, 0, 0, 0], address_type: 0 },
        channel_map: channels,
        filter_policy: 0,
        tx_power: 0,
        duration: 0,
        max_events: 0,
    }
}

/// Scanning on the 1M PHY without a filter.
pub open spec fn scan_parameters_of(interval: u16, window: u16, scan_type: u8) -> (
    GapBleScanParameters
) {
    GapBleScanParameters { interval, window, scan_type, phy: 1, filter_policy: 0 }
}

impl GapBleAdvertisingParameters {
    pub fn new(minimum: u32, maximum: u32, channels: u8) -> (parameters: Self)
        ensures
            parameters == advertising_parameters_of(minimum, maximum, channels),
    {
        GapBleAdvertisingParameters {
            min_interval: minimum,
            max_interval: maximum,
            advertising_type: 0,
            own_address: BdAddr { addr: [0, 0, 0, 0, 0, 0], address_type: 0 },
            peer_address: BdAddr { addr: [0, 0, 0, 0, 0, 0], address_type: 0 },
            channel_map: channels,
            filter_policy: 0,
            tx_power: 0,
            duration: 0,
            max_events: 0,
        }
    }
}

impl GapBleScanParameters {
    pub fn new(interval: u16, window: u16, scan_type: u8) -> (parameters: Self)
        ensures
            parameters == scan_parameters_of(interval, window, scan_type),
    {
        GapBleScanParameters { interval, window, scan_type, phy: 1, filter_policy: 0 }
    }
}

/// Bluetooth GATT UUID.
#[derive(Clone, Copy, Debug, PartialEq, Eq)]
pub enum GattUuid {
    /// Bluetooth 16-bit UUID.
    Uuid16(u16),
    /// Full 128-bit UUID in network byte order.
    Uuid128([u8; 16]),
}

/// UUID in the vendor encoding: the bytes in network order, the first `length`
/// of them in use.
#[derive(Clone, Copy, Debug, PartialEq, Eq)]
pub struct BtUuid {
    pub length: u8,
    pub bytes: [u8; 16],
}

impl BtUuid {
    /// The encoding of a 16-bit UUID.
    pub open spec fn is_short(self, value: u16) -> bool {
        &&& self.length == 2
        &&& self.bytes[0] == value / 256
        &&& self.bytes[1] == value % 256
        &&& forall|i: int| 2 <= i < 16 ==> self.bytes[i] == 0
    }

    /// The encoding of a UUID.
    pub open spec fn encodes(self, uuid: GattUuid) -> bool {
        match uuid {
            GattUuid::Uuid16(value) => self.is_short(value),
            GattUuid::Uuid128(bytes) => self.length == 16 && self.bytes == bytes,
        }
    }

    /// The 16-bit value of an encoding, or zero where it is not a short one.
    pub open spec fn short_value(self) -> int {
        if self.length == 2 {
            self.bytes[0] * 256 + self.bytes[1]
        } else {
            0
        }
    }

    pub fn from_u16(value: u16) -> (uuid: Self)
        ensures
            uuid.is_short(value),
    {
        let mut bytes: [u8; 16] = [0;16];
        bytes[0] = (value / 256) as u8;
        bytes[1] = (value % 256) as u8;
        Self { length: 2, bytes }
    }

    /// The vendor encoding of a UUID.
    pub fn from_core(uuid: GattUuid) -> (encoded: Self)
        ensures
            encoded.encodes(uuid),
    {
        match uuid {
            GattUuid::Uuid16(value) => Self::from_u16(value),
            GattUuid::Uuid128(bytes) => Self { length: 16, bytes },
        }
    }

    pub fn as_u16(&self) -> (value: u16)
        ensures
            value == self.short_value(),
    {
        if self.length != 2 {
            return 0;
        }
        self.bytes[0] as u16 * 256 + self.bytes[1] as u16
    }
}

/// What a peer may do with an attribute.
#[derive(Clone, Copy, Debug, PartialEq, Eq, Structural)]
pub struct GattPermissions {
    pub read: bool,
    pub write: bool,
}

/// The operations of a characteristic.
#[derive(Clone, Copy, Debug, PartialEq, Eq, Structural)]
pub struct GattProperties {
    pub read: bool,
    pub write: bool,
    pub write_without_response: bool,
    pub notify: bool,
    pub indicate: bool,
}

/// A bit of an encoding, where it is set.
pub open spec fn bit(set: bool, value: int) -> int {
    if set {
        value
    } else {
        0
    }
}

fn flag(set: bool, value: u8) -> (contribution: u8)
    ensures
        contribution == bit(set, value as int),
{
    if set {
        value
    } else {
        0
    }
}

/// The vendor encoding of permissions.
pub open spec fn permission_bits(permissions: GattPermissions) -> int {
    bit(permissions.read, 0x01) + bit(permissions.write, 0x02)
}

pub fn map_gatt_permissions(permissions: GattPermissions) -> (raw: u8)
    ensures
        raw == permission_bits(permissions),
{
    flag(permissions.read, 0x01) + flag(permissions.write, 0x02)
}

/// The vendor encoding of properties.
pub open spec fn property_bits(properties: GattProperties) -> int {
    bit(properties.read, 0x02) + bit(properties.write_without_response, 0x04) + bit(
        properties.write,
        0x08,
    ) + bit(properties.notify, 0x10) + bit(properties.indicate, 0x20)
}

pub fn map_gatt_properties(properties: GattProperties) -> (raw: u8)
    ensures
        raw == property_bits(properties),
{
    flag(properties.read, 0x02) + flag(properties.write_without_response, 0x04) + flag(
        properties.write,
        0x08,
    ) + flag(properties.notify, 0x10) + flag(properties.indicate, 0x20)
}

/// Whether successful pairing creates a persistent bond.
#[derive(Clone, Copy, Debug, PartialEq, Eq, Structural)]
pub enum Bonding {
    Disabled,
    Enabled,
}

/// Local input and output capabilities used by pairing association.
#[derive(Clone, Copy, Debug, PartialEq, Eq, Structural)]
pub enum IoCapability {
    DisplayOnly,
    DisplayYesNo,
    KeyboardOnly,
    NoInputNoOutput,
    KeyboardDisplay,
}

/// Least link-security property requested from the host.
#[derive(Clone, Copy, Debug, PartialEq, Eq, Structural)]
pub enum SecurityRequirement {
    /// Unauthenticated pairing followed by link encryption.
    Encrypted,
    /// Authenticated pairing followed by link encryption.
    Authenticated,
    /// Authenticated LE Secure Connections pairing and encryption.
    SecureConnectionsAuthenticated,
}

/// Pairing policy.
#[derive(Clone, Copy, Debug, PartialEq, Eq, Structural)]
pub struct SecurityConfig {
    pub bonding: Bonding,
    pub io_capability: IoCapability,
    pub requirement: SecurityRequirement,
}

/// Pairing policy in the vendor encoding.
#[derive(Clone, Copy, Debug, PartialEq, Eq, Structural)]
pub struct GapBleSecurityParameters {
    pub bondable: u8,
    pub io_capability: u8,
    pub secure_connections: u8,
    pub security_mode: u8,
}

impl GapBleSecurityParameters {
    /// The vendor encoding of a policy.
    pub open spec fn of(config: SecurityConfig) -> Self {
        GapBleSecurityParameters {
            bondable: if config.bonding is Enabled {
                1
            } else {
                0
            },
            io_capability: match config.io_capability {
                IoCapability::DisplayOnly => 0,
                IoCapability::DisplayYesNo => 1,
                IoCapability::KeyboardOnly => 2,
                IoCapability::NoInputNoOutput => 3,
                IoCapability::KeyboardDisplay => 4,
            },
            secure_connections: if config.requirement is SecureConnectionsAuthenticated {
                1
            } else {
                0
            },
            security_mode: match config.requirement {
                SecurityRequirement::Encrypted => 1,
                SecurityRequirement::Authenticated => 2,
                SecurityRequirement::SecureConnectionsAuthenticated => 3,
            },
        }
    }

    pub fn from_config(config: SecurityConfig) -> (parameters: Self)
        ensures
            parameters == Self::of(config),
    {
        GapBleSecurityParameters {
            bondable: match config.bonding {
                Bonding::Disabled => 0,
                Bonding::Enabled => 1,
            },
            io_capability: match config.io_capability {
                IoCapability::DisplayOnly => 0,
                IoCapability::DisplayYesNo => 1,
                IoCapability::KeyboardOnly => 2,
                IoCapability::NoInputNoOutput => 3,
                IoCapability::KeyboardDisplay => 4,
            },
            secure_connections: match config.requirement {
                SecurityRequirement::SecureConnectionsAuthenticated => 1,
                _ => 0,
            },
            security_mode: match config.requirement {
                SecurityRequirement::Encrypted => 1,
                SecurityRequirement::Authenticated => 2,
                SecurityRequirement::SecureConnectionsAuthenticated => 3,
            },
        }
    }
}

/// Pairing state of a peer.
#[derive(Clone, Copy, Debug, PartialEq, Eq, Structural)]
pub enum PairingState {
    /// The peer has no pairing relationship.
    NotPaired,
    /// A pairing operation is in progress.
    Pairing,
    /// Pairing completed.
    Paired,
}

/// The pairing state of a vendor value.
pub open spec fn pairing_state_of(value: u32) -> Result<PairingState, BleSecurityError> {
    if value == 1 {
        Ok(PairingState::NotPaired)
    } else if value == 2 {
        Ok(PairingState::Pairing)
    } else if value == 3 {
        Ok(PairingState::Paired)
    } else {
        Err(BleSecurityError::UnknownPairingState(value))
    }
}

pub fn decode_pairing_state(value: u32) -> (state: Result<PairingState, BleSecurityError>)
    ensures
        state == pairing_state_of(value),
{
    match value {
        1 => Ok(PairingState::NotPaired),
        2 => Ok(PairingState::Pairing),
        3 => Ok(PairingState::Paired),
        _ => Err(BleSecurityError::UnknownPairingState(value)),
    }
}

/// A short UUID can be read back from its encoding; a full one is not mistaken
/// for a short one.
pub proof fn law_short_uuid_round_trip(encoded: BtUuid, uuid: GattUuid)
    requires
        encoded.encodes(uuid),
    ensures
        uuid matches GattUuid::Uuid16(value) ==> encoded.short_value() == value,
        uuid is Uuid128 ==> encoded.short_value() == 0,
{
}

/// Different permissions have different encodings, and so have different
/// properties.
pub proof fn law_attribute_bits_are_told_apart(
    p: GattPermissions,
    q: GattPermissions,
    r: GattProperties,
    s: GattProperties,
)
    ensures
        permission_bits(p) == permission_bits(q) ==> p == q,
        property_bits(r) == property_bits(s) ==> r == s,
{
}

/// Different pairing policies have different encodings.
pub proof fn law_security_policies_are_told_apart(a: SecurityConfig, b: SecurityConfig)
    ensures
        GapBleSecurityParameters::of(a) == GapBleSecurityParameters::of(b) ==> a == b,
{
}

/// The vendor is asked for more security, never for less, the more a policy
/// requires: for mode one, two or three. Secure connections are asked for exactly
/// where they are required, and a bond exactly where it is wanted.
pub proof fn law_security_mode_rises_with_the_requirement(
    config: SecurityConfig,
    parameters: GapBleSecurityParameters,
)
    requires
        call_ensures(GapBleSecurityParameters::from_config, (config,), parameters),
    ensures
        config.requirement is Encrypted <==> parameters.security_mode == 1,
        config.requirement is Authenticated <==> parameters.security_mode == 2,
        config.requirement is SecureConnectionsAuthenticated <==> parameters.security_mode == 3,
        parameters.secure_connections == 1 <==> parameters.security_mode == 3,
        parameters.secure_connections <= 1,
        parameters.bondable == 1 <==> config.bonding is Enabled,
        parameters.bondable <= 1,
{
}

/// The input and output capabilities have the numbers that Bluetooth gives them.
pub proof fn law_io_capabilities_are_numbered_as_in_bluetooth(
    config: SecurityConfig,
    parameters: GapBleSecurityParameters,
)
    requires
        call_ensures(GapBleSecurityParameters::from_config, (config,), parameters),
    ensures
        parameters.io_capability == 0 <==> config.io_capability is DisplayOnly,
        parameters.io_capability == 1 <==> config.io_capability is DisplayYesNo,
        parameters.io_capability == 2 <==> config.io_capability is KeyboardOnly,
        parameters.io_capability == 3 <==> config.io_capability is NoInputNoOutput,
        parameters.io_capability == 4 <==> config.io_capability is KeyboardDisplay,
{
}

/// A policy that differs in one respect only differs in that respect only for the
/// vendor.
pub proof fn law_security_settings_are_independent(a: SecurityConfig, b: SecurityConfig)
    ensures
        ({
            let x = GapBleSecurityParameters::of(a);
            let y = GapBleSecurityParameters::of(b);
            &&& a.bonding == b.bonding <==> x.bondable == y.bondable
            &&& a.io_capability == b.io_capability <==> x.io_capability == y.io_capability
            &&& a.requirement == b.requirement <==> x.security_mode == y.security_mode
        }),
{
}

/// A peer is addressed by its own bytes; a public address is told from a random
/// one by its type, zero or one.
pub proof fn law_peer_address_is_kept(address: BluetoothAddress, encoded: BdAddr)
    requires
        call_ensures(BdAddr::from_typed, (address,), encoded),
    ensures
        encoded.addr@ == address.bytes@,
        encoded.address_type == 0 <==> address.kind is Public,
        encoded.address_type == 1 <==> address.kind is RandomStatic,
{
}

/// A short UUID is written as two bytes, the more significant one first, with
/// nothing behind them; a full one as its sixteen bytes.
pub proof fn law_uuid_is_in_network_order(uuid: GattUuid, encoded: BtUuid)
    requires
        call_ensures(BtUuid::from_core, (uuid,), encoded),
    ensures
        uuid matches GattUuid::Uuid16(value) ==> {
            &&& encoded.length == 2
            &&& 256 * encoded.bytes[0] + encoded.bytes[1] == value
            &&& forall|i: int| 2 <= i < 16 ==> encoded.bytes[i] == 0
        },
        uuid matches GattUuid::Uuid128(bytes) ==> encoded.length == 16 && encoded.bytes@ == bytes@,
{
}

/// A short UUID of the vendor is read with its first byte as the more significant
/// one; one of any other length reads as zero.
pub proof fn law_uuid_is_read_in_network_order(encoded: BtUuid, value: u16)
    requires
        call_ensures(BtUuid::as_u16, (&encoded,), value),
    ensures
        encoded.length == 2 ==> value == 256 * encoded.bytes[0] + encoded.bytes[1],
        encoded.length != 2 ==> value == 0,
{
}

/// Reading is permitted by the first bit and writing by the second. Of the
/// properties, reading, writing without response, writing, notifying and
/// indicating have the second to the sixth bit, and no other bit is set.
pub proof fn law_attribute_bits_have_their_places(
    permissions: GattPermissions,
    properties: GattProperties,
)
    ensures
        0 <= permission_bits(permissions) < 4,
        permission_bits(permissions) % 2 == 1 <==> permissions.read,
        permission_bits(permissions) / 2 == 1 <==> permissions.write,
        0 <= property_bits(properties) < 64,
        property_bits(properties) % 2 == 0,
        property_bits(properties) / 2 % 2 == 1 <==> properties.read,
        property_bits(properties) / 4 % 2 == 1 <==> properties.write_without_response,
        property_bits(properties) / 8 % 2 == 1 <==> properties.write,
        property_bits(properties) / 16 % 2 == 1 <==> properties.notify,
        property_bits(properties) / 32 == 1 <==> properties.indicate,
{
}

/// The vendor's pairing states are numbered from one; any other number is handed
/// back as an error.
pub proof fn law_pairing_states_are_numbered(value: u32)
    ensures
        pairing_state_of(value) == Ok::<PairingState, BleSecurityError>(PairingState::NotPaired)
            <==> value == 1,
        pairing_state_of(value) == Ok::<PairingState, BleSecurityError>(PairingState::Pairing)
            <==> value == 2,
        pairing_state_of(value) == Ok::<PairingState, BleSecurityError>(PairingState::Paired)
            <==> value == 3,
        value == 0 || value > 3 ==> pairing_state_of(value) == Err::<
            PairingState,
            BleSecurityError,
        >(BleSecurityError::UnknownPairingState(value)),
{
}

/// An advertising request is made exactly of intervals between 20 ms and 10.24 s
/// that do not cross, of at least one of the three channels, and of a payload of
/// at most 31 bytes; it holds what it was made of.
pub proof fn law_advertising_requests_are_in_range(
    minimum: u16,
    maximum: u16,
    channels: u8,
    payload: &[u8],
    config: Option<AdvertisingConfig>,
)
    requires
        call_ensures(
            AdvertisingConfig::try_new,
            (minimum, maximum, channels, payload),
            config,
        ),
    ensures
        config is Some <==> 32 <= minimum && minimum <= maximum && maximum <= 16384 && channels != 0
            && channels < 8 && payload@.len() < 32,
        config matches Some(request) ==> request.minimum == minimum && request.maximum == maximum
            && request.channels == channels && request.payload@ == payload@,
{
}

/// A scan request is made exactly of a window of at least 2.5 ms within an
/// interval of at most 10.24 s; it holds what it was made of.
pub proof fn law_scan_requests_are_in_range(
    interval: u16,
    window: u16,
    mode: ScanMode,
    filter_duplicates: bool,
    config: Option<ScanConfig>,
)
    requires
        call_ensures(ScanConfig::try_new, (interval, window, mode, filter_duplicates), config),
    ensures
        config is Some <==> window >= 4 && window <= interval && interval <= 16384,
        config matches Some(request) ==> request.interval == interval && request.window == window
            && request.mode == mode && request.filter_duplicates == filter_duplicates,
{
}

/// Advertising is connectable, undirected and unfiltered, and scanning runs
/// unfiltered on the 1M PHY, whatever else is asked for.
pub proof fn law_vendor_defaults_are_open(
    minimum: u32,
    maximum: u32,
    channels: u8,
    advertising: GapBleAdvertisingParameters,
    interval: u16,
    window: u16,
    scan_type: u8,
    scan: GapBleScanParameters,
)
    requires
        call_ensures(
            GapBleAdvertisingParameters::new,
            (minimum, maximum, channels),
            advertising,
        ),
        call_ensures(GapBleScanParameters::new, (interval, window, scan_type), scan),
    ensures
        advertising.min_interval == minimum && advertising.max_interval == maximum,
        advertising.channel_map == channels,
        advertising.advertising_type == 0 && advertising.filter_policy == 0,
        advertising.duration == 0 && advertising.max_events == 0 && advertising.tx_power == 0,
        advertising.own_address == advertising.peer_address,
        advertising.own_address.address_type == 0,
        advertising.own_address.addr@ == Seq::new(6, |i: int| 0u8),
        scan.interval == interval && scan.window == window && scan.scan_type == scan_type,
        scan.phy == 1 && scan.filter_policy == 0,
{
    assert(advertising.own_address.addr@ =~= Seq::new(6, |i: int| 0u8));
}

} // verus!
