//! USB devices as plain values: which devices are candidates for a handshake, what
//! a version reply means, and which endpoint of a device takes the frames.

use vstd::prelude::*;
use vstd::string::StringExecFns;

use crate::error::{
    spec_given, spec_logged, DiscoveryError, GabinatorError, HandshakeError, LogPlan, LoggerLevel,
};
use crate::text::{append_decimal, spec_decimal};

verus! {

/// Vendor id under which a device re-enumerates once it is in accessory mode.
pub const ACCESSORY_VENDOR_ID: u16 = 0x18D1;

/// Product id of an accessory without a debug bridge.
pub const ACCESSORY_PRODUCT_ID: u16 = 0x2D00;

/// Product id of an accessory with a debug bridge.
pub const ACCESSORY_ADB_PRODUCT_ID: u16 = 0x2D01;

/// Request type of a vendor request that reads from the device.
pub const VENDOR_REQUEST_IN: u8 = 0xC0;

/// Request type of a vendor request that writes to the device.
pub const VENDOR_REQUEST_OUT: u8 = 0x40;

/// Vendor request code of `GetProtocolVersion` (device to host, two bytes).
pub const GET_PROTOCOL_REQUEST: u8 = 51;

/// Vendor request code of `StartAccessory` (host to device, no payload).
pub const START_ACCESSORY_REQUEST: u8 = 53;

/// Interface that the handshake claims on the re-enumerated device.
pub const ACCESSORY_INTERFACE: u8 = 0;

/// The product ids that a poll for the re-enumerated device tries, in this order,
/// under the accessory vendor id.
pub fn accessory_product_ids() -> (ids: [u16; 2])
    ensures
        ids@ == seq![ACCESSORY_PRODUCT_ID, ACCESSORY_ADB_PRODUCT_ID],
{
    let ids: [u16; 2] = [ACCESSORY_PRODUCT_ID, ACCESSORY_ADB_PRODUCT_ID];
    assert(ids@ =~= seq![ACCESSORY_PRODUCT_ID, ACCESSORY_ADB_PRODUCT_ID]);
    ids
}

/// The protocol version that a two-byte `GetProtocolVersion` reply encodes:
/// `(byte1 << 7) | byte0`, as a number. No bit of either byte is lost: the version
/// is held in sixteen bits.
pub open spec fn spec_protocol_version(reply: [u8; 2]) -> u16 {
    ((reply[1] as u16) << 7u16) | (reply[0] as u16)
}

/// Whether the handshake goes on with a device that reports `version`.
pub open spec fn spec_version_supported(version: u16) -> bool {
    version == 1 || version == 2
}

/// Decodes the reply of `GetProtocolVersion`.
pub fn protocol_version(reply: [u8; 2]) -> (version: u16)
    ensures
        version == spec_protocol_version(reply),
{
    ((reply[1] as u16) << 7u16) | (reply[0] as u16)
}

/// The decoded version is no smaller than the low byte and no smaller than 128
/// times the high byte, and no larger than the two together. So a reply is
/// supported exactly when its high byte is 0 and its low byte is 1 or 2.
pub proof fn lemma_protocol_version_supported(reply: [u8; 2])
    ensures
        spec_protocol_version(reply) >= reply[0],
        spec_protocol_version(reply) >= 128 * reply[1],
        spec_protocol_version(reply) <= 128 * reply[1] + reply[0],
        spec_version_supported(spec_protocol_version(reply)) <==> reply[1] == 0 && (reply[0] == 1
            || reply[0] == 2),
{
    let lo = reply[0] as u16;
    let hi = reply[1] as u16;
    assert(((hi << 7u16) | lo) >= lo && ((hi << 7u16) | lo) >= 128 * hi && ((hi << 7u16) | lo)
        <= 128 * hi + lo) by (bit_vector)
        requires
            lo <= 255,
            hi <= 255,
    ;
    assert(hi == 0 ==> ((hi << 7u16) | lo) == lo) by (bit_vector);
}

/// Checks the outcome of the `GetProtocolVersion` transfer: `None` stands for a
/// transfer that failed, `Some` holds the two bytes that the device sent.
pub open spec fn spec_get_AOA_version(reply: Option<[u8; 2]>) -> Result<u16, HandshakeError> {
    match reply {
        None => Err(HandshakeError::VersionQueryFailed),
        Some(bytes) => if spec_version_supported(spec_protocol_version(bytes)) {
            Ok(spec_protocol_version(bytes))
        } else {
            Err(HandshakeError::UnsupportedVersion(spec_protocol_version(bytes)))
        },
    }
}

/// Checks the outcome of the `GetProtocolVersion` transfer. A failed transfer is
/// `VersionQueryFailed`; a reply that decodes to version 1 or 2 is accepted; any
/// other reply is `UnsupportedVersion` with the version that it decodes to.
pub fn get_AOA_version(reply: Option<[u8; 2]>) -> (version: Result<u16, HandshakeError>)
    ensures
        version == spec_get_AOA_version(reply),
{
    match reply {
        None => Err(HandshakeError::VersionQueryFailed),
        Some(bytes) => {
            let version: u16 = protocol_version(bytes);
            if version == 1 || version == 2 {
                Ok(version)
            } else {
                Err(HandshakeError::UnsupportedVersion(version))
            }
        },
    }
}

/// A USB device as one discovery pass saw it. A reference does not outlive a mode
/// switch: the device re-enumerates under another product id.
#[derive(Clone, Copy, Debug, PartialEq, Eq, Structural)]
pub struct UsbDeviceRef {
    pub bus: u8,
    pub address: u8,
    pub vendor_id: u16,
    pub product_id: u16,
}

impl UsbDeviceRef {
    /// Whether the product id is one of the two that accessories enumerate under.
    pub open spec fn spec_has_accessory_product(self) -> bool {
        self.product_id == ACCESSORY_PRODUCT_ID || self.product_id == ACCESSORY_ADB_PRODUCT_ID
    }

    /// Whether the device is in accessory mode: the accessory vendor id and one of
    /// the two accessory product ids.
    pub open spec fn spec_in_accessory_mode(self) -> bool {
        self.vendor_id == ACCESSORY_VENDOR_ID && self.spec_has_accessory_product()
    }

    /// Whether the product id is one of the two that accessories enumerate under.
    pub fn has_accessory_product(&self) -> (yes: bool)
        ensures
            yes == self.spec_has_accessory_product(),
    {
        self.product_id == ACCESSORY_PRODUCT_ID || self.product_id == ACCESSORY_ADB_PRODUCT_ID
    }

    /// Whether the device is in accessory mode.
    pub fn in_accessory_mode(&self) -> (yes: bool)
        ensures
            yes == self.spec_in_accessory_mode(),
    {
        self.vendor_id == ACCESSORY_VENDOR_ID && self.has_accessory_product()
    }
}

/// The reason for which a device does not count as being in accessory mode, if
/// there is one: another vendor id first, another product id second.
pub open spec fn spec_is_in_AOA(device: UsbDeviceRef) -> Option<Seq<char>> {
    if device.vendor_id != ACCESSORY_VENDOR_ID {
        Some("Device is not in AOA mode"@)
    } else if device.spec_has_accessory_product() {
        None
    } else {
        Some("Device is not an AOA device"@)
    }
}

/// Checks whether a device is in accessory mode. It is when nothing is returned;
/// else the result is the failure, with its reason, and what is to be logged for
/// it, as a warning.
pub fn is_in_AOA(device: &UsbDeviceRef, config: Option<&Vec<(String, String)>>) -> (refusal: Option<
    (GabinatorError, LogPlan),
>)
    ensures
        refusal is None <==> device.spec_in_accessory_mode(),
        match refusal {
            Some(made) => {
                &&& made.0 is UsbError
                &&& Some(made.0.spec_message()) == spec_is_in_AOA(*device)
                &&& spec_logged(
                    made.1@,
                    made.0.spec_message(),
                    LoggerLevel::Warning,
                    spec_given(config),
                )
            },
            None => spec_is_in_AOA(*device) is None,
        },
{
    if device.vendor_id != ACCESSORY_VENDOR_ID {
        Some(GabinatorError::newUSB("Device is not in AOA mode", LoggerLevel::Warning, config))
    } else if device.has_accessory_product() {
        None
    } else {
        Some(GabinatorError::newUSB("Device is not an AOA device", LoggerLevel::Warning, config))
    }
}

/// What one discovery pass learned of a device by trying to open it and, where
/// discovery asked for it, by querying its protocol version.
#[derive(Clone, Copy, Debug)]
pub struct DeviceProbe {
    pub device: UsbDeviceRef,
    /// Whether the device could be opened.
    pub opened: bool,
    /// The reply to `GetProtocolVersion`; `None` where the transfer failed or was
    /// not made.
    pub version_reply: Option<[u8; 2]>,
}

/// How a candidate qualified.
#[derive(Clone, Copy, Debug, PartialEq, Eq, Structural)]
pub enum CandidateKind {
    /// The device is in accessory mode already: a caller may go on to endpoint
    /// discovery.
    AlreadySwitched,
    /// The device answered the version query with this supported version.
    Capable(u16),
}

/// A device that a handshake can be attempted on.
#[derive(Clone, Copy, Debug, PartialEq, Eq, Structural)]
pub struct Candidate {
    pub device: UsbDeviceRef,
    pub kind: CandidateKind,
}

/// Whether discovery has to query the protocol version of a device that it could
/// open: not for a device in accessory mode, unless such devices are ignored.
pub open spec fn spec_needs_version_query(
    device: UsbDeviceRef,
    ignore_already_initialized: bool,
) -> bool {
    !device.spec_in_accessory_mode() || ignore_already_initialized
}

/// How discovery classifies one probed device. A device that could not be opened is
/// passed over. A device in accessory mode is a candidate as it is, unless such
/// devices are ignored. Any other device, and an ignored one, is a candidate
/// exactly when it answered the version query with a supported version.
pub open spec fn spec_classify(probe: DeviceProbe, ignore_already_initialized: bool) -> Result<
    Candidate,
    DiscoveryError,
> {
    if !probe.opened {
        Err(DiscoveryError::OpenFailed)
    } else if !spec_needs_version_query(probe.device, ignore_already_initialized) {
        Ok(Candidate { device: probe.device, kind: CandidateKind::AlreadySwitched })
    } else {
        match spec_get_AOA_version(probe.version_reply) {
            Ok(version) => Ok(
                Candidate { device: probe.device, kind: CandidateKind::Capable(version) },
            ),
            Err(error) => Err(DiscoveryError::NotCapable(error)),
        }
    }
}

/// The candidates among `probes`, in the order of the probes.
pub open spec fn spec_find_compatible_usb(
    probes: Seq<DeviceProbe>,
    ignore_already_initialized: bool,
) -> Seq<Candidate>
    decreases probes.len(),
{
    if probes.len() == 0 {
        Seq::empty()
    } else {
        let before = spec_find_compatible_usb(probes.drop_last(), ignore_already_initialized);
        match spec_classify(probes.last(), ignore_already_initialized) {
            Ok(candidate) => before.push(candidate),
            Err(_) => before,
        }
    }
}

/// Discovery returns exactly the devices that classify as candidates: each
/// candidate comes from a probe that classifies as it, and each probe that
/// classifies as a candidate has it returned.
pub proof fn lemma_candidates_are_the_classified_probes(
    probes: Seq<DeviceProbe>,
    ignore_already_initialized: bool,
)
    ensures
        spec_find_compatible_usb(probes, ignore_already_initialized).len() <= probes.len(),
        forall|candidate: Candidate|
            spec_find_compatible_usb(probes, ignore_already_initialized).contains(candidate)
                <==> exists|i: int|
                0 <= i < probes.len() && #[trigger] spec_classify(
                    probes[i],
                    ignore_already_initialized,
                ) == Ok::<Candidate, DiscoveryError>(candidate),
    decreases probes.len(),
{
    let found = spec_find_compatible_usb(probes, ignore_already_initialized);
    if probes.len() > 0 {
        let earlier = probes.drop_last();
        let before = spec_find_compatible_usb(earlier, ignore_already_initialized);
        lemma_candidates_are_the_classified_probes(earlier, ignore_already_initialized);
        assert forall|candidate: Candidate| found.contains(candidate) <==> exists|i: int|
            0 <= i < probes.len() && #[trigger] spec_classify(
                probes[i],
                ignore_already_initialized,
            ) == Ok::<Candidate, DiscoveryError>(candidate) by {
            if found.contains(candidate) {
                let at = choose|at: int| 0 <= at < found.len() && found[at] == candidate;
                if at < before.len() {
                    assert(before[at] == candidate);
                    assert(before.contains(candidate));
                    let i = choose|i: int|
                        0 <= i < earlier.len() && #[trigger] spec_classify(
                            earlier[i],
                            ignore_already_initialized,
                        ) == Ok::<Candidate, DiscoveryError>(candidate);
                    assert(probes[i] == earlier[i]);
                } else {
                    assert(spec_classify(probes[probes.len() - 1], ignore_already_initialized)
                        == Ok::<Candidate, DiscoveryError>(candidate));
                }
            }
            if exists|i: int|
                0 <= i < probes.len() && #[trigger] spec_classify(
                    probes[i],
                    ignore_already_initialized,
                ) == Ok::<Candidate, DiscoveryError>(candidate) {
                let i = choose|i: int|
                    0 <= i < probes.len() && #[trigger] spec_classify(
                        probes[i],
                        ignore_already_initialized,
                    ) == Ok::<Candidate, DiscoveryError>(candidate);
                if i < earlier.len() {
                    assert(earlier[i] == probes[i]);
                    assert(before.contains(candidate));
                    let at = choose|at: int| 0 <= at < before.len() && before[at] == candidate;
                    assert(found[at] == candidate);
                } else {
                    assert(found[found.len() - 1] == candidate);
                }
            }
        }
    } else {
        assert forall|candidate: Candidate| !found.contains(candidate) by {}
    }
}

/// Whether discovery has to query the protocol version of a device that it could
/// open.
pub fn needs_version_query(device: &UsbDeviceRef, ignore_already_initialized: bool) -> (yes: bool)
    ensures
        yes == spec_needs_version_query(*device, ignore_already_initialized),
{
    !device.in_accessory_mode() || ignore_already_initialized
}

/// Classifies one probed device: as a candidate, or as passed over and why.
pub fn classify(probe: &DeviceProbe, ignore_already_initialized: bool) -> (candidate: Result<
    Candidate,
    DiscoveryError,
>)
    ensures
        candidate == spec_classify(*probe, ignore_already_initialized),
{
    if !probe.opened {
        Err(DiscoveryError::OpenFailed)
    } else if !needs_version_query(&probe.device, ignore_already_initialized) {
        Ok(Candidate { device: probe.device, kind: CandidateKind::AlreadySwitched })
    } else {
        match get_AOA_version(probe.version_reply) {
            Ok(version) => Ok(
                Candidate { device: probe.device, kind: CandidateKind::Capable(version) },
            ),
            Err(error) => Err(DiscoveryError::NotCapable(error)),
        }
    }
}

/// Device discovery over the devices that one enumeration pass probed: returns the
/// candidates, each with the way it qualified, in enumeration order. No device is
/// changed by it.
pub fn find_compatible_usb(probes: &Vec<DeviceProbe>, ignore_already_initialized: bool) -> (found:
    Vec<Candidate>)
    ensures
        found@ == spec_find_compatible_usb(probes@, ignore_already_initialized),
{
    let mut found: Vec<Candidate> = Vec::new();
    let mut i: usize = 0;
    assert(probes@.take(0) =~= Seq::empty());
    while i < probes.len()
        invariant
            i <= probes.len(),
            found@ == spec_find_compatible_usb(probes@.take(i as int), ignore_already_initialized),
        decreases probes.len() - i,
    {
        assert(probes@.take(i + 1).drop_last() =~= probes@.take(i as int));
        match classify(&probes[i], ignore_already_initialized) {
            Ok(candidate) => {
                found.push(candidate);
            },
            Err(_) => {},
        }
        i += 1;
    }
    assert(probes@.take(i as int) =~= probes@);
    found
}

/// Direction of an endpoint, as its descriptor gives it.
#[derive(Clone, Copy, Debug, PartialEq, Eq, Structural)]
pub enum Direction {
    In,
    Out,
}

/// Transfer type of an endpoint, as its descriptor gives it.
#[derive(Clone, Copy, Debug, PartialEq, Eq, Structural)]
pub enum TransferType {
    Control,
    Isochronous,
    Bulk,
    Interrupt,
}

/// One endpoint descriptor of an alternate setting.
#[derive(Clone, Copy, Debug, PartialEq, Eq, Structural)]
pub struct EndpointDescriptor {
    pub address: u8,
    pub direction: Direction,
    pub transfer_type: TransferType,
}

/// One alternate setting of an interface, with its endpoints in descriptor order.
#[derive(Clone, Debug)]
pub struct InterfaceSetting {
    pub interface_number: u8,
    pub setting_number: u8,
    pub endpoints: Vec<EndpointDescriptor>,
}

/// One interface of a configuration: its alternate settings in descriptor order.
#[derive(Clone, Debug)]
pub struct Interface {
    pub settings: Vec<InterfaceSetting>,
}

/// One configuration of a device, with its interfaces in descriptor order.
#[derive(Clone, Debug)]
pub struct Configuration {
    pub number: u8,
    pub interfaces: Vec<Interface>,
}

/// The endpoint that a session streams to: where it sits in the descriptor tree and
/// the address that bulk writes go to.
#[derive(Clone, Copy, Debug, PartialEq, Eq, Structural)]
pub struct endpoint {
    pub config: u8,
    pub interface: u8,
    pub setting: u8,
    pub address: u8,
}

impl endpoint {
    /// The endpoint in words: the four numbers, each after its name.
    pub open spec fn spec_to_string(self) -> Seq<char> {
        "CONFIG: "@ + spec_decimal(self.config as nat) + " INTERFACE: "@ + spec_decimal(
            self.interface as nat,
        ) + " SETTING: "@ + spec_decimal(self.setting as nat) + " ADDRESS: "@ + spec_decimal(
            self.address as nat,
        )
    }

    /// The endpoint in words.
    pub fn to_string(&self) -> (text: String)
        ensures
            text@ == self.spec_to_string(),
    {
        let mut text = String::from_str("CONFIG: ");
        append_decimal(&mut text, self.config as u64);
        text.append(" INTERFACE: ");
        append_decimal(&mut text, self.interface as u64);
        text.append(" SETTING: ");
        append_decimal(&mut text, self.setting as u64);
        text.append(" ADDRESS: ");
        append_decimal(&mut text, self.address as u64);
        text
    }
}

/// A position in a descriptor tree: the indices of a configuration, of an interface
/// in it, of an alternate setting of that interface and of an endpoint of that
/// setting.
pub struct EndpointPath {
    pub config: int,
    pub interface: int,
    pub setting: int,
    pub endpoint: int,
}

/// Whether frames can be streamed to an endpoint: it takes bulk transfers from the
/// host.
pub open spec fn is_bulk_out(e: EndpointDescriptor) -> bool {
    e.direction == Direction::Out && e.transfer_type == TransferType::Bulk
}

/// Whether `p` names an endpoint of `tree`.
pub open spec fn path_in_tree(tree: Seq<Configuration>, p: EndpointPath) -> bool {
    &&& 0 <= p.config < tree.len()
    &&& 0 <= p.interface < tree[p.config].interfaces@.len()
    &&& 0 <= p.setting < tree[p.config].interfaces@[p.interface].settings@.len()
    &&& 0 <= p.endpoint
        < tree[p.config].interfaces@[p.interface].settings@[p.setting].endpoints@.len()
}

/// The alternate setting that `p` lies in.
pub open spec fn setting_at(tree: Seq<Configuration>, p: EndpointPath) -> InterfaceSetting {
    tree[p.config].interfaces@[p.interface].settings@[p.setting]
}

/// Whether `p` names a bulk OUT endpoint of `tree`.
pub open spec fn is_bulk_out_at(tree: Seq<Configuration>, p: EndpointPath) -> bool {
    path_in_tree(tree, p) && is_bulk_out(setting_at(tree, p).endpoints@[p.endpoint])
}

/// Descriptor order: configurations first, then interfaces, settings and endpoints.
pub open spec fn path_before(p: EndpointPath, q: EndpointPath) -> bool {
    ||| p.config < q.config
    ||| p.config == q.config && p.interface < q.interface
    ||| p.config == q.config && p.interface == q.interface && p.setting < q.setting
    ||| p.config == q.config && p.interface == q.interface && p.setting == q.setting
        && p.endpoint < q.endpoint
}

/// What a session records of the endpoint at `p`.
pub open spec fn endpoint_at(tree: Seq<Configuration>, p: EndpointPath) -> endpoint {
    endpoint {
        config: tree[p.config].number,
        interface: setting_at(tree, p).interface_number,
        setting: setting_at(tree, p).setting_number,
        address: setting_at(tree, p).endpoints@[p.endpoint].address,
    }
}

/// Whether `p` is the first bulk OUT endpoint of `tree` in descriptor order.
pub open spec fn is_first_bulk_out(tree: Seq<Configuration>, p: EndpointPath) -> bool {
    &&& is_bulk_out_at(tree, p)
    &&& forall|q: EndpointPath| #[trigger] is_bulk_out_at(tree, q) ==> !path_before(q, p)
}

/// What endpoint discovery yields on `tree`: the first bulk OUT endpoint in
/// descriptor order, or nothing where the tree holds no bulk OUT endpoint.
pub open spec fn spec_find_bulk_endpoint(tree: Seq<Configuration>) -> Option<endpoint> {
    if exists|p: EndpointPath| is_first_bulk_out(tree, p) {
        Some(endpoint_at(tree, choose|p: EndpointPath| is_first_bulk_out(tree, p)))
    } else {
        None
    }
}

/// A tree has at most one first bulk OUT endpoint: descriptor order is total.
pub proof fn lemma_first_bulk_out_unique(tree: Seq<Configuration>, p: EndpointPath, q: EndpointPath)
    requires
        is_first_bulk_out(tree, p),
        is_first_bulk_out(tree, q),
    ensures
        p == q,
{
    assert(is_bulk_out_at(tree, p));
    assert(is_bulk_out_at(tree, q));
    assert(!path_before(p, q));
    assert(!path_before(q, p));
}

/// Endpoint discovery: walks the descriptor tree of a device, configuration by
/// configuration, interface by interface, setting by setting, and selects the first
/// endpoint that takes bulk transfers from the host. The result depends on the tree
/// alone; it is `None` exactly when no endpoint of the tree is a bulk OUT endpoint.
pub fn find_bulk_endpoint(tree: &Vec<Configuration>) -> (found: Option<endpoint>)
    ensures
        found == spec_find_bulk_endpoint(tree@),
        match found {
            Some(ep) => exists|p: EndpointPath| #[trigger]
                is_first_bulk_out(tree@, p) && ep == endpoint_at(tree@, p),
            None => forall|p: EndpointPath| !#[trigger] is_bulk_out_at(tree@, p),
        },
{
    let mut c: usize = 0;
    while c < tree.len()
        invariant
            c <= tree.len(),
            forall|q: EndpointPath| #[trigger] is_bulk_out_at(tree@, q) ==> q.config >= c,
        decreases tree.len() - c,
    {
        let config = &tree[c];
        let mut i: usize = 0;
        while i < config.interfaces.len()
            invariant
                c < tree.len(),
                *config == tree@[c as int],
                i <= config.interfaces.len(),
                forall|q: EndpointPath| #[trigger]
                    is_bulk_out_at(tree@, q) ==> q.config > c || (q.config == c && q.interface
                        >= i),
            decreases config.interfaces.len() - i,
        {
            let interface = &config.interfaces[i];
            let mut s: usize = 0;
            while s < interface.settings.len()
                invariant
                    c < tree.len(),
                    *config == tree@[c as int],
                    i < config.interfaces.len(),
                    *interface == config.interfaces@[i as int],
                    s <= interface.settings.len(),
                    forall|q: EndpointPath| #[trigger]
                        is_bulk_out_at(tree@, q) ==> q.config > c || (q.config == c && (
                        q.interface > i || (q.interface == i && q.setting >= s))),
                decreases interface.settings.len() - s,
            {
                let setting = &interface.settings[s];
                let mut e: usize = 0;
                while e < setting.endpoints.len()
                    invariant
                        c < tree.len(),
                        *config == tree@[c as int],
                        i < config.interfaces.len(),
                        *interface == config.interfaces@[i as int],
                        s < interface.settings.len(),
                        *setting == interface.settings@[s as int],
                        e <= setting.endpoints.len(),
                        forall|q: EndpointPath| #[trigger]
                            is_bulk_out_at(tree@, q) ==> q.config > c || (q.config == c && (
                            q.interface > i || (q.interface == i && (q.setting > s || (q.setting
                                == s && q.endpoint >= e))))),
                    decreases setting.endpoints.len() - e,
                {
                    let candidate = &setting.endpoints[e];
                    if candidate.direction == Direction::Out && candidate.transfer_type
                        == TransferType::Bulk {
                        let ghost here = EndpointPath {
                            config: c as int,
                            interface: i as int,
                            setting: s as int,
                            endpoint: e as int,
                        };
                        proof {
                            assert(is_first_bulk_out(tree@, here));
                            lemma_first_bulk_out_unique(
                                tree@,
                                here,
                                choose|p: EndpointPath| is_first_bulk_out(tree@, p),
                            );
                        }
                        return Some(
                            endpoint {
                                config: config.number,
                                interface: setting.interface_number,
                                setting: setting.setting_number,
                                address: candidate.address,
                            },
                        );
                    }
                    e += 1;
                }
                s += 1;
            }
            i += 1;
        }
        c += 1;
    }
    proof {
        assert forall|p: EndpointPath| !is_first_bulk_out(tree@, p) by {
            if is_first_bulk_out(tree@, p) {
                assert(is_bulk_out_at(tree@, p));
            }
        }
    }
    None
}

} // verus!
