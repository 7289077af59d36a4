//! The AOA handshake: the steps that turn a candidate device into an accessory with
//! a claimed interface and a known bulk endpoint.
//!
//! The handshake is a state machine. The program that owns the device asks for the
//! next action, performs it and reports its outcome as an event; the machine
//! answers with the next state. A failed step ends the attempt: nothing is retried
//! but the poll for the re-enumerated device, within its budget.

use vstd::prelude::*;

use crate::error::HandshakeError;
use crate::limits::Limits;
use crate::usb::{
    endpoint, find_bulk_endpoint, get_AOA_version, spec_find_bulk_endpoint, spec_get_AOA_version,
    spec_protocol_version, spec_version_supported, Configuration, UsbDeviceRef,
    ACCESSORY_ADB_PRODUCT_ID, ACCESSORY_INTERFACE, ACCESSORY_PRODUCT_ID, GET_PROTOCOL_REQUEST,
    START_ACCESSORY_REQUEST, VENDOR_REQUEST_IN, VENDOR_REQUEST_OUT,
};

verus! {

/// Where one handshake attempt stands.
#[derive(Clone, Copy, Debug, PartialEq, Eq, Structural)]
pub enum HandshakeState {
    /// Nothing has been asked of the device yet.
    Discovered,
    /// The device reported this supported protocol version.
    VersionQueried(u16),
    /// The device accepted `StartAccessory` and is about to re-enumerate.
    ProtocolStarted,
    /// This many polls for the re-enumerated device found nothing.
    AwaitingReenumeration { polls: u32 },
    /// The device was found in accessory mode and reopened.
    Reopened,
    /// The accessory interface is claimed.
    Claimed,
    /// The handshake succeeded: frames go to this endpoint.
    Connected(endpoint),
    /// The handshake failed for this reason.
    Failed(HandshakeError),
}

/// A control transfer on the default endpoint of a device.
#[derive(Clone, Copy, Debug, PartialEq, Eq, Structural)]
pub struct ControlTransfer {
    /// Direction, type and recipient of the request.
    pub request_type: u8,
    /// Code of the request.
    pub request: u8,
    pub value: u16,
    pub index: u16,
    /// Number of bytes to read or to write.
    pub length: u16,
    pub timeout_ms: u64,
}

/// What the owner of the device has to do next.
#[derive(Clone, Copy, Debug, PartialEq, Eq, Structural)]
pub enum HandshakeAction {
    /// Make this transfer, `GetProtocolVersion`, and report the two bytes read.
    QueryVersion(ControlTransfer),
    /// Make this transfer, `StartAccessory`.
    StartAccessory(ControlTransfer),
    /// Wait `delay_ms` milliseconds, then look for a device in accessory mode and
    /// open it.
    Rediscover { delay_ms: u64 },
    /// Claim this interface on the reopened device.
    ClaimInterface(u8),
    /// Read the descriptors of the reopened device.
    ReadDescriptors,
    /// The attempt is over: the state is `Connected` or `Failed`.
    Finish,
}

/// Outcome of an action.
#[derive(Clone, Debug)]
pub enum HandshakeEvent {
    /// The bytes that `GetProtocolVersion` read, or `None` where the transfer failed.
    VersionReply(Option<[u8; 2]>),
    /// Whether the `StartAccessory` transfer succeeded.
    StartAccessoryDone(bool),
    /// The product id of the accessory that a poll opened, or `None` where it found
    /// none.
    Rediscovered(Option<u16>),
    /// Whether the interface was claimed.
    ClaimDone(bool),
    /// The descriptor tree of the reopened device.
    Descriptors(Vec<Configuration>),
}

/// The `GetProtocolVersion` transfer: a vendor request that reads two bytes from the
/// device.
pub open spec fn spec_version_query(limits: Limits) -> ControlTransfer {
    ControlTransfer {
        request_type: VENDOR_REQUEST_IN,
        request: GET_PROTOCOL_REQUEST,
        value: 0,
        index: 0,
        length: 2,
        timeout_ms: limits.version_timeout_ms,
    }
}

/// The `StartAccessory` transfer: a vendor request to the device without payload.
pub open spec fn spec_start_accessory(limits: Limits) -> ControlTransfer {
    ControlTransfer {
        request_type: VENDOR_REQUEST_OUT,
        request: START_ACCESSORY_REQUEST,
        value: 0,
        index: 0,
        length: 0,
        timeout_ms: limits.start_timeout_ms,
    }
}

/// The `GetProtocolVersion` transfer under the given limits.
pub fn version_query(limits: &Limits) -> (transfer: ControlTransfer)
    ensures
        transfer == spec_version_query(*limits),
{
    ControlTransfer {
        request_type: VENDOR_REQUEST_IN,
        request: GET_PROTOCOL_REQUEST,
        value: 0,
        index: 0,
        length: 2,
        timeout_ms: limits.version_timeout_ms,
    }
}

/// The `StartAccessory` transfer under the given limits.
pub fn start_accessory(limits: &Limits) -> (transfer: ControlTransfer)
    ensures
        transfer == spec_start_accessory(*limits),
{
    ControlTransfer {
        request_type: VENDOR_REQUEST_OUT,
        request: START_ACCESSORY_REQUEST,
        value: 0,
        index: 0,
        length: 0,
        timeout_ms: limits.start_timeout_ms,
    }
}

/// Whether a poll found a device in accessory mode.
pub open spec fn spec_poll_found(found: Option<u16>) -> bool {
    found == Some(ACCESSORY_PRODUCT_ID) || found == Some(ACCESSORY_ADB_PRODUCT_ID)
}

/// The state after a poll, `polls` polls having found nothing before it.
pub open spec fn spec_after_poll(polls: u32, found: Option<u16>, limits: Limits) -> HandshakeState {
    if spec_poll_found(found) {
        HandshakeState::Reopened
    } else if polls + 1 >= limits.spec_poll_budget() {
        HandshakeState::Failed(HandshakeError::ReenumerationTimeout)
    } else {
        HandshakeState::AwaitingReenumeration { polls: (polls + 1) as u32 }
    }
}

impl HandshakeState {
    /// Whether the attempt is over.
    pub open spec fn spec_is_terminal(self) -> bool {
        self is Connected || self is Failed
    }

    /// The action that the state calls for. `StartAccessory` is called for only
    /// once the version is known, and only on a device whose product id is not an
    /// accessory's already: such a device goes from the version query to the poll.
    pub open spec fn spec_next_action(self, device: UsbDeviceRef, limits: Limits) -> HandshakeAction {
        match self {
            HandshakeState::Discovered => HandshakeAction::QueryVersion(
                spec_version_query(limits),
            ),
            HandshakeState::VersionQueried(_) => if device.spec_has_accessory_product() {
                HandshakeAction::Rediscover { delay_ms: 0 }
            } else {
                HandshakeAction::StartAccessory(spec_start_accessory(limits))
            },
            HandshakeState::ProtocolStarted => HandshakeAction::Rediscover { delay_ms: 0 },
            HandshakeState::AwaitingReenumeration { .. } => HandshakeAction::Rediscover {
                delay_ms: limits.reenumeration_spacing_ms,
            },
            HandshakeState::Reopened => HandshakeAction::ClaimInterface(ACCESSORY_INTERFACE),
            HandshakeState::Claimed => HandshakeAction::ReadDescriptors,
            HandshakeState::Connected(_) => HandshakeAction::Finish,
            HandshakeState::Failed(_) => HandshakeAction::Finish,
        }
    }

    /// The state that follows on an event. An event that does not report the action
    /// that the state called for leaves the state as it is.
    pub open spec fn spec_on_event(
        self,
        device: UsbDeviceRef,
        event: HandshakeEvent,
        limits: Limits,
    ) -> HandshakeState {
        match (self, event) {
            (HandshakeState::Discovered, HandshakeEvent::VersionReply(reply)) => {
                match spec_get_AOA_version(reply) {
                    Ok(version) => HandshakeState::VersionQueried(version),
                    Err(reason) => HandshakeState::Failed(reason),
                }
            },
            (HandshakeState::VersionQueried(_), HandshakeEvent::StartAccessoryDone(done)) => {
                if device.spec_has_accessory_product() {
                    self
                } else if done {
                    HandshakeState::ProtocolStarted
                } else {
                    HandshakeState::Failed(HandshakeError::ProtocolStartFailed)
                }
            },
            (HandshakeState::VersionQueried(_), HandshakeEvent::Rediscovered(found)) => {
                if device.spec_has_accessory_product() {
                    spec_after_poll(0, found, limits)
                } else {
                    self
                }
            },
            (HandshakeState::ProtocolStarted, HandshakeEvent::Rediscovered(found)) => {
                spec_after_poll(0, found, limits)
            },
            (
                HandshakeState::AwaitingReenumeration { polls },
                HandshakeEvent::Rediscovered(found),
            ) => spec_after_poll(polls, found, limits),
            (HandshakeState::Reopened, HandshakeEvent::ClaimDone(done)) => {
                if done {
                    HandshakeState::Claimed
                } else {
                    HandshakeState::Failed(HandshakeError::ClaimFailed)
                }
            },
            (HandshakeState::Claimed, HandshakeEvent::Descriptors(tree)) => {
                match spec_find_bulk_endpoint(tree@) {
                    Some(ep) => HandshakeState::Connected(ep),
                    None => HandshakeState::Failed(HandshakeError::NoBulkEndpoint),
                }
            },
            _ => self,
        }
    }

    /// Whether the attempt is over.
    pub fn is_terminal(&self) -> (over: bool)
        ensures
            over == self.spec_is_terminal(),
    {
        match self {
            HandshakeState::Connected(_) => true,
            HandshakeState::Failed(_) => true,
            _ => false,
        }
    }

    /// The action that the owner of the device has to perform in this state.
    pub fn next_action(&self, device: &UsbDeviceRef, limits: &Limits) -> (action: HandshakeAction)
        ensures
            action == self.spec_next_action(*device, *limits),
    {
        match self {
            HandshakeState::Discovered => HandshakeAction::QueryVersion(version_query(limits)),
            HandshakeState::VersionQueried(_) => if device.has_accessory_product() {
                HandshakeAction::Rediscover { delay_ms: 0 }
            } else {
                HandshakeAction::StartAccessory(start_accessory(limits))
            },
            HandshakeState::ProtocolStarted => HandshakeAction::Rediscover { delay_ms: 0 },
            HandshakeState::AwaitingReenumeration { .. } => HandshakeAction::Rediscover {
                delay_ms: limits.reenumeration_spacing_ms,
            },
            HandshakeState::Reopened => HandshakeAction::ClaimInterface(ACCESSORY_INTERFACE),
            HandshakeState::Claimed => HandshakeAction::ReadDescriptors,
            HandshakeState::Connected(_) => HandshakeAction::Finish,
            HandshakeState::Failed(_) => HandshakeAction::Finish,
        }
    }

    /// Takes the outcome of an action and moves to the state that follows.
    pub fn on_event(self, device: &UsbDeviceRef, event: &HandshakeEvent, limits: &Limits) -> (next:
        HandshakeState)
        ensures
            next == self.spec_on_event(*device, *event, *limits),
    {
        match self {
            HandshakeState::Discovered => match event {
                HandshakeEvent::VersionReply(reply) => match get_AOA_version(*reply) {
                    Ok(version) => HandshakeState::VersionQueried(version),
                    Err(reason) => HandshakeState::Failed(reason),
                },
                _ => self,
            },
            HandshakeState::VersionQueried(_) => match event {
                HandshakeEvent::StartAccessoryDone(done) => {
                    if device.has_accessory_product() {
                        self
                    } else if *done {
                        HandshakeState::ProtocolStarted
                    } else {
                        HandshakeState::Failed(HandshakeError::ProtocolStartFailed)
                    }
                },
                HandshakeEvent::Rediscovered(found) => {
                    if device.has_accessory_product() {
                        after_poll(0, *found, limits)
                    } else {
                        self
                    }
                },
                _ => self,
            },
            HandshakeState::ProtocolStarted => match event {
                HandshakeEvent::Rediscovered(found) => after_poll(0, *found, limits),
                _ => self,
            },
            HandshakeState::AwaitingReenumeration { polls } => match event {
                HandshakeEvent::Rediscovered(found) => after_poll(polls, *found, limits),
                _ => self,
            },
            HandshakeState::Reopened => match event {
                HandshakeEvent::ClaimDone(done) => {
                    if *done {
                        HandshakeState::Claimed
                    } else {
                        HandshakeState::Failed(HandshakeError::ClaimFailed)
                    }
                },
                _ => self,
            },
            HandshakeState::Claimed => match event {
                HandshakeEvent::Descriptors(tree) => match find_bulk_endpoint(tree) {
                    Some(ep) => HandshakeState::Connected(ep),
                    None => HandshakeState::Failed(HandshakeError::NoBulkEndpoint),
                },
                _ => self,
            },
            HandshakeState::Connected(_) => self,
            HandshakeState::Failed(_) => self,
        }
    }
}

/// The state after a poll, `polls` polls having found nothing before it.
pub fn after_poll(polls: u32, found: Option<u16>, limits: &Limits) -> (next: HandshakeState)
    ensures
        next == spec_after_poll(polls, found, *limits),
{
    let reopened = match found {
        Some(product_id) => product_id == ACCESSORY_PRODUCT_ID || product_id
            == ACCESSORY_ADB_PRODUCT_ID,
        None => false,
    };
    if reopened {
        HandshakeState::Reopened
    } else if polls >= limits.poll_budget() - 1 {
        HandshakeState::Failed(HandshakeError::ReenumerationTimeout)
    } else {
        HandshakeState::AwaitingReenumeration { polls: polls + 1 }
    }
}

/// The state that a handshake reaches from `state` when `events` arrive in order.
pub open spec fn spec_run(
    state: HandshakeState,
    device: UsbDeviceRef,
    events: Seq<HandshakeEvent>,
    limits: Limits,
) -> HandshakeState
    decreases events.len(),
{
    if events.len() == 0 {
        state
    } else {
        spec_run(state, device, events.drop_last(), limits).spec_on_event(
            device,
            events.last(),
            limits,
        )
    }
}

/// Whether `event` reports the outcome of `action`.
pub open spec fn spec_answers(action: HandshakeAction, event: HandshakeEvent) -> bool {
    match action {
        HandshakeAction::QueryVersion(_) => event is VersionReply,
        HandshakeAction::StartAccessory(_) => event is StartAccessoryDone,
        HandshakeAction::Rediscover { .. } => event is Rediscovered,
        HandshakeAction::ClaimInterface(_) => event is ClaimDone,
        HandshakeAction::ReadDescriptors => event is Descriptors,
        HandshakeAction::Finish => false,
    }
}

/// A bound on the number of actions that an attempt in `state` still calls for:
/// the version query, the mode switch, the polls of the budget, the claim and the
/// reading of the descriptors, as far as they are ahead.
pub open spec fn spec_actions_left(state: HandshakeState, limits: Limits) -> nat {
    let budget = limits.spec_poll_budget();
    match state {
        HandshakeState::Discovered => budget + 4,
        HandshakeState::VersionQueried(_) => budget + 3,
        HandshakeState::ProtocolStarted => budget + 2,
        HandshakeState::AwaitingReenumeration { polls } => if polls < budget {
            (budget - polls + 2) as nat
        } else {
            3
        },
        HandshakeState::Reopened => 2,
        HandshakeState::Claimed => 1,
        HandshakeState::Connected(_) => 0,
        HandshakeState::Failed(_) => 0,
    }
}

/// Every action that is performed brings the attempt closer to its end: the steps
/// come in a fixed order, none is repeated but the poll, and the poll only within
/// its budget. So an attempt is over after the poll budget and four more actions at
/// the latest.
pub proof fn lemma_handshake_makes_progress(
    state: HandshakeState,
    device: UsbDeviceRef,
    event: HandshakeEvent,
    limits: Limits,
)
    requires
        spec_answers(state.spec_next_action(device, limits), event),
    ensures
        spec_actions_left(state.spec_on_event(device, event, limits), limits) < spec_actions_left(
            state,
            limits,
        ),
        spec_actions_left(HandshakeState::Discovered, limits) == limits.spec_poll_budget() + 4,
        forall|any: HandshakeState|
            #[trigger] spec_actions_left(any, limits) == 0 <==> any.spec_is_terminal(),
{
}

/// A state in which the attempt is over never changes again and calls for nothing:
/// an attempt has one terminal state.
pub proof fn lemma_terminal_state_is_final(
    state: HandshakeState,
    device: UsbDeviceRef,
    events: Seq<HandshakeEvent>,
    limits: Limits,
)
    requires
        state.spec_is_terminal(),
    ensures
        spec_run(state, device, events, limits) == state,
        state.spec_next_action(device, limits) == HandshakeAction::Finish,
    decreases events.len(),
{
    if events.len() > 0 {
        lemma_terminal_state_is_final(state, device, events.drop_last(), limits);
    }
}

/// On a device whose product id is an accessory's already, no state that the
/// handshake reaches calls for `StartAccessory`, whatever the events are; once the
/// version is known, the handshake goes on with the poll for the accessory.
pub proof fn lemma_switched_device_skips_start(
    device: UsbDeviceRef,
    events: Seq<HandshakeEvent>,
    limits: Limits,
)
    requires
        device.spec_has_accessory_product(),
    ensures
        !(spec_run(HandshakeState::Discovered, device, events, limits).spec_next_action(
            device,
            limits,
        ) is StartAccessory),
        forall|version: u16|
            #[trigger] HandshakeState::VersionQueried(version).spec_next_action(device, limits)
                == (HandshakeAction::Rediscover { delay_ms: 0 }),
{
}

/// A state that the handshake reaches calls for `StartAccessory` only when the
/// device reported protocol version 1 or 2.
pub proof fn lemma_start_needs_supported_version(
    device: UsbDeviceRef,
    events: Seq<HandshakeEvent>,
    limits: Limits,
)
    ensures
        ({
            let state = spec_run(HandshakeState::Discovered, device, events, limits);
            &&& state matches HandshakeState::VersionQueried(version) ==> spec_version_supported(
                version,
            )
            &&& state.spec_next_action(device, limits) is StartAccessory ==> state
                is VersionQueried
        }),
    decreases events.len(),
{
    if events.len() > 0 {
        lemma_start_needs_supported_version(device, events.drop_last(), limits);
    }
}

/// A version reply that decodes to anything but 1 or 2 ends the attempt with
/// `UnsupportedVersion`; whatever is reported afterwards, the state stays so and
/// `StartAccessory` is never called for.
pub proof fn lemma_unsupported_version_never_starts(
    device: UsbDeviceRef,
    reply: [u8; 2],
    later: Seq<HandshakeEvent>,
    limits: Limits,
)
    requires
        !spec_version_supported(spec_protocol_version(reply)),
    ensures
        ({
            let failed = HandshakeState::Discovered.spec_on_event(
                device,
                HandshakeEvent::VersionReply(Some(reply)),
                limits,
            );
            &&& failed == HandshakeState::Failed(
                HandshakeError::UnsupportedVersion(spec_protocol_version(reply)),
            )
            &&& spec_run(failed, device, later, limits) == failed
            &&& failed.spec_next_action(device, limits) == HandshakeAction::Finish
        }),
{
    let failed = HandshakeState::Discovered.spec_on_event(
        device,
        HandshakeEvent::VersionReply(Some(reply)),
        limits,
    );
    lemma_terminal_state_is_final(failed, device, later, limits);
}

} // verus!
