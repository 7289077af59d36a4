use gabinator::error::{DiscoveryError, GabinatorError, HandshakeError};
use gabinator::usb::{
    accessory_product_ids, classify, find_compatible_usb, is_in_AOA, needs_version_query, Candidate, CandidateKind,
    DeviceProbe, UsbDeviceRef,
};

fn device(vendor_id: u16, product_id: u16) -> UsbDeviceRef {
    UsbDeviceRef { bus: 2, address: 7, vendor_id, product_id }
}

fn probe(vendor_id: u16, product_id: u16, opened: bool, version_reply: Option<[u8; 2]>) -> DeviceProbe {
    DeviceProbe { device: device(vendor_id, product_id), opened, version_reply }
}

#[test]
fn accessory_among_unrelated_devices_is_the_only_candidate() {
    let probes = vec![
        probe(0x18D1, 0x2D00, true, None),
        probe(0x046D, 0xC52B, true, None),
    ];
    assert_eq!(
        find_compatible_usb(&probes, false),
        vec![Candidate { device: device(0x18D1, 0x2D00), kind: CandidateKind::AlreadySwitched }]
    );
}

#[test]
fn candidates_keep_enumeration_order() {
    let probes = vec![
        probe(0x04E8, 0x6860, true, Some([2, 0])),
        probe(0x046D, 0xC52B, true, Some([0, 0])),
        probe(0x18D1, 0x2D01, true, None),
        probe(0x22B8, 0x2E82, false, Some([1, 0])),
        probe(0x18D1, 0x4EE7, true, Some([1, 0])),
    ];
    assert_eq!(
        find_compatible_usb(&probes, false),
        vec![
            Candidate { device: device(0x04E8, 0x6860), kind: CandidateKind::Capable(2) },
            Candidate { device: device(0x18D1, 0x2D01), kind: CandidateKind::AlreadySwitched },
            Candidate { device: device(0x18D1, 0x4EE7), kind: CandidateKind::Capable(1) },
        ]
    );
}

#[test]
fn no_devices_no_candidates() {
    assert_eq!(find_compatible_usb(&Vec::new(), false), Vec::new());
    assert_eq!(find_compatible_usb(&Vec::new(), true), Vec::new());
}

#[test]
fn device_that_cannot_be_opened_is_skipped() {
    assert_eq!(
        classify(&probe(0x18D1, 0x2D00, false, Some([2, 0])), false),
        Err(DiscoveryError::OpenFailed)
    );
    assert_eq!(
        classify(&probe(0x04E8, 0x6860, false, Some([2, 0])), false),
        Err(DiscoveryError::OpenFailed)
    );
    assert_eq!(DiscoveryError::OpenFailed.reason(), "Could not open this device");
}

#[test]
fn ignored_accessory_needs_a_version_reply() {
    let silent = probe(0x18D1, 0x2D00, true, None);
    let talking = probe(0x18D1, 0x2D00, true, Some([2, 0]));
    assert_eq!(
        classify(&silent, true),
        Err(DiscoveryError::NotCapable(HandshakeError::VersionQueryFailed))
    );
    assert_eq!(
        classify(&talking, true),
        Ok(Candidate { device: device(0x18D1, 0x2D00), kind: CandidateKind::Capable(2) })
    );
    assert_eq!(
        classify(&talking, false),
        Ok(Candidate { device: device(0x18D1, 0x2D00), kind: CandidateKind::AlreadySwitched })
    );
}

#[test]
fn version_query_is_needed_unless_in_accessory_mode() {
    assert!(!needs_version_query(&device(0x18D1, 0x2D00), false));
    assert!(!needs_version_query(&device(0x18D1, 0x2D01), false));
    assert!(needs_version_query(&device(0x18D1, 0x2D00), true));
    assert!(needs_version_query(&device(0x18D1, 0x2D02), false));
    assert!(needs_version_query(&device(0x04E8, 0x2D00), false));
    assert!(needs_version_query(&device(0x04E8, 0x6860), false));
}

#[test]
fn accessory_mode_needs_vendor_and_product() {
    assert!(device(0x18D1, 0x2D00).in_accessory_mode());
    assert!(device(0x18D1, 0x2D01).in_accessory_mode());
    assert!(!device(0x18D1, 0x2D02).in_accessory_mode());
    assert!(!device(0x04E8, 0x2D00).in_accessory_mode());
    assert!(device(0x04E8, 0x2D00).has_accessory_product());
    assert!(!device(0x18D1, 0x4EE7).has_accessory_product());
}

#[test]
fn refusal_names_vendor_before_product() {
    assert!(is_in_AOA(&device(0x18D1, 0x2D00), None).is_none());
    assert!(is_in_AOA(&device(0x18D1, 0x2D01), None).is_none());
    let (wrong_vendor, plan) = is_in_AOA(&device(0x04E8, 0x2D00), None).unwrap();
    assert_eq!(wrong_vendor, GabinatorError::UsbError("Device is not in AOA mode".to_string()));
    assert_eq!(plan.appends.len(), 1);
    assert!(plan.appends[0].ends_with("[Warning]Device is not in AOA mode"));
    assert_eq!(plan.panic_message, None);
    let (wrong_product, _) = is_in_AOA(&device(0x18D1, 0x4EE7), None).unwrap();
    assert_eq!(wrong_product, GabinatorError::UsbError("Device is not an AOA device".to_string()));
}

#[test]
fn device_with_unsupported_version_is_passed_over() {
    let old = probe(0x04E8, 0x6860, true, Some([3, 0]));
    assert_eq!(
        classify(&old, false),
        Err(DiscoveryError::NotCapable(HandshakeError::UnsupportedVersion(3)))
    );
    assert_eq!(
        classify(&old, false).unwrap_err().reason(),
        "Device does not support AOA: version 3"
    );
    assert_eq!(find_compatible_usb(&vec![old], false), Vec::new());
}

#[test]
fn poll_tries_the_plain_accessory_first() {
    assert_eq!(accessory_product_ids(), [0x2D00, 0x2D01]);
    for product_id in accessory_product_ids() {
        assert!(device(0x18D1, product_id).in_accessory_mode());
    }
}

#[test]
fn device_that_answers_with_a_high_byte_is_passed_over() {
    let odd = probe(0x04E8, 0x6860, true, Some([1, 2]));
    assert_eq!(
        classify(&odd, false),
        Err(DiscoveryError::NotCapable(HandshakeError::UnsupportedVersion(257)))
    );
    assert_eq!(find_compatible_usb(&vec![odd], false), Vec::new());
}
