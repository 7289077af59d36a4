use gabinator::usb::{
    endpoint, find_bulk_endpoint, Configuration, Direction, EndpointDescriptor, Interface,
    InterfaceSetting, TransferType,
};

fn ep(address: u8, direction: Direction, transfer_type: TransferType) -> EndpointDescriptor {
    EndpointDescriptor { address, direction, transfer_type }
}

fn setting(
    interface_number: u8,
    setting_number: u8,
    endpoints: Vec<EndpointDescriptor>,
) -> InterfaceSetting {
    InterfaceSetting { interface_number, setting_number, endpoints }
}

fn single(number: u8, settings: Vec<InterfaceSetting>) -> Configuration {
    Configuration { number, interfaces: vec![Interface { settings }] }
}

#[test]
fn empty_tree_has_no_bulk_endpoint() {
    assert_eq!(find_bulk_endpoint(&Vec::new()), None);
}

#[test]
fn tree_without_endpoints_has_no_bulk_endpoint() {
    let tree = vec![
        Configuration { number: 1, interfaces: Vec::new() },
        Configuration { number: 2, interfaces: vec![Interface { settings: Vec::new() }] },
        single(3, vec![setting(0, 0, Vec::new())]),
    ];
    assert_eq!(find_bulk_endpoint(&tree), None);
}

#[test]
fn bulk_in_and_other_out_endpoints_do_not_count() {
    let tree = vec![single(
        1,
        vec![setting(
            0,
            0,
            vec![
                ep(0x81, Direction::In, TransferType::Bulk),
                ep(0x02, Direction::Out, TransferType::Interrupt),
                ep(0x03, Direction::Out, TransferType::Isochronous),
                ep(0x00, Direction::Out, TransferType::Control),
            ],
        )],
    )];
    assert_eq!(find_bulk_endpoint(&tree), None);
}

#[test]
fn first_bulk_out_endpoint_is_selected() {
    let tree = vec![single(
        1,
        vec![setting(
            0,
            0,
            vec![
                ep(0x81, Direction::In, TransferType::Bulk),
                ep(0x02, Direction::Out, TransferType::Interrupt),
                ep(0x03, Direction::Out, TransferType::Bulk),
                ep(0x04, Direction::Out, TransferType::Bulk),
            ],
        )],
    )];
    assert_eq!(
        find_bulk_endpoint(&tree),
        Some(endpoint { config: 1, interface: 0, setting: 0, address: 0x03 })
    );
}

#[test]
fn descriptor_order_is_configuration_interface_setting_endpoint() {
    let tree = vec![
        single(1, vec![setting(0, 0, vec![ep(0x81, Direction::In, TransferType::Bulk)])]),
        Configuration {
            number: 2,
            interfaces: vec![
                Interface {
                    settings: vec![
                        setting(0, 0, vec![ep(0x82, Direction::In, TransferType::Interrupt)]),
                        setting(0, 1, vec![ep(0x05, Direction::Out, TransferType::Bulk)]),
                    ],
                },
                Interface {
                    settings: vec![setting(1, 0, vec![ep(0x01, Direction::Out, TransferType::Bulk)])],
                },
            ],
        },
        single(3, vec![setting(0, 0, vec![ep(0x06, Direction::Out, TransferType::Bulk)])]),
    ];
    assert_eq!(
        find_bulk_endpoint(&tree),
        Some(endpoint { config: 2, interface: 0, setting: 1, address: 0x05 })
    );
}

#[test]
fn discovery_gives_the_same_answer_each_time() {
    let tree = vec![single(
        7,
        vec![setting(2, 3, vec![ep(0x0A, Direction::Out, TransferType::Bulk)])],
    )];
    let first = find_bulk_endpoint(&tree);
    let second = find_bulk_endpoint(&tree);
    assert_eq!(first, second);
    assert_eq!(first, Some(endpoint { config: 7, interface: 2, setting: 3, address: 0x0A }));
}

#[test]
fn endpoint_in_words() {
    let found = endpoint { config: 1, interface: 0, setting: 12, address: 255 };
    assert_eq!(found.to_string(), "CONFIG: 1 INTERFACE: 0 SETTING: 12 ADDRESS: 255");
}
