use usb_weather::descriptor::{
    find_readable_endpoint, ConfigDescriptor, Endpoint, EndpointDescriptor, Interface,
    InterfaceSetting,
};

fn setting(iface: u8, alt: u8, addrs: &[u8]) -> InterfaceSetting {
    InterfaceSetting {
        interface_number: iface,
        setting_number: alt,
        endpoints: addrs.iter().map(|a| EndpointDescriptor { address: *a }).collect(),
    }
}

fn config(number: u8, interfaces: Vec<Vec<InterfaceSetting>>) -> ConfigDescriptor {
    ConfigDescriptor {
        number,
        interfaces: interfaces.into_iter().map(|settings| Interface { settings }).collect(),
    }
}

#[test]
fn empty_device_has_no_endpoint() {
    assert_eq!(find_readable_endpoint(&vec![]), None);
    assert_eq!(find_readable_endpoint(&vec![None, None]), None);
    assert_eq!(find_readable_endpoint(&vec![Some(config(1, vec![]))]), None);
}

#[test]
fn only_outbound_endpoints_give_none() {
    let t = vec![Some(config(1, vec![vec![setting(0, 0, &[0x01, 0x02]), setting(0, 1, &[0x7F])]]))];
    assert_eq!(find_readable_endpoint(&t), None);
}

#[test]
fn first_inbound_in_declaration_order() {
    let t = vec![
        None,
        Some(config(1, vec![vec![setting(0, 0, &[0x02])], vec![setting(3, 0, &[]), setting(3, 2, &[0x01, 0x81, 0x82])]])),
        Some(config(2, vec![vec![setting(0, 0, &[0x83])]])),
    ];
    assert_eq!(
        find_readable_endpoint(&t),
        Some(Endpoint { config: 1, iface: 3, setting: 2, address: 0x81 })
    );
}

#[test]
fn unreadable_configuration_is_skipped() {
    let t = vec![None, Some(config(7, vec![vec![setting(1, 0, &[0x85])]]))];
    assert_eq!(
        find_readable_endpoint(&t),
        Some(Endpoint { config: 7, iface: 1, setting: 0, address: 0x85 })
    );
}

#[test]
fn same_tree_same_endpoint() {
    let t = vec![Some(config(1, vec![vec![setting(0, 0, &[0x81])], vec![setting(1, 0, &[0x82])]]))];
    let a = find_readable_endpoint(&t);
    let b = find_readable_endpoint(&t.clone());
    assert_eq!(a, b);
    assert_eq!(a, Some(Endpoint { config: 1, iface: 0, setting: 0, address: 0x81 }));
}

#[test]
fn endpoint_direction_bit() {
    assert!(EndpointDescriptor { address: 0x80 }.is_in());
    assert!(EndpointDescriptor { address: 0xFF }.is_in());
    assert!(!EndpointDescriptor { address: 0x00 }.is_in());
    assert!(!EndpointDescriptor { address: 0x7F }.is_in());
}
