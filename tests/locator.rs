use usb_weather::locator::{next_candidate, DeviceIds};
use usb_weather::protocol::{PRODUCT_ID, VENDOR_ID};

fn ids(v: u16, p: u16) -> Option<DeviceIds> {
    Some(DeviceIds { vendor_id: v, product_id: p })
}

#[test]
fn no_matching_device_is_not_found() {
    let devices = vec![ids(1, 2), None, ids(VENDOR_ID, 4), ids(4, PRODUCT_ID)];
    assert_eq!(next_candidate(&devices, VENDOR_ID, PRODUCT_ID, 0), None);
    assert_eq!(next_candidate(&vec![], VENDOR_ID, PRODUCT_ID, 0), None);
}

#[test]
fn first_match_and_retry_after_failed_open() {
    let devices = vec![None, ids(9408, 3), ids(1, 1), ids(9408, 3)];
    assert_eq!(next_candidate(&devices, 9408, 3, 0), Some(1));
    assert_eq!(next_candidate(&devices, 9408, 3, 2), Some(3));
    assert_eq!(next_candidate(&devices, 9408, 3, 4), None);
    assert_eq!(next_candidate(&devices, 9408, 3, 10), None);
}
