use usb_weather::descriptor::Endpoint;
use usb_weather::protocol::{ControlRequest, ReportKind};
use usb_weather::session::{configure_endpoint, ConfigStep, Session};

#[test]
fn kernel_driver_flag() {
    assert!(Session::begin(Some(true)).must_reattach());
    assert!(!Session::begin(Some(false)).must_reattach());
    assert!(!Session::begin(None).must_reattach());
}

#[test]
fn configuration_steps_in_order() {
    let e = Endpoint { config: 1, iface: 0, setting: 2, address: 0x81 };
    assert_eq!(
        configure_endpoint(&e),
        vec![
            ConfigStep::SetConfiguration(1),
            ConfigStep::ClaimInterface(0),
            ConfigStep::SetAlternateSetting(0, 2),
        ]
    );
}

#[test]
fn report_requests() {
    let one = ControlRequest::for_report(ReportKind::One);
    assert_eq!(
        one,
        ControlRequest { request_type: 0xA1, request: 0x01, value: 0x0101, index: 0, timeout_secs: 30 }
    );
    let two = ControlRequest::for_report(ReportKind::Two);
    assert_eq!(
        two,
        ControlRequest { request_type: 0xA1, request: 0x01, value: 0x0102, index: 0, timeout_secs: 30 }
    );
}
