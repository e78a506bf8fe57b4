//! Fixed numbers of the station's control-transfer protocol.
use vstd::prelude::*;

verus! {

/// Vendor ID of the weather station.
pub const VENDOR_ID: u16 = 9408;

/// Product ID of the weather station.
pub const PRODUCT_ID: u16 = 3;

/// bmRequestType bits for a class request.
pub const REQUEST_TYPE_CLASS: u8 = 0x01 << 5;

/// bmRequestType bits for an interface recipient.
pub const RECIPIENT_INTERFACE: u8 = 0x01;

/// Direction bit of an inbound (device-to-host) endpoint or request.
pub const ENDPOINT_IN: u8 = 0x80;

/// Selector of the fast telemetry report.
pub const REPORT_ONE: u16 = 0x01;

/// Selector of the slow status report.
pub const REPORT_TWO: u16 = 0x02;

/// Request code of a report read.
pub const READ_REQUEST: u8 = 0x01;

/// Base of the wValue field; the report selector is added to it.
pub const READ_VALUE: u16 = 0x0100;

/// wIndex of a report read.
pub const READ_INDEX: u16 = 0x00;

/// Capacity of the shared receive buffer, in bytes.
pub const BUFFER_CAPACITY: usize = 256;

/// Timeout of a report read during polling, in seconds.
pub const POLL_TIMEOUT_SECS: u64 = 30;

/// Timeout of the string-descriptor reads at startup, in seconds.
pub const STRING_TIMEOUT_SECS: u64 = 1;

/// Length of one scheduler tick, in milliseconds.
pub const TICK_MILLIS: u64 = 1000;

/// Which of the two periodic reports a control transfer asks for.
#[derive(Debug, Clone, Copy, PartialEq, Eq, Structural)]
pub enum ReportKind {
    One,
    Two,
}

/// The setup fields of one control transfer.
#[derive(Debug, Clone, Copy, PartialEq, Eq, Structural)]
pub struct ControlRequest {
    pub request_type: u8,
    pub request: u8,
    pub value: u16,
    pub index: u16,
    pub timeout_secs: u64,
}

pub open spec fn selector(kind: ReportKind) -> u16 {
    match kind {
        ReportKind::One => REPORT_ONE,
        ReportKind::Two => REPORT_TWO,
    }
}

impl ControlRequest {
    /// The class, interface-recipient, device-to-host read of one report.
    pub fn for_report(kind: ReportKind) -> (r: ControlRequest)
        ensures
            r.request_type == 0xA1,
            r.request == READ_REQUEST,
            r.value == READ_VALUE + selector(kind),
            r.index == READ_INDEX,
            r.timeout_secs == POLL_TIMEOUT_SECS,
    {
        let sel: u16 = match kind {
            ReportKind::One => REPORT_ONE,
            ReportKind::Two => REPORT_TWO,
        };
        let request_type: u8 = REQUEST_TYPE_CLASS | RECIPIENT_INTERFACE | ENDPOINT_IN;
        assert(request_type == 0xA1) by (bit_vector)
            requires request_type == ((0x01u8 << 5u8) | 0x01u8 | 0x80u8);
        ControlRequest {
            request_type,
            request: READ_REQUEST,
            value: READ_VALUE + sel,
            index: READ_INDEX,
            timeout_secs: POLL_TIMEOUT_SECS,
        }
    }
}

} // verus!
