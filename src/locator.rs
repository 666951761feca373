//! Picking the headset among attached devices, and its report channel
//! among the device's interfaces.

use vstd::prelude::*;

verus! {

/// Vendor identity of the headset maker.
pub const VENDOR_ID: u16 = 0x1038;

/// Product identity of the supported headset.
pub const PRODUCT_ID: u16 = 0x2202;

/// Interface class of human-interface devices.
pub const HID_CLASS: u8 = 3;

/// The identity a device descriptor gives.
#[derive(Clone, Copy, Debug, PartialEq, Eq, Structural)]
pub struct DeviceId {
    pub vendor_id: u16,
    pub product_id: u16,
}

/// The device is one this agent drives.
pub open spec fn is_supported(id: DeviceId) -> bool {
    id.vendor_id == VENDOR_ID && id.product_id == PRODUCT_ID
}

/// Whether the device is one this agent drives.
pub fn supported(id: DeviceId) -> (r: bool)
    ensures
        r == is_supported(id),
{
    id.vendor_id == VENDOR_ID && id.product_id == PRODUCT_ID
}

/// A device whose descriptor was read and is supported.
pub open spec fn supported_entry(e: Option<DeviceId>) -> bool {
    match e {
        Some(id) => is_supported(id),
        None => false,
    }
}

/// The position of the first supported device among attached devices,
/// each given by its identity or by `None` where its descriptor could not
/// be read.
pub fn find_supported_device(devices: &Vec<Option<DeviceId>>) -> (r: Option<usize>)
    ensures
        match r {
            Some(i) => i < devices@.len() && supported_entry(devices@[i as int])
                && forall|j: int| 0 <= j < i ==> !supported_entry(devices@[j]),
            None => forall|j: int| 0 <= j < devices@.len() ==> !supported_entry(devices@[j]),
        },
{
    let mut i: usize = 0;
    while i < devices.len()
        invariant
            i <= devices@.len(),
            forall|j: int| 0 <= j < i ==> !supported_entry(devices@[j]),
        decreases devices.len() - i,
    {
        match devices[i] {
            Some(id) => {
                if supported(id) {
                    return Some(i);
                }
            },
            None => {},
        }
        i = i + 1;
    }
    None
}

/// Transfer type of an endpoint.
#[derive(Clone, Copy, Debug, PartialEq, Eq, Structural)]
pub enum TransferKind {
    Control,
    Isochronous,
    Bulk,
    Interrupt,
}

/// What an endpoint descriptor gives.
#[derive(Clone, Copy, Debug, PartialEq, Eq, Structural)]
pub struct EndpointInfo {
    pub address: u8,
    pub transfer: TransferKind,
    /// Device to host.
    pub inbound: bool,
}

/// What the first alternate setting of an interface gives.
#[derive(Debug)]
pub struct InterfaceInfo {
    pub number: u8,
    pub class_code: u8,
    pub endpoints: Vec<EndpointInfo>,
}

/// The interface and endpoint that carry the volume reports.
#[derive(Clone, Copy, Debug, PartialEq, Eq, Structural)]
pub struct ReportChannel {
    pub interface: u8,
    pub endpoint: u8,
}

/// An inbound interrupt endpoint.
pub open spec fn is_report_endpoint(e: EndpointInfo) -> bool {
    e.transfer == TransferKind::Interrupt && e.inbound
}

/// `i` is the first human-interface interface.
pub open spec fn is_first_hid(ifaces: Seq<InterfaceInfo>, i: int) -> bool {
    0 <= i < ifaces.len() && ifaces[i].class_code == HID_CLASS
        && forall|j: int| 0 <= j < i ==> ifaces[j].class_code != HID_CLASS
}

/// `k` is the first inbound interrupt endpoint of `eps`.
pub open spec fn is_first_report_endpoint(eps: Seq<EndpointInfo>, k: int) -> bool {
    0 <= k < eps.len() && is_report_endpoint(eps[k])
        && forall|j: int| 0 <= j < k ==> !is_report_endpoint(eps[j])
}

/// The first inbound interrupt endpoint of `eps`, if any.
fn first_report_endpoint(eps: &Vec<EndpointInfo>) -> (r: Option<usize>)
    ensures
        match r {
            Some(k) => is_first_report_endpoint(eps@, k as int),
            None => forall|j: int| 0 <= j < eps@.len() ==> !is_report_endpoint(eps@[j]),
        },
{
    let mut k: usize = 0;
    while k < eps.len()
        invariant
            k <= eps@.len(),
            forall|j: int| 0 <= j < k ==> !is_report_endpoint(eps@[j]),
        decreases eps.len() - k,
    {
        let e = eps[k];
        if e.inbound && e.transfer == TransferKind::Interrupt {
            return Some(k);
        }
        k = k + 1;
    }
    None
}

/// Chooses the report channel: within the first human-interface
/// interface, its first inbound interrupt endpoint. `None` when there is no
/// such interface or it has no such endpoint.
pub fn select_report_channel(ifaces: &Vec<InterfaceInfo>) -> (r: Option<ReportChannel>)
    ensures
        match r {
            Some(ch) => exists|i: int, k: int|
                is_first_hid(ifaces@, i) && is_first_report_endpoint(ifaces@[i].endpoints@, k)
                    && ch == (ReportChannel {
                    interface: ifaces@[i].number,
                    endpoint: ifaces@[i].endpoints@[k].address,
                }),
            None => forall|i: int|
                is_first_hid(ifaces@, i) ==> forall|k: int|
                    0 <= k < ifaces@[i].endpoints@.len() ==> !is_report_endpoint(
                        #[trigger] ifaces@[i].endpoints@[k],
                    ),
        },
{
    let mut i: usize = 0;
    while i < ifaces.len()
        invariant
            i <= ifaces@.len(),
            forall|j: int| 0 <= j < i ==> ifaces@[j].class_code != HID_CLASS,
        decreases ifaces.len() - i,
    {
        if ifaces[i].class_code == HID_CLASS {
            assert(is_first_hid(ifaces@, i as int));
            return match first_report_endpoint(&ifaces[i].endpoints) {
                Some(k) => {
                    let ch = ReportChannel {
                        interface: ifaces[i].number,
                        endpoint: ifaces[i].endpoints[k].address,
                    };
                    assert(is_first_report_endpoint(ifaces@[i as int].endpoints@, k as int));
                    Some(ch)
                },
                None => {
                    assert forall|h: int| is_first_hid(ifaces@, h) implies h == i by {
                        if h < i {
                        } else if h > i {
                            assert(ifaces@[i as int].class_code == HID_CLASS);
                        }
                    }
                    None
                },
            };
        }
        i = i + 1;
    }
    None
}

} // verus!
