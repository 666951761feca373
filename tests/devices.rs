use chatmix::backoff::{claim_backoff, relink_backoff, Retry, RetryDecision};
use chatmix::locator::{
    find_supported_device, select_report_channel, supported, DeviceId, EndpointInfo,
    InterfaceInfo, ReportChannel, TransferKind, PRODUCT_ID, VENDOR_ID,
};
use chatmix::sidetone::{percent_setting, sidetone_bucket, sidetone_report, sidetone_setting};

fn ep(address: u8, transfer: TransferKind, inbound: bool) -> EndpointInfo {
    EndpointInfo { address, transfer, inbound }
}

#[test]
fn bucket_thresholds() {
    let cases = [(0u8, 0u8), (29, 0), (30, 1), (59, 1), (60, 2), (79, 2), (80, 3), (100, 3), (255, 3)];
    for (p, b) in cases {
        assert_eq!(sidetone_bucket(p), b, "percent {}", p);
    }
    let mut last = 0;
    for p in 0..=255u8 {
        let b = sidetone_bucket(p);
        assert!(b >= last && b <= 3);
        last = b;
    }
}

#[test]
fn sidetone_report_layout() {
    let r = sidetone_report(65);
    assert_eq!(r.len(), 64);
    assert_eq!(&r[..3], &[0x00, 0x39, 0x02]);
    assert!(r[3..].iter().all(|&b| b == 0));
    assert_eq!(sidetone_report(10)[2], 0);
    assert_eq!(sidetone_report(90)[2], 3);
}

#[test]
fn sidetone_settings() {
    for yes in ["1", "yes", "true", "on"] {
        assert_eq!(sidetone_setting(Some(yes), Some("50")), Some(0));
    }
    assert_eq!(sidetone_setting(Some("no"), None), Some(100));
    assert_eq!(sidetone_setting(Some(""), Some("10")), Some(100));
    assert_eq!(sidetone_setting(None, Some(" 45 \n")), Some(45));
    assert_eq!(sidetone_setting(None, Some("150")), Some(100));
    assert_eq!(sidetone_setting(None, Some("300")), None);
    assert_eq!(sidetone_setting(None, Some("abc")), None);
    assert_eq!(sidetone_setting(None, None), None);
}

#[test]
fn percent_setting_parses_like_u8() {
    assert_eq!(percent_setting("+7"), Some(7));
    assert_eq!(percent_setting("007"), Some(7));
    assert_eq!(percent_setting("255"), Some(100));
    assert_eq!(percent_setting("256"), None);
    assert_eq!(percent_setting(""), None);
    assert_eq!(percent_setting("+"), None);
    assert_eq!(percent_setting("-1"), None);
    assert_eq!(percent_setting("4 2"), None);
}

#[test]
fn claim_retry_waits_longer_each_time() {
    let mut r = Retry::new(claim_backoff());
    for k in 1..6u64 {
        assert_eq!(r.after_failure(false), RetryDecision::Wait(200 * k));
    }
    assert_eq!(r.after_failure(false), RetryDecision::GiveUp);
    assert_eq!(r.after_failure(false), RetryDecision::GiveUp);
}

#[test]
fn relink_retry_waits_a_fixed_time() {
    let mut r = Retry::new(relink_backoff());
    for _ in 1..10 {
        assert_eq!(r.after_failure(false), RetryDecision::Wait(300));
    }
    assert_eq!(r.after_failure(false), RetryDecision::GiveUp);
    let mut c = Retry::new(relink_backoff());
    assert_eq!(c.after_failure(true), RetryDecision::Cancelled);
}

#[test]
fn finds_the_supported_device() {
    let other = DeviceId { vendor_id: 0x046d, product_id: 0xc52b };
    let ours = DeviceId { vendor_id: VENDOR_ID, product_id: PRODUCT_ID };
    assert!(supported(ours));
    assert!(!supported(DeviceId { vendor_id: VENDOR_ID, product_id: 0x1234 }));
    assert_eq!(find_supported_device(&vec![Some(other), None, Some(ours), Some(ours)]), Some(2));
    assert_eq!(find_supported_device(&vec![Some(other), None]), None);
    assert_eq!(find_supported_device(&Vec::new()), None);
}

#[test]
fn selects_first_inbound_interrupt_endpoint_of_first_hid_interface() {
    let ifaces = vec![
        InterfaceInfo { number: 0, class_code: 1, endpoints: vec![ep(0x81, TransferKind::Interrupt, true)] },
        InterfaceInfo {
            number: 3,
            class_code: 3,
            endpoints: vec![
                ep(0x02, TransferKind::Interrupt, false),
                ep(0x83, TransferKind::Bulk, true),
                ep(0x84, TransferKind::Interrupt, true),
                ep(0x85, TransferKind::Interrupt, true),
            ],
        },
        InterfaceInfo { number: 4, class_code: 3, endpoints: vec![ep(0x86, TransferKind::Interrupt, true)] },
    ];
    assert_eq!(select_report_channel(&ifaces), Some(ReportChannel { interface: 3, endpoint: 0x84 }));
}

#[test]
fn no_hid_interface_means_no_channel() {
    let none = vec![InterfaceInfo { number: 0, class_code: 1, endpoints: vec![ep(0x81, TransferKind::Interrupt, true)] }];
    assert_eq!(select_report_channel(&none), None);
    let no_ep = vec![InterfaceInfo { number: 2, class_code: 3, endpoints: vec![ep(0x01, TransferKind::Interrupt, false)] }];
    assert_eq!(select_report_channel(&no_ep), None);
    assert_eq!(select_report_channel(&Vec::new()), None);
}
