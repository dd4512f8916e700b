use samba_printer_finder::cups::enums::http_encryption::HttpEncryption;
use samba_printer_finder::cups::enums::ipp_operations::IppOp;
use samba_printer_finder::cups::enums::ipp_status::IppStatus;
use samba_printer_finder::cups::enums::ipp_tag::IPPTag;
use samba_printer_finder::cups::enums::protocol_families::PF;
use samba_printer_finder::cups::CupsManager;

#[test]
fn operation_codes() {
    assert_eq!(IppOp::CupsInvalid.code(), -1);
    assert_eq!(IppOp::CupsNone.code(), 0);
    assert_eq!(IppOp::PrintJob.code(), 0x0002);
    assert_eq!(IppOp::RestartJob.code(), 0x000e);
    assert_eq!(IppOp::PausePrinter.code(), 0x0010);
    assert_eq!(IppOp::ScheduleJobAfter.code(), 0x0031);
    assert_eq!(IppOp::CancelDocument.code(), 0x0033);
    assert_eq!(IppOp::StartupAllPrinters.code(), 0x0064);
    assert_eq!(IppOp::Private.code(), 0x4000);
    assert_eq!(IppOp::CupsAddModifyPrinter.code(), 0x4003);
    assert_eq!(IppOp::CupsGetPpds.code(), 0x400c);
    assert_eq!(IppOp::CupsGetPpd.code(), 0x400f);
    assert_eq!(IppOp::CupsGetDocument.code(), 0x4027);
    assert_eq!(IppOp::CupsCreateLocalPrinter.code(), 0x4028);
}

#[test]
fn operation_codes_read_back() {
    assert_eq!(IppOp::from_code(0x400c), Some(IppOp::CupsGetPpds));
    assert_eq!(IppOp::from_code(0x4003), Some(IppOp::CupsAddModifyPrinter));
    assert_eq!(IppOp::from_code(1), None);
    assert_eq!(IppOp::from_code(0x000f), None);
    assert_eq!(IppOp::from_code(0x4010), None);
    assert_eq!(IppOp::from_code(-2), None);
    let mut named = 0;
    for code in -2..0x5000 {
        if let Some(op) = IppOp::from_code(code) {
            assert_eq!(op.code(), code);
            named += 1;
        }
    }
    assert_eq!(named, 117);
}

#[test]
fn status_codes() {
    assert_eq!(IppStatus::CupsInvalid.code(), -1);
    assert_eq!(IppStatus::SuccessfulOk.code(), 0);
    assert_eq!(IppStatus::OkEventsComplete.code(), 7);
    assert_eq!(IppStatus::RedirectionOtherSite.code(), 0x0200);
    assert_eq!(IppStatus::CupsSeeOther.code(), 0x0280);
    assert_eq!(IppStatus::ErrorBadRequest.code(), 0x0400);
    assert_eq!(IppStatus::ErrorDocumentUnprintable.code(), 0x041b);
    assert_eq!(IppStatus::ErrorAccountInfoNeeded.code(), 0x049c);
    assert_eq!(IppStatus::ErrorNotFetchable.code(), 0x04a0);
    assert_eq!(IppStatus::ErrorInternal.code(), 0x0500);
    assert_eq!(IppStatus::ErrorTooManyDocuments.code(), 0x050c);
    assert_eq!(IppStatus::ErrorCupsAuthenticationCanceled.code(), 0x1000);
    assert_eq!(IppStatus::ErrorCupsUpgradeRequired.code(), 0x1002);
}

#[test]
fn status_codes_read_back() {
    assert_eq!(IppStatus::from_code(7), Some(IppStatus::OkEventsComplete));
    assert_eq!(IppStatus::from_code(8), None);
    assert_eq!(IppStatus::from_code(0x0401), Some(IppStatus::ErrorForbidden));
    let mut named = 0;
    for code in -2..0x1100 {
        if let Some(status) = IppStatus::from_code(code) {
            assert_eq!(status.code(), code);
            named += 1;
        }
    }
    assert_eq!(named, 60);
}

#[test]
fn tag_codes() {
    assert_eq!(IPPTag::CupsInvalid.code(), -1);
    assert_eq!(IPPTag::Zero.code(), 0);
    assert_eq!(IPPTag::Operation.code(), 1);
    assert_eq!(IPPTag::Job.code(), 2);
    assert_eq!(IPPTag::End.code(), 3);
    assert_eq!(IPPTag::Printer.code(), 4);
    assert_eq!(IPPTag::System.code(), 0x0a);
    assert_eq!(IPPTag::UnsupportedValue.code(), 0x10);
    assert_eq!(IPPTag::NotSettable.code(), 0x15);
    assert_eq!(IPPTag::Integer.code(), 0x21);
    assert_eq!(IPPTag::String.code(), 0x30);
    assert_eq!(IPPTag::EndCollection.code(), 0x37);
    assert_eq!(IPPTag::Text.code(), 0x41);
    assert_eq!(IPPTag::Name.code(), 0x42);
    assert_eq!(IPPTag::Keyword.code(), 0x44);
    assert_eq!(IPPTag::Uri.code(), 0x45);
    assert_eq!(IPPTag::MemberName.code(), 0x4a);
    assert_eq!(IPPTag::Extension.code(), 0x7f);
    assert_eq!(IPPTag::CupsMask.code(), i32::MAX);
    assert_eq!(IPPTag::CupsConst.code(), i32::MIN);
}

#[test]
fn tag_codes_read_back() {
    assert_eq!(IPPTag::from_code(4), Some(IPPTag::Printer));
    assert_eq!(IPPTag::from_code(0x14), None);
    assert_eq!(IPPTag::from_code(0x40), None);
    assert_eq!(IPPTag::from_code(i32::MIN), Some(IPPTag::CupsConst));
    assert_eq!(IPPTag::from_code(i32::MAX), Some(IPPTag::CupsMask));
    let mut named = 0;
    for code in -1..0x80 {
        if let Some(tag) = IPPTag::from_code(code) {
            assert_eq!(tag.code(), code);
            named += 1;
        }
    }
    assert_eq!(named, 41);
}

#[test]
fn family_codes() {
    assert_eq!(PF::Unspec.code(), 0);
    assert_eq!(PF::Inet.code(), 2);
    assert_eq!(PF::Inet6.code(), 10);
    assert_eq!(PF::Max.code(), 46);
    for code in 0..=46 {
        assert_eq!(PF::from_code(code).unwrap().code(), code);
    }
    assert_eq!(PF::from_code(47), None);
    assert_eq!(PF::from_code(-1), None);
}

#[test]
fn encryption_codes() {
    assert_eq!(HttpEncryption::IfRequested.code(), 0);
    assert_eq!(HttpEncryption::Never.code(), 1);
    assert_eq!(HttpEncryption::Required.code(), 2);
    assert_eq!(HttpEncryption::Always.code(), 3);
    assert_eq!(HttpEncryption::from_code(3), Some(HttpEncryption::Always));
    assert_eq!(HttpEncryption::from_code(4), None);
}

#[test]
fn connection_settings_of_the_manager() {
    let settings = CupsManager::connection_settings(Some("print.example".to_string()), 631);
    assert_eq!(settings.host, "print.example");
    assert_eq!(settings.port, 631);
    assert_eq!(settings.family, PF::Unspec);
    assert_eq!(settings.encryption, HttpEncryption::IfRequested);
    assert!(settings.blocking);
    assert_eq!(settings.timeout_ms, 30000);
    assert_eq!(CupsManager::connection_settings(None, 8631).host, "");
}
