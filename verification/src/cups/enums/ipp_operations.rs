use vstd::prelude::*;

verus! {

/// The operations of the Internet Printing Protocol, with the extensions
/// that a CUPS server adds to them.
#[derive(Debug, Clone, Copy, PartialEq, Eq, Structural)]
pub enum IppOp {
    /// No operation: what a name that stands for none is read as.
    CupsInvalid,
    /// No operation.
    CupsNone,
    /// `Print-Job`
    PrintJob,
    /// `Print-URI`
    PrintUri,
    /// `Validate-Job`
    ValidateJob,
    /// `Create-Job`
    CreateJob,
    /// `Send-Document`
    SendDocument,
    /// `Send-URI`
    SendUri,
    /// `Cancel-Job`
    CancelJob,
    /// `Get-Job-Attribute`
    GetJobAttributes,
    /// `Get-Jobs`
    GetJobs,
    /// `Get-Printer-Attributes`
    GetPrinterAttributes,
    /// `Hold-Job`
    HoldJob,
    /// `Release-Job`
    ReleaseJob,
    /// `Restart-Job`
    RestartJob,
    /// `Pause-Printer`
    PausePrinter,
    /// `Resume-Printer`
    ResumePrinter,
    /// `Purge-Jobs`
    PurgeJobs,
    /// `Set-Printer-Attributes`
    SetPrinterAttributes,
    /// `Set-Job-Attributes`
    SetJobAttributes,
    /// `Get-Printer-Supported-Values`
    GetPrinterSupportedValues,
    /// `Create-Printer-Subscriptions`
    CreatePrinterSubscriptions,
    /// `Create-Job-Subscriptions`
    CreateJobSubscriptions,
    /// `Get-Subscription-Attributes`
    GetSubscriptionAttributes,
    /// `Get-Subscriptions`
    GetSubscriptions,
    /// `Renew-Subscription`
    RenewSubscription,
    /// `Cancel-Subscription`
    CancelSubscription,
    /// `Get-Notifications`
    GetNotifications,
    /// `Send-Notifications`
    SendNotifications,
    /// `Get-Resource-Attributes`
    GetResourceAttributes,
    /// `Get-Resource-Data`
    GetResourceData,
    /// `Get-Resources`
    GetResources,
    /// `Get-Printer-Support-Files`
    GetPrintSupportFiles,
    /// `Enable-Printer`
    EnablePrinter,
    /// `Disable-Printer`
    DisablePrinter,
    /// `Pause-Printer-After-Current-Job`
    PausePrinterAfterCurrentJob,
    /// `Hold-New-Jobs`
    HoldNewJobs,
    /// `Release-Held-New-Jobs`
    ReleaseHeldNewJobs,
    /// `Deactivate-Printer`
    DeactivatePrinter,
    /// `Activate-Printer`
    ActivatePrinter,
    /// `Restart-Printer`
    RestartPrinter,
    /// `Shutdown-Printer`
    ShutdownPrinter,
    /// `Startup-Printer`
    StartupPrinter,
    /// `Reprocess-Job`
    ReprocessJob,
    /// `Cancel-Current-Job`
    CancelCurrentJob,
    /// `Suspend-Current-Job`
    SuspendCurrentJob,
    /// `Resume-Job`
    ResumeJob,
    /// `Promote-Job`
    PromoteJob,
    /// `Schedule-Job-After`
    ScheduleJobAfter,
    /// `Cancel-Document`
    CancelDocument,
    /// `Get-Document-Attributes`
    GetDocumentAttributes,
    /// `Get-Documents`
    GetDocuments,
    /// `Delete-Document`
    DeleteDocument,
    /// `Set-Document-Attributes`
    SetDocumentAttributes,
    /// `Cancel-Jobs`
    CancelJobs,
    /// `Cancel-My-Jobs`
    CancelMyJobs,
    /// `Resubmit-Job`
    ResubmitJob,
    /// `Close-Job`
    CloseJob,
    /// `Identify-Printer`
    IdentifyPrinter,
    /// `Validate-Document`
    ValidateDocument,
    /// `Add-Document-Images`
    AddDocumentImages,
    /// `Acknowledge-Document`
    AcknowledgeDocument,
    /// `Acknowledge-Identify-Printer`
    AcknowledgeIdentifyPrinter,
    /// `Acknowledge-Job`
    AcknowledgeJob,
    /// `Fetch-Document`
    FetchDocument,
    /// `Fetch-Job`
    FetchJob,
    /// `Get-Output-Device-Attributes`
    GetOutputDeviceAttributes,
    /// `Update-Active-Jobs`
    UpdateActiveJobs,
    /// `Deregister-Output-Device`
    DeregisterOutputDevice,
    /// `Update-Document-Status`
    UpdateDocumentStatus,
    /// `Update-Job-Status`
    UpdateJobStatus,
    /// `Update-Output-Device-Attributes`
    UpdateOutputDeviceAttributes,
    /// `Get-Next-Document-Data`
    GetNextDocumentData,
    /// `Allocate-Printer-Resources`
    AllocatePrinterResources,
    /// `Create-Printer`
    CreatePrinter,
    /// `Deallocate-Printer-Resources`
    DeallocatePrinterResources,
    /// `Delete-Printer`
    DeletePrinter,
    /// `Get-Printers`
    GetPrinters,
    /// `Shutdown-One-Printer`
    ShutdownOnePrinter,
    /// `Startup-One-Printer`
    StartupOnePrinter,
    /// `Cancel-Resource`
    CancelResource,
    /// `Create-Resource`
    CreateResource,
    /// `Install-Resource`
    InstallResource,
    /// `Send-Resource-Data`
    SendResourceData,
    /// `Set-Resource-Attributes`
    SetResourceAttributes,
    /// `Create-Resource-Subscriptions`
    CreateResourceSubscriptions,
    /// `Create-System-Subscriptions`
    CreateSystemSubscriptions,
    /// `Disable-All-Printers`
    DisableAllPrinters,
    /// `Enable-All-Printers`
    EnableAllPrinters,
    /// `Get-System-Attributes`
    GetSystemAttributes,
    /// `Get-System-Supported-Values`
    GetSystemSupportedValues,
    /// `Pause-All-Printers`
    PauseAllPrinters,
    /// `Pause-All-Printers-After-Current-Job`
    PauseAllPrintersAfterCurrentJob,
    /// `Register-Output-Device`
    RegisterOutputDevice,
    /// `Restart-System`
    RestartSystem,
    /// `Resume-All-Printers`
    ResumeAllPrinters,
    /// `Set-System-Attributes`
    SetSystemAttributes,
    /// `Shutdown-All-Printers`
    ShutdownAllPrinters,
    /// `Startup-All-Printers`
    StartupAllPrinters,
    /// `Reserved`
    Private,
    /// `CUPS-Get-Default`
    CupsGetDefault,
    /// `CUPS-Get-Printers`
    CupsGetPrinters,
    /// `CUPS-Add-Modify-Printer`
    CupsAddModifyPrinter,
    /// `CUPS-Delete-Printer`
    CupsDeletePrinter,
    /// `CUPS-Get-Classes`
    CupsGetClasses,
    /// `CUPS-Add-Modify-Class`
    CupsAddModifyClass,
    /// `CUPS-Delete-Class`
    CupsDeleteClass,
    /// `CUPS-Accept-Jobs`
    CupsAcceptJobs,
    /// `CUPS-Reject-Jobs`
    CupsRejectJobs,
    /// `CUPS-Set-Default`
    CupsSetDefault,
    /// `CUPS-Get-Devices`
    CupsGetDevices,
    /// `CUPS-Get-PPDs`
    CupsGetPpds,
    /// `CUPS-Move-Job`
    CupsMoveJob,
    /// `CUPS-Authenticate-Job`
    CupsAuthenticateJob,
    /// `CUPS-Get-PPD`
    CupsGetPpd,
    /// `CUPS-Get-Document`
    CupsGetDocument,
    /// `CUPS-Create-Local-Printer`
    CupsCreateLocalPrinter,
}

impl IppOp {
    /// The number that stands for this operation in a message.
    pub open spec fn value(self) -> int {
        match self {
            IppOp::CupsInvalid => -1,
            IppOp::CupsNone => 0,
            IppOp::PrintJob => 2,
            IppOp::PrintUri => 3,
            IppOp::ValidateJob => 4,
            IppOp::CreateJob => 5,
            IppOp::SendDocument => 6,
            IppOp::SendUri => 7,
            IppOp::CancelJob => 8,
            IppOp::GetJobAttributes => 9,
            IppOp::GetJobs => 10,
            IppOp::GetPrinterAttributes => 11,
            IppOp::HoldJob => 12,
            IppOp::ReleaseJob => 13,
            IppOp::RestartJob => 14,
            IppOp::PausePrinter => 0x10,
            IppOp::ResumePrinter => 0x11,
            IppOp::PurgeJobs => 0x12,
            IppOp::SetPrinterAttributes => 0x13,
            IppOp::SetJobAttributes => 0x14,
            IppOp::GetPrinterSupportedValues => 0x15,
            IppOp::CreatePrinterSubscriptions => 0x16,
            IppOp::CreateJobSubscriptions => 0x17,
            IppOp::GetSubscriptionAttributes => 0x18,
            IppOp::GetSubscriptions => 0x19,
            IppOp::RenewSubscription => 0x1a,
            IppOp::CancelSubscription => 0x1b,
            IppOp::GetNotifications => 0x1c,
            IppOp::SendNotifications => 0x1d,
            IppOp::GetResourceAttributes => 0x1e,
            IppOp::GetResourceData => 0x1f,
            IppOp::GetResources => 0x20,
            IppOp::GetPrintSupportFiles => 0x21,
            IppOp::EnablePrinter => 0x22,
            IppOp::DisablePrinter => 0x23,
            IppOp::PausePrinterAfterCurrentJob => 0x24,
            IppOp::HoldNewJobs => 0x25,
            IppOp::ReleaseHeldNewJobs => 0x26,
            IppOp::DeactivatePrinter => 0x27,
            IppOp::ActivatePrinter => 0x28,
            IppOp::RestartPrinter => 0x29,
            IppOp::ShutdownPrinter => 0x2a,
            IppOp::StartupPrinter => 0x2b,
            IppOp::ReprocessJob => 0x2c,
            IppOp::CancelCurrentJob => 0x2d,
            IppOp::SuspendCurrentJob => 0x2e,
            IppOp::ResumeJob => 0x2f,
            IppOp::PromoteJob => 0x30,
            IppOp::ScheduleJobAfter => 0x31,
            IppOp::CancelDocument => 0x33,
            IppOp::GetDocumentAttributes => 0x34,
            IppOp::GetDocuments => 0x35,
            IppOp::DeleteDocument => 0x36,
            IppOp::SetDocumentAttributes => 0x37,
            IppOp::CancelJobs => 0x38,
            IppOp::CancelMyJobs => 0x39,
            IppOp::ResubmitJob => 0x3a,
            IppOp::CloseJob => 0x3b,
            IppOp::IdentifyPrinter => 0x3c,
            IppOp::ValidateDocument => 0x3d,
            IppOp::AddDocumentImages => 0x3e,
            IppOp::AcknowledgeDocument => 0x3f,
            IppOp::AcknowledgeIdentifyPrinter => 0x40,
            IppOp::AcknowledgeJob => 0x41,
            IppOp::FetchDocument => 0x42,
            IppOp::FetchJob => 0x43,
            IppOp::GetOutputDeviceAttributes => 0x44,
            IppOp::UpdateActiveJobs => 0x45,
            IppOp::DeregisterOutputDevice => 0x46,
            IppOp::UpdateDocumentStatus => 0x47,
            IppOp::UpdateJobStatus => 0x48,
            IppOp::UpdateOutputDeviceAttributes => 0x49,
            IppOp::GetNextDocumentData => 0x4a,
            IppOp::AllocatePrinterResources => 0x4b,
            IppOp::CreatePrinter => 0x4c,
            IppOp::DeallocatePrinterResources => 0x4d,
            IppOp::DeletePrinter => 0x4e,
            IppOp::GetPrinters => 0x4f,
            IppOp::ShutdownOnePrinter => 0x50,
            IppOp::StartupOnePrinter => 0x51,
            IppOp::CancelResource => 0x52,
            IppOp::CreateResource => 0x53,
            IppOp::InstallResource => 0x54,
            IppOp::SendResourceData => 0x55,
            IppOp::SetResourceAttributes => 0x56,
            IppOp::CreateResourceSubscriptions => 0x57,
            IppOp::CreateSystemSubscriptions => 0x58,
            IppOp::DisableAllPrinters => 0x59,
            IppOp::EnableAllPrinters => 0x5a,
            IppOp::GetSystemAttributes => 0x5b,
            IppOp::GetSystemSupportedValues => 0x5c,
            IppOp::PauseAllPrinters => 0x5d,
            IppOp::PauseAllPrintersAfterCurrentJob => 0x5e,
            IppOp::RegisterOutputDevice => 0x5f,
            IppOp::RestartSystem => 0x60,
            IppOp::ResumeAllPrinters => 0x61,
            IppOp::SetSystemAttributes => 0x62,
            IppOp::ShutdownAllPrinters => 0x63,
            IppOp::StartupAllPrinters => 0x64,
            IppOp::Private => 0x4000,
            IppOp::CupsGetDefault => 0x4001,
            IppOp::CupsGetPrinters => 0x4002,
            IppOp::CupsAddModifyPrinter => 0x4003,
            IppOp::CupsDeletePrinter => 0x4004,
            IppOp::CupsGetClasses => 0x4005,
            IppOp::CupsAddModifyClass => 0x4006,
            IppOp::CupsDeleteClass => 0x4007,
            IppOp::CupsAcceptJobs => 0x4008,
            IppOp::CupsRejectJobs => 0x4009,
            IppOp::CupsSetDefault => 0x400a,
            IppOp::CupsGetDevices => 0x400b,
            IppOp::CupsGetPpds => 0x400c,
            IppOp::CupsMoveJob => 0x400d,
            IppOp::CupsAuthenticateJob => 0x400e,
            IppOp::CupsGetPpd => 0x400f,
            IppOp::CupsGetDocument => 0x4027,
            IppOp::CupsCreateLocalPrinter => 0x4028,
        }
    }

    /// The operation that `code` stands for, if it stands for one.
    pub open spec fn of_value(code: int) -> Option<IppOp> {
        if code == -1 {
            Some(IppOp::CupsInvalid)
        } else if code == 0 {
            Some(IppOp::CupsNone)
        } else if code == 2 {
            Some(IppOp::PrintJob)
        } else if code == 3 {
            Some(IppOp::PrintUri)
        } else if code == 4 {
            Some(IppOp::ValidateJob)
        } else if code == 5 {
            Some(IppOp::CreateJob)
        } else if code == 6 {
            Some(IppOp::SendDocument)
        } else if code == 7 {
            Some(IppOp::SendUri)
        } else if code == 8 {
            Some(IppOp::CancelJob)
        } else if code == 9 {
            Some(IppOp::GetJobAttributes)
        } else if code == 10 {
            Some(IppOp::GetJobs)
        } else if code == 11 {
            Some(IppOp::GetPrinterAttributes)
        } else if code == 12 {
            Some(IppOp::HoldJob)
        } else if code == 13 {
            Some(IppOp::ReleaseJob)
        } else if code == 14 {
            Some(IppOp::RestartJob)
        } else if code == 0x10 {
            Some(IppOp::PausePrinter)
        } else if code == 0x11 {
            Some(IppOp::ResumePrinter)
        } else if code == 0x12 {
            Some(IppOp::PurgeJobs)
        } else if code == 0x13 {
            Some(IppOp::SetPrinterAttributes)
        } else if code == 0x14 {
            Some(IppOp::SetJobAttributes)
        } else if code == 0x15 {
            Some(IppOp::GetPrinterSupportedValues)
        } else if code == 0x16 {
            Some(IppOp::CreatePrinterSubscriptions)
        } else if code == 0x17 {
            Some(IppOp::CreateJobSubscriptions)
        } else if code == 0x18 {
            Some(IppOp::GetSubscriptionAttributes)
        } else if code == 0x19 {
            Some(IppOp::GetSubscriptions)
        } else if code == 0x1a {
            Some(IppOp::RenewSubscription)
        } else if code == 0x1b {
            Some(IppOp::CancelSubscription)
        } else if code == 0x1c {
            Some(IppOp::GetNotifications)
        } else if code == 0x1d {
            Some(IppOp::SendNotifications)
        } else if code == 0x1e {
            Some(IppOp::GetResourceAttributes)
        } else if code == 0x1f {
            Some(IppOp::GetResourceData)
        } else if code == 0x20 {
            Some(IppOp::GetResources)
        } else if code == 0x21 {
            Some(IppOp::GetPrintSupportFiles)
        } else if code == 0x22 {
            Some(IppOp::EnablePrinter)
        } else if code == 0x23 {
            Some(IppOp::DisablePrinter)
        } else if code == 0x24 {
            Some(IppOp::PausePrinterAfterCurrentJob)
        } else if code == 0x25 {
            Some(IppOp::HoldNewJobs)
        } else if code == 0x26 {
            Some(IppOp::ReleaseHeldNewJobs)
        } else if code == 0x27 {
            Some(IppOp::DeactivatePrinter)
        } else if code == 0x28 {
            Some(IppOp::ActivatePrinter)
        } else if code == 0x29 {
            Some(IppOp::RestartPrinter)
        } else if code == 0x2a {
            Some(IppOp::ShutdownPrinter)
        } else if code == 0x2b {
            Some(IppOp::StartupPrinter)
        } else if code == 0x2c {
            Some(IppOp::ReprocessJob)
        } else if code == 0x2d {
            Some(IppOp::CancelCurrentJob)
        } else if code == 0x2e {
            Some(IppOp::SuspendCurrentJob)
        } else if code == 0x2f {
            Some(IppOp::ResumeJob)
        } else if code == 0x30 {
            Some(IppOp::PromoteJob)
        } else if code == 0x31 {
            Some(IppOp::ScheduleJobAfter)
        } else if code == 0x33 {
            Some(IppOp::CancelDocument)
        } else if code == 0x34 {
            Some(IppOp::GetDocumentAttributes)
        } else if code == 0x35 {
            Some(IppOp::GetDocuments)
        } else if code == 0x36 {
            Some(IppOp::DeleteDocument)
        } else if code == 0x37 {
            Some(IppOp::SetDocumentAttributes)
        } else if code == 0x38 {
            Some(IppOp::CancelJobs)
        } else if code == 0x39 {
            Some(IppOp::CancelMyJobs)
        } else if code == 0x3a {
            Some(IppOp::ResubmitJob)
        } else if code == 0x3b {
            Some(IppOp::CloseJob)
        } else if code == 0x3c {
            Some(IppOp::IdentifyPrinter)
        } else if code == 0x3d {
            Some(IppOp::ValidateDocument)
        } else if code == 0x3e {
            Some(IppOp::AddDocumentImages)
        } else if code == 0x3f {
            Some(IppOp::AcknowledgeDocument)
        } else if code == 0x40 {
            Some(IppOp::AcknowledgeIdentifyPrinter)
        } else if code == 0x41 {
            Some(IppOp::AcknowledgeJob)
        } else if code == 0x42 {
            Some(IppOp::FetchDocument)
        } else if code == 0x43 {
            Some(IppOp::FetchJob)
        } else if code == 0x44 {
            Some(IppOp::GetOutputDeviceAttributes)
        } else if code == 0x45 {
            Some(IppOp::UpdateActiveJobs)
        } else if code == 0x46 {
            Some(IppOp::DeregisterOutputDevice)
        } else if code == 0x47 {
            Some(IppOp::UpdateDocumentStatus)
        } else if code == 0x48 {
            Some(IppOp::UpdateJobStatus)
        } else if code == 0x49 {
            Some(IppOp::UpdateOutputDeviceAttributes)
        } else if code == 0x4a {
            Some(IppOp::GetNextDocumentData)
        } else if code == 0x4b {
            Some(IppOp::AllocatePrinterResources)
        } else if code == 0x4c {
            Some(IppOp::CreatePrinter)
        } else if code == 0x4d {
            Some(IppOp::DeallocatePrinterResources)
        } else if code == 0x4e {
            Some(IppOp::DeletePrinter)
        } else if code == 0x4f {
            Some(IppOp::GetPrinters)
        } else if code == 0x50 {
            Some(IppOp::ShutdownOnePrinter)
        } else if code == 0x51 {
            Some(IppOp::StartupOnePrinter)
        } else if code == 0x52 {
            Some(IppOp::CancelResource)
        } else if code == 0x53 {
            Some(IppOp::CreateResource)
        } else if code == 0x54 {
            Some(IppOp::InstallResource)
        } else if code == 0x55 {
            Some(IppOp::SendResourceData)
        } else if code == 0x56 {
            Some(IppOp::SetResourceAttributes)
        } else if code == 0x57 {
            Some(IppOp::CreateResourceSubscriptions)
        } else if code == 0x58 {
            Some(IppOp::CreateSystemSubscriptions)
        } else if code == 0x59 {
            Some(IppOp::DisableAllPrinters)
        } else if code == 0x5a {
            Some(IppOp::EnableAllPrinters)
        } else if code == 0x5b {
            Some(IppOp::GetSystemAttributes)
        } else if code == 0x5c {
            Some(IppOp::GetSystemSupportedValues)
        } else if code == 0x5d {
            Some(IppOp::PauseAllPrinters)
        } else if code == 0x5e {
            Some(IppOp::PauseAllPrintersAfterCurrentJob)
        } else if code == 0x5f {
            Some(IppOp::RegisterOutputDevice)
        } else if code == 0x60 {
            Some(IppOp::RestartSystem)
        } else if code == 0x61 {
            Some(IppOp::ResumeAllPrinters)
        } else if code == 0x62 {
            Some(IppOp::SetSystemAttributes)
        } else if code == 0x63 {
            Some(IppOp::ShutdownAllPrinters)
        } else if code == 0x64 {
            Some(IppOp::StartupAllPrinters)
        } else if code == 0x4000 {
            Some(IppOp::Private)
        } else if code == 0x4001 {
            Some(IppOp::CupsGetDefault)
        } else if code == 0x4002 {
            Some(IppOp::CupsGetPrinters)
        } else if code == 0x4003 {
            Some(IppOp::CupsAddModifyPrinter)
        } else if code == 0x4004 {
            Some(IppOp::CupsDeletePrinter)
        } else if code == 0x4005 {
            Some(IppOp::CupsGetClasses)
        } else if code == 0x4006 {
            Some(IppOp::CupsAddModifyClass)
        } else if code == 0x4007 {
            Some(IppOp::CupsDeleteClass)
        } else if code == 0x4008 {
            Some(IppOp::CupsAcceptJobs)
        } else if code == 0x4009 {
            Some(IppOp::CupsRejectJobs)
        } else if code == 0x400a {
            Some(IppOp::CupsSetDefault)
        } else if code == 0x400b {
            Some(IppOp::CupsGetDevices)
        } else if code == 0x400c {
            Some(IppOp::CupsGetPpds)
        } else if code == 0x400d {
            Some(IppOp::CupsMoveJob)
        } else if code == 0x400e {
            Some(IppOp::CupsAuthenticateJob)
        } else if code == 0x400f {
            Some(IppOp::CupsGetPpd)
        } else if code == 0x4027 {
            Some(IppOp::CupsGetDocument)
        } else if code == 0x4028 {
            Some(IppOp::CupsCreateLocalPrinter)
        } else {
            None
        }
    }

    /// The number of this operation as a machine integer.
    pub fn code(&self) -> (res: i32)
        ensures
            res == self.value(),
    {
        match self {
            IppOp::CupsInvalid => -1,
            IppOp::CupsNone => 0,
            IppOp::PrintJob => 2,
            IppOp::PrintUri => 3,
            IppOp::ValidateJob => 4,
            IppOp::CreateJob => 5,
            IppOp::SendDocument => 6,
            IppOp::SendUri => 7,
            IppOp::CancelJob => 8,
            IppOp::GetJobAttributes => 9,
            IppOp::GetJobs => 10,
            IppOp::GetPrinterAttributes => 11,
            IppOp::HoldJob => 12,
            IppOp::ReleaseJob => 13,
            IppOp::RestartJob => 14,
            IppOp::PausePrinter => 0x10,
            IppOp::ResumePrinter => 0x11,
            IppOp::PurgeJobs => 0x12,
            IppOp::SetPrinterAttributes => 0x13,
            IppOp::SetJobAttributes => 0x14,
            IppOp::GetPrinterSupportedValues => 0x15,
            IppOp::CreatePrinterSubscriptions => 0x16,
            IppOp::CreateJobSubscriptions => 0x17,
            IppOp::GetSubscriptionAttributes => 0x18,
            IppOp::GetSubscriptions => 0x19,
            IppOp::RenewSubscription => 0x1a,
            IppOp::CancelSubscription => 0x1b,
            IppOp::GetNotifications => 0x1c,
            IppOp::SendNotifications => 0x1d,
            IppOp::GetResourceAttributes => 0x1e,
            IppOp::GetResourceData => 0x1f,
            IppOp::GetResources => 0x20,
            IppOp::GetPrintSupportFiles => 0x21,
            IppOp::EnablePrinter => 0x22,
            IppOp::DisablePrinter => 0x23,
            IppOp::PausePrinterAfterCurrentJob => 0x24,
            IppOp::HoldNewJobs => 0x25,
            IppOp::ReleaseHeldNewJobs => 0x26,
            IppOp::DeactivatePrinter => 0x27,
            IppOp::ActivatePrinter => 0x28,
            IppOp::RestartPrinter => 0x29,
            IppOp::ShutdownPrinter => 0x2a,
            IppOp::StartupPrinter => 0x2b,
            IppOp::ReprocessJob => 0x2c,
            IppOp::CancelCurrentJob => 0x2d,
            IppOp::SuspendCurrentJob => 0x2e,
            IppOp::ResumeJob => 0x2f,
            IppOp::PromoteJob => 0x30,
            IppOp::ScheduleJobAfter => 0x31,
            IppOp::CancelDocument => 0x33,
            IppOp::GetDocumentAttributes => 0x34,
            IppOp::GetDocuments => 0x35,
            IppOp::DeleteDocument => 0x36,
            IppOp::SetDocumentAttributes => 0x37,
            IppOp::CancelJobs => 0x38,
            IppOp::CancelMyJobs => 0x39,
            IppOp::ResubmitJob => 0x3a,
            IppOp::CloseJob => 0x3b,
            IppOp::IdentifyPrinter => 0x3c,
            IppOp::ValidateDocument => 0x3d,
            IppOp::AddDocumentImages => 0x3e,
            IppOp::AcknowledgeDocument => 0x3f,
            IppOp::AcknowledgeIdentifyPrinter => 0x40,
            IppOp::AcknowledgeJob => 0x41,
            IppOp::FetchDocument => 0x42,
            IppOp::FetchJob => 0x43,
            IppOp::GetOutputDeviceAttributes => 0x44,
            IppOp::UpdateActiveJobs => 0x45,
            IppOp::DeregisterOutputDevice => 0x46,
            IppOp::UpdateDocumentStatus => 0x47,
            IppOp::UpdateJobStatus => 0x48,
            IppOp::UpdateOutputDeviceAttributes => 0x49,
            IppOp::GetNextDocumentData => 0x4a,
            IppOp::AllocatePrinterResources => 0x4b,
            IppOp::CreatePrinter => 0x4c,
            IppOp::DeallocatePrinterResources => 0x4d,
            IppOp::DeletePrinter => 0x4e,
            IppOp::GetPrinters => 0x4f,
            IppOp::ShutdownOnePrinter => 0x50,
            IppOp::StartupOnePrinter => 0x51,
            IppOp::CancelResource => 0x52,
            IppOp::CreateResource => 0x53,
            IppOp::InstallResource => 0x54,
            IppOp::SendResourceData => 0x55,
            IppOp::SetResourceAttributes => 0x56,
            IppOp::CreateResourceSubscriptions => 0x57,
            IppOp::CreateSystemSubscriptions => 0x58,
            IppOp::DisableAllPrinters => 0x59,
            IppOp::EnableAllPrinters => 0x5a,
            IppOp::GetSystemAttributes => 0x5b,
            IppOp::GetSystemSupportedValues => 0x5c,
            IppOp::PauseAllPrinters => 0x5d,
            IppOp::PauseAllPrintersAfterCurrentJob => 0x5e,
            IppOp::RegisterOutputDevice => 0x5f,
            IppOp::RestartSystem => 0x60,
            IppOp::ResumeAllPrinters => 0x61,
            IppOp::SetSystemAttributes => 0x62,
            IppOp::ShutdownAllPrinters => 0x63,
            IppOp::StartupAllPrinters => 0x64,
            IppOp::Private => 0x4000,
            IppOp::CupsGetDefault => 0x4001,
            IppOp::CupsGetPrinters => 0x4002,
            IppOp::CupsAddModifyPrinter => 0x4003,
            IppOp::CupsDeletePrinter => 0x4004,
            IppOp::CupsGetClasses => 0x4005,
            IppOp::CupsAddModifyClass => 0x4006,
            IppOp::CupsDeleteClass => 0x4007,
            IppOp::CupsAcceptJobs => 0x4008,
            IppOp::CupsRejectJobs => 0x4009,
            IppOp::CupsSetDefault => 0x400a,
            IppOp::CupsGetDevices => 0x400b,
            IppOp::CupsGetPpds => 0x400c,
            IppOp::CupsMoveJob => 0x400d,
            IppOp::CupsAuthenticateJob => 0x400e,
            IppOp::CupsGetPpd => 0x400f,
            IppOp::CupsGetDocument => 0x4027,
            IppOp::CupsCreateLocalPrinter => 0x4028,
        }
    }

    /// Reads a number back into the operation it stands for; `None` for a number
    /// that stands for none.
    pub fn from_code(code: i32) -> (res: Option<IppOp>)
        ensures
            res == Self::of_value(code as int),
    {
        if code == -1 {
            Some(IppOp::CupsInvalid)
        } else if code == 0 {
            Some(IppOp::CupsNone)
        } else if code == 2 {
            Some(IppOp::PrintJob)
        } else if code == 3 {
            Some(IppOp::PrintUri)
        } else if code == 4 {
            Some(IppOp::ValidateJob)
        } else if code == 5 {
            Some(IppOp::CreateJob)
        } else if code == 6 {
            Some(IppOp::SendDocument)
        } else if code == 7 {
            Some(IppOp::SendUri)
        } else if code == 8 {
            Some(IppOp::CancelJob)
        } else if code == 9 {
            Some(IppOp::GetJobAttributes)
        } else if code == 10 {
            Some(IppOp::GetJobs)
        } else if code == 11 {
            Some(IppOp::GetPrinterAttributes)
        } else if code == 12 {
            Some(IppOp::HoldJob)
        } else if code == 13 {
            Some(IppOp::ReleaseJob)
        } else if code == 14 {
            Some(IppOp::RestartJob)
        } else if code == 0x10 {
            Some(IppOp::PausePrinter)
        } else if code == 0x11 {
            Some(IppOp::ResumePrinter)
        } else if code == 0x12 {
            Some(IppOp::PurgeJobs)
        } else if code == 0x13 {
            Some(IppOp::SetPrinterAttributes)
        } else if code == 0x14 {
            Some(IppOp::SetJobAttributes)
        } else if code == 0x15 {
            Some(IppOp::GetPrinterSupportedValues)
        } else if code == 0x16 {
            Some(IppOp::CreatePrinterSubscriptions)
        } else if code == 0x17 {
            Some(IppOp::CreateJobSubscriptions)
        } else if code == 0x18 {
            Some(IppOp::GetSubscriptionAttributes)
        } else if code == 0x19 {
            Some(IppOp::GetSubscriptions)
        } else if code == 0x1a {
            Some(IppOp::RenewSubscription)
        } else if code == 0x1b {
            Some(IppOp::CancelSubscription)
        } else if code == 0x1c {
            Some(IppOp::GetNotifications)
        } else if code == 0x1d {
            Some(IppOp::SendNotifications)
        } else if code == 0x1e {
            Some(IppOp::GetResourceAttributes)
        } else if code == 0x1f {
            Some(IppOp::GetResourceData)
        } else if code == 0x20 {
            Some(IppOp::GetResources)
        } else if code == 0x21 {
            Some(IppOp::GetPrintSupportFiles)
        } else if code == 0x22 {
            Some(IppOp::EnablePrinter)
        } else if code == 0x23 {
            Some(IppOp::DisablePrinter)
        } else if code == 0x24 {
            Some(IppOp::PausePrinterAfterCurrentJob)
        } else if code == 0x25 {
            Some(IppOp::HoldNewJobs)
        } else if code == 0x26 {
            Some(IppOp::ReleaseHeldNewJobs)
        } else if code == 0x27 {
            Some(IppOp::DeactivatePrinter)
        } else if code == 0x28 {
            Some(IppOp::ActivatePrinter)
        } else if code == 0x29 {
            Some(IppOp::RestartPrinter)
        } else if code == 0x2a {
            Some(IppOp::ShutdownPrinter)
        } else if code == 0x2b {
            Some(IppOp::StartupPrinter)
        } else if code == 0x2c {
            Some(IppOp::ReprocessJob)
        } else if code == 0x2d {
            Some(IppOp::CancelCurrentJob)
        } else if code == 0x2e {
            Some(IppOp::SuspendCurrentJob)
        } else if code == 0x2f {
            Some(IppOp::ResumeJob)
        } else if code == 0x30 {
            Some(IppOp::PromoteJob)
        } else if code == 0x31 {
            Some(IppOp::ScheduleJobAfter)
        } else if code == 0x33 {
            Some(IppOp::CancelDocument)
        } else if code == 0x34 {
            Some(IppOp::GetDocumentAttributes)
        } else if code == 0x35 {
            Some(IppOp::GetDocuments)
        } else if code == 0x36 {
            Some(IppOp::DeleteDocument)
        } else if code == 0x37 {
            Some(IppOp::SetDocumentAttributes)
        } else if code == 0x38 {
            Some(IppOp::CancelJobs)
        } else if code == 0x39 {
            Some(IppOp::CancelMyJobs)
        } else if code == 0x3a {
            Some(IppOp::ResubmitJob)
        } else if code == 0x3b {
            Some(IppOp::CloseJob)
        } else if code == 0x3c {
            Some(IppOp::IdentifyPrinter)
        } else if code == 0x3d {
            Some(IppOp::ValidateDocument)
        } else if code == 0x3e {
            Some(IppOp::AddDocumentImages)
        } else if code == 0x3f {
            Some(IppOp::AcknowledgeDocument)
        } else if code == 0x40 {
            Some(IppOp::AcknowledgeIdentifyPrinter)
        } else if code == 0x41 {
            Some(IppOp::AcknowledgeJob)
        } else if code == 0x42 {
            Some(IppOp::FetchDocument)
        } else if code == 0x43 {
            Some(IppOp::FetchJob)
        } else if code == 0x44 {
            Some(IppOp::GetOutputDeviceAttributes)
        } else if code == 0x45 {
            Some(IppOp::UpdateActiveJobs)
        } else if code == 0x46 {
            Some(IppOp::DeregisterOutputDevice)
        } else if code == 0x47 {
            Some(IppOp::UpdateDocumentStatus)
        } else if code == 0x48 {
            Some(IppOp::UpdateJobStatus)
        } else if code == 0x49 {
            Some(IppOp::UpdateOutputDeviceAttributes)
        } else if code == 0x4a {
            Some(IppOp::GetNextDocumentData)
        } else if code == 0x4b {
            Some(IppOp::AllocatePrinterResources)
        } else if code == 0x4c {
            Some(IppOp::CreatePrinter)
        } else if code == 0x4d {
            Some(IppOp::DeallocatePrinterResources)
        } else if code == 0x4e {
            Some(IppOp::DeletePrinter)
        } else if code == 0x4f {
            Some(IppOp::GetPrinters)
        } else if code == 0x50 {
            Some(IppOp::ShutdownOnePrinter)
        } else if code == 0x51 {
            Some(IppOp::StartupOnePrinter)
        } else if code == 0x52 {
            Some(IppOp::CancelResource)
        } else if code == 0x53 {
            Some(IppOp::CreateResource)
        } else if code == 0x54 {
            Some(IppOp::InstallResource)
        } else if code == 0x55 {
            Some(IppOp::SendResourceData)
        } else if code == 0x56 {
            Some(IppOp::SetResourceAttributes)
        } else if code == 0x57 {
            Some(IppOp::CreateResourceSubscriptions)
        } else if code == 0x58 {
            Some(IppOp::CreateSystemSubscriptions)
        } else if code == 0x59 {
            Some(IppOp::DisableAllPrinters)
        } else if code == 0x5a {
            Some(IppOp::EnableAllPrinters)
        } else if code == 0x5b {
            Some(IppOp::GetSystemAttributes)
        } else if code == 0x5c {
            Some(IppOp::GetSystemSupportedValues)
        } else if code == 0x5d {
            Some(IppOp::PauseAllPrinters)
        } else if code == 0x5e {
            Some(IppOp::PauseAllPrintersAfterCurrentJob)
        } else if code == 0x5f {
            Some(IppOp::RegisterOutputDevice)
        } else if code == 0x60 {
            Some(IppOp::RestartSystem)
        } else if code == 0x61 {
            Some(IppOp::ResumeAllPrinters)
        } else if code == 0x62 {
            Some(IppOp::SetSystemAttributes)
        } else if code == 0x63 {
            Some(IppOp::ShutdownAllPrinters)
        } else if code == 0x64 {
            Some(IppOp::StartupAllPrinters)
        } else if code == 0x4000 {
            Some(IppOp::Private)
        } else if code == 0x4001 {
            Some(IppOp::CupsGetDefault)
        } else if code == 0x4002 {
            Some(IppOp::CupsGetPrinters)
        } else if code == 0x4003 {
            Some(IppOp::CupsAddModifyPrinter)
        } else if code == 0x4004 {
            Some(IppOp::CupsDeletePrinter)
        } else if code == 0x4005 {
            Some(IppOp::CupsGetClasses)
        } else if code == 0x4006 {
            Some(IppOp::CupsAddModifyClass)
        } else if code == 0x4007 {
            Some(IppOp::CupsDeleteClass)
        } else if code == 0x4008 {
            Some(IppOp::CupsAcceptJobs)
        } else if code == 0x4009 {
            Some(IppOp::CupsRejectJobs)
        } else if code == 0x400a {
            Some(IppOp::CupsSetDefault)
        } else if code == 0x400b {
            Some(IppOp::CupsGetDevices)
        } else if code == 0x400c {
            Some(IppOp::CupsGetPpds)
        } else if code == 0x400d {
            Some(IppOp::CupsMoveJob)
        } else if code == 0x400e {
            Some(IppOp::CupsAuthenticateJob)
        } else if code == 0x400f {
            Some(IppOp::CupsGetPpd)
        } else if code == 0x4027 {
            Some(IppOp::CupsGetDocument)
        } else if code == 0x4028 {
            Some(IppOp::CupsCreateLocalPrinter)
        } else {
            None
        }
    }

    /// Reading back the number of a operation gives that operation.
    pub proof fn lemma_value_round_trip(self)
        ensures
            Self::of_value(self.value()) == Some(self),
    {
    }

    /// A number is read back only into the operation that carries it, so no two
    /// of them share a number.
    pub proof fn lemma_of_value_exact(code: int)
        ensures
            Self::of_value(code) matches Some(v) ==> v.value() == code,
            Self::of_value(code) is None ==> forall|v: IppOp| v.value() != code,
    {
    }
}

} // verus!
