use std::cmp::Ordering;
use vstd::std_specs::cmp::PartialOrdSpecImpl;
use vstd::prelude::*;

verus! {

/// The status codes with which a server answers a request.
///
/// The codes are ordered by their numbers: the successful ones come first,
/// and every code above `OkEventsComplete` reports a failure.
#[derive(Debug, Clone, Copy, PartialEq, Eq, Ord, Structural)]
pub enum IppStatus {
    /// No status: what a name that stands for none is read as.
    CupsInvalid,
    /// `successful-ok`
    SuccessfulOk,
    /// `successful-ok-ignored-or-substituted-attributes`
    OkIgnoredOrSubstituted,
    /// `successful-ok-conflicting-attributes`
    OkConflicting,
    /// `successful-ok-ignored-subscriptions`
    OkIgnoredSubscriptions,
    /// `successful-ok-ignored-notifications`
    OkIgnoredNotifications,
    /// `successful-ok-too-many-events`
    OkTooManyEvents,
    /// `successful-ok-but-cancel-subscription`
    OkButCancelSubscription,
    /// `successful-ok-events-complete`
    OkEventsComplete,
    /// `redirection-other-site`
    RedirectionOtherSite,
    /// `cups-see-other`
    CupsSeeOther,
    /// `client-error-bad-request`
    ErrorBadRequest,
    /// `client-error-forbidden`
    ErrorForbidden,
    /// `client-error-not-authenticated`
    ErrorNotAuthenticated,
    /// `client-error-not-authorized`
    ErrorNotAuthorized,
    /// `client-error-not-possible`
    ErrorNotPossible,
    /// `client-error-timeout`
    ErrorTimeout,
    /// `client-error-not-found`
    ErrorNotFound,
    /// `client-error-gone`
    ErrorGone,
    /// `client-error-request-entity-too-large`
    ErrorRequestEntity,
    /// `client-error-request-value-too-long`
    ErrorRequestValue,
    /// `client-error-document-format-not-supported`
    ErrorDocumentFormatNotSupported,
    /// `client-error-attributes-or-values-not-supported`
    ErrorAttributesOrValues,
    /// `client-error-uri-scheme-not-supported`
    ErrorUriScheme,
    /// `client-error-charset-not-supported`
    ErrorCharset,
    /// `client-error-conflicting-attributes`
    ErrorConflicting,
    /// `client-error-compression-not-supported`
    ErrorCompressionNotSupported,
    /// `client-error-compression-error`
    ErrorCompressionError,
    /// `client-error-document-format-error`
    ErrorDocumentFormatError,
    /// `client-error-document-access-error`
    ErrorDocumentAccess,
    /// `client-error-attributes-not-settable`
    ErrorAttributesNotSettable,
    /// `client-error-ignored-all-subscriptions`
    ErrorIgnoredAllSubscriptions,
    /// `client-error-too-many-subscriptions`
    ErrorTooManySubscriptions,
    /// `client-error-ignored-all-notifications`
    ErrorIgnoredAllNotifications,
    /// `client-error-print-support-file-not-found`
    ErrorPrintSupportFileNotFound,
    /// `client-error-document-password-error`
    ErrorDocumentPassword,
    /// `client-error-document-permission-error`
    ErrorDocumentPermission,
    /// `client-error-document-security-error`
    ErrorDocumentSecurity,
    /// `client-error-document-unprintable-error`
    ErrorDocumentUnprintable,
    /// `client-error-account-info-needed`
    ErrorAccountInfoNeeded,
    /// `client-error-account-closed`
    ErrorAccountClosed,
    /// `client-error-account-limit-reached`
    ErrorAccountLimitReached,
    /// `client-error-account-authorization-failed`
    ErrorAccountAuthorizationFailed,
    /// `client-error-not-fetchable`
    ErrorNotFetchable,
    /// `server-error-internal-error`
    ErrorInternal,
    /// `server-error-operation-not-supported`
    ErrorOperationNotSupported,
    /// `server-error-service-unavailable`
    ErrorServiceUnavailable,
    /// `server-error-version-not-supported`
    ErrorVersionNotSupported,
    /// `server-error-device-error`
    ErrorDevice,
    /// `server-error-temporary-error`
    ErrorTemporary,
    /// `server-error-not-accepting-jobs`
    ErrorNotAcceptingJobs,
    /// `server-error-busy`
    ErrorBusy,
    /// `server-error-job-canceled`
    ErrorJobCanceled,
    /// `server-error-multiple-document-jobs-not-supported`
    ErrorMultipleJobsNotSupported,
    /// `server-error-printer-is-deactivated`
    ErrorPrinterIsDeactivated,
    /// `server-error-too-many-jobs`
    ErrorTooManyJobs,
    /// `server-error-too-many-documents`
    ErrorTooManyDocuments,
    /// `cups-authentication-canceled`
    ErrorCupsAuthenticationCanceled,
    /// `cups-pki-error`
    ErrorCupsPki,
    /// `cups-upgrade-required`
    ErrorCupsUpgradeRequired,
}

impl IppStatus {
    /// The number that stands for this status in a message.
    pub open spec fn value(self) -> int {
        match self {
            IppStatus::CupsInvalid => -1,
            IppStatus::SuccessfulOk => 0,
            IppStatus::OkIgnoredOrSubstituted => 1,
            IppStatus::OkConflicting => 2,
            IppStatus::OkIgnoredSubscriptions => 3,
            IppStatus::OkIgnoredNotifications => 4,
            IppStatus::OkTooManyEvents => 5,
            IppStatus::OkButCancelSubscription => 6,
            IppStatus::OkEventsComplete => 7,
            IppStatus::RedirectionOtherSite => 0x200,
            IppStatus::CupsSeeOther => 0x280,
            IppStatus::ErrorBadRequest => 0x400,
            IppStatus::ErrorForbidden => 0x401,
            IppStatus::ErrorNotAuthenticated => 0x402,
            IppStatus::ErrorNotAuthorized => 0x403,
            IppStatus::ErrorNotPossible => 0x404,
            IppStatus::ErrorTimeout => 0x405,
            IppStatus::ErrorNotFound => 0x406,
            IppStatus::ErrorGone => 0x407,
            IppStatus::ErrorRequestEntity => 0x408,
            IppStatus::ErrorRequestValue => 0x409,
            IppStatus::ErrorDocumentFormatNotSupported => 0x40a,
            IppStatus::ErrorAttributesOrValues => 0x40b,
            IppStatus::ErrorUriScheme => 0x40c,
            IppStatus::ErrorCharset => 0x40d,
            IppStatus::ErrorConflicting => 0x40e,
            IppStatus::ErrorCompressionNotSupported => 0x40f,
            IppStatus::ErrorCompressionError => 0x410,
            IppStatus::ErrorDocumentFormatError => 0x411,
            IppStatus::ErrorDocumentAccess => 0x412,
            IppStatus::ErrorAttributesNotSettable => 0x413,
            IppStatus::ErrorIgnoredAllSubscriptions => 0x414,
            IppStatus::ErrorTooManySubscriptions => 0x415,
            IppStatus::ErrorIgnoredAllNotifications => 0x416,
            IppStatus::ErrorPrintSupportFileNotFound => 0x417,
            IppStatus::ErrorDocumentPassword => 0x418,
            IppStatus::ErrorDocumentPermission => 0x419,
            IppStatus::ErrorDocumentSecurity => 0x41a,
            IppStatus::ErrorDocumentUnprintable => 0x41b,
            IppStatus::ErrorAccountInfoNeeded => 0x49c,
            IppStatus::ErrorAccountClosed => 0x49d,
            IppStatus::ErrorAccountLimitReached => 0x49e,
            IppStatus::ErrorAccountAuthorizationFailed => 0x49f,
            IppStatus::ErrorNotFetchable => 0x4a0,
            IppStatus::ErrorInternal => 0x500,
            IppStatus::ErrorOperationNotSupported => 0x501,
            IppStatus::ErrorServiceUnavailable => 0x502,
            IppStatus::ErrorVersionNotSupported => 0x503,
            IppStatus::ErrorDevice => 0x504,
            IppStatus::ErrorTemporary => 0x505,
            IppStatus::ErrorNotAcceptingJobs => 0x506,
            IppStatus::ErrorBusy => 0x507,
            IppStatus::ErrorJobCanceled => 0x508,
            IppStatus::ErrorMultipleJobsNotSupported => 0x509,
            IppStatus::ErrorPrinterIsDeactivated => 0x50a,
            IppStatus::ErrorTooManyJobs => 0x50b,
            IppStatus::ErrorTooManyDocuments => 0x50c,
            IppStatus::ErrorCupsAuthenticationCanceled => 0x1000,
            IppStatus::ErrorCupsPki => 0x1001,
            IppStatus::ErrorCupsUpgradeRequired => 0x1002,
        }
    }

    /// The status that `code` stands for, if it stands for one.
    pub open spec fn of_value(code: int) -> Option<IppStatus> {
        if code == -1 {
            Some(IppStatus::CupsInvalid)
        } else if code == 0 {
            Some(IppStatus::SuccessfulOk)
        } else if code == 1 {
            Some(IppStatus::OkIgnoredOrSubstituted)
        } else if code == 2 {
            Some(IppStatus::OkConflicting)
        } else if code == 3 {
            Some(IppStatus::OkIgnoredSubscriptions)
        } else if code == 4 {
            Some(IppStatus::OkIgnoredNotifications)
        } else if code == 5 {
            Some(IppStatus::OkTooManyEvents)
        } else if code == 6 {
            Some(IppStatus::OkButCancelSubscription)
        } else if code == 7 {
            Some(IppStatus::OkEventsComplete)
        } else if code == 0x200 {
            Some(IppStatus::RedirectionOtherSite)
        } else if code == 0x280 {
            Some(IppStatus::CupsSeeOther)
        } else if code == 0x400 {
            Some(IppStatus::ErrorBadRequest)
        } else if code == 0x401 {
            Some(IppStatus::ErrorForbidden)
        } else if code == 0x402 {
            Some(IppStatus::ErrorNotAuthenticated)
        } else if code == 0x403 {
            Some(IppStatus::ErrorNotAuthorized)
        } else if code == 0x404 {
            Some(IppStatus::ErrorNotPossible)
        } else if code == 0x405 {
            Some(IppStatus::ErrorTimeout)
        } else if code == 0x406 {
            Some(IppStatus::ErrorNotFound)
        } else if code == 0x407 {
            Some(IppStatus::ErrorGone)
        } else if code == 0x408 {
            Some(IppStatus::ErrorRequestEntity)
        } else if code == 0x409 {
            Some(IppStatus::ErrorRequestValue)
        } else if code == 0x40a {
            Some(IppStatus::ErrorDocumentFormatNotSupported)
        } else if code == 0x40b {
            Some(IppStatus::ErrorAttributesOrValues)
        } else if code == 0x40c {
            Some(IppStatus::ErrorUriScheme)
        } else if code == 0x40d {
            Some(IppStatus::ErrorCharset)
        } else if code == 0x40e {
            Some(IppStatus::ErrorConflicting)
        } else if code == 0x40f {
            Some(IppStatus::ErrorCompressionNotSupported)
        } else if code == 0x410 {
            Some(IppStatus::ErrorCompressionError)
        } else if code == 0x411 {
            Some(IppStatus::ErrorDocumentFormatError)
        } else if code == 0x412 {
            Some(IppStatus::ErrorDocumentAccess)
        } else if code == 0x413 {
            Some(IppStatus::ErrorAttributesNotSettable)
        } else if code == 0x414 {
            Some(IppStatus::ErrorIgnoredAllSubscriptions)
        } else if code == 0x415 {
            Some(IppStatus::ErrorTooManySubscriptions)
        } else if code == 0x416 {
            Some(IppStatus::ErrorIgnoredAllNotifications)
        } else if code == 0x417 {
            Some(IppStatus::ErrorPrintSupportFileNotFound)
        } else if code == 0x418 {
            Some(IppStatus::ErrorDocumentPassword)
        } else if code == 0x419 {
            Some(IppStatus::ErrorDocumentPermission)
        } else if code == 0x41a {
            Some(IppStatus::ErrorDocumentSecurity)
        } else if code == 0x41b {
            Some(IppStatus::ErrorDocumentUnprintable)
        } else if code == 0x49c {
            Some(IppStatus::ErrorAccountInfoNeeded)
        } else if code == 0x49d {
            Some(IppStatus::ErrorAccountClosed)
        } else if code == 0x49e {
            Some(IppStatus::ErrorAccountLimitReached)
        } else if code == 0x49f {
            Some(IppStatus::ErrorAccountAuthorizationFailed)
        } else if code == 0x4a0 {
            Some(IppStatus::ErrorNotFetchable)
        } else if code == 0x500 {
            Some(IppStatus::ErrorInternal)
        } else if code == 0x501 {
            Some(IppStatus::ErrorOperationNotSupported)
        } else if code == 0x502 {
            Some(IppStatus::ErrorServiceUnavailable)
        } else if code == 0x503 {
            Some(IppStatus::ErrorVersionNotSupported)
        } else if code == 0x504 {
            Some(IppStatus::ErrorDevice)
        } else if code == 0x505 {
            Some(IppStatus::ErrorTemporary)
        } else if code == 0x506 {
            Some(IppStatus::ErrorNotAcceptingJobs)
        } else if code == 0x507 {
            Some(IppStatus::ErrorBusy)
        } else if code == 0x508 {
            Some(IppStatus::ErrorJobCanceled)
        } else if code == 0x509 {
            Some(IppStatus::ErrorMultipleJobsNotSupported)
        } else if code == 0x50a {
            Some(IppStatus::ErrorPrinterIsDeactivated)
        } else if code == 0x50b {
            Some(IppStatus::ErrorTooManyJobs)
        } else if code == 0x50c {
            Some(IppStatus::ErrorTooManyDocuments)
        } else if code == 0x1000 {
            Some(IppStatus::ErrorCupsAuthenticationCanceled)
        } else if code == 0x1001 {
            Some(IppStatus::ErrorCupsPki)
        } else if code == 0x1002 {
            Some(IppStatus::ErrorCupsUpgradeRequired)
        } else {
            None
        }
    }

    /// The number of this status as a machine integer.
    pub fn code(&self) -> (res: i32)
        ensures
            res == self.value(),
    {
        match self {
            IppStatus::CupsInvalid => -1,
            IppStatus::SuccessfulOk => 0,
            IppStatus::OkIgnoredOrSubstituted => 1,
            IppStatus::OkConflicting => 2,
            IppStatus::OkIgnoredSubscriptions => 3,
            IppStatus::OkIgnoredNotifications => 4,
            IppStatus::OkTooManyEvents => 5,
            IppStatus::OkButCancelSubscription => 6,
            IppStatus::OkEventsComplete => 7,
            IppStatus::RedirectionOtherSite => 0x200,
            IppStatus::CupsSeeOther => 0x280,
            IppStatus::ErrorBadRequest => 0x400,
            IppStatus::ErrorForbidden => 0x401,
            IppStatus::ErrorNotAuthenticated => 0x402,
            IppStatus::ErrorNotAuthorized => 0x403,
            IppStatus::ErrorNotPossible => 0x404,
            IppStatus::ErrorTimeout => 0x405,
            IppStatus::ErrorNotFound => 0x406,
            IppStatus::ErrorGone => 0x407,
            IppStatus::ErrorRequestEntity => 0x408,
            IppStatus::ErrorRequestValue => 0x409,
            IppStatus::ErrorDocumentFormatNotSupported => 0x40a,
            IppStatus::ErrorAttributesOrValues => 0x40b,
            IppStatus::ErrorUriScheme => 0x40c,
            IppStatus::ErrorCharset => 0x40d,
            IppStatus::ErrorConflicting => 0x40e,
            IppStatus::ErrorCompressionNotSupported => 0x40f,
            IppStatus::ErrorCompressionError => 0x410,
            IppStatus::ErrorDocumentFormatError => 0x411,
            IppStatus::ErrorDocumentAccess => 0x412,
            IppStatus::ErrorAttributesNotSettable => 0x413,
            IppStatus::ErrorIgnoredAllSubscriptions => 0x414,
            IppStatus::ErrorTooManySubscriptions => 0x415,
            IppStatus::ErrorIgnoredAllNotifications => 0x416,
            IppStatus::ErrorPrintSupportFileNotFound => 0x417,
            IppStatus::ErrorDocumentPassword => 0x418,
            IppStatus::ErrorDocumentPermission => 0x419,
            IppStatus::ErrorDocumentSecurity => 0x41a,
            IppStatus::ErrorDocumentUnprintable => 0x41b,
            IppStatus::ErrorAccountInfoNeeded => 0x49c,
            IppStatus::ErrorAccountClosed => 0x49d,
            IppStatus::ErrorAccountLimitReached => 0x49e,
            IppStatus::ErrorAccountAuthorizationFailed => 0x49f,
            IppStatus::ErrorNotFetchable => 0x4a0,
            IppStatus::ErrorInternal => 0x500,
            IppStatus::ErrorOperationNotSupported => 0x501,
            IppStatus::ErrorServiceUnavailable => 0x502,
            IppStatus::ErrorVersionNotSupported => 0x503,
            IppStatus::ErrorDevice => 0x504,
            IppStatus::ErrorTemporary => 0x505,
            IppStatus::ErrorNotAcceptingJobs => 0x506,
            IppStatus::ErrorBusy => 0x507,
            IppStatus::ErrorJobCanceled => 0x508,
            IppStatus::ErrorMultipleJobsNotSupported => 0x509,
            IppStatus::ErrorPrinterIsDeactivated => 0x50a,
            IppStatus::ErrorTooManyJobs => 0x50b,
            IppStatus::ErrorTooManyDocuments => 0x50c,
            IppStatus::ErrorCupsAuthenticationCanceled => 0x1000,
            IppStatus::ErrorCupsPki => 0x1001,
            IppStatus::ErrorCupsUpgradeRequired => 0x1002,
        }
    }

    /// Reads a number back into the status it stands for; `None` for a number
    /// that stands for none.
    pub fn from_code(code: i32) -> (res: Option<IppStatus>)
        ensures
            res == Self::of_value(code as int),
    {
        if code == -1 {
            Some(IppStatus::CupsInvalid)
        } else if code == 0 {
            Some(IppStatus::SuccessfulOk)
        } else if code == 1 {
            Some(IppStatus::OkIgnoredOrSubstituted)
        } else if code == 2 {
            Some(IppStatus::OkConflicting)
        } else if code == 3 {
            Some(IppStatus::OkIgnoredSubscriptions)
        } else if code == 4 {
            Some(IppStatus::OkIgnoredNotifications)
        } else if code == 5 {
            Some(IppStatus::OkTooManyEvents)
        } else if code == 6 {
            Some(IppStatus::OkButCancelSubscription)
        } else if code == 7 {
            Some(IppStatus::OkEventsComplete)
        } else if code == 0x200 {
            Some(IppStatus::RedirectionOtherSite)
        } else if code == 0x280 {
            Some(IppStatus::CupsSeeOther)
        } else if code == 0x400 {
            Some(IppStatus::ErrorBadRequest)
        } else if code == 0x401 {
            Some(IppStatus::ErrorForbidden)
        } else if code == 0x402 {
            Some(IppStatus::ErrorNotAuthenticated)
        } else if code == 0x403 {
            Some(IppStatus::ErrorNotAuthorized)
        } else if code == 0x404 {
            Some(IppStatus::ErrorNotPossible)
        } else if code == 0x405 {
            Some(IppStatus::ErrorTimeout)
        } else if code == 0x406 {
            Some(IppStatus::ErrorNotFound)
        } else if code == 0x407 {
            Some(IppStatus::ErrorGone)
        } else if code == 0x408 {
            Some(IppStatus::ErrorRequestEntity)
        } else if code == 0x409 {
            Some(IppStatus::ErrorRequestValue)
        } else if code == 0x40a {
            Some(IppStatus::ErrorDocumentFormatNotSupported)
        } else if code == 0x40b {
            Some(IppStatus::ErrorAttributesOrValues)
        } else if code == 0x40c {
            Some(IppStatus::ErrorUriScheme)
        } else if code == 0x40d {
            Some(IppStatus::ErrorCharset)
        } else if code == 0x40e {
            Some(IppStatus::ErrorConflicting)
        } else if code == 0x40f {
            Some(IppStatus::ErrorCompressionNotSupported)
        } else if code == 0x410 {
            Some(IppStatus::ErrorCompressionError)
        } else if code == 0x411 {
            Some(IppStatus::ErrorDocumentFormatError)
        } else if code == 0x412 {
            Some(IppStatus::ErrorDocumentAccess)
        } else if code == 0x413 {
            Some(IppStatus::ErrorAttributesNotSettable)
        } else if code == 0x414 {
            Some(IppStatus::ErrorIgnoredAllSubscriptions)
        } else if code == 0x415 {
            Some(IppStatus::ErrorTooManySubscriptions)
        } else if code == 0x416 {
            Some(IppStatus::ErrorIgnoredAllNotifications)
        } else if code == 0x417 {
            Some(IppStatus::ErrorPrintSupportFileNotFound)
        } else if code == 0x418 {
            Some(IppStatus::ErrorDocumentPassword)
        } else if code == 0x419 {
            Some(IppStatus::ErrorDocumentPermission)
        } else if code == 0x41a {
            Some(IppStatus::ErrorDocumentSecurity)
        } else if code == 0x41b {
            Some(IppStatus::ErrorDocumentUnprintable)
        } else if code == 0x49c {
            Some(IppStatus::ErrorAccountInfoNeeded)
        } else if code == 0x49d {
            Some(IppStatus::ErrorAccountClosed)
        } else if code == 0x49e {
            Some(IppStatus::ErrorAccountLimitReached)
        } else if code == 0x49f {
            Some(IppStatus::ErrorAccountAuthorizationFailed)
        } else if code == 0x4a0 {
            Some(IppStatus::ErrorNotFetchable)
        } else if code == 0x500 {
            Some(IppStatus::ErrorInternal)
        } else if code == 0x501 {
            Some(IppStatus::ErrorOperationNotSupported)
        } else if code == 0x502 {
            Some(IppStatus::ErrorServiceUnavailable)
        } else if code == 0x503 {
            Some(IppStatus::ErrorVersionNotSupported)
        } else if code == 0x504 {
            Some(IppStatus::ErrorDevice)
        } else if code == 0x505 {
            Some(IppStatus::ErrorTemporary)
        } else if code == 0x506 {
            Some(IppStatus::ErrorNotAcceptingJobs)
        } else if code == 0x507 {
            Some(IppStatus::ErrorBusy)
        } else if code == 0x508 {
            Some(IppStatus::ErrorJobCanceled)
        } else if code == 0x509 {
            Some(IppStatus::ErrorMultipleJobsNotSupported)
        } else if code == 0x50a {
            Some(IppStatus::ErrorPrinterIsDeactivated)
        } else if code == 0x50b {
            Some(IppStatus::ErrorTooManyJobs)
        } else if code == 0x50c {
            Some(IppStatus::ErrorTooManyDocuments)
        } else if code == 0x1000 {
            Some(IppStatus::ErrorCupsAuthenticationCanceled)
        } else if code == 0x1001 {
            Some(IppStatus::ErrorCupsPki)
        } else if code == 0x1002 {
            Some(IppStatus::ErrorCupsUpgradeRequired)
        } else {
            None
        }
    }

    /// Reading back the number of a status gives that status.
    pub proof fn lemma_value_round_trip(self)
        ensures
            Self::of_value(self.value()) == Some(self),
    {
    }

    /// A number is read back only into the status that carries it, so no two
    /// of them share a number.
    pub proof fn lemma_of_value_exact(code: int)
        ensures
            Self::of_value(code) matches Some(v) ==> v.value() == code,
            Self::of_value(code) is None ==> forall|v: IppStatus| v.value() != code,
    {
    }
}

/// The highest number that still reports success.
pub const SUCCESS_THRESHOLD: i32 = 7;

/// A status number reports success: it is not above the threshold.
pub open spec fn is_success_code(code: int) -> bool {
    code <= SUCCESS_THRESHOLD
}

/// Whether a status number, as the transport reports it, tells of success.
/// The number need not be one that has a name.
pub fn status_is_success(code: i32) -> (res: bool)
    ensures
        res == is_success_code(code as int),
{
    code <= SUCCESS_THRESHOLD
}

impl PartialOrdSpecImpl for IppStatus {
    open spec fn obeys_partial_cmp_spec() -> bool {
        true
    }

    open spec fn partial_cmp_spec(&self, other: &IppStatus) -> Option<Ordering> {
        if self.value() < other.value() {
            Some(Ordering::Less)
        } else if self.value() > other.value() {
            Some(Ordering::Greater)
        } else {
            Some(Ordering::Equal)
        }
    }
}

impl PartialOrd for IppStatus {
    /// Statuses are ordered by their numbers.
    fn partial_cmp(&self, other: &IppStatus) -> (res: Option<Ordering>) {
        let a = self.code();
        let b = other.code();
        if a < b {
            Some(Ordering::Less)
        } else if a > b {
            Some(Ordering::Greater)
        } else {
            Some(Ordering::Equal)
        }
    }
}

impl IppStatus {
    /// Whether the status tells of success: whether it is not above
    /// `OkEventsComplete`.
    pub fn is_success(&self) -> (res: bool)
        ensures
            res == is_success_code(self.value()),
    {
        !(*self > IppStatus::OkEventsComplete)
    }

    /// The threshold is the number of `OkEventsComplete`.
    pub proof fn lemma_threshold()
        ensures
            IppStatus::OkEventsComplete.value() == SUCCESS_THRESHOLD,
    {
    }
}

/// A status number equal to the threshold still reports success; the next
/// number above it reports failure, and so does every number after that.
pub proof fn lemma_threshold_edge(code: int)
    ensures
        is_success_code(SUCCESS_THRESHOLD as int),
        !is_success_code(SUCCESS_THRESHOLD + 1),
        code > SUCCESS_THRESHOLD ==> !is_success_code(code),
        code <= SUCCESS_THRESHOLD ==> is_success_code(code),
{
}

} // verus!
