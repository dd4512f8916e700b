//! The request that makes a shared printer known to the local server, and
//! the reading of the server's answer to it.

use crate::cups::enums::ipp_operations::IppOp;
use crate::cups::enums::ipp_status::{is_success_code, status_is_success};
use crate::cups::enums::ipp_tag::IPPTag;
use crate::cups::ipp::{opt_str, Ipp, MessageView};
use crate::cups::ipp_attribute::{opt_text, AttributeView};
use crate::cups::uri::{
    fragment_escaped, is_too_long, join_uri, lemma_fragment_escaped_has_no_nul, parse_uri,
    parsed_uri, set_uri_password, set_uri_username, too_long, uri_joined, uri_with_password,
    uri_with_username,
};
use crate::text::has_nul;
use vstd::prelude::*;

verus! {

/// Why no registration request could be made.
#[derive(Debug, Clone, Copy, PartialEq, Eq, Structural)]
pub enum RegistrationError {
    /// The address of the printer is no absolute address.
    InvalidTargetUri,
    /// The address of the printer cannot carry a user name and a password.
    UserinfoNotSupported,
    /// The name of the printer does not make an address under the local base.
    InvalidPrinterName,
    /// A text is longer than an address can hold.
    TooLong,
    /// A value holds a NUL and cannot be sent.
    Encoding,
}

/// The address under which the local printers stand.
pub open spec fn local_base() -> Seq<char> {
    "ipp://localhost/printers/"@
}

/// The path to which a registration request is sent.
pub open spec fn admin_resource() -> Seq<char> {
    "/admin/"@
}

/// The path to which a registration request is sent.
pub fn registration_resource() -> (res: &'static str)
    ensures
        res@ == admin_resource(),
{
    "/admin/"
}

/// The address of the printer with the credentials in it, or the reason
/// why there is none.
pub open spec fn device_uri_of(
    target: Seq<char>,
    username: Seq<char>,
    password: Seq<char>,
) -> Result<Seq<char>, RegistrationError> {
    if too_long(target) || too_long(username) || too_long(password) {
        Err(RegistrationError::TooLong)
    } else {
        match parsed_uri(target) {
            None => Err(RegistrationError::InvalidTargetUri),
            Some(address) => if too_long(address) {
                Err(RegistrationError::TooLong)
            } else {
                match uri_with_username(address, username) {
                    None => Err(RegistrationError::UserinfoNotSupported),
                    Some(named) => if too_long(named) {
                        Err(RegistrationError::TooLong)
                    } else {
                        match uri_with_password(named, password) {
                            None => Err(RegistrationError::UserinfoNotSupported),
                            Some(device) => Ok(device),
                        }
                    },
                }
            },
        }
    }
}

/// The local address of a printer of this name, or the reason why there
/// is none.
pub open spec fn printer_uri_of(printer_name: Seq<char>) -> Result<Seq<char>, RegistrationError> {
    match uri_joined(local_base(), printer_name) {
        None => Err(RegistrationError::InvalidPrinterName),
        Some(address) => Ok(address),
    }
}

/// The registration request with these values, each attribute in its place.
pub open spec fn request_message(
    printer_uri: Seq<char>,
    device_uri: Seq<char>,
    location: Seq<char>,
    description: Seq<char>,
    ppd_name: Option<Seq<char>>,
) -> MessageView {
    let common = MessageView::fresh(IppOp::CupsAddModifyPrinter).with_string(
        IPPTag::Operation,
        IPPTag::Uri,
        Some("printer-uri"@),
        None,
        printer_uri,
    ).with_string(IPPTag::Printer, IPPTag::Uri, Some("device-uri"@), None, device_uri).with_string(
        IPPTag::Printer,
        IPPTag::Name,
        Some("printer-location"@),
        None,
        location,
    ).with_string(IPPTag::Printer, IPPTag::Name, Some("printer-info"@), None, description);
    match ppd_name {
        Some(name) => common.with_string(
            IPPTag::Printer,
            IPPTag::Name,
            Some("ppd-name"@),
            None,
            name,
        ),
        None => common,
    }
}

/// One of the values of a request cannot be sent.
pub open spec fn unsendable(
    printer_uri: Seq<char>,
    device_uri: Seq<char>,
    location: Seq<char>,
    description: Seq<char>,
    ppd_name: Option<Seq<char>>,
) -> bool {
    ||| has_nul(printer_uri)
    ||| has_nul(device_uri)
    ||| has_nul(location)
    ||| has_nul(description)
    ||| (ppd_name matches Some(name) && has_nul(name))
}

/// The request made of ready values, or the refusal to make it.
pub open spec fn request_of(
    printer_uri: Seq<char>,
    device_uri: Seq<char>,
    location: Seq<char>,
    description: Seq<char>,
    ppd_name: Option<Seq<char>>,
) -> Result<MessageView, RegistrationError> {
    if unsendable(printer_uri, device_uri, location, description, ppd_name) {
        Err(RegistrationError::Encoding)
    } else {
        Ok(request_message(printer_uri, device_uri, location, description, ppd_name))
    }
}

/// The whole registration: the request for a printer at `target`, opened
/// with the credentials, under the local name, with escaped location and
/// description and with the driver if one was chosen; or the first reason
/// why it cannot be made.
pub open spec fn registration_of(
    target: Seq<char>,
    username: Seq<char>,
    password: Seq<char>,
    printer_name: Seq<char>,
    location: Seq<char>,
    description: Seq<char>,
    ppd_name: Option<Seq<char>>,
) -> Result<MessageView, RegistrationError> {
    match device_uri_of(target, username, password) {
        Err(e) => Err(e),
        Ok(device) => match printer_uri_of(printer_name) {
            Err(e) => Err(e),
            Ok(printer) => request_of(
                printer,
                device,
                fragment_escaped(location),
                fragment_escaped(description),
                ppd_name,
            ),
        },
    }
}

/// What an outcome says, as mathematical values.
pub open spec fn outcome_view(res: Result<Ipp, RegistrationError>) -> Result<
    MessageView,
    RegistrationError,
> {
    match res {
        Ok(request) => Ok(request@),
        Err(e) => Err(e),
    }
}

/// The characters of a text that came back from an operation on addresses.
pub open spec fn text_result(res: Result<String, RegistrationError>) -> Result<
    Seq<char>,
    RegistrationError,
> {
    match res {
        Ok(text) => Ok(text@),
        Err(e) => Err(e),
    }
}

/// Puts user name and password into the address of the printer.
///
/// The address must be one that can carry them: it has a host, and its
/// scheme is not `file`. Texts over `MAX_URI_BYTES` are refused.
pub fn device_uri(target: &str, username: &str, password: &str) -> (res: Result<
    String,
    RegistrationError,
>)
    ensures
        text_result(res) == device_uri_of(target@, username@, password@),
{
    if is_too_long(target) || is_too_long(username) || is_too_long(password) {
        return Err(RegistrationError::TooLong);
    }
    let address = match parse_uri(target) {
        Some(address) => address,
        None => {
            return Err(RegistrationError::InvalidTargetUri);
        },
    };
    if is_too_long(address.as_str()) {
        return Err(RegistrationError::TooLong);
    }
    let named = match set_uri_username(address.as_str(), username) {
        Some(named) => named,
        None => {
            return Err(RegistrationError::UserinfoNotSupported);
        },
    };
    if is_too_long(named.as_str()) {
        return Err(RegistrationError::TooLong);
    }
    match set_uri_password(named.as_str(), password) {
        Some(device) => Ok(device),
        None => Err(RegistrationError::UserinfoNotSupported),
    }
}

/// The local address under which a printer of this name is created. The
/// name is escaped by the joining, not before it.
pub fn printer_uri(printer_name: &str) -> (res: Result<String, RegistrationError>)
    ensures
        text_result(res) == printer_uri_of(printer_name@),
{
    match join_uri("ipp://localhost/printers/", printer_name) {
        Some(address) => Ok(address),
        None => Err(RegistrationError::InvalidPrinterName),
    }
}

/// Makes the registration request of values that are ready to be sent:
/// both addresses in their written form, location and description escaped.
///
/// The request is refused if one of the values holds a NUL; otherwise it
/// holds, in this order, `printer-uri` in the operation group, then
/// `device-uri`, `printer-location`, `printer-info` and, where a driver is
/// named, `ppd-name` in the printer group.
pub fn registration_request(
    printer_uri: &str,
    device_uri: &str,
    location: &str,
    description: &str,
    ppd_name: Option<&str>,
) -> (res: Result<Ipp, RegistrationError>)
    ensures
        outcome_view(res) == request_of(
            printer_uri@,
            device_uri@,
            location@,
            description@,
            opt_str(ppd_name),
        ),
{
    let mut request = Ipp::new(IppOp::CupsAddModifyPrinter);
    if request.add_string(
        IPPTag::Operation,
        IPPTag::Uri,
        Some("printer-uri"),
        None,
        printer_uri,
    ).is_none() {
        return Err(RegistrationError::Encoding);
    }
    if request.add_string(IPPTag::Printer, IPPTag::Uri, Some("device-uri"), None, device_uri).is_none() {
        return Err(RegistrationError::Encoding);
    }
    if request.add_string(
        IPPTag::Printer,
        IPPTag::Name,
        Some("printer-location"),
        None,
        location,
    ).is_none() {
        return Err(RegistrationError::Encoding);
    }
    if request.add_string(
        IPPTag::Printer,
        IPPTag::Name,
        Some("printer-info"),
        None,
        description,
    ).is_none() {
        return Err(RegistrationError::Encoding);
    }
    if let Some(name) = ppd_name {
        if request.add_string(IPPTag::Printer, IPPTag::Name, Some("ppd-name"), None, name).is_none() {
            return Err(RegistrationError::Encoding);
        }
    }
    Ok(request)
}

/// A printer whose address cannot carry a user name and a password is not
/// registered: the registration ends in an error, and there is no request
/// that could be sent.
pub proof fn lemma_no_request_without_userinfo(
    target: Seq<char>,
    username: Seq<char>,
    password: Seq<char>,
    printer_name: Seq<char>,
    location: Seq<char>,
    description: Seq<char>,
    ppd_name: Option<Seq<char>>,
)
    requires
        parsed_uri(target) matches Some(address) && (uri_with_username(address, username) matches Some(
            named,
        ) ==> uri_with_password(named, password) is None),
    ensures
        registration_of(
            target,
            username,
            password,
            printer_name,
            location,
            description,
            ppd_name,
        ) matches Err(e) && (e == RegistrationError::UserinfoNotSupported || e
            == RegistrationError::TooLong),
{
}

/// Location and description never stand in the way of a request, whatever
/// the user typed: escaped, they hold no NUL. A request of escaped texts is
/// refused only for one of the addresses or for the name of the driver.
pub proof fn lemma_escaped_texts_are_sendable(
    printer_uri: Seq<char>,
    device_uri: Seq<char>,
    location: Seq<char>,
    description: Seq<char>,
    ppd_name: Option<Seq<char>>,
)
    ensures
        request_of(
            printer_uri,
            device_uri,
            fragment_escaped(location),
            fragment_escaped(description),
            ppd_name,
        ) is Err <==> has_nul(printer_uri) || has_nul(device_uri) || (ppd_name matches Some(name)
            && has_nul(name)),
{
    lemma_fragment_escaped_has_no_nul(location);
    lemma_fragment_escaped_has_no_nul(description);
}

/// A request that is made holds its attributes in the fixed order: the
/// local address in the operation group, then, in the printer group, the
/// address of the device, location, description and, with a driver, its
/// name. Each has one value and no language.
pub proof fn lemma_request_shape(
    printer_uri: Seq<char>,
    device_uri: Seq<char>,
    location: Seq<char>,
    description: Seq<char>,
    ppd_name: Option<Seq<char>>,
)
    requires
        !unsendable(printer_uri, device_uri, location, description, ppd_name),
    ensures
        ({
            let m = request_message(printer_uri, device_uri, location, description, ppd_name);
            &&& m.operation == IppOp::CupsAddModifyPrinter
            &&& m.current is None
            &&& m.attributes.len() == if ppd_name is Some {
                5int
            } else {
                4int
            }
            &&& m.attributes[0] == AttributeView::single(
                IPPTag::Operation,
                IPPTag::Uri,
                Some("printer-uri"@),
                None,
                printer_uri,
            )
            &&& m.attributes[1] == AttributeView::single(
                IPPTag::Printer,
                IPPTag::Uri,
                Some("device-uri"@),
                None,
                device_uri,
            )
            &&& m.attributes[2] == AttributeView::single(
                IPPTag::Printer,
                IPPTag::Name,
                Some("printer-location"@),
                None,
                location,
            )
            &&& m.attributes[3] == AttributeView::single(
                IPPTag::Printer,
                IPPTag::Name,
                Some("printer-info"@),
                None,
                description,
            )
            &&& ppd_name matches Some(name) ==> m.attributes[4] == AttributeView::single(
                IPPTag::Printer,
                IPPTag::Name,
                Some("ppd-name"@),
                None,
                name,
            )
        }),
{
}

/// What is said of a failure for which the server gave no text.
pub open spec fn generic_failure() -> Seq<char> {
    "CUPS request failed"@
}

/// What is told of a request after the server has answered: nothing on
/// success, on failure the text that the server gave, or a general one in
/// its place.
pub open spec fn result_of(status: int, status_text: Option<Seq<char>>) -> Result<(), Seq<char>> {
    if is_success_code(status) {
        Ok(())
    } else {
        match status_text {
            Some(text) => Err(text),
            None => Err(generic_failure()),
        }
    }
}

/// The characters of the text of a failure.
pub open spec fn result_view(res: Result<(), String>) -> Result<(), Seq<char>> {
    match res {
        Ok(()) => Ok(()),
        Err(text) => Err(text@),
    }
}

/// Reads the outcome of a request off the status that the transport
/// reports after it. A status up to the threshold is a success; any other
/// is a failure, told with the server's text where there is one. Nothing
/// is tried again.
pub fn registration_result(status: i32, status_text: Option<String>) -> (res: Result<(), String>)
    ensures
        result_view(res) == result_of(status as int, opt_text(status_text)),
{
    if status_is_success(status) {
        Ok(())
    } else {
        match status_text {
            Some(text) => Err(text),
            None => Err("CUPS request failed".to_owned()),
        }
    }
}

} // verus!
