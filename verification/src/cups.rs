//! Requests to a CUPS print server and what is read out of its answers.

pub mod c_interop;
pub mod catalog;
pub mod enums;
pub mod ipp;
pub mod ipp_attribute;
pub mod manufacturers;
pub mod registration;
pub mod uri;

use crate::cups::c_interop::{attribute_views, IppT};
use crate::cups::catalog::{absorb, catalog_of, closes_record, pending, value_or_empty, PpdView};
use crate::cups::enums::http_encryption::HttpEncryption;
use crate::cups::enums::ipp_operations::IppOp;
use crate::cups::enums::ipp_status::{is_success_code, status_is_success};
use crate::cups::enums::ipp_tag::IPPTag;
use crate::cups::enums::protocol_families::PF;
use crate::cups::ipp::{Ipp, MessageView};
use crate::cups::ipp_attribute::IppAttribute;
use crate::cups::registration::{
    device_uri, outcome_view, printer_uri, registration_of, registration_request,
    RegistrationError,
};
use crate::cups::uri::encode_fragment;
use crate::gui::printer_setup_dialog::PrinterSetupResult;
use crate::smb::SambaCredentials;
use crate::text::{has_nul, str_eq};
use vstd::prelude::*;

verus! {

/// The description of one printer driver that the server offers.
#[derive(Debug, PartialEq, Eq)]
pub struct PpdInfo {
    /// The name under which the driver is asked for.
    pub name: String,
    /// Manufacturer and model in one text, as shown to the user.
    pub make_and_model: String,
    /// The manufacturer alone.
    pub make: String,
    /// The model alone.
    pub product: String,
}

impl View for PpdInfo {
    type V = PpdView;

    open spec fn view(&self) -> PpdView {
        PpdView {
            name: self.name@,
            make_and_model: self.make_and_model@,
            make: self.make@,
            product: self.product@,
        }
    }
}

impl Default for PpdInfo {
    /// The record with every field empty.
    fn default() -> (res: Self)
        ensures
            res@ == PpdView::empty(),
    {
        PpdInfo {
            name: String::new(),
            make_and_model: String::new(),
            make: String::new(),
            product: String::new(),
        }
    }
}

impl Clone for PpdInfo {
    fn clone(&self) -> (res: Self)
        ensures
            res == *self,
    {
        PpdInfo {
            name: self.name.clone(),
            make_and_model: self.make_and_model.clone(),
            make: self.make.clone(),
            product: self.product.clone(),
        }
    }
}

/// What each record of a list says.
pub open spec fn ppd_views(list: Seq<PpdInfo>) -> Seq<PpdView> {
    list.map_values(|p: PpdInfo| p@)
}

/// The first value of an attribute, or the empty text if it has none.
fn first_value(a: &IppAttribute) -> (res: String)
    ensures
        res@ == value_or_empty(a@),
{
    match a.get_string() {
        Some(v) => v,
        None => String::new(),
    }
}

/// Reads one attribute into the record in the making. The answer says
/// whether the attribute closed the record.
pub fn read_attribute(current: &mut PpdInfo, a: &IppAttribute) -> (res: bool)
    ensures
        final(current)@ == absorb(old(current)@, a@),
        res == closes_record(a@),
{
    if a.get_group_tag() != IPPTag::Printer {
        return false;
    }
    match &a.name {
        None => false,
        Some(name) => {
            if str_eq(name.as_str(), "ppd-name") {
                *current = PpdInfo::default();
                current.name = first_value(a);
                false
            } else if str_eq(name.as_str(), "ppd-make-and-model") {
                current.make_and_model = first_value(a);
                false
            } else if str_eq(name.as_str(), "ppd-make") {
                current.make = first_value(a);
                false
            } else if str_eq(name.as_str(), "ppd-product") {
                current.product = first_value(a);
                true
            } else {
                false
            }
        },
    }
}

/// The keeper of the driver catalog.
#[derive(Debug)]
pub struct CupsManager {
    /// The drivers that the server offered, in the order of its answer.
    pub ppds: Vec<PpdInfo>,
}

/// How the connection to the print server is opened.
#[derive(Debug, PartialEq, Eq)]
pub struct ConnectionSettings {
    pub host: String,
    pub port: i32,
    pub family: PF,
    pub encryption: HttpEncryption,
    pub blocking: bool,
    /// How long the opening may take, in milliseconds.
    pub timeout_ms: i32,
}

/// The path to which the request for the driver list is sent.
pub open spec fn listing_resource() -> Seq<char> {
    "/"@
}

/// The request for the list of drivers.
pub open spec fn listing_request() -> MessageView {
    MessageView::fresh(IppOp::CupsGetPpds).with_string(
        IPPTag::Operation,
        IPPTag::Uri,
        Some("printer-uri"@),
        None,
        "ipp://localhost/"@,
    )
}

/// The record is of this manufacturer and this model.
pub open spec fn is_choice(record: PpdView, manufacturer: Seq<char>, model: Seq<char>) -> bool {
    record.make == manufacturer && record.product == model
}

/// The name of a driver that may be absent.
pub open spec fn driver_name(ppd: Option<&PpdInfo>) -> Option<Seq<char>> {
    match ppd {
        Some(p) => Some(p.name@),
        None => None,
    }
}

impl CupsManager {
    /// A manager whose catalog is still empty.
    pub fn new() -> (res: Self)
        ensures
            res.ppds@ == Seq::<PpdInfo>::empty(),
    {
        CupsManager { ppds: Vec::new() }
    }

    /// The settings with which the server is reached: the host that is
    /// configured, or the empty name if none is, on the given port, with
    /// encryption only on request, blocking, and half a minute to connect.
    pub fn connection_settings(server: Option<String>, port: i32) -> (res: ConnectionSettings)
        ensures
            res.host@ == match server {
                Some(name) => name@,
                None => Seq::<char>::empty(),
            },
            res.port == port,
            res.family == PF::Unspec,
            res.encryption == HttpEncryption::IfRequested,
            res.blocking,
            res.timeout_ms == 30000,
    {
        let host = match server {
            Some(name) => name,
            None => String::new(),
        };
        ConnectionSettings {
            host,
            port,
            family: PF::Unspec,
            encryption: HttpEncryption::IfRequested,
            blocking: true,
            timeout_ms: 30000,
        }
    }

    /// The path to which the request for the driver list is sent.
    pub fn ppd_resource() -> (res: &'static str)
        ensures
            res@ == listing_resource(),
    {
        "/"
    }

    /// The request that asks the server for its drivers. It is sent to `/`.
    pub fn ppd_request() -> (res: Ipp)
        ensures
            res@ == listing_request(),
            res@.attributes.len() == 1,
    {
        let mut request = Ipp::new(IppOp::CupsGetPpds);
        proof {
            reveal_strlit("ipp://localhost/");
            assert(!has_nul("ipp://localhost/"@));
        }
        request.add_string(
            IPPTag::Operation,
            IPPTag::Uri,
            Some("printer-uri"),
            None,
            "ipp://localhost/",
        );
        request
    }

    /// Takes the answer to the request for the driver list into the
    /// catalog.
    ///
    /// Without an answer, or with a status that tells of a failure, the
    /// catalog stays as it is and the result is `false`. Otherwise the
    /// records of the answer are put behind those already held.
    pub fn fetch_ppds(&mut self, response: Option<IppT>, status: i32) -> (res: bool)
        ensures
            res == (response is Some && is_success_code(status as int)),
            !res ==> final(self).ppds@ == old(self).ppds@,
            res ==> ppd_views(final(self).ppds@) == ppd_views(old(self).ppds@) + catalog_of(
                attribute_views(response->Some_0.attributes@),
            ),
    {
        if !status_is_success(status) {
            return false;
        }
        match Ipp::from_raw(response) {
            Some(mut answer) => {
                self.parse_response(&mut answer);
                true
            },
            None => false,
        }
    }

    /// The first record of the catalog that is of this manufacturer and
    /// this model, if there is one.
    pub fn find_ppd(&self, manufacturer: &str, model: &str) -> (res: Option<&PpdInfo>)
        ensures
            match res {
                Some(found) => exists|k: int|
                    0 <= k < self.ppds@.len() && *found == #[trigger] self.ppds@[k] && is_choice(
                        self.ppds@[k]@,
                        manufacturer@,
                        model@,
                    ) && forall|j: int|
                        0 <= j < k ==> !is_choice((#[trigger] self.ppds@[j])@, manufacturer@, model@),
                None => forall|k: int|
                    0 <= k < self.ppds@.len() ==> !is_choice(
                        (#[trigger] self.ppds@[k])@,
                        manufacturer@,
                        model@,
                    ),
            },
    {
        let mut k: usize = 0;
        while k < self.ppds.len()
            invariant
                k <= self.ppds.len(),
                forall|j: int|
                    0 <= j < k ==> !is_choice((#[trigger] self.ppds@[j])@, manufacturer@, model@),
            decreases self.ppds.len() - k,
        {
            let record = &self.ppds[k];
            if str_eq(record.make.as_str(), manufacturer) && str_eq(record.product.as_str(), model) {
                return Some(record);
            }
            k += 1;
        }
        None
    }

    /// Makes the request that registers the printer at `url` with the
    /// local server.
    ///
    /// The credentials go into the address of the printer, which must be
    /// one that can carry them. The local address is the printer's name
    /// joined to the local base. Location and description are escaped. The
    /// driver is named only if one is given. The request is to be sent to
    /// `/admin/`; on an error there is no request to send.
    pub fn connect_to_printer(
        &self,
        creds: SambaCredentials,
        url: &str,
        setup: &PrinterSetupResult,
        ppd: Option<&PpdInfo>,
    ) -> (res: Result<Ipp, RegistrationError>)
        ensures
            outcome_view(res) == registration_of(
                url@,
                creds.username@,
                creds.password@,
                setup.printer_name@,
                setup.location@,
                setup.description@,
                driver_name(ppd),
            ),
    {
        let device = match device_uri(url, creds.username.as_str(), creds.password.as_str()) {
            Ok(device) => device,
            Err(e) => {
                return Err(e);
            },
        };
        let printer = match printer_uri(setup.printer_name.as_str()) {
            Ok(printer) => printer,
            Err(e) => {
                return Err(e);
            },
        };
        let location = encode_fragment(setup.location.as_str());
        let description = encode_fragment(setup.description.as_str());
        let name = match ppd {
            Some(p) => Some(p.name.as_str()),
            None => None,
        };
        registration_request(
            printer.as_str(),
            device.as_str(),
            location.as_str(),
            description.as_str(),
            name,
        )
    }

    /// Reads the driver records out of an answer and puts them behind
    /// those that the catalog holds already.
    ///
    /// The answer is walked once from its first attribute to its last,
    /// wherever an earlier walk has stopped. A record that no
    /// `ppd-product` closes before the answer ends is not taken up.
    pub fn parse_response(&mut self, response: &mut Ipp)
        ensures
            ppd_views(final(self).ppds@) == ppd_views(old(self).ppds@) + catalog_of(
                old(response)@.attributes,
            ),
            final(response)@.attributes == old(response)@.attributes,
            final(response)@.operation == old(response)@.operation,
            final(response)@.current is None,
    {
        let ghost attrs = response@.attributes;
        let ghost before = ppd_views(self.ppds@);
        let mut current = PpdInfo::default();
        let mut started = false;
        let ghost mut done: int = 0;
        assert(attrs.take(0) =~= Seq::empty());
        assert(before + catalog_of(attrs.take(0)) =~= before);
        loop
            invariant_except_break
                !started ==> done == 0,
                started ==> done >= 1 && response@.current == Some(done - 1),
            invariant
                response@.attributes == attrs,
                response@.operation == old(response)@.operation,
                0 <= done <= attrs.len(),
                current@ == pending(attrs.take(done)),
                ppd_views(self.ppds@) == before + catalog_of(attrs.take(done)),
            ensures
                done == attrs.len(),
                response@.current is None,
            decreases attrs.len() - done + if started { 0int } else { 1int },
        {
            let handle = if started {
                response.get_next_attribute()
            } else {
                response.get_first_attribute()
            };
            started = true;
            match handle {
                None => {
                    break ;
                },
                Some(a) => {
                    assert(a@ == attrs[done]);
                    assert(attrs.take(done + 1).drop_last() =~= attrs.take(done));
                    let closed = read_attribute(&mut current, a);
                    if closed {
                        let ghost held = self.ppds@;
                        let record = current.clone();
                        self.ppds.push(record);
                        assert(ppd_views(self.ppds@) =~= ppd_views(held).push(current@));
                    }
                    proof {
                        done = done + 1;
                    }
                },
            }
        }
        assert(attrs.take(done) =~= attrs);
    }
}

} // verus!
