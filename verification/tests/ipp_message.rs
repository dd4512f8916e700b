use samba_printer_finder::cups::c_interop::IppT;
use samba_printer_finder::cups::enums::ipp_operations::IppOp;
use samba_printer_finder::cups::enums::ipp_tag::IPPTag;
use samba_printer_finder::cups::ipp::Ipp;
use samba_printer_finder::cups::ipp_attribute::IppAttribute;

fn walk(message: &mut Ipp) -> Vec<IppAttribute> {
    let mut seen = Vec::new();
    let mut handle = message.get_first_attribute().cloned();
    while let Some(attribute) = handle {
        seen.push(attribute);
        handle = message.get_next_attribute().cloned();
    }
    seen
}

fn attribute(group: IPPTag, tag: IPPTag, name: Option<&str>, values: &[&str]) -> IppAttribute {
    IppAttribute {
        group_tag: group,
        value_tag: tag,
        name: name.map(|n| n.to_string()),
        language: None,
        values: values.iter().map(|v| v.to_string()).collect(),
    }
}

#[test]
fn fresh_request_has_no_attributes() {
    let mut request = Ipp::new(IppOp::CupsGetPpds);
    assert_eq!(request.operation(), IppOp::CupsGetPpds);
    assert_eq!(request.len(), 0);
    assert!(request.get_first_attribute().is_none());
    assert!(request.get_next_attribute().is_none());
}

#[test]
fn replay_returns_what_was_added_in_order() {
    let mut request = Ipp::new(IppOp::CupsAddModifyPrinter);
    request.add_string(IPPTag::Operation, IPPTag::Uri, Some("printer-uri"), None, "ipp://localhost/printers/p");
    request.add_string(IPPTag::Printer, IPPTag::Name, Some("printer-info"), Some("en"), "front desk");
    request.add_string(IPPTag::Job, IPPTag::Keyword, None, None, "");
    let seen = walk(&mut request);
    assert_eq!(
        seen,
        vec![
            IppAttribute {
                group_tag: IPPTag::Operation,
                value_tag: IPPTag::Uri,
                name: Some("printer-uri".to_string()),
                language: None,
                values: vec!["ipp://localhost/printers/p".to_string()],
            },
            IppAttribute {
                group_tag: IPPTag::Printer,
                value_tag: IPPTag::Name,
                name: Some("printer-info".to_string()),
                language: Some("en".to_string()),
                values: vec!["front desk".to_string()],
            },
            IppAttribute {
                group_tag: IPPTag::Job,
                value_tag: IPPTag::Keyword,
                name: None,
                language: None,
                values: vec!["".to_string()],
            },
        ]
    );
}

#[test]
fn add_string_hands_back_the_new_attribute() {
    let mut request = Ipp::new(IppOp::PrintJob);
    let handle = request.add_string(IPPTag::Operation, IPPTag::Charset, Some("attributes-charset"), None, "utf-8");
    let added = handle.expect("the value can be sent");
    assert_eq!(added.get_group_tag(), IPPTag::Operation);
    assert_eq!(added.value_tag, IPPTag::Charset);
    assert_eq!(added.get_name(), Some("attributes-charset".to_string()));
    assert_eq!(added.get_string(), Some("utf-8".to_string()));
    assert_eq!(request.len(), 1);
}

#[test]
fn add_string_refuses_a_value_with_nul() {
    let mut request = Ipp::new(IppOp::PrintJob);
    request.add_string(IPPTag::Operation, IPPTag::Name, Some("first"), None, "kept");
    assert!(request
        .add_string(IPPTag::Operation, IPPTag::Name, Some("second"), None, "bad\0value")
        .is_none());
    assert_eq!(request.len(), 1);
    let seen = walk(&mut request);
    assert_eq!(seen.len(), 1);
    assert_eq!(seen[0].get_name(), Some("first".to_string()));
}

#[test]
fn add_string_keeps_a_name_as_given() {
    let mut request = Ipp::new(IppOp::PrintJob);
    let handle = request.add_string(IPPTag::Operation, IPPTag::Name, Some("na\0me"), Some("l\0"), "v");
    let added = handle.expect("only the value decides");
    assert_eq!(added.get_name(), Some("na\0me".to_string()));
    assert_eq!(added.language, Some("l\0".to_string()));
}

#[test]
fn next_before_first_gives_nothing() {
    let mut request = Ipp::new(IppOp::PrintJob);
    request.add_string(IPPTag::Operation, IPPTag::Name, Some("a"), None, "1");
    assert!(request.get_next_attribute().is_none());
    assert!(request.get_first_attribute().is_some());
}

#[test]
fn walk_ends_once_and_stays_ended() {
    let mut request = Ipp::new(IppOp::PrintJob);
    request.add_string(IPPTag::Operation, IPPTag::Name, Some("a"), None, "1");
    request.add_string(IPPTag::Operation, IPPTag::Name, Some("b"), None, "2");
    assert_eq!(request.get_first_attribute().unwrap().get_string(), Some("1".to_string()));
    assert_eq!(request.get_next_attribute().unwrap().get_string(), Some("2".to_string()));
    assert!(request.get_next_attribute().is_none());
    assert!(request.get_next_attribute().is_none());
}

#[test]
fn first_attribute_begins_the_walk_anew() {
    let mut request = Ipp::new(IppOp::PrintJob);
    request.add_string(IPPTag::Operation, IPPTag::Name, Some("a"), None, "1");
    request.add_string(IPPTag::Operation, IPPTag::Name, Some("b"), None, "2");
    assert_eq!(walk(&mut request).len(), 2);
    assert_eq!(walk(&mut request).len(), 2);
    assert_eq!(request.get_first_attribute().unwrap().get_name(), Some("a".to_string()));
}

#[test]
fn from_raw_of_nothing_is_nothing() {
    assert!(Ipp::from_raw(None).is_none());
}

#[test]
fn raw_round_trip_keeps_the_attributes() {
    let raw = IppT {
        operation: IppOp::CupsGetPpds,
        attributes: vec![
            attribute(IPPTag::Printer, IPPTag::Name, Some("ppd-name"), &["drv"]),
            attribute(IPPTag::Printer, IPPTag::Zero, None, &[]),
        ],
    };
    let mut message = Ipp::from_raw(Some(raw)).expect("a message came");
    assert_eq!(message.operation(), IppOp::CupsGetPpds);
    assert_eq!(message.len(), 2);
    assert!(message.get_next_attribute().is_none());
    assert_eq!(walk(&mut message).len(), 2);
    let back = message.into_raw();
    assert_eq!(
        back,
        IppT {
            operation: IppOp::CupsGetPpds,
            attributes: vec![
                attribute(IPPTag::Printer, IPPTag::Name, Some("ppd-name"), &["drv"]),
                attribute(IPPTag::Printer, IPPTag::Zero, None, &[]),
            ],
        }
    );
}

#[test]
fn string_value_is_the_first_of_many() {
    let many = attribute(IPPTag::Printer, IPPTag::Keyword, Some("sides"), &["one", "two", "three"]);
    assert_eq!(many.get_string(), Some("one".to_string()));
    let none = attribute(IPPTag::Printer, IPPTag::Keyword, Some("sides"), &[]);
    assert_eq!(none.get_string(), None);
}

#[test]
fn separator_has_no_name() {
    let separator = attribute(IPPTag::Printer, IPPTag::Zero, None, &[]);
    assert_eq!(separator.get_name(), None);
    assert_eq!(separator.get_group_tag(), IPPTag::Printer);
}

#[test]
fn attribute_clone_is_equal() {
    let original = attribute(IPPTag::Job, IPPTag::Text, Some("note"), &["a", "b"]);
    assert_eq!(original.clone(), original);
}
