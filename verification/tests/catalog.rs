use samba_printer_finder::cups::c_interop::IppT;
use samba_printer_finder::cups::enums::ipp_operations::IppOp;
use samba_printer_finder::cups::enums::ipp_tag::IPPTag;
use samba_printer_finder::cups::ipp::Ipp;
use samba_printer_finder::cups::ipp_attribute::IppAttribute;
use samba_printer_finder::cups::manufacturers::{group_by_manufacturer, ManufacturerGroup, ModelEntry};
use samba_printer_finder::cups::{read_attribute, CupsManager, PpdInfo};

fn printer(name: &str, value: &str) -> IppAttribute {
    IppAttribute {
        group_tag: IPPTag::Printer,
        value_tag: IPPTag::Text,
        name: Some(name.to_string()),
        language: None,
        values: vec![value.to_string()],
    }
}

fn other(group: IPPTag, name: Option<&str>, value: &str) -> IppAttribute {
    IppAttribute {
        group_tag: group,
        value_tag: IPPTag::Text,
        name: name.map(|n| n.to_string()),
        language: None,
        values: vec![value.to_string()],
    }
}

fn answer(attributes: Vec<IppAttribute>) -> Ipp {
    Ipp::from_raw(Some(IppT { operation: IppOp::CupsGetPpds, attributes })).unwrap()
}

fn record(name: &str, make_and_model: &str, make: &str, product: &str) -> PpdInfo {
    PpdInfo {
        name: name.to_string(),
        make_and_model: make_and_model.to_string(),
        make: make.to_string(),
        product: product.to_string(),
    }
}

fn two_records() -> Vec<IppAttribute> {
    vec![
        printer("ppd-name", "drv1"),
        printer("ppd-make-and-model", "Acme LaserX"),
        printer("ppd-make", "Acme"),
        printer("ppd-product", "LaserX"),
        printer("ppd-name", "drv2"),
        printer("ppd-make", "Acme"),
        printer("ppd-product", "InkY"),
    ]
}

fn parsed(attributes: Vec<IppAttribute>) -> Vec<PpdInfo> {
    let mut manager = CupsManager::new();
    let mut response = answer(attributes);
    manager.parse_response(&mut response);
    manager.ppds
}

#[test]
fn new_manager_has_an_empty_catalog() {
    assert!(CupsManager::new().ppds.is_empty());
}

#[test]
fn literal_stream_gives_two_records() {
    assert_eq!(
        parsed(two_records()),
        vec![record("drv1", "Acme LaserX", "Acme", "LaserX"), record("drv2", "", "Acme", "InkY")]
    );
}

#[test]
fn trailing_partial_record_is_dropped() {
    let mut stream = two_records();
    stream.push(printer("ppd-name", "drv3"));
    stream.push(printer("ppd-make", "Brand"));
    assert_eq!(
        parsed(stream),
        vec![record("drv1", "Acme LaserX", "Acme", "LaserX"), record("drv2", "", "Acme", "InkY")]
    );
}

#[test]
fn only_a_partial_record_gives_nothing() {
    assert!(parsed(vec![printer("ppd-name", "drv3"), printer("ppd-make", "Brand")]).is_empty());
}

#[test]
fn empty_answer_gives_nothing() {
    assert!(parsed(vec![]).is_empty());
}

#[test]
fn attributes_of_other_groups_change_nothing() {
    let plain = parsed(two_records());
    let mut woven = Vec::new();
    woven.push(other(IPPTag::Operation, Some("attributes-charset"), "utf-8"));
    for (i, a) in two_records().into_iter().enumerate() {
        woven.push(a);
        woven.push(other(IPPTag::Job, Some("ppd-name"), "not a driver"));
        if i % 2 == 0 {
            woven.push(other(IPPTag::Operation, Some("ppd-product"), "not a product"));
        }
    }
    woven.push(other(IPPTag::Subscription, None, ""));
    assert_eq!(parsed(woven), plain);
}

#[test]
fn separators_and_unknown_names_are_skipped() {
    let stream = vec![
        printer("ppd-name", "drv1"),
        other(IPPTag::Printer, None, "separator"),
        printer("ppd-natural-language", "en"),
        printer("ppd-make", "Acme"),
        printer("ppd-device-id", "MFG:Acme;"),
        printer("ppd-product", "LaserX"),
    ];
    assert_eq!(parsed(stream), vec![record("drv1", "", "Acme", "LaserX")]);
}

#[test]
fn product_without_name_keeps_the_fields_so_far() {
    let stream = vec![
        printer("ppd-name", "drv1"),
        printer("ppd-make", "Acme"),
        printer("ppd-product", "One"),
        printer("ppd-product", "Two"),
    ];
    assert_eq!(
        parsed(stream),
        vec![record("drv1", "", "Acme", "One"), record("drv1", "", "Acme", "Two")]
    );
}

#[test]
fn name_resets_the_record_in_the_making() {
    let stream = vec![
        printer("ppd-make", "Old"),
        printer("ppd-make-and-model", "Old Thing"),
        printer("ppd-name", "drv"),
        printer("ppd-product", "P"),
    ];
    assert_eq!(parsed(stream), vec![record("drv", "", "", "P")]);
}

#[test]
fn attribute_without_value_gives_an_empty_field() {
    let mut nameless = printer("ppd-name", "x");
    nameless.values.clear();
    let stream = vec![nameless, printer("ppd-product", "P")];
    assert_eq!(parsed(stream), vec![record("", "", "", "P")]);
}

#[test]
fn only_the_first_value_is_read() {
    let mut many = printer("ppd-product", "first");
    many.values.push("second".to_string());
    let stream = vec![printer("ppd-name", "drv"), many];
    assert_eq!(parsed(stream), vec![record("drv", "", "", "first")]);
}

#[test]
fn parsing_appends_to_what_is_held() {
    let mut manager = CupsManager::new();
    manager.ppds.push(record("old", "Old One", "Old", "One"));
    let mut response = answer(two_records());
    manager.parse_response(&mut response);
    assert_eq!(manager.ppds.len(), 3);
    assert_eq!(manager.ppds[0], record("old", "Old One", "Old", "One"));
    assert_eq!(manager.ppds[2], record("drv2", "", "Acme", "InkY"));
}

#[test]
fn parsing_walks_from_the_start_and_leaves_the_answer() {
    let mut manager = CupsManager::new();
    let mut response = answer(two_records());
    response.get_first_attribute();
    response.get_next_attribute();
    response.get_next_attribute();
    manager.parse_response(&mut response);
    assert_eq!(manager.ppds.len(), 2);
    assert!(response.get_next_attribute().is_none());
    assert_eq!(response.len(), 7);
}

#[test]
fn read_attribute_tells_when_a_record_closes() {
    let mut current = PpdInfo::default();
    assert!(!read_attribute(&mut current, &printer("ppd-name", "drv")));
    assert!(!read_attribute(&mut current, &printer("ppd-make", "Acme")));
    assert!(!read_attribute(&mut current, &other(IPPTag::Job, Some("ppd-product"), "x")));
    assert!(read_attribute(&mut current, &printer("ppd-product", "P")));
    assert_eq!(current, record("drv", "", "Acme", "P"));
}

#[test]
fn default_record_is_empty() {
    assert_eq!(PpdInfo::default(), record("", "", "", ""));
}

#[test]
fn fetch_without_answer_fails_and_keeps_the_catalog() {
    let mut manager = CupsManager::new();
    manager.ppds.push(record("old", "Old One", "Old", "One"));
    assert!(!manager.fetch_ppds(None, 0));
    assert_eq!(manager.ppds, vec![record("old", "Old One", "Old", "One")]);
}

#[test]
fn fetch_with_failure_status_keeps_the_catalog() {
    let mut manager = CupsManager::new();
    let raw = IppT { operation: IppOp::CupsGetPpds, attributes: two_records() };
    assert!(!manager.fetch_ppds(Some(raw), 0x0400));
    assert!(manager.ppds.is_empty());
}

#[test]
fn fetch_with_answer_fills_the_catalog() {
    let mut manager = CupsManager::new();
    let raw = IppT { operation: IppOp::CupsGetPpds, attributes: two_records() };
    assert!(manager.fetch_ppds(Some(raw), 0));
    assert_eq!(manager.ppds.len(), 2);
}

#[test]
fn listing_request_has_one_attribute() {
    let mut request = CupsManager::ppd_request();
    assert_eq!(request.operation(), IppOp::CupsGetPpds);
    assert_eq!(request.len(), 1);
    let first = request.get_first_attribute().unwrap();
    assert_eq!(first.group_tag, IPPTag::Operation);
    assert_eq!(first.value_tag, IPPTag::Uri);
    assert_eq!(first.name, Some("printer-uri".to_string()));
    assert_eq!(first.values, vec!["ipp://localhost/".to_string()]);
}

fn entry(display: &str, driver: &str) -> ModelEntry {
    ModelEntry { display_model: display.to_string(), driver_name: driver.to_string() }
}

#[test]
fn two_records_of_one_make_give_one_group() {
    let groups = group_by_manufacturer(&parsed(two_records()));
    assert_eq!(
        groups,
        vec![ManufacturerGroup {
            name: "Acme".to_string(),
            models: vec![entry("Acme LaserX", "drv1"), entry("", "drv2")],
        }]
    );
}

#[test]
fn manufacturers_are_sorted_and_models_keep_their_order() {
    let catalog = vec![
        record("z1", "Zeta One", "Zeta", "One"),
        record("b1", "Brand One", "Brand", "One"),
        record("a1", "Acme One", "Acme", "One"),
        record("b2", "Brand Two", "Brand", "Two"),
        record("a2", "Acme Two", "Acme", "Two"),
        record("b1", "Brand One", "Brand", "One"),
    ];
    let groups = group_by_manufacturer(&catalog);
    assert_eq!(
        groups,
        vec![
            ManufacturerGroup {
                name: "Acme".to_string(),
                models: vec![entry("Acme One", "a1"), entry("Acme Two", "a2")],
            },
            ManufacturerGroup {
                name: "Brand".to_string(),
                models: vec![entry("Brand One", "b1"), entry("Brand Two", "b2"), entry("Brand One", "b1")],
            },
            ManufacturerGroup { name: "Zeta".to_string(), models: vec![entry("Zeta One", "z1")] },
        ]
    );
    assert_eq!(catalog.len(), 6);
}

#[test]
fn sorting_goes_by_bytes() {
    let catalog = vec![
        record("1", "", "acme", ""),
        record("2", "", "Zeta", ""),
        record("3", "", "", ""),
        record("4", "", "Ac", ""),
        record("5", "", "\u{e9}clair", ""),
        record("6", "", "Acme", ""),
    ];
    let names: Vec<String> = group_by_manufacturer(&catalog).into_iter().map(|g| g.name).collect();
    assert_eq!(names, vec!["", "Ac", "Acme", "Zeta", "acme", "\u{e9}clair"]);
    let mut sorted = names.clone();
    sorted.sort();
    assert_eq!(names, sorted);
}

#[test]
fn empty_catalog_has_no_groups() {
    assert!(group_by_manufacturer(&Vec::new()).is_empty());
}

#[test]
fn find_ppd_takes_the_first_match() {
    let mut manager = CupsManager::new();
    manager.ppds = vec![
        record("a1", "Acme One", "Acme", "One"),
        record("b1", "Brand One", "Brand", "One"),
        record("b1x", "Brand One again", "Brand", "One"),
    ];
    assert_eq!(manager.find_ppd("Brand", "One").map(|p| p.name.as_str()), Some("b1"));
    assert_eq!(manager.find_ppd("Acme", "One").map(|p| p.name.as_str()), Some("a1"));
    assert!(manager.find_ppd("Acme", "Two").is_none());
    assert!(manager.find_ppd("One", "Acme").is_none());
}
