use samba_printer_finder::c_helper_fun::c_str_to_string;
use samba_printer_finder::smb::{
    auth_fn, entry_type, server_address, starts_with_smb_scheme, write_c_string, SambaConnection,
    SambaCredentials, SambaDirectoryEntry,
    SambaEntryType, SmbError, SmbcDirent, SmbcType,
};
use samba_printer_finder::text::{compare, has_interior_nul, str_eq, TextOrder};

fn credentials() -> SambaCredentials {
    SambaCredentials {
        workgroup: "WORKGROUP".to_string(),
        username: "alice".to_string(),
        password: "s3cret".to_string(),
    }
}

fn dirent(kind: SmbcType, name: &[u8]) -> SmbcDirent {
    SmbcDirent { smbc_type: kind, comment: Vec::new(), name: name.to_vec() }
}

fn connection() -> SambaConnection {
    SambaConnection::connect(credentials(), true, true).unwrap()
}

#[test]
fn c_string_fits_the_buffer() {
    assert_eq!(write_c_string(10, "abc"), Some(b"abc\0".to_vec()));
    assert_eq!(write_c_string(4, "abc"), Some(b"abc\0".to_vec()));
}

#[test]
fn c_string_is_cut_to_the_buffer() {
    assert_eq!(write_c_string(5, "workgroup"), Some(b"work\0".to_vec()));
    assert_eq!(write_c_string(3, "abc"), Some(b"ab\0".to_vec()));
    assert_eq!(write_c_string(1, "abc"), Some(b"\0".to_vec()));
}

#[test]
fn c_string_is_cut_by_bytes() {
    assert_eq!(write_c_string(3, "h\u{e9}llo"), Some(vec![b'h', 0xc3, 0]));
}

#[test]
fn c_string_without_room_writes_nothing() {
    assert_eq!(write_c_string(0, "abc"), None);
    assert_eq!(write_c_string(-1, "abc"), None);
    assert_eq!(write_c_string(i32::MIN, ""), None);
}

#[test]
fn c_string_of_empty_text_is_the_terminator() {
    assert_eq!(write_c_string(8, ""), Some(vec![0]));
    assert_eq!(write_c_string(i32::MAX, "x"), Some(vec![b'x', 0]));
}

#[test]
fn auth_fn_fills_all_three() {
    let reply = auth_fn(&credentials(), 256, 4, 0);
    assert_eq!(reply.workgroup, Some(b"WORKGROUP\0".to_vec()));
    assert_eq!(reply.username, Some(b"ali\0".to_vec()));
    assert_eq!(reply.password, None);
}

#[test]
fn entry_kinds_as_the_browser_sees_them() {
    assert_eq!(entry_type(SmbcType::SmbcDir), SambaEntryType::Directory);
    assert_eq!(entry_type(SmbcType::SmbcFileShare), SambaEntryType::Directory);
    assert_eq!(entry_type(SmbcType::SmbcFile), SambaEntryType::File);
    assert_eq!(entry_type(SmbcType::SmbcPrinterShare), SambaEntryType::Printer);
    assert_eq!(entry_type(SmbcType::SmbcWorkgroup), SambaEntryType::Unknown);
    assert_eq!(entry_type(SmbcType::SmbcServer), SambaEntryType::Unknown);
    assert_eq!(entry_type(SmbcType::SmbcCommsShare), SambaEntryType::Unknown);
    assert_eq!(entry_type(SmbcType::SmbcIpcShare), SambaEntryType::Unknown);
    assert_eq!(entry_type(SmbcType::SmbcLink), SambaEntryType::Unknown);
}

#[test]
fn default_entry_type_is_unknown() {
    assert_eq!(SambaEntryType::default(), SambaEntryType::Unknown);
}

#[test]
fn smbc_type_codes() {
    assert_eq!(SmbcType::SmbcWorkgroup.code(), 1);
    assert_eq!(SmbcType::SmbcPrinterShare.code(), 4);
    assert_eq!(SmbcType::SmbcLink.code(), 9);
    assert_eq!(SmbcType::from_code(7), Some(SmbcType::SmbcDir));
    assert_eq!(SmbcType::from_code(0), None);
    assert_eq!(SmbcType::from_code(10), None);
    for code in 1..=9 {
        assert_eq!(SmbcType::from_code(code).unwrap().code(), code);
    }
}

#[test]
fn listing_keeps_order_and_maps_kinds() {
    let read = vec![
        dirent(SmbcType::SmbcFileShare, b"public"),
        dirent(SmbcType::SmbcPrinterShare, b"laser"),
        dirent(SmbcType::SmbcIpcShare, b"IPC$"),
        dirent(SmbcType::SmbcFile, b"notes.txt"),
    ];
    let entries = connection().list_directory("smb://server/", Some(&read)).unwrap();
    assert_eq!(
        entries,
        vec![
            SambaDirectoryEntry { name: "public".to_string(), entry_type: SambaEntryType::Directory },
            SambaDirectoryEntry { name: "laser".to_string(), entry_type: SambaEntryType::Printer },
            SambaDirectoryEntry { name: "IPC$".to_string(), entry_type: SambaEntryType::Unknown },
            SambaDirectoryEntry { name: "notes.txt".to_string(), entry_type: SambaEntryType::File },
        ]
    );
}

#[test]
fn listing_replaces_what_is_not_utf8() {
    let read = vec![dirent(SmbcType::SmbcFile, &[b'f', 0xff, b'o']), dirent(SmbcType::SmbcDir, "B\u{fc}ro".as_bytes())];
    let entries = connection().list_directory("smb://server/share", Some(&read)).unwrap();
    assert_eq!(entries[0].name, "f\u{fffd}o");
    assert_eq!(entries[1].name, "B\u{fc}ro");
}

#[test]
fn listing_of_an_empty_directory() {
    assert_eq!(connection().list_directory("smb://server/", Some(&Vec::new())), Ok(Vec::new()));
}

#[test]
fn listing_refuses_a_path_with_nul() {
    let read = vec![dirent(SmbcType::SmbcFile, b"x")];
    assert_eq!(connection().list_directory("smb://ser\0ver/", Some(&read)), Err(SmbError::InvalidPath));
    assert_eq!(connection().list_directory("smb://ser\0ver/", None), Err(SmbError::InvalidPath));
    assert!(!SambaConnection::path_is_valid("a\0"));
    assert!(SambaConnection::path_is_valid("smb://server/"));
}

#[test]
fn listing_fails_when_the_directory_did_not_open() {
    assert_eq!(connection().list_directory("smb://server/", None), Err(SmbError::OpenDirectory));
}

#[test]
fn connect_reports_what_failed() {
    assert_eq!(SambaConnection::connect(credentials(), false, false), Err(SmbError::ContextCreation));
    assert_eq!(SambaConnection::connect(credentials(), false, true), Err(SmbError::ContextCreation));
    assert_eq!(SambaConnection::connect(credentials(), true, false), Err(SmbError::ContextInit));
    assert_eq!(
        SambaConnection::connect(credentials(), true, true),
        Ok(SambaConnection { credentials: credentials() })
    );
}

#[test]
fn error_messages() {
    assert_eq!(SmbError::ContextCreation.message(), "Failed to create SMB context");
    assert_eq!(SmbError::ContextInit.message(), "Failed to init SMB context");
    assert_eq!(SmbError::InvalidPath.message(), "path contains interior NUL byte");
    assert_eq!(SmbError::OpenDirectory.message(), "Failed to open directory");
}

#[test]
fn credentials_clone_is_equal() {
    assert_eq!(credentials().clone(), credentials());
}

#[test]
fn c_string_behind_a_null_pointer() {
    assert_eq!(c_str_to_string(None), None);
}

#[test]
fn c_string_ends_at_the_first_terminator() {
    assert_eq!(c_str_to_string(Some(b"abc\0def\0")), Some("abc".to_string()));
    assert_eq!(c_str_to_string(Some(b"abc")), Some("abc".to_string()));
    assert_eq!(c_str_to_string(Some(b"\0abc")), Some(String::new()));
    assert_eq!(c_str_to_string(Some(b"")), Some(String::new()));
}

#[test]
fn c_string_that_is_not_utf8() {
    assert_eq!(c_str_to_string(Some(&[0xff, 0x00])), None);
    assert_eq!(c_str_to_string(Some(&[0xc3, 0x00, 0xa9])), None);
    assert_eq!(c_str_to_string(Some(&[b'a', 0x00, 0xff])), Some("a".to_string()));
    assert_eq!(c_str_to_string(Some("B\u{fc}ro\0".as_bytes())), Some("B\u{fc}ro".to_string()));
}

#[test]
fn texts_compare_as_strings_do() {
    let samples = ["", "a", "A", "ab", "abc", "b", "\u{e9}", "z", "Acme", "Brand", "a\0", "\u{10348}"];
    for x in samples {
        for y in samples {
            let expected = match x.cmp(y) {
                std::cmp::Ordering::Less => TextOrder::Before,
                std::cmp::Ordering::Equal => TextOrder::Same,
                std::cmp::Ordering::Greater => TextOrder::After,
            };
            assert_eq!(compare(x, y), expected);
            assert_eq!(str_eq(x, y), x == y);
        }
    }
}

#[test]
fn acme_comes_before_brand() {
    assert_eq!(compare("Acme", "Brand"), TextOrder::Before);
    assert_eq!(compare("Brand", "Acme"), TextOrder::After);
    assert_eq!(compare("Acme", "Acme"), TextOrder::Same);
    assert_eq!(compare("Acme", "Acme "), TextOrder::Before);
}

#[test]
fn nul_is_found_wherever_it_stands() {
    assert!(has_interior_nul("\0"));
    assert!(has_interior_nul("abc\0"));
    assert!(has_interior_nul("\0abc"));
    assert!(has_interior_nul("a\0b"));
    assert!(!has_interior_nul(""));
    assert!(!has_interior_nul("abc 0"));
}

#[test]
fn server_address_gets_its_scheme() {
    assert_eq!(server_address("fileserver"), "smb://fileserver");
    assert_eq!(server_address("192.168.0.2/share"), "smb://192.168.0.2/share");
    assert_eq!(server_address(""), "smb://");
    assert_eq!(server_address("smb:/x"), "smb://smb:/x");
    assert_eq!(server_address("SMB://x"), "smb://SMB://x");
    assert_eq!(server_address(" smb://x"), "smb:// smb://x");
}

#[test]
fn server_address_with_scheme_stays() {
    assert_eq!(server_address("smb://fileserver"), "smb://fileserver");
    assert_eq!(server_address("smb://"), "smb://");
    assert_eq!(server_address("smb://\u{e9}t\u{e9}/share"), "smb://\u{e9}t\u{e9}/share");
    assert!(starts_with_smb_scheme("smb://a"));
    assert!(!starts_with_smb_scheme("smb:/"));
    assert!(!starts_with_smb_scheme("\u{e9}mb://"));
}

#[test]
fn entry_labels() {
    let entry = |name: &str, entry_type| SambaDirectoryEntry { name: name.to_string(), entry_type };
    assert_eq!(entry("docs", SambaEntryType::Directory).label(), "\u{1F4C1} docs");
    assert_eq!(entry("a.txt", SambaEntryType::File).label(), "\u{1F4C4} a.txt");
    assert_eq!(entry("laser", SambaEntryType::Printer).label(), "\u{1F5A8}\u{FE0F} laser");
    assert_eq!(entry("", SambaEntryType::Unknown).label(), "\u{2753} ");
    assert_eq!(SambaEntryType::Printer.icon(), "\u{1F5A8}\u{FE0F}");
}

#[test]
fn entry_address_is_joined_to_the_directory() {
    let entry = |name: &str| SambaDirectoryEntry { name: name.to_string(), entry_type: SambaEntryType::Directory };
    assert_eq!(entry("share").address("smb://server/"), Some("smb://server/share".to_string()));
    assert_eq!(entry("sub dir").address("smb://server/share/"), Some("smb://server/share/sub%20dir".to_string()));
    assert_eq!(entry("b").address("smb://server/a"), Some("smb://server/b".to_string()));
    assert_eq!(entry("x").address("no address"), None);
}
