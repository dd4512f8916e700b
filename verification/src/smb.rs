//! What is known of an SMB server: who logs in, and what a share holds.

use crate::cups::ipp_attribute::opt_text;
use crate::cups::uri::{join_uri, uri_joined};
use crate::text::{has_interior_nul, has_nul};
use vstd::prelude::*;
use vstd::string::{StrSliceExecFns, StringExecFns};
use vstd::utf8::{decode_utf8, encode_utf8, valid_utf8};

verus! {

/// The kinds of entry that a directory of the SMB client library lists.
#[derive(Debug, Clone, Copy, PartialEq, Eq, Structural)]
pub enum SmbcType {
    SmbcWorkgroup,
    SmbcServer,
    SmbcFileShare,
    SmbcPrinterShare,
    SmbcCommsShare,
    SmbcIpcShare,
    SmbcDir,
    SmbcFile,
    SmbcLink,
}

impl SmbcType {
    /// The number that the client library gives to this kind.
    pub open spec fn value(self) -> int {
        match self {
            SmbcType::SmbcWorkgroup => 1,
            SmbcType::SmbcServer => 2,
            SmbcType::SmbcFileShare => 3,
            SmbcType::SmbcPrinterShare => 4,
            SmbcType::SmbcCommsShare => 5,
            SmbcType::SmbcIpcShare => 6,
            SmbcType::SmbcDir => 7,
            SmbcType::SmbcFile => 8,
            SmbcType::SmbcLink => 9,
        }
    }

    /// The kind that `code` stands for, if it stands for one.
    pub open spec fn of_value(code: int) -> Option<SmbcType> {
        if code == 1 {
            Some(SmbcType::SmbcWorkgroup)
        } else if code == 2 {
            Some(SmbcType::SmbcServer)
        } else if code == 3 {
            Some(SmbcType::SmbcFileShare)
        } else if code == 4 {
            Some(SmbcType::SmbcPrinterShare)
        } else if code == 5 {
            Some(SmbcType::SmbcCommsShare)
        } else if code == 6 {
            Some(SmbcType::SmbcIpcShare)
        } else if code == 7 {
            Some(SmbcType::SmbcDir)
        } else if code == 8 {
            Some(SmbcType::SmbcFile)
        } else if code == 9 {
            Some(SmbcType::SmbcLink)
        } else {
            None
        }
    }

    /// The number of this kind as a machine integer.
    pub fn code(&self) -> (res: i32)
        ensures
            res == self.value(),
    {
        match self {
            SmbcType::SmbcWorkgroup => 1,
            SmbcType::SmbcServer => 2,
            SmbcType::SmbcFileShare => 3,
            SmbcType::SmbcPrinterShare => 4,
            SmbcType::SmbcCommsShare => 5,
            SmbcType::SmbcIpcShare => 6,
            SmbcType::SmbcDir => 7,
            SmbcType::SmbcFile => 8,
            SmbcType::SmbcLink => 9,
        }
    }

    /// Reads a number back into the kind it stands for; `None` for a
    /// number that stands for none.
    pub fn from_code(code: i32) -> (res: Option<SmbcType>)
        ensures
            res == Self::of_value(code as int),
    {
        if code == 1 {
            Some(SmbcType::SmbcWorkgroup)
        } else if code == 2 {
            Some(SmbcType::SmbcServer)
        } else if code == 3 {
            Some(SmbcType::SmbcFileShare)
        } else if code == 4 {
            Some(SmbcType::SmbcPrinterShare)
        } else if code == 5 {
            Some(SmbcType::SmbcCommsShare)
        } else if code == 6 {
            Some(SmbcType::SmbcIpcShare)
        } else if code == 7 {
            Some(SmbcType::SmbcDir)
        } else if code == 8 {
            Some(SmbcType::SmbcFile)
        } else if code == 9 {
            Some(SmbcType::SmbcLink)
        } else {
            None
        }
    }

    /// Reading back the number of a kind gives that kind.
    pub proof fn lemma_value_round_trip(self)
        ensures
            Self::of_value(self.value()) == Some(self),
    {
    }
}

/// One entry of a directory as the client library hands it: its kind, its
/// comment and its name, both as the bytes that the server sent.
#[derive(Debug, PartialEq, Eq)]
pub struct SmbcDirent {
    pub smbc_type: SmbcType,
    pub comment: Vec<u8>,
    pub name: Vec<u8>,
}

/// The identity with which a share is opened.
#[derive(Debug, PartialEq, Eq)]
pub struct SambaCredentials {
    pub workgroup: String,
    pub username: String,
    pub password: String,
}

impl Clone for SambaCredentials {
    fn clone(&self) -> (res: Self)
        ensures
            res == *self,
    {
        SambaCredentials {
            workgroup: self.workgroup.clone(),
            username: self.username.clone(),
            password: self.password.clone(),
        }
    }
}

/// A session with an SMB server.
#[derive(Debug, PartialEq, Eq)]
pub struct SambaConnection {
    pub credentials: SambaCredentials,
}

/// What an entry of a directory is to the browser.
#[derive(Debug, Clone, Copy, PartialEq, Eq, Structural)]
pub enum SambaEntryType {
    File,
    Directory,
    Printer,
    Unknown,
}

impl Default for SambaEntryType {
    fn default() -> (res: Self)
        ensures
            res == SambaEntryType::Unknown,
    {
        SambaEntryType::Unknown
    }
}

/// One entry of a directory as the browser shows it.
#[derive(Debug, PartialEq, Eq)]
pub struct SambaDirectoryEntry {
    pub name: String,
    pub entry_type: SambaEntryType,
}

/// What went wrong with a session.
#[derive(Debug, Clone, Copy, PartialEq, Eq, Structural)]
pub enum SmbError {
    /// The client library gave no context.
    ContextCreation,
    /// The client library could not make the context ready.
    ContextInit,
    /// The path holds a NUL.
    InvalidPath,
    /// The directory could not be opened.
    OpenDirectory,
}

impl SmbError {
    /// The text of the error.
    pub open spec fn text(self) -> Seq<char> {
        match self {
            SmbError::ContextCreation => "Failed to create SMB context"@,
            SmbError::ContextInit => "Failed to init SMB context"@,
            SmbError::InvalidPath => "path contains interior NUL byte"@,
            SmbError::OpenDirectory => "Failed to open directory"@,
        }
    }

    /// The text of the error, for the user.
    pub fn message(&self) -> (res: String)
        ensures
            res@ == self.text(),
    {
        match self {
            SmbError::ContextCreation => "Failed to create SMB context".to_owned(),
            SmbError::ContextInit => "Failed to init SMB context".to_owned(),
            SmbError::InvalidPath => "path contains interior NUL byte".to_owned(),
            SmbError::OpenDirectory => "Failed to open directory".to_owned(),
        }
    }
}

/// What the browser makes of a kind of entry: shares of files and
/// directories are both browsed as directories, shares of printers are
/// printers, files are files, and nothing else is known.
pub open spec fn entry_type_of(kind: SmbcType) -> SambaEntryType {
    match kind {
        SmbcType::SmbcDir => SambaEntryType::Directory,
        SmbcType::SmbcFileShare => SambaEntryType::Directory,
        SmbcType::SmbcFile => SambaEntryType::File,
        SmbcType::SmbcPrinterShare => SambaEntryType::Printer,
        _ => SambaEntryType::Unknown,
    }
}

/// The text that `String::from_utf8_lossy` makes of bytes.
pub uninterp spec fn lossy_text(bytes: Seq<u8>) -> Seq<char>;

/// Calls `String::from_utf8_lossy`. Bytes that are valid UTF-8 come back
/// as the text they encode; of other bytes the contract only names the
/// result.
#[verifier::external_body]
fn lossy_string(bytes: &[u8]) -> (res: String)
    ensures
        res@ == lossy_text(bytes@),
        valid_utf8(bytes@) ==> res@ == decode_utf8(bytes@),
{
    String::from_utf8_lossy(bytes).into_owned()
}

/// What a directory entry says, as mathematical values.
pub struct EntryView {
    pub name: Seq<char>,
    pub entry_type: SambaEntryType,
}

impl View for SambaDirectoryEntry {
    type V = EntryView;

    open spec fn view(&self) -> EntryView {
        EntryView { name: self.name@, entry_type: self.entry_type }
    }
}

/// The entry that the browser shows for an entry of the client library.
pub open spec fn entry_of(dirent: SmbcDirent) -> EntryView {
    EntryView { name: lossy_text(dirent.name@), entry_type: entry_type_of(dirent.smbc_type) }
}

/// The entries shown for a listing, one for each entry read, in order.
pub open spec fn entries_of(listing: Seq<SmbcDirent>) -> Seq<EntryView> {
    listing.map_values(|d: SmbcDirent| entry_of(d))
}

/// What each entry of a list says.
pub open spec fn entry_views(list: Seq<SambaDirectoryEntry>) -> Seq<EntryView> {
    list.map_values(|e: SambaDirectoryEntry| e@)
}

/// The bytes that go into a buffer of `len` bytes for the text `src`: as
/// many bytes of the text as fit before the terminator, then the
/// terminator. A buffer without room takes nothing.
pub open spec fn c_string_bytes(len: int, src: Seq<u8>) -> Option<Seq<u8>> {
    if len <= 0 {
        None
    } else if src.len() <= len - 1 {
        Some(src.push(0u8))
    } else {
        Some(src.take(len - 1).push(0u8))
    }
}

/// What the client library is told when it asks who logs in.
#[derive(Debug, PartialEq, Eq)]
pub struct AuthReply {
    pub workgroup: Option<Vec<u8>>,
    pub username: Option<Vec<u8>>,
    pub password: Option<Vec<u8>>,
}

/// The bytes of a buffer content that may be absent.
pub open spec fn opt_bytes(content: Option<Vec<u8>>) -> Option<Seq<u8>> {
    match content {
        Some(bytes) => Some(bytes@),
        None => None,
    }
}

/// The content for a buffer of `len` bytes that is to hold `src` as a
/// terminated string, cut short if it must be. `None` if the buffer has no
/// room at all: then nothing is to be written.
pub fn write_c_string(len: i32, src: &str) -> (res: Option<Vec<u8>>)
    ensures
        opt_bytes(res) == c_string_bytes(len as int, encode_utf8(src@)),
{
    if len <= 0 {
        return None;
    }
    let bytes = src.as_bytes();
    let room: usize = (len - 1) as usize;
    let n = if bytes.len() <= room {
        bytes.len()
    } else {
        room
    };
    let mut out: Vec<u8> = Vec::new();
    let mut i: usize = 0;
    while i < n
        invariant
            i <= n,
            n <= bytes.len(),
            out@ == bytes@.take(i as int),
        decreases n - i,
    {
        out.push(bytes[i]);
        assert(bytes@.take(i + 1) =~= bytes@.take(i as int).push(bytes@[i as int]));
        i += 1;
    }
    out.push(0u8);
    assert(bytes@.take(bytes@.len() as int) =~= bytes@);
    Some(out)
}

/// Answers the client library's question for the identity: each of the
/// three texts of the credentials, fitted to the buffer it goes into.
pub fn auth_fn(credentials: &SambaCredentials, wglen: i32, unlen: i32, pwlen: i32) -> (res:
    AuthReply)
    ensures
        opt_bytes(res.workgroup) == c_string_bytes(wglen as int, encode_utf8(credentials.workgroup@)),
        opt_bytes(res.username) == c_string_bytes(unlen as int, encode_utf8(credentials.username@)),
        opt_bytes(res.password) == c_string_bytes(pwlen as int, encode_utf8(credentials.password@)),
{
    AuthReply {
        workgroup: write_c_string(wglen, credentials.workgroup.as_str()),
        username: write_c_string(unlen, credentials.username.as_str()),
        password: write_c_string(pwlen, credentials.password.as_str()),
    }
}

/// What a listing comes to, given the path asked for and what the client
/// library read there, if it could open the directory.
pub open spec fn listing_of(path: Seq<char>, listing: Option<Seq<SmbcDirent>>) -> Result<
    Seq<EntryView>,
    SmbError,
> {
    if has_nul(path) {
        Err(SmbError::InvalidPath)
    } else {
        match listing {
            None => Err(SmbError::OpenDirectory),
            Some(dirents) => Ok(entries_of(dirents)),
        }
    }
}

/// What a listing says, as mathematical values.
pub open spec fn listing_view(res: Result<Vec<SambaDirectoryEntry>, SmbError>) -> Result<
    Seq<EntryView>,
    SmbError,
> {
    match res {
        Ok(entries) => Ok(entry_views(entries@)),
        Err(e) => Err(e),
    }
}

/// What the client library read, as a sequence.
pub open spec fn opt_dirents(listing: Option<&Vec<SmbcDirent>>) -> Option<Seq<SmbcDirent>> {
    match listing {
        Some(dirents) => Some(dirents@),
        None => None,
    }
}

impl SambaConnection {
    /// Opens a session, given how the client library fared: whether it
    /// gave a context, and whether it could make the context ready.
    pub fn connect(credentials: SambaCredentials, created: bool, initialised: bool) -> (res: Result<
        Self,
        SmbError,
    >)
        ensures
            !created ==> res == Err::<Self, SmbError>(SmbError::ContextCreation),
            created && !initialised ==> res == Err::<Self, SmbError>(SmbError::ContextInit),
            created && initialised ==> res == Ok::<Self, SmbError>(SambaConnection { credentials }),
    {
        if !created {
            Err(SmbError::ContextCreation)
        } else if !initialised {
            Err(SmbError::ContextInit)
        } else {
            Ok(SambaConnection { credentials })
        }
    }

    /// Whether a path can be handed to the client library: it holds no NUL.
    pub fn path_is_valid(path: &str) -> (res: bool)
        ensures
            res == !has_nul(path@),
    {
        !has_interior_nul(path)
    }

    /// The entries of the directory at `path`, made of what the client
    /// library read there; `listing` is `None` if it could not open the
    /// directory.
    ///
    /// A path with a NUL is refused whatever was read. Each entry keeps its
    /// place; its name is the text of the bytes read, with what is not
    /// UTF-8 replaced.
    pub fn list_directory(&self, path: &str, listing: Option<&Vec<SmbcDirent>>) -> (res: Result<
        Vec<SambaDirectoryEntry>,
        SmbError,
    >)
        ensures
            listing_view(res) == listing_of(path@, opt_dirents(listing)),
    {
        if has_interior_nul(path) {
            return Err(SmbError::InvalidPath);
        }
        let dirents = match listing {
            Some(dirents) => dirents,
            None => {
                return Err(SmbError::OpenDirectory);
            },
        };
        let mut entries: Vec<SambaDirectoryEntry> = Vec::new();
        let mut i: usize = 0;
        while i < dirents.len()
            invariant
                i <= dirents.len(),
                entry_views(entries@) == entries_of(dirents@.take(i as int)),
            decreases dirents.len() - i,
        {
            let dirent = &dirents[i];
            let entry = SambaDirectoryEntry {
                name: lossy_string(dirent.name.as_slice()),
                entry_type: entry_type(dirent.smbc_type),
            };
            let ghost held = entries@;
            entries.push(entry);
            assert(entry_views(entries@) =~= entry_views(held).push(entry@));
            assert(entries_of(dirents@.take(i + 1)) =~= entries_of(dirents@.take(i as int)).push(
                entry_of(dirents@[i as int]),
            ));
            i += 1;
        }
        assert(dirents@.take(dirents@.len() as int) =~= dirents@);
        Ok(entries)
    }
}

/// The scheme with which the address of every server begins.
pub open spec fn smb_scheme() -> Seq<char> {
    "smb://"@
}

/// The text begins with the scheme of SMB addresses.
pub open spec fn has_smb_scheme(server: Seq<char>) -> bool {
    smb_scheme().is_prefix_of(server)
}

/// The address of a server as the user typed it, with the scheme put
/// before it where the user left it out.
pub open spec fn server_address_of(server: Seq<char>) -> Seq<char> {
    if has_smb_scheme(server) {
        server
    } else {
        smb_scheme() + server
    }
}

/// Whether the text begins with `smb://`.
pub fn starts_with_smb_scheme(server: &str) -> (res: bool)
    ensures
        res == has_smb_scheme(server@),
{
    let scheme = "smb://";
    proof {
        reveal_strlit("smb://");
    }
    let mut matched: usize = 0;
    let mut differs = false;
    for c in it: server.chars()
        invariant
            it.seq() == server@,
            scheme@ == smb_scheme(),
            scheme@.len() == 6,
            matched <= 6,
            matched <= it.index(),
            !differs ==> matched == it.index() || matched == 6,
            forall|j: int| 0 <= j < matched ==> server@[j] == scheme@[j],
            differs ==> matched < 6 && matched < server@.len() && server@[matched as int]
                != scheme@[matched as int],
    {
        if !differs && matched < 6 {
            if c == scheme.get_char(matched) {
                matched += 1;
            } else {
                differs = true;
            }
        }
    }
    if !differs && matched == 6 {
        assert(server@.subrange(0, 6) =~= scheme@);
        true
    } else {
        proof {
            if scheme@.is_prefix_of(server@) {
                assert(server@.subrange(0, 6) == scheme@);
                if differs {
                    assert(server@.subrange(0, 6)[matched as int] == server@[matched as int]);
                }
            }
        }
        false
    }
}

/// The address of a server as the user typed it, with `smb://` put before
/// it where the user left it out.
pub fn server_address(server: &str) -> (res: String)
    ensures
        res@ == server_address_of(server@),
{
    if starts_with_smb_scheme(server) {
        server.to_owned()
    } else {
        String::from_str("smb://").concat(server)
    }
}

/// The picture that stands for a kind of entry in the browser.
pub open spec fn icon_of(entry_type: SambaEntryType) -> Seq<char> {
    match entry_type {
        SambaEntryType::Directory => "\u{1F4C1}"@,
        SambaEntryType::File => "\u{1F4C4}"@,
        SambaEntryType::Printer => "\u{1F5A8}\u{FE0F}"@,
        SambaEntryType::Unknown => "\u{2753}"@,
    }
}

impl SambaEntryType {
    /// The picture that stands for this kind of entry in the browser.
    pub fn icon(&self) -> (res: &'static str)
        ensures
            res@ == icon_of(*self),
    {
        match self {
            SambaEntryType::Directory => "\u{1F4C1}",
            SambaEntryType::File => "\u{1F4C4}",
            SambaEntryType::Printer => "\u{1F5A8}\u{FE0F}",
            SambaEntryType::Unknown => "\u{2753}",
        }
    }
}

impl SambaDirectoryEntry {
    /// The line that the browser shows for the entry: its picture, a
    /// space, its name.
    pub fn label(&self) -> (res: String)
        ensures
            res@ == icon_of(self.entry_type) + " "@ + self.name@,
    {
        String::from_str(self.entry_type.icon()).concat(" ").concat(self.name.as_str())
    }

    /// The address of the entry, given that of the directory which lists
    /// it: the name of the entry joined to the address of the directory.
    /// `None` where the two do not make an address.
    pub fn address(&self, directory: &str) -> (res: Option<String>)
        ensures
            opt_text(res) == uri_joined(directory@, self.name@),
    {
        join_uri(directory, self.name.as_str())
    }
}

/// What the browser makes of a kind of entry.
pub fn entry_type(kind: SmbcType) -> (res: SambaEntryType)
    ensures
        res == entry_type_of(kind),
{
    match kind {
        SmbcType::SmbcDir => SambaEntryType::Directory,
        SmbcType::SmbcFileShare => SambaEntryType::Directory,
        SmbcType::SmbcFile => SambaEntryType::File,
        SmbcType::SmbcPrinterShare => SambaEntryType::Printer,
        _ => SambaEntryType::Unknown,
    }
}

} // verus!
