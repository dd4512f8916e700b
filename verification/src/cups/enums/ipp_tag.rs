use vstd::prelude::*;

verus! {

/// The tags of a message: those up to `System` name the group an
/// attribute belongs to, the later ones the type of its value.
#[derive(Debug, Clone, Copy, PartialEq, Eq, Structural)]
pub enum IPPTag {
    /// No tag: what a name that stands for none is read as.
    CupsInvalid,
    /// The zero tag, used for separators.
    Zero,
    /// Operation group.
    Operation,
    /// Job group.
    Job,
    /// End-of-attributes.
    End,
    /// Printer group.
    Printer,
    /// Unsupported attributes group.
    UnsupportedGroup,
    /// Subscription group.
    Subscription,
    /// Event group.
    EventNotification,
    /// Resource group.
    Resource,
    /// Document group.
    Document,
    /// System group.
    System,
    /// Unsupported value.
    UnsupportedValue,
    /// Default value.
    Default,
    /// Unknown value.
    Unknown,
    /// No-value value.
    NoValue,
    /// Not-settable value.
    NotSettable,
    /// Delete-attribute value.
    DeleteAttr,
    /// Admin-defined value.
    AdminDefine,
    /// Integer value.
    Integer,
    /// Boolean value.
    Boolean,
    /// Enumeration value.
    Enum,
    /// Octet string value.
    String,
    /// Date/time value.
    Date,
    /// Resolution value.
    Resolution,
    /// Range value.
    Range,
    /// Beginning of collection value.
    BeginCollection,
    /// Text-with-language value.
    TextLang,
    /// Name-with-language value.
    NameLang,
    /// End of collection value.
    EndCollection,
    /// Text value.
    Text,
    /// Name value.
    Name,
    /// Reserved for future string value.
    ReservedString,
    /// Keyword value.
    Keyword,
    /// URI value.
    Uri,
    /// URI scheme value.
    UriScheme,
    /// Character set value.
    Charset,
    /// Language value.
    Language,
    /// MIME media type value.
    MimeType,
    /// Collection member name value.
    MemberName,
    /// Extension point for 32-bit tags.
    Extension,
    /// Mask for copied attribute values.
    CupsMask,
    /// Bitflag for copied/const attribute values.
    CupsConst,
}

impl IPPTag {
    /// The number that stands for this tag in a message.
    pub open spec fn value(self) -> int {
        match self {
            IPPTag::CupsInvalid => -1,
            IPPTag::Zero => 0,
            IPPTag::Operation => 1,
            IPPTag::Job => 2,
            IPPTag::End => 3,
            IPPTag::Printer => 4,
            IPPTag::UnsupportedGroup => 5,
            IPPTag::Subscription => 6,
            IPPTag::EventNotification => 7,
            IPPTag::Resource => 8,
            IPPTag::Document => 9,
            IPPTag::System => 10,
            IPPTag::UnsupportedValue => 0x10,
            IPPTag::Default => 0x11,
            IPPTag::Unknown => 0x12,
            IPPTag::NoValue => 0x13,
            IPPTag::NotSettable => 0x15,
            IPPTag::DeleteAttr => 0x16,
            IPPTag::AdminDefine => 0x17,
            IPPTag::Integer => 0x21,
            IPPTag::Boolean => 0x22,
            IPPTag::Enum => 0x23,
            IPPTag::String => 0x30,
            IPPTag::Date => 0x31,
            IPPTag::Resolution => 0x32,
            IPPTag::Range => 0x33,
            IPPTag::BeginCollection => 0x34,
            IPPTag::TextLang => 0x35,
            IPPTag::NameLang => 0x36,
            IPPTag::EndCollection => 0x37,
            IPPTag::Text => 0x41,
            IPPTag::Name => 0x42,
            IPPTag::ReservedString => 0x43,
            IPPTag::Keyword => 0x44,
            IPPTag::Uri => 0x45,
            IPPTag::UriScheme => 0x46,
            IPPTag::Charset => 0x47,
            IPPTag::Language => 0x48,
            IPPTag::MimeType => 0x49,
            IPPTag::MemberName => 0x4a,
            IPPTag::Extension => 0x7f,
            IPPTag::CupsMask => 0x7fffffff,
            IPPTag::CupsConst => -0x80000000,
        }
    }

    /// The tag that `code` stands for, if it stands for one.
    pub open spec fn of_value(code: int) -> Option<IPPTag> {
        if code == -1 {
            Some(IPPTag::CupsInvalid)
        } else if code == 0 {
            Some(IPPTag::Zero)
        } else if code == 1 {
            Some(IPPTag::Operation)
        } else if code == 2 {
            Some(IPPTag::Job)
        } else if code == 3 {
            Some(IPPTag::End)
        } else if code == 4 {
            Some(IPPTag::Printer)
        } else if code == 5 {
            Some(IPPTag::UnsupportedGroup)
        } else if code == 6 {
            Some(IPPTag::Subscription)
        } else if code == 7 {
            Some(IPPTag::EventNotification)
        } else if code == 8 {
            Some(IPPTag::Resource)
        } else if code == 9 {
            Some(IPPTag::Document)
        } else if code == 10 {
            Some(IPPTag::System)
        } else if code == 0x10 {
            Some(IPPTag::UnsupportedValue)
        } else if code == 0x11 {
            Some(IPPTag::Default)
        } else if code == 0x12 {
            Some(IPPTag::Unknown)
        } else if code == 0x13 {
            Some(IPPTag::NoValue)
        } else if code == 0x15 {
            Some(IPPTag::NotSettable)
        } else if code == 0x16 {
            Some(IPPTag::DeleteAttr)
        } else if code == 0x17 {
            Some(IPPTag::AdminDefine)
        } else if code == 0x21 {
            Some(IPPTag::Integer)
        } else if code == 0x22 {
            Some(IPPTag::Boolean)
        } else if code == 0x23 {
            Some(IPPTag::Enum)
        } else if code == 0x30 {
            Some(IPPTag::String)
        } else if code == 0x31 {
            Some(IPPTag::Date)
        } else if code == 0x32 {
            Some(IPPTag::Resolution)
        } else if code == 0x33 {
            Some(IPPTag::Range)
        } else if code == 0x34 {
            Some(IPPTag::BeginCollection)
        } else if code == 0x35 {
            Some(IPPTag::TextLang)
        } else if code == 0x36 {
            Some(IPPTag::NameLang)
        } else if code == 0x37 {
            Some(IPPTag::EndCollection)
        } else if code == 0x41 {
            Some(IPPTag::Text)
        } else if code == 0x42 {
            Some(IPPTag::Name)
        } else if code == 0x43 {
            Some(IPPTag::ReservedString)
        } else if code == 0x44 {
            Some(IPPTag::Keyword)
        } else if code == 0x45 {
            Some(IPPTag::Uri)
        } else if code == 0x46 {
            Some(IPPTag::UriScheme)
        } else if code == 0x47 {
            Some(IPPTag::Charset)
        } else if code == 0x48 {
            Some(IPPTag::Language)
        } else if code == 0x49 {
            Some(IPPTag::MimeType)
        } else if code == 0x4a {
            Some(IPPTag::MemberName)
        } else if code == 0x7f {
            Some(IPPTag::Extension)
        } else if code == 0x7fffffff {
            Some(IPPTag::CupsMask)
        } else if code == -0x80000000 {
            Some(IPPTag::CupsConst)
        } else {
            None
        }
    }

    /// The number of this tag as a machine integer.
    pub fn code(&self) -> (res: i32)
        ensures
            res == self.value(),
    {
        match self {
            IPPTag::CupsInvalid => -1,
            IPPTag::Zero => 0,
            IPPTag::Operation => 1,
            IPPTag::Job => 2,
            IPPTag::End => 3,
            IPPTag::Printer => 4,
            IPPTag::UnsupportedGroup => 5,
            IPPTag::Subscription => 6,
            IPPTag::EventNotification => 7,
            IPPTag::Resource => 8,
            IPPTag::Document => 9,
            IPPTag::System => 10,
            IPPTag::UnsupportedValue => 0x10,
            IPPTag::Default => 0x11,
            IPPTag::Unknown => 0x12,
            IPPTag::NoValue => 0x13,
            IPPTag::NotSettable => 0x15,
            IPPTag::DeleteAttr => 0x16,
            IPPTag::AdminDefine => 0x17,
            IPPTag::Integer => 0x21,
            IPPTag::Boolean => 0x22,
            IPPTag::Enum => 0x23,
            IPPTag::String => 0x30,
            IPPTag::Date => 0x31,
            IPPTag::Resolution => 0x32,
            IPPTag::Range => 0x33,
            IPPTag::BeginCollection => 0x34,
            IPPTag::TextLang => 0x35,
            IPPTag::NameLang => 0x36,
            IPPTag::EndCollection => 0x37,
            IPPTag::Text => 0x41,
            IPPTag::Name => 0x42,
            IPPTag::ReservedString => 0x43,
            IPPTag::Keyword => 0x44,
            IPPTag::Uri => 0x45,
            IPPTag::UriScheme => 0x46,
            IPPTag::Charset => 0x47,
            IPPTag::Language => 0x48,
            IPPTag::MimeType => 0x49,
            IPPTag::MemberName => 0x4a,
            IPPTag::Extension => 0x7f,
            IPPTag::CupsMask => 0x7fffffff,
            IPPTag::CupsConst => -0x80000000,
        }
    }

    /// Reads a number back into the tag it stands for; `None` for a number
    /// that stands for none.
    pub fn from_code(code: i32) -> (res: Option<IPPTag>)
        ensures
            res == Self::of_value(code as int),
    {
        if code == -1 {
            Some(IPPTag::CupsInvalid)
        } else if code == 0 {
            Some(IPPTag::Zero)
        } else if code == 1 {
            Some(IPPTag::Operation)
        } else if code == 2 {
            Some(IPPTag::Job)
        } else if code == 3 {
            Some(IPPTag::End)
        } else if code == 4 {
            Some(IPPTag::Printer)
        } else if code == 5 {
            Some(IPPTag::UnsupportedGroup)
        } else if code == 6 {
            Some(IPPTag::Subscription)
        } else if code == 7 {
            Some(IPPTag::EventNotification)
        } else if code == 8 {
            Some(IPPTag::Resource)
        } else if code == 9 {
            Some(IPPTag::Document)
        } else if code == 10 {
            Some(IPPTag::System)
        } else if code == 0x10 {
            Some(IPPTag::UnsupportedValue)
        } else if code == 0x11 {
            Some(IPPTag::Default)
        } else if code == 0x12 {
            Some(IPPTag::Unknown)
        } else if code == 0x13 {
            Some(IPPTag::NoValue)
        } else if code == 0x15 {
            Some(IPPTag::NotSettable)
        } else if code == 0x16 {
            Some(IPPTag::DeleteAttr)
        } else if code == 0x17 {
            Some(IPPTag::AdminDefine)
        } else if code == 0x21 {
            Some(IPPTag::Integer)
        } else if code == 0x22 {
            Some(IPPTag::Boolean)
        } else if code == 0x23 {
            Some(IPPTag::Enum)
        } else if code == 0x30 {
            Some(IPPTag::String)
        } else if code == 0x31 {
            Some(IPPTag::Date)
        } else if code == 0x32 {
            Some(IPPTag::Resolution)
        } else if code == 0x33 {
            Some(IPPTag::Range)
        } else if code == 0x34 {
            Some(IPPTag::BeginCollection)
        } else if code == 0x35 {
            Some(IPPTag::TextLang)
        } else if code == 0x36 {
            Some(IPPTag::NameLang)
        } else if code == 0x37 {
            Some(IPPTag::EndCollection)
        } else if code == 0x41 {
            Some(IPPTag::Text)
        } else if code == 0x42 {
            Some(IPPTag::Name)
        } else if code == 0x43 {
            Some(IPPTag::ReservedString)
        } else if code == 0x44 {
            Some(IPPTag::Keyword)
        } else if code == 0x45 {
            Some(IPPTag::Uri)
        } else if code == 0x46 {
            Some(IPPTag::UriScheme)
        } else if code == 0x47 {
            Some(IPPTag::Charset)
        } else if code == 0x48 {
            Some(IPPTag::Language)
        } else if code == 0x49 {
            Some(IPPTag::MimeType)
        } else if code == 0x4a {
            Some(IPPTag::MemberName)
        } else if code == 0x7f {
            Some(IPPTag::Extension)
        } else if code == 0x7fffffff {
            Some(IPPTag::CupsMask)
        } else if code == -0x80000000 {
            Some(IPPTag::CupsConst)
        } else {
            None
        }
    }

    /// Reading back the number of a tag gives that tag.
    pub proof fn lemma_value_round_trip(self)
        ensures
            Self::of_value(self.value()) == Some(self),
    {
    }

    /// A number is read back only into the tag that carries it, so no two
    /// of them share a number.
    pub proof fn lemma_of_value_exact(code: int)
        ensures
            Self::of_value(code) matches Some(v) ==> v.value() == code,
            Self::of_value(code) is None ==> forall|v: IPPTag| v.value() != code,
    {
    }
}

} // verus!
