use vstd::prelude::*;

verus! {

/// How a connection to the print server is to be encrypted.
#[derive(Debug, Clone, Copy, PartialEq, Eq, Structural)]
pub enum HttpEncryption {
    /// Encrypt if requested (TLS upgrade).
    IfRequested,
    /// Never encrypt.
    Never,
    /// Encryption is required (TLS upgrade).
    Required,
    /// Always encrypt (SSL).
    Always,
}

impl HttpEncryption {
    /// The number that stands for this mode in a connect call.
    pub open spec fn value(self) -> int {
        match self {
            HttpEncryption::IfRequested => 0,
            HttpEncryption::Never => 1,
            HttpEncryption::Required => 2,
            HttpEncryption::Always => 3,
        }
    }

    /// The mode that `code` stands for, if it stands for one.
    pub open spec fn of_value(code: int) -> Option<HttpEncryption> {
        if code == 0 {
            Some(HttpEncryption::IfRequested)
        } else if code == 1 {
            Some(HttpEncryption::Never)
        } else if code == 2 {
            Some(HttpEncryption::Required)
        } else if code == 3 {
            Some(HttpEncryption::Always)
        } else {
            None
        }
    }

    /// The number of this mode as a machine integer.
    pub fn code(&self) -> (res: i32)
        ensures
            res == self.value(),
    {
        match self {
            HttpEncryption::IfRequested => 0,
            HttpEncryption::Never => 1,
            HttpEncryption::Required => 2,
            HttpEncryption::Always => 3,
        }
    }

    /// Reads a number back into the mode it stands for; `None` for a number
    /// that stands for none.
    pub fn from_code(code: i32) -> (res: Option<HttpEncryption>)
        ensures
            res == Self::of_value(code as int),
    {
        if code == 0 {
            Some(HttpEncryption::IfRequested)
        } else if code == 1 {
            Some(HttpEncryption::Never)
        } else if code == 2 {
            Some(HttpEncryption::Required)
        } else if code == 3 {
            Some(HttpEncryption::Always)
        } else {
            None
        }
    }

    /// Reading back the number of a mode gives that mode.
    pub proof fn lemma_value_round_trip(self)
        ensures
            Self::of_value(self.value()) == Some(self),
    {
    }

    /// A number is read back only into the mode that carries it, so no two
    /// of them share a number.
    pub proof fn lemma_of_value_exact(code: int)
        ensures
            Self::of_value(code) matches Some(v) ==> v.value() == code,
            Self::of_value(code) is None ==> forall|v: HttpEncryption| v.value() != code,
    {
    }
}

} // verus!
