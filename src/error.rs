use vstd::prelude::*;

verus! {

/// Why a configuration parameter could not be decoded.
#[derive(Debug, Clone, PartialEq, Eq)]
pub enum Error {
    /// The tag (a number on the wire, a name in text) has no registered kind.
    InvalidTag,
    /// A fixed-width payload has the wrong number of bytes.
    SizeInvalid,
    /// The payload has the right width but holds no known value.
    StructureInvalid,
    /// A text value could not be parsed; carries the offending text.
    UnknownString(String),
}

/// Why a parameter could not be read from a byte buffer.
#[derive(Debug, Clone, PartialEq, Eq)]
pub enum ReadError {
    /// The buffer ends early: `available` bytes are left where `needed` are.
    NotEnoughBytes(usize, usize),
    /// The frame or the payload is malformed.
    Invalid(Error),
}

impl Error {
    /// A message that describes the error.
    pub fn message(&self) -> (r: String)
        ensures
            self is InvalidTag ==> r@ == "Invalid config parameter tag"@,
            self is SizeInvalid ==> r@ == "Invalid config parameter size"@,
            self is StructureInvalid ==> r@ == "Invalid config parameter structure"@,
            self matches Error::UnknownString(s) ==> r@ == "Invalid config parameter string '"@
                + s@ + "'"@,
    {
        match self {
            Error::InvalidTag => "Invalid config parameter tag".to_owned(),
            Error::SizeInvalid => "Invalid config parameter size".to_owned(),
            Error::StructureInvalid => "Invalid config parameter structure".to_owned(),
            Error::UnknownString(s) => {
                let mut m = "Invalid config parameter string '".to_owned();
                m.append(s.as_str());
                m.append("'");
                m
            },
        }
    }
}

impl From<Error> for ReadError {
    /// A malformed parameter, as a reading error.
    fn from(e: Error) -> (r: ReadError)
        ensures
            r == ReadError::Invalid(e),
    {
        ReadError::Invalid(e)
    }
}

impl vstd::std_specs::convert::FromSpecImpl<Error> for ReadError {
    open spec fn obeys_from_spec() -> bool {
        true
    }

    open spec fn from_spec(e: Error) -> ReadError {
        ReadError::Invalid(e)
    }
}

} // verus!
