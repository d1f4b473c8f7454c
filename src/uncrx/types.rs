use vstd::prelude::*;

verus! {

/// Why a buffer could not be decoded as a CRX container.
#[derive(Clone, Copy, Debug, PartialEq, Eq, Structural)]
pub enum CrxError {
    /// The first four bytes are not the CRX magic marker.
    InvalidFormat,
    /// The buffer ends before a field or slice that the decoder must read.
    TooShort,
}

/// The message shown for a decoding error.
pub open spec fn crx_error_message(e: CrxError) -> Seq<char> {
    match e {
        CrxError::InvalidFormat => "Invalid CRX file"@,
        CrxError::TooShort => "Data is too short"@,
    }
}

impl CrxError {
    /// The message shown for this error.
    pub fn to_string(&self) -> (r: String)
        ensures
            r@ == crx_error_message(*self),
    {
        match self {
            CrxError::InvalidFormat => String::from_str("Invalid CRX file"),
            CrxError::TooShort => String::from_str("Data is too short"),
        }
    }
}

/// A decoded CRX container. Each byte field is a verbatim copy of a range of
/// the input buffer.
#[derive(Debug)]
pub struct CrxExtension {
    pub version: u32,
    pub public_key: Vec<u8>,
    pub signature: Option<Vec<u8>>,
    pub zip: Vec<u8>,
}

/// The mathematical content of a [`CrxExtension`].
pub struct CrxExtensionView {
    pub version: u32,
    pub public_key: Seq<u8>,
    pub signature: Option<Seq<u8>>,
    pub zip: Seq<u8>,
}

impl View for CrxExtension {
    type V = CrxExtensionView;

    open spec fn view(&self) -> CrxExtensionView {
        CrxExtensionView {
            version: self.version,
            public_key: self.public_key@,
            signature: match self.signature {
                Some(s) => Some(s@),
                None => None,
            },
            zip: self.zip@,
        }
    }
}

} // verus!
