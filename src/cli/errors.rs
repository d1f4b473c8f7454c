use vstd::prelude::*;

verus! {

/// Why the command line could not be served.
#[derive(Clone, Debug)]
pub enum UncrxCliError {
    /// The file named on the command line is not a `.crx` file.
    UnsupportedFileType,
    /// The file named on the command line does not exist; holds its path.
    NotFound(String),
}

/// The message that the command line prints for `e`.
pub open spec fn cli_error_message(e: UncrxCliError) -> Seq<char> {
    match e {
        UncrxCliError::UnsupportedFileType => "Unsupported file type. Only CRX files are supported"@,
        UncrxCliError::NotFound(path) => path@ + " not found"@,
    }
}

impl UncrxCliError {
    /// The message that the command line prints for this error.
    pub fn to_string(&self) -> (r: String)
        ensures
            r@ == cli_error_message(*self),
    {
        match self {
            UncrxCliError::UnsupportedFileType => String::from_str(
                "Unsupported file type. Only CRX files are supported",
            ),
            UncrxCliError::NotFound(path) => path.clone().concat(" not found"),
        }
    }
}

} // verus!
