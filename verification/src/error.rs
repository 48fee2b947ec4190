use vstd::prelude::*;

verus! {

/// std's I/O error, carried through unchanged.
#[verifier::external_type_specification]
#[verifier::external_body]
pub struct ExIoError(std::io::Error);

/// Why an installer operation failed.
#[derive(Debug)]
pub enum Error {
    /// No install directory is known, so no path can be formed.
    NoInstallDir,
    /// A file operation or the patch step failed.
    IoError(std::io::Error),
    /// There is no backup of the game executable to restore.
    FailedToRestore,
}

/// The message key under which each error is shown to the user.
pub open spec fn error_message_key(e: Error) -> Seq<char> {
    match e {
        Error::NoInstallDir => "error.no_install_dir"@,
        Error::IoError(_) => "error.io_error"@,
        Error::FailedToRestore => "error.failed_to_restore"@,
    }
}

impl Error {
    /// The key of the localized message that describes this error; an I/O
    /// error's message takes the error itself as its `error` argument.
    pub fn message_key(&self) -> (r: &'static str)
        ensures
            r@ == error_message_key(*self),
    {
        match self {
            Error::NoInstallDir => "error.no_install_dir",
            Error::IoError(_) => "error.io_error",
            Error::FailedToRestore => "error.failed_to_restore",
        }
    }
}

impl From<std::io::Error> for Error {
    fn from(e: std::io::Error) -> (r: Error) {
        Error::IoError(e)
    }
}

impl vstd::std_specs::convert::FromSpecImpl<std::io::Error> for Error {
    open spec fn obeys_from_spec() -> bool {
        true
    }

    open spec fn from_spec(v: std::io::Error) -> Error {
        Error::IoError(v)
    }
}

} // verus!
