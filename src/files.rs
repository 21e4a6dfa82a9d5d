//! Outcomes of the file operations: what a dialog choice, a read or a
//! write turns into once it has run.

use vstd::prelude::*;
use vstd::string::StringExecFns;

verus! {

/// std's category of an I/O error, carried through unopened.
#[verifier::external_type_specification]
#[verifier::external_body]
pub struct ExErrorKind(std::io::ErrorKind);

/// Why an open or a save failed.
#[derive(Debug, Clone, Copy)]
pub enum Error {
    /// The read or the write failed; only the coarse category is kept.
    IOFailed(std::io::ErrorKind),
    /// The user closed the file dialog without choosing.
    DialogClosed,
}

/// The path that a save or an open dialog yields: the chosen path, or
/// `DialogClosed` when nothing was chosen.
pub open spec fn chosen_spec(picked: Option<String>) -> Result<String, Error> {
    match picked {
        Some(p) => Ok(p),
        None => Err(Error::DialogClosed),
    }
}

/// Turns what a file dialog returned into a path or `DialogClosed`.
pub fn chosen_path(picked: Option<String>) -> (r: Result<String, Error>)
    ensures
        r == chosen_spec(picked),
{
    match picked {
        Some(p) => Ok(p),
        None => Err(Error::DialogClosed),
    }
}

/// Where a save writes: the document's path where it has one, else the
/// path chosen in the save dialog.
pub open spec fn destination_spec(path: Option<String>, picked: Option<String>) -> Result<
    String,
    Error,
> {
    match path {
        Some(p) => Ok(p),
        None => chosen_spec(picked),
    }
}

/// Whether a save must first ask the user where to write: exactly when the
/// document has no path yet.
pub fn save_needs_dialog(path: &Option<String>) -> (r: bool)
    ensures
        r == path is None,
{
    path.is_none()
}

/// Resolves where a save writes. `picked` is what the save dialog returned;
/// it is read only where `path` is `None`, and the dialog need not be shown
/// otherwise.
pub fn save_destination(path: Option<String>, picked: Option<String>) -> (r: Result<
    String,
    Error,
>)
    ensures
        r == destination_spec(path, picked),
{
    match path {
        Some(p) => Ok(p),
        None => chosen_path(picked),
    }
}

/// What a load of `path` yields once its read has run.
pub open spec fn load_spec(path: String, read: Result<String, std::io::ErrorKind>) -> Result<
    (String, String),
    Error,
> {
    match read {
        Ok(text) => Ok((path, text)),
        Err(kind) => Err(Error::IOFailed(kind)),
    }
}

/// Pairs the loaded text with its path, or keeps the read's error category.
pub fn load_result(path: String, read: Result<String, std::io::ErrorKind>) -> (r: Result<
    (String, String),
    Error,
>)
    ensures
        r == load_spec(path, read),
{
    match read {
        Ok(text) => Ok((path, text)),
        Err(kind) => Err(Error::IOFailed(kind)),
    }
}

/// What a save to `path` yields once its write has run.
pub open spec fn save_spec(path: String, written: Result<(), std::io::ErrorKind>) -> Result<
    String,
    Error,
> {
    match written {
        Ok(()) => Ok(path),
        Err(kind) => Err(Error::IOFailed(kind)),
    }
}

/// The saved path on a successful write, or the write's error category.
pub fn save_result(path: String, written: Result<(), std::io::ErrorKind>) -> (r: Result<
    String,
    Error,
>)
    ensures
        r == save_spec(path, written),
{
    match written {
        Ok(()) => Ok(path),
        Err(kind) => Err(Error::IOFailed(kind)),
    }
}

/// The file that is loaded at startup: `src/main.rs` under the given
/// package directory.
pub fn default_load_file(package_dir: &str) -> (r: String)
    ensures
        r@ == package_dir@ + "/src/main.rs"@,
{
    String::from_str(package_dir).concat("/src/main.rs")
}

} // verus!
