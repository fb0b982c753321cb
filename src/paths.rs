use vstd::prelude::*;
use crate::config::opt_view;
use crate::error::CliError;

verus! {

/// The final component of a path, as the platform's path rules give it;
/// `None` where the path has none (it ends in `..`, or is a root or empty).
pub uninterp spec fn file_name_of(path: Seq<char>) -> Option<Seq<char>>;

/// A path with one more component pushed onto it, as the platform's path
/// rules give it.
pub uninterp spec fn joined_path(base: Seq<char>, name: Seq<char>) -> Seq<char>;

/// Relies on std::path::Path::file_name: the final component of the path.
/// A component of a `&str` path is valid UTF-8, so the conversion back loses nothing.
#[verifier::external_body]
fn path_file_name(path: &str) -> (r: Option<String>)
    ensures
        opt_view(r) == file_name_of(path@),
{
    std::path::Path::new(path).file_name().and_then(|n| n.to_str()).map(|n| n.to_string())
}

/// Relies on std::path::Path::join: `base` with `name` pushed onto it.
/// Both parts are valid UTF-8, so the conversion back loses nothing.
#[verifier::external_body]
fn path_join(base: &str, name: &str) -> (r: String)
    ensures
        r@ == joined_path(base@, name@),
{
    std::path::Path::new(base).join(name).to_string_lossy().into_owned()
}

/// The blob name to upload under, given the final component of the local
/// path: an explicit name wins, else that component.
pub open spec fn upload_blob_name_spec(
    blob: Option<Seq<char>>,
    file_name: Option<Seq<char>>,
) -> Result<Seq<char>, CliError> {
    match blob {
        Some(b) => Ok(b),
        None => match file_name {
            Some(f) => Ok(f),
            None => Err(CliError::NoFileName),
        },
    }
}

/// Choose the blob name from an explicit name or the local file's name.
pub fn upload_blob_name(blob: Option<String>, file_name: Option<String>) -> (r: Result<String, CliError>)
    ensures
        match upload_blob_name_spec(opt_view(blob), opt_view(file_name)) {
            Ok(n) => r matches Ok(s) && s@ == n,
            Err(e) => r == Err::<String, CliError>(e),
        },
{
    match blob {
        Some(b) => Ok(b),
        None => match file_name {
            Some(f) => Ok(f),
            None => Err(CliError::NoFileName),
        },
    }
}

/// Choose the blob name for an upload of the file at `local`.
pub fn blob_name_for_upload(blob: Option<String>, local: &str) -> (r: Result<String, CliError>)
    ensures
        match upload_blob_name_spec(opt_view(blob), file_name_of(local@)) {
            Ok(n) => r matches Ok(s) && s@ == n,
            Err(e) => r == Err::<String, CliError>(e),
        },
{
    match blob {
        Some(b) => Ok(b),
        None => {
            let file_name = path_file_name(local);
            upload_blob_name(None, file_name)
        },
    }
}

pub open spec fn download_path_spec(local: Seq<char>, blob: Seq<char>, local_is_dir: bool) -> Seq<char> {
    if local_is_dir {
        joined_path(local, blob)
    } else {
        local
    }
}

/// Where a download is written: into the directory under the blob's name
/// when `local` is an existing directory, else at `local` itself.
pub fn download_path(local: String, blob: &str, local_is_dir: bool) -> (r: String)
    ensures
        r@ == download_path_spec(local@, blob@, local_is_dir),
{
    if local_is_dir {
        path_join(local.as_str(), blob)
    } else {
        local
    }
}

} // verus!
