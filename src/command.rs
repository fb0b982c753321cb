use vstd::prelude::*;
use crate::config::opt_view;
use crate::error::{CliError, ErrorKind};
use crate::paths::{blob_name_for_upload, file_name_of, upload_blob_name_spec};

verus! {

/// The six operations the client can perform.
#[derive(Clone, Copy, Debug, PartialEq, Eq, Structural)]
pub enum Mode {
    List,
    Get,
    Put,
    Append,
    PutAppend,
    Delete,
}

/// The mode a command word selects; no word at all means listing.
pub open spec fn mode_of(word: Option<Seq<char>>) -> Option<Mode> {
    match word {
        None => Some(Mode::List),
        Some(w) => if w == "list"@ {
            Some(Mode::List)
        } else if w == "get"@ {
            Some(Mode::Get)
        } else if w == "put"@ {
            Some(Mode::Put)
        } else if w == "append"@ {
            Some(Mode::Append)
        } else if w == "put-append"@ {
            Some(Mode::PutAppend)
        } else if w == "delete"@ {
            Some(Mode::Delete)
        } else {
            None
        },
    }
}

fn word_is(word: &String, name: &str) -> (r: bool)
    ensures
        r == (word@ == name@),
{
    *word == name.to_owned()
}

/// Select the mode named by the command word.
pub fn parse_mode(word: Option<String>) -> (r: Result<Mode, CliError>)
    ensures
        match mode_of(opt_view(word)) {
            Some(m) => r == Ok::<Mode, CliError>(m),
            None => r == Err::<Mode, CliError>(CliError::InvalidMode),
        },
{
    match word {
        None => Ok(Mode::List),
        Some(w) => {
            if word_is(&w, "list") {
                Ok(Mode::List)
            } else if word_is(&w, "get") {
                Ok(Mode::Get)
            } else if word_is(&w, "put") {
                Ok(Mode::Put)
            } else if word_is(&w, "append") {
                Ok(Mode::Append)
            } else if word_is(&w, "put-append") {
                Ok(Mode::PutAppend)
            } else if word_is(&w, "delete") {
                Ok(Mode::Delete)
            } else {
                Err(CliError::InvalidMode)
            }
        },
    }
}

/// One remote operation, with every name it needs.
#[derive(Clone, Debug)]
pub enum Operation {
    ListContainers,
    ListBlobs { container: String },
    CreateAppendBlob { container: String, blob: String },
    /// Upload the file at `local` as a new block blob.
    PutBlock { container: String, blob: String, local: String },
    /// Append the file at `local` to an existing append blob.
    AppendBlock { container: String, blob: String, local: String },
    /// Download the blob to `local`, a file or an existing directory.
    Download { container: String, blob: String, local: String },
    Delete { container: String, blob: String },
}

/// An operation over the character sequences of its names.
pub enum OperationView {
    ListContainers,
    ListBlobs { container: Seq<char> },
    CreateAppendBlob { container: Seq<char>, blob: Seq<char> },
    PutBlock { container: Seq<char>, blob: Seq<char>, local: Seq<char> },
    AppendBlock { container: Seq<char>, blob: Seq<char>, local: Seq<char> },
    Download { container: Seq<char>, blob: Seq<char>, local: Seq<char> },
    Delete { container: Seq<char>, blob: Seq<char> },
}

impl View for Operation {
    type V = OperationView;

    open spec fn view(&self) -> OperationView {
        match self {
            Operation::ListContainers => OperationView::ListContainers,
            Operation::ListBlobs { container } => OperationView::ListBlobs { container: container@ },
            Operation::CreateAppendBlob { container, blob } => OperationView::CreateAppendBlob {
                container: container@,
                blob: blob@,
            },
            Operation::PutBlock { container, blob, local } => OperationView::PutBlock {
                container: container@,
                blob: blob@,
                local: local@,
            },
            Operation::AppendBlock { container, blob, local } => OperationView::AppendBlock {
                container: container@,
                blob: blob@,
                local: local@,
            },
            Operation::Download { container, blob, local } => OperationView::Download {
                container: container@,
                blob: blob@,
                local: local@,
            },
            Operation::Delete { container, blob } => OperationView::Delete {
                container: container@,
                blob: blob@,
            },
        }
    }
}

/// Container and blob, both required, the container checked first.
pub open spec fn container_and_blob(
    container: Option<Seq<char>>,
    blob: Option<Seq<char>>,
) -> Result<(Seq<char>, Seq<char>), CliError> {
    match container {
        None => Err(CliError::MissingContainer),
        Some(c) => match blob {
            None => Err(CliError::MissingBlob),
            Some(b) => Ok((c, b)),
        },
    }
}

/// The upload target of `put` and `append`: the local path first, then the
/// container, then the blob name (defaulting to the local file's name).
pub open spec fn upload_target(
    container: Option<Seq<char>>,
    blob: Option<Seq<char>>,
    local: Option<Seq<char>>,
) -> Result<(Seq<char>, Seq<char>, Seq<char>), CliError> {
    match local {
        None => Err(CliError::MissingLocalPath),
        Some(l) => match container {
            None => Err(CliError::MissingContainer),
            Some(c) => match upload_blob_name_spec(blob, file_name_of(l)) {
                Err(e) => Err(e),
                Ok(b) => Ok((c, b, l)),
            },
        },
    }
}

/// The operation a mode and its arguments call for, or the argument missing.
pub open spec fn plan_spec(
    mode: Mode,
    container: Option<Seq<char>>,
    blob: Option<Seq<char>>,
    local: Option<Seq<char>>,
) -> Result<OperationView, CliError> {
    match mode {
        Mode::List => match container {
            Some(c) => Ok(OperationView::ListBlobs { container: c }),
            None => Ok(OperationView::ListContainers),
        },
        Mode::PutAppend => match container_and_blob(container, blob) {
            Err(e) => Err(e),
            Ok((c, b)) => Ok(OperationView::CreateAppendBlob { container: c, blob: b }),
        },
        Mode::Put => match upload_target(container, blob, local) {
            Err(e) => Err(e),
            Ok((c, b, l)) => Ok(OperationView::PutBlock { container: c, blob: b, local: l }),
        },
        Mode::Append => match upload_target(container, blob, local) {
            Err(e) => Err(e),
            Ok((c, b, l)) => Ok(OperationView::AppendBlock { container: c, blob: b, local: l }),
        },
        Mode::Get => match container_and_blob(container, blob) {
            Err(e) => Err(e),
            Ok((c, b)) => match local {
                None => Err(CliError::MissingLocalPath),
                Some(l) => Ok(OperationView::Download { container: c, blob: b, local: l }),
            },
        },
        Mode::Delete => match container_and_blob(container, blob) {
            Err(e) => Err(e),
            Ok((c, b)) => Ok(OperationView::Delete { container: c, blob: b }),
        },
    }
}

pub open spec fn result_view(r: Result<Operation, CliError>) -> Result<OperationView, CliError> {
    match r {
        Ok(op) => Ok(op@),
        Err(e) => Err(e),
    }
}

fn require_container_and_blob(container: Option<String>, blob: Option<String>) -> (r: Result<(String, String), CliError>)
    ensures
        match container_and_blob(opt_view(container), opt_view(blob)) {
            Ok((c, b)) => r matches Ok((rc, rb)) && rc@ == c && rb@ == b,
            Err(e) => r == Err::<(String, String), CliError>(e),
        },
{
    match container {
        None => Err(CliError::MissingContainer),
        Some(c) => match blob {
            None => Err(CliError::MissingBlob),
            Some(b) => Ok((c, b)),
        },
    }
}

fn require_upload_target(container: Option<String>, blob: Option<String>, local: Option<String>) -> (r: Result<(String, String, String), CliError>)
    ensures
        match upload_target(opt_view(container), opt_view(blob), opt_view(local)) {
            Ok((c, b, l)) => r matches Ok((rc, rb, rl)) && rc@ == c && rb@ == b && rl@ == l,
            Err(e) => r == Err::<(String, String, String), CliError>(e),
        },
{
    let l = match local {
        None => { return Err(CliError::MissingLocalPath); },
        Some(l) => l,
    };
    let c = match container {
        None => { return Err(CliError::MissingContainer); },
        Some(c) => c,
    };
    match blob_name_for_upload(blob, l.as_str()) {
        Err(e) => Err(e),
        Ok(b) => Ok((c, b, l)),
    }
}

/// Check the arguments the mode requires and build its operation.
pub fn plan(mode: Mode, container: Option<String>, blob: Option<String>, local: Option<String>) -> (r: Result<Operation, CliError>)
    ensures
        result_view(r) == plan_spec(mode, opt_view(container), opt_view(blob), opt_view(local)),
{
    match mode {
        Mode::List => match container {
            Some(c) => Ok(Operation::ListBlobs { container: c }),
            None => Ok(Operation::ListContainers),
        },
        Mode::PutAppend => match require_container_and_blob(container, blob) {
            Err(e) => Err(e),
            Ok((c, b)) => Ok(Operation::CreateAppendBlob { container: c, blob: b }),
        },
        Mode::Put => match require_upload_target(container, blob, local) {
            Err(e) => Err(e),
            Ok((c, b, l)) => Ok(Operation::PutBlock { container: c, blob: b, local: l }),
        },
        Mode::Append => match require_upload_target(container, blob, local) {
            Err(e) => Err(e),
            Ok((c, b, l)) => Ok(Operation::AppendBlock { container: c, blob: b, local: l }),
        },
        Mode::Get => match require_container_and_blob(container, blob) {
            Err(e) => Err(e),
            Ok((c, b)) => match local {
                None => Err(CliError::MissingLocalPath),
                Some(l) => Ok(Operation::Download { container: c, blob: b, local: l }),
            },
        },
        Mode::Delete => match require_container_and_blob(container, blob) {
            Err(e) => Err(e),
            Ok((c, b)) => Ok(Operation::Delete { container: c, blob: b }),
        },
    }
}

/// Select the mode named by the command word, then plan its operation.
/// An unknown word fails before any argument is looked at.
pub fn plan_invocation(
    word: Option<String>,
    container: Option<String>,
    blob: Option<String>,
    local: Option<String>,
) -> (r: Result<Operation, CliError>)
    ensures
        match mode_of(opt_view(word)) {
            None => r == Err::<Operation, CliError>(CliError::InvalidMode),
            Some(m) => result_view(r) == plan_spec(m, opt_view(container), opt_view(blob), opt_view(local)),
        },
{
    match parse_mode(word) {
        Err(e) => Err(e),
        Ok(m) => plan(m, container, blob, local),
    }
}

/// Creating an append blob without a blob name fails with an argument
/// error, so no operation is produced: the blob is reported missing, or the
/// container where that is missing too.
pub proof fn put_append_needs_blob(container: Option<Seq<char>>, local: Option<Seq<char>>)
    ensures
        plan_spec(Mode::PutAppend, container, None, local) matches Err(e) && e.kind_spec() == ErrorKind::Argument,
        container is Some ==> plan_spec(Mode::PutAppend, container, None, local) == Err::<OperationView, CliError>(
            CliError::MissingBlob,
        ) && CliError::MissingBlob.message_spec() == "No blob name specified"@,
        container is None ==> plan_spec(Mode::PutAppend, container, None, local) == Err::<OperationView, CliError>(
            CliError::MissingContainer,
        ) && CliError::MissingContainer.message_spec() == "No container name specified"@,
{
}

/// A command word other than the six mode names selects no mode, and
/// planning fails with the invalid-mode argument error.
pub proof fn unknown_word_is_invalid_mode(word: Seq<char>)
    requires
        word != "list"@,
        word != "get"@,
        word != "put"@,
        word != "append"@,
        word != "put-append"@,
        word != "delete"@,
    ensures
        mode_of(Some(word)) is None,
        CliError::InvalidMode.kind_spec() == ErrorKind::Argument,
        CliError::InvalidMode.message_spec() == "Invalid mode"@,
{
}

/// Without an explicit blob name, `put` and `append` upload under the final
/// component of the local path.
pub proof fn upload_defaults_to_file_name(container: Seq<char>, local: Seq<char>)
    requires
        file_name_of(local) is Some,
    ensures
        plan_spec(Mode::Put, Some(container), None, Some(local)) == Ok::<OperationView, CliError>(
            OperationView::PutBlock { container, blob: file_name_of(local)->Some_0, local },
        ),
        plan_spec(Mode::Append, Some(container), None, Some(local)) == Ok::<OperationView, CliError>(
            OperationView::AppendBlock { container, blob: file_name_of(local)->Some_0, local },
        ),
{
}

} // verus!
