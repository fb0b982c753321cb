use vstd::prelude::*;

verus! {

/// The two credentials that must be known before a client can be built.
#[derive(Clone, Copy, Debug, PartialEq, Eq, Structural)]
pub enum Credential {
    Account,
    MasterKey,
}

/// The broad families of failure that end an invocation.
#[derive(Clone, Copy, Debug, PartialEq, Eq, Structural)]
pub enum ErrorKind {
    /// A credential is missing or the config file is malformed.
    Configuration,
    /// A required argument for the selected mode is missing, or the mode is unknown.
    Argument,
    /// The local file cannot be read, written or named.
    LocalIo,
    /// The storage service reported a failure.
    Remote,
}

/// Failures decided by the library itself, before any remote call.
#[derive(Clone, Copy, Debug, PartialEq, Eq, Structural)]
pub enum CliError {
    /// The credential is empty after merging file and flags, and its
    /// environment variable is not set.
    MissingCredential(Credential),
    MissingContainer,
    MissingBlob,
    MissingLocalPath,
    /// The local path has no final file-name component to use as blob name.
    NoFileName,
    InvalidMode,
}

impl Credential {
    /// Name of the environment variable that supplies this credential.
    pub fn env_var(&self) -> (r: &'static str)
        ensures
            r@ == self.env_var_spec(),
    {
        match self {
            Credential::Account => "STORAGE_ACCOUNT",
            Credential::MasterKey => "STORAGE_MASTER_KEY",
        }
    }

    pub open spec fn env_var_spec(&self) -> Seq<char> {
        match self {
            Credential::Account => "STORAGE_ACCOUNT"@,
            Credential::MasterKey => "STORAGE_MASTER_KEY"@,
        }
    }
}

impl CliError {
    pub open spec fn kind_spec(&self) -> ErrorKind {
        match self {
            CliError::MissingCredential(_) => ErrorKind::Configuration,
            CliError::NoFileName => ErrorKind::LocalIo,
            _ => ErrorKind::Argument,
        }
    }

    /// The family this failure belongs to.
    pub fn kind(&self) -> (r: ErrorKind)
        ensures
            r == self.kind_spec(),
    {
        match self {
            CliError::MissingCredential(_) => ErrorKind::Configuration,
            CliError::NoFileName => ErrorKind::LocalIo,
            _ => ErrorKind::Argument,
        }
    }

    /// The text that describes each failure to the user.
    pub open spec fn message_spec(&self) -> Seq<char> {
        match self {
            CliError::MissingCredential(Credential::Account) => "STORAGE_ACCOUNT is not defined"@,
            CliError::MissingCredential(Credential::MasterKey) => "STORAGE_MASTER_KEY is not defined"@,
            CliError::MissingContainer => "No container name specified"@,
            CliError::MissingBlob => "No blob name specified"@,
            CliError::MissingLocalPath => "No local path specified"@,
            CliError::NoFileName => "Cannot extract filename from local path"@,
            CliError::InvalidMode => "Invalid mode"@,
        }
    }

    /// A human-readable description of the failure; a missing credential is
    /// described by naming its environment variable first.
    pub fn message(&self) -> (r: &'static str)
        ensures
            r@ == self.message_spec(),
            self matches CliError::MissingCredential(c) ==> r@.len() >= c.env_var_spec().len()
                && r@.subrange(0, c.env_var_spec().len() as int) == c.env_var_spec(),
    {
        match self {
            CliError::MissingCredential(Credential::Account) => {
                proof {
                    reveal_strlit("STORAGE_ACCOUNT is not defined");
                    reveal_strlit("STORAGE_ACCOUNT");
                    assert("STORAGE_ACCOUNT is not defined"@.subrange(0, 15) =~= "STORAGE_ACCOUNT"@);
                }
                "STORAGE_ACCOUNT is not defined"
            },
            CliError::MissingCredential(Credential::MasterKey) => {
                proof {
                    reveal_strlit("STORAGE_MASTER_KEY is not defined");
                    reveal_strlit("STORAGE_MASTER_KEY");
                    assert("STORAGE_MASTER_KEY is not defined"@.subrange(0, 18) =~= "STORAGE_MASTER_KEY"@);
                }
                "STORAGE_MASTER_KEY is not defined"
            },
            CliError::MissingContainer => "No container name specified",
            CliError::MissingBlob => "No blob name specified",
            CliError::MissingLocalPath => "No local path specified",
            CliError::NoFileName => "Cannot extract filename from local path",
            CliError::InvalidMode => "Invalid mode",
        }
    }
}

} // verus!
