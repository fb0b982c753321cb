use vstd::prelude::*;
use crate::error::{CliError, Credential, ErrorKind};

verus! {

/// Settings read from the optional config file. An empty string stands for
/// a value that was not given.
#[derive(Clone, Debug)]
pub struct Configs {
    pub storage_account: String,
    pub storage_master_key: String,
    pub local: String,
}

/// Values given on the command line; `None` where the flag was absent.
#[derive(Clone, Debug)]
pub struct CliOverrides {
    pub storage_account: Option<String>,
    pub storage_master_key: Option<String>,
    pub local: Option<String>,
}

/// Values of the credential environment variables; `None` where unset.
#[derive(Clone, Debug)]
pub struct EnvCredentials {
    pub storage_account: Option<String>,
    pub storage_master_key: Option<String>,
}

/// The effective settings of one invocation.
#[derive(Clone, Debug)]
pub struct Settings {
    pub account: String,
    pub master_key: String,
    /// `None` where no non-empty local path was given.
    pub local: Option<String>,
}

pub open spec fn opt_view(o: Option<String>) -> Option<Seq<char>> {
    match o {
        Some(s) => Some(s@),
        None => None,
    }
}

/// A flag, where present, replaces the file's value.
pub open spec fn merged(cli: Option<Seq<char>>, file: Seq<char>) -> Seq<char> {
    match cli {
        Some(v) => v,
        None => file,
    }
}

/// The credential after merging, or the environment's value where the merge
/// left it empty; `None` where the environment has none either.
pub open spec fn effective_credential(
    cli: Option<Seq<char>>,
    file: Seq<char>,
    env: Option<Seq<char>>,
) -> Option<Seq<char>> {
    if merged(cli, file).len() > 0 {
        Some(merged(cli, file))
    } else {
        env
    }
}

/// The local path after merging; empty counts as not given.
pub open spec fn effective_local(cli: Option<Seq<char>>, file: Seq<char>) -> Option<Seq<char>> {
    if merged(cli, file).len() > 0 {
        Some(merged(cli, file))
    } else {
        None
    }
}

impl Configs {
    /// All fields empty: the settings used when no config file exists.
    pub fn empty() -> (r: Configs)
        ensures
            r.storage_account@.len() == 0,
            r.storage_master_key@.len() == 0,
            r.local@.len() == 0,
    {
        Configs { storage_account: String::new(), storage_master_key: String::new(), local: String::new() }
    }

    /// Replace each field for which a flag was given.
    pub fn apply_overrides(&mut self, cli: &CliOverrides)
        ensures
            final(self).storage_account@ == merged(opt_view(cli.storage_account), old(self).storage_account@),
            final(self).storage_master_key@ == merged(opt_view(cli.storage_master_key), old(self).storage_master_key@),
            final(self).local@ == merged(opt_view(cli.local), old(self).local@),
    {
        match &cli.storage_account {
            Some(v) => { self.storage_account = v.clone(); },
            None => {},
        }
        match &cli.storage_master_key {
            Some(v) => { self.storage_master_key = v.clone(); },
            None => {},
        }
        match &cli.local {
            Some(v) => { self.local = v.clone(); },
            None => {},
        }
    }
}

/// Keep a non-empty merged value, else take the environment's value, else
/// fail naming the credential.
pub fn credential_or_env(value: String, env: Option<String>, which: Credential) -> (r: Result<String, CliError>)
    ensures
        value@.len() > 0 ==> r == Ok::<String, CliError>(value),
        value@.len() == 0 ==> match env {
            Some(e) => r == Ok::<String, CliError>(e),
            None => r == Err::<String, CliError>(CliError::MissingCredential(which)),
        },
{
    if !value.as_str().is_empty() {
        Ok(value)
    } else {
        match env {
            Some(e) => Ok(e),
            None => Err(CliError::MissingCredential(which)),
        }
    }
}

/// Merge file settings, flags and environment into the effective settings.
/// Flags replace file values field by field; an account or key that is still
/// empty is taken from the environment, the account first.
pub fn resolve_settings(file: Option<Configs>, cli: &CliOverrides, env: EnvCredentials) -> (r: Result<Settings, CliError>)
    ensures
        ({
            let fa = match file { Some(c) => c.storage_account@, None => Seq::<char>::empty() };
            let fk = match file { Some(c) => c.storage_master_key@, None => Seq::<char>::empty() };
            let fl = match file { Some(c) => c.local@, None => Seq::<char>::empty() };
            let acc = effective_credential(opt_view(cli.storage_account), fa, opt_view(env.storage_account));
            let key = effective_credential(opt_view(cli.storage_master_key), fk, opt_view(env.storage_master_key));
            &&& acc is None ==> r == Err::<Settings, CliError>(CliError::MissingCredential(Credential::Account))
            &&& acc is Some && key is None ==> r == Err::<Settings, CliError>(CliError::MissingCredential(Credential::MasterKey))
            &&& acc is Some && key is Some ==> r is Ok
            &&& r matches Ok(s) ==> {
                &&& Some(s.account@) == acc
                &&& Some(s.master_key@) == key
                &&& opt_view(s.local) == effective_local(opt_view(cli.local), fl)
            }
        }),
{
    let mut cfg = match file {
        Some(c) => c,
        None => Configs::empty(),
    };
    cfg.apply_overrides(cli);
    let account = match credential_or_env(cfg.storage_account, env.storage_account, Credential::Account) {
        Ok(a) => a,
        Err(e) => { return Err(e); },
    };
    let master_key = match credential_or_env(cfg.storage_master_key, env.storage_master_key, Credential::MasterKey) {
        Ok(k) => k,
        Err(e) => { return Err(e); },
    };
    let local = if cfg.local.as_str().is_empty() { None } else { Some(cfg.local) };
    Ok(Settings { account, master_key, local })
}

/// Precedence of the sources, field by field: a non-empty flag value wins;
/// without a flag a non-empty file value wins; only where both are absent or
/// empty is the environment's value used. The local path follows the same
/// order but has no environment source.
pub proof fn source_precedence(cli: Option<Seq<char>>, file: Seq<char>, env: Option<Seq<char>>)
    requires
        cli matches Some(v) ==> v.len() > 0,
    ensures
        cli matches Some(v) ==> effective_credential(cli, file, env) == Some(v),
        cli is None && file.len() > 0 ==> effective_credential(cli, file, env) == Some(file),
        cli is None && file.len() == 0 ==> effective_credential(cli, file, env) == env,
        cli matches Some(v) ==> effective_local(cli, file) == Some(v),
        cli is None && file.len() > 0 ==> effective_local(cli, file) == Some(file),
        cli is None && file.len() == 0 ==> effective_local(cli, file) is None,
{
}

/// With no account in the file, none on the command line and none in the
/// environment, resolution fails with a configuration error naming the
/// account.
pub proof fn missing_account_is_configuration_error(file_account: Seq<char>)
    requires
        file_account.len() == 0,
    ensures
        effective_credential(None, file_account, None) is None,
        CliError::MissingCredential(Credential::Account).kind_spec() == ErrorKind::Configuration,
{
}

} // verus!
