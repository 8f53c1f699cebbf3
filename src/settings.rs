//! Process settings, and the choice of where they are read from.
use crate::text::{texts, trim, trimmed};
use vstd::prelude::*;

verus! {

/// Where the HTTP server listens.
#[derive(Debug, PartialEq, Eq, Clone)]
pub struct HttpSettings {
    pub host: String,
    pub port: u16,
}

/// The relay, the addresses every message goes out with, and the archive
/// directory.
#[derive(Debug, PartialEq, Eq, Clone)]
pub struct EmailSettings {
    pub smtp_host: String,
    pub smtp_port: u16,
    pub mailhog_host: String,
    pub mailhog_port: u16,
    pub from: String,
    pub recipients: Vec<String>,
    pub backup_dir: String,
}

/// The log filter and the directory of the log files.
#[derive(Debug, PartialEq, Eq, Clone)]
pub struct LogSettings {
    pub directive: String,
    pub log_dir: String,
}

/// All settings of the process.
#[derive(Debug, PartialEq, Eq, Clone)]
pub struct Settings {
    pub http: HttpSettings,
    pub email: EmailSettings,
    pub log: LogSettings,
}

/// The prefix of the environment variables that override settings.
pub const PREFIX: &'static str = "CONTACT_API";

/// The name of the environment variable that selects the environment.
pub const ENVIRONMENT_VARIABLE: &'static str = "CONTACT_API_ENVIRONMENT";

/// The settings files read for environment `env`, in order: the base file,
/// then, for a named environment, its own file.
pub open spec fn settings_files(env: Seq<char>) -> Seq<Seq<char>> {
    let base = "settings.yaml"@;
    if env.len() == 0 {
        seq![base]
    } else {
        seq![base, "settings."@ + env + ".yaml"@]
    }
}

impl Settings {
    /// The environment named by the variable's value: the value trimmed, or
    /// empty when the variable is not set.
    pub fn environment_name(value: Option<&str>) -> (r: String)
        ensures
            r@ == match value {
                Some(v) => trimmed(v@),
                None => Seq::<char>::empty(),
            },
    {
        match value {
            Some(v) => trim(v).to_owned(),
            None => String::new(),
        }
    }

    /// The settings files to read for environment `env`, in order.
    pub fn settings_files(env: &str) -> (r: Vec<String>)
        ensures
            texts(r@) == settings_files(env@),
    {
        let mut files: Vec<String> = Vec::new();
        files.push(String::from_str("settings.yaml"));
        if !env.is_empty() {
            let mut named = String::from_str("settings.");
            named.append(env);
            named.append(".yaml");
            files.push(named);
        }
        assert(texts(files@) =~= settings_files(env@));
        files
    }
}

} // verus!
