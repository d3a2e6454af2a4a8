//! The three operations of the tool and the decisions between them: which
//! operation the command line asks for, and what each one does with the saved
//! setting.

use vstd::prelude::*;
use crate::config::Config;
use crate::request::{LookupArgs, LookupRequest, request_json, servers_for};

verus! {

/// What the command line asks for.
pub enum Command {
    /// Save a new endpoint.
    Setup(String),
    /// Print the saved endpoint.
    ShowConfig,
    /// Look a name up.
    Lookup(LookupArgs),
}

/// A command line that names no operation completely.
pub enum UsageError {
    MissingDomain,
    MissingRecordType,
}

/// The causes that end a run.
pub enum DiggerError {
    /// No endpoint is saved and the operation needs one.
    ConfigMissing,
    /// The configuration file could not be written.
    ConfigIo,
    /// The service could not be reached, or its answer not read.
    Transport,
    /// The answer is not a lookup result.
    Schema,
}

/// What the caller is to do next.
pub enum Step {
    /// Write `config` to the configuration file, then print `message`.
    Save { config: Config, message: String },
    /// Print `lines`.
    Show { lines: Vec<String> },
    /// Post `body` to `url`, then render the answer in the mode `advanced`.
    Send { url: String, body: String, advanced: bool },
}

/// The diagnostic for a missing endpoint: it tells the operator to run setup.
pub open spec fn config_missing_text() -> Seq<char> {
    "Configuration not found. Run 'digger --setup <URL>' first."@
}

/// The diagnostic printed for each cause.
pub open spec fn error_text(e: DiggerError) -> Seq<char> {
    match e {
        DiggerError::ConfigMissing => config_missing_text(),
        DiggerError::ConfigIo => "Failed to write configuration"@,
        DiggerError::Transport => "Failed to send request"@,
        DiggerError::Schema => "Failed to parse response JSON"@,
    }
}

impl DiggerError {
    /// The diagnostic printed for this error.
    pub fn message(&self) -> (r: String)
        ensures
            r@ == error_text(*self),
    {
        match self {
            DiggerError::ConfigMissing => {
                "Configuration not found. Run 'digger --setup <URL>' first.".to_string()
            },
            DiggerError::ConfigIo => "Failed to write configuration".to_string(),
            DiggerError::Transport => "Failed to send request".to_string(),
            DiggerError::Schema => "Failed to parse response JSON".to_string(),
        }
    }
}

impl UsageError {
    /// The diagnostic printed for this error.
    pub fn message(&self) -> (r: String)
        ensures
            r@ == (match *self {
                UsageError::MissingDomain => "The domain to look up is required"@,
                UsageError::MissingRecordType => "The DNS record type is required"@,
            }),
    {
        match self {
            UsageError::MissingDomain => "The domain to look up is required".to_string(),
            UsageError::MissingRecordType => "The DNS record type is required".to_string(),
        }
    }
}

/// Picks the operation: a setup URL wins, then the request to show the
/// configuration; otherwise a lookup, which needs both the domain and the
/// record type.
pub fn resolve_command(
    setup: Option<String>,
    show_config: bool,
    domain: Option<String>,
    record_type: Option<String>,
    advanced: bool,
    dns_servers: Option<String>,
) -> (r: Result<Command, UsageError>)
    ensures
        setup is Some ==> (r matches Ok(Command::Setup(u)) && u@ == setup->Some_0@),
        setup is None && show_config ==> r matches Ok(Command::ShowConfig),
        setup is None && !show_config && domain is None ==> r matches Err(
            UsageError::MissingDomain,
        ),
        setup is None && !show_config && domain is Some && record_type is None ==> r matches Err(
            UsageError::MissingRecordType,
        ),
        setup is None && !show_config && domain is Some && record_type is Some ==> (r matches Ok(
            Command::Lookup(a),
        ) && a.domain@ == domain->Some_0@ && a.record_type@ == record_type->Some_0@
            && a.advanced == advanced && a.dns_servers.deep_view() == dns_servers.deep_view()),
{
    match setup {
        Some(url) => Ok(Command::Setup(url)),
        None => {
            if show_config {
                Ok(Command::ShowConfig)
            } else {
                match domain {
                    None => Err(UsageError::MissingDomain),
                    Some(domain) => match record_type {
                        None => Err(UsageError::MissingRecordType),
                        Some(record_type) => Ok(
                            Command::Lookup(LookupArgs { domain, record_type, advanced, dns_servers }),
                        ),
                    },
                }
            }
        },
    }
}

/// The confirmation printed after a new endpoint is saved.
pub fn setup_message(url: &str) -> (r: String)
    ensures
        r@ == "API URL set to "@ + url@,
{
    let mut r = "API URL set to ".to_string();
    r.append(url);
    r
}

/// The lines that show the saved setting.
pub fn config_lines(c: &Config) -> (r: Vec<String>)
    ensures
        r.deep_view() == seq!["Current configuration:"@, "API URL: "@ + c.api_url@],
{
    let mut url = "API URL: ".to_string();
    url.append(c.api_url.as_str());
    let r = vec!["Current configuration:".to_string(), url];
    assert(r.deep_view() =~= seq!["Current configuration:"@, "API URL: "@ + c.api_url@]);
    r
}

/// Decides what `cmd` does given the saved setting `stored`. Setup saves the
/// new endpoint whatever was stored; showing the configuration and looking a
/// name up both need a saved endpoint and fail with `ConfigMissing` without
/// one. A lookup posts its request body to the saved endpoint.
pub fn dispatch(cmd: Command, stored: Option<Config>) -> (r: Result<Step, DiggerError>)
    ensures
        cmd matches Command::Setup(u) ==> (r matches Ok(Step::Save { config, message }) && config.api_url@ == u@
            && message@ == "API URL set to "@ + u@),
        !(cmd is Setup) && stored is None ==> r matches Err(DiggerError::ConfigMissing),
        cmd is ShowConfig && stored is Some ==> (r matches Ok(Step::Show { lines }) && lines.deep_view()
            == seq!["Current configuration:"@, "API URL: "@ + stored->Some_0.api_url@]),
        cmd matches Command::Lookup(a) ==> stored is Some ==> (r matches Ok(Step::Send { url, body, advanced }) && url@ == stored->Some_0.api_url@
            && advanced == a.advanced && body@ == request_json(
            a.domain@,
            a.record_type@,
            servers_for(a.dns_servers.deep_view()),
            a.advanced,
        )),
{
    match cmd {
        Command::Setup(url) => {
            let message = setup_message(url.as_str());
            Ok(Step::Save { config: Config::new(url), message })
        },
        Command::ShowConfig => match stored {
            None => Err(DiggerError::ConfigMissing),
            Some(config) => Ok(Step::Show { lines: config_lines(&config) }),
        },
        Command::Lookup(args) => match stored {
            None => Err(DiggerError::ConfigMissing),
            Some(config) => {
                let request = LookupRequest::from_args(&args);
                let body = request.to_json();
                Ok(Step::Send { url: config.api_url, body, advanced: args.advanced })
            },
        },
    }
}

} // verus!
