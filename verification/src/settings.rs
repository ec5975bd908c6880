//! The settings command-line client: service addresses, request paths, the
//! delete routing of named resources, file sources and the health check.
use vstd::prelude::*;
use vstd::string::*;
use crate::text::{decimal, push_decimal, str_eq, trim_end, trim_end_char};

verus! {

/// Errors of the settings command-line client.
#[derive(Debug, Clone)]
pub enum CliError {
    /// A failure described in words.
    Custom(String),
    /// A resource type that the client cannot delete.
    InvalidResourceType(String),
    /// A failure to read input.
    Io(String),
    /// A failed HTTP exchange.
    Http(String),
}

/// The text of a client error.
pub open spec fn cli_error_message(e: CliError) -> Seq<char> {
    match e {
        CliError::Custom(m) => "Error: "@ + m@,
        CliError::InvalidResourceType(t) => "Invalid resource type: "@ + t@,
        CliError::Io(m) => "IO error: "@ + m@,
        CliError::Http(m) => "HTTP error: "@ + m@,
    }
}

impl CliError {
    /// The text of the error.
    pub fn to_string(&self) -> (r: String)
        ensures
            r@ == cli_error_message(*self),
    {
        let (prefix, detail) = match self {
            CliError::Custom(m) => ("Error: ", m),
            CliError::InvalidResourceType(t) => ("Invalid resource type: ", t),
            CliError::Io(m) => ("IO error: ", m),
            CliError::Http(m) => ("HTTP error: ", m),
        };
        let mut r = String::from_str(prefix);
        r.append(detail.as_str());
        r
    }
}

// ---------------------------------------------------------------------------
// Addresses
// ---------------------------------------------------------------------------

/// The address of a service: the base URL without trailing slashes, a colon and the port.
pub open spec fn service_url_of(base: Seq<char>, port: u16) -> Seq<char> {
    trim_end(base, '/') + ":"@ + decimal(port as nat)
}

/// The address of the service listening on `port` at the host of `base`.
pub fn service_url(base: &str, port: u16) -> (r: String)
    ensures
        r@ == service_url_of(base@, port),
{
    let mut r = trim_end_char(base, '/');
    r.append(":");
    push_decimal(&mut r, port as u64);
    r
}

/// Path of the settings service health endpoint.
pub open spec fn settings_health_path() -> Seq<char> {
    "/api/v1/health"@
}

/// Path of the API server health endpoint.
pub open spec fn api_health_path() -> Seq<char> {
    "/api/health"@
}

/// Path at which the API server takes YAML artifacts.
pub open spec fn artifact_path() -> Seq<char> {
    "/api/artifact"@
}

/// A client of one HTTP service.
pub struct SettingsClient {
    /// Scheme, host and port of the service.
    pub base_url: String,
    /// Request timeout in seconds.
    pub timeout_secs: u64,
}

impl SettingsClient {
    /// A client for the service at `base_url`; any URL and timeout are accepted.
    pub fn new(base_url: &str, timeout_secs: u64) -> (r: Result<SettingsClient, CliError>)
        ensures
            r matches Ok(c) && c.base_url@ == base_url@ && c.timeout_secs == timeout_secs,
    {
        Ok(SettingsClient { base_url: String::from_str(base_url), timeout_secs })
    }

    /// The full address of `path` on this client's service.
    pub fn url_for(&self, path: &str) -> (r: String)
        ensures
            r@ == self.base_url@ + path@,
    {
        let mut r = self.base_url.clone();
        r.append(path);
        r
    }

    /// The settings service health address.
    pub fn health_url(&self) -> (r: String)
        ensures
            r@ == self.base_url@ + settings_health_path(),
    {
        self.url_for("/api/v1/health")
    }

    /// The API server health address.
    pub fn api_health_url(&self) -> (r: String)
        ensures
            r@ == self.base_url@ + api_health_path(),
    {
        self.url_for("/api/health")
    }

    /// The API server artifact address.
    pub fn artifact_url(&self) -> (r: String)
        ensures
            r@ == self.base_url@ + artifact_path(),
    {
        self.url_for("/api/artifact")
    }
}

// ---------------------------------------------------------------------------
// Command routing
// ---------------------------------------------------------------------------

/// The command groups of the client.
#[derive(Debug, Clone, Copy, PartialEq, Eq, Structural)]
pub enum CommandKind {
    Metrics,
    Board,
    Node,
    Soc,
    Container,
    /// YAML artifact commands (apply, withdraw, delete).
    Yaml,
    Health,
}

/// The services a command talks to.
#[derive(Debug, Clone, Copy, PartialEq, Eq, Structural)]
pub enum Service {
    /// The settings service.
    Settings,
    /// The API server.
    Api,
    /// The settings service, then the API server.
    Both,
}

/// YAML commands go to the API server, the health check to both services, every other
/// command to the settings service.
pub open spec fn service_of(kind: CommandKind) -> Service {
    match kind {
        CommandKind::Yaml => Service::Api,
        CommandKind::Health => Service::Both,
        _ => Service::Settings,
    }
}

/// The service a command is sent to (see `service_of`).
pub fn command_service(kind: CommandKind) -> (r: Service)
    ensures
        r == service_of(kind),
{
    match kind {
        CommandKind::Yaml => Service::Api,
        CommandKind::Health => Service::Both,
        _ => Service::Settings,
    }
}

// ---------------------------------------------------------------------------
// Deleting named resources
// ---------------------------------------------------------------------------

/// The Unicode lower-case mapping of a string (`str::to_lowercase`).
pub uninterp spec fn unicode_lowercase(s: Seq<char>) -> Seq<char>;

/// `str::to_lowercase`: the string with every character replaced by its Unicode
/// lower-case mapping. Claimed: the result is `unicode_lowercase` of the argument.
#[verifier::external_body]
fn to_lowercase(s: &str) -> (r: String)
    ensures
        r@ == unicode_lowercase(s@),
{
    s.to_lowercase()
}

/// The API path that deletes resource `name` of a type whose lower-case name is `lowered`:
/// scenarios and packages can be deleted, any other type is refused.
pub open spec fn delete_path_of(lowered: Seq<char>, resource_type: Seq<char>, name: Seq<char>) -> Result<Seq<char>, Seq<char>> {
    if lowered == "scenario"@ {
        Ok("/api/v1/scenarios/"@ + name)
    } else if lowered == "package"@ {
        Ok("/api/v1/packages/"@ + name)
    } else {
        Err(resource_type)
    }
}

/// The delete path for a resource type already in lower case (see `delete_path_of`);
/// a refused type is reported as `InvalidResourceType` with the type as given.
pub fn delete_endpoint_for(lowered: &str, resource_type: &str, name: &str) -> (r: Result<String, CliError>)
    ensures
        match r {
            Ok(p) => delete_path_of(lowered@, resource_type@, name@) == Ok::<Seq<char>, Seq<char>>(p@),
            Err(e) => e matches CliError::InvalidResourceType(t)
                && delete_path_of(lowered@, resource_type@, name@) == Err::<Seq<char>, Seq<char>>(t@),
        },
{
    if str_eq(lowered, "scenario") {
        let mut p = String::from_str("/api/v1/scenarios/");
        p.append(name);
        Ok(p)
    } else if str_eq(lowered, "package") {
        let mut p = String::from_str("/api/v1/packages/");
        p.append(name);
        Ok(p)
    } else {
        Err(CliError::InvalidResourceType(String::from_str(resource_type)))
    }
}

/// The API path that deletes the resource `name` of `resource_type`, whose case is ignored.
pub fn delete_endpoint(resource_type: &str, name: &str) -> (r: Result<String, CliError>)
    ensures
        match r {
            Ok(p) => delete_path_of(unicode_lowercase(resource_type@), resource_type@, name@)
                == Ok::<Seq<char>, Seq<char>>(p@),
            Err(e) => e matches CliError::InvalidResourceType(t)
                && delete_path_of(unicode_lowercase(resource_type@), resource_type@, name@)
                == Err::<Seq<char>, Seq<char>>(t@),
        },
{
    let lowered = to_lowercase(resource_type);
    delete_endpoint_for(lowered.as_str(), resource_type, name)
}

// ---------------------------------------------------------------------------
// Applying files
// ---------------------------------------------------------------------------

/// Where the content of an `apply` comes from.
pub enum FileSource {
    /// Standard input (the path `-`).
    Stdin,
    /// The file at this path.
    File(String),
}

/// The source that an `apply` path names: `-` is standard input, anything else a file.
pub fn file_source(path: &str) -> (r: FileSource)
    ensures
        path@ == "-"@ ==> r is Stdin,
        path@ != "-"@ ==> (r matches FileSource::File(p) && p@ == path@),
{
    if str_eq(path, "-") {
        FileSource::Stdin
    } else {
        FileSource::File(String::from_str(path))
    }
}

/// The error for a file that does not exist.
pub fn file_not_found(path: &str) -> (r: CliError)
    ensures
        r matches CliError::Custom(m) && m@ == "File not found: "@ + path@,
{
    let mut m = String::from_str("File not found: ");
    m.append(path);
    CliError::Custom(m)
}

/// The progress message of an `apply`: `Applying <file>...`.
pub fn applying_message(file: &str) -> (r: String)
    ensures
        r@ == "Applying "@ + file@ + "..."@,
{
    let mut r = String::from_str("Applying ");
    r.append(file);
    r.append("...");
    r
}

/// The success message of an `apply`: `<file> applied successfully`.
pub fn applied_message(file: &str) -> (r: String)
    ensures
        r@ == file@ + " applied successfully"@,
{
    let mut r = String::from_str(file);
    r.append(" applied successfully");
    r
}

/// The progress message of a `delete`: `Deleting <type> '<name>'...`.
pub fn deleting_message(resource_type: &str, name: &str) -> (r: String)
    ensures
        r@ == "Deleting "@ + resource_type@ + " '"@ + name@ + "'..."@,
{
    let mut r = String::from_str("Deleting ");
    r.append(resource_type);
    r.append(" '");
    r.append(name);
    r.append("'...");
    r
}

/// The success message of a `delete`: `<type> '<name>' deleted`.
pub fn deleted_message(resource_type: &str, name: &str) -> (r: String)
    ensures
        r@ == resource_type@ + " '"@ + name@ + "' deleted"@,
{
    let mut r = String::from_str(resource_type);
    r.append(" '");
    r.append(name);
    r.append("' deleted");
    r
}

// ---------------------------------------------------------------------------
// Health check
// ---------------------------------------------------------------------------

/// Progress of a health check of the settings service and then the API server.
#[derive(Debug, Clone)]
pub enum HealthStep {
    /// The settings service is to be probed.
    CheckSettings,
    /// The settings service is healthy; the API server is to be probed.
    CheckApi,
    /// Both services are healthy.
    Passed,
    /// The settings service did not answer.
    SettingsUnreachable,
    /// The API server did not answer.
    ApiUnreachable,
    /// A probe failed with this error.
    Failed(CliError),
}

/// The step that follows `step` when the probe it made answered `probe`
/// (`Ok(true)`: healthy, `Ok(false)`: not reachable, `Err`: the probe failed).
/// Finished steps stay as they are.
pub open spec fn health_next(step: HealthStep, probe: Result<bool, CliError>) -> HealthStep {
    match step {
        HealthStep::CheckSettings => match probe {
            Ok(true) => HealthStep::CheckApi,
            Ok(false) => HealthStep::SettingsUnreachable,
            Err(e) => HealthStep::Failed(e),
        },
        HealthStep::CheckApi => match probe {
            Ok(true) => HealthStep::Passed,
            Ok(false) => HealthStep::ApiUnreachable,
            Err(e) => HealthStep::Failed(e),
        },
        _ => step,
    }
}

/// Whether a step still waits for a probe.
pub open spec fn health_pending(step: HealthStep) -> bool {
    step is CheckSettings || step is CheckApi
}

/// Advances a health check by the answer of the probe it made.
pub fn next_health_step(step: HealthStep, probe: Result<bool, CliError>) -> (r: HealthStep)
    ensures
        r == health_next(step, probe),
{
    match step {
        HealthStep::CheckSettings => match probe {
            Ok(true) => HealthStep::CheckApi,
            Ok(false) => HealthStep::SettingsUnreachable,
            Err(e) => HealthStep::Failed(e),
        },
        HealthStep::CheckApi => match probe {
            Ok(true) => HealthStep::Passed,
            Ok(false) => HealthStep::ApiUnreachable,
            Err(e) => HealthStep::Failed(e),
        },
        _ => step,
    }
}

/// The outcome of a finished health check: success when both services are healthy,
/// else the error that stopped it.
pub fn health_outcome(step: HealthStep) -> (r: Result<(), CliError>)
    requires
        !health_pending(step),
    ensures
        step is Passed ==> r is Ok,
        step is SettingsUnreachable ==> (r matches Err(CliError::Custom(m))
            && m@ == "SettingsService health check failed"@),
        step is ApiUnreachable ==> (r matches Err(CliError::Custom(m))
            && m@ == "API Server health check failed"@),
        step matches HealthStep::Failed(e) ==> r == Err::<(), CliError>(e),
{
    match step {
        HealthStep::SettingsUnreachable => Err(
            CliError::Custom(String::from_str("SettingsService health check failed")),
        ),
        HealthStep::ApiUnreachable => Err(
            CliError::Custom(String::from_str("API Server health check failed")),
        ),
        HealthStep::Failed(e) => Err(e),
        _ => Ok(()),
    }
}

} // verus!
