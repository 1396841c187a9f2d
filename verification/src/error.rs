//! The errors of the tool, by kind, and how a provider fault becomes one.
use vstd::prelude::*;
use vstd::string::*;
use vstd::std_specs::convert::FromSpecImpl;
use rusoto_core::region::ParseRegionError;
use rusoto_core::request::HttpDispatchError;
use rusoto_credential::CredentialsError;

verus! {

/// `rusoto_core::region::ParseRegionError`: why a region name was refused.
/// Nothing is claimed of what it holds.
#[verifier::external_type_specification]
#[verifier::external_body]
pub struct ExParseRegionError(ParseRegionError);

/// `rusoto_core::request::HttpDispatchError`: a request that could not be
/// sent or answered. Nothing is claimed of what it holds.
#[verifier::external_type_specification]
#[verifier::external_body]
pub struct ExHttpDispatchError(HttpDispatchError);

/// `rusoto_credential::CredentialsError`: credentials that could not be
/// found or read. Nothing is claimed of what it holds.
#[verifier::external_type_specification]
#[verifier::external_body]
pub struct ExCredentialsError(CredentialsError);

/// `chrono::ParseError`: why a date was refused. Nothing is claimed of what
/// it holds.
#[verifier::external_type_specification]
#[verifier::external_body]
pub struct ExDateParseError(chrono::ParseError);

/// `regex::Error`: why a pattern was refused. Nothing is claimed of what it
/// holds.
#[verifier::external_type_specification]
#[verifier::external_body]
pub struct ExRegexError(regex::Error);

/// `serde_json::Error`: why a value could not be written as JSON. Nothing is
/// claimed of what it holds.
#[verifier::external_type_specification]
#[verifier::external_body]
pub struct ExJsonError(serde_json::Error);

/// One error of a provider response that the client library could not
/// interpret.
#[derive(Clone, Debug)]
pub struct AwsXmlError {
    pub code: Option<String>,
    pub message: Option<String>,
}

/// The text of an optional part of a provider error: the part itself, or
/// `None` spelled out.
pub open spec fn part_or_none(part: Option<String>) -> Seq<char> {
    match part {
        Some(s) => s@,
        None => "None"@,
    }
}

fn part_text(part: &Option<String>) -> (r: &str)
    ensures
        r@ == part_or_none(*part),
{
    match part {
        Some(s) => s.as_str(),
        None => "None",
    }
}

impl AwsXmlError {
    /// The message, then the code on a line of its own.
    pub open spec fn text(&self) -> Seq<char> {
        part_or_none(self.message) + "\nError code: "@ + part_or_none(self.code)
    }

    /// The error as the tool prints it.
    pub fn message(&self) -> (r: String)
        ensures
            r@ == self.text(),
    {
        let mut r = String::from_str(part_text(&self.message));
        r.append("\nError code: ");
        r.append(part_text(&self.code));
        r
    }
}

/// What can go wrong in a call to the provider, as the client library
/// reports it.
#[derive(Debug)]
pub enum ServiceFault {
    /// The service refused the request; the text is its own account.
    Service(String),
    /// The request could not be sent or answered.
    HttpDispatch(HttpDispatchError),
    /// No usable credentials.
    Credentials(CredentialsError),
    /// The response could not be parsed.
    ParseError(String),
    /// The request was refused before it was sent.
    Validation(String),
    /// A fault that the client library does not know, in the provider's own
    /// words.
    Unknown { errors: Vec<AwsXmlError>, request_id: String },
    /// A blocking call failed.
    Blocking,
}

/// Every error the tool reports.
#[derive(Debug)]
#[allow(inconsistent_fields)]
pub enum AwsInstanceError {
    ParseRegionError { source: ParseRegionError },
    HttpDispatch { source: HttpDispatchError },
    Credentials { source: CredentialsError },
    Service { message: String },
    RusotoParseError { message: String },
    Validation { message: String },
    Unknown { errors: Vec<AwsXmlError>, request_id: String },
    StartInstanceError { instance_name: String, message: String },
    StopInstanceError { instance_name: String, message: String },
    CreateInstanceError { instance_name: String, message: String },
    DestroyInstanceError { instance_name: String, message: String },
    ProfileNotFoundError { profile_name: String },
    InstanceNotFoundError { instance_name: String },
    IPAddressNotFoundError { instance_name: String },
    DateParseError { error: chrono::ParseError },
    RegexParseError { error: regex::Error },
    JSONParseError { error: serde_json::Error },
    Blocking,
}

/// The error that a provider fault becomes: the same kind, holding the same
/// values.
pub open spec fn error_of_fault(fault: ServiceFault) -> AwsInstanceError {
    match fault {
        ServiceFault::Service(message) => AwsInstanceError::Service { message },
        ServiceFault::HttpDispatch(source) => AwsInstanceError::HttpDispatch { source },
        ServiceFault::Credentials(source) => AwsInstanceError::Credentials { source },
        ServiceFault::ParseError(message) => AwsInstanceError::RusotoParseError { message },
        ServiceFault::Validation(message) => AwsInstanceError::Validation { message },
        ServiceFault::Unknown { errors, request_id } => AwsInstanceError::Unknown {
            errors,
            request_id,
        },
        ServiceFault::Blocking => AwsInstanceError::Blocking,
    }
}

impl From<ServiceFault> for AwsInstanceError {
    fn from(fault: ServiceFault) -> (r: AwsInstanceError) {
        match fault {
            ServiceFault::Service(message) => AwsInstanceError::Service { message },
            ServiceFault::HttpDispatch(source) => AwsInstanceError::HttpDispatch { source },
            ServiceFault::Credentials(source) => AwsInstanceError::Credentials { source },
            ServiceFault::ParseError(message) => AwsInstanceError::RusotoParseError { message },
            ServiceFault::Validation(message) => AwsInstanceError::Validation { message },
            ServiceFault::Unknown { errors, request_id } => AwsInstanceError::Unknown {
                errors,
                request_id,
            },
            ServiceFault::Blocking => AwsInstanceError::Blocking,
        }
    }
}

impl FromSpecImpl<ServiceFault> for AwsInstanceError {
    open spec fn obeys_from_spec() -> bool {
        true
    }

    open spec fn from_spec(fault: ServiceFault) -> AwsInstanceError {
        error_of_fault(fault)
    }
}

/// Whether `e` is the error of the given command kind for instance `name`
/// with the given message.
pub open spec fn is_command_error(
    e: AwsInstanceError,
    kind: CommandKind,
    name: Seq<char>,
    text: Seq<char>,
) -> bool {
    match kind {
        CommandKind::Start => e matches AwsInstanceError::StartInstanceError {
            instance_name,
            message,
        } && instance_name@ == name && message@ == text,
        CommandKind::Stop => e matches AwsInstanceError::StopInstanceError {
            instance_name,
            message,
        } && instance_name@ == name && message@ == text,
        CommandKind::Create => e matches AwsInstanceError::CreateInstanceError {
            instance_name,
            message,
        } && instance_name@ == name && message@ == text,
        CommandKind::Destroy => e matches AwsInstanceError::DestroyInstanceError {
            instance_name,
            message,
        } && instance_name@ == name && message@ == text,
    }
}

/// The commands that report failures under their own kind of error.
#[derive(Clone, Copy, Debug, PartialEq, Eq, Structural)]
pub enum CommandKind {
    Start,
    Stop,
    Create,
    Destroy,
}

/// The error of a command on one instance.
pub fn command_error(kind: CommandKind, name: &str, text: &str) -> (e: AwsInstanceError)
    ensures
        is_command_error(e, kind, name@, text@),
{
    let instance_name = String::from_str(name);
    let message = String::from_str(text);
    match kind {
        CommandKind::Start => AwsInstanceError::StartInstanceError { instance_name, message },
        CommandKind::Stop => AwsInstanceError::StopInstanceError { instance_name, message },
        CommandKind::Create => AwsInstanceError::CreateInstanceError { instance_name, message },
        CommandKind::Destroy => AwsInstanceError::DestroyInstanceError { instance_name, message },
    }
}

/// The text of the first of the errors; nothing where there is none.
pub open spec fn first_text(errors: Seq<AwsXmlError>) -> Seq<char> {
    if errors.len() > 0 {
        errors[0].text()
    } else {
        Seq::empty()
    }
}

fn prefixed(prefix: &str, rest: &str) -> (r: String)
    ensures
        r@ == prefix@ + rest@,
{
    let mut r = String::from_str(prefix);
    r.append(rest);
    r
}

fn command_text(verb: &str, instance_name: &str, message: &str) -> (r: String)
    ensures
        r@ == "Error "@ + verb@ + " instance "@ + instance_name@ + ": "@ + message@,
{
    let mut r = String::from_str("Error ");
    r.append(verb);
    r.append(" instance ");
    r.append(instance_name);
    r.append(": ");
    r.append(message);
    r
}

impl AwsInstanceError {
    /// Whether `m` is the text of this error. Where the error wraps one of
    /// an outside crate, the text ends in that error's own `Display` output.
    pub open spec fn has_text(&self, m: Seq<char>) -> bool {
        match *self {
            AwsInstanceError::ParseRegionError { source } => exists|t: String|
                #[trigger] to_string_from_display_ensures::<ParseRegionError>(&source, t) && m
                    == "Error parsing region string: "@ + t@,
            AwsInstanceError::HttpDispatch { source } => exists|t: String|
                #[trigger] to_string_from_display_ensures::<HttpDispatchError>(&source, t) && m
                    == "HTTP Dispatch error: "@ + t@,
            AwsInstanceError::Credentials { source } => exists|t: String|
                #[trigger] to_string_from_display_ensures::<CredentialsError>(&source, t) && m
                    == "Credentials error: "@ + t@,
            AwsInstanceError::Service { message } => m == "Error in AWS service: "@ + message@,
            AwsInstanceError::RusotoParseError { message } => m == "Parse error: "@ + message@,
            AwsInstanceError::Validation { message } => m == "Validation error: "@ + message@,
            AwsInstanceError::Unknown { errors, request_id } => m == "Error with request ID "@
                + request_id@ + ": "@ + first_text(errors@),
            AwsInstanceError::StartInstanceError { instance_name, message } => m == "Error "@
                + "starting"@ + " instance "@ + instance_name@ + ": "@ + message@,
            AwsInstanceError::StopInstanceError { instance_name, message } => m == "Error "@
                + "stopping"@ + " instance "@ + instance_name@ + ": "@ + message@,
            AwsInstanceError::CreateInstanceError { instance_name, message } => m == "Error "@
                + "creating"@ + " instance "@ + instance_name@ + ": "@ + message@,
            AwsInstanceError::DestroyInstanceError { instance_name, message } => m == "Error "@
                + "destroying"@ + " instance "@ + instance_name@ + ": "@ + message@,
            AwsInstanceError::ProfileNotFoundError { profile_name } => m == "Profile named "@
                + profile_name@ + " not found"@,
            AwsInstanceError::InstanceNotFoundError { instance_name } => m == "Instance named "@
                + instance_name@ + " not found"@,
            AwsInstanceError::IPAddressNotFoundError { instance_name } => m
                == "Public IP address not found for "@ + instance_name@ + " - is it stopped?"@,
            AwsInstanceError::DateParseError { error } => exists|t: String|
                #[trigger] to_string_from_display_ensures::<chrono::ParseError>(&error, t) && m
                    == "Error parsing date: "@ + t@,
            AwsInstanceError::RegexParseError { error } => exists|t: String|
                #[trigger] to_string_from_display_ensures::<regex::Error>(&error, t) && m
                    == "Error parsing search string: "@ + t@,
            AwsInstanceError::JSONParseError { error } => exists|t: String|
                #[trigger] to_string_from_display_ensures::<serde_json::Error>(&error, t) && m
                    == "Error parsing JSON: "@ + t@,
            AwsInstanceError::Blocking => m == "Blocking error"@,
        }
    }

    /// The error as the tool prints it. An unknown provider fault is printed
    /// by its first error; one that holds none is printed without.
    pub fn message(&self) -> (r: String)
        ensures
            self.has_text(r@),
    {
        match self {
            AwsInstanceError::ParseRegionError { source } => {
                let t = source.to_string();
                prefixed("Error parsing region string: ", t.as_str())
            },
            AwsInstanceError::HttpDispatch { source } => {
                let t = source.to_string();
                prefixed("HTTP Dispatch error: ", t.as_str())
            },
            AwsInstanceError::Credentials { source } => {
                let t = source.to_string();
                prefixed("Credentials error: ", t.as_str())
            },
            AwsInstanceError::Service { message } => prefixed(
                "Error in AWS service: ",
                message.as_str(),
            ),
            AwsInstanceError::RusotoParseError { message } => prefixed(
                "Parse error: ",
                message.as_str(),
            ),
            AwsInstanceError::Validation { message } => prefixed(
                "Validation error: ",
                message.as_str(),
            ),
            AwsInstanceError::Unknown { errors, request_id } => {
                let first = if errors.len() > 0 {
                    errors[0].message()
                } else {
                    String::new()
                };
                let mut r = String::from_str("Error with request ID ");
                r.append(request_id.as_str());
                r.append(": ");
                r.append(first.as_str());
                r
            },
            AwsInstanceError::StartInstanceError { instance_name, message } => command_text(
                "starting",
                instance_name.as_str(),
                message.as_str(),
            ),
            AwsInstanceError::StopInstanceError { instance_name, message } => command_text(
                "stopping",
                instance_name.as_str(),
                message.as_str(),
            ),
            AwsInstanceError::CreateInstanceError { instance_name, message } => command_text(
                "creating",
                instance_name.as_str(),
                message.as_str(),
            ),
            AwsInstanceError::DestroyInstanceError { instance_name, message } => command_text(
                "destroying",
                instance_name.as_str(),
                message.as_str(),
            ),
            AwsInstanceError::ProfileNotFoundError { profile_name } => {
                let mut r = String::from_str("Profile named ");
                r.append(profile_name.as_str());
                r.append(" not found");
                r
            },
            AwsInstanceError::InstanceNotFoundError { instance_name } => {
                let mut r = String::from_str("Instance named ");
                r.append(instance_name.as_str());
                r.append(" not found");
                r
            },
            AwsInstanceError::IPAddressNotFoundError { instance_name } => {
                let mut r = String::from_str("Public IP address not found for ");
                r.append(instance_name.as_str());
                r.append(" - is it stopped?");
                r
            },
            AwsInstanceError::DateParseError { error } => {
                let t = error.to_string();
                prefixed("Error parsing date: ", t.as_str())
            },
            AwsInstanceError::RegexParseError { error } => {
                let t = error.to_string();
                prefixed("Error parsing search string: ", t.as_str())
            },
            AwsInstanceError::JSONParseError { error } => {
                let t = error.to_string();
                prefixed("Error parsing JSON: ", t.as_str())
            },
            AwsInstanceError::Blocking => String::from_str("Blocking error"),
        }
    }
}

} // verus!
