//! Error taxonomy of the cache server and its mapping to HTTP statuses.

use vstd::prelude::*;
use vstd::string::*;

verus! {

/// Status for a failing storage API. Nix shows the error but does not retry
/// on it, which keeps a failing backend from being flooded with retries.
pub const STATUS_IM_A_TEAPOT: u16 = 418;

pub const STATUS_OK: u16 = 200;

pub const STATUS_NOT_FOUND: u16 = 404;

pub const STATUS_BAD_REQUEST: u16 = 400;

pub const STATUS_INTERNAL_SERVER_ERROR: u16 = 500;

/// Every failure of the cache server. Causes that come from outside
/// services are carried as their textual description.
pub enum Error {
    /// The storage API answered with an error.
    Api(String),
    NotFound,
    BadRequest,
    Io(String),
    FailedToUpload,
    GHADisabled,
    FlakeHub(String),
    FlakeHubHttp(String),
    /// The HTTP status (as text) and the body that FlakeHub answered with.
    GetCacheName(String, String),
    Netrc(String),
    MissingCreds(String),
    Attic(String),
    BadUrl(String),
    Config(String),
}

pub const STATUS_TEMPORARY_REDIRECT: u16 = 307;

/// What the server sends back: a status code, the target of a redirect, if
/// any, and a body.
pub struct Response {
    pub status: u16,
    pub location: Option<String>,
    pub body: String,
}

/// `prefix` followed by `detail`.
fn describe(prefix: &str, detail: &String) -> (r: String)
    ensures
        r@ == prefix@ + detail@,
{
    let mut r = String::from_str(prefix);
    r.append(detail.as_str());
    r
}

impl Error {
    /// The status code that each kind of failure is reported with.
    pub open spec fn status_spec(&self) -> u16 {
        match self {
            Error::Api(_) => STATUS_IM_A_TEAPOT,
            Error::NotFound => STATUS_NOT_FOUND,
            Error::BadRequest => STATUS_BAD_REQUEST,
            _ => STATUS_INTERNAL_SERVER_ERROR,
        }
    }

    /// The human-readable description of the failure.
    pub open spec fn message_spec(&self) -> Seq<char> {
        match self {
            Error::Api(e) => "GitHub API error: "@ + e@,
            Error::NotFound => "Not Found"@,
            Error::BadRequest => "Bad Request"@,
            Error::Io(e) => "I/O error: "@ + e@,
            Error::FailedToUpload => "Failed to upload paths"@,
            Error::GHADisabled => "GHA cache is disabled"@,
            Error::FlakeHub(e) => "FlakeHub cache error: "@ + e@,
            Error::FlakeHubHttp(e) => "FlakeHub HTTP error: "@ + e@,
            Error::GetCacheName(status, body) => "Got HTTP response "@ + status@
                + " getting the cache name from FlakeHub: "@ + body@,
            Error::Netrc(e) => "netrc parse error: "@ + e@,
            Error::MissingCreds(host) => "Cannot find netrc credentials for "@ + host@,
            Error::Attic(e) => "Attic error: "@ + e@,
            Error::BadUrl(_) => "Bad URL"@,
            Error::Config(e) => "Configuration error: "@ + e@,
        }
    }

    pub fn status(&self) -> (r: u16)
        ensures
            r == self.status_spec(),
    {
        match self {
            Error::Api(_) => STATUS_IM_A_TEAPOT,
            Error::NotFound => STATUS_NOT_FOUND,
            Error::BadRequest => STATUS_BAD_REQUEST,
            _ => STATUS_INTERNAL_SERVER_ERROR,
        }
    }

    pub fn message(&self) -> (r: String)
        ensures
            r@ == self.message_spec(),
    {
        match self {
            Error::Api(e) => describe("GitHub API error: ", e),
            Error::NotFound => String::from_str("Not Found"),
            Error::BadRequest => String::from_str("Bad Request"),
            Error::Io(e) => describe("I/O error: ", e),
            Error::FailedToUpload => String::from_str("Failed to upload paths"),
            Error::GHADisabled => String::from_str("GHA cache is disabled"),
            Error::FlakeHub(e) => describe("FlakeHub cache error: ", e),
            Error::FlakeHubHttp(e) => describe("FlakeHub HTTP error: ", e),
            Error::GetCacheName(status, body) => {
                let mut r = describe("Got HTTP response ", status);
                r.append(" getting the cache name from FlakeHub: ");
                r.append(body.as_str());
                r
            },
            Error::Netrc(e) => describe("netrc parse error: ", e),
            Error::MissingCreds(host) => describe("Cannot find netrc credentials for ", host),
            Error::Attic(e) => describe("Attic error: ", e),
            Error::BadUrl(_) => String::from_str("Bad URL"),
            Error::Config(e) => describe("Configuration error: ", e),
        }
    }

    /// The response that reports this failure: its status and its description.
    pub fn into_response(self) -> (r: Response)
        ensures
            r.status == self.status_spec(),
            r.location is None,
            r.body@ == self.message_spec(),
    {
        let status = self.status();
        let body = self.message();
        Response { status, location: None, body }
    }
}

} // verus!
