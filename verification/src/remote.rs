//! What both transports share: the credential of the remote session, the
//! cookie that carries it, and the errors a transport reports.

use vstd::prelude::*;

verus! {

/// The host of the note service.
pub const HOST: &'static str = "scrapbox.io";

/// The address that the session cookie is set for.
pub const SITE_URL: &'static str = "https://scrapbox.io/";

/// The name of the cookie that carries the session.
pub const SESSION_COOKIE_NAME: &'static str = "connect.sid";

/// The port of the secure connection that the cookie is bound to.
pub const SECURE_PORT: u16 = 443;

/// Why no credential could be made: a required setting is absent.
#[derive(Clone, Copy, Debug, PartialEq, Eq, Structural)]
pub enum ConfigError {
    /// The session identifier is not set.
    MissingSessionId,
    /// The project name is not set.
    MissingProject,
}

impl ConfigError {
    /// What to tell the operator.
    pub open spec fn message_text(self) -> Seq<char> {
        match self {
            ConfigError::MissingSessionId => "SCRAPBOX_SID must be set in .env file"@,
            ConfigError::MissingProject => "SCRAPBOX_PROJECT_NAME must be set in .env file"@,
        }
    }

    /// What to tell the operator.
    pub fn message(&self) -> (text: &'static str)
        ensures
            text@ == self.message_text(),
    {
        match self {
            ConfigError::MissingSessionId => "SCRAPBOX_SID must be set in .env file",
            ConfigError::MissingProject => "SCRAPBOX_PROJECT_NAME must be set in .env file",
        }
    }
}

/// The model of a credential: the session identifier and the project name.
pub struct CredentialModel {
    pub session_id: Seq<char>,
    pub project: Seq<char>,
}

/// The session identifier and the project that pages are published to. It is
/// made once, before any request, and only read afterwards.
#[derive(Clone, Debug, PartialEq, Eq)]
pub struct RemoteCredential {
    session_id: String,
    project: String,
}

impl View for RemoteCredential {
    type V = CredentialModel;

    closed spec fn view(&self) -> CredentialModel {
        CredentialModel { session_id: self.session_id@, project: self.project@ }
    }
}

impl RemoteCredential {
    /// The credential made of the two settings. A setting that is absent is
    /// an error, the session identifier's first.
    pub fn from_settings(session_id: Option<String>, project: Option<String>) -> (credential:
        Result<RemoteCredential, ConfigError>)
        ensures
            session_id is None ==> credential == Err::<RemoteCredential, ConfigError>(
                ConfigError::MissingSessionId,
            ),
            session_id is Some && project is None ==> credential == Err::<
                RemoteCredential,
                ConfigError,
            >(ConfigError::MissingProject),
            session_id is Some && project is Some ==> credential is Ok && credential->Ok_0@ == (
            CredentialModel { session_id: session_id->0@, project: project->0@ }),
    {
        match session_id {
            None => Err(ConfigError::MissingSessionId),
            Some(session_id) => match project {
                None => Err(ConfigError::MissingProject),
                Some(project) => Ok(RemoteCredential { session_id, project }),
            },
        }
    }

    /// The session identifier.
    pub fn session_id(&self) -> (session_id: &str)
        ensures
            session_id@ == self@.session_id,
    {
        self.session_id.as_str()
    }

    /// The name of the project.
    pub fn project(&self) -> (project: &str)
        ensures
            project@ == self@.project,
    {
        self.project.as_str()
    }

    /// The cookie to hand to a browser session.
    pub fn session_cookie(&self) -> (cookie: SessionCookie)
        ensures
            cookie@ == session_cookie_model(self@.session_id),
    {
        SessionCookie {
            name: SESSION_COOKIE_NAME.to_owned(),
            value: self.session_id.clone(),
            url: SITE_URL.to_owned(),
            domain: HOST.to_owned(),
            path: "/".to_owned(),
            expires: None,
            http_only: true,
            secure: true,
            same_party: false,
            priority: CookiePriority::Medium,
            source_scheme: SourceScheme::Secure,
            source_port: SECURE_PORT,
        }
    }

    /// The value of the `Cookie` header of a direct request: the cookie's
    /// name, an equals sign, and the session identifier.
    pub fn cookie_header(&self) -> (header: String)
        ensures
            header@ == cookie_header_text(self@.session_id),
    {
        let mut header = SESSION_COOKIE_NAME.to_owned();
        header.push('=');
        header.append(self.session_id.as_str());
        header
    }
}

/// The value of the `Cookie` header that carries `session_id`.
pub open spec fn cookie_header_text(session_id: Seq<char>) -> Seq<char> {
    SESSION_COOKIE_NAME@.push('=') + session_id
}

/// How a browser ranks a cookie when it has to drop some.
#[derive(Clone, Copy, Debug, PartialEq, Eq, Structural)]
pub enum CookiePriority {
    Low,
    Medium,
    High,
}

/// The kind of connection that a cookie was set over.
#[derive(Clone, Copy, Debug, PartialEq, Eq, Structural)]
pub enum SourceScheme {
    Unset,
    NonSecure,
    Secure,
}

/// The model of a session cookie.
pub struct CookieModel {
    pub name: Seq<char>,
    pub value: Seq<char>,
    pub url: Seq<char>,
    pub domain: Seq<char>,
    pub path: Seq<char>,
    pub expires: Option<u64>,
    pub http_only: bool,
    pub secure: bool,
    pub same_party: bool,
    pub priority: CookiePriority,
    pub source_scheme: SourceScheme,
    pub source_port: u16,
}

/// The cookie that carries `session_id`: bound to the service's host alone,
/// valid for every path, sent only over secure connections, hidden from
/// scripts, and without an expiry, so that it lasts as long as the session.
/// It is of medium priority, belongs to no set of parties, and counts as set
/// over the secure port.
pub open spec fn session_cookie_model(session_id: Seq<char>) -> CookieModel {
    CookieModel {
        name: SESSION_COOKIE_NAME@,
        value: session_id,
        url: SITE_URL@,
        domain: HOST@,
        path: "/"@,
        expires: None,
        http_only: true,
        secure: true,
        same_party: false,
        priority: CookiePriority::Medium,
        source_scheme: SourceScheme::Secure,
        source_port: SECURE_PORT,
    }
}

/// A cookie as a browser session takes it.
#[derive(Clone, Debug, PartialEq, Eq)]
pub struct SessionCookie {
    pub name: String,
    pub value: String,
    pub url: String,
    pub domain: String,
    pub path: String,
    /// When the cookie expires, in seconds since 1970; `None` for a cookie
    /// that lasts as long as the session.
    pub expires: Option<u64>,
    pub http_only: bool,
    pub secure: bool,
    pub same_party: bool,
    pub priority: CookiePriority,
    pub source_scheme: SourceScheme,
    pub source_port: u16,
}

impl View for SessionCookie {
    type V = CookieModel;

    open spec fn view(&self) -> CookieModel {
        CookieModel {
            name: self.name@,
            value: self.value@,
            url: self.url@,
            domain: self.domain@,
            path: self.path@,
            expires: self.expires,
            http_only: self.http_only,
            secure: self.secure,
            same_party: self.same_party,
            priority: self.priority,
            source_scheme: self.source_scheme,
            source_port: self.source_port,
        }
    }
}

/// The model of a transport error.
pub enum ErrorModel {
    Failure { detail: Seq<char> },
    Rejected { status: u16, message: Seq<char> },
    OutOfTurn,
}

/// Why a transport could not answer.
#[derive(Clone, Debug, PartialEq, Eq)]
pub enum TransportError {
    /// The request did not complete: the network failed, the reply could not
    /// be read, or the browser did not show what was waited for.
    Failure { detail: String },
    /// The service answered with a status that is not a success.
    Rejected { status: u16, message: String },
    /// A reply came that answers no request that was made.
    OutOfTurn,
}

impl View for TransportError {
    type V = ErrorModel;

    open spec fn view(&self) -> ErrorModel {
        match self {
            TransportError::Failure { detail } => ErrorModel::Failure { detail: detail@ },
            TransportError::Rejected { status, message } => ErrorModel::Rejected {
                status: *status,
                message: message@,
            },
            TransportError::OutOfTurn => ErrorModel::OutOfTurn,
        }
    }
}

} // verus!
