use std::sync::Arc;
use vstd::prelude::*;

verus! {

/// Kinds of failures the service reports to its clients.
#[derive(Debug, Clone, Copy, PartialEq, Eq, Structural)]
pub enum ErrorKind {
    AccessDenied,
    AuthorizationFailed,
    DbConnAcquisitionFailed,
    DbQueryFailed,
    InvalidParameter,
    InvalidPayload,
    MqttRequestFailed,
    SerializationFailed,
    Unauthorized,
    ClassNotFound,
    RecordingNotFound,
    ClassClosingFailed,
    TranscodingFlowFailed,
    EditionFailed,
    ClassPropertyNotFound,
    AudienceDoesNotMatch,
    InternalFailure,
    InvalidQueryString,
    UnknownTenant,
    AccountNotFound,
    AccountPropertyNotFound,
}

/// Everything a response needs to know about an error kind.
pub struct ErrorKindProperties {
    pub status: u16,
    pub kind: &'static str,
    pub title: &'static str,
    pub is_notify_sentry: bool,
}

/// The response properties of each error kind: HTTP status, machine-readable
/// code, human-readable title and whether the error tracker is notified.
pub open spec fn spec_properties(k: ErrorKind) -> ErrorKindProperties {
    match k {
        ErrorKind::AccessDenied => ErrorKindProperties {
            status: 403,
            kind: "access_denied",
            title: "Access denied",
            is_notify_sentry: false,
        },
        ErrorKind::AuthorizationFailed => ErrorKindProperties {
            status: 422,
            kind: "authorization_failed",
            title: "Authorization failed",
            is_notify_sentry: false,
        },
        ErrorKind::DbConnAcquisitionFailed => ErrorKindProperties {
            status: 422,
            kind: "database_connection_acquisition_failed",
            title: "Database connection acquisition failed",
            is_notify_sentry: true,
        },
        ErrorKind::DbQueryFailed => ErrorKindProperties {
            status: 422,
            kind: "database_query_failed",
            title: "Database query failed",
            is_notify_sentry: true,
        },
        ErrorKind::InvalidParameter => ErrorKindProperties {
            status: 400,
            kind: "invalid_parameter",
            title: "Invalid parameter",
            is_notify_sentry: false,
        },
        ErrorKind::InvalidPayload => ErrorKindProperties {
            status: 400,
            kind: "invalid_payload",
            title: "Invalid payload",
            is_notify_sentry: false,
        },
        ErrorKind::ClassNotFound => ErrorKindProperties {
            status: 404,
            kind: "class_not_found",
            title: "Class not found",
            is_notify_sentry: false,
        },
        ErrorKind::MqttRequestFailed => ErrorKindProperties {
            status: 500,
            kind: "mqtt_request_failed",
            title: "Mqtt request failed",
            is_notify_sentry: true,
        },
        ErrorKind::SerializationFailed => ErrorKindProperties {
            status: 422,
            kind: "serialization_failed",
            title: "Serialization failed",
            is_notify_sentry: true,
        },
        ErrorKind::Unauthorized => ErrorKindProperties {
            status: 401,
            kind: "authentication_failed",
            title: "Authentication failed",
            is_notify_sentry: false,
        },
        ErrorKind::RecordingNotFound => ErrorKindProperties {
            status: 404,
            kind: "recording_not_found",
            title: "Recording not found",
            is_notify_sentry: false,
        },
        ErrorKind::ClassClosingFailed => ErrorKindProperties {
            status: 422,
            kind: "class_closing_failed",
            title: "Class closing failed",
            is_notify_sentry: true,
        },
        ErrorKind::TranscodingFlowFailed => ErrorKindProperties {
            status: 422,
            kind: "transcoding_flow_failed",
            title: "Transcoding flow failed",
            is_notify_sentry: true,
        },
        ErrorKind::EditionFailed => ErrorKindProperties {
            status: 422,
            kind: "edition_flow_failed",
            title: "Edition flow failed",
            is_notify_sentry: true,
        },
        ErrorKind::ClassPropertyNotFound => ErrorKindProperties {
            status: 404,
            kind: "class_property_not_found",
            title: "Class property not found",
            is_notify_sentry: false,
        },
        ErrorKind::AudienceDoesNotMatch => ErrorKindProperties {
            status: 422,
            kind: "audience_does_not_match",
            title: "Audience does not match",
            is_notify_sentry: false,
        },
        ErrorKind::InternalFailure => ErrorKindProperties {
            status: 500,
            kind: "internal_failure",
            title: "Internal failure",
            is_notify_sentry: true,
        },
        ErrorKind::InvalidQueryString => ErrorKindProperties {
            status: 400,
            kind: "invalid_query_string",
            title: "Invalid query string",
            is_notify_sentry: false,
        },
        ErrorKind::UnknownTenant => ErrorKindProperties {
            status: 404,
            kind: "unknown_tenant",
            title: "Unknown tenant",
            is_notify_sentry: false,
        },
        ErrorKind::AccountNotFound => ErrorKindProperties {
            status: 404,
            kind: "account_not_found",
            title: "Account not found",
            is_notify_sentry: false,
        },
        ErrorKind::AccountPropertyNotFound => ErrorKindProperties {
            status: 404,
            kind: "account_property_not_found",
            title: "Account property not found",
            is_notify_sentry: false,
        },
    }
}

/// Every error kind is reported under a code of its own, so that clients
/// can tell any two kinds apart.
#[verifier::rlimit(50)]
pub proof fn lemma_codes_distinct(k1: ErrorKind, k2: ErrorKind)
    ensures
        k1 != k2 ==> spec_properties(k1).kind@ != spec_properties(k2).kind@,
{
    reveal_strlit("access_denied");
    reveal_strlit("account_not_found");
    reveal_strlit("account_property_not_found");
    reveal_strlit("audience_does_not_match");
    reveal_strlit("authentication_failed");
    reveal_strlit("authorization_failed");
    reveal_strlit("class_closing_failed");
    reveal_strlit("class_not_found");
    reveal_strlit("class_property_not_found");
    reveal_strlit("database_connection_acquisition_failed");
    reveal_strlit("database_query_failed");
    reveal_strlit("edition_flow_failed");
    reveal_strlit("internal_failure");
    reveal_strlit("invalid_parameter");
    reveal_strlit("invalid_payload");
    reveal_strlit("invalid_query_string");
    reveal_strlit("mqtt_request_failed");
    reveal_strlit("recording_not_found");
    reveal_strlit("serialization_failed");
    reveal_strlit("transcoding_flow_failed");
    reveal_strlit("unknown_tenant");
    let a = spec_properties(k1).kind@;
    let b = spec_properties(k2).kind@;
    if k1 != k2 && a == b {
        assert(a.len() == b.len() && a[0] == b[0]);
    }
}

/// Errors are answered with a client error (400, 401, 403, 404), an
/// unprocessable request (422) or a server error (500). Client errors are
/// the client's to fix and never reach the error tracker; server errors
/// always do.
pub proof fn lemma_status_and_tracking(k: ErrorKind)
    ensures
        ({
            let p = spec_properties(k);
            &&& p.status == 400 || p.status == 401 || p.status == 403 || p.status == 404
                || p.status == 422 || p.status == 500
            &&& p.status < 422 ==> !p.is_notify_sentry
            &&& p.status == 500 ==> p.is_notify_sentry
        }),
{
}

impl ErrorKindProperties {
    /// The properties of an error kind.
    pub fn of_kind(k: ErrorKind) -> (p: ErrorKindProperties)
        ensures
            p == spec_properties(k),
    {
        match k {
            ErrorKind::AccessDenied => ErrorKindProperties {
                status: 403,
                kind: "access_denied",
                title: "Access denied",
                is_notify_sentry: false,
            },
            ErrorKind::AuthorizationFailed => ErrorKindProperties {
                status: 422,
                kind: "authorization_failed",
                title: "Authorization failed",
                is_notify_sentry: false,
            },
            ErrorKind::DbConnAcquisitionFailed => ErrorKindProperties {
                status: 422,
                kind: "database_connection_acquisition_failed",
                title: "Database connection acquisition failed",
                is_notify_sentry: true,
            },
            ErrorKind::DbQueryFailed => ErrorKindProperties {
                status: 422,
                kind: "database_query_failed",
                title: "Database query failed",
                is_notify_sentry: true,
            },
            ErrorKind::InvalidParameter => ErrorKindProperties {
                status: 400,
                kind: "invalid_parameter",
                title: "Invalid parameter",
                is_notify_sentry: false,
            },
            ErrorKind::InvalidPayload => ErrorKindProperties {
                status: 400,
                kind: "invalid_payload",
                title: "Invalid payload",
                is_notify_sentry: false,
            },
            ErrorKind::ClassNotFound => ErrorKindProperties {
                status: 404,
                kind: "class_not_found",
                title: "Class not found",
                is_notify_sentry: false,
            },
            ErrorKind::MqttRequestFailed => ErrorKindProperties {
                status: 500,
                kind: "mqtt_request_failed",
                title: "Mqtt request failed",
                is_notify_sentry: true,
            },
            ErrorKind::SerializationFailed => ErrorKindProperties {
                status: 422,
                kind: "serialization_failed",
                title: "Serialization failed",
                is_notify_sentry: true,
            },
            ErrorKind::Unauthorized => ErrorKindProperties {
                status: 401,
                kind: "authentication_failed",
                title: "Authentication failed",
                is_notify_sentry: false,
            },
            ErrorKind::RecordingNotFound => ErrorKindProperties {
                status: 404,
                kind: "recording_not_found",
                title: "Recording not found",
                is_notify_sentry: false,
            },
            ErrorKind::ClassClosingFailed => ErrorKindProperties {
                status: 422,
                kind: "class_closing_failed",
                title: "Class closing failed",
                is_notify_sentry: true,
            },
            ErrorKind::TranscodingFlowFailed => ErrorKindProperties {
                status: 422,
                kind: "transcoding_flow_failed",
                title: "Transcoding flow failed",
                is_notify_sentry: true,
            },
            ErrorKind::EditionFailed => ErrorKindProperties {
                status: 422,
                kind: "edition_flow_failed",
                title: "Edition flow failed",
                is_notify_sentry: true,
            },
            ErrorKind::ClassPropertyNotFound => ErrorKindProperties {
                status: 404,
                kind: "class_property_not_found",
                title: "Class property not found",
                is_notify_sentry: false,
            },
            ErrorKind::AudienceDoesNotMatch => ErrorKindProperties {
                status: 422,
                kind: "audience_does_not_match",
                title: "Audience does not match",
                is_notify_sentry: false,
            },
            ErrorKind::InternalFailure => ErrorKindProperties {
                status: 500,
                kind: "internal_failure",
                title: "Internal failure",
                is_notify_sentry: true,
            },
            ErrorKind::InvalidQueryString => ErrorKindProperties {
                status: 400,
                kind: "invalid_query_string",
                title: "Invalid query string",
                is_notify_sentry: false,
            },
            ErrorKind::UnknownTenant => ErrorKindProperties {
                status: 404,
                kind: "unknown_tenant",
                title: "Unknown tenant",
                is_notify_sentry: false,
            },
            ErrorKind::AccountNotFound => ErrorKindProperties {
                status: 404,
                kind: "account_not_found",
                title: "Account not found",
                is_notify_sentry: false,
            },
            ErrorKind::AccountPropertyNotFound => ErrorKindProperties {
                status: 404,
                kind: "account_property_not_found",
                title: "Account property not found",
                is_notify_sentry: false,
            },
        }
    }
}

impl From<ErrorKind> for ErrorKindProperties {
    fn from(k: ErrorKind) -> (p: ErrorKindProperties) {
        ErrorKindProperties::of_kind(k)
    }
}

impl vstd::std_specs::convert::FromSpecImpl<ErrorKind> for ErrorKindProperties {
    open spec fn obeys_from_spec() -> bool {
        true
    }

    open spec fn from_spec(v: ErrorKind) -> ErrorKindProperties {
        spec_properties(v)
    }
}

impl ErrorKind {
    /// Whether failures of this kind are reported to the error tracker.
    pub fn is_notify_sentry(self) -> (r: bool)
        ensures
            r == spec_properties(self).is_notify_sentry,
    {
        let properties: ErrorKindProperties = ErrorKindProperties::of_kind(self);
        properties.is_notify_sentry
    }

    /// The human-readable title, which is how an error kind is displayed.
    pub fn title(self) -> (r: &'static str)
        ensures
            r@ == spec_properties(self).title@,
    {
        let properties: ErrorKindProperties = ErrorKindProperties::of_kind(self);
        properties.title
    }
}

/// A failure of a request or of an event handler: its kind and its cause.
#[derive(Debug)]
pub struct AppError {
    kind: ErrorKind,
    err: Arc<anyhow::Error>,
}

impl AppError {
    pub closed spec fn spec_kind(&self) -> ErrorKind {
        self.kind
    }

    pub closed spec fn spec_cause(&self) -> anyhow::Error {
        *self.err
    }

    pub fn new(kind: ErrorKind, err: anyhow::Error) -> (e: AppError)
        ensures
            e.spec_kind() == kind,
            e.spec_cause() == err,
    {
        AppError { kind, err: Arc::new(err) }
    }

    /// An error for a failed authorization call: a refusal is an access
    /// denial, any other failure of the authorization service is an
    /// authorization failure.
    pub fn from_authz_failure(forbidden: bool, err: anyhow::Error) -> (e: AppError)
        ensures
            e.spec_kind() == (if forbidden {
                ErrorKind::AccessDenied
            } else {
                ErrorKind::AuthorizationFailed
            }),
            e.spec_cause() == err,
    {
        let kind = if forbidden {
            ErrorKind::AccessDenied
        } else {
            ErrorKind::AuthorizationFailed
        };
        AppError::new(kind, err)
    }

    pub fn kind(&self) -> (k: ErrorKind)
        ensures
            k == self.spec_kind(),
    {
        self.kind
    }

    pub fn source(&self) -> (r: &Arc<anyhow::Error>)
        ensures
            **r == self.spec_cause(),
    {
        &self.err
    }

    /// The response properties of this error.
    pub fn properties(&self) -> (p: ErrorKindProperties)
        ensures
            p == spec_properties(self.spec_kind()),
    {
        ErrorKindProperties::of_kind(self.kind)
    }

    /// How the error is displayed: the title of its kind, a colon and the
    /// message of its cause.
    pub fn text(&self) -> (r: String)
        ensures
            r@ == spec_properties(self.spec_kind()).title@ + ": "@ + error_message(self.spec_cause()),
    {
        let title = self.kind.title();
        let mut r = title.to_owned();
        r = r.concat(": ");
        let cause = message_of(&self.err);
        r = r.concat(cause.as_str());
        r
    }

    /// Whether this error is to be reported to the error tracker.
    pub fn should_notify(&self) -> (r: bool)
        ensures
            r == spec_properties(self.spec_kind()).is_notify_sentry,
    {
        self.kind.is_notify_sentry()
    }
}

/// Attaching an error kind to a failure.
pub trait ErrorExt<T>: Sized {
    fn error(self, kind: ErrorKind) -> Result<T, AppError>;
}

impl<T> ErrorExt<T> for Result<T, anyhow::Error> {
    fn error(self, kind: ErrorKind) -> (r: Result<T, AppError>)
        ensures
            match self {
                Ok(v) => r matches Ok(w) && w == v,
                Err(e) => r matches Err(x) && x.spec_kind() == kind && x.spec_cause() == e,
            },
    {
        match self {
            Ok(v) => Ok(v),
            Err(e) => Err(AppError::new(kind, e)),
        }
    }
}

/// The text an `anyhow::Error` shows through `Display` without the
/// alternate flag: the message of its outermost error.
pub uninterp spec fn error_message(err: anyhow::Error) -> Seq<char>;

/// A failure with the given message, made with `anyhow::Error::msg`: it
/// shows that message.
#[verifier::external_body]
pub(crate) fn failure(message: &str) -> (r: anyhow::Error)
    ensures
        error_message(r) == message@,
{
    anyhow::Error::msg(message.to_owned())
}

/// The text an error shows, with `ToString::to_string` on the
/// `anyhow::Error`.
#[verifier::external_body]
fn message_of(err: &anyhow::Error) -> (r: String)
    ensures
        r@ == error_message(*err),
{
    err.to_string()
}

} // verus!
