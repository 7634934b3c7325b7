use vstd::prelude::*;

verus! {

/// The HTTP error that the database answered with.
#[derive(Clone, Copy, Debug, PartialEq, Eq, Structural)]
pub enum ArangoHttpError {
    /// 400 - the request does not fulfil the requirements.
    BadParameter,
    /// 401 - authorization is required but the user is not authorized.
    Unauthorized,
    /// 403 - the operation is forbidden.
    Forbidden,
    /// 404 - an URI is unknown or a database element is not found.
    NotFound,
    /// 405 - an unsupported HTTP method is used for an operation.
    MethodNotAllowed,
    /// 406 - an unsupported HTTP content type is used for an operation.
    NotAcceptable,
    /// 409 - a conflict occurred (a unique index constraint, for example).
    Conflict,
    /// 412 - a precondition of the request is not met.
    PreconditionFailed,
    /// 500 - an internal server error occurred.
    ServerError,
    /// 503 - a service is temporarily unavailable.
    ServiceUnavailable,
    /// 504 - a service contacted by the database did not respond in time.
    GatewayTimeout,
    /// 600 - a string representation of a JSON object is corrupt.
    CorruptedJson,
    /// 601 - the URL contains superfluous suffices.
    SuperfluousSuffices,
    /// Any other HTTP code.
    UnknownError(u16),
}

/// The error that an HTTP code stands for.
pub open spec fn error_of_code(code: u16) -> ArangoHttpError {
    if code == 400 {
        ArangoHttpError::BadParameter
    } else if code == 401 {
        ArangoHttpError::Unauthorized
    } else if code == 403 {
        ArangoHttpError::Forbidden
    } else if code == 404 {
        ArangoHttpError::NotFound
    } else if code == 405 {
        ArangoHttpError::MethodNotAllowed
    } else if code == 406 {
        ArangoHttpError::NotAcceptable
    } else if code == 409 {
        ArangoHttpError::Conflict
    } else if code == 412 {
        ArangoHttpError::PreconditionFailed
    } else if code == 500 {
        ArangoHttpError::ServerError
    } else if code == 503 {
        ArangoHttpError::ServiceUnavailable
    } else if code == 504 {
        ArangoHttpError::GatewayTimeout
    } else if code == 600 {
        ArangoHttpError::CorruptedJson
    } else if code == 601 {
        ArangoHttpError::SuperfluousSuffices
    } else {
        ArangoHttpError::UnknownError(code)
    }
}

/// The HTTP code of an error.
pub open spec fn code_of_error(e: ArangoHttpError) -> u16 {
    match e {
        ArangoHttpError::BadParameter => 400,
        ArangoHttpError::Unauthorized => 401,
        ArangoHttpError::Forbidden => 403,
        ArangoHttpError::NotFound => 404,
        ArangoHttpError::MethodNotAllowed => 405,
        ArangoHttpError::NotAcceptable => 406,
        ArangoHttpError::Conflict => 409,
        ArangoHttpError::PreconditionFailed => 412,
        ArangoHttpError::ServerError => 500,
        ArangoHttpError::ServiceUnavailable => 503,
        ArangoHttpError::GatewayTimeout => 504,
        ArangoHttpError::CorruptedJson => 600,
        ArangoHttpError::SuperfluousSuffices => 601,
        ArangoHttpError::UnknownError(code) => code,
    }
}

impl ArangoHttpError {
    /// The error that the HTTP code `code` stands for.
    pub fn from_code(code: u16) -> (r: ArangoHttpError)
        ensures
            r == error_of_code(code),
    {
        match code {
            400 => ArangoHttpError::BadParameter,
            401 => ArangoHttpError::Unauthorized,
            403 => ArangoHttpError::Forbidden,
            404 => ArangoHttpError::NotFound,
            405 => ArangoHttpError::MethodNotAllowed,
            406 => ArangoHttpError::NotAcceptable,
            409 => ArangoHttpError::Conflict,
            412 => ArangoHttpError::PreconditionFailed,
            500 => ArangoHttpError::ServerError,
            503 => ArangoHttpError::ServiceUnavailable,
            504 => ArangoHttpError::GatewayTimeout,
            600 => ArangoHttpError::CorruptedJson,
            601 => ArangoHttpError::SuperfluousSuffices,
            _ => ArangoHttpError::UnknownError(code),
        }
    }

    /// The HTTP code matching this error.
    pub fn http_code(&self) -> (r: u16)
        ensures
            r == code_of_error(*self),
    {
        match self {
            ArangoHttpError::BadParameter => 400,
            ArangoHttpError::Unauthorized => 401,
            ArangoHttpError::Forbidden => 403,
            ArangoHttpError::NotFound => 404,
            ArangoHttpError::MethodNotAllowed => 405,
            ArangoHttpError::NotAcceptable => 406,
            ArangoHttpError::Conflict => 409,
            ArangoHttpError::PreconditionFailed => 412,
            ArangoHttpError::ServerError => 500,
            ArangoHttpError::ServiceUnavailable => 503,
            ArangoHttpError::GatewayTimeout => 504,
            ArangoHttpError::CorruptedJson => 600,
            ArangoHttpError::SuperfluousSuffices => 601,
            ArangoHttpError::UnknownError(code) => *code,
        }
    }
}

/// Reading an error back from its HTTP code gives that code again, for every code.
pub proof fn lemma_code_round_trip(code: u16)
    ensures
        code_of_error(error_of_code(code)) == code,
{
}

/// The errors of this library.
#[derive(Clone, Debug, PartialEq, Eq)]
pub enum Error {
    /// A lookup that was to find exactly one document found `count` of them.
    NotFound { count: usize },
    /// A form was refused while updating a record.
    ValidationError(String),
    /// The database answered with an HTTP error.
    ArangoError(ArangoHttpError),
}

} // verus!
