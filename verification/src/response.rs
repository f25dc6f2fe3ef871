//! The response envelope handed to the transport layer: a status, an
//! optional message, payload data and a list of errors.
use vstd::prelude::*;
use vstd::string::*;

verus! {

/// One error entry of a response.
#[derive(Debug, Clone, PartialEq, Eq)]
pub struct ApiError {
    pub code: u16,
    pub message: String,
}

impl ApiError {
    /// An entry with the given code and message.
    pub fn new(code: u16, message: &str) -> (r: ApiError)
        ensures
            r.code == code,
            r.message@ == message@,
    {
        ApiError { code, message: message.to_owned() }
    }
}

/// The envelope around a payload of type `T`.
#[derive(Debug, Clone)]
pub struct ApiResponse<T> {
    pub status: Option<u16>,
    pub message: Option<String>,
    pub data: Option<T>,
    pub errors: Option<Vec<ApiError>>,
}

impl<T> ApiResponse<T> {
    /// An envelope from its four parts.
    pub fn new(
        status: Option<u16>,
        message: Option<String>,
        data: Option<T>,
        errors: Option<Vec<ApiError>>,
    ) -> (r: ApiResponse<T>)
        ensures
            r.status == status,
            r.message == message,
            r.data == data,
            r.errors == errors,
    {
        ApiResponse { status, message, data, errors }
    }

    /// A success envelope around `data`.
    pub fn ok(data: T) -> (r: ApiResponse<T>)
        ensures
            r.status == Some(200u16),
            r.message matches Some(m) && m@ == "Success"@,
            r.data == Some(data),
            r.errors is None,
    {
        ApiResponse {
            status: Some(200),
            message: Some("Success".to_owned()),
            data: Some(data),
            errors: None,
        }
    }

    /// A creation envelope around `data`.
    pub fn created(data: T) -> (r: ApiResponse<T>)
        ensures
            r.status == Some(201u16),
            r.message matches Some(m) && m@ == "Created successfully."@,
            r.data == Some(data),
            r.errors is None,
    {
        ApiResponse {
            status: Some(201),
            message: Some("Created successfully.".to_owned()),
            data: Some(data),
            errors: None,
        }
    }

    /// The empty envelope.
    pub fn no_content() -> (r: ApiResponse<T>)
        ensures
            r.status == Some(204u16),
            r.message is None,
            r.data is None,
            r.errors is None,
    {
        ApiResponse { status: Some(204), message: None, data: None, errors: None }
    }

    /// A failure envelope with one error entry; the error code doubles as
    /// the status and the short error name stands in the message slot.
    pub fn error(code: u16, message: &str, error_code: String) -> (r: ApiResponse<T>)
        ensures
            r.status == Some(code),
            r.message == Some(error_code),
            r.data is None,
            r.errors matches Some(es) && es@.len() == 1 && es@[0].code == code && es@[0].message@
                == message@,
    {
        let mut errors: Vec<ApiError> = Vec::new();
        errors.push(ApiError::new(code, message));
        ApiResponse { status: Some(code), message: Some(error_code), data: None, errors: Some(errors) }
    }

    /// A failure envelope from error entries, under the given status.
    pub fn with_errors_status(status: u16, errors: Vec<ApiError>) -> (r: ApiResponse<T>)
        ensures
            r.status == Some(status),
            r.message is None,
            r.data is None,
            r.errors == Some(errors),
    {
        ApiResponse { status: Some(status), message: None, data: None, errors: Some(errors) }
    }

    /// A failure envelope from error entries, as a bad request.
    pub fn with_errors(errors: Vec<ApiError>) -> (r: ApiResponse<T>)
        ensures
            r.status == Some(400u16),
            r.message is None,
            r.data is None,
            r.errors == Some(errors),
    {
        ApiResponse { status: Some(400), message: None, data: None, errors: Some(errors) }
    }

    /// The same envelope with the payload passed through `f`.
    pub fn map<U, F: FnOnce(T) -> U>(self, f: F) -> (r: ApiResponse<U>)
        requires
            self.data matches Some(d) ==> f.requires((d,)),
        ensures
            r.status == self.status,
            r.message == self.message,
            r.errors == self.errors,
            r.data is Some <==> self.data is Some,
            self.data matches Some(d) ==> f.ensures((d,), r.data->Some_0),
    {
        ApiResponse {
            status: self.status,
            message: self.message,
            data: match self.data {
                Some(d) => Some(f(d)),
                None => None,
            },
            errors: self.errors,
        }
    }

    /// The payload, or the errors when there is none: a data-less,
    /// error-less envelope reports its status and message as the one error.
    pub fn into_result(self) -> (r: Result<T, Vec<ApiError>>)
        ensures
            self.data is Some && self.errors is None ==> r == Ok::<T, Vec<ApiError>>(
                self.data->Some_0,
            ),
            self.errors matches Some(es) ==> r == Err::<T, Vec<ApiError>>(es),
            self.data is None && self.errors is None ==> (r matches Err(es) && es@.len() == 1
                && es@[0].code == (if self.status is Some {
                self.status->Some_0
            } else {
                0u16
            }) && es@[0].message@ == (if self.message is Some {
                self.message->Some_0@
            } else {
                "no data"@
            })),
    {
        match (self.data, self.errors) {
            (Some(d), None) => Ok(d),
            (_, Some(errs)) => Err(errs),
            (None, None) => {
                let code = match self.status {
                    Some(s) => s,
                    None => 0,
                };
                let message = match self.message {
                    Some(m) => m,
                    None => "no data".to_owned(),
                };
                let mut errs: Vec<ApiError> = Vec::new();
                errs.push(ApiError { code, message });
                Err(errs)
            },
        }
    }

    /// Whether the status is a success status.
    pub fn is_success(&self) -> (r: bool)
        ensures
            r == (self.status matches Some(s) && 200 <= s < 300),
    {
        match &self.status {
            Some(s) => 200 <= *s && *s < 300,
            None => false,
        }
    }

    /// Whether the status is a client-error status.
    pub fn is_client_error(&self) -> (r: bool)
        ensures
            r == (self.status matches Some(s) && 400 <= s < 500),
    {
        match &self.status {
            Some(s) => 400 <= *s && *s < 500,
            None => false,
        }
    }

    /// Whether the status is a server-error status.
    pub fn is_server_error(&self) -> (r: bool)
        ensures
            r == (self.status matches Some(s) && 500 <= s < 600),
    {
        match &self.status {
            Some(s) => 500 <= *s && *s < 600,
            None => false,
        }
    }
}

} // verus!
