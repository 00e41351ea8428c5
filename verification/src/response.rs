//! The envelope that every answer of the service is sent in.

use crate::error::{
    STATUS_BAD_REQUEST, STATUS_INTERNAL_SERVER_ERROR, STATUS_NOT_FOUND, STATUS_UNAUTHORIZED,
};
use vstd::prelude::*;
use vstd::string::*;

verus! {

pub const STATUS_OK: u16 = 200;

pub const STATUS_CREATED: u16 = 201;

pub const STATUS_FORBIDDEN: u16 = 403;

/// An answer: `status` is `success` or `error`, `code` the HTTP status code.
#[derive(Debug, Clone)]
pub struct ApiResponse<T> {
    pub status: String,
    pub code: u16,
    pub message: Option<String>,
    pub data: Option<T>,
}

impl<T> ApiResponse<T> {
    /// Whether this is the successful answer with `code` that carries `data` and no message.
    pub open spec fn is_success(&self, code: u16, data: T) -> bool {
        &&& self.status@ == "success"@
        &&& self.code == code
        &&& self.message is None
        &&& self.data == Some(data)
    }

    /// Whether this is the failed answer with `code` and `message` that carries `data`.
    pub open spec fn is_error(&self, code: u16, message: Seq<char>, data: Option<T>) -> bool {
        &&& self.status@ == "error"@
        &&& self.code == code
        &&& self.message matches Some(text) && text@ == message
        &&& self.data == data
    }

    /// The answer to a request that went well.
    pub fn success(data: T) -> (response: ApiResponse<T>)
        ensures
            response.is_success(STATUS_OK, data),
    {
        ApiResponse {
            status: String::from_str("success"),
            code: STATUS_OK,
            message: None,
            data: Some(data),
        }
    }

    /// The answer to a request that failed, with something to tell about the failure.
    pub fn error_with_data(status: u16, message: &str, data: T) -> (response: ApiResponse<T>)
        ensures
            response.is_error(status, message@, Some(data)),
    {
        ApiResponse {
            status: String::from_str("error"),
            code: status,
            message: Some(message.to_owned()),
            data: Some(data),
        }
    }
}

impl ApiResponse<()> {
    /// The answer to a request that failed.
    pub fn error(status: u16, message: &str) -> (response: ApiResponse<()>)
        ensures
            response.is_error(status, message@, None),
    {
        ApiResponse {
            status: String::from_str("error"),
            code: status,
            message: Some(message.to_owned()),
            data: None,
        }
    }
}

/// The answers by their status code.
pub struct Response {}

impl Response {
    pub fn ok<T>(data: T) -> (response: ApiResponse<T>)
        ensures
            response.is_success(STATUS_OK, data),
    {
        ApiResponse::success(data)
    }

    pub fn created<T>(data: T) -> (response: ApiResponse<T>)
        ensures
            response.is_success(STATUS_CREATED, data),
    {
        ApiResponse {
            status: String::from_str("success"),
            code: STATUS_CREATED,
            message: None,
            data: Some(data),
        }
    }

    pub fn bad_request(message: &str) -> (response: ApiResponse<()>)
        ensures
            response.is_error(STATUS_BAD_REQUEST, message@, None),
    {
        ApiResponse::error(STATUS_BAD_REQUEST, message)
    }

    pub fn bad_request_with_data<T>(message: &str, data: T) -> (response: ApiResponse<T>)
        ensures
            response.is_error(STATUS_BAD_REQUEST, message@, Some(data)),
    {
        ApiResponse::error_with_data(STATUS_BAD_REQUEST, message, data)
    }

    pub fn unauthorized(message: &str) -> (response: ApiResponse<()>)
        ensures
            response.is_error(STATUS_UNAUTHORIZED, message@, None),
    {
        ApiResponse::error(STATUS_UNAUTHORIZED, message)
    }

    pub fn forbidden(message: &str) -> (response: ApiResponse<()>)
        ensures
            response.is_error(STATUS_FORBIDDEN, message@, None),
    {
        ApiResponse::error(STATUS_FORBIDDEN, message)
    }

    pub fn not_found(message: &str) -> (response: ApiResponse<()>)
        ensures
            response.is_error(STATUS_NOT_FOUND, message@, None),
    {
        ApiResponse::error(STATUS_NOT_FOUND, message)
    }

    pub fn internal_error(message: &str) -> (response: ApiResponse<()>)
        ensures
            response.is_error(STATUS_INTERNAL_SERVER_ERROR, message@, None),
    {
        ApiResponse::error(STATUS_INTERNAL_SERVER_ERROR, message)
    }
}

} // verus!
