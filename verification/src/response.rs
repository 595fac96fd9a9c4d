use vstd::prelude::*;

verus! {

/// A standardized response wrapper for the API: consistent shape across all
/// endpoints. The HTTP adaptation layer serializes it.
pub struct ApiResponse<T> {
    /// Indicates if the request was successful.
    pub success: bool,
    /// A message describing the result (mostly for errors or confirmations).
    pub message: Option<String>,
    /// The actual data payload.
    pub data: Option<T>,
}

/// Marker payload for responses that carry only a message.
pub struct EmptyData;

/// An `ApiResponse` paired with the HTTP status code (as a plain number)
/// that the adaptation layer should send it with.
pub struct ApiResponseWithStatus<T> {
    pub status: u16,
    pub response: ApiResponse<T>,
}

impl<T> ApiResponse<T> {
    /// Creates a success response with data. Status code defaults to 200 OK.
    pub fn success(data: T) -> (r: Self)
        ensures
            r.success == true,
            r.message is None,
            r.data == Some(data),
    {
        Self { success: true, message: None, data: Some(data) }
    }

    /// Creates a success response with a message and data.
    pub fn success_with_message(message: String, data: T) -> (r: Self)
        ensures
            r.success == true,
            r.message == Some(message),
            r.data == Some(data),
    {
        Self { success: true, message: Some(message), data: Some(data) }
    }

    /// Creates an error response with a message (typically use `AppError` instead).
    pub fn error(message: String) -> (r: Self)
        ensures
            r.success == false,
            r.message == Some(message),
            r.data is None,
    {
        Self { success: false, message: Some(message), data: None }
    }

    /// Converts to a response with a custom status code.
    pub fn with_status(self, status: u16) -> (r: ApiResponseWithStatus<T>)
        ensures
            r.status == status,
            r.response == self,
    {
        ApiResponseWithStatus { status, response: self }
    }

    /// Shorthand for a 201 Created response.
    pub fn created(self) -> (r: ApiResponseWithStatus<T>)
        ensures
            r.status == 201,
            r.response == self,
    {
        self.with_status(201)
    }

    /// Shorthand for a 202 Accepted response.
    pub fn accepted(self) -> (r: ApiResponseWithStatus<T>)
        ensures
            r.status == 202,
            r.response == self,
    {
        self.with_status(202)
    }

    /// Shorthand for a 204 No Content response.
    pub fn no_content(self) -> (r: ApiResponseWithStatus<T>)
        ensures
            r.status == 204,
            r.response == self,
    {
        self.with_status(204)
    }
}

impl ApiResponse<EmptyData> {
    /// Creates a success response with just a message.
    pub fn ok(message: String) -> (r: Self)
        ensures
            r.success == true,
            r.message == Some(message),
            r.data is None,
    {
        Self { success: true, message: Some(message), data: None }
    }

    /// Creates a 201 Created response with just a message.
    pub fn created_ok(message: String) -> (r: ApiResponseWithStatus<EmptyData>)
        ensures
            r.status == 201,
            r.response.success == true,
            r.response.message == Some(message),
            r.response.data is None,
    {
        Self::ok(message).created()
    }
}

impl<T> ApiResponseWithStatus<T> {
    /// Creates a new response with a custom status code.
    pub fn new(status: u16, response: ApiResponse<T>) -> (r: Self)
        ensures
            r.status == status,
            r.response == response,
    {
        Self { status, response }
    }
}

} // verus!
