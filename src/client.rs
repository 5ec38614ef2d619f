use vstd::prelude::*;

verus! {

/// An error a client of the service shows to its user.
pub struct ApiError {
    pub message: String,
}

/// What a client shows when the request itself could not be made.
pub open spec fn transport_text() -> Seq<char> {
    "系统内部错误"@
}

impl ApiError {
    /// The error for a request that could not be sent or whose answer could not be read.
    pub fn transport() -> (r: ApiError)
        ensures
            r.message@ == transport_text(),
    {
        ApiError { message: "系统内部错误".to_string() }
    }

    /// The text shown to the user.
    pub fn to_string(&self) -> (r: String)
        ensures
            r@ == self.message@,
    {
        self.message.clone()
    }
}

/// Accepts a response whose status is below 300; any other status becomes an
/// error carrying the response's body.
pub fn check_response_status(status: u16, body: String) -> (r: Result<(), ApiError>)
    ensures
        r is Ok <==> status < 300,
        r is Err ==> r->Err_0.message@ == body@,
{
    if status >= 300 {
        return Err(ApiError { message: body });
    }
    Ok(())
}

} // verus!
