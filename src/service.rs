use vstd::prelude::*;

use crate::message::{records_of, CreateMessage, Message};
use crate::store::{
    can_insert, law_insert_then_list, lemma_recent_descending, inserted, next_id, recent, MessageStore, RECENT_LIMIT};

verus! {

/// Status of a successful listing.
pub const STATUS_OK: u16 = 200;

/// Status of a successful creation.
pub const STATUS_CREATED: u16 = 201;

/// Status of a request whose body could not be read.
pub const STATUS_BAD_REQUEST: u16 = 400;

/// Status of a request that the storage failed.
pub const STATUS_INTERNAL_SERVER_ERROR: u16 = 500;

/// An error reported to the client: a status code and a readable message,
/// rendered as the JSON object `{"message": ...}`.
pub struct HttpError {
    pub code: u16,
    pub message: String,
}

/// The JSON body of an error response.
pub struct ErrorBody {
    pub message: String,
}

impl HttpError {
    /// An error with the given status and message.
    pub fn new(code: u16, message: String) -> (r: HttpError)
        ensures
            r.code == code,
            r.message@ == message@,
    {
        HttpError { code, message }
    }

    /// A client error: the request could not be understood.
    pub fn bad_request(message: String) -> (r: HttpError)
        ensures
            r.code == STATUS_BAD_REQUEST,
            r.message@ == message@,
    {
        Self::new(STATUS_BAD_REQUEST, message)
    }

    /// A server error: the storage failed.
    pub fn internal_server_error(message: String) -> (r: HttpError)
        ensures
            r.code == STATUS_INTERNAL_SERVER_ERROR,
            r.message@ == message@,
    {
        Self::new(STATUS_INTERNAL_SERVER_ERROR, message)
    }

    /// The status and the body this error is answered with.
    pub fn into_response(self) -> (r: (u16, ErrorBody))
        ensures
            r.0 == self.code,
            r.1.message@ == self.message@,
    {
        (self.code, ErrorBody { message: self.message })
    }
}

/// The answer to a request on the message routes.
pub enum Reply {
    /// 200, with the listed messages as a JSON array.
    Messages(Vec<Message>),
    /// 201, with an empty body.
    Created,
    /// The error's status, with its JSON body.
    Failure(HttpError),
}

impl Reply {
    /// The HTTP status this reply is sent with.
    pub fn status(&self) -> (r: u16)
        ensures
            r == match self {
                Reply::Messages(_) => STATUS_OK,
                Reply::Created => STATUS_CREATED,
                Reply::Failure(e) => e.code,
            },
    {
        match self {
            Reply::Messages(_) => STATUS_OK,
            Reply::Created => STATUS_CREATED,
            Reply::Failure(e) => e.code,
        }
    }
}

/// The message sent when the storage failed without saying why.
pub open spec fn fallback_text() -> Seq<char> {
    "storage backend failed"@
}

/// The message reported for a storage failure described by `text`: the text
/// itself, or a fixed description when it is empty.
pub open spec fn failure_message(text: Seq<char>) -> Seq<char> {
    if text.len() > 0 {
        text
    } else {
        fallback_text()
    }
}

/// Turns a storage failure into a 500 error carrying its description.
pub fn storage_failure(text: String) -> (r: HttpError)
    ensures
        r.code == STATUS_INTERNAL_SERVER_ERROR,
        r.message@ == failure_message(text@),
        r.message@.len() > 0,
{
    if text.as_str().is_empty() {
        let fallback = "storage backend failed".to_string();
        proof {
            reveal_strlit("storage backend failed");
        }
        HttpError::internal_server_error(fallback)
    } else {
        HttpError::internal_server_error(text)
    }
}

/// The reply to a listing, given what the storage answered.
pub fn list_reply(outcome: Result<Vec<Message>, String>) -> (r: Reply)
    ensures
        match outcome {
            Ok(ms) => r is Messages && records_of(r->Messages_0@) == records_of(ms@),
            Err(text) => {
                &&& r is Failure
                &&& r->Failure_0.code == STATUS_INTERNAL_SERVER_ERROR
                &&& r->Failure_0.message@ == failure_message(text@)
            },
        },
{
    match outcome {
        Ok(ms) => Reply::Messages(ms),
        Err(text) => Reply::Failure(storage_failure(text)),
    }
}

/// The reply to a creation, given what the storage answered.
pub fn create_reply(outcome: Result<u32, String>) -> (r: Reply)
    ensures
        match outcome {
            Ok(_) => r is Created,
            Err(text) => {
                &&& r is Failure
                &&& r->Failure_0.code == STATUS_INTERNAL_SERVER_ERROR
                &&& r->Failure_0.message@ == failure_message(text@)
            },
        },
{
    match outcome {
        Ok(_) => Reply::Created,
        Err(text) => Reply::Failure(storage_failure(text)),
    }
}

/// `GET /message`: the ten newest messages, newest first.
pub fn get_messages(store: &MessageStore) -> (r: Reply)
    ensures
        r is Messages,
        records_of(r->Messages_0@) == recent(store@, RECENT_LIMIT as nat),
{
    list_reply(Ok(store.list_recent(RECENT_LIMIT)))
}

/// `PUT /message`: stores the submitted text. `payload` is the decoded body,
/// or the reason it could not be decoded.
pub fn create_message(store: &mut MessageStore, payload: Result<CreateMessage, String>) -> (r:
    Reply)
    requires
        old(store).wf(),
    ensures
        final(store).wf(),
        match payload {
            Err(reason) => {
                &&& r is Failure
                &&& r->Failure_0.code == STATUS_BAD_REQUEST
                &&& r->Failure_0.message@ == reason@
                &&& final(store)@ == old(store)@
            },
            Ok(body) => if can_insert(old(store)@) {
                &&& r is Created
                &&& final(store)@ == inserted(old(store)@, body.content@)
            } else {
                &&& r is Failure
                &&& r->Failure_0.code == STATUS_INTERNAL_SERVER_ERROR
                &&& r->Failure_0.message@.len() > 0
                &&& final(store)@ == old(store)@
            },
        },
{
    match payload {
        Err(reason) => Reply::Failure(HttpError::bad_request(reason)),
        Ok(body) => {
            let outcome = match store.insert(body.content) {
                Ok(id) => Ok(id),
                Err(e) => Err(e.describe()),
            };
            create_reply(outcome)
        },
    }
}

/// Whatever the storage's failure says, including nothing, it is reported with
/// a non-empty message; the replies carry it under status 500.
pub proof fn law_storage_failure_reported(text: Seq<char>)
    ensures
        failure_message(text).len() > 0,
{
    reveal_strlit("storage backend failed");
}

/// After a creation that the store accepts (answered with 201), the listing's
/// first element carries the submitted text and the highest identifier.
pub proof fn law_put_then_get(store: MessageStore, body: CreateMessage)
    requires
        store.wf(),
        can_insert(store@),
    ensures
        ({
            let listed = recent(inserted(store@, body.content@), RECENT_LIMIT as nat);
            &&& listed.len() > 0
            &&& listed[0] == (next_id(store@) as u32, body.content@)
            &&& forall|i: int| 0 < i < listed.len() ==> #[trigger] listed[i].0 < listed[0].0
        }),
{
    let after = inserted(store@, body.content@);
    law_insert_then_list(store@, body.content@);
    lemma_recent_descending(after, RECENT_LIMIT as nat);
}

} // verus!
