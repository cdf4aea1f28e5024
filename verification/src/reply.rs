//! Requests as they are handed to the transport, and what the transport
//! hands back for them.

use crate::error::{result_view, DecodeError, RpcError, RpcErrorView};
use crate::field::{copy_items, copy_optional_value};
use crate::json::{distinct_keys, lemma_member_of_distinct, Json, JsonView};
use crate::text::{decimal, lemma_integer_of_decimal};
use vstd::prelude::*;

verus! {

/// A call of a remote method: its name, and its arguments in order.
#[derive(Debug, PartialEq, Eq)]
pub struct Request {
    pub method: String,
    pub params: Vec<Json>,
}

/// What a [`Request`] holds.
pub struct RequestView {
    pub method: Seq<char>,
    pub params: Seq<JsonView>,
}

impl View for Request {
    type V = RequestView;

    open spec fn view(&self) -> RequestView {
        RequestView { method: self.method@, params: self.params.deep_view() }
    }
}

impl DeepView for Request {
    type V = RequestView;

    open spec fn deep_view(&self) -> RequestView {
        self.view()
    }
}

impl Clone for Request {
    /// A copy that holds what the request holds.
    fn clone(&self) -> (copy: Request)
        ensures
            copy@ == self@,
    {
        Request { method: self.method.clone(), params: copy_items(&self.params) }
    }
}

impl Request {
    /// The call of `method` with the arguments `params`.
    pub fn new(method: &str, params: Vec<Json>) -> (request: Request)
        ensures
            request@ == (RequestView { method: method@, params: params.deep_view() }),
    {
        Request { method: method.to_owned(), params }
    }

    /// The call of `method` without arguments.
    pub fn without_params(method: &str) -> (request: Request)
        ensures
            request@ == (RequestView { method: method@, params: Seq::empty() }),
    {
        let request = Request::new(method, Vec::new());
        assert(request@.params =~= Seq::empty());
        request
    }
}

/// What the transport hands back for one request.
#[derive(Debug, PartialEq, Eq)]
pub enum Reply {
    /// The round trip did not complete; the text is the transport's account
    /// of what happened.
    Failed(String),
    /// Something came back that is no response to the request.
    Garbled,
    /// The server's response: its `result` and its `error`, `None` where the
    /// member is absent or `null`.
    Response { result: Option<Json>, error: Option<Json> },
}

/// What a [`Reply`] holds.
pub enum ReplyView {
    Failed(Seq<char>),
    Garbled,
    Response { result: Option<JsonView>, error: Option<JsonView> },
}

impl View for Reply {
    type V = ReplyView;

    open spec fn view(&self) -> ReplyView {
        match self {
            Reply::Failed(why) => ReplyView::Failed(why@),
            Reply::Garbled => ReplyView::Garbled,
            Reply::Response { result, error } => ReplyView::Response {
                result: result.deep_view(),
                error: error.deep_view(),
            },
        }
    }
}

impl DeepView for Reply {
    type V = ReplyView;

    open spec fn deep_view(&self) -> ReplyView {
        self.view()
    }
}

impl Clone for Reply {
    /// A copy that holds what the reply holds.
    fn clone(&self) -> (copy: Reply)
        ensures
            copy@ == self@,
    {
        match self {
            Reply::Failed(why) => Reply::Failed(why.clone()),
            Reply::Garbled => Reply::Garbled,
            Reply::Response { result, error } => Reply::Response {
                result: copy_optional_value(result),
                error: copy_optional_value(error),
            },
        }
    }
}

/// The code and the message of an error object: an object with a `code` that
/// is the numeral of a signed 64-bit integer and a `message` that is a
/// string. `None` for any other value.
pub open spec fn error_object(e: JsonView) -> Option<(i64, Seq<char>)> {
    let code = e.i64_field("code"@);
    let message = e.string_field("message"@);
    if e is Object && code is Ok && message is Ok {
        Some((code->Ok_0, message->Ok_0))
    } else {
        None
    }
}

/// The error object that holds `code` and `message`, and nothing else.
pub open spec fn error_json(code: i64, message: Seq<char>) -> JsonView {
    JsonView::Object(
        seq![
            ("code"@, JsonView::Number(decimal(code as int))),
            ("message"@, JsonView::String(message)),
        ],
    )
}

/// An error object reads as the code and the message that it was written
/// with.
pub proof fn lemma_error_object_read(code: i64, message: Seq<char>)
    ensures
        error_object(error_json(code, message)) == Some((code, message)),
{
    let members = error_json(code, message)->Object_0;
    assert(distinct_keys(members)) by {
        reveal_strlit("code");
        reveal_strlit("message");
        assert("code"@.len() == 4);
        assert("message"@.len() == 7);
    }
    lemma_member_of_distinct(members, 0);
    lemma_member_of_distinct(members, 1);
    lemma_integer_of_decimal(code as int);
}

impl ReplyView {
    /// Whether the reply is a response in which the server reports an error:
    /// its `error` is there and is not `null`.
    pub open spec fn reports_error(self) -> bool {
        self matches ReplyView::Response { error: Some(e), .. } && !(e is Null)
    }

    /// What the call came to, before its answer is read as a value of the
    /// type that the call returns.
    ///
    /// A round trip that did not complete is a transport error. A response
    /// that reports an error is a protocol error with the code and the
    /// message of the error object, whatever its `result` holds. Anything
    /// else that cannot be read is a decode error. Otherwise the outcome is
    /// the `result` of the response, `null` where it has none.
    pub open spec fn outcome(self) -> Result<JsonView, RpcErrorView> {
        match self {
            ReplyView::Failed(why) => Err(RpcErrorView::Transport(why)),
            ReplyView::Garbled => Err(RpcErrorView::Decode(DecodeError::Garbled)),
            ReplyView::Response { result, error } => if self.reports_error() {
                match error_object(error->0) {
                    Some((code, message)) => Err(RpcErrorView::Protocol { code, message }),
                    None => Err(RpcErrorView::Decode(DecodeError::BadErrorObject)),
                }
            } else {
                match result {
                    Some(value) => Ok(value),
                    None => Ok(JsonView::Null),
                }
            },
        }
    }
}

impl Reply {
    /// What the call came to: the `result` of the response, or the way in
    /// which the call failed.
    pub fn into_result(self) -> (r: Result<Json, RpcError>)
        ensures
            result_view(r) == self@.outcome(),
    {
        match self {
            Reply::Failed(why) => Err(RpcError::Transport(why)),
            Reply::Garbled => Err(RpcError::Decode(DecodeError::Garbled)),
            Reply::Response { result, error } => {
                match error {
                    Some(e) => {
                        if !e.is_null() {
                            if !e.is_object() {
                                return Err(RpcError::Decode(DecodeError::BadErrorObject));
                            }
                            let code = match e.i64_field("code") {
                                Ok(value) => value,
                                Err(_) => {
                                    return Err(RpcError::Decode(DecodeError::BadErrorObject));
                                },
                            };
                            let message = match e.string_field("message") {
                                Ok(value) => value,
                                Err(_) => {
                                    return Err(RpcError::Decode(DecodeError::BadErrorObject));
                                },
                            };
                            return Err(RpcError::Protocol { code, message });
                        }
                    },
                    None => {},
                }
                match result {
                    Some(value) => Ok(value),
                    None => Ok(Json::Null),
                }
            },
        }
    }
}

} // verus!
