//! The ways in which a call can fail.
//!
//! A call fails in one of three ways, which are kept apart: the round trip
//! did not complete, the server refused the call, or an answer came back that
//! cannot be read as what the call returns.

use crate::json::JsonView;
use vstd::prelude::*;

verus! {

/// Why a reply cannot be read as the value that the call returns.
#[derive(Clone, Copy, Debug, PartialEq, Eq)]
pub enum DecodeError {
    /// What came back is no response to the request.
    Garbled,
    /// The response's `error` member is not an object with a code and a
    /// message.
    BadErrorObject,
    /// A member that the record needs is absent.
    MissingField,
    /// A value is not of the type that is declared for it.
    TypeMismatch,
    /// The value has neither of the two shapes that the call may return.
    NoShape,
}

/// Why a call failed.
#[derive(Debug, PartialEq, Eq)]
pub enum RpcError {
    /// The round trip did not complete; the text is the transport's account
    /// of what happened.
    Transport(String),
    /// The server answered with an error object: its code and its message.
    Protocol { code: i64, message: String },
    /// An answer came back that cannot be read.
    Decode(DecodeError),
}

/// What an [`RpcError`] holds.
pub enum RpcErrorView {
    Transport(Seq<char>),
    Protocol { code: i64, message: Seq<char> },
    Decode(DecodeError),
}

impl View for RpcError {
    type V = RpcErrorView;

    open spec fn view(&self) -> RpcErrorView {
        match self {
            RpcError::Transport(why) => RpcErrorView::Transport(why@),
            RpcError::Protocol { code, message } => RpcErrorView::Protocol {
                code: *code,
                message: message@,
            },
            RpcError::Decode(why) => RpcErrorView::Decode(*why),
        }
    }
}

impl DeepView for RpcError {
    type V = RpcErrorView;

    open spec fn deep_view(&self) -> RpcErrorView {
        self.view()
    }
}

impl Clone for RpcError {
    /// A copy that holds what the error holds.
    fn clone(&self) -> (copy: RpcError)
        ensures
            copy@ == self@,
    {
        match self {
            RpcError::Transport(why) => RpcError::Transport(why.clone()),
            RpcError::Protocol { code, message } => RpcError::Protocol {
                code: *code,
                message: message.clone(),
            },
            RpcError::Decode(why) => RpcError::Decode(*why),
        }
    }
}

/// What a result holds where it is `Ok`; its error as it is.
pub open spec fn ok_view<T: DeepView, E>(r: Result<T, E>) -> Result<T::V, E> {
    match r {
        Ok(value) => Ok(value.deep_view()),
        Err(e) => Err(e),
    }
}

/// What a result holds, be it `Ok` or `Err`.
pub open spec fn result_view<T: DeepView, E: DeepView>(r: Result<T, E>) -> Result<T::V, E::V> {
    match r {
        Ok(value) => Ok(value.deep_view()),
        Err(e) => Err(e.deep_view()),
    }
}

/// The outcome of a call whose answer is read by `decoded`: the failure of
/// the call where it failed, else what the reading gives.
pub open spec fn typed<T>(
    outcome: Result<JsonView, RpcErrorView>,
    decoded: spec_fn(JsonView) -> Result<T, DecodeError>,
) -> Result<T, RpcErrorView> {
    match outcome {
        Err(e) => Err(e),
        Ok(value) => match decoded(value) {
            Ok(v) => Ok(v),
            Err(why) => Err(RpcErrorView::Decode(why)),
        },
    }
}

} // verus!
