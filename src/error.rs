//! The error type of the library: a machine-matchable kind, a human-readable
//! message and the HTTP status code, where one was received.
use vstd::prelude::*;
use vstd::string::*;
use crate::text::{decimal, push_decimal, concat2};

verus! {

/// What kind of failure occurred.
#[derive(Debug)]
pub enum ErrorType {
    /// No torrents were specified.
    TorrentsNotSet,
    /// A torrent file path could not be used.
    TorrentFilePathError,
    /// An operation addressed by a torrent hash answered 404.
    TorrentHashNotFound,
    /// Torrent queueing is not enabled on the server.
    TorrenQueueingNotEnabled,
    /// The login succeeded at the HTTP level but no session cookie came back.
    WrongCreds,
    /// The login answered 403: too many failed attempts.
    TooManyFailedAttempts,
    /// A parameter was not one of the accepted values.
    ParameterNotExpected,
    /// A request failed with the given HTTP status code.
    MiscNetError(u16),
    /// Any other failure, with a description.
    MiscError(String),
    /// The transport failed before an HTTP status was obtained; holds its description.
    ReqwestError(String),
    /// A JSON document could not be handled; holds its description.
    JsonSerdeError(String),
}

/// The message that goes with each kind of error.
pub open spec fn message_of(t: ErrorType) -> Seq<char> {
    match t {
        ErrorType::TorrentsNotSet => "no torrents were specified."@,
        ErrorType::TorrentFilePathError =>
            "the path specified doesn't exist, is malformed, or the file it points to couldn't be read."@,
        ErrorType::TorrentHashNotFound => "the specified torrent hash couldn't be found."@,
        ErrorType::TorrenQueueingNotEnabled => "torrent queuing id not enabled."@,
        ErrorType::WrongCreds => "the credetials are wrong."@,
        ErrorType::TooManyFailedAttempts =>
            "the user has been banned for an amount of time because of too many failed login attempts."@,
        ErrorType::ParameterNotExpected => "one or more of the parameters speciied were wrong"@,
        ErrorType::MiscError(e) => "Something went wrong. "@ + e@,
        ErrorType::ReqwestError(e) => "there was an error while handling networking. error: "@ + e@,
        ErrorType::JsonSerdeError(e) => "there was an error while handling JSON data. error: "@ + e@,
        ErrorType::MiscNetError(c) => "there was an error during a request. error code: "@ + decimal(
            c as nat,
        ),
    }
}

impl ErrorType {
    /// The human-readable message for this kind of error.
    pub fn get_message(&self) -> (r: String)
        ensures
            r@ == message_of(*self),
    {
        match self {
            ErrorType::TorrentsNotSet => String::from_str("no torrents were specified."),
            ErrorType::TorrentFilePathError => String::from_str(
                "the path specified doesn't exist, is malformed, or the file it points to couldn't be read.",
            ),
            ErrorType::TorrentHashNotFound => String::from_str(
                "the specified torrent hash couldn't be found.",
            ),
            ErrorType::TorrenQueueingNotEnabled => String::from_str(
                "torrent queuing id not enabled.",
            ),
            ErrorType::WrongCreds => String::from_str("the credetials are wrong."),
            ErrorType::TooManyFailedAttempts => String::from_str(
                "the user has been banned for an amount of time because of too many failed login attempts.",
            ),
            ErrorType::ParameterNotExpected => String::from_str(
                "one or more of the parameters speciied were wrong",
            ),
            ErrorType::MiscError(e) => concat2("Something went wrong. ", e.as_str()),
            ErrorType::ReqwestError(e) => concat2(
                "there was an error while handling networking. error: ",
                e.as_str(),
            ),
            ErrorType::JsonSerdeError(e) => concat2(
                "there was an error while handling JSON data. error: ",
                e.as_str(),
            ),
            ErrorType::MiscNetError(c) => {
                let mut s = String::from_str("there was an error during a request. error code: ");
                push_decimal(&mut s, *c as u64);
                s
            },
        }
    }
}

/// An error given by the library.
#[derive(Debug)]
pub struct Error {
    /// The kind of error.
    pub err_type: ErrorType,
    /// The human-readable message.
    pub message: String,
    /// The HTTP status code, where one was received.
    pub code: Option<u16>,
}

/// The error that `Error::build` makes from a kind and a status code.
pub open spec fn built(e: Error, t: ErrorType, code: Option<u16>) -> bool {
    &&& e.err_type == t
    &&& e.message@ == message_of(t)
    &&& e.code == code
}

impl Error {
    /// Builds an error of the given kind, with its message and the status code.
    pub fn build(err_type: ErrorType, code: Option<u16>) -> (r: Error)
        ensures
            built(r, err_type, code),
    {
        let message = err_type.get_message();
        Error { err_type, message, code }
    }
}

} // verus!
