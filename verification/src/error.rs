//! The error type shared by every operation of the library.

use vstd::prelude::*;
use crate::decimal::{decimal, push_decimal};

verus! {

/// What is known of a request that failed in transport.
///
/// The transport that sent the request fills this in; the library reads the
/// flags to classify the failure and never looks at the message.
#[derive(Debug, Clone, PartialEq, Eq)]
pub struct RequestFailure {
    /// The request ran into a timeout.
    pub timeout: bool,
    /// The connection could not be established.
    pub connect: bool,
    /// The HTTP status that came with the failure, if one did.
    pub status: Option<u16>,
    /// The failure is tied to the request itself rather than to its answer.
    pub request: bool,
    /// The transport's own description of the failure.
    pub message: String,
}

/// Errors that can occur when interacting with booru APIs.
#[derive(Debug, Clone, PartialEq, Eq)]
#[non_exhaustive]
pub enum BooruError {
    /// HTTP request failed.
    Request(RequestFailure),
    /// The API response could not be parsed; the field says why.
    Parse(String),
    /// Tag limit exceeded for the client.
    TagLimitExceeded {
        /// The client type that has the limit.
        client: &'static str,
        /// Maximum allowed tags.
        max: usize,
        /// Number of tags that the refused addition would have made.
        actual: usize,
    },
    /// Post with the given ID was not found.
    PostNotFound(u32),
    /// The API returned an empty response when data was expected.
    EmptyResponse,
    /// Invalid URL provided.
    InvalidUrl(String),
    /// Authentication required or failed; the field says how to mend it.
    Unauthorized(String),
    /// Tag validation failed.
    InvalidTag {
        /// The invalid tag.
        tag: String,
        /// Reason the tag is invalid.
        reason: String,
    },
    /// Rate limit exceeded.
    RateLimited,
    /// A local I/O operation failed; the field says why.
    Io(String),
}

impl BooruError {
    /// What `to_string` returns, as a sequence of characters.
    pub open spec fn message(self) -> Seq<char> {
        match self {
            BooruError::Request(e) => "HTTP request failed: "@ + e.message@,
            BooruError::Parse(e) => "Failed to parse API response: "@ + e@,
            BooruError::TagLimitExceeded { client, max, actual } => client@
                + " allows a maximum of "@ + decimal(max as nat) + " tags, but "@ + decimal(
                actual as nat,
            ) + " were provided"@,
            BooruError::PostNotFound(id) => "Post not found with ID: "@ + decimal(id as nat),
            BooruError::EmptyResponse => "Empty response from API"@,
            BooruError::InvalidUrl(url) => "Invalid URL: "@ + url@,
            BooruError::Unauthorized(hint) => "Authentication required: "@ + hint@,
            BooruError::InvalidTag { tag, reason } => "Invalid tag '"@ + tag@ + "': "@ + reason@,
            BooruError::RateLimited =>
                "Rate limit exceeded, please wait before making more requests"@,
            BooruError::Io(e) => "I/O error: "@ + e@,
        }
    }

    /// Returns `true` if this error is a network-related error.
    #[must_use]
    pub fn is_network_error(&self) -> (r: bool)
        ensures
            r == (self is Request),
    {
        match self {
            BooruError::Request(_) => true,
            _ => false,
        }
    }

    /// Returns `true` if this error is a parse/deserialization error.
    #[must_use]
    pub fn is_parse_error(&self) -> (r: bool)
        ensures
            r == (self is Parse),
    {
        match self {
            BooruError::Parse(_) => true,
            _ => false,
        }
    }

    /// Returns `true` if this error indicates the resource was not found.
    #[must_use]
    pub fn is_not_found(&self) -> (r: bool)
        ensures
            r == (self is PostNotFound || self is EmptyResponse),
    {
        match self {
            BooruError::PostNotFound(_) => true,
            BooruError::EmptyResponse => true,
            _ => false,
        }
    }

    /// The human-readable description of this error.
    pub fn to_string(&self) -> (s: String)
        ensures
            s@ == self.message(),
    {
        let mut s = String::new();
        match self {
            BooruError::Request(e) => {
                s.append("HTTP request failed: ");
                s.append(e.message.as_str());
            },
            BooruError::Parse(e) => {
                s.append("Failed to parse API response: ");
                s.append(e.as_str());
            },
            BooruError::TagLimitExceeded { client, max, actual } => {
                s.append(client);
                s.append(" allows a maximum of ");
                push_decimal(&mut s, *max as u64);
                s.append(" tags, but ");
                push_decimal(&mut s, *actual as u64);
                s.append(" were provided");
            },
            BooruError::PostNotFound(id) => {
                s.append("Post not found with ID: ");
                push_decimal(&mut s, *id as u64);
            },
            BooruError::EmptyResponse => {
                s.append("Empty response from API");
            },
            BooruError::InvalidUrl(url) => {
                s.append("Invalid URL: ");
                s.append(url.as_str());
            },
            BooruError::Unauthorized(hint) => {
                s.append("Authentication required: ");
                s.append(hint.as_str());
            },
            BooruError::InvalidTag { tag, reason } => {
                s.append("Invalid tag '");
                s.append(tag.as_str());
                s.append("': ");
                s.append(reason.as_str());
            },
            BooruError::RateLimited => {
                s.append("Rate limit exceeded, please wait before making more requests");
            },
            BooruError::Io(e) => {
                s.append("I/O error: ");
                s.append(e.as_str());
            },
        }
        assert(s@ =~= self.message());
        s
    }
}

} // verus!
