//! The permission status of a configuration file, and its two external
//! encodings: a small integer and a text token.

use crate::text::str_eq;
use vstd::prelude::*;

verus! {

/// Whether a configuration file may be loaded.
#[derive(Debug, Clone, Copy, PartialEq, Eq, Structural)]
pub enum AllowStatus {
    Allowed,
    NotAllowed,
    Denied,
}

/// Why a status report could not be decoded.
#[derive(Debug, Clone, Copy, PartialEq, Eq, Structural)]
pub enum ParseError {
    /// The report names no configuration file, or no status for it.
    UnknownState,
    /// A status token is none of the known ones.
    InvalidAllowStatus,
    /// A status code is none of the known ones.
    UnknownIntegerAllowStatus,
}

impl ParseError {
    /// The text that describes the error.
    pub open spec fn spec_message(self) -> Seq<char> {
        match self {
            ParseError::UnknownState => "unknown direnv state"@,
            ParseError::InvalidAllowStatus => "invalid allow status"@,
            ParseError::UnknownIntegerAllowStatus => "unknown integer allow status"@,
        }
    }

    /// The text that describes the error.
    pub fn message(&self) -> (r: &'static str)
        ensures
            r@ == self.spec_message(),
    {
        match self {
            ParseError::UnknownState => "unknown direnv state",
            ParseError::InvalidAllowStatus => "invalid allow status",
            ParseError::UnknownIntegerAllowStatus => "unknown integer allow status",
        }
    }
}

impl AllowStatus {
    /// The status that an integer code stands for.
    pub open spec fn spec_from_code(u: u8) -> Result<AllowStatus, ParseError> {
        if u == 0 {
            Ok(AllowStatus::Allowed)
        } else if u == 1 {
            Ok(AllowStatus::NotAllowed)
        } else if u == 2 {
            Ok(AllowStatus::Denied)
        } else {
            Err(ParseError::UnknownIntegerAllowStatus)
        }
    }

    /// The status that a text token stands for.
    pub open spec fn spec_from_token(s: Seq<char>) -> Result<AllowStatus, ParseError> {
        if s == "0"@ || s == "true"@ {
            Ok(AllowStatus::Allowed)
        } else if s == "1"@ {
            Ok(AllowStatus::NotAllowed)
        } else if s == "2"@ || s == "false"@ {
            Ok(AllowStatus::Denied)
        } else {
            Err(ParseError::InvalidAllowStatus)
        }
    }

    /// Decodes an integer code: 0 is allowed, 1 not allowed, 2 denied.
    pub fn try_from(u: u8) -> (r: Result<AllowStatus, ParseError>)
        ensures
            r == Self::spec_from_code(u),
    {
        match u {
            0 => Ok(AllowStatus::Allowed),
            1 => Ok(AllowStatus::NotAllowed),
            2 => Ok(AllowStatus::Denied),
            _ => Err(ParseError::UnknownIntegerAllowStatus),
        }
    }

    /// Decodes a text token: `0` or `true` is allowed, `1` not allowed,
    /// `2` or `false` denied.
    pub fn from_str(s: &str) -> (r: Result<AllowStatus, ParseError>)
        ensures
            r == Self::spec_from_token(s@),
    {
        if str_eq(s, "0") || str_eq(s, "true") {
            Ok(AllowStatus::Allowed)
        } else if str_eq(s, "1") {
            Ok(AllowStatus::NotAllowed)
        } else if str_eq(s, "2") || str_eq(s, "false") {
            Ok(AllowStatus::Denied)
        } else {
            Err(ParseError::InvalidAllowStatus)
        }
    }
}

} // verus!
