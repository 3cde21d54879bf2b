//! Failures of the static resource routes.
use vstd::prelude::*;
use vstd::string::*;

verus! {

pub const STATUS_NO_CONTENT: u16 = 204;

/// Why a resource could not be served.
#[derive(Debug, Clone, Copy, PartialEq, Eq, Structural)]
pub enum ResourceError {
    NotFound,
    NotExists,
    BadFormat,
    BadContent,
}

impl ResourceError {
    pub open spec fn message_text(self) -> Seq<char> {
        match self {
            ResourceError::NotFound => "Resource was not found"@,
            ResourceError::NotExists => "Resource was not found"@,
            ResourceError::BadFormat => "Cannot determine file format"@,
            ResourceError::BadContent => "Failed to read a file content"@,
        }
    }

    pub open spec fn status_code(self) -> u16 {
        match self {
            ResourceError::NotFound => 404,
            ResourceError::NotExists => STATUS_NO_CONTENT,
            ResourceError::BadFormat | ResourceError::BadContent => 500,
        }
    }

    pub fn message(&self) -> (text: String)
        ensures
            text@ == self.message_text(),
    {
        match self {
            ResourceError::NotFound => String::from_str("Resource was not found"),
            ResourceError::NotExists => String::from_str("Resource was not found"),
            ResourceError::BadFormat => String::from_str("Cannot determine file format"),
            ResourceError::BadContent => String::from_str("Failed to read a file content"),
        }
    }

    pub fn status(&self) -> (code: u16)
        ensures
            code == self.status_code(),
    {
        match self {
            ResourceError::NotFound => 404,
            ResourceError::NotExists => STATUS_NO_CONTENT,
            ResourceError::BadFormat | ResourceError::BadContent => 500,
        }
    }
}

} // verus!
