//! The error kinds that storage operations report.

use vstd::prelude::*;

verus! {

/// What went wrong in a storage operation.
#[derive(Debug)]
pub enum RdapServerError {
    /// No record matches the key or contains the queried value.
    NotFound,
    /// Bootstrap input or configuration is malformed.
    Config(String),
    /// A transaction could not be acquired, committed or rolled back.
    Backend(String),
}

impl RdapServerError {
    /// True for the one kind that is an expected outcome of a lookup.
    pub fn is_not_found(&self) -> (r: bool)
        ensures
            r == (*self is NotFound),
    {
        match self {
            RdapServerError::NotFound => true,
            _ => false,
        }
    }
}

impl RdapServerError {
    /// The error in words.
    pub open spec fn text(self) -> Seq<char> {
        match self {
            RdapServerError::NotFound => "not found"@,
            RdapServerError::Config(m) => "invalid configuration: "@ + m@,
            RdapServerError::Backend(m) => "storage failure: "@ + m@,
        }
    }

    /// The error in words.
    pub fn to_string(&self) -> (s: String)
        ensures
            s@ == self.text(),
    {
        match self {
            RdapServerError::NotFound => "not found".to_owned(),
            RdapServerError::Config(m) => {
                let mut s = "invalid configuration: ".to_owned();
                s.append(m.as_str());
                s
            },
            RdapServerError::Backend(m) => {
                let mut s = "storage failure: ".to_owned();
                s.append(m.as_str());
                s
            },
        }
    }
}

} // verus!
