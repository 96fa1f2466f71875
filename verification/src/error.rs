//! Errors of the service.

use vstd::prelude::*;

verus! {

/// Why a request does not describe a usable target.
#[derive(Debug, PartialEq, Eq, Structural, Clone, Copy)]
pub enum BanTargetConversionError {
    EmptyRequest,
    TargetRequired,
    PatternUnsupported,
}

impl BanTargetConversionError {
    /// The message of each error.
    pub open spec fn message(&self) -> Seq<char> {
        match self {
            BanTargetConversionError::EmptyRequest => "at least on field required: 'ip', 'user_agent'"@,
            BanTargetConversionError::PatternUnsupported => "\"*\" is only allowed pattern"@,
            BanTargetConversionError::TargetRequired => "'target' field is required"@,
        }
    }

    /// Renders the message of the error.
    pub fn to_string(&self) -> (s: String)
        ensures
            s@ == self.message(),
    {
        match self {
            BanTargetConversionError::EmptyRequest => String::from_str(
                "at least on field required: 'ip', 'user_agent'",
            ),
            BanTargetConversionError::PatternUnsupported => String::from_str(
                "\"*\" is only allowed pattern",
            ),
            BanTargetConversionError::TargetRequired => String::from_str(
                "'target' field is required",
            ),
        }
    }
}


/// Failures of the ban store.
///
/// Errors raised by the store's client library are carried as their
/// rendered text.
#[derive(Debug, Clone)]
pub enum Redis {
    KeyNotExist(String),
    NoTTL(String),
    BadTTL,
    /// The rendered client error and the command that failed.
    Cmd(String, String),
    GetConnection(String),
    BuildPool(String),
    CreateConnManager(String),
    Timeout,
}

impl Redis {
    /// The message of each error.
    pub open spec fn message(&self) -> Seq<char> {
        match self {
            Redis::KeyNotExist(k) => "key '"@ + k@ + "' not found"@,
            Redis::NoTTL(k) => "key '"@ + k@ + "' has not ttl"@,
            Redis::BadTTL => "bad ttl"@,
            Redis::Cmd(e, c) => "execute '"@ + c@ + "': "@ + e@,
            Redis::GetConnection(e) => "get connection: "@ + e@,
            Redis::BuildPool(e) => "build pool: "@ + e@,
            Redis::CreateConnManager(e) => "create connection manager: "@ + e@,
            Redis::Timeout => "timeout"@,
        }
    }

    /// Renders the message of the error.
    pub fn to_string(&self) -> (s: String)
        ensures
            s@ == self.message(),
    {
        match self {
            Redis::KeyNotExist(k) => {
                let mut s = String::from_str("key '");
                s.append(k.as_str());
                s.append("' not found");
                s
            },
            Redis::NoTTL(k) => {
                let mut s = String::from_str("key '");
                s.append(k.as_str());
                s.append("' has not ttl");
                s
            },
            Redis::BadTTL => String::from_str("bad ttl"),
            Redis::Cmd(e, c) => {
                let mut s = String::from_str("execute '");
                s.append(c.as_str());
                s.append("': ");
                s.append(e.as_str());
                s
            },
            Redis::GetConnection(e) => {
                let mut s = String::from_str("get connection: ");
                s.append(e.as_str());
                s
            },
            Redis::BuildPool(e) => {
                let mut s = String::from_str("build pool: ");
                s.append(e.as_str());
                s
            },
            Redis::CreateConnManager(e) => {
                let mut s = String::from_str("create connection manager: ");
                s.append(e.as_str());
                s
            },
            Redis::Timeout => String::from_str("timeout"),
        }
    }
}

/// A failed ban lookup.
#[derive(Debug, Clone)]
pub enum CheckBanError {
    Error(Redis),
}

impl CheckBanError {
    /// The message of the error: that of the store error it carries.
    pub open spec fn message(&self) -> Seq<char> {
        match self {
            CheckBanError::Error(e) => e.message(),
        }
    }

    /// Renders the message of the error.
    pub fn to_string(&self) -> (s: String)
        ensures
            s@ == self.message(),
    {
        match self {
            CheckBanError::Error(e) => e.to_string(),
        }
    }
}

/// An executor that did not carry out a request, and why.
#[derive(Debug, Clone)]
pub struct ExecutorError {
    pub executor_name: String,
    pub error_desc: String,
}

impl ExecutorError {
    /// The executor's name and the description, as plain text.
    pub open spec fn view_pair(&self) -> (Seq<char>, Seq<char>) {
        (self.executor_name@, self.error_desc@)
    }
}

} // verus!
