//! The enumerated values of the command line.
use crate::permissions::same_text;
use vstd::prelude::*;

verus! {

/// How users authenticate.
#[derive(Clone, Copy, Debug, PartialEq, Eq, Structural)]
#[allow(non_camel_case_types)]
pub enum AuthType {
    anonymous,
    pam,
    rest,
    json,
}

/// The value that `s` names on the command line.
pub open spec fn authtype_named(s: Seq<char>) -> Option<AuthType> {
    if s == "anonymous"@ {
        Some(AuthType::anonymous)
    } else if s == "pam"@ {
        Some(AuthType::pam)
    } else if s == "rest"@ {
        Some(AuthType::rest)
    } else if s == "json"@ {
        Some(AuthType::json)
    } else {
        None
    }
}

impl AuthType {
    /// The value that `s` names, if any.
    pub fn from_name(s: &str) -> (r: Option<AuthType>)
        ensures
            r == authtype_named(s@),
    {
        if same_text(s, "anonymous") {
            Some(AuthType::anonymous)
        } else if same_text(s, "pam") {
            Some(AuthType::pam)
        } else if same_text(s, "rest") {
            Some(AuthType::rest)
        } else if same_text(s, "json") {
            Some(AuthType::json)
        } else {
            None
        }
    }

    /// The name of this value on the command line.
    pub fn name(&self) -> (r: &'static str)
        ensures
            r@ == match self {
                AuthType::anonymous => "anonymous"@,
                AuthType::pam => "pam"@,
                AuthType::rest => "rest"@,
                AuthType::json => "json"@,
            },
    {
        match self {
            AuthType::anonymous => "anonymous",
            AuthType::pam => "pam",
            AuthType::rest => "rest",
            AuthType::json => "json",
        }
    }
}

/// Which storage back-end serves the files.
#[derive(Clone, Copy, Debug, PartialEq, Eq, Structural)]
#[allow(non_camel_case_types)]
pub enum StorageBackendType {
    filesystem,
    gcs,
}

/// The value that `s` names on the command line.
pub open spec fn storagebackendtype_named(s: Seq<char>) -> Option<StorageBackendType> {
    if s == "filesystem"@ {
        Some(StorageBackendType::filesystem)
    } else if s == "gcs"@ {
        Some(StorageBackendType::gcs)
    } else {
        None
    }
}

impl StorageBackendType {
    /// The value that `s` names, if any.
    pub fn from_name(s: &str) -> (r: Option<StorageBackendType>)
        ensures
            r == storagebackendtype_named(s@),
    {
        if same_text(s, "filesystem") {
            Some(StorageBackendType::filesystem)
        } else if same_text(s, "gcs") {
            Some(StorageBackendType::gcs)
        } else {
            None
        }
    }

    /// The name of this value on the command line.
    pub fn name(&self) -> (r: &'static str)
        ensures
            r@ == match self {
                StorageBackendType::filesystem => "filesystem"@,
                StorageBackendType::gcs => "gcs"@,
            },
    {
        match self {
            StorageBackendType::filesystem => "filesystem",
            StorageBackendType::gcs => "gcs",
        }
    }
}

/// What repeated failed logins are counted against.
#[derive(Clone, Copy, Debug, PartialEq, Eq, Structural)]
#[allow(non_camel_case_types)]
pub enum FailedLoginsPolicyType {
    ip,
    user,
    combination,
}

/// The value that `s` names on the command line.
pub open spec fn failedloginspolicytype_named(s: Seq<char>) -> Option<FailedLoginsPolicyType> {
    if s == "ip"@ {
        Some(FailedLoginsPolicyType::ip)
    } else if s == "user"@ {
        Some(FailedLoginsPolicyType::user)
    } else if s == "combination"@ {
        Some(FailedLoginsPolicyType::combination)
    } else {
        None
    }
}

impl FailedLoginsPolicyType {
    /// The value that `s` names, if any.
    pub fn from_name(s: &str) -> (r: Option<FailedLoginsPolicyType>)
        ensures
            r == failedloginspolicytype_named(s@),
    {
        if same_text(s, "ip") {
            Some(FailedLoginsPolicyType::ip)
        } else if same_text(s, "user") {
            Some(FailedLoginsPolicyType::user)
        } else if same_text(s, "combination") {
            Some(FailedLoginsPolicyType::combination)
        } else {
            None
        }
    }

    /// The name of this value on the command line.
    pub fn name(&self) -> (r: &'static str)
        ensures
            r@ == match self {
                FailedLoginsPolicyType::ip => "ip"@,
                FailedLoginsPolicyType::user => "user"@,
                FailedLoginsPolicyType::combination => "combination"@,
            },
    {
        match self {
            FailedLoginsPolicyType::ip => "ip",
            FailedLoginsPolicyType::user => "user",
            FailedLoginsPolicyType::combination => "combination",
        }
    }
}

impl std::str::FromStr for FailedLoginsPolicyType {
    type Err = &'static str;

    fn from_str(s: &str) -> Result<FailedLoginsPolicyType, &'static str> {
        match FailedLoginsPolicyType::from_name(s) {
            Some(v) => Ok(v),
            None => Err("no match"),
        }
    }
}

/// Which sessions must use FTPS.
#[derive(Clone, Copy, Debug, PartialEq, Eq, Structural)]
#[allow(non_camel_case_types)]
pub enum FtpsRequiredType {
    all,
    accounts,
    none,
}

/// The value that `s` names on the command line.
pub open spec fn ftpsrequiredtype_named(s: Seq<char>) -> Option<FtpsRequiredType> {
    if s == "all"@ {
        Some(FtpsRequiredType::all)
    } else if s == "accounts"@ {
        Some(FtpsRequiredType::accounts)
    } else if s == "none"@ {
        Some(FtpsRequiredType::none)
    } else {
        None
    }
}

impl FtpsRequiredType {
    /// The value that `s` names, if any.
    pub fn from_name(s: &str) -> (r: Option<FtpsRequiredType>)
        ensures
            r == ftpsrequiredtype_named(s@),
    {
        if same_text(s, "all") {
            Some(FtpsRequiredType::all)
        } else if same_text(s, "accounts") {
            Some(FtpsRequiredType::accounts)
        } else if same_text(s, "none") {
            Some(FtpsRequiredType::none)
        } else {
            None
        }
    }

    /// The name of this value on the command line.
    pub fn name(&self) -> (r: &'static str)
        ensures
            r@ == match self {
                FtpsRequiredType::all => "all"@,
                FtpsRequiredType::accounts => "accounts"@,
                FtpsRequiredType::none => "none"@,
            },
    {
        match self {
            FtpsRequiredType::all => "all",
            FtpsRequiredType::accounts => "accounts",
            FtpsRequiredType::none => "none",
        }
    }
}

impl std::str::FromStr for FtpsRequiredType {
    type Err = &'static str;

    fn from_str(s: &str) -> Result<FtpsRequiredType, &'static str> {
        match FtpsRequiredType::from_name(s) {
            Some(v) => Ok(v),
            None => Err("no match"),
        }
    }
}

/// Whether FTPS clients must present a certificate.
#[derive(Clone, Copy, Debug, PartialEq, Eq, Structural)]
#[allow(non_camel_case_types)]
pub enum FtpsClientAuthType {
    off,
    request,
    require,
}

/// The value that `s` names on the command line.
pub open spec fn ftpsclientauthtype_named(s: Seq<char>) -> Option<FtpsClientAuthType> {
    if s == "off"@ {
        Some(FtpsClientAuthType::off)
    } else if s == "request"@ {
        Some(FtpsClientAuthType::request)
    } else if s == "require"@ {
        Some(FtpsClientAuthType::require)
    } else {
        None
    }
}

impl FtpsClientAuthType {
    /// The value that `s` names, if any.
    pub fn from_name(s: &str) -> (r: Option<FtpsClientAuthType>)
        ensures
            r == ftpsclientauthtype_named(s@),
    {
        if same_text(s, "off") {
            Some(FtpsClientAuthType::off)
        } else if same_text(s, "request") {
            Some(FtpsClientAuthType::request)
        } else if same_text(s, "require") {
            Some(FtpsClientAuthType::require)
        } else {
            None
        }
    }

    /// The name of this value on the command line.
    pub fn name(&self) -> (r: &'static str)
        ensures
            r@ == match self {
                FtpsClientAuthType::off => "off"@,
                FtpsClientAuthType::request => "request"@,
                FtpsClientAuthType::require => "require"@,
            },
    {
        match self {
            FtpsClientAuthType::off => "off",
            FtpsClientAuthType::request => "request",
            FtpsClientAuthType::require => "require",
        }
    }
}

impl std::str::FromStr for FtpsClientAuthType {
    type Err = &'static str;

    fn from_str(s: &str) -> Result<FtpsClientAuthType, &'static str> {
        match FtpsClientAuthType::from_name(s) {
            Some(v) => Ok(v),
            None => Err("no match"),
        }
    }
}

/// The least severe log level that is written.
#[derive(Clone, Copy, Debug, PartialEq, Eq, Structural)]
#[allow(non_camel_case_types)]
pub enum LogLevelType {
    error,
    warn,
    info,
    debug,
    trace,
}

/// The value that `s` names on the command line.
pub open spec fn logleveltype_named(s: Seq<char>) -> Option<LogLevelType> {
    if s == "error"@ {
        Some(LogLevelType::error)
    } else if s == "warn"@ {
        Some(LogLevelType::warn)
    } else if s == "info"@ {
        Some(LogLevelType::info)
    } else if s == "debug"@ {
        Some(LogLevelType::debug)
    } else if s == "trace"@ {
        Some(LogLevelType::trace)
    } else {
        None
    }
}

impl LogLevelType {
    /// The value that `s` names, if any.
    pub fn from_name(s: &str) -> (r: Option<LogLevelType>)
        ensures
            r == logleveltype_named(s@),
    {
        if same_text(s, "error") {
            Some(LogLevelType::error)
        } else if same_text(s, "warn") {
            Some(LogLevelType::warn)
        } else if same_text(s, "info") {
            Some(LogLevelType::info)
        } else if same_text(s, "debug") {
            Some(LogLevelType::debug)
        } else if same_text(s, "trace") {
            Some(LogLevelType::trace)
        } else {
            None
        }
    }

    /// The name of this value on the command line.
    pub fn name(&self) -> (r: &'static str)
        ensures
            r@ == match self {
                LogLevelType::error => "error"@,
                LogLevelType::warn => "warn"@,
                LogLevelType::info => "info"@,
                LogLevelType::debug => "debug"@,
                LogLevelType::trace => "trace"@,
            },
    {
        match self {
            LogLevelType::error => "error",
            LogLevelType::warn => "warn",
            LogLevelType::info => "info",
            LogLevelType::debug => "debug",
            LogLevelType::trace => "trace",
        }
    }
}

impl std::str::FromStr for LogLevelType {
    type Err = &'static str;

    fn from_str(s: &str) -> Result<LogLevelType, &'static str> {
        match LogLevelType::from_name(s) {
            Some(v) => Ok(v),
            None => Err("no match"),
        }
    }
}

} // verus!
