//! The library's error type, and the text it gives to each failure that the
//! broadcast client reports.
use vstd::prelude::*;
use vstd::string::StringExecFns;

verus! {

/// A fatal error, with a description of what failed.
pub struct PDRadioError(pub String);

impl PDRadioError {
    /// The line that reports this error.
    pub fn message(&self) -> (r: String)
        ensures
            r@ == "There is an error: "@ + self.0@,
    {
        "There is an error: ".to_owned().concat(self.0.as_str())
    }
}

/// The errors that the broadcast client's library reports.
#[derive(PartialEq, Eq, Structural, Clone, Copy, Debug)]
pub enum ShoutErr {
    Success,
    Insane,
    NoConnect,
    NoLogin,
    Socket,
    Malloc,
    Metadata,
    Connected,
    Unconnected,
    Unsupported,
    Busy,
    NoTLS,
    TLSBadCert,
    Retry,
}

/// Why building a broadcast connection failed: an error of the client
/// library, or a parameter that held a NUL byte.
#[derive(PartialEq, Eq, Structural, Clone, Copy, Debug)]
pub enum ShoutConnError {
    ShoutError(ShoutErr),
    NulError,
}

pub open spec fn shout_err_text(e: ShoutErr) -> Seq<char> {
    match e {
        ShoutErr::Success => "Shout: Success"@,
        ShoutErr::Insane => "Shout: Insane"@,
        ShoutErr::NoConnect => "Shout: NoConnect"@,
        ShoutErr::NoLogin => "Shout: NoLogin"@,
        ShoutErr::Socket => "Shout: Socket"@,
        ShoutErr::Malloc => "Shout: Malloc"@,
        ShoutErr::Metadata => "Shout: Metadata"@,
        ShoutErr::Connected => "Shout: Connected"@,
        ShoutErr::Unconnected => "Shout: Unconnected"@,
        ShoutErr::Unsupported => "Shout: Unsupported"@,
        ShoutErr::Busy => "Shout: Busy"@,
        ShoutErr::NoTLS => "Shout: NoTLS"@,
        ShoutErr::TLSBadCert => "Shout: TLSBadCert"@,
        ShoutErr::Retry => "Shout: Retry"@,
    }
}

pub open spec fn conn_error_text(e: ShoutConnError) -> Seq<char> {
    match e {
        ShoutConnError::ShoutError(k) => shout_err_text(k),
        ShoutConnError::NulError => "Shout: NulError"@,
    }
}

impl ShoutErr {
    /// The fatal error for a client library error: "Shout: " and its name.
    pub fn into_error(self) -> (r: PDRadioError)
        ensures
            r.0@ == shout_err_text(self),
    {
        let text = match self {
            ShoutErr::Success => "Shout: Success",
            ShoutErr::Insane => "Shout: Insane",
            ShoutErr::NoConnect => "Shout: NoConnect",
            ShoutErr::NoLogin => "Shout: NoLogin",
            ShoutErr::Socket => "Shout: Socket",
            ShoutErr::Malloc => "Shout: Malloc",
            ShoutErr::Metadata => "Shout: Metadata",
            ShoutErr::Connected => "Shout: Connected",
            ShoutErr::Unconnected => "Shout: Unconnected",
            ShoutErr::Unsupported => "Shout: Unsupported",
            ShoutErr::Busy => "Shout: Busy",
            ShoutErr::NoTLS => "Shout: NoTLS",
            ShoutErr::TLSBadCert => "Shout: TLSBadCert",
            ShoutErr::Retry => "Shout: Retry",
        };
        PDRadioError(text.to_owned())
    }
}

impl ShoutConnError {
    /// The fatal error for a failed connection build.
    pub fn into_error(self) -> (r: PDRadioError)
        ensures
            r.0@ == conn_error_text(self),
    {
        match self {
            ShoutConnError::ShoutError(k) => k.into_error(),
            ShoutConnError::NulError => PDRadioError("Shout: NulError".to_owned()),
        }
    }
}

} // verus!
