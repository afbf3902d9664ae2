//! The failures a request can end in.
use vstd::prelude::*;
use vstd::string::StringExecFns;

verus! {

/// Why a request was not served.
#[derive(Clone, Debug, PartialEq, Eq)]
pub enum ProxyError {
    /// The request was addressed to a host the proxy does not answer for.
    UnsupportedHost(String),
    /// The origin could not be reached or the transport failed.
    OriginRequestFailed,
    /// The origin answered but its body could not be read to the end.
    OriginBodyReadFailed,
    /// The response record could not be assembled.
    ResponseBuildFailed,
}

/// The mathematical content of a [`ProxyError`].
pub ghost enum ErrorView {
    UnsupportedHost(Seq<char>),
    OriginRequestFailed,
    OriginBodyReadFailed,
    ResponseBuildFailed,
}

impl View for ProxyError {
    type V = ErrorView;

    open spec fn view(&self) -> ErrorView {
        match self {
            ProxyError::UnsupportedHost(name) => ErrorView::UnsupportedHost(name@),
            ProxyError::OriginRequestFailed => ErrorView::OriginRequestFailed,
            ProxyError::OriginBodyReadFailed => ErrorView::OriginBodyReadFailed,
            ProxyError::ResponseBuildFailed => ErrorView::ResponseBuildFailed,
        }
    }
}

/// The text a client sees for each failure.
pub open spec fn message_of(e: ErrorView) -> Seq<char> {
    match e {
        ErrorView::UnsupportedHost(name) => "Unsupported host "@ + name,
        ErrorView::OriginRequestFailed => "Request failed"@,
        ErrorView::OriginBodyReadFailed => "Could not get bytes from origin response"@,
        ErrorView::ResponseBuildFailed => "Could not build response"@,
    }
}

impl ProxyError {
    /// The plain-text body sent downstream for this failure.
    pub fn message(&self) -> (text: String)
        ensures
            text@ == message_of(self@),
    {
        match self {
            ProxyError::UnsupportedHost(name) => {
                String::from_str("Unsupported host ").concat(name.as_str())
            },
            ProxyError::OriginRequestFailed => String::from_str("Request failed"),
            ProxyError::OriginBodyReadFailed => String::from_str(
                "Could not get bytes from origin response",
            ),
            ProxyError::ResponseBuildFailed => String::from_str("Could not build response"),
        }
    }
}

} // verus!
