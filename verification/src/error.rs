//! The failures of one attempt against the gateway.
use crate::text::{decimal, to_decimal};
use vstd::prelude::*;
use vstd::string::StringExecFns;

verus! {

/// Where in an HTTP exchange the transport gave up.
#[derive(Clone, Copy, Debug, PartialEq, Eq, Structural)]
pub enum TransportKind {
    /// The request could not be put together.
    Builder,
    /// The request could not be sent.
    Request,
    /// A redirect could not be followed.
    Redirect,
    /// The reply came with this status, which stands for a failure.
    Status(u16),
    /// The body of the request or of the reply could not be transferred.
    Body,
    /// The body of the reply arrived but is not what was asked for.
    Decode,
    /// The connection could not be upgraded.
    Upgrade,
}

/// A failure below the gateway's own protocol: what the HTTP client reports of it.
///
/// A timeout or a failure to connect is a cause, not a kind: either can
/// accompany any kind.
#[derive(Clone, Copy, Debug, PartialEq, Eq, Structural)]
pub struct TransportError {
    pub kind: TransportKind,
    pub connect: bool,
    pub timeout: bool,
}

impl TransportError {
    pub open spec fn spec_new(kind: TransportKind) -> Self {
        TransportError { kind, connect: false, timeout: false }
    }

    /// A failure of the given kind that is neither a timeout nor a failure to connect.
    #[verifier::when_used_as_spec(spec_new)]
    pub fn new(kind: TransportKind) -> (e: Self)
        ensures
            e == Self::spec_new(kind),
    {
        TransportError { kind, connect: false, timeout: false }
    }

    pub open spec fn spec_status_code(status: u16) -> Self {
        Self::spec_new(TransportKind::Status(status))
    }

    /// The failure that a reply with this status stands for.
    #[verifier::when_used_as_spec(spec_status_code)]
    pub fn status_code(status: u16) -> (e: Self)
        ensures
            e == Self::spec_status_code(status),
    {
        TransportError::new(TransportKind::Status(status))
    }

    pub open spec fn spec_decode() -> Self {
        Self::spec_new(TransportKind::Decode)
    }

    /// A failure to decode the body of a reply.
    #[verifier::when_used_as_spec(spec_decode)]
    pub fn decode() -> (e: Self)
        ensures
            e == Self::spec_decode(),
    {
        TransportError::new(TransportKind::Decode)
    }

    pub open spec fn spec_is_body(&self) -> bool {
        self.kind == TransportKind::Body
    }

    #[verifier::when_used_as_spec(spec_is_body)]
    pub fn is_body(&self) -> (b: bool)
        ensures
            b == self.spec_is_body(),
    {
        match self.kind {
            TransportKind::Body => true,
            _ => false,
        }
    }

    pub open spec fn spec_is_decode(&self) -> bool {
        self.kind == TransportKind::Decode
    }

    #[verifier::when_used_as_spec(spec_is_decode)]
    pub fn is_decode(&self) -> (b: bool)
        ensures
            b == self.spec_is_decode(),
    {
        match self.kind {
            TransportKind::Decode => true,
            _ => false,
        }
    }

    pub open spec fn spec_is_status(&self) -> bool {
        self.kind is Status
    }

    #[verifier::when_used_as_spec(spec_is_status)]
    pub fn is_status(&self) -> (b: bool)
        ensures
            b == self.spec_is_status(),
    {
        match self.kind {
            TransportKind::Status(_) => true,
            _ => false,
        }
    }

    pub open spec fn spec_is_connect(&self) -> bool {
        self.connect
    }

    #[verifier::when_used_as_spec(spec_is_connect)]
    pub fn is_connect(&self) -> (b: bool)
        ensures
            b == self.spec_is_connect(),
    {
        self.connect
    }

    pub open spec fn spec_is_timeout(&self) -> bool {
        self.timeout
    }

    #[verifier::when_used_as_spec(spec_is_timeout)]
    pub fn is_timeout(&self) -> (b: bool)
        ensures
            b == self.spec_is_timeout(),
    {
        self.timeout
    }

    pub open spec fn spec_status(&self) -> Option<u16> {
        match self.kind {
            TransportKind::Status(code) => Some(code),
            _ => None,
        }
    }

    /// The status of the reply, where the failure is one of status.
    #[verifier::when_used_as_spec(spec_status)]
    pub fn status(&self) -> (code: Option<u16>)
        ensures
            code == self.spec_status(),
    {
        match self.kind {
            TransportKind::Status(code) => Some(code),
            _ => None,
        }
    }
}

/// An error of the gateway's own: the body of a 400 or 500 reply, decoded.
#[derive(Clone, Debug, PartialEq, Eq)]
pub struct StarknetError {
    pub code: String,
    pub message: String,
}

/// A [`StarknetError`] as specifications see it.
pub struct StarknetErrorView {
    pub code: Seq<char>,
    pub message: Seq<char>,
}

impl View for StarknetError {
    type V = StarknetErrorView;

    open spec fn view(&self) -> StarknetErrorView {
        StarknetErrorView { code: self.code@, message: self.message@ }
    }
}

/// Why an attempt failed.
#[derive(Clone, Debug, PartialEq, Eq)]
pub enum SequencerError {
    /// The gateway answered with an error of its own.
    StarknetError(StarknetError),
    /// The transport failed, or the reply was not usable.
    ReqwestError(TransportError),
    /// The gateway answered 400 or 500, but not with an error of its own shape.
    InvalidStarknetErrorVariant,
}

/// A [`SequencerError`] as specifications see it.
pub enum SequencerErrorView {
    StarknetError(StarknetErrorView),
    ReqwestError(TransportError),
    InvalidStarknetErrorVariant,
}

impl View for SequencerError {
    type V = SequencerErrorView;

    open spec fn view(&self) -> SequencerErrorView {
        match self {
            SequencerError::StarknetError(e) => SequencerErrorView::StarknetError(e@),
            SequencerError::ReqwestError(e) => SequencerErrorView::ReqwestError(*e),
            SequencerError::InvalidStarknetErrorVariant => SequencerErrorView::InvalidStarknetErrorVariant,
        }
    }
}

impl TransportKind {
    /// What the failure is called in a message. The wording is this
    /// library's own: it names the kind, and the number of a status. An HTTP
    /// client words its failures itself, and says more of them; its message
    /// is the caller's to keep.
    pub open spec fn describe(self) -> Seq<char> {
        match self {
            TransportKind::Builder => "the request could not be built"@,
            TransportKind::Request => "the request could not be sent"@,
            TransportKind::Redirect => "a redirect could not be followed"@,
            TransportKind::Status(code) => "the reply has status "@ + decimal(code as nat),
            TransportKind::Body => "a body could not be transferred"@,
            TransportKind::Decode => "the body of the reply could not be decoded"@,
            TransportKind::Upgrade => "the connection could not be upgraded"@,
        }
    }
}

impl SequencerErrorView {
    /// The message of the error: that of the gateway for an error of its
    /// own, a fixed one for a reply of the wrong shape, and for a failure of
    /// the transport what its kind is called.
    pub open spec fn message(self) -> Seq<char> {
        match self {
            SequencerErrorView::StarknetError(e) => e.message,
            SequencerErrorView::ReqwestError(e) => e.kind.describe(),
            SequencerErrorView::InvalidStarknetErrorVariant =>
                "error decoding response body: invalid error variant"@,
        }
    }
}

impl TransportError {
    /// What the failure is called in a message, in this library's own words.
    pub fn message(&self) -> (text: String)
        ensures
            text@ == self.kind.describe(),
    {
        match self.kind {
            TransportKind::Builder => String::from_str("the request could not be built"),
            TransportKind::Request => String::from_str("the request could not be sent"),
            TransportKind::Redirect => String::from_str("a redirect could not be followed"),
            TransportKind::Status(code) => {
                let mut text = String::from_str("the reply has status ");
                text.append(to_decimal(code as u64).as_str());
                text
            },
            TransportKind::Body => String::from_str("a body could not be transferred"),
            TransportKind::Decode => String::from_str("the body of the reply could not be decoded"),
            TransportKind::Upgrade => String::from_str("the connection could not be upgraded"),
        }
    }
}

impl SequencerError {
    /// The message of the error.
    pub fn message(&self) -> (text: String)
        ensures
            text@ == self@.message(),
    {
        match self {
            SequencerError::StarknetError(e) => e.message.clone(),
            SequencerError::ReqwestError(e) => e.message(),
            SequencerError::InvalidStarknetErrorVariant => String::from_str(
                "error decoding response body: invalid error variant",
            ),
        }
    }
}

} // verus!
