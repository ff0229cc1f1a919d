use vstd::prelude::*;

verus! {

/// What went wrong.
#[derive(Debug, Clone, Copy, PartialEq, Eq, Structural)]
pub enum RsAlgoErrorKind {
    ParseError,
    InvalidCandle,
    WrongInstrumentConf,
    InvalidPeak,
    RequestError,
    ConnectionError,
    SendingAfter,
    CantRead,
    NoResponse,
}

impl RsAlgoErrorKind {
    /// The message shown for the error.
    pub open spec fn spec_message(self) -> Seq<char> {
        match self {
            RsAlgoErrorKind::ParseError => "Error while Parsing!"@,
            RsAlgoErrorKind::InvalidCandle => "Invalid Candle!"@,
            RsAlgoErrorKind::WrongInstrumentConf => "Invalid Instrument!"@,
            RsAlgoErrorKind::InvalidPeak => "Invalid Peak!"@,
            RsAlgoErrorKind::RequestError => "Error on Request!"@,
            RsAlgoErrorKind::ConnectionError => "Connection Error!"@,
            RsAlgoErrorKind::SendingAfter => "Can't send after disconect!"@,
            RsAlgoErrorKind::CantRead => "Can't read socket!"@,
            RsAlgoErrorKind::NoResponse => "No response!"@,
        }
    }

    /// The message shown for the error.
    pub fn message(&self) -> (res: &'static str)
        ensures
            res@ == self.spec_message(),
    {
        match self {
            RsAlgoErrorKind::ParseError => "Error while Parsing!",
            RsAlgoErrorKind::InvalidCandle => "Invalid Candle!",
            RsAlgoErrorKind::WrongInstrumentConf => "Invalid Instrument!",
            RsAlgoErrorKind::InvalidPeak => "Invalid Peak!",
            RsAlgoErrorKind::RequestError => "Error on Request!",
            RsAlgoErrorKind::ConnectionError => "Connection Error!",
            RsAlgoErrorKind::SendingAfter => "Can't send after disconect!",
            RsAlgoErrorKind::CantRead => "Can't read socket!",
            RsAlgoErrorKind::NoResponse => "No response!",
        }
    }
}

/// An error of the library, carrying its kind.
#[derive(Debug, Clone, Copy, PartialEq, Eq, Structural)]
pub struct RsAlgoError {
    pub err: RsAlgoErrorKind,
}

impl RsAlgoError {
    /// The kind of the error.
    pub fn kind(&self) -> (res: RsAlgoErrorKind)
        ensures
            res == self.err,
    {
        self.err
    }

    /// The message shown for the error: that of its kind.
    pub fn to_string(&self) -> (res: String)
        ensures
            res@ == self.err.spec_message(),
    {
        self.err.message().to_owned()
    }
}

impl From<RsAlgoErrorKind> for RsAlgoError {
    fn from(kind: RsAlgoErrorKind) -> (res: RsAlgoError) {
        RsAlgoError { err: kind }
    }
}

impl vstd::std_specs::convert::FromSpecImpl<RsAlgoErrorKind> for RsAlgoError {
    open spec fn obeys_from_spec() -> bool {
        true
    }

    open spec fn from_spec(kind: RsAlgoErrorKind) -> RsAlgoError {
        RsAlgoError { err: kind }
    }
}

/// An error made from a kind reports that kind.
pub proof fn lemma_kind_of_error(kind: RsAlgoErrorKind)
    ensures
        <RsAlgoError as vstd::std_specs::convert::FromSpec<RsAlgoErrorKind>>::from_spec(kind).err
            == kind,
{
}

/// The result of the library's fallible operations.
pub type Result<T> = core::result::Result<T, RsAlgoError>;

} // verus!
