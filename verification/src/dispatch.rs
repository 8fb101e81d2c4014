//! What an operation hands back to its caller, and what the caller reports
//! once the transport has answered.

use vstd::prelude::*;
use crate::error::ErrorCode;
use crate::error::TransportError;

verus! {

/// The decision that ends every operation.
///
/// Only `Write` asks anything of the transport: its bytes are to be written
/// in one piece, once.
#[derive(Debug, PartialEq, Eq)]
pub enum Dispatch {
    /// An operand is outside its domain. Nothing was encoded and nothing may
    /// be sent.
    Rejected(ErrorCode),
    /// The operands are valid, but the driver holds no transport handle.
    NotInitialized,
    /// The operands are valid and these bytes are the whole command.
    Write(Vec<u8>),
}

/// A `Dispatch` with the bytes as a sequence.
pub enum DispatchView {
    Rejected(ErrorCode),
    NotInitialized,
    Write(Seq<u8>),
}

impl View for Dispatch {
    type V = DispatchView;

    open spec fn view(&self) -> DispatchView {
        match self {
            Dispatch::Rejected(code) => DispatchView::Rejected(*code),
            Dispatch::NotInitialized => DispatchView::NotInitialized,
            Dispatch::Write(bytes) => DispatchView::Write(bytes@),
        }
    }
}

impl DispatchView {
    /// A rejection names the domain that was violated, so its code is never
    /// `Success`.
    pub open spec fn well_formed(self) -> bool {
        self matches DispatchView::Rejected(code) ==> code != ErrorCode::Success
    }

    /// The bytes that go to the transport: those of a `Write`, none
    /// otherwise.
    pub open spec fn wire(self) -> Seq<u8> {
        match self {
            DispatchView::Write(bytes) => bytes,
            _ => Seq::empty(),
        }
    }

    /// The status of the operands: the error of a `Rejected`, `Success`
    /// otherwise.
    pub open spec fn status(self) -> ErrorCode {
        match self {
            DispatchView::Rejected(code) => code,
            _ => ErrorCode::Success,
        }
    }

    /// The report that follows, given whether the transport completed the
    /// write. `written` counts only for a `Write`.
    pub open spec fn report(self, written: bool) -> Report {
        match self {
            DispatchView::Rejected(code) => Report { code, transport: None },
            DispatchView::NotInitialized => Report {
                code: ErrorCode::Success,
                transport: Some(TransportError::NotInitialized),
            },
            DispatchView::Write(_) => Report {
                code: ErrorCode::Success,
                transport: if written {
                    None
                } else {
                    Some(TransportError::WriteFailed)
                },
            },
        }
    }
}

/// How an operation ended: the status of its operands, and beside it what
/// went wrong at the transport, if anything did.
#[derive(Clone, Copy, Debug, PartialEq, Eq)]
pub struct Report {
    /// The status of the operands.
    pub code: ErrorCode,
    /// The transport failure, if there was one.
    pub transport: Option<TransportError>,
}

impl Report {
    /// Whether the operation succeeded: the operands were valid and the
    /// transport wrote the command.
    pub open spec fn succeeded(self) -> bool {
        self.code == ErrorCode::Success && self.transport is None
    }

    /// Whether the operation succeeded.
    pub fn is_success(&self) -> (b: bool)
        ensures
            b == self.succeeded(),
    {
        self.code.is_success() && self.transport.is_none()
    }
}

impl Dispatch {
    /// The bytes that go to the transport: those of a `Write`, none
    /// otherwise.
    pub fn wire(&self) -> (bytes: &[u8])
        ensures
            bytes@ == self@.wire(),
    {
        match self {
            Dispatch::Write(bytes) => bytes.as_slice(),
            _ => &[],
        }
    }

    /// The status of the operands.
    pub fn status(&self) -> (code: ErrorCode)
        ensures
            code == self@.status(),
    {
        match self {
            Dispatch::Rejected(code) => *code,
            _ => ErrorCode::Success,
        }
    }

    /// Concludes the operation. The caller says whether the transport
    /// completed the one write that a `Write` asked for; for any other
    /// decision nothing was written and `written` is not looked at.
    pub fn report(&self, written: bool) -> (r: Report)
        ensures
            r == self@.report(written),
    {
        match self {
            Dispatch::Rejected(code) => Report { code: *code, transport: None },
            Dispatch::NotInitialized => Report {
                code: ErrorCode::Success,
                transport: Some(TransportError::NotInitialized),
            },
            Dispatch::Write(_) => Report {
                code: ErrorCode::Success,
                transport: if written {
                    None
                } else {
                    Some(TransportError::WriteFailed)
                },
            },
        }
    }
}

/// Only a write that the transport completed is reported as a success.
pub proof fn success_needs_completed_write(decision: DispatchView, written: bool)
    requires
        decision.well_formed(),
    ensures
        decision.report(written).succeeded() <==> decision is Write && written,
{
}

/// Whatever is not a `Write` sends nothing, and a rejection keeps its error.
pub proof fn only_write_reaches_wire(decision: DispatchView)
    ensures
        !(decision is Write) ==> decision.wire().len() == 0,
        forall|written: bool| #[trigger] decision.report(written).code == decision.status(),
{
}

} // verus!
