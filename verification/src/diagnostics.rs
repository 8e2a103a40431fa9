//! Draining and classification of the GPU error queue.
//!
//! The GPU queues error codes; a single query returns the oldest pending code,
//! so a full check must loop until the queue is empty. This module classifies
//! each code into a human-readable category and models the queue itself, so
//! that the frame loop can state that a clean frame leaves no residual errors.

use vstd::prelude::*;

verus! {

/// The category of one GPU error code.
#[derive(Clone, Copy, Debug, PartialEq, Eq, Structural)]
pub enum GlDiagnostic {
    InvalidEnum,
    InvalidValue,
    InvalidOperation,
    StackOverflow,
    StackUnderflow,
    OutOfMemory,
    InvalidFramebufferOperation,
    Unknown,
}

/// The classification of one error code, following the GPU API's numbering.
pub open spec fn classify_spec(code: u32) -> GlDiagnostic {
    if code == 0x0500 {
        GlDiagnostic::InvalidEnum
    } else if code == 0x0501 {
        GlDiagnostic::InvalidValue
    } else if code == 0x0502 {
        GlDiagnostic::InvalidOperation
    } else if code == 0x0503 {
        GlDiagnostic::StackOverflow
    } else if code == 0x0504 {
        GlDiagnostic::StackUnderflow
    } else if code == 0x0505 {
        GlDiagnostic::OutOfMemory
    } else if code == 0x0506 {
        GlDiagnostic::InvalidFramebufferOperation
    } else {
        GlDiagnostic::Unknown
    }
}

/// Maps one GPU error code to its category.
pub fn classify_error(code: u32) -> (d: GlDiagnostic)
    ensures
        d == classify_spec(code),
{
    if code == 0x0500 {
        GlDiagnostic::InvalidEnum
    } else if code == 0x0501 {
        GlDiagnostic::InvalidValue
    } else if code == 0x0502 {
        GlDiagnostic::InvalidOperation
    } else if code == 0x0503 {
        GlDiagnostic::StackOverflow
    } else if code == 0x0504 {
        GlDiagnostic::StackUnderflow
    } else if code == 0x0505 {
        GlDiagnostic::OutOfMemory
    } else if code == 0x0506 {
        GlDiagnostic::InvalidFramebufferOperation
    } else {
        GlDiagnostic::Unknown
    }
}

impl GlDiagnostic {
    /// The human-readable name of the category, as the driver layer logs it.
    pub fn label(&self) -> (s: String)
        ensures
            *self == GlDiagnostic::InvalidEnum ==> s@ == "invalid-enum"@,
            *self == GlDiagnostic::InvalidValue ==> s@ == "invalid-value"@,
            *self == GlDiagnostic::InvalidOperation ==> s@ == "invalid-operation"@,
            *self == GlDiagnostic::StackOverflow ==> s@ == "stack-overflow"@,
            *self == GlDiagnostic::StackUnderflow ==> s@ == "stack-underflow"@,
            *self == GlDiagnostic::OutOfMemory ==> s@ == "out-of-memory"@,
            *self == GlDiagnostic::InvalidFramebufferOperation ==> s@
                == "invalid-framebuffer-operation"@,
            *self == GlDiagnostic::Unknown ==> s@ == "unknown"@,
            s@.len() > 0,
    {
        proof {
            reveal_strlit("invalid-enum");
            reveal_strlit("invalid-value");
            reveal_strlit("invalid-operation");
            reveal_strlit("stack-overflow");
            reveal_strlit("stack-underflow");
            reveal_strlit("out-of-memory");
            reveal_strlit("invalid-framebuffer-operation");
            reveal_strlit("unknown");
        }
        match self {
            GlDiagnostic::InvalidEnum => "invalid-enum".to_owned(),
            GlDiagnostic::InvalidValue => "invalid-value".to_owned(),
            GlDiagnostic::InvalidOperation => "invalid-operation".to_owned(),
            GlDiagnostic::StackOverflow => "stack-overflow".to_owned(),
            GlDiagnostic::StackUnderflow => "stack-underflow".to_owned(),
            GlDiagnostic::OutOfMemory => "out-of-memory".to_owned(),
            GlDiagnostic::InvalidFramebufferOperation => {
                "invalid-framebuffer-operation".to_owned()
            },
            GlDiagnostic::Unknown => "unknown".to_owned(),
        }
    }
}

/// What one full drain of a queue of pending codes reports.
pub open spec fn drained_diagnostics(codes: Seq<u32>) -> Seq<GlDiagnostic> {
    codes.map(|i: int, c: u32| classify_spec(c))
}

/// What one full drain of a queue leaves pending: nothing.
pub open spec fn drained_rest(codes: Seq<u32>) -> Seq<u32> {
    Seq::<u32>::empty()
}

/// A model of the GPU error queue: codes accumulate in order until a drain
/// removes and classifies them all.
pub struct ErrorQueue {
    codes: Vec<u32>,
}

impl ErrorQueue {
    /// The pending error codes, oldest first.
    pub closed spec fn view(&self) -> Seq<u32> {
        self.codes@
    }

    /// An empty queue, as a fresh context starts with.
    pub fn new() -> (q: ErrorQueue)
        ensures
            q@ == Seq::<u32>::empty(),
    {
        ErrorQueue { codes: Vec::new() }
    }

    /// A failed GPU call appends its error code to the queue.
    pub fn record(&mut self, code: u32)
        ensures
            final(self)@ == old(self)@.push(code),
    {
        self.codes.push(code);
    }

    /// Whether no error is pending.
    pub fn is_empty(&self) -> (b: bool)
        ensures
            b == (self@.len() == 0),
    {
        self.codes.len() == 0
    }

    /// Removes every pending code and reports each one's category, oldest
    /// first. A single query can hide later errors, so the whole queue is
    /// drained in one call.
    pub fn drain(&mut self) -> (diags: Vec<GlDiagnostic>)
        ensures
            diags@ == drained_diagnostics(old(self)@),
            final(self)@ == drained_rest(old(self)@),
    {
        let mut diags: Vec<GlDiagnostic> = Vec::new();
        let mut i: usize = 0;
        while i < self.codes.len()
            invariant
                i <= self.codes.len(),
                self.codes@ == old(self)@,
                diags@ == drained_diagnostics(old(self)@.take(i as int)),
            decreases self.codes.len() - i,
        {
            diags.push(classify_error(self.codes[i]));
            proof {
                assert(old(self)@.take(i + 1 as int).drop_last() == old(self)@.take(i as int));
                assert(diags@ =~= drained_diagnostics(old(self)@.take(i + 1 as int)));
            }
            i = i + 1;
        }
        proof {
            assert(old(self)@.take(self.codes@.len() as int) == old(self)@);
        }
        self.codes = Vec::new();
        diags
    }
}

/// Draining is idempotent: one drain leaves the queue with no pending codes,
/// so a second drain with no intervening GPU call reports no diagnostics.
pub proof fn lemma_drain_idempotent(codes: Seq<u32>)
    ensures
        drained_diagnostics(drained_rest(codes)).len() == 0,
        drained_rest(drained_rest(codes)) == drained_rest(codes),
{
}

} // verus!
