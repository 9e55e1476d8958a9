use vstd::prelude::*;

verus! {

/// Congestion control policy used when routing data.
///
/// Across the C boundary the policy travels as its code: `Drop` is 0,
/// `Block` is 1 and `BlockFirst` is 2.
#[derive(Debug, Clone, Copy, PartialEq, Eq, Structural)]
pub enum CongestionControl {
    Drop,
    Block,
    BlockFirst,
}

/// The C code of a congestion control policy.
pub open spec fn congestion_control_code(c: CongestionControl) -> i32 {
    match c {
        CongestionControl::Drop => 0,
        CongestionControl::Block => 1,
        CongestionControl::BlockFirst => 2,
    }
}

impl CongestionControl {
    /// The C code of this policy.
    pub fn code(self) -> (r: i32)
        ensures
            r == congestion_control_code(self),
    {
        match self {
            CongestionControl::Drop => 0,
            CongestionControl::Block => 1,
            CongestionControl::BlockFirst => 2,
        }
    }

    /// The policy whose C code is `code`, or `None` when no policy has it.
    pub fn from_code(code: i32) -> (r: Option<CongestionControl>)
        ensures
            r == congestion_control_of_code(code),
    {
        if code == 0 {
            Some(CongestionControl::Drop)
        } else if code == 1 {
            Some(CongestionControl::Block)
        } else if code == 2 {
            Some(CongestionControl::BlockFirst)
        } else {
            None
        }
    }
}

/// The policy a C code names, if any.
pub open spec fn congestion_control_of_code(code: i32) -> Option<CongestionControl> {
    if code == 0 {
        Some(CongestionControl::Drop)
    } else if code == 1 {
        Some(CongestionControl::Block)
    } else if code == 2 {
        Some(CongestionControl::BlockFirst)
    } else {
        None
    }
}

/// Reading a policy's code back gives the policy again, and a code that
/// names a policy is that policy's code.
pub proof fn lemma_congestion_control_code_round_trip(c: CongestionControl, code: i32)
    ensures
        congestion_control_of_code(congestion_control_code(c)) == Some(c),
        congestion_control_of_code(code) == Some(c) ==> congestion_control_code(c) == code,
{
}

/// The C codes are the ones the C enum declares: `Drop` 0, `Block` 1 and
/// `BlockFirst` 2, and no other code names a policy.
pub proof fn lemma_congestion_control_codes(code: i32)
    ensures
        congestion_control_code(CongestionControl::Drop) == 0,
        congestion_control_code(CongestionControl::Block) == 1,
        congestion_control_code(CongestionControl::BlockFirst) == 2,
        !(0 <= code <= 2) ==> congestion_control_of_code(code) is None,
        (0 <= code <= 2) ==> congestion_control_of_code(code) is Some,
{
}

/// Message priority, from the most urgent (`RealTime`) to the least
/// (`Background`).
#[derive(Debug, Clone, Copy, PartialEq, Eq, Structural)]
pub enum Priority {
    RealTime,
    InteractiveHigh,
    InteractiveLow,
    DataHigh,
    Data,
    DataLow,
    Background,
}

/// Reliability guarantee requested for message delivery.
#[derive(Debug, Clone, Copy, PartialEq, Eq, Structural)]
pub enum Reliability {
    BestEffort,
    Reliable,
}

} // verus!

