//! Status codes that cross the native boundary.

use vstd::prelude::*;

verus! {

/// The status of a native operation.
///
/// Every variant but [`ErrorCode::TimeoutExpired`] stands for exactly one
/// integer of the native library. `TimeoutExpired` is produced only on this
/// side of the boundary, by a caller that stopped waiting.
#[derive(Clone, Copy, Debug, PartialEq, Eq, Structural)]
pub enum ErrorCode {
    Success,
    CommonInvalidParam1,
    CommonInvalidParam2,
    CommonInvalidParam3,
    CommonInvalidParam4,
    CommonInvalidParam5,
    CommonInvalidParam6,
    CommonInvalidParam7,
    CommonInvalidParam8,
    CommonInvalidParam9,
    CommonInvalidParam10,
    CommonInvalidParam11,
    CommonInvalidParam12,
    /// The native library found its own state inconsistent.
    CommonInvalidState,
    /// An argument had the right type but not the structure asked for.
    CommonInvalidStructure,
    CommonIOError,
    /// No pool ledger configuration of that name exists.
    PoolLedgerNotCreatedError,
    /// A pool ledger configuration of that name exists already.
    PoolLedgerConfigAlreadyExistsError,
    /// A native status this library has no name for, kept as it came.
    Unrecognized(i32),
    /// The caller's deadline passed before the completion arrived.
    TimeoutExpired,
}

impl ErrorCode {
    /// The integer that the native library uses for this status, if it has one.
    pub open spec fn native_code(self) -> Option<int> {
        match self {
            ErrorCode::Success => Some(0),
            ErrorCode::CommonInvalidParam1 => Some(100),
            ErrorCode::CommonInvalidParam2 => Some(101),
            ErrorCode::CommonInvalidParam3 => Some(102),
            ErrorCode::CommonInvalidParam4 => Some(103),
            ErrorCode::CommonInvalidParam5 => Some(104),
            ErrorCode::CommonInvalidParam6 => Some(105),
            ErrorCode::CommonInvalidParam7 => Some(106),
            ErrorCode::CommonInvalidParam8 => Some(107),
            ErrorCode::CommonInvalidParam9 => Some(108),
            ErrorCode::CommonInvalidParam10 => Some(109),
            ErrorCode::CommonInvalidParam11 => Some(110),
            ErrorCode::CommonInvalidParam12 => Some(111),
            ErrorCode::CommonInvalidState => Some(112),
            ErrorCode::CommonInvalidStructure => Some(113),
            ErrorCode::CommonIOError => Some(114),
            ErrorCode::PoolLedgerNotCreatedError => Some(300),
            ErrorCode::PoolLedgerConfigAlreadyExistsError => Some(306),
            ErrorCode::Unrecognized(code) => Some(code as int),
            ErrorCode::TimeoutExpired => None,
        }
    }

    /// Whether `code` is one of the integers that has a named variant.
    pub open spec fn is_named_code(code: int) -> bool {
        code == 0 || 100 <= code <= 114 || code == 300 || code == 306
    }

    /// A value is well formed when `Unrecognized` holds no integer that has
    /// a name, so that every native integer has one representation.
    pub open spec fn wf(self) -> bool {
        self matches ErrorCode::Unrecognized(code) ==> !Self::is_named_code(code as int)
    }

    /// The status that stands for the native integer `code`: the variant named
    /// for it, or `Unrecognized` with the integer itself.
    pub open spec fn of_native(code: i32) -> ErrorCode {
        if code == 0 {
            ErrorCode::Success
        } else if code == 100 {
            ErrorCode::CommonInvalidParam1
        } else if code == 101 {
            ErrorCode::CommonInvalidParam2
        } else if code == 102 {
            ErrorCode::CommonInvalidParam3
        } else if code == 103 {
            ErrorCode::CommonInvalidParam4
        } else if code == 104 {
            ErrorCode::CommonInvalidParam5
        } else if code == 105 {
            ErrorCode::CommonInvalidParam6
        } else if code == 106 {
            ErrorCode::CommonInvalidParam7
        } else if code == 107 {
            ErrorCode::CommonInvalidParam8
        } else if code == 108 {
            ErrorCode::CommonInvalidParam9
        } else if code == 109 {
            ErrorCode::CommonInvalidParam10
        } else if code == 110 {
            ErrorCode::CommonInvalidParam11
        } else if code == 111 {
            ErrorCode::CommonInvalidParam12
        } else if code == 112 {
            ErrorCode::CommonInvalidState
        } else if code == 113 {
            ErrorCode::CommonInvalidStructure
        } else if code == 114 {
            ErrorCode::CommonIOError
        } else if code == 300 {
            ErrorCode::PoolLedgerNotCreatedError
        } else if code == 306 {
            ErrorCode::PoolLedgerConfigAlreadyExistsError
        } else {
            ErrorCode::Unrecognized(code)
        }
    }

    /// Reads a status that came from the native side.
    pub fn from_code(code: i32) -> (status: ErrorCode)
        ensures
            status.wf(),
            status.native_code() == Some(code as int),
            status == Self::of_native(code),
            status != ErrorCode::TimeoutExpired,
    {
        match code {
            0 => ErrorCode::Success,
            100 => ErrorCode::CommonInvalidParam1,
            101 => ErrorCode::CommonInvalidParam2,
            102 => ErrorCode::CommonInvalidParam3,
            103 => ErrorCode::CommonInvalidParam4,
            104 => ErrorCode::CommonInvalidParam5,
            105 => ErrorCode::CommonInvalidParam6,
            106 => ErrorCode::CommonInvalidParam7,
            107 => ErrorCode::CommonInvalidParam8,
            108 => ErrorCode::CommonInvalidParam9,
            109 => ErrorCode::CommonInvalidParam10,
            110 => ErrorCode::CommonInvalidParam11,
            111 => ErrorCode::CommonInvalidParam12,
            112 => ErrorCode::CommonInvalidState,
            113 => ErrorCode::CommonInvalidStructure,
            114 => ErrorCode::CommonIOError,
            300 => ErrorCode::PoolLedgerNotCreatedError,
            306 => ErrorCode::PoolLedgerConfigAlreadyExistsError,
            _ => ErrorCode::Unrecognized(code),
        }
    }

    /// The native integer of this status, or `None` for a status that never
    /// crosses the boundary.
    pub fn to_code(&self) -> (code: Option<i32>)
        ensures
            match code {
                Some(c) => self.native_code() == Some(c as int),
                None => self.native_code() is None,
            },
    {
        match self {
            ErrorCode::Success => Some(0),
            ErrorCode::CommonInvalidParam1 => Some(100),
            ErrorCode::CommonInvalidParam2 => Some(101),
            ErrorCode::CommonInvalidParam3 => Some(102),
            ErrorCode::CommonInvalidParam4 => Some(103),
            ErrorCode::CommonInvalidParam5 => Some(104),
            ErrorCode::CommonInvalidParam6 => Some(105),
            ErrorCode::CommonInvalidParam7 => Some(106),
            ErrorCode::CommonInvalidParam8 => Some(107),
            ErrorCode::CommonInvalidParam9 => Some(108),
            ErrorCode::CommonInvalidParam10 => Some(109),
            ErrorCode::CommonInvalidParam11 => Some(110),
            ErrorCode::CommonInvalidParam12 => Some(111),
            ErrorCode::CommonInvalidState => Some(112),
            ErrorCode::CommonInvalidStructure => Some(113),
            ErrorCode::CommonIOError => Some(114),
            ErrorCode::PoolLedgerNotCreatedError => Some(300),
            ErrorCode::PoolLedgerConfigAlreadyExistsError => Some(306),
            ErrorCode::Unrecognized(code) => Some(*code),
            ErrorCode::TimeoutExpired => None,
        }
    }

    pub fn is_success(&self) -> (yes: bool)
        ensures
            yes == (*self == ErrorCode::Success),
    {
        match self {
            ErrorCode::Success => true,
            _ => false,
        }
    }

    /// `Ok` for success and `Err` with the status itself for anything else.
    pub fn try_err(self) -> (r: Result<(), ErrorCode>)
        ensures
            r == (if self == ErrorCode::Success { Ok::<(), ErrorCode>(()) } else { Err(self) }),
    {
        match self {
            ErrorCode::Success => Ok(()),
            other => Err(other),
        }
    }

    /// Reading a native integer and writing the status back gives the same
    /// integer, and reading never gives the timeout status.
    pub proof fn lemma_of_native_keeps_code(code: i32)
        ensures
            Self::of_native(code).wf(),
            Self::of_native(code).native_code() == Some(code as int),
            Self::of_native(code) != ErrorCode::TimeoutExpired,
    {
    }

    /// Two well-formed statuses with the same native integer are the same
    /// status: nothing is lost or merged when a status crosses the boundary.
    pub proof fn lemma_native_code_injective(a: ErrorCode, b: ErrorCode)
        requires
            a.wf(),
            b.wf(),
            a.native_code() is Some,
            a.native_code() == b.native_code(),
        ensures
            a == b,
    {
    }
}

} // verus!
