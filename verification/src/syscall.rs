//! What a syscall handler returns, as the library and as the C side have it.

use crate::flags::Status;
use vstd::prelude::*;

verus! {

/// The value of a register that a syscall takes or returns.
#[derive(Clone, Copy, Debug, PartialEq, Eq, Structural)]
pub struct SysCallReg {
    pub as_i64: i64,
}

impl vstd::std_specs::convert::FromSpecImpl<i64> for SysCallReg {
    open spec fn obeys_from_spec() -> bool {
        true
    }

    open spec fn from_spec(value: i64) -> SysCallReg {
        SysCallReg { as_i64: value }
    }
}

impl From<i64> for SysCallReg {
    fn from(value: i64) -> (reg: SysCallReg)
        ensures
            reg.as_i64 == value,
    {
        SysCallReg { as_i64: value }
    }
}

/// The number of an error.
#[derive(Clone, Copy, Debug, PartialEq, Eq, Structural)]
pub struct Errno {
    pub value: i32,
}

/// The greatest number that an error can have.
pub const MAX_ERRNO: i32 = 4095;

/// What a blocked syscall waits for.
#[derive(Clone, Copy, Debug, PartialEq, Eq, Structural)]
pub struct Trigger {
    pub type_: libc::c_int,
    /// The address of the object that is waited on.
    pub object: usize,
    pub status: Status,
}

/// The condition under which a blocked syscall goes on.
#[derive(Debug)]
pub struct SysCallCondition {
    trigger: Trigger,
}

impl SysCallCondition {
    /// What the condition waits for.
    pub closed spec fn trigger(&self) -> Trigger {
        self.trigger
    }

    /// A condition that waits for `trigger`.
    pub fn new(trigger: Trigger) -> (condition: SysCallCondition)
        ensures
            condition.trigger() == trigger,
    {
        SysCallCondition { trigger }
    }
}

/// Why a syscall has no result.
#[derive(Debug)]
pub enum SyscallError {
    /// It failed.
    Errno(Errno),
    /// It is blocked.
    Cond(SysCallCondition),
    /// It is to be executed natively.
    Native,
}

/// What a syscall handler of the library returns.
pub type SyscallResult = Result<SysCallReg, SyscallError>;

/// The state of a syscall that a handler has returned from.
#[derive(Clone, Copy, Debug, PartialEq, Eq, Structural)]
pub enum SysCallReturnState {
    Done,
    Block,
    Native,
}

/// The parts of a [`SysCallReturn`].
pub struct SysCallReturnParts {
    pub state: SysCallReturnState,
    pub retval: SysCallReg,
    pub cond: Option<SysCallCondition>,
}

impl SysCallReturnParts {
    /// A blocked syscall has a condition.
    pub open spec fn well_formed(self) -> bool {
        self.state is Block ==> self.cond is Some
    }
}

/// What a syscall handler returns to the C side.
#[derive(Debug)]
pub struct SysCallReturn {
    state: SysCallReturnState,
    retval: SysCallReg,
    cond: Option<SysCallCondition>,
}

impl View for SysCallReturn {
    type V = SysCallReturnParts;

    closed spec fn view(&self) -> SysCallReturnParts {
        SysCallReturnParts { state: self.state, retval: self.retval, cond: self.cond }
    }
}

impl SysCallReturn {
    #[verifier::type_invariant]
    spec fn has_condition_if_blocked(self) -> bool {
        self@.well_formed()
    }

    /// The value with these parts.
    pub closed spec fn of(parts: SysCallReturnParts) -> SysCallReturn {
        SysCallReturn { state: parts.state, retval: parts.retval, cond: parts.cond }
    }

    /// A value is determined by its parts.
    pub proof fn lemma_of(self, parts: SysCallReturnParts)
        ensures
            SysCallReturn::of(parts)@ == parts,
            SysCallReturn::of(self@) == self,
    {
    }

    /// A value with these parts. A blocked syscall must have a condition.
    pub fn new(
        state: SysCallReturnState,
        retval: SysCallReg,
        cond: Option<SysCallCondition>,
    ) -> (syscall_return: SysCallReturn)
        requires
            state is Block ==> cond is Some,
        ensures
            syscall_return@ == (SysCallReturnParts { state, retval, cond }),
    {
        SysCallReturn { state, retval, cond }
    }

    /// The state of the syscall.
    pub fn state(&self) -> (state: SysCallReturnState)
        ensures
            state == self@.state,
    {
        self.state
    }

    /// The value that the syscall returns.
    pub fn retval(&self) -> (retval: SysCallReg)
        ensures
            retval == self@.retval,
    {
        self.retval
    }

    /// The condition that the syscall is blocked on, if there is one.
    pub fn cond(&self) -> (cond: Option<&SysCallCondition>)
        ensures
            cond is Some <==> self@.cond is Some,
            cond matches Some(cond) ==> *cond == self@.cond->0,
    {
        match &self.cond {
            Some(cond) => Some(cond),
            None => None,
        }
    }
}

/// `value` is the negative of the number of an error, which is how a syscall returns one.
pub open spec fn is_error_value(value: i64) -> bool {
    -MAX_ERRNO <= value < 0
}

/// The result that a value for the C side stands for.
pub open spec fn result_of(parts: SysCallReturnParts) -> SyscallResult {
    match parts.state {
        SysCallReturnState::Done => if is_error_value(parts.retval.as_i64) {
            Err(SyscallError::Errno(Errno { value: (-parts.retval.as_i64) as i32 }))
        } else {
            Ok(parts.retval)
        },
        SysCallReturnState::Block => Err(SyscallError::Cond(parts.cond->0)),
        SysCallReturnState::Native => Err(SyscallError::Native),
    }
}

/// The value for the C side that stands for a result.
pub open spec fn return_of(result: SyscallResult) -> SysCallReturnParts {
    match result {
        Ok(retval) => SysCallReturnParts { state: SysCallReturnState::Done, retval, cond: None },
        Err(SyscallError::Errno(errno)) => SysCallReturnParts {
            state: SysCallReturnState::Done,
            retval: SysCallReg { as_i64: -(errno.value as i64) as i64 },
            cond: None,
        },
        Err(SyscallError::Cond(cond)) => SysCallReturnParts {
            state: SysCallReturnState::Block,
            retval: SysCallReg { as_i64: 0 },
            cond: Some(cond),
        },
        Err(SyscallError::Native) => SysCallReturnParts {
            state: SysCallReturnState::Native,
            retval: SysCallReg { as_i64: 0 },
            cond: None,
        },
    }
}

impl vstd::std_specs::convert::FromSpecImpl<SysCallReturn> for SyscallResult {
    open spec fn obeys_from_spec() -> bool {
        true
    }

    open spec fn from_spec(syscall_return: SysCallReturn) -> SyscallResult {
        result_of(syscall_return@)
    }
}

impl From<SysCallReturn> for SyscallResult {
    fn from(syscall_return: SysCallReturn) -> (result: SyscallResult)
        ensures
            result == result_of(syscall_return@),
    {
        proof {
            use_type_invariant(&syscall_return);
        }
        let SysCallReturn { state, retval, cond } = syscall_return;
        match state {
            SysCallReturnState::Done => {
                let value: i64 = retval.as_i64;
                if value < 0 && value >= -(MAX_ERRNO as i64) {
                    Err(SyscallError::Errno(Errno { value: (-value) as i32 }))
                } else {
                    Ok(retval)
                }
            },
            SysCallReturnState::Block => match cond {
                Some(cond) => Err(SyscallError::Cond(cond)),
                None => Err(SyscallError::Native),
            },
            SysCallReturnState::Native => Err(SyscallError::Native),
        }
    }
}

impl vstd::std_specs::convert::FromSpecImpl<SyscallResult> for SysCallReturn {
    open spec fn obeys_from_spec() -> bool {
        true
    }

    open spec fn from_spec(result: SyscallResult) -> SysCallReturn {
        SysCallReturn::of(return_of(result))
    }
}

impl From<SyscallResult> for SysCallReturn {
    fn from(result: SyscallResult) -> (syscall_return: SysCallReturn)
        ensures
            syscall_return@ == return_of(result),
    {
        match result {
            Ok(retval) => SysCallReturn { state: SysCallReturnState::Done, retval, cond: None },
            Err(SyscallError::Errno(errno)) => SysCallReturn {
                state: SysCallReturnState::Done,
                retval: SysCallReg { as_i64: -(errno.value as i64) },
                cond: None,
            },
            Err(SyscallError::Cond(cond)) => SysCallReturn {
                state: SysCallReturnState::Block,
                retval: SysCallReg { as_i64: 0 },
                cond: Some(cond),
            },
            Err(SyscallError::Native) => SysCallReturn {
                state: SysCallReturnState::Native,
                retval: SysCallReg { as_i64: 0 },
                cond: None,
            },
        }
    }
}

/// A result that goes to the C side and back is the same result, unless it is a success whose value
/// reads as an error, or an error whose number no error has.
pub proof fn law_result_roundtrip(result: SyscallResult)
    requires
        result matches Ok(retval) ==> !is_error_value(retval.as_i64),
        result matches Err(SyscallError::Errno(errno)) ==> 0 < errno.value <= MAX_ERRNO,
    ensures
        result_of(return_of(result)) == result,
{
}

/// A value for the C side that becomes a result and goes back is the same value, as far as its
/// state gives a meaning to its parts: a syscall that is not done returns zero, and one that is not
/// blocked has no condition.
pub proof fn law_return_roundtrip(parts: SysCallReturnParts)
    requires
        parts.well_formed(),
        !(parts.state is Done) ==> parts.retval.as_i64 == 0,
        !(parts.state is Block) ==> parts.cond is None,
    ensures
        return_of(result_of(parts)) == parts,
{
}

/// A syscall that is done has failed if and only if its value is from -4095 to -1, and then with
/// the error whose number is the opposite of the value; otherwise it has succeeded with the value.
/// One that is blocked waits for its condition, and one that is native is left to be executed.
pub proof fn law_result_by_state_and_value(parts: SysCallReturnParts)
    ensures
        is_error_value(parts.retval.as_i64) <==> -4095 <= parts.retval.as_i64 <= -1,
        parts.state is Done && -4095 <= parts.retval.as_i64 <= -1 ==> {
            &&& result_of(parts) matches Err(SyscallError::Errno(errno))
            &&& errno.value == -parts.retval.as_i64
        },
        parts.state is Done && !(-4095 <= parts.retval.as_i64 <= -1) ==> {
            &&& result_of(parts) matches Ok(reg)
            &&& reg.as_i64 == parts.retval.as_i64
        },
        parts.state is Block ==> {
            &&& result_of(parts) matches Err(SyscallError::Cond(cond))
            &&& cond == parts.cond->0
        },
        parts.state is Native ==> result_of(parts) matches Err(SyscallError::Native),
        parts.well_formed() <==> (parts.state is Block ==> parts.cond is Some),
{
}

/// A result is done with its value or with the opposite of its error's number, blocked on its
/// condition, or native. What a state gives no meaning to is zero or missing.
pub proof fn law_return_by_result(result: SyscallResult)
    ensures
        result matches Ok(reg) ==> {
            &&& return_of(result).state is Done
            &&& return_of(result).retval.as_i64 == reg.as_i64
            &&& return_of(result).cond is None
        },
        result matches Err(SyscallError::Errno(errno)) ==> {
            &&& return_of(result).state is Done
            &&& return_of(result).retval.as_i64 == -errno.value
            &&& return_of(result).cond is None
        },
        result matches Err(SyscallError::Cond(cond)) ==> {
            &&& return_of(result).state is Block
            &&& return_of(result).retval.as_i64 == 0
            &&& return_of(result).cond == Some(cond)
        },
        result matches Err(SyscallError::Native) ==> {
            &&& return_of(result).state is Native
            &&& return_of(result).retval.as_i64 == 0
            &&& return_of(result).cond is None
        },
        return_of(result).well_formed(),
{
}

} // verus!
