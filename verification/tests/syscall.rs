use shadow_descriptor::syscall::Errno;
use shadow_descriptor::syscall::SysCallCondition;
use shadow_descriptor::syscall::SysCallReg;
use shadow_descriptor::syscall::SysCallReturn;
use shadow_descriptor::syscall::SysCallReturnState;
use shadow_descriptor::syscall::SyscallError;
use shadow_descriptor::syscall::SyscallResult;
use shadow_descriptor::syscall::Trigger;

fn trigger() -> Trigger {
    Trigger { type_: 1, object: 0, status: 2 }
}

#[test]
fn test_syscallresult_roundtrip() {
    for val in vec![
        Ok(1.into()),
        Err(SyscallError::Errno(Errno { value: nix::errno::Errno::EPERM as i32 })),
        Err(SyscallError::Cond(SysCallCondition::new(trigger()))),
    ]
    .drain(..)
    {
        // Neither value can be cloned, and the roundtrip consumes the original, so the debug
        // strings are compared.
        let orig_debug = format!("{:?}", &val);
        let roundtripped = SyscallResult::from(SysCallReturn::from(val));
        let roundtripped_debug = format!("{:?}", roundtripped);
        assert_eq!(orig_debug, roundtripped_debug);
    }
}

#[test]
fn test_syscallreturn_roundtrip() {
    let condition = SysCallCondition::new(trigger());
    for val in vec![
        SysCallReturn::new(SysCallReturnState::Done, 1.into(), None),
        SysCallReturn::new(SysCallReturnState::Block, 0.into(), Some(condition)),
        SysCallReturn::new(SysCallReturnState::Native, 0.into(), None),
    ]
    .drain(..)
    {
        let orig_debug = format!("{:?}", &val);
        let roundtripped = SysCallReturn::from(SyscallResult::from(val));
        let roundtripped_debug = format!("{:?}", roundtripped);
        assert_eq!(orig_debug, roundtripped_debug);
    }
}

#[test]
fn return_is_described_by_its_parts() {
    let val = SysCallReturn::new(SysCallReturnState::Done, 7.into(), None);
    assert_eq!(
        format!("{:?}", val),
        "SysCallReturn { state: Done, retval: SysCallReg { as_i64: 7 }, cond: None }"
    );
}

#[test]
fn error_is_returned_as_its_negative() {
    let eperm = Errno { value: nix::errno::Errno::EPERM as i32 };
    let val = SysCallReturn::from(SyscallResult::Err(SyscallError::Errno(eperm)));
    assert_eq!(val.state(), SysCallReturnState::Done);
    assert_eq!(val.retval(), SysCallReg { as_i64: -1 });
    assert!(val.cond().is_none());
}

#[test]
fn negative_value_is_an_error_only_in_the_range_of_errors() {
    let result = |value: i64| {
        SyscallResult::from(SysCallReturn::new(SysCallReturnState::Done, value.into(), None))
    };
    assert!(matches!(result(-1), Err(SyscallError::Errno(Errno { value: 1 }))));
    assert!(matches!(result(-4095), Err(SyscallError::Errno(Errno { value: 4095 }))));
    assert!(matches!(result(-4096), Ok(SysCallReg { as_i64: -4096 })));
    assert!(matches!(result(0), Ok(SysCallReg { as_i64: 0 })));
    assert!(matches!(result(i64::MIN), Ok(SysCallReg { as_i64: i64::MIN })));
}

#[test]
fn blocked_syscall_keeps_its_condition() {
    let val = SysCallReturn::new(
        SysCallReturnState::Block,
        3.into(),
        Some(SysCallCondition::new(trigger())),
    );
    let result = SyscallResult::from(val);
    assert!(matches!(result, Err(SyscallError::Cond(_))));
    let back = SysCallReturn::from(result);
    assert_eq!(back.state(), SysCallReturnState::Block);
    assert_eq!(back.retval(), SysCallReg { as_i64: 0 });
    assert!(back.cond().is_some());
}

#[test]
fn native_syscall_stays_native() {
    let val = SysCallReturn::new(SysCallReturnState::Native, 0.into(), None);
    assert!(matches!(SyscallResult::from(val), Err(SyscallError::Native)));
}
