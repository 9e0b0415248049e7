use rtforth::exception::Exception::{
    Abort, ControlStructureMismatch, InterpretingACompileOnlyWord, InvalidMemoryAddress,
    ReturnStackUnderflow, StackUnderflow, UndefinedWord, UnexpectedEndOfFile,
};
use rtforth::vm::VM;

#[test]
fn test_find() {
    let vm = &mut VM::new(16, 16).unwrap();
    assert!(vm.find("").is_none());
    assert!(vm.find("word-not-exist").is_none());
    vm.find("noop").expect("noop not found");
}

#[test]
fn test_drop() {
    let vm = &mut VM::new(16, 16).unwrap();
    vm.p_drop();
    vm.check_stacks();
    assert_eq!(vm.last_error(), Some(StackUnderflow));
    vm.reset();
    vm.clear_stacks();
    vm.s_stk.push(1);
    vm.p_drop();
    vm.check_stacks();
    assert!(vm.s_stk.is_empty());
    assert!(vm.last_error().is_none());
}

#[test]
fn test_nip() {
    let vm = &mut VM::new(16, 16).unwrap();
    vm.nip();
    vm.check_stacks();
    assert_eq!(vm.last_error(), Some(StackUnderflow));
    vm.reset();
    vm.clear_stacks();
    vm.s_stk.push(1);
    vm.nip();
    vm.check_stacks();
    assert_eq!(vm.last_error(), Some(StackUnderflow));
    vm.reset();
    vm.clear_stacks();
    vm.s_stk.push(1);
    vm.s_stk.push(2);
    vm.nip();
    vm.check_stacks();
    assert!(vm.last_error().is_none());
    assert!(vm.s_stk.len() == 1);
    assert!(vm.s_stk.last() == Some(2));
}

#[test]
fn test_swap() {
    let vm = &mut VM::new(16, 16).unwrap();
    vm.swap();
    vm.check_stacks();
    // check_stacks() cannot detect this kind of underflow.
    // assert_eq!(vm.last_error(), Some(StackUnderflow));
    vm.reset();
    vm.clear_stacks();
    vm.s_stk.push(1);
    vm.swap();
    vm.check_stacks();
    assert_eq!(vm.last_error(), Some(StackUnderflow));
    vm.reset();
    vm.clear_stacks();
    vm.s_stk.push(1);
    vm.s_stk.push(2);
    vm.swap();
    vm.check_stacks();
    assert!(vm.last_error().is_none());
    assert_eq!(vm.s_stk.len(), 2);
    assert_eq!(vm.s_stk.pop(), 1);
    assert_eq!(vm.s_stk.pop(), 2);
    vm.check_stacks();
    assert!(vm.last_error().is_none());
}

#[test]
fn test_dup() {
    let vm = &mut VM::new(16, 16).unwrap();
    vm.dup();
    vm.check_stacks();
    // check_stacks can not detect this underflow();
    //        assert_eq!(vm.last_error(), Some(StackUnderflow));
    vm.reset();
    vm.clear_stacks();
    vm.s_stk.push(1);
    vm.dup();
    vm.check_stacks();
    assert!(vm.last_error().is_none());
    assert_eq!(vm.s_stk.len(), 2);
    assert_eq!(vm.s_stk.pop(), 1);
    assert_eq!(vm.s_stk.pop(), 1);
    vm.check_stacks();
    assert!(vm.last_error().is_none());
}

#[test]
fn test_over() {
    let vm = &mut VM::new(16, 16).unwrap();
    vm.over();
    vm.check_stacks();
    // check_stacks() cannot detect stack underflow of over().
    // assert_eq!(vm.last_error(), Some(StackUnderflow));
    vm.reset();
    vm.clear_stacks();
    vm.s_stk.push(1);
    vm.check_stacks();
    vm.over();
    // check_stacks() cannot detect stack underflow of over().
    // assert_eq!(vm.last_error(), Some(StackUnderflow));
    vm.reset();
    vm.clear_stacks();
    vm.s_stk.push(1);
    vm.s_stk.push(2);
    vm.over();
    vm.check_stacks();
    assert!(vm.last_error().is_none());
    assert_eq!(vm.s_stk.len(), 3);
    assert_eq!(vm.s_stk.pop(), 1);
    assert_eq!(vm.s_stk.pop(), 2);
    assert_eq!(vm.s_stk.pop(), 1);
    vm.check_stacks();
    assert!(vm.last_error().is_none());
}

#[test]
fn test_rot() {
    let vm = &mut VM::new(16, 16).unwrap();
    vm.rot();
    vm.check_stacks();
    // check_stacks() cannot detect this kind of stack underflow of over().
    // assert_eq!(vm.last_error(), Some(StackUnderflow));
    vm.reset();
    vm.clear_stacks();
    vm.s_stk.push(1);
    vm.rot();
    vm.check_stacks();
    assert_eq!(vm.last_error(), Some(StackUnderflow));
    vm.reset();
    vm.clear_stacks();
    vm.s_stk.push(1);
    vm.s_stk.push(2);
    vm.rot();
    vm.check_stacks();
    assert_eq!(vm.last_error(), Some(StackUnderflow));
    vm.reset();
    vm.clear_stacks();
    vm.s_stk.push(1);
    vm.s_stk.push(2);
    vm.s_stk.push(3);
    vm.rot();
    vm.check_stacks();
    assert!(vm.last_error().is_none());
    assert_eq!(vm.s_stk.len(), 3);
    assert_eq!(vm.s_stk.pop(), 1);
    assert_eq!(vm.s_stk.pop(), 3);
    assert_eq!(vm.s_stk.pop(), 2);
    vm.check_stacks();
    assert!(vm.last_error().is_none());
}

#[test]
fn test_2drop() {
    let vm = &mut VM::new(16, 16).unwrap();
    vm.two_drop();
    assert!(vm.s_stk.underflow());
    vm.reset();
    vm.clear_stacks();
    vm.s_stk.push(1);
    vm.two_drop();
    assert!(vm.s_stk.underflow());
    vm.reset();
    vm.clear_stacks();
    vm.s_stk.push(1);
    vm.s_stk.push(2);
    vm.two_drop();
    assert!(!vm.s_stk.underflow());
    assert!(!vm.s_stk.overflow());
    assert!(vm.last_error().is_none());
    assert!(vm.s_stk.is_empty());
}

#[test]
fn test_2dup() {
    let vm = &mut VM::new(16, 16).unwrap();
    vm.two_dup();
    assert!(!vm.s_stk.underflow());
    vm.reset();
    vm.clear_stacks();
    vm.s_stk.push(1);
    vm.two_dup();
    assert!(!vm.s_stk.underflow());
    vm.reset();
    vm.clear_stacks();
    vm.s_stk.push(1);
    vm.s_stk.push(2);
    vm.two_dup();
    assert!(!vm.s_stk.underflow());
    assert!(!vm.s_stk.overflow());
    assert!(vm.last_error().is_none());
    assert_eq!(vm.s_stk.len(), 4);
    assert_eq!(vm.s_stk.pop(), 2);
    assert_eq!(vm.s_stk.pop(), 1);
    assert_eq!(vm.s_stk.pop(), 2);
    assert_eq!(vm.s_stk.pop(), 1);
}

#[test]
fn test_2swap() {
    let vm = &mut VM::new(16, 16).unwrap();
    vm.two_swap();
    assert!(!vm.s_stk.underflow());
    vm.reset();
    vm.clear_stacks();
    vm.s_stk.push(1);
    vm.two_swap();
    assert!(!vm.s_stk.underflow());
    vm.reset();
    vm.clear_stacks();
    vm.s_stk.push(1);
    vm.s_stk.push(2);
    vm.two_swap();
    assert!(vm.s_stk.underflow());
    vm.reset();
    vm.clear_stacks();
    vm.s_stk.push(1);
    vm.s_stk.push(2);
    vm.s_stk.push(3);
    vm.two_swap();
    assert!(vm.s_stk.underflow());
    vm.reset();
    vm.clear_stacks();
    vm.s_stk.push(1);
    vm.s_stk.push(2);
    vm.s_stk.push(3);
    vm.s_stk.push(4);
    vm.two_swap();
    assert!(!vm.s_stk.underflow());
    assert!(vm.last_error().is_none());
    assert_eq!(vm.s_stk.len(), 4);
    assert_eq!(vm.s_stk.pop(), 2);
    assert_eq!(vm.s_stk.pop(), 1);
    assert_eq!(vm.s_stk.pop(), 4);
    assert_eq!(vm.s_stk.pop(), 3);
}

#[test]
fn test_2over() {
    let vm = &mut VM::new(16, 16).unwrap();
    vm.two_over();
    assert!(!vm.s_stk.underflow());
    vm.reset();
    vm.clear_stacks();
    vm.s_stk.push(1);
    vm.two_over();
    assert!(!vm.s_stk.underflow());
    vm.reset();
    vm.clear_stacks();
    vm.s_stk.push(1);
    vm.s_stk.push(2);
    vm.two_over();
    assert!(!vm.s_stk.underflow());
    vm.reset();
    vm.clear_stacks();
    vm.s_stk.push(1);
    vm.s_stk.push(2);
    vm.s_stk.push(3);
    vm.two_over();
    assert!(!vm.s_stk.underflow());
    vm.reset();
    vm.clear_stacks();
    vm.s_stk.push(1);
    vm.s_stk.push(2);
    vm.s_stk.push(3);
    vm.s_stk.push(4);
    vm.two_over();
    assert!(!vm.s_stk.underflow());
    assert!(!vm.s_stk.overflow());
    assert!(vm.last_error().is_none());
    assert_eq!(vm.s_stk.len(), 6);
    assert_eq!(vm.s_stk.as_slice(), [1, 2, 3, 4, 1, 2]);
}

#[test]
fn test_depth() {
    let vm = &mut VM::new(16, 16).unwrap();
    vm.depth();
    vm.depth();
    vm.depth();
    assert_eq!(vm.s_stk.as_slice(), [0, 1, 2]);
}

#[test]
fn test_one_plus() {
    let vm = &mut VM::new(16, 16).unwrap();
    vm.one_plus();
    vm.check_stacks();
    assert_eq!(vm.last_error(), Some(StackUnderflow));
    vm.reset();
    vm.clear_stacks();
    vm.s_stk.push(1);
    vm.one_plus();
    vm.check_stacks();
    assert!(vm.last_error().is_none());
    assert_eq!(vm.s_stk.len(), 1);
    assert_eq!(vm.s_stk.pop(), 2);
}

#[test]
fn test_one_minus() {
    let vm = &mut VM::new(16, 16).unwrap();
    vm.one_minus();
    vm.check_stacks();
    assert_eq!(vm.last_error(), Some(StackUnderflow));
    vm.reset();
    vm.clear_stacks();
    vm.s_stk.push(2);
    vm.one_minus();
    vm.check_stacks();
    assert!(vm.last_error().is_none());
    assert_eq!(vm.s_stk.len(), 1);
    assert_eq!(vm.s_stk.pop(), 1);
}

#[test]
fn test_minus() {
    let vm = &mut VM::new(16, 16).unwrap();
    vm.minus();
    vm.check_stacks();
    assert_eq!(vm.last_error(), Some(StackUnderflow));
    vm.reset();
    vm.clear_stacks();
    vm.s_stk.push(5);
    vm.minus();
    vm.check_stacks();
    assert_eq!(vm.last_error(), Some(StackUnderflow));
    vm.reset();
    vm.clear_stacks();
    vm.s_stk.push(5);
    vm.s_stk.push(7);
    vm.minus();
    vm.check_stacks();
    assert_eq!(vm.last_error(), None);
    assert_eq!(vm.s_stk.len(), 1);
    assert_eq!(vm.s_stk.pop(), -2);
}

#[test]
fn test_plus() {
    let vm = &mut VM::new(16, 16).unwrap();
    vm.plus();
    vm.check_stacks();
    assert_eq!(vm.last_error(), Some(StackUnderflow));
    vm.reset();
    vm.clear_stacks();
    vm.s_stk.push(5);
    vm.plus();
    vm.check_stacks();
    assert_eq!(vm.last_error(), Some(StackUnderflow));
    vm.reset();
    vm.clear_stacks();
    vm.s_stk.push(5);
    vm.s_stk.push(7);
    vm.plus();
    vm.check_stacks();
    assert!(vm.last_error().is_none());
    assert_eq!(vm.s_stk.len(), 1);
    assert_eq!(vm.s_stk.pop(), 12);
}

#[test]
fn test_star() {
    let vm = &mut VM::new(16, 16).unwrap();
    vm.star();
    vm.check_stacks();
    assert_eq!(vm.last_error(), Some(StackUnderflow));
    vm.reset();
    vm.clear_stacks();
    vm.s_stk.push(5);
    vm.star();
    vm.check_stacks();
    assert_eq!(vm.last_error(), Some(StackUnderflow));
    vm.reset();
    vm.clear_stacks();
    vm.s_stk.push(5);
    vm.s_stk.push(7);
    vm.star();
    vm.check_stacks();
    assert!(vm.last_error().is_none());
    assert_eq!(vm.s_stk.len(), 1);
    assert_eq!(vm.s_stk.pop(), 35);
}

#[test]
fn test_slash() {
    let vm = &mut VM::new(16, 16).unwrap();
    vm.slash();
    vm.check_stacks();
    assert_eq!(vm.last_error(), Some(StackUnderflow));
    vm.reset();
    vm.clear_stacks();
    vm.s_stk.push(30);
    vm.slash();
    vm.check_stacks();
    assert_eq!(vm.last_error(), Some(StackUnderflow));
    vm.reset();
    vm.clear_stacks();
    vm.s_stk.push(30);
    vm.s_stk.push(7);
    vm.slash();
    vm.check_stacks();
    assert!(vm.last_error().is_none());
    assert_eq!(vm.s_stk.len(), 1);
    assert_eq!(vm.s_stk.pop(), 4);
}

#[test]
fn test_mod() {
    let vm = &mut VM::new(16, 16).unwrap();
    vm.p_mod();
    vm.check_stacks();
    assert_eq!(vm.last_error(), Some(StackUnderflow));
    vm.reset();
    vm.clear_stacks();
    vm.s_stk.push(30);
    vm.p_mod();
    vm.check_stacks();
    assert_eq!(vm.last_error(), Some(StackUnderflow));
    vm.reset();
    vm.clear_stacks();
    vm.s_stk.push(30);
    vm.s_stk.push(7);
    vm.p_mod();
    vm.check_stacks();
    assert!(vm.last_error().is_none());
    assert_eq!(vm.s_stk.len(), 1);
    assert_eq!(vm.s_stk.pop(), 2);
}

#[test]
fn test_slash_mod() {
    let vm = &mut VM::new(16, 16).unwrap();
    vm.slash_mod();
    vm.check_stacks();
    assert_eq!(vm.last_error(), Some(StackUnderflow));
    vm.reset();
    vm.clear_stacks();
    vm.s_stk.push(30);
    vm.slash_mod();
    vm.check_stacks();
    assert_eq!(vm.last_error(), Some(StackUnderflow));
    vm.reset();
    vm.clear_stacks();
    vm.s_stk.push(30);
    vm.s_stk.push(7);
    vm.slash_mod();
    vm.check_stacks();
    assert!(vm.last_error().is_none());
    assert_eq!(vm.s_stk.len(), 2);
    assert_eq!(vm.s_stk.pop(), 4);
    assert_eq!(vm.s_stk.pop(), 2);
}

#[test]
fn test_abs() {
    let vm = &mut VM::new(16, 16).unwrap();
    vm.s_stk.push(-30);
    vm.abs();
    assert!(vm.last_error().is_none());
    assert_eq!(vm.s_stk.len(), 1);
    assert_eq!(vm.s_stk.pop(), 30);
}

#[test]
fn test_negate() {
    let vm = &mut VM::new(16, 16).unwrap();
    vm.negate();
    vm.check_stacks();
    assert_eq!(vm.last_error(), Some(StackUnderflow));
    vm.reset();
    vm.clear_stacks();
    vm.s_stk.push(30);
    vm.negate();
    vm.check_stacks();
    assert!(vm.last_error().is_none());
    assert_eq!(vm.s_stk.len(), 1);
    assert_eq!(vm.s_stk.pop(), -30);
}

#[test]
fn test_zero_less() {
    let vm = &mut VM::new(16, 16).unwrap();
    vm.zero_less();
    vm.check_stacks();
    assert_eq!(vm.last_error(), Some(StackUnderflow));
    vm.reset();
    vm.clear_stacks();
    vm.s_stk.push(-1);
    vm.zero_less();
    vm.check_stacks();
    assert!(vm.last_error().is_none());
    assert_eq!(vm.s_stk.len(), 1);
    assert_eq!(vm.s_stk.pop(), -1);
    vm.s_stk.push(0);
    vm.zero_less();
    vm.check_stacks();
    assert!(vm.last_error().is_none());
    assert_eq!(vm.s_stk.len(), 1);
    assert_eq!(vm.s_stk.pop(), 0);
}

#[test]
fn test_zero_equals() {
    let vm = &mut VM::new(16, 16).unwrap();
    vm.zero_equals();
    vm.check_stacks();
    assert_eq!(vm.last_error(), Some(StackUnderflow));
    vm.reset();
    vm.clear_stacks();
    vm.s_stk.push(0);
    vm.zero_equals();
    vm.check_stacks();
    assert!(vm.last_error().is_none());
    assert_eq!(vm.s_stk.len(), 1);
    assert_eq!(vm.s_stk.pop(), -1);
    vm.s_stk.push(-1);
    vm.zero_equals();
    vm.check_stacks();
    assert!(vm.last_error().is_none());
    assert_eq!(vm.s_stk.len(), 1);
    assert_eq!(vm.s_stk.pop(), 0);
    vm.s_stk.push(1);
    vm.zero_equals();
    vm.check_stacks();
    assert!(vm.last_error().is_none());
    assert_eq!(vm.s_stk.len(), 1);
    assert_eq!(vm.s_stk.pop(), 0);
}

#[test]
fn test_zero_greater() {
    let vm = &mut VM::new(16, 16).unwrap();
    vm.zero_greater();
    vm.check_stacks();
    assert_eq!(vm.last_error(), Some(StackUnderflow));
    vm.reset();
    vm.clear_stacks();
    vm.s_stk.push(1);
    vm.zero_greater();
    vm.check_stacks();
    assert!(vm.last_error().is_none());
    assert_eq!(vm.s_stk.len(), 1);
    assert_eq!(vm.s_stk.pop(), -1);
    vm.s_stk.push(0);
    vm.zero_greater();
    vm.check_stacks();
    assert!(vm.last_error().is_none());
    assert_eq!(vm.s_stk.len(), 1);
    assert_eq!(vm.s_stk.pop(), 0);
}

#[test]
fn test_zero_not_equals() {
    let vm = &mut VM::new(16, 16).unwrap();
    vm.zero_not_equals();
    vm.check_stacks();
    assert_eq!(vm.last_error(), Some(StackUnderflow));
    vm.reset();
    vm.clear_stacks();
    vm.s_stk.push(0);
    vm.zero_not_equals();
    vm.check_stacks();
    assert!(vm.last_error().is_none());
    assert_eq!(vm.s_stk.len(), 1);
    assert_eq!(vm.s_stk.pop(), 0);
    vm.s_stk.push(-1);
    vm.zero_not_equals();
    vm.check_stacks();
    assert!(vm.last_error().is_none());
    assert_eq!(vm.s_stk.len(), 1);
    assert_eq!(vm.s_stk.pop(), -1);
    vm.s_stk.push(1);
    vm.zero_not_equals();
    vm.check_stacks();
    assert!(vm.last_error().is_none());
    assert_eq!(vm.s_stk.len(), 1);
    assert_eq!(vm.s_stk.pop(), -1);
}

#[test]
fn test_less_than() {
    let vm = &mut VM::new(16, 16).unwrap();
    vm.less_than();
    vm.check_stacks();
    assert_eq!(vm.last_error(), Some(StackUnderflow));
    vm.reset();
    vm.clear_stacks();
    vm.s_stk.push(-1);
    vm.less_than();
    vm.check_stacks();
    assert_eq!(vm.last_error(), Some(StackUnderflow));
    vm.reset();
    vm.clear_stacks();
    vm.s_stk.push(-1);
    vm.s_stk.push(0);
    vm.less_than();
    vm.check_stacks();
    assert!(vm.last_error().is_none());
    assert_eq!(vm.s_stk.len(), 1);
    assert_eq!(vm.s_stk.pop(), -1);
    vm.s_stk.push(0);
    vm.s_stk.push(0);
    vm.less_than();
    vm.check_stacks();
    assert!(vm.last_error().is_none());
    assert_eq!(vm.s_stk.len(), 1);
    assert_eq!(vm.s_stk.pop(), 0);
}

#[test]
fn test_equals() {
    let vm = &mut VM::new(16, 16).unwrap();
    vm.equals();
    vm.check_stacks();
    assert_eq!(vm.last_error(), Some(StackUnderflow));
    vm.reset();
    vm.clear_stacks();
    vm.s_stk.push(0);
    vm.equals();
    vm.check_stacks();
    assert_eq!(vm.last_error(), Some(StackUnderflow));
    vm.reset();
    vm.clear_stacks();
    vm.s_stk.push(0);
    vm.s_stk.push(0);
    vm.equals();
    vm.check_stacks();
    assert!(vm.last_error().is_none());
    assert_eq!(vm.s_stk.len(), 1);
    assert_eq!(vm.s_stk.pop(), -1);
    vm.s_stk.push(-1);
    vm.s_stk.push(0);
    vm.equals();
    vm.check_stacks();
    assert!(vm.last_error().is_none());
    assert_eq!(vm.s_stk.len(), 1);
    assert_eq!(vm.s_stk.pop(), 0);
    vm.s_stk.push(1);
    vm.s_stk.push(0);
    vm.equals();
    vm.check_stacks();
    assert!(vm.last_error().is_none());
    assert_eq!(vm.s_stk.len(), 1);
    assert_eq!(vm.s_stk.pop(), 0);
}

#[test]
fn test_greater_than() {
    let vm = &mut VM::new(16, 16).unwrap();
    vm.greater_than();
    vm.check_stacks();
    assert_eq!(vm.last_error(), Some(StackUnderflow));
    vm.reset();
    vm.clear_stacks();
    vm.s_stk.push(1);
    vm.greater_than();
    vm.check_stacks();
    assert_eq!(vm.last_error(), Some(StackUnderflow));
    vm.reset();
    vm.clear_stacks();
    vm.s_stk.push(1);
    vm.s_stk.push(0);
    vm.greater_than();
    vm.check_stacks();
    assert!(vm.last_error().is_none());
    assert_eq!(vm.s_stk.len(), 1);
    assert_eq!(vm.s_stk.pop(), -1);
    vm.s_stk.push(0);
    vm.s_stk.push(0);
    vm.greater_than();
    vm.check_stacks();
    assert!(vm.last_error().is_none());
    assert_eq!(vm.s_stk.len(), 1);
    assert_eq!(vm.s_stk.pop(), 0);
}

#[test]
fn test_not_equals() {
    let vm = &mut VM::new(16, 16).unwrap();
    vm.not_equals();
    vm.check_stacks();
    assert_eq!(vm.last_error(), Some(StackUnderflow));
    vm.reset();
    vm.clear_stacks();
    vm.s_stk.push(0);
    vm.not_equals();
    vm.check_stacks();
    assert_eq!(vm.last_error(), Some(StackUnderflow));
    vm.reset();
    vm.clear_stacks();
    vm.s_stk.push(0);
    vm.s_stk.push(0);
    vm.not_equals();
    vm.check_stacks();
    assert!(vm.last_error().is_none());
    assert_eq!(vm.s_stk.len(), 1);
    assert_eq!(vm.s_stk.pop(), 0);
    vm.s_stk.push(-1);
    vm.s_stk.push(0);
    vm.not_equals();
    vm.check_stacks();
    assert!(vm.last_error().is_none());
    assert_eq!(vm.s_stk.len(), 1);
    assert_eq!(vm.s_stk.pop(), -1);
    vm.s_stk.push(1);
    vm.s_stk.push(0);
    vm.not_equals();
    vm.check_stacks();
    assert!(vm.last_error().is_none());
    assert_eq!(vm.s_stk.len(), 1);
    assert_eq!(vm.s_stk.pop(), -1);
}

#[test]
fn test_within() {
    let vm = &mut VM::new(16, 16).unwrap();
    vm.within();
    vm.check_stacks();
    assert_eq!(vm.last_error(), Some(StackUnderflow));
    vm.reset();
    vm.clear_stacks();
    vm.s_stk.push(1);
    vm.within();
    vm.check_stacks();
    assert_eq!(vm.last_error(), Some(StackUnderflow));
    vm.reset();
    vm.clear_stacks();
    vm.s_stk.push(1);
    vm.s_stk.push(1);
    vm.within();
    vm.check_stacks();
    assert_eq!(vm.last_error(), Some(StackUnderflow));
    vm.reset();
    vm.clear_stacks();
    vm.s_stk.push(1);
    vm.s_stk.push(1);
    vm.s_stk.push(2);
    vm.within();
    vm.check_stacks();
    assert!(vm.last_error().is_none());
    assert_eq!(vm.s_stk.len(), 1);
    assert_eq!(vm.s_stk.pop(), -1);
    vm.s_stk.push(1);
    vm.s_stk.push(0);
    vm.s_stk.push(1);
    vm.within();
    vm.check_stacks();
    assert!(vm.last_error().is_none());
    assert_eq!(vm.s_stk.len(), 1);
    assert_eq!(vm.s_stk.pop(), 0);
    vm.s_stk.push(0);
    vm.s_stk.push(1);
    vm.s_stk.push(2);
    vm.within();
    vm.check_stacks();
    assert!(vm.last_error().is_none());
    assert_eq!(vm.s_stk.len(), 1);
    assert_eq!(vm.s_stk.pop(), 0);
    vm.s_stk.push(3);
    vm.s_stk.push(1);
    vm.s_stk.push(2);
    vm.within();
    vm.check_stacks();
    assert!(vm.last_error().is_none());
    assert_eq!(vm.s_stk.len(), 1);
    assert_eq!(vm.s_stk.pop(), 0);
}

#[test]
fn test_invert() {
    let vm = &mut VM::new(16, 16).unwrap();
    vm.invert();
    vm.check_stacks();
    assert_eq!(vm.last_error(), Some(StackUnderflow));
    vm.reset();
    vm.clear_stacks();
    vm.s_stk.push(707);
    vm.invert();
    vm.check_stacks();
    assert!(vm.last_error().is_none());
    assert_eq!(vm.s_stk.len(), 1);
    assert_eq!(vm.s_stk.pop(), -708);
}

#[test]
fn test_and() {
    let vm = &mut VM::new(16, 16).unwrap();
    vm.s_stk.push(707);
    vm.s_stk.push(007);
    vm.and();
    vm.check_stacks();
    assert!(vm.last_error().is_none());
    assert!(!vm.s_stk.overflow());
    assert!(!vm.s_stk.underflow());
    assert_eq!(vm.s_stk.len(), 1);
    assert_eq!(vm.s_stk.pop(), 3);
}

#[test]
fn test_or() {
    let vm = &mut VM::new(16, 16).unwrap();
    vm.or();
    vm.check_stacks();
    assert_eq!(vm.last_error(), Some(StackUnderflow));
    vm.reset();
    vm.clear_stacks();
    vm.s_stk.push(707);
    vm.or();
    vm.check_stacks();
    assert_eq!(vm.last_error(), Some(StackUnderflow));
    vm.reset();
    vm.clear_stacks();
    vm.s_stk.push(707);
    vm.s_stk.push(07);
    vm.or();
    vm.check_stacks();
    assert!(vm.last_error().is_none());
    assert_eq!(vm.s_stk.len(), 1);
    assert_eq!(vm.s_stk.pop(), 711);
}

#[test]
fn test_xor() {
    let vm = &mut VM::new(16, 16).unwrap();
    vm.xor();
    vm.check_stacks();
    assert_eq!(vm.last_error(), Some(StackUnderflow));
    vm.reset();
    vm.clear_stacks();
    vm.s_stk.push(707);
    vm.xor();
    vm.check_stacks();
    assert_eq!(vm.last_error(), Some(StackUnderflow));
    vm.reset();
    vm.clear_stacks();
    vm.s_stk.push(707);
    vm.s_stk.push(07);
    vm.xor();
    vm.check_stacks();
    assert!(vm.last_error().is_none());
    assert_eq!(vm.s_stk.len(), 1);
    assert_eq!(vm.s_stk.pop(), 708);
}

#[test]
fn test_lshift() {
    let vm = &mut VM::new(16, 16).unwrap();
    vm.lshift();
    vm.check_stacks();
    assert_eq!(vm.last_error(), Some(StackUnderflow));
    vm.reset();
    vm.clear_stacks();
    vm.s_stk.push(1);
    vm.lshift();
    vm.check_stacks();
    assert_eq!(vm.last_error(), Some(StackUnderflow));
    vm.reset();
    vm.clear_stacks();
    vm.s_stk.push(1);
    vm.s_stk.push(1);
    vm.lshift();
    vm.check_stacks();
    assert!(vm.last_error().is_none());
    assert_eq!(vm.s_stk.len(), 1);
    assert_eq!(vm.s_stk.pop(), 2);
    vm.s_stk.push(1);
    vm.s_stk.push(2);
    vm.lshift();
    vm.check_stacks();
    assert!(vm.last_error().is_none());
    assert_eq!(vm.s_stk.len(), 1);
    assert_eq!(vm.s_stk.pop(), 4);
}

#[test]
fn test_rshift() {
    let vm = &mut VM::new(16, 16).unwrap();
    vm.rshift();
    vm.check_stacks();
    assert_eq!(vm.last_error(), Some(StackUnderflow));
    vm.reset();
    vm.clear_stacks();
    vm.s_stk.push(8);
    vm.rshift();
    vm.check_stacks();
    assert_eq!(vm.last_error(), Some(StackUnderflow));
    vm.reset();
    vm.clear_stacks();
    vm.s_stk.push(8);
    vm.s_stk.push(1);
    vm.rshift();
    vm.check_stacks();
    assert!(vm.last_error().is_none());
    assert_eq!(vm.s_stk.len(), 1);
    assert_eq!(vm.s_stk.pop(), 4);
    vm.s_stk.push(-1);
    vm.s_stk.push(1);
    vm.rshift();
    vm.check_stacks();
    assert!(vm.last_error().is_none());
    assert_eq!(vm.s_stk.len(), 1);
    assert!(vm.s_stk.pop() > 0);
}

#[test]
fn test_parse_word() {
    let vm = &mut VM::new(16, 16).unwrap();
    vm.set_source("hello world\t\r\n\"");
    vm.parse_word();
    assert_eq!(vm.tkn, b"hello".to_vec());
    assert_eq!(vm.state.source_index, 6);
    vm.parse_word();
    assert_eq!(vm.tkn, b"world".to_vec());
    assert_eq!(vm.state.source_index, 12);
    vm.parse_word();
    assert_eq!(vm.tkn, b"\"".to_vec());
}

#[test]
fn test_evaluate() {
    let vm = &mut VM::new(16, 16).unwrap();
    // >r
    vm.set_source(">r");
    vm.evaluate();
    assert_eq!(vm.last_error(), Some(InterpretingACompileOnlyWord));
    vm.reset();
    vm.clear_stacks();
    // drop
    vm.set_source("drop");
    vm.evaluate();
    assert_eq!(vm.last_error(), Some(StackUnderflow));
    vm.reset();
    vm.clear_stacks();
    // error in colon definition: 4drop
    vm.set_source(": 4drop drop drop drop drop ; 4drop");
    vm.evaluate();
    assert_eq!(vm.last_error(), Some(StackUnderflow));
    vm.reset();
    vm.clear_stacks();
    // undefined word
    vm.set_source("xdrop");
    vm.evaluate();
    assert_eq!(vm.last_error(), Some(UndefinedWord));
    vm.reset();
    vm.clear_stacks();
    // false true dup 1+ 2 -3
    vm.set_source("false true dup 1+ 2 -3");
    vm.evaluate();
    assert!(vm.last_error().is_none());
    assert_eq!(vm.s_stk.len(), 5);
    assert_eq!(vm.s_stk.pop(), -3);
    assert_eq!(vm.s_stk.pop(), 2);
    assert_eq!(vm.s_stk.pop(), 0);
    assert_eq!(vm.s_stk.pop(), -1);
    assert_eq!(vm.s_stk.pop(), 0);
}

#[test]
fn test_push_source() {
    let mut vm = VM::new(16, 16).unwrap();
    vm.set_source(": x");
    vm.push_source(" ");
    vm.push_source("1");
    vm.push_source(" ");
    vm.push_source(";");
    assert_eq!(vm.inbuf, b": x 1 ;".to_vec());
}

#[test]
fn test_colon_and_semi_colon() {
    let vm = &mut VM::new(16, 16).unwrap();
    // :
    vm.set_source(":");
    vm.evaluate();
    assert_eq!(vm.last_error(), Some(UnexpectedEndOfFile));
    vm.reset();
    vm.clear_stacks();
    // : 2+3 2 3 + ; 2+3
    vm.set_source(": 2+3 2 3 + ; 2+3");
    vm.evaluate();
    assert!(vm.last_error().is_none());
    assert_eq!(vm.s_stk.len(), 1);
    assert_eq!(vm.s_stk.pop(), 5);
}

#[test]
fn test_constant() {
    let vm = &mut VM::new(16, 16).unwrap();
    // constant x
    vm.set_source("constant");
    vm.evaluate();
    // Note: cannot detect underflow.
    // assert_eq!(vm.last_error(), Some(StackUnderflow));
    vm.reset();
    vm.clear_stacks();
    // 5 constant x x x
    vm.set_source("5 constant x x x");
    vm.evaluate();
    assert!(vm.last_error().is_none());
    assert_eq!(vm.s_stk.len(), 2);
    assert_eq!(vm.s_stk.pop(), 5);
    assert_eq!(vm.s_stk.pop(), 5);
}

#[test]
fn test_constant_in_colon() {
    let vm = &mut VM::new(16, 16).unwrap();
    // 77 constant x
    // : 2x  x 2 * ;  2x
    vm.set_source("77 constant x  : 2x x 2 * ;  2x");
    vm.evaluate();
    vm.run();
    assert_eq!(vm.s_stk.pop(), 154);
    assert_eq!(vm.s_stk.len, 0);
}

#[test]
fn test_variable_and_store_fetch() {
    let vm = &mut VM::new(16, 16).unwrap();
    // @
    vm.set_source("@");
    vm.evaluate();
    assert_eq!(vm.last_error(), Some(InvalidMemoryAddress));
    vm.reset();
    vm.clear_stacks();
    // !
    vm.set_source("!");
    vm.evaluate();
    assert_eq!(vm.last_error(), Some(InvalidMemoryAddress));
    vm.reset();
    vm.clear_stacks();
    // variable x x !
    vm.set_source("variable x x !");
    vm.evaluate();
    assert_eq!(vm.last_error(), Some(StackUnderflow));
    vm.reset();
    vm.clear_stacks();
    // variable x  x @  3 x !  x @
    vm.set_source("variable x  x @  3 x !  x @");
    vm.evaluate();
    assert!(vm.last_error().is_none());
    assert_eq!(vm.s_stk.len(), 2);
    assert_eq!(vm.s_stk.pop(), 3);
    assert_eq!(vm.s_stk.pop(), 0);
}

#[test]
fn test_variable_and_fetch_in_colon() {
    let vm = &mut VM::new(16, 16).unwrap();
    // variable x
    // 7 x !
    // : x@ x @ ; x@
    vm.set_source("variable x  7 x !  : x@ x @ ;  x@");
    vm.evaluate();
    vm.run();
    assert_eq!(vm.s_stk.pop(), 7);
    assert_eq!(vm.s_stk.len, 0);
}

#[test]
fn test_create_in_colon() {
    let vm = &mut VM::new(16, 16).unwrap();
    // create x 7 ,
    // : x@ x @ ; x@
    vm.set_source("create x 7 ,  : x@ x @ ;  x@");
    vm.evaluate();
    vm.run();
    assert_eq!(vm.s_stk.pop(), 7);
    assert_eq!(vm.s_stk.len, 0);
}

#[test]
fn test_char_plus_and_chars() {
    let vm = &mut VM::new(16, 16).unwrap();
    vm.char_plus();
    vm.check_stacks();
    assert_eq!(vm.last_error(), Some(StackUnderflow));
    vm.reset();
    vm.chars();
    vm.check_stacks();
    // Note: Cannot detecht underflow because size of char is 1.
    // assert_eq!(vm.last_error(), Some(StackUnderflow));
    vm.reset();
    // 2 char+  9 chars
    vm.set_source("2 char+  9 chars");
    vm.evaluate();
    assert!(vm.last_error().is_none());
    assert_eq!(vm.s_stk.as_slice(), [3, 9]);
}

#[test]
fn test_cell_plus_and_cells() {
    let vm = &mut VM::new(16, 16).unwrap();
    vm.cell_plus();
    vm.check_stacks();
    assert_eq!(vm.last_error(), Some(StackUnderflow));
    vm.reset();
    vm.cells();
    vm.check_stacks();
    assert_eq!(vm.last_error(), Some(StackUnderflow));
    vm.reset();
    vm.set_source("2 cell+  9 cells");
    vm.evaluate();
    assert!(vm.last_error().is_none());
    assert_eq!(vm.s_stk.as_slice(), [6, 36]);
}

#[test]
fn test_tick() {
    let vm = &mut VM::new(16, 16).unwrap();
    // '
    vm.tick();
    assert_eq!(vm.last_error(), Some(UnexpectedEndOfFile));
    vm.reset();
    // ' xdrop
    vm.set_source("' xdrop");
    vm.evaluate();
    assert_eq!(vm.last_error(), Some(UndefinedWord));
    vm.reset();
    vm.clear_stacks();
    // ' drop
    vm.set_source("' drop");
    vm.evaluate();
    assert!(vm.last_error().is_none());
    assert_eq!(vm.s_stk.len(), 1);
}

#[test]
fn test_execute() {
    let vm = &mut VM::new(16, 16).unwrap();
    // execute
    vm.execute();
    vm.check_stacks();
    assert_eq!(vm.last_error(), Some(UndefinedWord));
    vm.reset();
    vm.clear_stacks();
    // ' drop execute
    vm.set_source("' drop");
    vm.evaluate();
    vm.execute();
    vm.check_stacks();
    assert_eq!(vm.last_error(), Some(StackUnderflow));
    vm.reset();
    vm.clear_stacks();
    // 1 2  ' swap execute
    vm.set_source("1 2  ' swap execute");
    vm.evaluate();
    assert!(vm.last_error().is_none());
    assert_eq!(vm.s_stk.len(), 2);
    assert_eq!(vm.s_stk.pop(), 1);
    assert_eq!(vm.s_stk.pop(), 2);
}

#[test]
fn test_here_allot() {
    let vm = &mut VM::new(16, 16).unwrap();
    // allot
    vm.allot();
    vm.check_stacks();
    assert_eq!(vm.last_error(), Some(StackUnderflow));
    vm.reset();
    // here 2 cells allot here -
    vm.set_source("here 2 cells allot here -");
    vm.evaluate();
    assert!(vm.last_error().is_none());
    assert_eq!(vm.s_stk.len(), 1);
    assert_eq!(vm.s_stk.pop(), -((4usize * 2) as isize));
}

#[test]
fn test_to_r_r_fetch_r_from() {
    let vm = &mut VM::new(16, 16).unwrap();
    vm.set_source(": t 3 >r 2 r@ + r> + ; t");
    vm.evaluate();
    assert!(vm.last_error().is_none());
    assert_eq!(vm.s_stk.len(), 1);
    assert_eq!(vm.s_stk.pop(), 8);
}

#[test]
fn test_two_to_r_two_r_fetch_two_r_from() {
    let vm = &mut VM::new(16, 16).unwrap();
    vm.set_source(": t 1 2 2>r 2r@ + 2r> - * ; t");
    vm.evaluate();
    assert!(vm.last_error().is_none());
    assert_eq!(vm.s_stk.len(), 1);
    assert_eq!(vm.s_stk.pop(), -3);
}

#[test]
fn test_if_then() {
    let vm = &mut VM::new(16, 16).unwrap();
    // : t5 if ; t5
    vm.set_source(": t5 if ;");
    vm.evaluate();
    assert_eq!(vm.last_error(), Some(ControlStructureMismatch));
    vm.reset();
    vm.clear_stacks();
    // : t4 then ; t4
    vm.set_source(": t4 then ; t4");
    vm.evaluate();
    assert_eq!(vm.last_error(), Some(ControlStructureMismatch));
    vm.reset();
    vm.clear_stacks();
    // : t1 false dup if drop true then ; t1
    vm.set_source(": t1 0 dup if drop -1 then ; t1");
    vm.evaluate();
    assert!(vm.last_error().is_none());
    assert_eq!(vm.s_stk.len(), 1);
    assert_eq!(vm.s_stk.pop(), 0);
    vm.reset();
    vm.clear_stacks();
    // : t2 true dup if drop false then ; t1
    vm.set_source(": t1 -1 dup if drop -1 then ; t1");
    vm.evaluate();
    assert!(vm.last_error().is_none());
    assert_eq!(vm.s_stk.len(), 1);
    assert_eq!(vm.s_stk.pop(), -1);
}

#[test]
fn test_if_else_then() {
    let vm = &mut VM::new(16, 16).unwrap();
    // : t3 else then ; t3
    vm.set_source(": t3 else then ;");
    vm.evaluate();
    assert_eq!(vm.last_error(), Some(ControlStructureMismatch));
    vm.reset();
    vm.clear_stacks();
    // : t1 0 if true else false then ; t1
    // let action = vm.code_space().here();
    vm.set_source(": t1 0 if true else false then ; t1");
    vm.evaluate();
    // dump(vm, action);
    assert!(vm.last_error().is_none());
    assert_eq!(vm.s_stk.len(), 1);
    assert_eq!(vm.s_stk.pop(), 0);
    // : t2 1 if true else false then ; t2
    vm.set_source(": t2 1 if true else false then ; t2");
    vm.evaluate();
    assert!(vm.last_error().is_none());
    assert_eq!(vm.s_stk.len(), 1);
    assert_eq!(vm.s_stk.pop(), -1);
}

#[test]
fn test_begin_again() {
    let vm = &mut VM::new(16, 16).unwrap();
    // : t3 begin ;
    vm.set_source(": t3 begin ;");
    vm.evaluate();
    assert_eq!(vm.last_error(), Some(ControlStructureMismatch));
    vm.reset();
    vm.clear_stacks();
    // : t2 again ;
    vm.set_source(": t2 again ;");
    vm.evaluate();
    assert_eq!(vm.last_error(), Some(ControlStructureMismatch));
    vm.reset();
    vm.clear_stacks();
    // : t1 0 begin 1+ dup 3 = if exit then again ; t1
    vm.set_source(": t1 0 begin 1+ dup 3 = if exit then again ; t1");
    vm.evaluate();
    assert_eq!(vm.last_error(), None);
    assert_eq!(vm.s_stk.len(), 1);
    assert_eq!(vm.s_stk.pop(), 3);
}

#[test]
fn test_begin_while_repeat() {
    let vm = &mut VM::new(16, 16).unwrap();
    // : t1 begin ;
    vm.set_source(": t1 begin ;");
    vm.evaluate();
    assert_eq!(vm.last_error(), Some(ControlStructureMismatch));
    vm.reset();
    vm.clear_stacks();
    // : t2 while ;
    vm.set_source(": t2 while ;");
    vm.evaluate();
    assert_eq!(vm.last_error(), Some(ControlStructureMismatch));
    vm.reset();
    vm.clear_stacks();
    // : t3 repeat ;
    vm.set_source(": t3 repeat ;");
    vm.evaluate();
    assert_eq!(vm.last_error(), Some(ControlStructureMismatch));
    vm.reset();
    vm.clear_stacks();
    // : t4 begin while ;
    vm.set_source(": t4 begin while ;");
    vm.evaluate();
    assert_eq!(vm.last_error(), Some(ControlStructureMismatch));
    vm.reset();
    vm.clear_stacks();
    // : t5 begin repeat ;
    vm.set_source(": t5 begin repeat ;");
    vm.evaluate();
    assert_eq!(vm.last_error(), Some(ControlStructureMismatch));
    vm.reset();
    vm.clear_stacks();
    // : t6 while repeat ;
    vm.set_source(": t6 while repeat ;");
    vm.evaluate();
    assert_eq!(vm.last_error(), Some(ControlStructureMismatch));
    vm.reset();
    vm.clear_stacks();
    // : t7 0 begin 1+ dup 3 <> while repeat ; t1
    vm.set_source(": t7 0 begin 1+ dup 3 <> while repeat ; t7");
    vm.evaluate();
    assert_eq!(vm.last_error(), None);
    assert_eq!(vm.s_stk.len(), 1);
    assert_eq!(vm.s_stk.pop(), 3);
}

#[test]
fn test_backslash() {
    let vm = &mut VM::new(16, 16).unwrap();
    vm.set_source("1 2 3 \\ 5 6 7");
    vm.evaluate();
    assert!(vm.last_error().is_none());
    assert_eq!(vm.s_stk.len(), 3);
    assert_eq!(vm.s_stk.pop(), 3);
    assert_eq!(vm.s_stk.pop(), 2);
    assert_eq!(vm.s_stk.pop(), 1);
}

#[test]
fn test_marker_unmark() {
    let vm = &mut VM::new(16, 16).unwrap();
    let symbols_len = vm.symbols.len();
    let wordlist_len = vm.wordlist.len();
    vm.set_source("here marker empty empty here =");
    vm.evaluate();
    assert!(vm.last_error().is_none());
    assert_eq!(vm.s_stk.len(), 1);
    assert_eq!(vm.s_stk.pop(), -1);
    assert_eq!(vm.symbols.len(), symbols_len);
    assert_eq!(vm.wordlist.len(), wordlist_len);
}

#[test]
fn test_abort() {
    let vm = &mut VM::new(16, 16).unwrap();
    vm.set_source("1 2 3 abort 5 6 7");
    vm.evaluate();
    assert_eq!(vm.last_error(), Some(Abort));
    assert_eq!(vm.s_stk.len(), 0);
}

#[test]
fn test_do_loop() {
    let vm = &mut VM::new(16, 16).unwrap();
    // : t1 do ;
    vm.set_source(": t1 do ;");
    vm.evaluate();
    assert_eq!(vm.last_error(), Some(ControlStructureMismatch));
    vm.reset();
    vm.clear_stacks();
    // : t2 loop ;
    vm.set_source(": t2 loop ;");
    vm.evaluate();
    assert_eq!(vm.last_error(), Some(ControlStructureMismatch));
    vm.reset();
    vm.clear_stacks();
    // : main 1 5 0 do 1+ loop ;  main
    vm.set_source(": main 1 5 0 do 1+ loop ;  main");
    vm.evaluate();
    assert!(vm.last_error().is_none());
    assert_eq!(vm.s_stk.len(), 1);
    assert_eq!(vm.s_stk.pop(), 6);
}

#[test]
fn test_do_unloop_exit_loop() {
    let vm = &mut VM::new(16, 16).unwrap();
    // : t1 unloop ;
    vm.set_source(": t1 unloop ; t1");
    vm.evaluate();
    assert_eq!(vm.last_error(), Some(ReturnStackUnderflow));
    vm.reset();
    vm.clear_stacks();
    // : main 1 5 0 do 1+ dup 3 = if unloop exit then loop ;  main
    vm.set_source(": main 1 5 0 do 1+ dup 3 = if unloop exit then loop ;  main");
    vm.evaluate();
    assert!(vm.last_error().is_none());
    assert_eq!(vm.s_stk.len(), 1);
    assert_eq!(vm.s_stk.pop(), 3);
}

#[test]
fn test_do_plus_loop() {
    let vm = &mut VM::new(16, 16).unwrap();
    // : t1 +loop ;
    vm.set_source(": t1 +loop ;");
    vm.evaluate();
    assert_eq!(vm.last_error(), Some(ControlStructureMismatch));
    vm.reset();
    vm.clear_stacks();
    // : t2 5 0 do +loop ;
    vm.set_source(": t2 5 0 do +loop ; t2");
    vm.evaluate();
    assert_eq!(vm.last_error(), Some(StackUnderflow));
    vm.clear_stacks();
    vm.reset();
    // : t3 1 5 0 do 1+ 2 +loop ;  main
    vm.set_source(": t3 1 5 0 do 1+ 2 +loop ;  t3");
    vm.evaluate();
    assert_eq!(vm.last_error(), None);
    assert_eq!(vm.s_stk.len(), 1);
    assert_eq!(vm.s_stk.pop(), 4);
    // : t4 1 6 0 do 1+ 2 +loop ;  t4
    vm.set_source(": t4 1 6 0 do 1+ 2 +loop ;  t4");
    vm.evaluate();
    assert!(vm.last_error().is_none());
    assert_eq!(vm.s_stk.len(), 1);
    assert_eq!(vm.s_stk.pop(), 4);
}

#[test]
fn test_do_leave_loop() {
    let vm = &mut VM::new(16, 16).unwrap();
    // : t1 leave ;
    vm.set_source(": t1 leave ;  t1");
    vm.evaluate();
    assert_eq!(vm.last_error(), Some(ControlStructureMismatch));
    vm.reset();
    vm.clear_stacks();
    // : main 1 5 0 do 1+ dup 3 = if drop 88 leave then loop 9 ;  main
    vm.set_source(": main 1 5 0 do 1+ dup 3 = if drop 88 leave then loop 9 ;  main");
    vm.evaluate();
    assert_eq!(vm.last_error(), None);
    assert_eq!(vm.s_stk.len(), 2);
    assert_eq!(vm.s_stk.pop2(), (88, 9));
}

#[test]
fn test_do_leave_plus_loop() {
    let vm = &mut VM::new(16, 16).unwrap();
    // : main 1 5 0 do 1+ dup 3 = if drop 88 leave then 2 +loop 9 ;  main
    vm.set_source(": main 1 5 0 do 1+ dup 3 = if drop 88 leave then 2 +loop 9 ;  main");
    vm.evaluate();
    assert_eq!(vm.last_error(), None);
    assert_eq!(vm.s_stk.len(), 2);
    assert_eq!(vm.s_stk.pop2(), (88, 9));
}

#[test]
fn test_do_i_loop() {
    let vm = &mut VM::new(16, 16).unwrap();
    // : main 3 0 do i loop ;  main
    vm.set_source(": main 3 0 do i loop ;  main");
    vm.evaluate();
    assert_eq!(vm.last_error(), None);
    assert_eq!(vm.s_stk.len(), 3);
    assert_eq!(vm.s_stk.pop3(), (0, 1, 2));
}

#[test]
fn test_do_i_j_loop() {
    let vm = &mut VM::new(16, 16).unwrap();
    vm.set_source(": main 6 4 do 3 1 do i j * loop loop ;  main");
    vm.evaluate();
    assert_eq!(vm.last_error(), None);
    assert_eq!(vm.s_stk.len(), 4);
    assert_eq!(vm.s_stk.as_slice(), [4, 8, 5, 10]);
}

#[test]
fn test_here_comma_compile_interpret() {
    let vm = &mut VM::new(16, 16).unwrap();
    vm.comma();
    vm.check_stacks();
    assert_eq!(vm.last_error(), Some(StackUnderflow));
    vm.reset();
    // here 1 , 2 , ] lit exit [ here
    let here = vm.data_space.here();
    vm.set_source("here 1 , 2 , ] lit exit [ here");
    vm.evaluate();
    assert!(vm.last_error().is_none());
    assert_eq!(vm.s_stk.len(), 2);
    let (n, t) = vm.s_stk.pop2();
    assert!(!vm.s_stk.underflow());
    assert_eq!(t - n, 4 * 4usize as isize);
    assert_eq!(vm.data_space.get_i32(here + 0), 1);
    assert_eq!(vm.data_space.get_i32(here + 4), 2);
    assert_eq!(
        vm.data_space.get_i32(here + 8),
        vm.references.idx_lit as i32
    );
    assert_eq!(
        vm.data_space.get_i32(here + 12),
        vm.references.idx_exit as i32
    );
}
