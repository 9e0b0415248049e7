use rtforth::vm::VM;

#[test]
fn test_s_quote_and_type() {
    let vm = &mut VM::new(16, 16).unwrap();
    vm.set_source(": hi   s\" Hi, how are you\" type ; hi");
    vm.evaluate();
    assert_eq!(vm.last_error(), None);
    assert_eq!(String::from_utf8(vm.outbuf.clone()).unwrap(), "Hi, how are you");
}

#[test]
fn test_emit() {
    let vm = &mut VM::new(16, 16).unwrap();
    vm.set_source("42 emit 43 emit");
    vm.evaluate();
    assert_eq!(vm.last_error(), None);
    assert_eq!(vm.s_stk.as_slice(), []);
    assert_eq!(String::from_utf8(vm.outbuf.clone()).unwrap(), "*+");
}

#[test]
fn test_max_n() {
    let vm = &mut VM::new(16, 16).unwrap();
    vm.set_source("max-n dup 1+ +");
    vm.evaluate();
    assert_eq!(vm.last_error(), None);
    match vm.s_stk.pop() {
        t => assert_eq!(t, -1),
    }
}

#[test]
fn test_max_u() {
    let vm = &mut VM::new(16, 16).unwrap();
    vm.set_source("max-u 1+");
    vm.evaluate();
    assert_eq!(vm.last_error(), None);
    match vm.s_stk.pop() {
        t => assert_eq!(t, 0),
    }
}
