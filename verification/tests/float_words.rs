use rtforth::exception::Exception;
use rtforth::vm::{Action, Request, VM};

fn machine() -> VM {
    let mut vm = VM::new(16, 16).unwrap();
    vm.add_primitive("fconstant", Action::FConstant);
    vm.add_primitive("float+", Action::FloatPlus);
    vm.add_primitive("floats", Action::Floats);
    vm.add_primitive("faligned", Action::FAligned);
    vm.add_primitive("falign", Action::FAlign);
    vm.add_primitive("f!", Action::FStore);
    vm.add_primitive("f@", Action::FFetch);
    vm
}

fn run(vm: &mut VM, text: &str) {
    vm.set_source(text);
    vm.evaluate();
}

#[test]
fn float_sizes_and_alignment() {
    let vm = &mut machine();
    run(vm, "3 float+ 3 floats 9 faligned 16 faligned");
    assert_eq!(vm.last_error(), None);
    assert_eq!(vm.s_stk.as_slice(), [11, 24, 16, 16]);
    run(vm, "1 allot falign here 8 mod");
    assert_eq!(vm.s_stk.last(), Some(0));
}

#[test]
fn a_stored_float_is_fetched_back() {
    let vm = &mut machine();
    let bits = 3.3f64.to_bits();
    run(vm, "here f! 7");
    assert!(matches!(vm.request, Some(Request::StoreFloat(_))));
    vm.complete_store_float(bits);
    vm.resume();
    assert_eq!(vm.s_stk.as_slice(), [7]);
    run(vm, "drop here f@");
    assert_eq!(vm.request, Some(Request::PushFloat(bits)));
    vm.complete_float();
    vm.resume();
    assert_eq!(vm.last_error(), None);
    run(vm, "-8 f@");
    assert_eq!(vm.last_error(), Some(Exception::InvalidMemoryAddress));
}

#[test]
fn a_float_constant_gives_its_float() {
    let vm = &mut machine();
    let bits = 1.1f64.to_bits();
    run(vm, "fconstant x x");
    assert_eq!(vm.request, Some(Request::FConstant));
    vm.complete_fconstant(bits);
    vm.resume();
    assert_eq!(vm.request, Some(Request::PushFloat(bits)));
    vm.complete_float();
    vm.resume();
    assert_eq!(vm.last_error(), None);
    assert_eq!(vm.request, None);
}
