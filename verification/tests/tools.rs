use rtforth::exception::Exception;
use rtforth::vm::VM;

fn output(vm: &VM) -> String {
    String::from_utf8(vm.outbuf.clone()).unwrap()
}

#[test]
fn test_primitives() {
    let vm = &mut VM::new(1024, 16).unwrap();
    vm.add_core();
    vm.noop();
    vm.p_false();
    assert_eq!(vm.s_stk.len(), 1);
    assert_eq!(vm.s_stk.last(), Some(0));
    vm.p_true();
    assert_eq!(vm.s_stk.len(), 2);
    assert_eq!(vm.s_stk.last(), Some(-1));
    vm.s_stk.push(2);
    assert_eq!(vm.s_stk.len(), 3);
    vm.dot_s();
    vm.words();
}

#[test]
fn dot_s_shows_the_stack_from_the_bottom() {
    let vm = &mut VM::new(16, 16).unwrap();
    vm.set_source("1 -2 30 .s");
    vm.evaluate();
    assert_eq!(vm.last_error(), None);
    assert_eq!(output(vm), "1 -2 30 ");
}

#[test]
fn words_lists_the_last_definition_first() {
    let vm = &mut VM::new(16, 16).unwrap();
    vm.set_source(": hello ; : secret 1 ; words");
    vm.evaluate();
    assert_eq!(vm.last_error(), None);
    assert!(output(vm).starts_with("secret hello utime ntime max-u max-n flush-to-err .input 0xtime .xtime (xtime) .memory .s words flush-output .r .( "));
    assert!(output(vm).ends_with("exit "));
}

#[test]
fn dot_r_right_aligns_in_the_current_base() {
    let vm = &mut VM::new(16, 16).unwrap();
    vm.set_source("5 3 .r -12 5 .r 123 1 .r");
    vm.evaluate();
    assert_eq!(vm.last_error(), None);
    assert_eq!(output(vm), "  5  -12123");
    let vm = &mut VM::new(16, 16).unwrap();
    vm.set_source("16 base ! FF 4 .r 2 base ! 101 0 .r");
    vm.evaluate();
    assert_eq!(vm.last_error(), None);
    assert_eq!(output(vm), "  FF101");
}

#[test]
fn dot_r_of_a_negative_number_in_hexadecimal_shows_its_bits() {
    let vm = &mut VM::new(16, 16).unwrap();
    vm.set_source("16 base ! -1 0 .r");
    vm.evaluate();
    assert_eq!(vm.last_error(), None);
    assert_eq!(output(vm), format!("{:X}", -1isize));
}

#[test]
fn dot_r_in_an_unsupported_base_aborts() {
    let vm = &mut VM::new(16, 16).unwrap();
    vm.set_source("7 base ! 5 3 .r");
    vm.evaluate();
    assert_eq!(vm.last_error(), Some(Exception::UnsupportedOperation));
    assert_eq!(vm.s_stk.len(), 0);
}

#[test]
fn dot_memory_shows_capacity_and_use() {
    let vm = &mut VM::new(16, 16).unwrap();
    let cap = vm.data_space.capacity();
    vm.set_source(".memory");
    vm.evaluate();
    assert_eq!(vm.last_error(), None);
    assert_eq!(
        output(vm),
        format!(
            "data space capacity: {}, used: 64, start: 0x0, limit: 0x{:X}, here: 0x40\n",
            cap, cap
        )
    );
}

#[test]
fn dot_input_shows_the_input() {
    let vm = &mut VM::new(16, 16).unwrap();
    vm.set_source("1 .input");
    vm.evaluate();
    assert_eq!(vm.last_error(), None);
    assert_eq!(output(vm), "1 .input");
}

#[test]
fn dot_paren_and_dot_quote_display_text() {
    let vm = &mut VM::new(16, 16).unwrap();
    vm.set_source(".( hello) : greet .\" hi there\" ; greet");
    vm.evaluate();
    assert_eq!(vm.last_error(), None);
    assert_eq!(output(vm), "hellohi there");
}

#[test]
fn xtime_records_and_lists_execution_times() {
    let vm = &mut VM::new(16, 16).unwrap();
    vm.set_source(": t ; ' t 5 (xtime)");
    vm.evaluate();
    assert_eq!(vm.request, Some(rtforth::vm::Request::ExecutionTime));
    vm.complete_time(12_000);
    assert_eq!(vm.request, None);
    assert_eq!(vm.s_stk.len(), 0);
    vm.resume();
    vm.set_source("' t 2 (xtime)");
    vm.evaluate();
    vm.complete_time(22_500);
    vm.resume();
    vm.set_source(".xtime");
    vm.evaluate();
    assert_eq!(vm.last_error(), None);
    assert_eq!(output(vm), "t|7,20");
    vm.outbuf.clear();
    vm.set_source("0xtime .xtime");
    vm.evaluate();
    assert_eq!(output(vm), "");
}

#[test]
fn xtime_of_a_word_outside_the_list_aborts() {
    let vm = &mut VM::new(16, 16).unwrap();
    vm.set_source("100000 5 (xtime)");
    vm.evaluate();
    vm.complete_time(9_000);
    assert_eq!(vm.last_error(), Some(rtforth::exception::Exception::UndefinedWord));
}

#[test]
fn xtime_measures_a_word_with_the_clock() {
    let vm = &mut VM::new(16, 16).unwrap();
    vm.set_source(": xtime ( xt -- ) utime drop >r >r r@ execute r> r> (xtime) ; ' words xtime .xtime");
    vm.evaluate();
    while vm.request.is_some() {
        vm.serve_time();
        vm.resume();
    }
    assert_eq!(vm.last_error(), None);
    assert_eq!(vm.request, None);
    assert_eq!(vm.s_stk.len(), 0);
}
