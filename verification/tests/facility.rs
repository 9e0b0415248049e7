use rtforth::vm::{Request, VM};

fn run(vm: &mut VM, text: &str) {
    vm.set_source(text);
    vm.evaluate();
}

#[test]
fn ntime_asks_for_the_clock_and_pushes_a_double() {
    let vm = &mut VM::new(16, 16).unwrap();
    run(vm, "ntime");
    assert_eq!(vm.request, Some(Request::Time { micros: false }));
    assert_eq!(vm.s_stk.len(), 0);
    vm.serve_time();
    assert_eq!(vm.request, None);
    assert_eq!(vm.s_stk.len(), 2);
    if usize::BITS == 64 {
        assert_eq!(vm.s_stk.as_slice()[1], 0);
    }
    vm.resume();
    assert_eq!(vm.last_error(), None);
    assert_eq!(vm.s_stk.len(), 2);
}

#[test]
fn utime_gives_microseconds() {
    let vm = &mut VM::new(16, 16).unwrap();
    run(vm, "utime");
    assert_eq!(vm.request, Some(Request::Time { micros: true }));
    vm.complete_time(5_000_123);
    assert_eq!(vm.s_stk.as_slice(), [5000, 0]);
    let vm = &mut VM::new(16, 16).unwrap();
    run(vm, "ntime");
    vm.complete_time(5_000_123);
    assert_eq!(vm.s_stk.as_slice(), [5_000_123, 0]);
}

#[test]
fn a_request_inside_a_definition_resumes_where_it_stopped() {
    let vm = &mut VM::new(16, 16).unwrap();
    run(vm, ": t ntime 1 ; t 2");
    assert_eq!(vm.request, Some(Request::Time { micros: false }));
    assert_eq!(vm.s_stk.len(), 0);
    vm.complete_time(7);
    vm.resume();
    assert_eq!(vm.request, None);
    assert_eq!(vm.last_error(), None);
    assert_eq!(vm.s_stk.as_slice(), [7, 0, 1, 2]);
}

#[test]
fn completing_without_a_request_changes_nothing() {
    let vm = &mut VM::new(16, 16).unwrap();
    run(vm, "1 65 emit");
    vm.complete_time(9);
    vm.complete_flush();
    assert_eq!(vm.s_stk.as_slice(), [1]);
    assert_eq!(vm.outbuf, b"A".to_vec());
}

#[test]
fn flush_output_asks_only_when_there_is_output() {
    let vm = &mut VM::new(16, 16).unwrap();
    run(vm, "flush-output 3");
    assert_eq!(vm.request, None);
    assert_eq!(vm.s_stk.as_slice(), [3]);
    let vm = &mut VM::new(16, 16).unwrap();
    run(vm, "65 emit flush-output 66 emit");
    assert_eq!(vm.request, Some(Request::FlushOutput));
    assert_eq!(vm.outbuf, b"A".to_vec());
    vm.complete_flush();
    assert_eq!(vm.outbuf, Vec::<u8>::new());
    vm.resume();
    assert_eq!(vm.outbuf, b"B".to_vec());
}

#[test]
fn flush_to_err_asks_even_without_output() {
    let vm = &mut VM::new(16, 16).unwrap();
    run(vm, "flush-to-err");
    assert_eq!(vm.request, Some(Request::FlushToErr));
    let vm = &mut VM::new(16, 16).unwrap();
    run(vm, "67 emit flush-to-err");
    assert_eq!(vm.request, Some(Request::FlushToErr));
    vm.complete_flush();
    assert_eq!(vm.request, None);
    assert!(vm.outbuf.is_empty());
}

#[test]
fn bye_asks_for_the_end_anywhere_in_a_line() {
    let vm = &mut VM::new(16, 16).unwrap();
    vm.add_primitive("bye", rtforth::vm::Action::Bye);
    run(vm, "1 2 bye 3");
    assert_eq!(vm.request, Some(Request::Bye));
    assert_eq!(vm.s_stk.as_slice(), [1, 2]);
    let vm = &mut VM::new(16, 16).unwrap();
    run(vm, "bye");
    assert_eq!(vm.last_error(), Some(rtforth::exception::Exception::UndefinedWord));
}

#[test]
fn a_host_word_asks_the_program_and_resumes() {
    let vm = &mut VM::new(16, 16).unwrap();
    vm.add_primitive("twice", rtforth::vm::Action::Host(3));
    run(vm, "5 twice 1");
    assert_eq!(vm.request, Some(Request::Host(3)));
    let t = vm.s_stk.pop();
    vm.s_stk.push(t * 2);
    vm.complete_host();
    assert_eq!(vm.request, None);
    vm.resume();
    assert_eq!(vm.s_stk.as_slice(), [10, 1]);
    vm.complete_host();
    assert_eq!(vm.s_stk.as_slice(), [10, 1]);
}
