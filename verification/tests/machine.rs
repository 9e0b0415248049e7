use rtforth::exception::Exception;
use rtforth::memory::DataSpace;
use rtforth::loader::load_line_result;
use rtforth::term::{edit_line, Edit, Key};
use rtforth::parser::FloatParts;
use rtforth::vm::{Request, VM};

fn run(vm: &mut VM, text: &str) {
    vm.set_source(text);
    vm.evaluate();
}

#[test]
fn new_machine_has_pages_of_the_machine_page_size() {
    let vm = VM::new(16, 16).unwrap();
    let cap = vm.data_space.capacity();
    assert!(cap >= 64);
    assert_eq!(cap % 16, 0);
    assert_eq!(vm.data_space.here(), 64);
    assert_eq!(vm.s_stk.len(), 0);
    assert_eq!(vm.last_error(), None);
}

#[test]
fn with_page_size_is_exact() {
    assert!(DataSpace::with_page_size(2, 32).is_some());
    assert_eq!(DataSpace::with_page_size(2, 32).unwrap().capacity(), 64);
    assert!(DataSpace::with_page_size(1, 63).is_none());
    assert!(DataSpace::with_page_size(usize::MAX, 2).is_none());
    let vm = VM::with_page_size(4, 1, 100).unwrap();
    assert_eq!(vm.data_space.capacity(), 400);
    assert_eq!(vm.code_space.capacity(), 4096);
    assert!(VM::with_page_size(4, usize::MAX / 4096 + 1, 100).is_none());
}

#[test]
fn fetch_gives_back_what_store_wrote() {
    let vm = &mut VM::new(16, 16).unwrap();
    run(vm, "variable x  5 x !  x @  -7 x !  x @  4294967301 x !  x @");
    assert_eq!(vm.last_error(), None);
    assert_eq!(vm.s_stk.as_slice(), [5, -7, 5]);
}

#[test]
fn compiled_literal_pushes_its_value() {
    let vm = &mut VM::new(16, 16).unwrap();
    run(vm, ": seven 7 ; : big 2147483647 ; seven big");
    assert_eq!(vm.last_error(), None);
    assert_eq!(vm.s_stk.as_slice(), [7, 2147483647]);
}

#[test]
fn then_resolves_the_branch_of_if() {
    let vm = &mut VM::new(16, 16).unwrap();
    let here = vm.data_space.here();
    run(vm, "] if then [");
    assert_eq!(vm.last_error(), None);
    assert_eq!(vm.data_space.here(), here + 8);
    assert_eq!(vm.data_space.get_i32(here), vm.references.idx_zero_branch as i32);
    assert_eq!(vm.data_space.get_i32(here + 4), (here + 8) as i32);
}

#[test]
fn find_ignores_case_and_finds_the_last_definition() {
    let vm = &mut VM::new(16, 16).unwrap();
    let dup = vm.find("dup").unwrap();
    assert_eq!(vm.find("DUP"), Some(dup));
    run(vm, ": dup 1 ;");
    assert_eq!(vm.last_error(), None);
    assert_eq!(vm.find("Dup"), Some(vm.wordlist.len() - 1));
    assert_eq!(String::from_utf8(vm.outbuf.clone()).unwrap(), "Redefining dup");
}

#[test]
fn a_definition_is_hidden_until_it_is_complete() {
    let vm = &mut VM::new(16, 16).unwrap();
    run(vm, ": foo foo ;");
    assert_eq!(vm.last_error(), Some(Exception::UndefinedWord));
    assert_eq!(String::from_utf8(vm.outbuf.clone()).unwrap(), "foo ");
    assert_eq!(vm.find("foo"), None);
}

#[test]
fn marker_forgets_everything_after_it() {
    let vm = &mut VM::new(16, 16).unwrap();
    let words = vm.wordlist.len();
    let symbols = vm.symbols.len();
    run(vm, "marker mark variable x : y 1 ; mark");
    assert_eq!(vm.last_error(), None);
    assert_eq!(vm.wordlist.len(), words);
    assert_eq!(vm.symbols.len(), symbols);
    assert_eq!(vm.find("x"), None);
    assert_eq!(vm.find("mark"), None);
}

#[test]
fn to_r_and_r_from_round_trip() {
    let vm = &mut VM::new(16, 16).unwrap();
    vm.s_stk.push(3);
    vm.s_stk.push(4);
    vm.p_to_r();
    vm.r_from();
    assert_eq!(vm.s_stk.as_slice(), [3, 4]);
    vm.swap();
    vm.swap();
    assert_eq!(vm.s_stk.as_slice(), [3, 4]);
}

#[test]
fn executing_an_index_outside_the_word_list_aborts() {
    let vm = &mut VM::new(16, 16).unwrap();
    let n = vm.wordlist.len() as isize;
    vm.s_stk.push(n);
    vm.execute();
    assert_eq!(vm.last_error(), Some(Exception::UndefinedWord));
    assert_eq!(vm.s_stk.len(), 0);
}

#[test]
fn evaluation_keeps_the_size_of_data_space() {
    let vm = &mut VM::new(16, 16).unwrap();
    let cap = vm.data_space.capacity();
    run(vm, "variable v 1000000 v ! -5 allot 99999999 here ! 12 0 c!");
    assert_eq!(vm.data_space.capacity(), cap);
}

#[test]
fn stack_overflow_is_detected() {
    let vm = &mut VM::new(16, 16).unwrap();
    run(vm, "0 1 2 3 4 5 6 7 8 9 0 1 2 3 4 5 6 7 8 9 0 1 2 3 4 5 6 7 8 9 0 1 2");
    assert_eq!(vm.last_error(), Some(Exception::StackOverflow));
}

#[test]
fn return_stack_overflow_is_detected() {
    let vm = &mut VM::new(16, 16).unwrap();
    for i in 0..33 {
        vm.r_stk.push(i);
    }
    vm.check_stacks();
    assert_eq!(vm.last_error(), Some(Exception::ReturnStackOverflow));
}

#[test]
fn division_by_zero_aborts() {
    let vm = &mut VM::new(16, 16).unwrap();
    run(vm, "1 2 0 /");
    assert_eq!(vm.last_error(), Some(Exception::DivisionByZero));
    assert_eq!(vm.s_stk.len(), 0);
    run(vm, "7 0 mod");
    assert_eq!(vm.last_error(), Some(Exception::DivisionByZero));
}

#[test]
fn division_rounds_toward_zero() {
    let vm = &mut VM::new(16, 16).unwrap();
    run(vm, "-7 2 / -7 2 mod 7 -2 /mod");
    assert_eq!(vm.last_error(), None);
    assert_eq!(vm.s_stk.as_slice(), [-3, -1, 1, -3]);
}

#[test]
fn data_space_overflow_aborts() {
    let vm = &mut VM::new(1, 16).unwrap();
    let cap = vm.data_space.capacity() as isize;
    let here = vm.data_space.here() as isize;
    run(vm, &format!("{} allot 1 ,", cap - here - 2));
    assert_eq!(vm.last_error(), Some(Exception::DictionaryOverflow));
}

#[test]
fn missing_names_abort_with_end_of_file() {
    let vm = &mut VM::new(16, 16).unwrap();
    run(vm, "char");
    assert_eq!(vm.last_error(), Some(Exception::UnexpectedEndOfFile));
    vm.reset();
    run(vm, "variable");
    assert_eq!(vm.last_error(), Some(Exception::UnexpectedEndOfFile));
}

#[test]
fn char_and_bracket_char_give_the_first_byte() {
    let vm = &mut VM::new(16, 16).unwrap();
    run(vm, "char A : b [char] bcd ; b");
    assert_eq!(vm.last_error(), None);
    assert_eq!(vm.s_stk.as_slice(), [65, 98]);
}

#[test]
fn numbers_in_other_bases_and_quoted_characters() {
    let vm = &mut VM::new(16, 16).unwrap();
    run(vm, "$ff %101 #-12 '*' 16 base ! 10");
    assert_eq!(vm.last_error(), None);
    assert_eq!(vm.s_stk.as_slice(), [255, 5, -12, 42, 16]);
}

#[test]
fn a_float_literal_asks_for_a_float() {
    let vm = &mut VM::new(16, 16).unwrap();
    run(vm, "1.5E0 7");
    assert_eq!(vm.last_error(), None);
    assert_eq!(
        vm.request,
        Some(Request::FloatLiteral(FloatParts {
            significand_sign: 1,
            integer_part: 1,
            fraction_part: 5,
            fraction_digits: 1,
            exponent: 0,
        }))
    );
    vm.complete_float();
    vm.resume();
    assert_eq!(vm.s_stk.as_slice(), [7]);
    vm.evaluate_float(b"1x");
    assert_eq!(vm.last_error(), Some(Exception::UnsupportedOperation));
    let vm = &mut VM::new(16, 16).unwrap();
    run(vm, ".3E");
    assert_eq!(vm.last_error(), Some(Exception::UndefinedWord));
    assert_eq!(vm.request, None);
}

#[test]
fn a_compiled_float_literal_pushes_its_bits_when_run() {
    let vm = &mut VM::new(16, 16).unwrap();
    run(vm, ": test 1.0e 2 ;");
    assert!(matches!(vm.request, Some(Request::CompileFloat(_))));
    vm.complete_compile_float(1.0f64.to_bits());
    vm.resume();
    assert_eq!(vm.last_error(), None);
    assert_eq!(vm.request, None);
    run(vm, "test");
    assert_eq!(vm.request, Some(Request::PushFloat(1.0f64.to_bits())));
    vm.complete_float();
    vm.resume();
    assert_eq!(vm.last_error(), None);
    assert_eq!(vm.s_stk.as_slice(), [2]);
}

#[test]
fn evaluate_integer_pushes_or_reports() {
    let vm = &mut VM::new(16, 16).unwrap();
    vm.evaluate_integer(b"-42");
    assert_eq!(vm.s_stk.pop(), -42);
    vm.evaluate_integer(b"4x");
    assert_eq!(vm.last_error(), Some(Exception::ResultOutOfRange));
}

#[test]
fn case_of_endof_endcase_selects_a_clause() {
    let vm = &mut VM::new(16, 16).unwrap();
    run(
        vm,
        ": pick case 1 of 10 endof 2 of 20 endof 99 swap endcase ; 1 pick 2 pick 3 pick",
    );
    assert_eq!(vm.last_error(), None);
    assert_eq!(vm.s_stk.as_slice(), [10, 20, 99]);
}

#[test]
fn question_do_skips_an_empty_loop() {
    let vm = &mut VM::new(16, 16).unwrap();
    run(vm, ": t 0 swap 0 ?do 1+ loop ; 0 t 3 t");
    assert_eq!(vm.last_error(), None);
    assert_eq!(vm.s_stk.as_slice(), [0, 3]);
}

#[test]
fn paren_comments_are_skipped() {
    let vm = &mut VM::new(16, 16).unwrap();
    run(vm, "1 ( 2 3 ) 4");
    assert_eq!(vm.last_error(), None);
    assert_eq!(vm.s_stk.as_slice(), [1, 4]);
}

#[test]
fn handle_error_reports_and_clears_the_error() {
    let vm = &mut VM::new(16, 16).unwrap();
    run(vm, "1 0 /");
    assert_eq!(vm.last_error(), Some(Exception::DivisionByZero));
    vm.p_handle_error();
    assert_eq!(vm.last_error(), None);
    assert_eq!(String::from_utf8(vm.outbuf.clone()).unwrap(), "Division by zero ");
}

#[test]
fn the_handler_runs_after_an_abort() {
    let vm = &mut VM::new(16, 16).unwrap();
    run(vm, "' handle-error handler! 1 0 / 5");
    assert_eq!(vm.last_error(), None);
    assert_eq!(String::from_utf8(vm.outbuf.clone()).unwrap(), "Division by zero ");
}

#[test]
fn a_loaded_line_loses_its_line_feed() {
    assert_eq!(load_line_result(b"1 2 +\n"), (5, true));
    assert_eq!(load_line_result(b"1 2 +"), (5, true));
    assert_eq!(load_line_result(b"\n"), (0, true));
    assert_eq!(load_line_result(b"x\r\n"), (2, true));
    assert_eq!(load_line_result(b""), (0, false));
}

#[test]
fn backspace_undoes_a_typed_character() {
    let mut line: Vec<char> = vec!['a'];
    assert_eq!(
        edit_line(&mut line, Key::Char('b')),
        Edit::Continue { echo: Some('b'), move_left: false }
    );
    assert_eq!(
        edit_line(&mut line, Key::Backspace),
        Edit::Continue { echo: None, move_left: true }
    );
    assert_eq!(line, vec!['a']);
    assert_eq!(edit_line(&mut line, Key::Enter), Edit::Done);
    assert_eq!(edit_line(&mut line, Key::CtrlD), Edit::Eof);
    let mut empty: Vec<char> = Vec::new();
    assert_eq!(
        edit_line(&mut empty, Key::Backspace),
        Edit::Continue { echo: None, move_left: false }
    );
}
