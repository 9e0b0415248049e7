use rtforth::jitmem::{JitMemory, JIT_ALIGN};
use rtforth::kernel::{Control, Stack};

#[test]
fn set_last_takes_any_address() {
    let mut m: JitMemory<u8> = JitMemory::new(1);
    m.compile_word(3, 7);
    let first = m.last();
    assert_eq!(m.find(3), Some(first));
    m.set_last(0);
    assert_eq!(m.last(), 0);
    assert_eq!(m.find(3), None);
    m.set_last(1001);
    assert_eq!(m.last(), 1001);
    assert_eq!(m.find(3), None);
    m.set_last(first);
    assert_eq!(m.find(3), Some(first));
}

#[test]
fn fields_read_back_little_endian() {
    let mut m: JitMemory<u8> = JitMemory::new(1);
    let at = m.len();
    m.compile_u32(0x0403_0201);
    m.compile_i32(-2);
    assert_eq!(m.get_u32(at), 0x0403_0201);
    assert_eq!(m.get_u8(at), 1);
    assert_eq!(m.get_i32(at + 4), -2);
    assert_eq!(m.get_u32(at + 4), 0xffff_fffe);
}

#[test]
fn mut_word_changes_the_header_in_place() {
    let mut m: JitMemory<u8> = JitMemory::new(1);
    m.compile_word(5, 1);
    let w = m.last();
    m.mut_word(w).set_hidden(true);
    assert!(m.word(w).is_hidden());
    assert_eq!(m.find(5), None);
    m.mut_word(w).set_hidden(false);
    assert_eq!(m.find(5), Some(w));
}

#[test]
fn memory_is_empty_until_something_is_compiled() {
    let mut m: JitMemory<u8> = JitMemory::new(1);
    assert!(m.is_empty());
    assert_eq!(m.len(), JIT_ALIGN);
    m.allot(0);
    assert!(m.is_empty());
    m.compile_u8(9);
    assert!(!m.is_empty());
    assert_eq!(m.len(), JIT_ALIGN + 1);
}

#[test]
fn new_stack_cells_below_the_canaries_hold_the_default() {
    let s: Stack<isize> = Stack::new(0x1234_5678);
    for i in 0..32 {
        assert_eq!(s.get(i), Some(0));
    }
    for i in 32..=255 {
        assert_eq!(s.get(i), Some(0x1234_5678));
    }
    assert!(s.is_empty());
    assert!(!s.underflow());
    assert!(!s.overflow());
    let c: Stack<Control> = Stack::new(Control::Canary);
    assert!(matches!(c.get(0), Some(Control::Default)));
}

#[test]
fn runs_of_pushes_and_pops_show_their_depth_and_canaries() {
    let mut s: Stack<isize> = Stack::new(0x1234_5678);
    s.push(1);
    s.pop();
    s.pop();
    assert!(s.underflow());
    s.push(2);
    assert_eq!(s.len(), 0);
    assert!(s.underflow());
    let mut s: Stack<isize> = Stack::new(0x1234_5678);
    for i in 0..32 {
        s.push(i);
    }
    assert!(!s.overflow());
    assert_eq!(s.as_slice().len(), 32);
    s.push(32);
    assert!(s.overflow());
    assert!(!s.underflow());
}

#[test]
fn find_follows_links_forward_too() {
    let mut m: JitMemory<u8> = JitMemory::new(1);
    m.compile_word(1, 0);
    let first = m.last();
    m.compile_word(2, 0);
    let second = m.last();
    m.mut_word(second).link = 0;
    m.mut_word(first).link = second;
    m.set_last(first);
    assert_eq!(m.find(2), Some(second));
    assert_eq!(m.find(1), Some(first));
    m.mut_word(second).link = first;
    assert_eq!(m.find(3), None);
}

#[test]
fn a_word_laid_over_an_older_one_replaces_it() {
    let mut m: JitMemory<u8> = JitMemory::new(1);
    m.compile_word(1, 0);
    let first = m.last();
    m.truncate(first);
    m.set_last(0);
    m.compile_word(2, 0);
    assert_eq!(m.last(), first);
    assert_eq!(m.find(2), Some(first));
    assert_eq!(m.find(1), None);
}
