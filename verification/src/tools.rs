//! Words that display the state of the machine: the data stack, the word
//! list, the use of data space, the input, and numbers in a field.

use vstd::prelude::*;
use vstd::slice::slice_subrange;
use vstd::string::StringSliceAdditionalSpecFns;

use crate::exception::Exception;
use crate::format::{
    decimal, digits, push_decimal, push_digits, push_radix, push_right_aligned, radix_text,
    right_aligned,
};
use crate::memory_words::push_bytes;
use crate::vm::{Request, VmView, Word, VM};

verus! {

/// The first `n` cells of a stack in decimal, each followed by a space.
pub open spec fn stack_text(cells: Seq<isize>, n: nat) -> Seq<u8>
    decreases n,
{
    if n == 0 {
        Seq::empty()
    } else {
        stack_text(cells, (n - 1) as nat) + decimal(cells[n - 1] as int) + seq![32u8]
    }
}

/// A base that `.r` can display in: 2, 8, 10 or 16.
pub open spec fn displayable_base(b: isize) -> bool {
    b == 2 || b == 8 || b == 10 || b == 16
}

impl VmView {
    /// The name of word `i` followed by a space, if it is visible and
    /// named.
    pub open spec fn word_entry(self, i: int) -> Seq<u8> {
        let w = self.words[i];
        if !w.hidden && w.symbol.id < self.symbols.len() {
            self.symbols[w.symbol.id as int] + seq![32u8]
        } else {
            Seq::empty()
        }
    }

    /// The names of the words below `n`, the last first, down to word 1.
    pub open spec fn words_text(self, n: int) -> Seq<u8>
        decreases n,
    {
        if n <= 1 {
            Seq::empty()
        } else {
            self.word_entry(n - 1) + self.words_text(n - 1)
        }
    }

    /// `(xtime) ( xt t0 -- )`: ask for the clock, to record how long word
    /// `xt` ran since `t0` microseconds.
    pub open spec fn set_execution_times(self) -> VmView {
        VmView { request: Some(Request::ExecutionTime), ..self }
    }

    /// The clock reads `now` microseconds: take `xt` and `t0` from the data
    /// stack and record `now - t0` (wrapping) among the execution times of
    /// word `xt`; an `xt` outside the word list aborts with `UndefinedWord`.
    pub open spec fn record_execution_time(self, now: u64) -> VmView {
        let xt = self.s.peek(2);
        let t0 = self.s.peek(1);
        let v = VmView { s: self.s.drop_n(2), request: None, ..self };
        if 0 <= xt < self.words.len() {
            let t = (now as usize).wrapping_sub(t0 as usize);
            let w = self.words[xt as int];
            let min = if w.min_execution_time != 0 && w.min_execution_time < t {
                w.min_execution_time
            } else {
                t
            };
            let max = if w.max_execution_time > t {
                w.max_execution_time
            } else {
                t
            };
            VmView {
                words: self.words.update(
                    xt as int,
                    Word { min_execution_time: min, max_execution_time: max, ..w },
                ),
                ..v
            }
        } else {
            v.abort_with(Exception::UndefinedWord)
        }
    }

    /// The measured times of word `i`, preceded by a bar, if it has any:
    /// `|name|min,max`.
    pub open spec fn xtime_entry(self, i: int) -> Seq<u8> {
        let w = self.words[i];
        if w.min_execution_time > 0 {
            let name = if w.symbol.id < self.symbols.len() {
                self.symbols[w.symbol.id as int]
            } else {
                Seq::empty()
            };
            seq![124u8] + name + seq![124u8] + digits(w.min_execution_time as nat, 10) + seq![44u8]
                + digits(w.max_execution_time as nat, 10)
        } else {
            Seq::empty()
        }
    }

    /// The measured times of the words below `n`, the last first, down to
    /// word 1, each preceded by a bar.
    pub open spec fn xtime_entries(self, n: int) -> Seq<u8>
        decreases n,
    {
        if n <= 1 {
            Seq::empty()
        } else {
            self.xtime_entry(n - 1) + self.xtime_entries(n - 1)
        }
    }

    /// `.xtime`: display the measured times, entries separated by bars.
    pub open spec fn dot_xtime(self) -> VmView {
        let e = self.xtime_entries(self.words.len() as int);
        VmView {
            output: self.output + if e.len() > 0 {
                e.drop_first()
            } else {
                e
            },
            ..self
        }
    }

    /// `0xtime`: clear the measured times of every word but word 0.
    pub open spec fn clear_xtime(self) -> VmView {
        VmView {
            words: Seq::new(
                self.words.len(),
                |i: int|
                    if i >= 1 && self.words[i].min_execution_time > 0 {
                        Word { min_execution_time: 0, max_execution_time: 0, ..self.words[i] }
                    } else {
                        self.words[i]
                    },
            ),
            ..self
        }
    }

    /// `.s`: display the data stack.
    pub open spec fn dot_s(self) -> VmView {
        VmView { output: self.output + stack_text(self.s.cells, self.s.len as nat), ..self }
    }

    /// `words`: display the names of the visible words, the last first.
    pub open spec fn words(self) -> VmView {
        VmView { output: self.output + self.words_text(self.words.len() as int), ..self }
    }

    /// The text `.memory` displays.
    pub open spec fn memory_text(self) -> Seq<u8> {
        "data space capacity: ".spec_bytes() + decimal(self.mem.len() as int) + ", used: ".spec_bytes()
            + decimal(self.here as int) + ", start: 0x".spec_bytes() + digits(0, 16)
            + ", limit: 0x".spec_bytes() + digits(self.mem.len(), 16) + ", here: 0x".spec_bytes()
            + digits(self.here, 16) + seq![10u8]
    }

    /// `.memory`: display the size and use of data space.
    pub open spec fn dot_memory(self) -> VmView {
        VmView { output: self.output + self.memory_text(), ..self }
    }

    /// `.input`: display the input.
    pub open spec fn dot_input(self) -> VmView {
        VmView { output: self.output + self.input, ..self }
    }

    /// ( n1 n2 -- ) `.r`: display `n1` right-aligned in a field `n2`
    /// characters wide, in the current base; a base other than 2, 8, 10 or
    /// 16 aborts with `UnsupportedOperation`.
    pub open spec fn dot_r(self) -> VmView {
        let n1 = self.s.peek(2);
        let n2 = self.s.peek(1);
        let v = self.with_s(self.s.drop_n(2));
        let b = v.base_value();
        if displayable_base(b) {
            VmView { output: v.output + right_aligned(radix_text(n1, b), n2), ..v }
        } else {
            v.abort_with(Exception::UnsupportedOperation)
        }
    }
}

impl VM {
    /// `(xtime) ( xt t0 -- )`: ask for the clock, to record how long word
    /// `xt` ran since `t0` microseconds.
    pub fn set_execution_times(&mut self)
        requires
            old(self).wf(),
        ensures
            final(self).wf(),
            final(self)@ == old(self)@.set_execution_times(),
    {
        self.request = Some(Request::ExecutionTime);
    }

    /// The clock reads `now` microseconds: record the execution time of the
    /// word `xt` under `t0` on the data stack.
    pub fn record_execution_time(&mut self, now: u64)
        requires
            old(self).wf(),
        ensures
            final(self).wf(),
            final(self)@ == old(self)@.record_execution_time(now),
    {
        let xt = self.s_stk.peek(2);
        let t0 = self.s_stk.peek(1);
        self.s_stk.drop_n(2);
        self.request = None;
        if 0 <= xt && (xt as usize) < self.wordlist.len() {
            let t = (now as usize).wrapping_sub(t0 as usize);
            let i = xt as usize;
            let mut w = self.wordlist[i];
            let min = if w.min_execution_time != 0 && w.min_execution_time < t {
                w.min_execution_time
            } else {
                t
            };
            let max = if w.max_execution_time > t {
                w.max_execution_time
            } else {
                t
            };
            w.min_execution_time = min;
            w.max_execution_time = max;
            self.wordlist.set(i, w);
        } else {
            self.abort_with(Exception::UndefinedWord);
        }
    }

    /// The measured times of word `i`, preceded by a bar, if it has any.
    fn xtime_entry(&self, i: usize) -> (r: Vec<u8>)
        requires
            self.wf(),
            i < self@.words.len(),
        ensures
            r@ == self@.xtime_entry(i as int),
    {
        let mut out: Vec<u8> = Vec::new();
        let w = self.wordlist[i];
        if w.min_execution_time > 0 {
            out.push(124u8);
            let id = w.symbol.id;
            if id < self.symbols.len() {
                push_bytes(&mut out, self.symbols[id].as_slice());
            }
            out.push(124u8);
            push_digits(&mut out, w.min_execution_time as u64, 10);
            out.push(44u8);
            push_digits(&mut out, w.max_execution_time as u64, 10);
            proof {
                let name = if w.symbol.id < self@.symbols.len() {
                    self@.symbols[w.symbol.id as int]
                } else {
                    Seq::empty()
                };
                assert(out@ =~= seq![124u8] + name + seq![124u8] + digits(w.min_execution_time as nat, 10)
                    + seq![44u8] + digits(w.max_execution_time as nat, 10));
            }
        }
        out
    }

    /// `.xtime`: display the measured times, entries separated by bars.
    pub fn dot_xtime(&mut self)
        requires
            old(self).wf(),
        ensures
            final(self).wf(),
            final(self)@ == old(self)@.dot_xtime(),
    {
        let ghost pre = self@;
        let ghost mut wrote: Seq<u8> = Seq::empty();
        let mut first = true;
        let mut k = self.wordlist.len();
        while k > 1
            invariant
                k <= pre.words.len(),
                self.wf(),
                self@ == (VmView { output: self@.output, ..pre }),
                first == (wrote.len() == 0),
                pre.xtime_entries(pre.words.len() as int) == wrote + pre.xtime_entries(k as int),
                self@.output == pre.output + if wrote.len() > 0 {
                    wrote.drop_first()
                } else {
                    wrote
                },
            decreases k,
        {
            let e = self.xtime_entry(k - 1);
            let ghost piece = e@;
            proof {
                assert(pre.xtime_entries(k as int) == piece + pre.xtime_entries(k - 1));
                assert(wrote + pre.xtime_entries(k as int) =~= (wrote + piece) + pre.xtime_entries(k - 1));
            }
            if e.len() > 0 {
                if first {
                    let rest = slice_subrange(e.as_slice(), 1, e.len());
                    push_bytes(&mut self.outbuf, rest);
                    proof {
                        assert(rest@ =~= piece.drop_first());
                        assert((wrote + piece) =~= piece);
                    }
                } else {
                    push_bytes(&mut self.outbuf, e.as_slice());
                    proof {
                        assert((wrote + piece).drop_first() =~= wrote.drop_first() + piece);
                    }
                }
                first = false;
            } else {
                proof {
                    assert(wrote + piece =~= wrote);
                }
            }
            proof {
                wrote = wrote + piece;
            }
            k = k - 1;
        }
        assert(pre.xtime_entries(k as int) =~= Seq::<u8>::empty());
        assert(wrote =~= pre.xtime_entries(pre.words.len() as int));
    }

    /// `0xtime`: clear the measured times of every word but word 0.
    pub fn clear_xtime(&mut self)
        requires
            old(self).wf(),
        ensures
            final(self).wf(),
            final(self)@ == old(self)@.clear_xtime(),
    {
        let ghost pre = self@;
        let n = self.wordlist.len();
        let mut i: usize = 1;
        while i < n
            invariant
                1 <= i,
                n == pre.words.len(),
                self.wf(),
                self@ == (VmView { words: self@.words, ..pre }),
                self@.words.len() == n,
                forall|j: int|
                    0 <= j < n ==> #[trigger] self@.words[j] == if 1 <= j < i
                        && pre.words[j].min_execution_time > 0 {
                        Word { min_execution_time: 0, max_execution_time: 0, ..pre.words[j] }
                    } else {
                        pre.words[j]
                    },
            decreases n - i,
        {
            let mut w = self.wordlist[i];
            if w.min_execution_time > 0 {
                w.min_execution_time = 0;
                w.max_execution_time = 0;
                self.wordlist.set(i, w);
            }
            i = i + 1;
        }
        assert(self@.words =~= pre.clear_xtime().words);
    }

    /// `.s`: display the data stack.
    pub fn dot_s(&mut self)
        requires
            old(self).wf(),
        ensures
            final(self).wf(),
            final(self)@ == old(self)@.dot_s(),
    {
        let n = self.s_stk.len;
        let mut i: u8 = 0;
        let ghost pre = self@;
        while i < n
            invariant
                i <= n,
                n == pre.s.len,
                self.wf(),
                self@ == (VmView { output: self@.output, ..pre }),
                self@.output == pre.output + stack_text(pre.s.cells, i as nat),
            decreases n - i,
        {
            let v = self.s_stk.inner[i as usize];
            push_decimal(&mut self.outbuf, v);
            self.outbuf.push(32u8);
            i = i + 1;
            assert(self@.output =~= pre.output + stack_text(pre.s.cells, i as nat));
        }
    }

    /// `words`: display the names of the visible words, the last first.
    pub fn words(&mut self)
        requires
            old(self).wf(),
        ensures
            final(self).wf(),
            final(self)@ == old(self)@.words(),
    {
        let ghost pre = self@;
        let mut k = self.wordlist.len();
        while k > 1
            invariant
                k <= pre.words.len(),
                self.wf(),
                self@ == (VmView { output: self@.output, ..pre }),
                pre.output + pre.words_text(pre.words.len() as int) == self@.output + pre.words_text(
                    k as int,
                ),
            decreases k,
        {
            let w = self.wordlist[k - 1];
            let id = w.symbol.id;
            if !w.hidden && id < self.symbols.len() {
                push_bytes(&mut self.outbuf, self.symbols[id].as_slice());
                self.outbuf.push(32u8);
                proof {
                    assert(self.symbols[id as int]@ == pre.symbols[id as int]);
                }
            }
            assert(self@.output + pre.words_text(k - 1) =~= self@.output + pre.words_text(k - 1));
            k = k - 1;
        }
        assert(pre.words_text(k as int) =~= Seq::<u8>::empty());
        assert(self@.output =~= pre.output + pre.words_text(pre.words.len() as int));
    }

    /// `.memory`: display the size and use of data space.
    pub fn dot_memory(&mut self)
        requires
            old(self).wf(),
        ensures
            final(self).wf(),
            final(self)@ == old(self)@.dot_memory(),
    {
        let start = self.data_space.start();
        let limit = self.data_space.limit();
        let here = self.data_space.here();
        let cap = limit - start;
        let used = here - start;
        push_bytes(&mut self.outbuf, "data space capacity: ".as_bytes());
        push_decimal(&mut self.outbuf, cap as isize);
        push_bytes(&mut self.outbuf, ", used: ".as_bytes());
        push_decimal(&mut self.outbuf, used as isize);
        push_bytes(&mut self.outbuf, ", start: 0x".as_bytes());
        push_digits(&mut self.outbuf, start as u64, 16);
        push_bytes(&mut self.outbuf, ", limit: 0x".as_bytes());
        push_digits(&mut self.outbuf, limit as u64, 16);
        push_bytes(&mut self.outbuf, ", here: 0x".as_bytes());
        push_digits(&mut self.outbuf, here as u64, 16);
        self.outbuf.push(10u8);
        assert(self@.output =~= old(self)@.output + old(self)@.memory_text());
    }

    /// `.input`: display the input.
    pub fn dot_input(&mut self)
        requires
            old(self).wf(),
        ensures
            final(self).wf(),
            final(self)@ == old(self)@.dot_input(),
    {
        push_bytes(&mut self.outbuf, self.inbuf.as_slice());
    }

    /// ( n1 n2 -- ) `.r`: display `n1` right-aligned in a field `n2`
    /// characters wide, in the current base.
    pub fn dot_r(&mut self)
        requires
            old(self).wf(),
        ensures
            final(self).wf(),
            final(self)@ == old(self)@.dot_r(),
    {
        let (n1, n2) = self.s_stk.pop2();
        let base_addr = self.data_space.system_variables().base_addr();
        let b = self.data_space.get_isize(base_addr);
        if b == 2 || b == 8 || b == 10 || b == 16 {
            let mut hold: Vec<u8> = Vec::new();
            push_radix(&mut hold, n1, b);
            push_right_aligned(&mut self.outbuf, hold.as_slice(), n2);
            assert(hold@ =~= radix_text(n1, b));
        } else {
            self.abort_with(Exception::UnsupportedOperation);
        }
    }
}

} // verus!
