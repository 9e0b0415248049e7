//! The outer interpreter: the input buffer, parsing, the search of the word
//! list, and numeric literals.

use vstd::prelude::*;
use vstd::string::StringSliceAdditionalSpecFns;

use crate::exception::Exception;
use crate::kernel::State;
use crate::memory::cell_value;
use crate::memory_words::push_bytes;
use crate::parser::{float_parts, float_token_spec, integer_token, integer_token_spec};
use crate::vm::{Compilation, Request, VmView, VM};

verus! {

/// A white-space byte: tab, line feed, carriage return or space.
pub open spec fn is_space(b: u8) -> bool {
    b == 9 || b == 10 || b == 13 || b == 32
}

/// The first index at or after `i` that holds no white space (or the end).
pub open spec fn skip_spaces(s: Seq<u8>, i: int) -> int
    decreases s.len() - i,
{
    if i < 0 || i >= s.len() || !is_space(s[i]) {
        i
    } else {
        skip_spaces(s, i + 1)
    }
}

/// The first index at or after `i` that holds white space (or the end).
pub open spec fn next_space(s: Seq<u8>, i: int) -> int
    decreases s.len() - i,
{
    if i < 0 || i >= s.len() || is_space(s[i]) {
        i
    } else {
        next_space(s, i + 1)
    }
}

/// The first index at or after `i` that holds the byte `d` (or the end).
pub open spec fn next_delimiter(s: Seq<u8>, i: int, d: isize) -> int
    decreases s.len() - i,
{
    if i < 0 || i >= s.len() || s[i] as isize == d {
        i
    } else {
        next_delimiter(s, i + 1, d)
    }
}

/// The byte `b` with ASCII upper case folded to lower case.
pub open spec fn to_lower(b: u8) -> u8 {
    if 65 <= b <= 90 {
        (b + 32) as u8
    } else {
        b
    }
}

/// `s` with ASCII upper case folded to lower case.
pub open spec fn lower_bytes(s: Seq<u8>) -> Seq<u8> {
    Seq::new(s.len(), |i: int| to_lower(s[i]))
}

/// `a` and `b` are equal but for ASCII case.
pub open spec fn eq_ignore_case(a: Seq<u8>, b: Seq<u8>) -> bool {
    a.len() == b.len() && forall|i: int| 0 <= i < a.len() ==> to_lower(a[i]) == to_lower(b[i])
}

/// Whether `a` and `b` are equal but for ASCII case.
pub fn eq_ignore_ascii_case(a: &[u8], b: &[u8]) -> (r: bool)
    ensures
        r == eq_ignore_case(a@, b@),
{
    if a.len() != b.len() {
        return false;
    }
    let mut i: usize = 0;
    while i < a.len()
        invariant
            a@.len() == b@.len(),
            i <= a@.len(),
            forall|k: int| 0 <= k < i ==> to_lower(a@[k]) == to_lower(b@[k]),
        decreases a@.len() - i,
    {
        if lower(a[i]) != lower(b[i]) {
            return false;
        }
        i = i + 1;
    }
    true
}

/// The byte `b` in lower case.
pub fn lower(b: u8) -> (r: u8)
    ensures
        r == to_lower(b),
{
    if 65 <= b && b <= 90 {
        b + 32
    } else {
        b
    }
}

impl VmView {
    /// The source index set to `i`.
    pub open spec fn with_source_index(self, i: usize) -> VmView {
        VmView { state: State { source_index: i, ..self.state }, ..self }
    }

    /// ( "<spaces>name<space>" -- ) Parse the next name into the token,
    /// skipping leading white space and consuming the delimiter after it.
    pub open spec fn parse_word(self) -> VmView {
        let si = self.state.source_index;
        if si < self.input.len() {
            let j = skip_spaces(self.input, si as int);
            let e = next_space(self.input, j);
            let next = if e < self.input.len() {
                e + 1
            } else {
                e
            };
            VmView { token: self.input.subrange(j, e), ..self.with_source_index(next as usize) }
        } else {
            VmView { token: Seq::empty(), ..self }
        }
    }

    /// ( char "ccc<char>" -- ) Parse the text up to the delimiter `char`
    /// into the token, consuming the delimiter.
    pub open spec fn parse(self) -> VmView {
        let d = self.s.peek(1);
        let v = self.with_s(self.s.drop_n(1));
        let si = v.state.source_index;
        if si <= v.input.len() {
            let e = next_delimiter(v.input, si as int, d);
            let next = if e < v.input.len() {
                e + 1
            } else {
                e
            };
            VmView { token: v.input.subrange(si as int, e), ..v.with_source_index(next as usize) }
        } else {
            VmView { token: Seq::empty(), ..v }
        }
    }

    /// ( "<spaces>name" -- char ) The first byte of the next name.
    pub open spec fn char(self) -> VmView {
        let v = self.parse_word();
        if v.token.len() == 0 {
            v.abort_with(Exception::UnexpectedEndOfFile)
        } else {
            v.with_s(v.s.push(v.token[0] as isize))
        }
    }

    /// `[char]`: compile the first byte of the next name as a literal.
    pub open spec fn bracket_char(self) -> VmView {
        let v = self.char();
        if v.error is Some {
            v
        } else {
            v.with_s(v.s.drop_n(1)).compile_integer(v.s.peek(1))
        }
    }

    /// `(`: skip a comment up to `)`.
    pub open spec fn imm_paren(self) -> VmView {
        self.with_s(self.s.push(41)).parse()
    }

    /// `\`: skip the rest of the input.
    pub open spec fn imm_backslash(self) -> VmView {
        self.with_source_index(self.input.len() as usize)
    }

    /// `.(`: display the text up to `)`.
    pub open spec fn dot_paren(self) -> VmView {
        let v = self.with_s(self.s.push(41)).parse();
        VmView { output: v.output + v.token, ..v }
    }

    /// Word `i` is visible and named `name`, up to ASCII case.
    pub open spec fn is_named(self, i: int, name: Seq<u8>) -> bool {
        let w = self.words[i];
        &&& !w.hidden
        &&& w.symbol.id < self.symbols.len()
        &&& eq_ignore_case(self.symbols[w.symbol.id as int], name)
    }

    /// The last of the first `n` words that is visible and named `name`.
    pub open spec fn find_below(self, name: Seq<u8>, n: int) -> Option<usize>
        decreases n,
    {
        if n <= 0 {
            None
        } else if self.is_named(n - 1, name) {
            Some((n - 1) as usize)
        } else {
            self.find_below(name, n - 1)
        }
    }

    /// The last visible word named `name`, up to ASCII case.
    pub open spec fn find(self, name: Seq<u8>) -> Option<usize> {
        self.find_below(name, self.words.len() as int)
    }

    /// The number in the `BASE` variable.
    pub open spec fn base_value(self) -> isize {
        cell_value(self.mem, 8) as isize
    }

    /// Apply the value of a numeric literal: compile it or push it, or
    /// record its error.
    pub open spec fn apply_integer(self, r: Result<isize, Exception>) -> VmView {
        match r {
            Ok(n) => if self.state.is_compiling {
                self.compile_integer(n)
            } else {
                self.with_s(self.s.push(n))
            },
            Err(e) => VmView { error: Some(e), ..self },
        }
    }

    /// Evaluate `token` as an integer literal in the current base.
    pub open spec fn evaluate_integer(self, token: Seq<u8>) -> VmView {
        self.apply_integer(integer_token_spec(token, self.base_value()))
    }

    /// Evaluate `token` as a floating-point literal. This machine has no
    /// floating-point stack, so even a well-formed literal gives
    /// `UnsupportedOperation`, as it does where `flit` is unresolved.
    pub open spec fn evaluate_float(self, token: Seq<u8>) -> VmView {
        match float_token_spec(token) {
            Err(e) => VmView { error: Some(e), ..self },
            Ok(parts) => if self.refs.idx_flit == 0 {
                VmView { error: Some(Exception::UnsupportedOperation), ..self }
            } else if self.state.is_compiling {
                VmView { request: Some(Request::CompileFloat(parts)), ..self }
            } else {
                VmView { request: Some(Request::FloatLiteral(parts)), ..self }
            },
        }
    }

    /// The token is no word: evaluate it as a number, or display it and
    /// abort with `UndefinedWord`.
    pub open spec fn evaluate_literal(self) -> VmView {
        let v = VmView { error: None, ..self }.evaluate_integer(self.token);
        if v.error is None {
            v
        } else {
            let w = VmView { error: None, ..v }.evaluate_float(self.token);
            if w.error is None {
                w
            } else {
                VmView { output: w.output + self.token + seq![32u8], ..w }.abort_with(
                    Exception::UndefinedWord,
                )
            }
        }
    }

    /// Compile word `i` as its compilation semantics says.
    pub open spec fn compile_semantics(self, i: usize) -> VmView {
        if i >= self.words.len() {
            self.abort_with(Exception::UndefinedWord)
        } else {
            match self.words[i as int].compilation_semantics {
                Compilation::Word => self.compile_word(i),
                Compilation::Leave => self.compile_leave(i),
            }
        }
    }

    /// Interpret the token: a word that is not compile-only is executed
    /// next; anything else is a literal.
    pub open spec fn interpret_token(self) -> VmView {
        match self.find(self.token) {
            Some(i) => if self.words[i as int].is_compile_only {
                self.abort_with(Exception::InterpretingACompileOnlyWord)
            } else {
                VmView { pending_xt: Some(i), ..self }
            },
            None => self.evaluate_literal(),
        }
    }

    /// Compile the token: an immediate word is executed next, another word
    /// is compiled; anything else is a literal.
    pub open spec fn compile_token(self) -> VmView {
        match self.find(self.token) {
            Some(i) => if self.words[i as int].is_immediate {
                VmView { pending_xt: Some(i), ..self }
            } else {
                self.compile_semantics(i)
            },
            None => self.evaluate_literal(),
        }
    }
}

impl VM {
    /// Replace the input with `s` and parse it from its start.
    pub fn set_source(&mut self, s: &str)
        requires
            old(self).wf(),
        ensures
            final(self).wf(),
            final(self)@ == (VmView { input: s.spec_bytes(), ..old(self)@.with_source_index(0) }),
    {
        self.inbuf.clear();
        push_bytes(&mut self.inbuf, s.as_bytes());
        self.state.source_index = 0;
    }

    /// Append `s` to the input.
    pub fn push_source(&mut self, s: &str)
        requires
            old(self).wf(),
        ensures
            final(self).wf(),
            final(self)@ == (VmView { input: old(self)@.input + s.spec_bytes(), ..old(self)@ }),
    {
        push_bytes(&mut self.inbuf, s.as_bytes());
    }

    /// ( "<spaces>name<space>" -- ) Parse the next name into the token.
    pub fn parse_word(&mut self)
        requires
            old(self).wf(),
        ensures
            final(self).wf(),
            final(self)@ == old(self)@.parse_word(),
    {
        self.tkn.clear();
        let si = self.state.source_index;
        let n = self.inbuf.len();
        let ghost pre = self@;
        if si < n {
            let ghost input = self.inbuf@;
            let mut i = si;
            while i < n && is_ws(self.inbuf[i])
                invariant
                    si <= i <= n,
                    n == input.len(),
                    self.inbuf@ == input,
                    skip_spaces(input, i as int) == skip_spaces(input, si as int),
                decreases n - i,
            {
                i = i + 1;
            }
            let j = i;
            while i < n && !is_ws(self.inbuf[i])
                invariant
                    j <= i <= n,
                    n == input.len(),
                    self.wf(),
                    self@ == (VmView { token: self@.token, ..pre }),
                    self.inbuf@ == input,
                    self.tkn@ == input.subrange(j as int, i as int),
                    next_space(input, i as int) == next_space(input, j as int),
                decreases n - i,
            {
                let b = self.inbuf[i];
                self.tkn.push(b);
                i = i + 1;
                proof {
                    assert(self.tkn@ =~= input.subrange(j as int, i as int));
                }
            }
            self.state.source_index = if i < n {
                i + 1
            } else {
                i
            };
        }
        proof {
            assert(self.tkn@ =~= self@.token);
        }
    }

    /// ( char "ccc<char>" -- ) Parse the text up to the delimiter `char`.
    pub fn parse(&mut self)
        requires
            old(self).wf(),
        ensures
            final(self).wf(),
            final(self)@ == old(self)@.parse(),
    {
        let d = self.s_stk.pop();
        self.tkn.clear();
        let si = self.state.source_index;
        let n = self.inbuf.len();
        let ghost pre = self@;
        if si <= n {
            let ghost input = self.inbuf@;
            let mut i = si;
            while i < n && self.inbuf[i] as isize != d
                invariant
                    si <= i <= n,
                    n == input.len(),
                    self.wf(),
                    self@ == (VmView { token: self@.token, ..pre }),
                    self.inbuf@ == input,
                    self.tkn@ == input.subrange(si as int, i as int),
                    next_delimiter(input, i as int, d) == next_delimiter(input, si as int, d),
                decreases n - i,
            {
                let b = self.inbuf[i];
                self.tkn.push(b);
                i = i + 1;
                proof {
                    assert(self.tkn@ =~= input.subrange(si as int, i as int));
                }
            }
            self.state.source_index = if i < n {
                i + 1
            } else {
                i
            };
        }
        proof {
            assert(self.tkn@ =~= self@.token);
        }
    }

    /// ( "<spaces>name" -- char ) The first byte of the next name.
    pub fn char(&mut self)
        requires
            old(self).wf(),
        ensures
            final(self).wf(),
            final(self)@ == old(self)@.char(),
    {
        self.parse_word();
        if self.tkn.len() == 0 {
            self.abort_with(Exception::UnexpectedEndOfFile);
        } else {
            let c = self.tkn[0];
            self.s_stk.push(c as isize);
        }
    }

    /// `[char]`: compile the first byte of the next name as a literal.
    pub fn bracket_char(&mut self)
        requires
            old(self).wf(),
        ensures
            final(self).wf(),
            final(self)@ == old(self)@.bracket_char(),
    {
        self.char();
        if self.last_error.is_some() {
            return;
        }
        let ch = self.s_stk.pop();
        self.compile_integer(ch);
    }

    /// `(`: skip a comment up to `)`.
    pub fn imm_paren(&mut self)
        requires
            old(self).wf(),
        ensures
            final(self).wf(),
            final(self)@ == old(self)@.imm_paren(),
    {
        self.s_stk.push(41);
        self.parse();
    }

    /// `\`: skip the rest of the input.
    pub fn imm_backslash(&mut self)
        requires
            old(self).wf(),
        ensures
            final(self).wf(),
            final(self)@ == old(self)@.imm_backslash(),
    {
        self.state.source_index = self.inbuf.len();
    }

    /// `.(`: display the text up to `)`.
    pub fn dot_paren(&mut self)
        requires
            old(self).wf(),
        ensures
            final(self).wf(),
            final(self)@ == old(self)@.dot_paren(),
    {
        self.s_stk.push(41);
        self.parse();
        push_bytes(&mut self.outbuf, self.tkn.as_slice());
    }

    /// The last visible word named `name`, up to ASCII case.
    pub fn find(&self, name: &str) -> (r: Option<usize>)
        ensures
            r == self@.find(name.spec_bytes()),
            r matches Some(i) ==> i < self@.words.len(),
    {
        self.find_bytes(name.as_bytes())
    }

    /// The last visible word whose name is the bytes `name`, up to ASCII
    /// case.
    pub fn find_bytes(&self, name: &[u8]) -> (r: Option<usize>)
        ensures
            r == self@.find(name@),
            r matches Some(i) ==> i < self@.words.len(),
    {
        let mut n = self.wordlist.len();
        while n > 0
            invariant
                n <= self.wordlist@.len(),
                self@.find(name@) == self@.find_below(name@, n as int),
            decreases n,
        {
            let w = &self.wordlist[n - 1];
            let id = w.symbol.id;
            if !w.hidden && id < self.symbols.len() {
                let found = eq_ignore_ascii_case(self.symbols[id].as_slice(), name);
                proof {
                    assert(self.symbols[id as int]@ == self@.symbols[id as int]);
                }
                if found {
                    return Some(n - 1);
                }
            }
            n = n - 1;
        }
        None
    }

    /// Apply the value of a numeric literal.
    fn apply_integer(&mut self, r: Result<isize, Exception>)
        requires
            old(self).wf(),
        ensures
            final(self).wf(),
            final(self)@ == old(self)@.apply_integer(r),
    {
        match r {
            Ok(n) => {
                if self.state.is_compiling {
                    self.compile_integer(n);
                } else {
                    self.s_stk.push(n);
                }
            },
            Err(e) => {
                self.last_error = Some(e);
            },
        }
    }

    /// The number in the `BASE` variable.
    fn base_value(&self) -> (r: isize)
        requires
            self.wf(),
        ensures
            r == self@.base_value(),
    {
        let base_addr = self.data_space.system_variables().base_addr();
        self.data_space.get_isize(base_addr)
    }

    /// Evaluate `token` as an integer literal in the current base.
    pub fn evaluate_integer(&mut self, token: &[u8])
        requires
            old(self).wf(),
        ensures
            final(self).wf(),
            final(self)@ == old(self)@.evaluate_integer(token@),
    {
        let base = self.base_value();
        let r = integer_token(token, base);
        self.apply_integer(r);
    }

    /// Evaluate `token` as a floating-point literal.
    pub fn evaluate_float(&mut self, token: &[u8])
        requires
            old(self).wf(),
        ensures
            final(self).wf(),
            final(self)@ == old(self)@.evaluate_float(token@),
    {
        match float_parts(token) {
            Err(e) => {
                self.last_error = Some(e);
            },
            Ok(parts) => {
                if self.references.idx_flit == 0 {
                    self.last_error = Some(Exception::UnsupportedOperation);
                } else if self.state.is_compiling {
                    self.request = Some(Request::CompileFloat(parts));
                } else {
                    self.request = Some(Request::FloatLiteral(parts));
                }
            },
        }
    }

    /// The token is no word: evaluate it as a number, or display it and
    /// abort.
    fn evaluate_literal(&mut self)
        requires
            old(self).wf(),
        ensures
            final(self).wf(),
            final(self)@ == old(self)@.evaluate_literal(),
    {
        self.last_error = None;
        let base = self.base_value();
        let r = integer_token(self.tkn.as_slice(), base);
        self.apply_integer(r);
        if self.last_error.is_none() {
            return;
        }
        self.last_error = None;
        match float_parts(self.tkn.as_slice()) {
            Err(e) => {
                self.last_error = Some(e);
            },
            Ok(parts) => {
                if self.references.idx_flit == 0 {
                    self.last_error = Some(Exception::UnsupportedOperation);
                } else if self.state.is_compiling {
                    self.request = Some(Request::CompileFloat(parts));
                } else {
                    self.request = Some(Request::FloatLiteral(parts));
                }
            },
        }
        if self.last_error.is_none() {
            return;
        }
        push_bytes(&mut self.outbuf, self.tkn.as_slice());
        self.outbuf.push(32u8);
        self.abort_with(Exception::UndefinedWord);
    }

    /// Compile word `i` as its compilation semantics says.
    pub fn compile_semantics(&mut self, i: usize)
        requires
            old(self).wf(),
        ensures
            final(self).wf(),
            final(self)@ == old(self)@.compile_semantics(i),
    {
        if i >= self.wordlist.len() {
            self.abort_with(Exception::UndefinedWord);
        } else {
            match self.wordlist[i].compilation_semantics {
                Compilation::Word => self.compile_word(i),
                Compilation::Leave => self.compile_leave(i),
            }
        }
    }

    /// Interpret the token, leaving the word it names pending.
    pub fn interpret_token_next(&mut self)
        requires
            old(self).wf(),
        ensures
            final(self).wf(),
            final(self)@ == old(self)@.interpret_token(),
    {
        match self.find_bytes(self.tkn.as_slice()) {
            Some(i) => {
                if self.wordlist[i].is_compile_only {
                    self.abort_with(Exception::InterpretingACompileOnlyWord);
                } else {
                    self.pending_xt = Some(i);
                }
            },
            None => self.evaluate_literal(),
        }
    }

    /// Compile the token, leaving an immediate word it names pending.
    pub fn compile_token_next(&mut self)
        requires
            old(self).wf(),
        ensures
            final(self).wf(),
            final(self)@ == old(self)@.compile_token(),
    {
        match self.find_bytes(self.tkn.as_slice()) {
            Some(i) => {
                if self.wordlist[i].is_immediate {
                    self.pending_xt = Some(i);
                } else {
                    self.compile_semantics(i);
                }
            },
            None => self.evaluate_literal(),
        }
    }
}

/// A white-space byte.
fn is_ws(b: u8) -> (r: bool)
    ensures
        r == is_space(b),
{
    b == 9 || b == 10 || b == 13 || b == 32
}

} // verus!
