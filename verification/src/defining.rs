//! Defining words: the word list grows by a name, an action and a data
//! field; colon definitions, variables, constants, markers and strings.

use vstd::prelude::*;
use vstd::string::StringSliceAdditionalSpecFns;

use crate::exception::Exception;
use crate::kernel::Symbol;
use crate::memory::{aligned_to, write_bytes, CELL};
use crate::memory_words::push_bytes;
use crate::outer::{lower, lower_bytes, next_delimiter, to_lower};
use crate::vm::{Action, Compilation, VmView, Word, VM};

verus! {

impl VmView {
    /// The data-space pointer after `align`.
    pub open spec fn aligned_here(self) -> nat {
        if aligned_to(self.here as int, CELL as int) <= self.mem.len() {
            aligned_to(self.here as int, CELL as int) as nat
        } else {
            self.here
        }
    }

    /// The code-space pointer after its alignment to 4 bytes.
    pub open spec fn aligned_code_here(self) -> usize {
        if self.code_here + 3 <= usize::MAX {
            ((self.code_here + 3) / 4 * 4) as usize
        } else {
            self.code_here
        }
    }

    /// The data-space pointer aligned.
    pub open spec fn align_here(self) -> VmView {
        VmView { here: self.aligned_here(), ..self }
    }

    /// A new visible word named `name`, whose data field starts at the
    /// aligned data-space pointer; it becomes the last definition.
    pub open spec fn add_word(self, name: Seq<u8>, action: Action, cs: Compilation) -> VmView {
        let here = self.aligned_here();
        let code_here = self.aligned_code_here();
        VmView {
            symbols: self.symbols.push(name),
            here,
            code_here,
            last_definition: self.words.len() as usize,
            words: self.words.push(
                Word {
                    symbol: Symbol { id: self.symbols.len() as usize },
                    is_immediate: false,
                    is_compile_only: false,
                    hidden: false,
                    dfa: here as usize,
                    cfa: code_here,
                    action,
                    compilation_semantics: cs,
                    min_execution_time: 0,
                    max_execution_time: 0,
                },
            ),
            ..self
        }
    }

    /// Word `i` with its flags changed.
    pub open spec fn set_flags(self, i: usize, immediate: bool, compile_only: bool) -> VmView {
        VmView {
            words: self.words.update(
                i as int,
                Word { is_immediate: immediate, is_compile_only: compile_only, ..self.words[i as int] },
            ),
            ..self
        }
    }

    /// A primitive word named `name`.
    pub open spec fn prim(self, name: &str, action: Action) -> VmView {
        self.add_word(name.spec_bytes(), action, Compilation::Word)
    }

    /// An immediate word named `name`.
    pub open spec fn immediate(self, name: &str, action: Action) -> VmView {
        self.prim(name, action).set_flags(self.words.len() as usize, true, false)
    }

    /// A compile-only word named `name`.
    pub open spec fn compile_only(self, name: &str, action: Action) -> VmView {
        self.prim(name, action).set_flags(self.words.len() as usize, false, true)
    }

    /// An immediate and compile-only word named `name`.
    pub open spec fn immediate_compile_only(self, name: &str, action: Action) -> VmView {
        self.prim(name, action).set_flags(self.words.len() as usize, true, true)
    }

    /// Word `i` hidden from the search, or shown again.
    pub open spec fn set_hidden(self, i: usize, hidden: bool) -> VmView {
        VmView { words: self.words.update(i as int, Word { hidden, ..self.words[i as int] }), ..self }
    }

    /// Parse a name and define a word by it: the name is folded to lower
    /// case, a name that is already defined is reported, and a missing name
    /// aborts with `UnexpectedEndOfFile`.
    pub open spec fn define(self, action: Action, cs: Compilation) -> VmView {
        let v = self.parse_word();
        let name = lower_bytes(v.token);
        let v1 = VmView { token: name, ..v };
        let v2 = if v1.find(name) is Some {
            VmView { output: v1.output + "Redefining ".spec_bytes() + name, ..v1 }
        } else {
            v1
        };
        if name.len() == 0 {
            VmView { last_definition: 0, ..v2 }.abort_with(Exception::UnexpectedEndOfFile)
        } else {
            v2.add_word(name, action, cs)
        }
    }

    /// Lay down the 32-bit field `x`, or abort with `DictionaryOverflow`.
    pub open spec fn compile_value(self, x: i32) -> VmView {
        if self.room(4) {
            self.comp(x as u32)
        } else {
            self.abort_with(Exception::DictionaryOverflow)
        }
    }

    /// `:`: start a colon definition, hidden until it is complete.
    pub open spec fn colon(self) -> VmView {
        let v = self.define(Action::Nest, Compilation::Word);
        if v.error is None && v.last_definition < v.words.len() {
            v.set_hidden(v.last_definition, true).right_bracket()
        } else {
            v
        }
    }

    /// `;`: end the colon definition with `exit` and show it.
    pub open spec fn semicolon(self) -> VmView {
        let v = if self.last_definition != 0 {
            if self.c.len != 0 {
                self.abort_with(Exception::ControlStructureMismatch)
            } else {
                let w = self.compile_semantics(self.refs.idx_exit);
                if w.last_definition < w.words.len() {
                    w.set_hidden(w.last_definition, false)
                } else {
                    w
                }
            }
        } else {
            self
        };
        v.left_bracket()
    }

    /// `create`: a word that pushes the address of its data field.
    pub open spec fn create(self) -> VmView {
        self.define(Action::Var, Compilation::Word)
    }

    /// `variable`: a word with a zeroed 32-bit data field.
    pub open spec fn variable(self) -> VmView {
        let v = self.define(Action::Var, Compilation::Word);
        if v.error is None {
            v.compile_value(0)
        } else {
            v
        }
    }

    /// ( x -- ) `constant`: a word that pushes `x`.
    pub open spec fn constant(self) -> VmView {
        let x = self.s.peek(1);
        let v = self.with_s(self.s.drop_n(1)).define(Action::Const, Compilation::Word);
        if v.error is None {
            v.compile_value(x as i32)
        } else {
            v
        }
    }

    /// `marker`: a word that forgets itself and everything after it.
    pub open spec fn marker(self) -> VmView {
        self.define(Action::Unmark, Compilation::Word)
    }

    /// ( "<spaces>name" -- xt ) The index of the word named `name`.
    pub open spec fn tick(self) -> VmView {
        let v = self.parse_word();
        if v.token.len() == 0 {
            v.abort_with(Exception::UnexpectedEndOfFile)
        } else {
            match v.find(v.token) {
                Some(i) => v.with_s(v.s.push(i as isize)),
                None => v.abort_with(Exception::UndefinedWord),
            }
        }
    }

    /// The bytes `text` laid down at the data-space pointer.
    pub open spec fn put_text(self, text: Seq<u8>) -> VmView {
        VmView {
            mem: write_bytes(self.mem, self.here as int, text),
            here: self.here + text.len(),
            ..self
        }
    }

    /// The text after `s"` up to the closing `"`, and where parsing goes on.
    pub open spec fn quoted_text(self) -> (Seq<u8>, usize) {
        let len = self.input.len();
        let si = self.state.source_index;
        let start: int = if si <= len {
            si as int
        } else {
            len as int
        };
        let e = next_delimiter(self.input, start, 34);
        (
            self.input.subrange(start, e),
            (if e < len {
                e + 1
            } else {
                len as int
            }) as usize,
        )
    }

    /// `s"`: compile the text up to `"`; at run time it gives its address
    /// and length.
    pub open spec fn s_quote(self) -> VmView {
        let (text, next) = self.quoted_text();
        let v = self.with_source_index(next);
        if v.room(8 + text.len() as int) {
            v.comp(v.refs.idx_s_quote as u32).comp((text.len() as i32) as u32).put_text(
                text,
            ).align_here()
        } else {
            v.abort_with(Exception::DictionaryOverflow)
        }
    }

    /// `."`: compile the text up to `"` and `type` to display it.
    pub open spec fn dot_quote(self) -> VmView {
        self.s_quote().compile_word(self.refs.idx_type)
    }
}

impl VM {
    /// Add a visible word named `name` to the word list.
    pub fn add_word(&mut self, name: Vec<u8>, action: Action, cs: Compilation)
        requires
            old(self).wf(),
        ensures
            final(self).wf(),
            final(self)@ == old(self)@.add_word(name@, action, cs),
            final(self).last_definition == old(self).wordlist@.len(),
    {
        let ghost old_symbols = self.symbols.deep_view();
        let ghost name_view = name@;
        proof {
            assert(name.deep_view() =~= name_view);
        }
        let id = self.symbols.len();
        self.symbols.push(name);
        proof {
            assert(self.symbols.deep_view() =~= old_symbols.push(name_view));
        }
        self.data_space.align();
        let code_here = self.code_space.len();
        if code_here <= usize::MAX - 3 {
            self.code_space.align();
        }
        let word = Word::new(
            Symbol { id },
            action,
            cs,
            self.data_space.here(),
            self.code_space.len(),
        );
        self.last_definition = self.wordlist.len();
        self.wordlist.push(word);
    }

    /// Add a primitive word named `name`.
    pub fn add_primitive(&mut self, name: &str, action: Action)
        requires
            old(self).wf(),
        ensures
            final(self).wf(),
            final(self)@ == old(self)@.prim(name, action),
            final(self).last_definition == old(self).wordlist@.len(),
    {
        let mut v: Vec<u8> = Vec::new();
        push_bytes(&mut v, name.as_bytes());
        self.add_word(v, action, Compilation::Word);
    }

    /// Add an immediate word named `name`.
    pub fn add_immediate(&mut self, name: &str, action: Action)
        requires
            old(self).wf(),
        ensures
            final(self).wf(),
            final(self)@ == old(self)@.immediate(name, action),
    {
        self.add_primitive(name, action);
        let def = self.last_definition;
        let mut w = self.wordlist[def];
        w.is_immediate = true;
        self.wordlist.set(def, w);
    }

    /// Add a compile-only word named `name`.
    pub fn add_compile_only(&mut self, name: &str, action: Action)
        requires
            old(self).wf(),
        ensures
            final(self).wf(),
            final(self)@ == old(self)@.compile_only(name, action),
    {
        self.add_primitive(name, action);
        let def = self.last_definition;
        let mut w = self.wordlist[def];
        w.is_compile_only = true;
        self.wordlist.set(def, w);
    }

    /// Add an immediate and compile-only word named `name`.
    pub fn add_immediate_and_compile_only(&mut self, name: &str, action: Action)
        requires
            old(self).wf(),
        ensures
            final(self).wf(),
            final(self)@ == old(self)@.immediate_compile_only(name, action),
    {
        self.add_primitive(name, action);
        let def = self.last_definition;
        let mut w = self.wordlist[def];
        w.is_immediate = true;
        w.is_compile_only = true;
        self.wordlist.set(def, w);
    }

    /// Parse a name and define a word by it.
    pub fn define(&mut self, action: Action, cs: Compilation)
        requires
            old(self).wf(),
        ensures
            final(self).wf(),
            final(self)@ == old(self)@.define(action, cs),
    {
        self.parse_word();
        let ghost pre = self@;
        let n = self.tkn.len();
        let mut i: usize = 0;
        while i < n
            invariant
                i <= n,
                n == pre.token.len(),
                self.wf(),
                self@ == (VmView { token: self@.token, ..pre }),
                self.tkn@.len() == n,
                forall|k: int| 0 <= k < i ==> #[trigger] self.tkn@[k] == to_lower(pre.token[k]),
                forall|k: int| i <= k < n ==> #[trigger] self.tkn@[k] == pre.token[k],
            decreases n - i,
        {
            let b = self.tkn[i];
            self.tkn.set(i, lower(b));
            i = i + 1;
        }
        proof {
            assert(self.tkn@ =~= lower_bytes(pre.token));
        }
        if self.find_bytes(self.tkn.as_slice()).is_some() {
            push_bytes(&mut self.outbuf, "Redefining ".as_bytes());
            push_bytes(&mut self.outbuf, self.tkn.as_slice());
        }
        if self.tkn.len() == 0 {
            self.last_definition = 0;
            self.abort_with(Exception::UnexpectedEndOfFile);
        } else {
            let mut name: Vec<u8> = Vec::new();
            push_bytes(&mut name, self.tkn.as_slice());
            self.add_word(name, action, cs);
        }
    }

    /// Lay down the 32-bit field `x`, or abort with `DictionaryOverflow`.
    pub fn compile_value(&mut self, x: i32)
        requires
            old(self).wf(),
        ensures
            final(self).wf(),
            final(self)@ == old(self)@.compile_value(x),
    {
        let here = self.data_space.here();
        if 4 <= self.data_space.capacity() - here {
            self.data_space.compile_i32(x);
        } else {
            self.abort_with(Exception::DictionaryOverflow);
        }
    }

    /// `:`
    pub fn colon(&mut self)
        requires
            old(self).wf(),
        ensures
            final(self).wf(),
            final(self)@ == old(self)@.colon(),
    {
        self.define(Action::Nest, Compilation::Word);
        let def = self.last_definition;
        if self.last_error.is_none() && def < self.wordlist.len() {
            let mut w = self.wordlist[def];
            w.hidden = true;
            self.wordlist.set(def, w);
            self.right_bracket();
        }
    }

    /// `;`
    pub fn semicolon(&mut self)
        requires
            old(self).wf(),
        ensures
            final(self).wf(),
            final(self)@ == old(self)@.semicolon(),
    {
        if self.last_definition != 0 {
            if self.c_stk.len != 0 {
                self.abort_with(Exception::ControlStructureMismatch);
            } else {
                let idx = self.references.idx_exit;
                self.compile_semantics(idx);
                let def = self.last_definition;
                if def < self.wordlist.len() {
                    let mut w = self.wordlist[def];
                    w.hidden = false;
                    self.wordlist.set(def, w);
                }
            }
        }
        self.left_bracket();
    }

    /// `create`
    pub fn create(&mut self)
        requires
            old(self).wf(),
        ensures
            final(self).wf(),
            final(self)@ == old(self)@.create(),
    {
        self.define(Action::Var, Compilation::Word);
    }

    /// `variable`
    pub fn variable(&mut self)
        requires
            old(self).wf(),
        ensures
            final(self).wf(),
            final(self)@ == old(self)@.variable(),
    {
        self.define(Action::Var, Compilation::Word);
        if self.last_error.is_none() {
            self.compile_value(0);
        }
    }

    /// ( x -- ) `constant`
    pub fn constant(&mut self)
        requires
            old(self).wf(),
        ensures
            final(self).wf(),
            final(self)@ == old(self)@.constant(),
    {
        let x = self.s_stk.pop();
        self.define(Action::Const, Compilation::Word);
        if self.last_error.is_none() {
            self.compile_value(x as i32);
        }
    }

    /// `marker`
    pub fn marker(&mut self)
        requires
            old(self).wf(),
        ensures
            final(self).wf(),
            final(self)@ == old(self)@.marker(),
    {
        self.define(Action::Unmark, Compilation::Word);
    }

    /// ( "<spaces>name" -- xt ) `'`
    pub fn tick(&mut self)
        requires
            old(self).wf(),
        ensures
            final(self).wf(),
            final(self)@ == old(self)@.tick(),
    {
        self.parse_word();
        if self.tkn.len() == 0 {
            self.abort_with(Exception::UnexpectedEndOfFile);
        } else {
            match self.find_bytes(self.tkn.as_slice()) {
                Some(i) => {
                    self.s_stk.push(i as isize);
                },
                None => {
                    self.abort_with(Exception::UndefinedWord);
                },
            }
        }
    }

    /// `s"`
    pub fn s_quote(&mut self)
        requires
            old(self).wf(),
        ensures
            final(self).wf(),
            final(self)@ == old(self)@.s_quote(),
    {
        let len = self.inbuf.len();
        let si = self.state.source_index;
        let start = if si <= len {
            si
        } else {
            len
        };
        let ghost input = self.inbuf@;
        let mut e = start;
        while e < len && self.inbuf[e] != 34u8
            invariant
                start <= e <= len,
                len == input.len(),
                self.inbuf@ == input,
                next_delimiter(input, e as int, 34) == next_delimiter(input, start as int, 34),
            decreases len - e,
        {
            e = e + 1;
        }
        self.state.source_index = if e < len {
            e + 1
        } else {
            len
        };
        let count = e - start;
        let here = self.data_space.here();
        let cap = self.data_space.capacity();
        if cap - here < 8 || count > cap - here - 8 {
            self.abort_with(Exception::DictionaryOverflow);
            return;
        }
        let idx = self.references.idx_s_quote;
        self.data_space.compile_u32(idx as u32);
        self.data_space.compile_u32((count as i32) as u32);
        let ghost m1 = self.data_space.mem();
        let ghost h1 = self.data_space.here_pos();
        let ghost pre = self@;
        let ghost text = input.subrange(start as int, e as int);
        let mut k: usize = start;
        while k < e
            invariant
                start <= k <= e <= len,
                len == input.len(),
                self.inbuf@ == input,
                text == input.subrange(start as int, e as int),
                self.wf(),
                self@ == (VmView { mem: self@.mem, here: self@.here, ..pre }),
                self.data_space.mem().len() == m1.len(),
                h1 + (e - start) <= m1.len(),
                self.data_space.here_pos() == h1 + (k - start),
                self.data_space.mem() =~= m1.subrange(0, h1 as int) + text.take(k - start)
                    + m1.subrange(h1 + (k - start), m1.len() as int),
            decreases e - k,
        {
            let b = self.inbuf[k];
            self.data_space.compile_u8(b);
            proof {
                assert(text.take(k + 1 - start) =~= text.take(k - start).push(b));
            }
            k = k + 1;
        }
        proof {
            assert(text.take(e - start) =~= text);
        }
        self.data_space.align();
    }

    /// `."`
    pub fn dot_quote(&mut self)
        requires
            old(self).wf(),
        ensures
            final(self).wf(),
            final(self)@ == old(self)@.dot_quote(),
    {
        self.s_quote();
        let idx = self.references.idx_type;
        self.compile_word(idx);
    }
}

} // verus!
