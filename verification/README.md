# rtforth

A Forth virtual machine whose behaviour is stated and proved with Verus.

Every word of the machine is a spec function on `VmView`, the abstract
state (stacks, data space, word list, input and output), and the executable
code is proved to compute exactly that function. The inner interpreter
(`run`), the outer interpreter (`evaluate`) and the dispatcher (`act`) are
proved against recursive specifications built from those functions.

Layout of `src/`:

- `exception.rs`: the Forth exception codes and their descriptions.
- `parser.rs`: numeric literals (sign, base prefix, digits, fractions).
- `kernel.rs`: the wrapping 256-cell stacks, control-flow markers, state.
- `memory.rs`, `codespace.rs`, `jitmem.rs`: data space, code space and a
  word memory, byte-addressed, with read-after-write lemmas.
- `vm.rs`: the machine, its view and its actions.
- `stack_words.rs`, `memory_words.rs`, `control.rs`, `compiler.rs`,
  `outer.rs`, `defining.rs`, `tools.rs`: the words.
- `interp.rs`: dispatch, the inner and outer interpreters.
- `dictionary.rs`: the word list of a new machine and `VM::new`.
- `facility.rs`: the words that need the clock or the output device; they
  raise a request that the program around the machine completes before it
  calls `resume`. The program's own words (`bye`, `accept`, the float
  words) use the same requests, and so do float literals and `(xtime)`.
- `float_data.rs`: the floating-point words that concern data space
  (`float+`, `floats`, `faligned`, `falign`, `f@`, `f!`, `fconstant`); floats
  are held there as bit patterns, and the float stack is the program's.
- `laws.rs`: properties that relate several words.
- `stack_laws.rs`: what a run of pushes and pops does to a stack's depth
  and canaries.
- `format.rs`, `loader.rs`, `term.rs`, `arith.rs`, `threading.rs`: helpers.

`app/` holds the interactive interpreter `rtf`: argument handling, loading
files, serving the machine's requests (the clock, printing, `bye`,
`accept`), the floating-point and units words on a float stack of its own,
and the terminal.
