//! Words that need the world outside the machine: the clock, the output
//! device, the end of the program, and the words of the program's own
//! word set.
//!
//! Such a word raises a `Request` and the interpreters stop; the program
//! around the machine does the work, completes the request, and calls
//! `resume`.

use vstd::prelude::*;

use crate::vm::{Request, VmView, VM};

verus! {

/// The two cells `ntime` and `utime` push for the time `t`: the low and the
/// high part of a double number.
pub open spec fn time_cells(t: u64) -> (isize, isize) {
    if t > usize::MAX {
        let m: int = usize::MAX as int + 1;
        ((t as int % m) as isize, (t as int / m) as isize)
    } else {
        (t as isize, 0)
    }
}

/// The high-resolution clock of the machine, in nanoseconds since some
/// epoch.
///
/// Calls `time::precise_time_ns`. Nothing is promised of the value, which
/// depends on the clock; on some targets without a clock the call panics.
#[verifier::external_body]
fn precise_time_ns() -> (r: u64) {
    time::precise_time_ns()
}

impl VmView {
    /// ( -- ud ) `ntime`: ask for the time in nanoseconds.
    pub open spec fn ntime(self) -> VmView {
        VmView { request: Some(Request::Time { micros: false }), ..self }
    }

    /// ( -- ud ) `utime`: ask for the time in microseconds.
    pub open spec fn utime(self) -> VmView {
        VmView { request: Some(Request::Time { micros: true }), ..self }
    }

    /// `flush-output`: ask for the output to be printed, if there is any.
    pub open spec fn flush_output(self) -> VmView {
        if self.output.len() > 0 {
            VmView { request: Some(Request::FlushOutput), ..self }
        } else {
            self
        }
    }

    /// `flush-to-err`: ask for the output to be printed on the error
    /// stream.
    pub open spec fn flush_to_err(self) -> VmView {
        VmView { request: Some(Request::FlushToErr), ..self }
    }

    /// `bye`: ask for the program to end.
    pub open spec fn bye(self) -> VmView {
        VmView { request: Some(Request::Bye), ..self }
    }

    /// A word of the program's own word set: ask the program to do the
    /// work of its word number `n`.
    pub open spec fn host(self, n: u16) -> VmView {
        VmView { request: Some(Request::Host(n)), ..self }
    }

    /// The clock read `t` nanoseconds: a pending time request pushes the
    /// time in the unit it asked for, as a double number; a pending
    /// request of `(xtime)` records the execution time, in microseconds.
    pub open spec fn complete_time(self, t: u64) -> VmView {
        match self.request {
            Some(Request::Time { micros }) => {
                let (lo, hi) = time_cells(
                    if micros {
                        t / 1000
                    } else {
                        t
                    },
                );
                VmView { s: self.s.push(lo).push(hi), request: None, ..self }
            },
            Some(Request::ExecutionTime) => self.record_execution_time(t / 1000),
            _ => self,
        }
    }

    /// The program pushed the floating-point number it was asked for: a
    /// pending request to push one is cleared.
    pub open spec fn complete_float(self) -> VmView {
        match self.request {
            Some(Request::PushFloat(_)) | Some(Request::FloatLiteral(_)) => VmView { request: None, ..self },
            _ => self,
        }
    }

    /// The program did the work of its word: a pending request for it is
    /// cleared.
    pub open spec fn complete_host(self) -> VmView {
        match self.request {
            Some(Request::Host(_)) => VmView { request: None, ..self },
            _ => self,
        }
    }

    /// The output was printed: a pending flush empties it.
    pub open spec fn complete_flush(self) -> VmView {
        match self.request {
            Some(Request::FlushOutput) | Some(Request::FlushToErr) => VmView {
                output: Seq::empty(),
                request: None,
                ..self
            },
            _ => self,
        }
    }
}

impl VM {
    /// ( -- ud ) `ntime`: ask for the time in nanoseconds.
    pub fn ntime(&mut self)
        requires
            old(self).wf(),
        ensures
            final(self).wf(),
            final(self)@ == old(self)@.ntime(),
    {
        self.request = Some(Request::Time { micros: false });
    }

    /// ( -- ud ) `utime`: ask for the time in microseconds.
    pub fn utime(&mut self)
        requires
            old(self).wf(),
        ensures
            final(self).wf(),
            final(self)@ == old(self)@.utime(),
    {
        self.request = Some(Request::Time { micros: true });
    }

    /// `flush-output`: ask for the output to be printed, if there is any.
    pub fn flush_output(&mut self)
        requires
            old(self).wf(),
        ensures
            final(self).wf(),
            final(self)@ == old(self)@.flush_output(),
    {
        if self.outbuf.len() > 0 {
            self.request = Some(Request::FlushOutput);
        }
    }

    /// `flush-to-err`: ask for the output to be printed on the error
    /// stream.
    pub fn flush_to_err(&mut self)
        requires
            old(self).wf(),
        ensures
            final(self).wf(),
            final(self)@ == old(self)@.flush_to_err(),
    {
        self.request = Some(Request::FlushToErr);
    }

    /// `bye`: ask for the program to end. The word is not in the word list
    /// of a new machine: a program that can end adds it.
    pub fn bye(&mut self)
        requires
            old(self).wf(),
        ensures
            final(self).wf(),
            final(self)@ == old(self)@.bye(),
    {
        self.request = Some(Request::Bye);
    }

    /// A word of the program's own word set: ask the program to do the
    /// work of its word number `n`. The program does it, clears the
    /// request with `complete_host`, and resumes the machine.
    pub fn host(&mut self, n: u16)
        requires
            old(self).wf(),
        ensures
            final(self).wf(),
            final(self)@ == old(self)@.host(n),
    {
        self.request = Some(Request::Host(n));
    }

    /// The program pushed the floating-point number it was asked for.
    pub fn complete_float(&mut self)
        requires
            old(self).wf(),
        ensures
            final(self).wf(),
            final(self)@ == old(self)@.complete_float(),
    {
        match self.request {
            Some(Request::PushFloat(_)) | Some(Request::FloatLiteral(_)) => {
                self.request = None;
            },
            _ => {},
        }
    }

    /// The program did the work of the word it was asked for.
    pub fn complete_host(&mut self)
        requires
            old(self).wf(),
        ensures
            final(self).wf(),
            final(self)@ == old(self)@.complete_host(),
    {
        if let Some(Request::Host(_)) = self.request {
            self.request = None;
        }
    }

    /// Complete a time request with the clock reading `t`, in nanoseconds.
    pub fn complete_time(&mut self, t: u64)
        requires
            old(self).wf(),
        ensures
            final(self).wf(),
            final(self)@ == old(self)@.complete_time(t),
    {
        match self.request {
            Some(Request::Time { micros }) => {
                let v = if micros {
                    t / 1000
                } else {
                    t
                };
                if v > usize::MAX as u64 {
                    let m: u64 = usize::MAX as u64 + 1;
                    self.s_stk.push((v % m) as isize);
                    self.s_stk.push((v / m) as isize);
                } else {
                    self.s_stk.push(v as isize);
                    self.s_stk.push(0);
                }
                self.request = None;
            },
            Some(Request::ExecutionTime) => {
                self.record_execution_time(t / 1000);
            },
            _ => {},
        }
    }

    /// Complete a time request by reading the clock.
    pub fn serve_time(&mut self)
        requires
            old(self).wf(),
        ensures
            final(self).wf(),
            exists|t: u64| #[trigger] old(self)@.complete_time(t) == final(self)@,
    {
        let t = precise_time_ns();
        self.complete_time(t);
    }

    /// Complete a flush request: the output was printed.
    pub fn complete_flush(&mut self)
        requires
            old(self).wf(),
        ensures
            final(self).wf(),
            final(self)@ == old(self)@.complete_flush(),
    {
        match self.request {
            Some(Request::FlushOutput) | Some(Request::FlushToErr) => {
                self.outbuf.clear();
                self.request = None;
            },
            _ => {},
        }
    }
}

} // verus!
