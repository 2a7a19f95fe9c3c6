//! Clearing the stack frames, and the printed form of an operand stack.

use vstd::prelude::*;
use vstd::string::*;
use crate::runtime::error::RuntimeError;
use crate::runtime::machine::{
    Runtime, RuntimeModel, rt_decref, rt_decref_all, rt_get, rt_new_frame, rt_pop_frame, rt_print, rt_wf,
};
use crate::runtime::namespace::MemoryAddress;
use crate::runtime::object::{PyObjectStructure, StructureModel, data_text};
use crate::text::{concatenate, int_text, int_to_string};

verus! {

/// At most `n` frames removed, the last first, each as `rt_pop_frame` removes
/// one, stopping at the first error.
pub open spec fn rt_pop_frames(s: RuntimeModel, n: nat) -> (RuntimeModel, Result<(), RuntimeError>)
    decreases n,
{
    if n == 0 || s.frames.len() == 0 {
        (s, Ok(()))
    } else {
        let (s1, r1) = rt_pop_frame(s);
        match r1 {
            Err(e) => (s1, Err(e)),
            Ok(_) => rt_pop_frames(s1, (n - 1) as nat),
        }
    }
}

/// Every frame removed as `rt_pop_frames` removes them, then one new empty frame.
pub open spec fn rt_clear_stacks(s: RuntimeModel) -> (RuntimeModel, Result<(), RuntimeError>) {
    let (s1, r1) = rt_pop_frames(s, s.frames.len());
    match r1 {
        Err(e) => (s1, Err(e)),
        Ok(_) => (rt_new_frame(s1), Ok(())),
    }
}

/// How one operand stack entry is printed: a builtin object's data and its
/// address, or a placeholder for any other object.
pub open spec fn stack_entry_text(s: RuntimeModel, a: MemoryAddress) -> Result<Seq<char>, RuntimeError> {
    match rt_get(s, a) {
        None => Err(RuntimeError::InvalidAddress(a)),
        Some(obj) => match obj.structure {
            StructureModel::Object { raw, .. } => Ok(data_text(raw) + " at "@ + int_text(a as int) + "    "@),
            _ => Ok("[a function]    "@),
        },
    }
}

/// The entries of `stack` printed from its top down.
pub open spec fn stack_entries_text(s: RuntimeModel, stack: Seq<MemoryAddress>) -> Result<Seq<char>, RuntimeError>
    decreases stack.len(),
{
    if stack.len() == 0 {
        Ok(Seq::empty())
    } else {
        match stack_entry_text(s, stack.last()) {
            Err(e) => Err(e),
            Ok(t) => match stack_entries_text(s, stack.drop_last()) {
                Err(e) => Err(e),
                Ok(rest) => Ok(t + rest),
            },
        }
    }
}

/// `prefix` in front of the text of `r`, or the error of `r`.
pub open spec fn after_text(prefix: Seq<char>, r: Result<Seq<char>, RuntimeError>) -> Result<Seq<char>, RuntimeError> {
    match r {
        Ok(t) => Ok(prefix + t),
        Err(e) => Err(e),
    }
}

/// The operand stack of the last frame, printed from its top down.
pub open spec fn rt_stack_text(s: RuntimeModel) -> Result<Seq<char>, RuntimeError> {
    if s.frames.len() == 0 {
        Err(RuntimeError::NoStackFrame)
    } else {
        match stack_entries_text(s, s.frames.last().stack) {
            Err(e) => Err(e),
            Ok(t) => Ok("Stack: ["@ + t + "]"@),
        }
    }
}

/// Taking one reference off objects leaves the frames as they were.
pub proof fn lemma_decref_all_frames(s: RuntimeModel, addrs: Seq<MemoryAddress>)
    ensures
        rt_decref_all(s, addrs).0.frames == s.frames,
    decreases addrs.len(),
{
    if addrs.len() > 0 {
        lemma_decref_all_frames(s, addrs.drop_last());
        let s1 = rt_decref_all(s, addrs.drop_last()).0;
        lemma_decref_frames(s1, addrs.last());
    }
}

pub proof fn lemma_decref_frames(s: RuntimeModel, a: MemoryAddress)
    ensures
        rt_decref(s, a).0.frames == s.frames,
{
}

impl Runtime {
    /// Removes every frame, the last first, taking one reference off each
    /// address left on its operand stack, then starts one new empty frame.
    pub fn clear_stacks(&mut self) -> (r: Result<(), RuntimeError>)
        requires
            rt_wf(old(self)@),
        ensures
            rt_wf(final(self)@),
            (final(self)@, r) == rt_clear_stacks(old(self)@),
    {
        let ghost s0 = self@;
        while self.stack.len() > 0
            invariant
                rt_wf(self@),
                s0 == old(self)@,
                rt_pop_frames(s0, s0.frames.len()) == rt_pop_frames(self@, self@.frames.len()),
            decreases self.stack.len(),
        {
            let ghost before = self@;
            proof {
                let f = before.frames.last();
                let base = RuntimeModel { frames: before.frames.drop_last(), ..before };
                lemma_decref_all_frames(base, f.stack);
            }
            assert(before.frames.len() > 0);
            match self.pop_stack_frame() {
                Err(e) => {
                    return Err(e);
                },
                Ok(()) => {},
            }
        }
        self.new_stack_frame();
        Ok(())
    }

    /// The printed form of one operand stack entry.
    fn stack_entry_string(&self, a: MemoryAddress) -> (r: Result<String, RuntimeError>)
        requires
            rt_wf(self@),
        ensures
            match stack_entry_text(self@, a) {
                Ok(t) => r is Ok && r->Ok_0@ == t,
                Err(e) => r is Err && r->Err_0 == e,
            },
    {
        match self.get_pyobj_byaddr(a) {
            Err(e) => Err(e),
            Ok(obj) => match &obj.structure {
                PyObjectStructure::Object { raw_data, .. } => {
                    let d = raw_data.to_string();
                    let t1 = concatenate(d.as_str(), " at ");
                    let n = int_to_string(a as i128);
                    let t2 = concatenate(t1.as_str(), n.as_str());
                    Ok(concatenate(t2.as_str(), "    "))
                },
                _ => Ok(String::from_str("[a function]    ")),
            },
        }
    }

    /// The operand stack of the last frame, printed from its top down.
    pub fn stack_string(&self) -> (r: Result<String, RuntimeError>)
        requires
            rt_wf(self@),
        ensures
            match rt_stack_text(self@) {
                Ok(t) => r is Ok && r->Ok_0@ == t,
                Err(e) => r is Err && r->Err_0 == e,
            },
    {
        let n = self.stack.len();
        if n == 0 {
            return Err(RuntimeError::NoStackFrame);
        }
        let ghost stack = self@.frames.last().stack;
        let mut acc = String::new();
        let mut i: usize = self.stack[n - 1].stack.len();
        assert(stack.take(i as int) =~= stack);
        assert(acc@ + Seq::<char>::empty() =~= acc@);
        while i > 0
            invariant
                rt_wf(self@),
                n == self.stack@.len(),
                n > 0,
                stack == self@.frames.last().stack,
                stack == self.stack@[n - 1]@.stack,
                i <= stack.len(),
                stack_entries_text(self@, stack) == after_text(acc@, stack_entries_text(self@, stack.take(i as int))),
            decreases i,
        {
            let a = self.stack[n - 1].stack[i - 1];
            assert(stack.take(i as int).last() == a);
            assert(stack.take(i as int).drop_last() =~= stack.take(i - 1));
            match self.stack_entry_string(a) {
                Err(e) => {
                    return Err(e);
                },
                Ok(t) => {
                    let ghost old_acc = acc@;
                    acc = concatenate(acc.as_str(), t.as_str());
                    proof {
                        match stack_entries_text(self@, stack.take(i - 1)) {
                            Ok(rest) => {
                                assert(old_acc + (t@ + rest) =~= acc@ + rest);
                            },
                            Err(_) => {},
                        }
                    }
                    i = i - 1;
                },
            }
        }
        assert(stack.take(0) =~= Seq::<MemoryAddress>::empty());
        assert(acc@ + Seq::<char>::empty() =~= acc@);
        let t1 = concatenate("Stack: [", acc.as_str());
        Ok(concatenate(t1.as_str(), "]"))
    }

    /// Records, as one printed line, the operand stack of the last frame from
    /// its top down.
    pub fn print_stack(&mut self) -> (r: Result<(), RuntimeError>)
        requires
            rt_wf(old(self)@),
        ensures
            match rt_stack_text(old(self)@) {
                Ok(t) => r is Ok && final(self)@ == rt_print(old(self)@, t),
                Err(e) => r is Err && r->Err_0 == e && final(self)@ == old(self)@,
            },
    {
        match self.stack_string() {
            Err(e) => Err(e),
            Ok(t) => {
                self.print(t);
                Ok(())
            },
        }
    }
}

} // verus!
