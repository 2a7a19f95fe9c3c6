//! Calls of function objects: bound (methods) and unbound (functions).

use vstd::prelude::*;
use vstd::string::*;
use crate::runtime::error::RuntimeError;
use crate::runtime::floats::{FloatAnswerModel, FloatHost};
use crate::runtime::functions::rt_function_addr;
use crate::runtime::machine::{
    Runtime, RuntimeModel, rt_alloc, rt_bind_local, rt_get, rt_incref, rt_new_frame, rt_pop_frame, rt_top, rt_type_of,
    rt_wf,
};
use crate::runtime::namespace::MemoryAddress;
use crate::runtime::natives::{method_of_obj, spec_native};
use crate::compiler::{Const, ConstModel, Instruction, InstructionModel, consts_view, copy_consts, copy_instructions, instrs_view};
use crate::instructions::{execute_instructions, run_outcome, spec_run};
use crate::runtime::object::{ObjModel, PyObject, PyObjectStructure, StructureModel, names_view};

verus! {

/// A call of the function object at `f` with `bound` and `args`.
pub open spec fn spec_callable_call(
    s: RuntimeModel,
    f: MemoryAddress,
    bound: Option<MemoryAddress>,
    args: Seq<MemoryAddress>,
    ans: FloatAnswerModel,
) -> (RuntimeModel, Result<MemoryAddress, RuntimeError>) {
    match rt_get(s, f) {
        None => (s, Err(RuntimeError::InvalidAddress(f))),
        Some(obj) => match obj.structure {
            StructureModel::NativeCallable { code, .. } => spec_native(s, code, bound, args, ans),
            _ => (s, Err(RuntimeError::NotCallable(f))),
        },
    }
}

/// A call of the method object at `method` with the object at `bound` bound;
/// the type of the bound object must be a type.
pub open spec fn spec_bounded_call(
    s: RuntimeModel,
    bound: MemoryAddress,
    method: MemoryAddress,
    args: Seq<MemoryAddress>,
    ans: FloatAnswerModel,
) -> (RuntimeModel, Result<MemoryAddress, RuntimeError>) {
    match rt_type_of(s, bound) {
        Err(e) => (s, Err(e)),
        Ok(t) => match rt_get(s, t) {
            None => (s, Err(RuntimeError::InvalidAddress(t))),
            Some(tobj) => match tobj.structure {
                StructureModel::Type { .. } => spec_callable_call(s, method, Some(bound), args, ans),
                _ => (s, Err(RuntimeError::NotAType(t))),
            },
        },
    }
}

/// The method `name` of the object at `addr` called with `args`; `None` when
/// the object's type has no such method.
pub open spec fn spec_call_method(
    s: RuntimeModel,
    addr: MemoryAddress,
    name: Seq<char>,
    args: Seq<MemoryAddress>,
    ans: FloatAnswerModel,
) -> (RuntimeModel, Result<Option<MemoryAddress>, RuntimeError>) {
    match method_of_obj(s, addr, name) {
        Err(e) => (s, Err(e)),
        Ok(None) => (s, Ok(None)),
        Ok(Some(m)) => {
            let (s1, r1) = spec_callable_call(s, m, Some(addr), args, ans);
            match r1 {
                Err(e) => (s1, Err(e)),
                Ok(v) => (s1, Ok(Some(v))),
            }
        },
    }
}

/// The arguments of a call, the bound object first when there is one.
pub open spec fn call_args(bound: Option<MemoryAddress>, args: Seq<MemoryAddress>) -> Seq<MemoryAddress> {
    match bound {
        Some(b) => seq![b] + args,
        None => args,
    }
}

/// Whether `m` arguments fit `n` parameters of which the last `k` have defaults.
pub open spec fn arity_fits(m: nat, n: nat, k: nat) -> bool {
    m <= n && n <= m + k
}

/// The values of the parameters of a call: the arguments, then the defaults of
/// the parameters left over.
pub open spec fn call_values(all: Seq<MemoryAddress>, defaults: Seq<MemoryAddress>, n: nat) -> Seq<MemoryAddress> {
    all + defaults.subrange(all.len() + defaults.len() - n, defaults.len() as int)
}

/// Each parameter bound, in order, to its value in the last frame.
pub open spec fn bind_all(s: RuntimeModel, params: Seq<Seq<char>>, values: Seq<MemoryAddress>) -> RuntimeModel
    decreases params.len(),
{
    if params.len() == 0 || values.len() == 0 {
        s
    } else {
        rt_bind_local(bind_all(s, params.drop_last(), values.drop_last()), params.last(), values.last()).0
    }
}

/// The state in which the body of a user-defined function starts: a new frame
/// holding its parameters, and the program counter at the body's start.
pub open spec fn user_start(
    s: RuntimeModel,
    params: Seq<Seq<char>>,
    defaults: Seq<MemoryAddress>,
    all: Seq<MemoryAddress>,
) -> RuntimeModel {
    RuntimeModel { pc: 0, ..bind_all(rt_new_frame(s), params, call_values(all, defaults, params.len())) }
}

/// The end of running `code` on `s` with the host's answers `answers`: the
/// error of the step that failed, or `OutOfSteps` if the code was not left.
pub open spec fn body_result(
    s: RuntimeModel,
    code: Seq<InstructionModel>,
    consts: Seq<ConstModel>,
    answers: Seq<FloatAnswerModel>,
) -> (RuntimeModel, Result<(), RuntimeError>) {
    let (e, r) = spec_run(s, code, consts, answers);
    match r {
        Err(x) => (e, Err(x)),
        Ok(_) => if e.pc >= code.len() {
            (e, Ok(()))
        } else {
            (e, Err(RuntimeError::OutOfSteps))
        },
    }
}

/// A call of a user-defined function with parameters `params`, the last of
/// which have the defaults `defaults`, on the arguments `all`: the number of
/// arguments must fit; the parameters are bound in a new frame, the body runs
/// from its start, the program counter is put back, and the value on top of
/// the function's stack, counted once more, is its result; the frame is removed.
pub open spec fn spec_run_user(
    s: RuntimeModel,
    code: Seq<InstructionModel>,
    consts: Seq<ConstModel>,
    params: Seq<Seq<char>>,
    defaults: Seq<MemoryAddress>,
    all: Seq<MemoryAddress>,
    answers: Seq<FloatAnswerModel>,
) -> (RuntimeModel, Result<MemoryAddress, RuntimeError>) {
    if !arity_fits(all.len(), params.len(), defaults.len()) {
        (s, Err(RuntimeError::ArgumentCount { expected: params.len() as usize, got: all.len() as usize }))
    } else {
        let (s2, r2) = body_result(user_start(s, params, defaults, all), code, consts, answers);
        let s3 = RuntimeModel { pc: s.pc, ..s2 };
        match r2 {
            Err(e) => (s3, Err(e)),
            Ok(_) => match rt_top(s3) {
                Err(e) => (s3, Err(e)),
                Ok(v) => {
                    let (s4, r4) = rt_incref(s3, v);
                    match r4 {
                        Err(e) => (s4, Err(e)),
                        Ok(_) => {
                            let (s5, r5) = rt_pop_frame(s4);
                            match r5 {
                                Err(e) => (s5, Err(e)),
                                Ok(_) => (s5, Ok(v)),
                            }
                        },
                    }
                },
            },
        }
    }
}

/// Whether `answers` is a run of a user-defined function's body within
/// `max_steps` steps: no longer than that, and as long as that when the body
/// ran out of steps.
pub open spec fn user_budget(
    s: RuntimeModel,
    code: Seq<InstructionModel>,
    consts: Seq<ConstModel>,
    params: Seq<Seq<char>>,
    defaults: Seq<MemoryAddress>,
    all: Seq<MemoryAddress>,
    answers: Seq<FloatAnswerModel>,
    max_steps: nat,
) -> bool {
    arity_fits(all.len(), params.len(), defaults.len()) ==> {
        &&& answers.len() <= max_steps
        &&& ({
            let (e, r) = spec_run(user_start(s, params, defaults, all), code, consts, answers);
            r is Ok && e.pc < code.len() ==> answers.len() == max_steps
        })
    }
}

/// A call of the object at `f` with `bound` and `args`, in a frame of its own:
/// a user-defined function as `spec_run_user` says; otherwise (a native
/// function, or a type through its constructor `__new__`) the frame is pushed,
/// the function runs with the first of `answers`, its result is counted once
/// more so that it outlives the frame, and the frame is removed.
pub open spec fn spec_run_function(
    s: RuntimeModel,
    f: MemoryAddress,
    bound: Option<MemoryAddress>,
    args: Seq<MemoryAddress>,
    answers: Seq<FloatAnswerModel>,
) -> (RuntimeModel, Result<MemoryAddress, RuntimeError>) {
    match rt_get(s, f) {
        Some(obj) => match obj.structure {
            StructureModel::UserDefinedFunction { code, consts, params, defaults, .. } => spec_run_user(
                s,
                code,
                consts,
                params,
                defaults,
                call_args(bound, args),
                answers,
            ),
            _ => spec_run_native(s, f, bound, args, first_answer(answers)),
        },
        None => spec_run_native(s, f, bound, args, first_answer(answers)),
    }
}

/// Whether `answers` fits the budget of `max_steps` steps of a call of `f`.
pub open spec fn run_budget(
    s: RuntimeModel,
    f: MemoryAddress,
    bound: Option<MemoryAddress>,
    args: Seq<MemoryAddress>,
    answers: Seq<FloatAnswerModel>,
    max_steps: nat,
) -> bool {
    match rt_get(s, f) {
        Some(obj) => match obj.structure {
            StructureModel::UserDefinedFunction { code, consts, params, defaults, .. } => user_budget(
                s,
                code,
                consts,
                params,
                defaults,
                call_args(bound, args),
                answers,
                max_steps,
            ),
            _ => true,
        },
        None => true,
    }
}

/// The first of the host's answers, or `Failed` when there is none.
pub open spec fn first_answer(answers: Seq<FloatAnswerModel>) -> FloatAnswerModel {
    if answers.len() > 0 {
        answers[0]
    } else {
        FloatAnswerModel::Failed
    }
}

/// A call of a native function, or of a type through its constructor `__new__`,
/// run in a frame of its own: the frame is pushed, the function runs, its
/// result is counted once more so that it outlives the frame, and the frame is
/// removed.
pub open spec fn spec_run_native(
    s: RuntimeModel,
    f: MemoryAddress,
    bound: Option<MemoryAddress>,
    args: Seq<MemoryAddress>,
    ans: FloatAnswerModel,
) -> (RuntimeModel, Result<MemoryAddress, RuntimeError>) {
    match rt_function_addr(s, f) {
        Err(e) => (s, Err(e)),
        Ok(g) => {
            let (s1, r1) = spec_callable_call(rt_new_frame(s), g, bound, args, ans);
            match r1 {
                Err(e) => (s1, Err(e)),
                Ok(v) => {
                    let (s2, r2) = rt_incref(s1, v);
                    match r2 {
                        Err(e) => (s2, Err(e)),
                        Ok(_) => {
                            let (s3, r3) = rt_pop_frame(s2);
                            match r3 {
                                Err(e) => (s3, Err(e)),
                                Ok(_) => (s3, Ok(v)),
                            }
                        },
                    }
                },
            }
        },
    }
}

/// A copy of a list of names.
fn copy_names(v: &Vec<String>) -> (r: Vec<String>)
    ensures
        names_view(r@) == names_view(v@),
{
    let mut r: Vec<String> = Vec::new();
    let mut i: usize = 0;
    while i < v.len()
        invariant
            i <= v.len(),
            r@.len() == i,
            forall|j: int| 0 <= j < i ==> #[trigger] r@[j]@ == v@[j]@,
        decreases v.len() - i,
    {
        r.push(v[i].clone());
        i = i + 1;
    }
    assert(names_view(r@) =~= names_view(v@));
    r
}

/// A copy of a list of addresses.
fn copy_addresses(v: &Vec<MemoryAddress>) -> (r: Vec<MemoryAddress>)
    ensures
        r@ == v@,
{
    let mut r: Vec<MemoryAddress> = Vec::new();
    let mut i: usize = 0;
    while i < v.len()
        invariant
            i <= v.len(),
            r@ == v@.take(i as int),
        decreases v.len() - i,
    {
        r.push(v[i]);
        i = i + 1;
        assert(r@ =~= v@.take(i as int));
    }
    assert(v@.take(i as int) =~= v@);
    r
}

impl Runtime {
    /// Calls the function object at `callable_addr` with `bound` and `params`.
    pub fn callable_call<H: FloatHost>(
        &mut self,
        callable_addr: MemoryAddress,
        bound: Option<MemoryAddress>,
        params: &Vec<MemoryAddress>,
        host: &H,
    ) -> (r: Result<MemoryAddress, RuntimeError>)
        requires
            rt_wf(old(self)@),
        ensures
            rt_wf(final(self)@),
            exists|ans: FloatAnswerModel|
                (final(self)@, r) == #[trigger] spec_callable_call(old(self)@, callable_addr, bound, params@, ans),
    {
        let code = match self.get_pyobj_byaddr(callable_addr) {
            Err(e) => {
                let r = Err(e);
                assert((self@, r) == spec_callable_call(old(self)@, callable_addr, bound, params@, FloatAnswerModel::Failed));
                return r;
            },
            Ok(obj) => match &obj.structure {
                PyObjectStructure::NativeCallable { code, .. } => *code,
                _ => {
                    let r = Err(RuntimeError::NotCallable(callable_addr));
                    assert((self@, r) == spec_callable_call(old(self)@, callable_addr, bound, params@, FloatAnswerModel::Failed));
                    return r;
                },
            },
        };
        let r = self.call_native(code, bound, params, host);
        let ghost a = choose|ans: FloatAnswerModel| (self@, r) == spec_native(old(self)@, code, bound, params@, ans);
        assert((self@, r) == spec_callable_call(old(self)@, callable_addr, bound, params@, a));
        r
    }

    /// Calls the method object at `method_addr` with the object at `bound_obj_addr` bound.
    pub fn bounded_function_call_byaddr<H: FloatHost>(
        &mut self,
        bound_obj_addr: MemoryAddress,
        method_addr: MemoryAddress,
        params: &Vec<MemoryAddress>,
        host: &H,
    ) -> (r: Result<MemoryAddress, RuntimeError>)
        requires
            rt_wf(old(self)@),
        ensures
            rt_wf(final(self)@),
            exists|ans: FloatAnswerModel|
                (final(self)@, r) == #[trigger] spec_bounded_call(old(self)@, bound_obj_addr, method_addr, params@, ans),
    {
        let t = match self.get_pyobj_type_addr(bound_obj_addr) {
            Err(e) => {
                let r = Err(e);
                assert((self@, r) == spec_bounded_call(old(self)@, bound_obj_addr, method_addr, params@, FloatAnswerModel::Failed));
                return r;
            },
            Ok(t) => t,
        };
        let is_type = match self.get_pyobj_byaddr(t) {
            Err(e) => {
                let r = Err(e);
                assert((self@, r) == spec_bounded_call(old(self)@, bound_obj_addr, method_addr, params@, FloatAnswerModel::Failed));
                return r;
            },
            Ok(tobj) => match &tobj.structure {
                PyObjectStructure::Type { .. } => true,
                _ => false,
            },
        };
        if !is_type {
            let r = Err(RuntimeError::NotAType(t));
            assert((self@, r) == spec_bounded_call(old(self)@, bound_obj_addr, method_addr, params@, FloatAnswerModel::Failed));
            return r;
        }
        let r = self.callable_call(method_addr, Some(bound_obj_addr), params, host);
        let ghost a = choose|ans: FloatAnswerModel|
            (self@, r) == spec_callable_call(old(self)@, method_addr, Some(bound_obj_addr), params@, ans);
        assert((self@, r) == spec_bounded_call(old(self)@, bound_obj_addr, method_addr, params@, a));
        r
    }

    /// Calls the function object at `function_addr` with no bound object.
    pub fn unbounded_function_call_byaddr<H: FloatHost>(
        &mut self,
        function_addr: MemoryAddress,
        params: &Vec<MemoryAddress>,
        host: &H,
    ) -> (r: Result<MemoryAddress, RuntimeError>)
        requires
            rt_wf(old(self)@),
        ensures
            rt_wf(final(self)@),
            exists|ans: FloatAnswerModel|
                (final(self)@, r) == #[trigger] spec_callable_call(old(self)@, function_addr, None, params@, ans),
    {
        self.callable_call(function_addr, None, params, host)
    }

    /// Calls the method `method_name` of the object at `addr` with `params`;
    /// `None` when its type has no such method.
    pub fn call_method<H: FloatHost>(
        &mut self,
        addr: MemoryAddress,
        method_name: &str,
        params: &Vec<MemoryAddress>,
        host: &H,
    ) -> (r: Result<Option<MemoryAddress>, RuntimeError>)
        requires
            rt_wf(old(self)@),
        ensures
            rt_wf(final(self)@),
            exists|ans: FloatAnswerModel|
                (final(self)@, r) == #[trigger] spec_call_method(old(self)@, addr, method_name@, params@, ans),
    {
        match self.method_of_obj(addr, method_name) {
            Err(e) => {
                let r = Err(e);
                assert((self@, r) == spec_call_method(old(self)@, addr, method_name@, params@, FloatAnswerModel::Failed));
                r
            },
            Ok(None) => {
                let r = Ok(None);
                assert((self@, r) == spec_call_method(old(self)@, addr, method_name@, params@, FloatAnswerModel::Failed));
                r
            },
            Ok(Some(m)) => {
                let r1 = self.callable_call(m, Some(addr), params, host);
                let ghost a = choose|ans: FloatAnswerModel|
                    (self@, r1) == spec_callable_call(old(self)@, m, Some(addr), params@, ans);
                let r = match r1 {
                    Err(e) => Err(e),
                    Ok(v) => Ok(Some(v)),
                };
                assert((self@, r) == spec_call_method(old(self)@, addr, method_name@, params@, a));
                r
            },
        }
    }

    /// Calls the native function, or the type through its constructor, at
    /// `function_addr` in a frame of its own.
    fn run_native_function<H: FloatHost>(
        &mut self,
        function_addr: MemoryAddress,
        bound: Option<MemoryAddress>,
        params: &Vec<MemoryAddress>,
        host: &H,
    ) -> (r: Result<MemoryAddress, RuntimeError>)
        requires
            rt_wf(old(self)@),
        ensures
            rt_wf(final(self)@),
            exists|ans: FloatAnswerModel|
                (final(self)@, r) == #[trigger] spec_run_native(old(self)@, function_addr, bound, params@, ans),
    {
        let ghost s0 = self@;
        let g = match self.try_load_function_addr(function_addr) {
            Err(e) => {
                let r = Err(e);
                assert((self@, r) == spec_run_native(s0, function_addr, bound, params@, FloatAnswerModel::Failed));
                return r;
            },
            Ok(g) => g,
        };
        self.new_stack_frame();
        let ghost s1 = self@;
        let called = self.callable_call(g, bound, params, host);
        let ghost a = choose|ans: FloatAnswerModel| (self@, called) == spec_callable_call(s1, g, bound, params@, ans);
        let v = match called {
            Err(e) => {
                let r = Err(e);
                assert((self@, r) == spec_run_native(s0, function_addr, bound, params@, a));
                return r;
            },
            Ok(v) => v,
        };
        let counted = self.increase_refcount(v);
        if let Err(e) = counted {
            let r = Err(e);
            assert((self@, r) == spec_run_native(s0, function_addr, bound, params@, a));
            return r;
        }
        let popped = self.pop_stack_frame();
        let r = match popped {
            Err(e) => Err(e),
            Ok(_) => Ok(v),
        };
        assert((self@, r) == spec_run_native(s0, function_addr, bound, params@, a));
        r
    }

    /// Runs the body of a user-defined function on the arguments `all` in a
    /// frame of its own.
    fn run_user_function<H: FloatHost>(
        &mut self,
        code: &Vec<Instruction>,
        consts: &Vec<Const>,
        params: &Vec<String>,
        defaults: &Vec<MemoryAddress>,
        all: &Vec<MemoryAddress>,
        host: &H,
        max_steps: usize,
    ) -> (r: Result<MemoryAddress, RuntimeError>)
        requires
            rt_wf(old(self)@),
        ensures
            rt_wf(final(self)@),
            exists|answers: Seq<FloatAnswerModel>|
                user_budget(
                    old(self)@,
                    instrs_view(code@),
                    consts_view(consts@),
                    names_view(params@),
                    defaults@,
                    all@,
                    answers,
                    max_steps as nat,
                ) && (final(self)@, r) == #[trigger] spec_run_user(
                    old(self)@,
                    instrs_view(code@),
                    consts_view(consts@),
                    names_view(params@),
                    defaults@,
                    all@,
                    answers,
                ),
    {
        let ghost s0 = self@;
        let ghost pv = names_view(params@);
        let n = params.len();
        let k = defaults.len();
        let m = all.len();
        if m > n || n - m > k {
            let r = Err(RuntimeError::ArgumentCount { expected: n, got: m });
            assert((self@, r) == spec_run_user(s0, instrs_view(code@), consts_view(consts@), pv, defaults@, all@, Seq::empty()));
            return r;
        }
        let mut values: Vec<MemoryAddress> = Vec::new();
        let mut i: usize = 0;
        while i < m
            invariant
                i <= m,
                m == all@.len(),
                values@ == all@.take(i as int),
            decreases m - i,
        {
            values.push(all[i]);
            i = i + 1;
            assert(values@ =~= all@.take(i as int));
        }
        let lo: usize = k - (n - m);
        let mut j: usize = lo;
        assert(values@ =~= all@ + defaults@.subrange(lo as int, j as int));
        while j < k
            invariant
                lo <= j <= k,
                k == defaults@.len(),
                values@ == all@ + defaults@.subrange(lo as int, j as int),
            decreases k - j,
        {
            let ghost old_values = values@;
            values.push(defaults[j]);
            proof {
                assert(defaults@.subrange(lo as int, j + 1) =~= defaults@.subrange(lo as int, j as int).push(
                    defaults@[j as int],
                ));
                assert(values@ =~= old_values.push(defaults@[j as int]));
            }
            j = j + 1;
            assert(values@ =~= all@ + defaults@.subrange(lo as int, j as int));
        }
        let ghost vals = values@;
        assert(vals == call_values(all@, defaults@, pv.len()));
        assert(vals.len() == n);
        let saved = self.prog_counter;
        self.new_stack_frame();
        let ghost s1 = self@;
        let mut b: usize = 0;
        assert(pv.take(0) =~= Seq::<Seq<char>>::empty());
        while b < n
            invariant
                b <= n,
                n == params@.len(),
                pv == names_view(params@),
                vals == values@,
                vals.len() == n,
                rt_wf(self@),
                self@.frames.len() > 0,
                self@ == bind_all(s1, pv.take(b as int), vals.take(b as int)),
            decreases n - b,
        {
            let ghost before = self@;
            let _ = self.bind_local(params[b].as_str(), values[b]);
            proof {
                assert(pv.take(b + 1).drop_last() =~= pv.take(b as int));
                assert(vals.take(b + 1).drop_last() =~= vals.take(b as int));
                assert(pv.take(b + 1).last() == params@[b as int]@);
            }
            b = b + 1;
        }
        proof {
            assert(pv.take(n as int) =~= pv);
            assert(vals.take(n as int) =~= vals);
        }
        self.prog_counter = 0;
        let ghost start = self@;
        assert(start == user_start(s0, pv, defaults@, all@));
        let ran = execute_instructions(self, code, consts, host, max_steps);
        let ghost answers = choose|answers: Seq<FloatAnswerModel>|
            #[trigger] run_outcome(start, instrs_view(code@), consts_view(consts@), max_steps as nat, answers, self@, ran);
        self.prog_counter = saved;
        proof {
            assert(user_budget(s0, instrs_view(code@), consts_view(consts@), pv, defaults@, all@, answers, max_steps as nat));
        }
        if let Err(e) = ran {
            let r = Err(e);
            assert((self@, r) == spec_run_user(s0, instrs_view(code@), consts_view(consts@), pv, defaults@, all@, answers));
            return r;
        }
        let v = match self.top_stack() {
            Err(e) => {
                let r = Err(e);
                assert((self@, r) == spec_run_user(s0, instrs_view(code@), consts_view(consts@), pv, defaults@, all@, answers));
                return r;
            },
            Ok(v) => v,
        };
        let counted = self.increase_refcount(v);
        if let Err(e) = counted {
            let r = Err(e);
            assert((self@, r) == spec_run_user(s0, instrs_view(code@), consts_view(consts@), pv, defaults@, all@, answers));
            return r;
        }
        let popped = self.pop_stack_frame();
        let r = match popped {
            Err(e) => Err(e),
            Ok(_) => Ok(v),
        };
        assert((self@, r) == spec_run_user(s0, instrs_view(code@), consts_view(consts@), pv, defaults@, all@, answers));
        r
    }

    /// Calls the object at `function_addr` with `bound` and `params` in a frame
    /// of its own and returns its result, counted once more: a user-defined
    /// function runs its body, within `max_steps` steps; a native function, or a
    /// type through its constructor, runs directly.
    pub fn run_function<H: FloatHost>(
        &mut self,
        function_addr: MemoryAddress,
        bound: Option<MemoryAddress>,
        params: &Vec<MemoryAddress>,
        host: &H,
        max_steps: usize,
    ) -> (r: Result<MemoryAddress, RuntimeError>)
        requires
            rt_wf(old(self)@),
        ensures
            rt_wf(final(self)@),
            exists|answers: Seq<FloatAnswerModel>|
                run_budget(old(self)@, function_addr, bound, params@, answers, max_steps as nat) && (final(self)@, r)
                    == #[trigger] spec_run_function(old(self)@, function_addr, bound, params@, answers),
    {
        let ghost s0 = self@;
        let user = match self.get_pyobj_byaddr(function_addr) {
            Ok(obj) => match &obj.structure {
                PyObjectStructure::UserDefinedFunction { code, consts, params: names, defaults, .. } => Some(
                    (copy_instructions(code), copy_consts(consts), copy_names(names), copy_addresses(defaults)),
                ),
                _ => None,
            },
            Err(_) => None,
        };
        match user {
            Some((code, consts, names, defaults)) => {
                let mut all: Vec<MemoryAddress> = Vec::new();
                if let Some(b) = bound {
                    all.push(b);
                }
                let mut i: usize = 0;
                let ghost start_len = all@.len();
                assert(all@ =~= call_args(bound, params@).take(start_len as int));
                while i < params.len()
                    invariant
                        i <= params.len(),
                        start_len == (if bound is Some { 1int } else { 0int }),
                        all@ =~= call_args(bound, params@).take(start_len + i),
                    decreases params.len() - i,
                {
                    all.push(params[i]);
                    i = i + 1;
                    assert(all@ =~= call_args(bound, params@).take(start_len + i));
                }
                assert(call_args(bound, params@).take(start_len + i) =~= call_args(bound, params@));
                let r = self.run_user_function(&code, &consts, &names, &defaults, &all, host, max_steps);
                let ghost answers = choose|answers: Seq<FloatAnswerModel>|
                    user_budget(
                        s0,
                        instrs_view(code@),
                        consts_view(consts@),
                        names_view(names@),
                        defaults@,
                        all@,
                        answers,
                        max_steps as nat,
                    ) && (self@, r) == spec_run_user(
                        s0,
                        instrs_view(code@),
                        consts_view(consts@),
                        names_view(names@),
                        defaults@,
                        all@,
                        answers,
                    );
                assert((self@, r) == spec_run_function(s0, function_addr, bound, params@, answers));
                r
            },
            None => {
                let r = self.run_native_function(function_addr, bound, params, host);
                let ghost a = choose|ans: FloatAnswerModel| (self@, r) == spec_run_native(s0, function_addr, bound, params@, ans);
                assert(first_answer(seq![a]) == a);
                assert((self@, r) == spec_run_function(s0, function_addr, bound, params@, seq![a]));
                r
            },
        }
    }

    /// Creates a user-defined function object named `name` with the body `code`,
    /// its constant pool `consts`, its parameters `params` and the defaults
    /// `defaults` of the last of them, and returns its address.
    pub fn allocate_user_defined_function(
        &mut self,
        name: String,
        code: Vec<Instruction>,
        consts: Vec<Const>,
        params: Vec<String>,
        defaults: Vec<MemoryAddress>,
    ) -> (r: Result<MemoryAddress, RuntimeError>)
        requires
            rt_wf(old(self)@),
        ensures
            rt_wf(final(self)@),
            (final(self)@, r) == rt_alloc(
                old(self)@,
                ObjModel {
                    type_addr: old(self)@.special.callable_type,
                    structure: StructureModel::UserDefinedFunction {
                        name: name@,
                        code: instrs_view(code@),
                        consts: consts_view(consts@),
                        params: names_view(params@),
                        defaults: defaults@,
                    },
                },
            ),
    {
        let t = self.special_values.callable_type;
        self.allocate_and_write(
            PyObject {
                type_addr: t,
                structure: PyObjectStructure::UserDefinedFunction { name, code, consts, params, defaults },
            },
        )
    }
}

} // verus!
