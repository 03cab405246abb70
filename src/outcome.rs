//! Turns what the engine reports about one run into a flat `Output`.
use vstd::prelude::*;

verus! {

/// One compile-time diagnostic as the engine reports it.
#[derive(Clone, Copy, PartialEq, Eq, Structural, Debug)]
pub struct CompilerError {
    pub line: usize,
    pub start: usize,
    pub len: usize,
}

/// The single fault that stopped a run.
#[derive(Clone, Debug)]
pub struct RuntimeError {
    pub message: String,
}

/// What the engine reports at the end of one run.
#[derive(Clone, Debug)]
pub enum InterpretResult {
    Success,
    CompileErr(Vec<CompilerError>),
    RuntimeErr(RuntimeError),
}

impl InterpretResult {
    /// A failed compile carries at least one diagnostic, and a runtime fault
    /// carries a message.
    pub open spec fn wf(&self) -> bool {
        match self {
            InterpretResult::Success => true,
            InterpretResult::CompileErr(errors) => errors@.len() > 0,
            InterpretResult::RuntimeErr(err) => err.message@.len() > 0,
        }
    }
}

/// One compile-time diagnostic in the report handed to the host.
#[derive(Clone, Copy, PartialEq, Eq, Structural, Debug)]
pub struct CompilerErr {
    pub line: usize,
    pub start: usize,
    pub len: usize,
}

/// The report a diagnostic of the engine becomes: the same three numbers.
pub open spec fn report_of(e: CompilerError) -> CompilerErr {
    CompilerErr { line: e.line, start: e.start, len: e.len }
}

/// The reports of a list of diagnostics, one for one and in the same order.
pub open spec fn reports_of(errors: Seq<CompilerError>) -> Seq<CompilerErr> {
    errors.map_values(|e: CompilerError| report_of(e))
}

/// The flat report of one run.
#[derive(Clone, Debug)]
pub struct Output {
    success: bool,
    compile_errors: Vec<CompilerErr>,
    runtime_error: String,
}

impl Output {
    pub closed spec fn spec_success(&self) -> bool {
        self.success
    }

    pub closed spec fn spec_compile_errors(&self) -> Seq<CompilerErr> {
        self.compile_errors@
    }

    pub closed spec fn spec_runtime_error(&self) -> Seq<char> {
        self.runtime_error@
    }

    /// The run completed: success, and both error fields empty.
    pub open spec fn is_completed(&self) -> bool {
        self.spec_success() && self.spec_compile_errors().len() == 0
            && self.spec_runtime_error().len() == 0
    }

    /// The run failed to compile: diagnostics, and no runtime message.
    pub open spec fn is_compile_failed(&self) -> bool {
        !self.spec_success() && self.spec_compile_errors().len() > 0
            && self.spec_runtime_error().len() == 0
    }

    /// The run faulted: a runtime message, and no diagnostics.
    pub open spec fn is_runtime_failed(&self) -> bool {
        !self.spec_success() && self.spec_compile_errors().len() == 0
            && self.spec_runtime_error().len() > 0
    }

    /// A report is in one of the three states.
    pub open spec fn wf(&self) -> bool {
        self.is_completed() || self.is_compile_failed() || self.is_runtime_failed()
    }

    /// The report that `from_result` makes of a well-formed engine result.
    pub open spec fn matches_result(&self, r: InterpretResult) -> bool {
        match r {
            InterpretResult::Success => self.is_completed(),
            InterpretResult::CompileErr(errors) => !self.spec_success()
                && self.spec_compile_errors() == reports_of(errors@)
                && self.spec_runtime_error().len() == 0,
            InterpretResult::RuntimeErr(err) => !self.spec_success()
                && self.spec_compile_errors().len() == 0
                && self.spec_runtime_error() == err.message@,
        }
    }

    /// Whether the run completed.
    pub fn success(&self) -> (r: bool)
        ensures
            r == self.spec_success(),
    {
        self.success
    }

    /// The diagnostics of a failed compile, in the order the engine gave them.
    pub fn compile_errors(&self) -> (r: Vec<CompilerErr>)
        ensures
            r@ == self.spec_compile_errors(),
    {
        let mut r: Vec<CompilerErr> = Vec::new();
        let mut i: usize = 0;
        while i < self.compile_errors.len()
            invariant
                i <= self.compile_errors@.len(),
                r@ == self.compile_errors@.subrange(0, i as int),
            decreases self.compile_errors@.len() - i,
        {
            r.push(self.compile_errors[i]);
            i = i + 1;
        }
        assert(r@ =~= self.compile_errors@);
        r
    }

    /// The message of a runtime fault; empty where there was none.
    pub fn runtime_error(&self) -> (r: String)
        ensures
            r@ == self.spec_runtime_error(),
    {
        self.runtime_error.clone()
    }

    /// The report of a run that completed.
    pub fn successful() -> (r: Self)
        ensures
            r.is_completed(),
            r.wf(),
    {
        Output { success: true, compile_errors: Vec::new(), runtime_error: String::new() }
    }

    /// The report of a run that faulted; the message is kept verbatim.
    pub fn runtime_err(err: RuntimeError) -> (r: Self)
        requires
            err.message@.len() > 0,
        ensures
            !r.spec_success(),
            r.spec_compile_errors().len() == 0,
            r.spec_runtime_error() == err.message@,
            r.is_runtime_failed(),
            r.wf(),
    {
        Output { success: false, compile_errors: Vec::new(), runtime_error: err.message }
    }

    /// The report of a failed compile: each diagnostic mapped one for one,
    /// in the same order, none dropped or sorted.
    pub fn compile_err(errors: Vec<CompilerError>) -> (r: Self)
        requires
            errors@.len() > 0,
        ensures
            !r.spec_success(),
            r.spec_compile_errors() == reports_of(errors@),
            r.spec_runtime_error().len() == 0,
            r.is_compile_failed(),
            r.wf(),
    {
        let mut reports: Vec<CompilerErr> = Vec::new();
        let mut i: usize = 0;
        while i < errors.len()
            invariant
                i <= errors@.len(),
                reports@ == reports_of(errors@.subrange(0, i as int)),
            decreases errors@.len() - i,
        {
            let e = errors[i];
            reports.push(CompilerErr { line: e.line, start: e.start, len: e.len });
            assert(errors@.subrange(0, i + 1) =~= errors@.subrange(0, i as int).push(e));
            i = i + 1;
        }
        assert(errors@.subrange(0, errors@.len() as int) =~= errors@);
        Output { success: false, compile_errors: reports, runtime_error: String::new() }
    }

    /// The report of one run, by the kind of result the engine gave.
    pub fn from_result(result: InterpretResult) -> (r: Self)
        requires
            result.wf(),
        ensures
            r.matches_result(result),
            r.wf(),
    {
        match result {
            InterpretResult::Success => Output::successful(),
            InterpretResult::CompileErr(errors) => Output::compile_err(errors),
            InterpretResult::RuntimeErr(err) => Output::runtime_err(err),
        }
    }
}

/// Every report is in exactly one of three states: completed with both error
/// fields empty, failed to compile with diagnostics and no message, or faulted
/// with a message and no diagnostics.
pub proof fn lemma_output_states_exclusive(o: Output)
    requires
        o.wf(),
    ensures
        o.is_completed() ==> !o.is_compile_failed() && !o.is_runtime_failed(),
        o.is_compile_failed() ==> !o.is_completed() && !o.is_runtime_failed(),
        o.is_runtime_failed() ==> !o.is_completed() && !o.is_compile_failed(),
        o.is_completed() || o.is_compile_failed() || o.is_runtime_failed(),
{
}

} // verus!
