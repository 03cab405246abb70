//! One session with the engine: the table of host functions that a script may
//! call, the bridge that resolves such a call, and the run that ties them to
//! the report.
use vstd::prelude::*;
use crate::outcome::{InterpretResult, Output, RuntimeError};

verus! {

/// The largest number of arguments a native function can declare.
pub const MAX_ARITY: usize = 255;

/// The dispatch id of the built-in `print`; host functions follow it.
pub const PRINT_ID: usize = 0;

/// The name of the built-in `print`.
pub open spec fn print_name() -> Seq<char> {
    "print"@
}

/// A host function offered to a script: its name, its arity and the callable.
pub struct JsNativeFn<F> {
    pub name: String,
    pub arity: u8,
    pub function: F,
}

/// What the engine is handed for each native function: no callable, only the
/// identity through which a call comes back to the session.
#[derive(Clone, Debug)]
pub struct NativeDescriptor {
    pub name: String,
    pub arity: u8,
    pub dispatch_id: usize,
}

/// Faults in setting up the table, reported to the host before any script runs.
#[derive(Clone, Copy, PartialEq, Eq, Structural, Debug)]
pub enum RegistryError {
    DuplicateName,
    InvalidArity,
    UnknownDispatchId,
}

/// Faults of a call that the engine hands to the bridge; they end the run.
#[derive(Clone, Copy, PartialEq, Eq, Structural, Debug)]
pub enum DispatchError {
    UnknownDispatchId,
    ArityMismatch,
}

/// Where a call resolves: the built-in `print`, or one host callable.
pub enum Callee<'a, F> {
    Print,
    Host(&'a F),
}

/// A session: owns the host functions of the current run.
pub struct WasmVm<F> {
    natives: Vec<JsNativeFn<F>>,
}

impl<F> WasmVm<F> {
    /// The host functions of the current run, in order of registration; the
    /// one at index k has dispatch id k + 1.
    pub closed spec fn spec_natives(&self) -> Seq<JsNativeFn<F>> {
        self.natives@
    }

    /// The names in use: `print`, then each host function's.
    pub open spec fn names(&self) -> Seq<Seq<char>> {
        names_of(self.spec_natives())
    }

    /// No two names in use are equal.
    pub open spec fn wf(&self) -> bool {
        distinct_names(self.names())
    }

    /// The number of dispatch ids in use, `print` included.
    pub open spec fn id_count(&self) -> nat {
        self.spec_natives().len() + 1
    }

    /// The arity behind a dispatch id.
    pub open spec fn arity_of(&self, id: nat) -> nat {
        if id == PRINT_ID {
            1
        } else {
            self.spec_natives()[id - 1].arity as nat
        }
    }

    /// The callable behind the dispatch id of a host function.
    pub open spec fn callable_of(&self, id: nat) -> F {
        self.spec_natives()[id - 1].function
    }

    /// The descriptor the engine is handed for a dispatch id.
    pub open spec fn describes(&self, d: NativeDescriptor, id: nat) -> bool {
        &&& d.dispatch_id == id
        &&& d.name@ == self.names()[id as int]
        &&& d.arity as nat == self.arity_of(id)
    }

    /// A new session, with no host function yet.
    pub fn new() -> (r: Self)
        ensures
            r.spec_natives().len() == 0,
            r.wf(),
    {
        WasmVm { natives: Vec::new() }
    }

    /// Whether `name` is in use.
    pub fn has_name(&self, name: &String) -> (r: bool)
        ensures
            r == self.names().contains(name@),
    {
        let print = String::from_str("print");
        proof {
            reveal_strlit("print");
        }
        if *name == print {
            assert(self.names()[0] == name@);
            return true;
        }
        let mut i: usize = 0;
        while i < self.natives.len()
            invariant
                i <= self.natives@.len(),
                name@ != print_name(),
                forall|k: int| 0 <= k < i ==> self.natives@[k].name@ != name@,
            decreases self.natives@.len() - i,
        {
            if self.natives[i].name == *name {
                assert(self.names()[i + 1] == name@);
                return true;
            }
            i = i + 1;
        }
        assert forall|k: int| 0 <= k < self.names().len() implies self.names()[k] != name@ by {
            if k > 0 {
                assert(self.names()[k] == self.natives@[k - 1].name@);
            }
        }
        false
    }

    /// Adds one host function and returns its dispatch id. Fails with
    /// `DuplicateName` where the name is in use (`print` included), and with
    /// `InvalidArity` where the arity exceeds `MAX_ARITY`; then nothing changes.
    pub fn register(&mut self, name: String, arity: usize, function: F) -> (r: Result<usize, RegistryError>)
        requires
            old(self).wf(),
            old(self).spec_natives().len() < usize::MAX,
        ensures
            final(self).wf(),
            old(self).names().contains(name@) ==> r == Err::<usize, RegistryError>(RegistryError::DuplicateName),
            !old(self).names().contains(name@) && arity > MAX_ARITY
                ==> r == Err::<usize, RegistryError>(RegistryError::InvalidArity),
            r is Err ==> final(self).spec_natives() == old(self).spec_natives(),
            !old(self).names().contains(name@) && arity <= MAX_ARITY ==> {
                &&& r == Ok::<usize, RegistryError>(old(self).id_count() as usize)
                &&& final(self).spec_natives() == old(self).spec_natives().push(
                    JsNativeFn { name, arity: arity as u8, function },
                )
            },
    {
        if self.has_name(&name) {
            return Err(RegistryError::DuplicateName);
        }
        if arity > MAX_ARITY {
            return Err(RegistryError::InvalidArity);
        }
        let id = self.natives.len() + 1;
        let ghost before = self.names();
        let ghost new_name = name@;
        self.natives.push(JsNativeFn { name, arity: arity as u8, function });
        assert(self.names() =~= before.push(new_name));
        Ok(id)
    }

    /// The descriptor of each dispatch id in use, in order of id: `print`
    /// first, then the host functions in order of registration.
    pub fn descriptors(&self) -> (r: Vec<NativeDescriptor>)
        ensures
            r@.len() == self.id_count(),
            forall|k: int| 0 <= k < r@.len() ==> self.describes(#[trigger] r@[k], k as nat),
    {
        let mut r: Vec<NativeDescriptor> = Vec::new();
        let print = String::from_str("print");
        proof {
            reveal_strlit("print");
        }
        r.push(NativeDescriptor { name: print, arity: 1, dispatch_id: PRINT_ID });
        let mut i: usize = 0;
        while i < self.natives.len()
            invariant
                i <= self.natives@.len(),
                r@.len() == i + 1,
                forall|k: int| 0 <= k < r@.len() ==> self.describes(#[trigger] r@[k], k as nat),
            decreases self.natives@.len() - i,
        {
            let n = &self.natives[i];
            r.push(NativeDescriptor { name: n.name.clone(), arity: n.arity, dispatch_id: i + 1 });
            assert(self.names()[i + 1] == self.natives@[i as int].name@);
            i = i + 1;
        }
        r
    }

    /// The callable behind a dispatch id; `UnknownDispatchId` where no
    /// function has that id.
    pub fn resolve(&self, id: usize) -> (r: Result<Callee<'_, F>, RegistryError>)
        ensures
            id >= self.id_count() <==> r is Err,
            r is Err ==> r == Err::<Callee<'_, F>, RegistryError>(RegistryError::UnknownDispatchId),
            id == PRINT_ID ==> r is Ok && r->Ok_0 is Print,
            0 < id < self.id_count() ==> r is Ok && r->Ok_0 is Host
                && *(r->Ok_0->Host_0) == self.callable_of(id as nat),
    {
        if id == PRINT_ID {
            Ok(Callee::Print)
        } else if id <= self.natives.len() {
            Ok(Callee::Host(&self.natives[id - 1].function))
        } else {
            Err(RegistryError::UnknownDispatchId)
        }
    }
    /// The bridge for one call from a script: resolves the dispatch id and
    /// checks the number of arguments against the declared arity.
    pub fn dispatch(&self, id: usize, argc: usize) -> (r: Result<Callee<'_, F>, DispatchError>)
        ensures
            id >= self.id_count() ==> r == Err::<Callee<'_, F>, DispatchError>(
                DispatchError::UnknownDispatchId,
            ),
            id < self.id_count() && argc != self.arity_of(id as nat) ==> r == Err::<
                Callee<'_, F>,
                DispatchError,
            >(DispatchError::ArityMismatch),
            id == PRINT_ID && argc == 1 ==> r is Ok && r->Ok_0 is Print,
            0 < id < self.id_count() && argc == self.arity_of(id as nat) ==> r is Ok
                && r->Ok_0 is Host && *(r->Ok_0->Host_0) == self.callable_of(id as nat),
    {
        let arity: usize = if id == PRINT_ID {
            1
        } else if id <= self.natives.len() {
            self.natives[id - 1].arity as usize
        } else {
            return Err(DispatchError::UnknownDispatchId);
        };
        if argc != arity {
            return Err(DispatchError::ArityMismatch);
        }
        match self.resolve(id) {
            Ok(callee) => Ok(callee),
            Err(_) => Err(DispatchError::UnknownDispatchId),
        }
    }

    /// Starts a run: the table is rebuilt from `print` and `natives`, in that
    /// order, and the engine's descriptors are returned. Fails with
    /// `DuplicateName`, before any script runs, exactly where two names
    /// collide (`print` included); the table is then left empty.
    pub fn begin_run(&mut self, natives: Vec<JsNativeFn<F>>) -> (r: Result<
        Vec<NativeDescriptor>,
        RegistryError,
    >)
        ensures
            final(self).wf(),
            r is Ok <==> distinct_names(names_of(natives@)),
            r is Err ==> r == Err::<Vec<NativeDescriptor>, RegistryError>(
                RegistryError::DuplicateName,
            ) && final(self).spec_natives().len() == 0,
            r is Ok ==> {
                &&& final(self).spec_natives() == natives@
                &&& r->Ok_0@.len() == final(self).id_count()
                &&& forall|k: int|
                    0 <= k < r->Ok_0@.len() ==> final(self).describes(
                        #[trigger] r->Ok_0@[k],
                        k as nat,
                    )
            },
    {
        let ghost all = natives@;
        let mut rest = natives;
        let total: usize = rest.len();
        self.natives = Vec::new();
        let mut i: usize = 0;
        while rest.len() > 0
            invariant
                i <= all.len(),
                all.len() == total,
                all == natives@,
                rest@ == all.subrange(i as int, all.len() as int),
                self.spec_natives() == all.subrange(0, i as int),
                self.wf(),
            decreases rest@.len(),
        {
            let n = rest.remove(0);
            let ghost n_name = n.name@;
            assert(n == all[i as int]);
            let ghost before = self.names();
            let arity = n.arity as usize;
            match self.register(n.name, arity, n.function) {
                Ok(_) => {
                    assert(all.subrange(0, i + 1) =~= all.subrange(0, i as int).push(all[i as int]));
                    i = i + 1;
                    assert(rest@ =~= all.subrange(i as int, all.len() as int));
                },
                Err(_) => {
                    proof {
                        assert(arity <= MAX_ARITY);
                        assert(before.contains(n_name));
                        let j = choose|j: int| 0 <= j < before.len() && before[j] == n_name;
                        lemma_names_prefix(all, i as int);
                        assert(before == names_of(all.subrange(0, i as int)));
                        assert(names_of(all)[j] == names_of(all)[i + 1]);
                        assert(!distinct_names(names_of(all)));
                    }
                    assert(!distinct_names(names_of(natives@)));
                    self.natives = Vec::new();
                    assert(self.names() =~= seq![print_name()]);
                    return Err(RegistryError::DuplicateName);
                },
            }
        }
        assert(all.subrange(0, i as int) =~= all);
        Ok(self.descriptors())
    }

    /// One whole run: the table is rebuilt from `print` and `natives`, `run`
    /// executes `source` with the descriptors, calling back through the
    /// session, and its result becomes the report. Fails with `DuplicateName`,
    /// before `run` is called, exactly where two names collide. The table is
    /// empty afterwards.
    pub fn interpret<R>(&mut self, source: &str, natives: Vec<JsNativeFn<F>>, run: R) -> (r: Result<
        Output,
        RegistryError,
    >) where R: FnOnce(&str, &WasmVm<F>, Vec<NativeDescriptor>) -> InterpretResult
        requires
            forall|s: &str, vm: &WasmVm<F>, d: Vec<NativeDescriptor>|
                #[trigger] run.requires((s, vm, d)),
            forall|s: &str, vm: &WasmVm<F>, d: Vec<NativeDescriptor>, res: InterpretResult|
                #[trigger] run.ensures((s, vm, d), res) ==> res.wf(),
        ensures
            final(self).spec_natives().len() == 0,
            r is Ok <==> distinct_names(names_of(natives@)),
            r is Err ==> r == Err::<Output, RegistryError>(RegistryError::DuplicateName),
            r is Ok ==> r->Ok_0.wf() && exists|vm: WasmVm<F>, d: Vec<NativeDescriptor>, res: InterpretResult|
                {
                    &&& vm.spec_natives() == natives@
                    &&& d@.len() == vm.id_count()
                    &&& forall|k: int| 0 <= k < d@.len() ==> vm.describes(#[trigger] d@[k], k as nat)
                    &&& run.ensures((source, &vm, d), res)
                    &&& r->Ok_0.matches_result(res)
                },
    {
        match self.begin_run(natives) {
            Err(e) => Err(e),
            Ok(descriptors) => {
                let result = run(source, self, descriptors);
                Ok(self.finish_run(result))
            },
        }
    }

    /// Ends a run: the table is emptied and the engine's result becomes the
    /// report.
    pub fn finish_run(&mut self, result: InterpretResult) -> (r: Output)
        requires
            result.wf(),
        ensures
            r.matches_result(result),
            r.wf(),
            final(self).spec_natives().len() == 0,
            final(self).wf(),
    {
        self.natives = Vec::new();
        assert(self.names() =~= seq![print_name()]);
        Output::from_result(result)
    }
}

/// The names of a table holding `natives`: `print`, then theirs.
pub open spec fn names_of<F>(natives: Seq<JsNativeFn<F>>) -> Seq<Seq<char>> {
    seq![print_name()] + natives.map_values(|n: JsNativeFn<F>| n.name@)
}

/// No two of `names` are equal.
pub open spec fn distinct_names(names: Seq<Seq<char>>) -> bool {
    forall|i: int, j: int| 0 <= i < j < names.len() ==> names[i] != names[j]
}

proof fn lemma_names_prefix<F>(all: Seq<JsNativeFn<F>>, i: int)
    requires
        0 <= i < all.len(),
    ensures
        forall|j: int|
            0 <= j <= i ==> #[trigger] names_of(all)[j] == names_of(all.subrange(0, i))[j],
        names_of(all)[i + 1] == all[i].name@,
{
    assert forall|j: int| 0 <= j <= i implies #[trigger] names_of(all)[j] == names_of(
        all.subrange(0, i),
    )[j] by {
        if j > 0 {
            assert(names_of(all.subrange(0, i))[j] == all.subrange(0, i)[j - 1].name@);
        }
    }
}

impl DispatchError {
    /// The fault a failed call becomes in the report: a non-empty message
    /// that names the kind of failure.
    pub fn to_runtime_error(&self) -> (r: RuntimeError)
        ensures
            r.message@.len() > 0,
            *self == DispatchError::UnknownDispatchId ==> r.message@ == "unknown native function"@,
            *self == DispatchError::ArityMismatch ==> r.message@
                == "wrong number of arguments to native function"@,
    {
        match self {
            DispatchError::UnknownDispatchId => {
                proof {
                    reveal_strlit("unknown native function");
                }
                RuntimeError { message: String::from_str("unknown native function") }
            },
            DispatchError::ArityMismatch => {
                proof {
                    reveal_strlit("wrong number of arguments to native function");
                }
                RuntimeError {
                    message: String::from_str("wrong number of arguments to native function"),
                }
            },
        }
    }
}

/// Calling the function registered k-th reaches the callable registered k-th:
/// after a run starts with `natives`, dispatch id k + 1 carries the name, the
/// arity and the callable of `natives[k]`.
pub proof fn lemma_dispatch_identity<F>(vm: WasmVm<F>, natives: Seq<JsNativeFn<F>>)
    requires
        vm.spec_natives() == natives,
    ensures
        vm.id_count() == natives.len() + 1,
        forall|k: int|
            0 <= k < natives.len() ==> {
                &&& vm.names()[k + 1] == natives[k].name@
                &&& vm.arity_of((k + 1) as nat) == natives[k].arity as nat
                &&& #[trigger] vm.callable_of((k + 1) as nat) == natives[k].function
            },
{
    assert forall|k: int| 0 <= k < natives.len() implies vm.names()[k + 1] == natives[k].name@ by {
    }
}

/// Registering one more function changes neither the name, the arity nor the
/// callable behind any dispatch id already given out.
pub proof fn lemma_dispatch_stable<F>(before: WasmVm<F>, after: WasmVm<F>, extra: JsNativeFn<F>)
    requires
        after.spec_natives() == before.spec_natives().push(extra),
    ensures
        after.id_count() == before.id_count() + 1,
        forall|id: nat|
            0 < id < before.id_count() ==> {
                &&& after.names()[id as int] == before.names()[id as int]
                &&& after.arity_of(id) == before.arity_of(id)
                &&& #[trigger] after.callable_of(id) == before.callable_of(id)
            },
{
    assert forall|id: nat| 0 < id < before.id_count() implies after.names()[id as int]
        == before.names()[id as int] by {
    }
}


/// A run whose host functions reuse a name, their own or `print`'s, has
/// colliding names, so `begin_run` rejects it with `DuplicateName`.
pub proof fn lemma_duplicate_rejected<F>(natives: Seq<JsNativeFn<F>>, i: int, j: int)
    requires
        0 <= i < natives.len(),
        0 <= j < natives.len(),
        i != j && natives[i].name@ == natives[j].name@ || natives[i].name@ == print_name(),
    ensures
        !distinct_names(names_of(natives)),
{
    let names = names_of(natives);
    assert(names[i + 1] == natives[i].name@);
    assert(names[j + 1] == natives[j].name@);
    if natives[i].name@ == print_name() {
        assert(names[0] == names[i + 1]);
    } else if i < j {
        assert(names[i + 1] == names[j + 1]);
    } else {
        assert(names[j + 1] == names[i + 1]);
    }
}

} // verus!
