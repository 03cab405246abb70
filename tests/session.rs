use wasm_vm::outcome::{CompilerError, InterpretResult, RuntimeError};
use wasm_vm::session::NativeDescriptor;
use wasm_vm::session::{Callee, DispatchError, JsNativeFn, RegistryError, WasmVm, MAX_ARITY, PRINT_ID};

type HostFn = fn(&[i64]) -> i64;

fn f0(_: &[i64]) -> i64 {
    0
}
fn f1(_: &[i64]) -> i64 {
    1
}
fn f2(_: &[i64]) -> i64 {
    2
}
fn sum(args: &[i64]) -> i64 {
    args.iter().sum()
}

fn native(name: &str, arity: u8, function: HostFn) -> JsNativeFn<HostFn> {
    JsNativeFn { name: name.to_owned(), arity, function }
}

fn call(vm: &WasmVm<HostFn>, id: usize, args: &[i64]) -> Result<i64, DispatchError> {
    match vm.dispatch(id, args.len())? {
        Callee::Print => Ok(0),
        Callee::Host(f) => Ok(f(args)),
    }
}

#[test]
fn new_session_has_only_print() {
    let vm: WasmVm<HostFn> = WasmVm::new();
    let d = vm.descriptors();
    assert_eq!(d.len(), 1);
    assert_eq!(d[0].name, "print");
    assert_eq!(d[0].arity, 1);
    assert_eq!(d[0].dispatch_id, PRINT_ID);
}

#[test]
fn each_id_reaches_its_own_callable() {
    let mut vm: WasmVm<HostFn> = WasmVm::new();
    let d = vm
        .begin_run(vec![native("f0", 0, f0), native("f1", 0, f1), native("f2", 0, f2)])
        .unwrap();
    assert_eq!(d.len(), 4);
    let id_of = |name: &str| d.iter().find(|x| x.name == name).unwrap().dispatch_id;
    assert_eq!(call(&vm, id_of("f1"), &[]), Ok(1));
    let all: Vec<i64> = ["f0", "f1", "f2"].iter().map(|n| call(&vm, id_of(n), &[]).unwrap()).collect();
    assert_eq!(all, vec![0, 1, 2]);
}

#[test]
fn descriptors_follow_registration_order() {
    let mut vm: WasmVm<HostFn> = WasmVm::new();
    let d = vm.begin_run(vec![native("b", 2, sum), native("a", 0, f0)]).unwrap();
    let names: Vec<&str> = d.iter().map(|x| x.name.as_str()).collect();
    assert_eq!(names, vec!["print", "b", "a"]);
    let ids: Vec<usize> = d.iter().map(|x| x.dispatch_id).collect();
    assert_eq!(ids, vec![0, 1, 2]);
    assert_eq!(d[1].arity, 2);
}

#[test]
fn arguments_reach_the_callable() {
    let mut vm: WasmVm<HostFn> = WasmVm::new();
    vm.begin_run(vec![native("sum", 3, sum)]).unwrap();
    assert_eq!(call(&vm, 1, &[4, 5, 6]), Ok(15));
}

#[test]
fn wrong_argument_count_is_a_runtime_fault() {
    let mut vm: WasmVm<HostFn> = WasmVm::new();
    vm.begin_run(vec![native("g", 2, sum)]).unwrap();
    let err = call(&vm, 1, &[7]).unwrap_err();
    assert_eq!(err, DispatchError::ArityMismatch);
    let out = vm.finish_run(InterpretResult::RuntimeErr(err.to_runtime_error()));
    assert!(!out.success());
    assert!(out.compile_errors().is_empty());
    assert!(!out.runtime_error().is_empty());
}

#[test]
fn print_takes_one_argument() {
    let vm: WasmVm<HostFn> = WasmVm::new();
    assert!(matches!(vm.dispatch(PRINT_ID, 1), Ok(Callee::Print)));
    assert!(matches!(vm.dispatch(PRINT_ID, 0), Err(DispatchError::ArityMismatch)));
}

#[test]
fn unknown_id_is_rejected() {
    let mut vm: WasmVm<HostFn> = WasmVm::new();
    vm.begin_run(vec![native("f0", 0, f0)]).unwrap();
    assert!(matches!(vm.dispatch(2, 0), Err(DispatchError::UnknownDispatchId)));
    assert!(matches!(vm.resolve(2), Err(RegistryError::UnknownDispatchId)));
    assert!(matches!(vm.resolve(1), Ok(Callee::Host(_))));
    assert!(!DispatchError::UnknownDispatchId.to_runtime_error().message.is_empty());
}

#[test]
fn duplicate_print_is_rejected() {
    let mut vm: WasmVm<HostFn> = WasmVm::new();
    let r = vm.begin_run(vec![native("print", 1, f0)]);
    assert!(matches!(r, Err(RegistryError::DuplicateName)));
    assert_eq!(vm.descriptors().len(), 1);
}

#[test]
fn duplicate_custom_name_is_rejected() {
    let mut vm: WasmVm<HostFn> = WasmVm::new();
    let r = vm.begin_run(vec![native("h", 0, f0), native("k", 0, f1), native("h", 1, f2)]);
    assert!(matches!(r, Err(RegistryError::DuplicateName)));
    assert_eq!(vm.descriptors().len(), 1);
}

#[test]
fn register_assigns_ids_and_checks_arity() {
    let mut vm: WasmVm<HostFn> = WasmVm::new();
    assert_eq!(vm.register("a".to_owned(), 0, f0), Ok(1));
    assert_eq!(vm.register("b".to_owned(), MAX_ARITY, f1), Ok(2));
    assert_eq!(vm.register("c".to_owned(), MAX_ARITY + 1, f2), Err(RegistryError::InvalidArity));
    assert_eq!(vm.register("a".to_owned(), 0, f2), Err(RegistryError::DuplicateName));
    assert_eq!(vm.register("print".to_owned(), 1, f2), Err(RegistryError::DuplicateName));
    assert!(vm.has_name(&"b".to_owned()));
    assert!(!vm.has_name(&"c".to_owned()));
    assert_eq!(vm.descriptors().len(), 3);
}

#[test]
fn natives_do_not_persist_across_runs() {
    let mut vm: WasmVm<HostFn> = WasmVm::new();
    vm.begin_run(vec![native("f0", 0, f0)]).unwrap();
    let out = vm.finish_run(InterpretResult::Success);
    assert!(out.success());
    assert_eq!(vm.descriptors().len(), 1);
    let d = vm.begin_run(vec![native("f0", 0, f1)]).unwrap();
    assert_eq!(d.len(), 2);
    assert_eq!(call(&vm, 1, &[]), Ok(1));
}

#[test]
fn run_with_print_only_completes() {
    let mut vm: WasmVm<HostFn> = WasmVm::new();
    let d = vm.begin_run(vec![]).unwrap();
    assert_eq!(d.len(), 1);
    assert_eq!(call(&vm, PRINT_ID, &[3]), Ok(0));
    let out = vm.finish_run(InterpretResult::Success);
    assert!(out.success());
    assert!(out.compile_errors().is_empty());
    assert_eq!(out.runtime_error(), "");
}

#[test]
fn run_ending_in_fault_reports_message() {
    let mut vm: WasmVm<HostFn> = WasmVm::new();
    vm.begin_run(vec![]).unwrap();
    let out = vm.finish_run(InterpretResult::RuntimeErr(RuntimeError { message: "Division by zero".to_owned() }));
    assert!(!out.success());
    assert_eq!(out.runtime_error(), "Division by zero");
}

fn id_in(d: &[NativeDescriptor], name: &str) -> usize {
    d.iter().find(|x| x.name == name).unwrap().dispatch_id
}

#[test]
fn interpret_calls_each_native_by_its_own_id() {
    let mut vm: WasmVm<HostFn> = WasmVm::new();
    let mut seen: Vec<i64> = vec![];
    let natives = vec![native("f0", 0, f0), native("f1", 0, f1), native("f2", 0, f2)];
    let out = vm
        .interpret("f0(); f1(); f2();", natives, |_src: &str, s: &WasmVm<HostFn>, d: Vec<NativeDescriptor>| {
            for name in ["f0", "f1", "f2"] {
                seen.push(call(s, id_in(&d, name), &[]).unwrap());
            }
            InterpretResult::Success
        })
        .unwrap();
    assert!(out.success());
    assert_eq!(seen, vec![0, 1, 2]);
    assert_eq!(vm.descriptors().len(), 1);
}

#[test]
fn interpret_print_scenario_completes() {
    let mut vm: WasmVm<HostFn> = WasmVm::new();
    let mut log: Vec<i64> = vec![];
    let out = vm
        .interpret("print(1+2)", vec![], |_src: &str, s: &WasmVm<HostFn>, d: Vec<NativeDescriptor>| {
            match s.dispatch(id_in(&d, "print"), 1) {
                Ok(Callee::Print) => {
                    log.push(1 + 2);
                    InterpretResult::Success
                },
                _ => InterpretResult::RuntimeErr(RuntimeError { message: "no print".to_owned() }),
            }
        })
        .unwrap();
    assert!(out.success());
    assert!(out.compile_errors().is_empty());
    assert_eq!(out.runtime_error(), "");
    assert_eq!(log, vec![3]);
}

#[test]
fn interpret_reports_compile_faults() {
    let mut vm: WasmVm<HostFn> = WasmVm::new();
    let out = vm
        .interpret("var x = ;\nprint(", vec![], |_src: &str, _s: &WasmVm<HostFn>, _d: Vec<NativeDescriptor>| {
            InterpretResult::CompileErr(vec![
                CompilerError { line: 1, start: 8, len: 1 },
                CompilerError { line: 2, start: 6, len: 1 },
            ])
        })
        .unwrap();
    assert!(!out.success());
    assert_eq!(out.compile_errors().len(), 2);
    assert_eq!(out.runtime_error(), "");
}

#[test]
fn interpret_reports_runtime_fault() {
    let mut vm: WasmVm<HostFn> = WasmVm::new();
    let out = vm
        .interpret("1/0", vec![], |_src: &str, _s: &WasmVm<HostFn>, _d: Vec<NativeDescriptor>| {
            InterpretResult::RuntimeErr(RuntimeError { message: "Division by zero".to_owned() })
        })
        .unwrap();
    assert!(!out.success());
    assert!(out.compile_errors().is_empty());
    assert!(!out.runtime_error().is_empty());
}

#[test]
fn interpret_with_wrong_arity_call_faults() {
    let mut vm: WasmVm<HostFn> = WasmVm::new();
    let out = vm
        .interpret("g(1)", vec![native("g", 2, sum)], |_src: &str, s: &WasmVm<HostFn>, d: Vec<NativeDescriptor>| {
            match call(s, id_in(&d, "g"), &[1]) {
                Ok(_) => InterpretResult::Success,
                Err(e) => InterpretResult::RuntimeErr(e.to_runtime_error()),
            }
        })
        .unwrap();
    assert!(!out.success());
    assert!(!out.runtime_error().is_empty());
}

#[test]
fn interpret_rejects_duplicates_before_running() {
    let mut vm: WasmVm<HostFn> = WasmVm::new();
    let mut ran = false;
    let r = vm.interpret("f()", vec![native("f", 0, f0), native("f", 0, f1)], |_src: &str, _s: &WasmVm<HostFn>, _d: Vec<NativeDescriptor>| {
        ran = true;
        InterpretResult::Success
    });
    assert!(matches!(r, Err(RegistryError::DuplicateName)));
    assert!(!ran);
}

#[test]
fn fault_messages_name_the_failure() {
    assert_eq!(DispatchError::UnknownDispatchId.to_runtime_error().message, "unknown native function");
    assert_eq!(
        DispatchError::ArityMismatch.to_runtime_error().message,
        "wrong number of arguments to native function"
    );
}
