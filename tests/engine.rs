use lancher::{EngineStore, GasMeter, GasMetering, GasPoints, InstanceError, ModuleError, Opcode, VmData, VmInstance, VmModule};
use wasmer::sys::BaseTunables;
use wasmer::wasmparser::Operator;
use wasmer::{Imports, Instance, Memory, Pages, Store, Value};
use wasmer_middlewares::metering::{get_remaining_points, set_remaining_points, MeteringPoints};

const ADD_WAT: &str = r#"(module
  (memory (export "memory") 1)
  (func (export "add") (param i32 i32) (result i32)
    local.get 0
    local.get 1
    i32.add))"#;

const INDIRECT_WAT: &str = r#"(module
  (memory (export "memory") 1)
  (type $t (func (result i32)))
  (table 1 funcref)
  (elem (i32.const 0) $seven)
  (func $seven (type $t) i32.const 7)
  (func (export "run") (result i32)
    i32.const 0
    call_indirect (type $t)))"#;

const NO_MEMORY_WAT: &str = r#"(module
  (func (export "one") (result i32) i32.const 1))"#;

fn cost(operator: &Operator) -> u64 {
    let class = match operator {
        Operator::I32Const { .. } => Opcode::I32Const,
        Operator::I32Add => Opcode::I32Add,
        Operator::Call { .. } => Opcode::Call,
        Operator::CallIndirect { .. } => Opcode::CallIndirect,
        Operator::Return => Opcode::Return,
        _ => Opcode::Other,
    };
    GasMetering::new().default_consumption(class)
}

fn engine_store() -> EngineStore {
    // Small dynamic heaps: the default static heaps reserve gigabytes of
    // address space per memory.
    let tunables = BaseTunables {
        static_memory_bound: Pages(0),
        static_memory_offset_guard_size: 0,
        dynamic_memory_offset_guard_size: 0x1_0000,
    };
    EngineStore::new(cost, tunables)
}

fn left(store: &mut Store, instance: &Instance) -> u64 {
    let points = match get_remaining_points(store, instance) {
        MeteringPoints::Remaining(p) => GasPoints::Remaining(p),
        MeteringPoints::Exhausted => GasPoints::Exhausted,
    };
    GasMetering::new().get_left(points)
}

fn build(wat: &str) -> (Store, Result<Option<Instance>, InstanceError>) {
    let mut engine_store = engine_store();
    let mut vm: VmModule<wasmer::Module> = VmModule::new();
    vm.import(&mut engine_store, wat.as_bytes()).unwrap();
    let mut store = engine_store.into_store();
    let mut env: (VmData<Instance, Memory>, Option<u8>) = (VmData::new(), None);
    let instantiated =
        Instance::new(&mut store, vm.borrow(), &Imports::new()).map_err(|e| e.to_string());
    let r = VmInstance::<u8>::finish(&mut env, instantiated);
    (store, r)
}

#[test]
fn add_scenario_charges_the_table() {
    let (mut store, built) = build(ADD_WAT);
    let instance = built.unwrap().unwrap();
    assert_eq!(left(&mut store, &instance), 0);
    set_remaining_points(&mut store, &instance, 1000);
    let add = instance.exports.get_function("add").unwrap();
    let out = add.call(&mut store, &[Value::I32(2), Value::I32(3)]).unwrap();
    assert!(matches!(out[0], Value::I32(5)));
    // two local.get, i32.add and the closing end
    let spent = 1 + 1 + 45 + 1;
    assert_eq!(left(&mut store, &instance), 1000 - spent);
    assert!(left(&mut store, &instance) < 1000);
}

#[test]
fn indirect_call_exhausts_unit_budget() {
    let (mut store, built) = build(INDIRECT_WAT);
    let instance = built.unwrap().unwrap();
    set_remaining_points(&mut store, &instance, 1);
    let run = instance.exports.get_function("run").unwrap();
    assert!(run.call(&mut store, &[]).is_err());
    assert_eq!(left(&mut store, &instance), 0);
    // a new budget makes the same instance usable again
    set_remaining_points(&mut store, &instance, 100000);
    let out = run.call(&mut store, &[]).unwrap();
    assert!(matches!(out[0], Value::I32(7)));
}

#[test]
fn host_charge_through_meter_matches_store() {
    let (mut store, built) = build(ADD_WAT);
    let instance = built.unwrap().unwrap();
    set_remaining_points(&mut store, &instance, 50);
    let points = match get_remaining_points(&mut store, &instance) {
        MeteringPoints::Remaining(p) => GasPoints::Remaining(p),
        MeteringPoints::Exhausted => GasPoints::Exhausted,
    };
    let mut meter = GasMeter::from_points(points);
    assert!(!meter.charge(51));
    assert!(meter.charge(20));
    set_remaining_points(&mut store, &instance, meter.remaining());
    assert_eq!(left(&mut store, &instance), 30);
}

#[test]
fn module_without_memory_export_is_refused() {
    let (_store, r) = build(NO_MEMORY_WAT);
    assert_eq!(r, Err(InstanceError::NewInstanceCreateFail("missing memory export".to_string())));
}

#[test]
fn invalid_bytecode_fails_to_compile() {
    let mut store = engine_store();
    let mut vm: VmModule<wasmer::Module> = VmModule::new();
    let r = vm.import(&mut store, &[0, 1, 2, 3]);
    assert!(store.is_used());
    assert!(matches!(r, Err(ModuleError::InitByWasmBinaryFail(_))));
    assert!(!vm.is_ready());
    assert_eq!(vm.export_module_opcode(), Err(ModuleError::ExportVecModuleEmpty));
}

#[test]
fn compiled_module_exports_a_blob() {
    let mut store = engine_store();
    let mut vm: VmModule<wasmer::Module> = VmModule::new();
    vm.import(&mut store, ADD_WAT.as_bytes()).unwrap();
    let blob = vm.export_module_opcode().unwrap();
    assert!(!blob.is_empty());
    assert_eq!(vm.export_module_opcode().unwrap(), blob);
}

#[test]
fn second_compile_on_one_engine_is_refused() {
    let mut store = engine_store();
    assert!(!store.is_used());
    let mut vm: VmModule<wasmer::Module> = VmModule::new();
    vm.import(&mut store, ADD_WAT.as_bytes()).unwrap();
    let mut other: VmModule<wasmer::Module> = VmModule::new();
    let r = other.import(&mut store, ADD_WAT.as_bytes());
    assert_eq!(
        r,
        Err(ModuleError::InitByWasmBinaryFail("the engine has already compiled a module".to_string()))
    );
    assert!(!other.is_ready());
    assert!(vm.is_ready());
}
