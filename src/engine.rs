use vstd::prelude::*;
use wasmer::Memory as WasmMemory;
use wasmer::sys::CompilerConfig;
use wasmer::wasmparser::Operator;

verus! {

#[verifier::external_type_specification]
#[verifier::external_body]
pub struct ExStore(wasmer::Store);

#[verifier::external_type_specification]
#[verifier::external_body]
pub struct ExOperator<'a>(Operator<'a>);

#[verifier::external_type_specification]
#[verifier::external_body]
pub struct ExTunables(wasmer::sys::BaseTunables);

#[verifier::external_type_specification]
#[verifier::external_body]
pub struct ExModule(wasmer::Module);

#[verifier::external_type_specification]
#[verifier::external_body]
pub struct ExInstance(wasmer::Instance);

#[verifier::external_type_specification]
#[verifier::external_body]
pub struct ExLinearMemory(WasmMemory);

/// The cache blob that the engine serializes a compiled module to, or `None`
/// where its serializer fails on it.
pub uninterp spec fn blob_of(m: wasmer::Module) -> Option<Seq<u8>>;

/// Whether an instance exports a linear memory under the name `name`.
pub uninterp spec fn exports_memory_as(i: wasmer::Instance, name: Seq<char>) -> bool;

/// A store on an engine of its own, instrumented by a metering middleware of
/// its own. A metering middleware instruments one module only (a second
/// compilation on its engine fails hard), so the store compiles at most one
/// module, and is handed out only once it has.
pub struct EngineStore {
    store: wasmer::Store,
    compiled: bool,
}

impl EngineStore {
    /// Whether the engine has been asked to compile a module.
    pub closed spec fn has_compiled(&self) -> bool {
        self.compiled
    }

    /// A store on a fresh Cranelift engine whose metering middleware prices
    /// each instruction by `cost`, with a zero limit (the budget is injected
    /// after instantiation), and whose memories are laid out by `tunables`.
    pub fn new<F: Fn(&Operator) -> u64 + Send + Sync + 'static>(
        cost: F,
        tunables: wasmer::sys::BaseTunables,
    ) -> (r: EngineStore)
        ensures
            !r.has_compiled(),
    {
        EngineStore { store: metered_store(cost, tunables), compiled: false }
    }

    /// Whether the engine has been asked to compile a module.
    pub fn is_used(&self) -> (r: bool)
        ensures
            r == self.has_compiled(),
    {
        self.compiled
    }

    /// Gives the store up, to instantiate and run what was compiled.
    pub fn into_store(self) -> (r: wasmer::Store)
        requires
            self.has_compiled(),
    {
        self.store
    }

    /// Marks the engine as used.
    pub(crate) fn mark_compiled(&mut self)
        ensures
            final(self).has_compiled(),
    {
        self.compiled = true;
    }
}

/// Relies on wasmer_middlewares::Metering::new, wasmer::sys::Cranelift,
/// EngineBuilder, Engine::set_tunables and wasmer::Store::new: a store on a
/// new engine that carries a new metering middleware with limit zero.
#[verifier::external_body]
fn metered_store<F: Fn(&Operator) -> u64 + Send + Sync + 'static>(
    cost: F,
    tunables: wasmer::sys::BaseTunables,
) -> (r: wasmer::Store) {
    let mut config = wasmer::sys::Cranelift::default();
    config.push_middleware(std::sync::Arc::new(wasmer_middlewares::Metering::new(0, cost)));
    let mut engine: wasmer::Engine = wasmer::sys::EngineBuilder::new(config).into();
    wasmer::sys::NativeEngineExt::set_tunables(&mut engine, tunables);
    wasmer::Store::new(engine)
}

/// Relies on wasmer::Module::new: validates and compiles bytecode with the
/// store's engine; a failure is kept as its message. Its engine must not have
/// compiled a module before: the metering middleware panics on a second one.
#[verifier::external_body]
pub(crate) fn compile_module(store: &EngineStore, wasm_binary: &[u8]) -> (r: Result<
    wasmer::Module,
    String,
>)
    requires
        !store.has_compiled(),
{
    wasmer::Module::new(&store.store, wasm_binary).map_err(|e| e.to_string())
}

/// Relies on wasmer::Module::serialize: the engine's cache blob of a compiled
/// module, which depends on the module alone; a failure is kept as its message.
#[verifier::external_body]
pub(crate) fn serialize_module(module: &wasmer::Module) -> (r: Result<Vec<u8>, String>)
    ensures
        (r is Ok) == (blob_of(*module) is Some),
        r is Ok ==> r->Ok_0@ == blob_of(*module)->0,
{
    module.serialize().map(|b| b.to_vec()).map_err(|e| e.to_string())
}

/// Relies on wasmer::Exports::get_memory: the linear memory that an instance
/// exports under `name`, if it exports one there.
#[verifier::external_body]
pub(crate) fn exported_memory(instance: &wasmer::Instance, name: &str) -> (r: Option<WasmMemory>)
    ensures
        (r is Some) == exports_memory_as(*instance, name@),
{
    instance.exports.get_memory(name).ok().cloned()
}

} // verus!
