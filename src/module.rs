use vstd::prelude::*;
use crate::engine::{EngineStore, blob_of, compile_module, serialize_module};

verus! {

/// Why a module could not be built, restored or exported.
#[derive(Debug, PartialEq, Clone)]
pub enum ModuleError {
    InitByWasmBinaryFail(String),
    InitByEncodedModuleFail(String),
    ExportFileModuleEmpty,
    ExportVecModuleEmpty,
    ExportVecModuleSerializeFail(String),
}

/// A slot for one compiled module: empty until a compile or a restore fills it.
pub struct VmModule<M> {
    op_module: Option<M>,
}

impl<M> View for VmModule<M> {
    type V = Option<M>;

    closed spec fn view(&self) -> Option<M> {
        self.op_module
    }
}

impl<M> VmModule<M> {
    /// An empty slot.
    pub fn new() -> (r: VmModule<M>)
        ensures
            r@ is None,
    {
        VmModule { op_module: None }
    }

    /// Whether the slot holds a module.
    pub fn is_ready(&self) -> (r: bool)
        ensures
            r == self@ is Some,
    {
        self.op_module.is_some()
    }

    /// Takes the outcome of compiling raw bytecode: a module fills the slot;
    /// a failure leaves the slot as it was and is reported with its reason.
    pub fn import_compiled(&mut self, compiled: Result<M, String>) -> (r: Result<(), ModuleError>)
        ensures
            match compiled {
                Ok(m) => r == Ok::<(), ModuleError>(()) && final(self)@ == Some(m),
                Err(e) => r == Err::<(), ModuleError>(ModuleError::InitByWasmBinaryFail(e))
                    && final(self)@ == old(self)@,
            },
    {
        match compiled {
            Ok(module) => {
                self.op_module = Some(module);
                Ok(())
            },
            Err(e) => Err(ModuleError::InitByWasmBinaryFail(e)),
        }
    }

    /// Takes the outcome of restoring a cache blob: a module fills the slot;
    /// a failure leaves the slot as it was and is reported with its reason.
    pub fn import_module_opcode(&mut self, restored: Result<M, String>) -> (r: Result<
        (),
        ModuleError,
    >)
        ensures
            match restored {
                Ok(m) => r == Ok::<(), ModuleError>(()) && final(self)@ == Some(m),
                Err(e) => r == Err::<(), ModuleError>(ModuleError::InitByEncodedModuleFail(e))
                    && final(self)@ == old(self)@,
            },
    {
        match restored {
            Ok(module) => {
                self.op_module = Some(module);
                Ok(())
            },
            Err(e) => Err(ModuleError::InitByEncodedModuleFail(e)),
        }
    }

    /// The module held; the slot must be filled.
    pub fn borrow(&self) -> (r: &M)
        requires
            self@ is Some,
        ensures
            Some(*r) == self@,
    {
        self.op_module.as_ref().unwrap()
    }

    /// Exports the module held through `serialize`: an empty slot is an
    /// error found without calling it; a serializer failure is reported with
    /// its reason; otherwise the blob comes back as the serializer gave it.
    pub fn export_with<F: Fn(&M) -> Result<Vec<u8>, String>>(&self, serialize: F) -> (r:
        Result<Vec<u8>, ModuleError>)
        requires
            forall|m: &M| #[trigger] serialize.requires((m,)),
        ensures
            self@ is None ==> r == Err::<Vec<u8>, ModuleError>(ModuleError::ExportVecModuleEmpty),
            self@ is Some ==> exists|out: Result<Vec<u8>, String>|
                #[trigger] serialize.ensures((&self@->0,), out) && match out {
                    Ok(b) => r == Ok::<Vec<u8>, ModuleError>(b),
                    Err(e) => r == Err::<Vec<u8>, ModuleError>(
                        ModuleError::ExportVecModuleSerializeFail(e),
                    ),
                },
    {
        match &self.op_module {
            None => Err(ModuleError::ExportVecModuleEmpty),
            Some(module) => {
                let out = serialize(module);
                match out {
                    Ok(bytes) => Ok(bytes),
                    Err(e) => Err(ModuleError::ExportVecModuleSerializeFail(e)),
                }
            },
        }
    }
}

impl VmModule<wasmer::Module> {
    /// Compiles raw bytecode with the store's engine into the slot. An engine
    /// compiles one module only: on a used one the call fails without
    /// compiling. A failure leaves the slot as it was and is reported with
    /// its reason.
    pub fn import(&mut self, store: &mut EngineStore, wasm_binary: &[u8]) -> (r: Result<
        (),
        ModuleError,
    >)
        ensures
            final(store).has_compiled(),
            r is Ok ==> final(self)@ is Some,
            r is Err ==> final(self)@ == old(self)@ && r->Err_0 is InitByWasmBinaryFail,
            old(store).has_compiled() ==> r is Err && r->Err_0->InitByWasmBinaryFail_0@
                == "the engine has already compiled a module"@,
    {
        if store.is_used() {
            proof {
                reveal_strlit("the engine has already compiled a module");
            }
            return Err(
                ModuleError::InitByWasmBinaryFail(
                    "the engine has already compiled a module".to_owned(),
                ),
            );
        }
        let compiled = compile_module(store, wasm_binary);
        store.mark_compiled();
        self.import_compiled(compiled)
    }

    /// The engine's cache blob of the module held: an empty slot is an error
    /// found without touching the engine; a serializer failure is reported
    /// with its reason.
    pub fn export_module_opcode(&self) -> (r: Result<Vec<u8>, ModuleError>)
        ensures
            self@ is None ==> r == Err::<Vec<u8>, ModuleError>(ModuleError::ExportVecModuleEmpty),
            self@ is Some ==> ((r is Ok) == (blob_of(self@->0) is Some) && (r is Ok
                ==> r->Ok_0@ == blob_of(self@->0)->0) && (r is Err
                ==> r->Err_0 is ExportVecModuleSerializeFail)),
    {
        let serialize = |m: &wasmer::Module| -> (o: Result<Vec<u8>, String>)
            ensures
                (o is Ok) == (blob_of(*m) is Some),
                o is Ok ==> o->Ok_0@ == blob_of(*m)->0,
            { serialize_module(m) };
        self.export_with(serialize)
    }
}

} // verus!
