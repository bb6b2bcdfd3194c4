use vstd::prelude::*;
use std::marker::PhantomData;
use wasmer::Memory as WasmMemory;
use crate::engine::{exported_memory, exports_memory_as};

verus! {

/// Why an instance could not be built.
#[derive(Debug, PartialEq, Clone)]
pub enum InstanceError {
    NewInstanceCreateFail(String),
}

/// The handles that every host function of one instance shares: the instance
/// and its linear memory, each written once while the instance is built.
pub struct VmData<I, Mm> {
    instance: Option<I>,
    memory: Option<Mm>,
}

impl<I, Mm> VmData<I, Mm> {
    /// The instance handle, once written.
    pub closed spec fn instance_view(&self) -> Option<I> {
        self.instance
    }

    /// The memory handle, once written.
    pub closed spec fn memory_view(&self) -> Option<Mm> {
        self.memory
    }

    /// Whether both handles are written, so that host functions may run.
    pub open spec fn is_active(&self) -> bool {
        self.instance_view() is Some && self.memory_view() is Some
    }

    /// Handles not written yet.
    pub fn new() -> (r: VmData<I, Mm>)
        ensures
            r.instance_view() is None,
            r.memory_view() is None,
    {
        VmData { instance: None, memory: None }
    }

    /// Writes the instance handle; it is written once.
    pub fn instance_set(&mut self, instance: I)
        requires
            old(self).instance_view() is None,
        ensures
            final(self).instance_view() == Some(instance),
            final(self).memory_view() == old(self).memory_view(),
    {
        self.instance = Some(instance);
    }

    /// Writes the memory handle; it is written once.
    pub fn memory_set(&mut self, memory: Mm)
        requires
            old(self).memory_view() is None,
        ensures
            final(self).memory_view() == Some(memory),
            final(self).instance_view() == old(self).instance_view(),
    {
        self.memory = Some(memory);
    }

    /// The instance handle, if written.
    pub fn instance(&self) -> (r: Option<&I>)
        ensures
            match r {
                Some(i) => self.instance_view() == Some(*i),
                None => self.instance_view() is None,
            },
    {
        self.instance.as_ref()
    }

    /// The memory handle, if written.
    pub fn memory(&self) -> (r: Option<&Mm>)
        ensures
            match r {
                Some(m) => self.memory_view() == Some(*m),
                None => self.memory_view() is None,
            },
    {
        self.memory.as_ref()
    }
}

/// Builds instances whose host functions share a `(VmData, Option<T>)`.
pub struct VmInstance<T> {
    _marker: PhantomData<T>,
}

impl<T> VmInstance<T> {
    /// Finishes building an instance from the outcome of instantiation.
    /// A failed instantiation is reported with its reason; an instance that
    /// does not export its linear memory as "memory" is refused too. Either
    /// way the shared handles stay unwritten. Otherwise both handles are
    /// written and the instance comes back.
    pub fn new<I: Clone, Mm, F: Fn(&I) -> Option<Mm>>(
        env: &mut (VmData<I, Mm>, Option<T>),
        instantiated: Result<I, String>,
        memory_export: F,
    ) -> (r: Result<Option<I>, InstanceError>)
        requires
            old(env).0.instance_view() is None,
            old(env).0.memory_view() is None,
            forall|i: &I| #[trigger] memory_export.requires((i,)),
        ensures
            final(env).1 == old(env).1,
            instantiated is Err ==> r == Err::<Option<I>, InstanceError>(
                InstanceError::NewInstanceCreateFail(instantiated->Err_0),
            ) && final(env).0 == old(env).0,
            instantiated is Ok ==> exists|mem: Option<Mm>|
                #[trigger] memory_export.ensures((&instantiated->Ok_0,), mem) && (mem is None ==> (
                r is Err && r->Err_0->NewInstanceCreateFail_0@ == "missing memory export"@
                    && final(env).0 == old(env).0)) && (mem is Some ==> (r == Ok::<
                    Option<I>,
                    InstanceError,
                >(Some(instantiated->Ok_0)) && final(env).0.memory_view() == mem && exists|x: I|
                    cloned::<I>(instantiated->Ok_0, x) && final(env).0.instance_view() == Some(x))),
    {
        let instance = match instantiated {
            Ok(i) => i,
            Err(e) => {
                return Err(InstanceError::NewInstanceCreateFail(e));
            },
        };
        let memory = match memory_export(&instance) {
            Some(m) => m,
            None => {
                proof {
                    reveal_strlit("missing memory export");
                }
                return Err(
                    InstanceError::NewInstanceCreateFail("missing memory export".to_owned()),
                );
            },
        };
        let copy = instance.clone();
        env.0.instance_set(copy);
        env.0.memory_set(memory);
        assert(cloned::<I>(instance, copy));
        Ok(Some(instance))
    }
}

impl<T> VmInstance<T> {
    /// Finishes building an engine instance: as `new`, with the memory that
    /// the instance exports under "memory".
    pub fn finish(
        env: &mut (VmData<wasmer::Instance, WasmMemory>, Option<T>),
        instantiated: Result<wasmer::Instance, String>,
    ) -> (r: Result<Option<wasmer::Instance>, InstanceError>)
        requires
            old(env).0.instance_view() is None,
            old(env).0.memory_view() is None,
        ensures
            final(env).1 == old(env).1,
            instantiated is Err ==> r == Err::<Option<wasmer::Instance>, InstanceError>(
                InstanceError::NewInstanceCreateFail(instantiated->Err_0),
            ) && final(env).0 == old(env).0,
            r is Err ==> final(env).0 == old(env).0,
            instantiated is Ok ==> ((r is Ok) == exports_memory_as(instantiated->Ok_0, "memory"@)),
            r is Ok ==> r == Ok::<Option<wasmer::Instance>, InstanceError>(
                Some(instantiated->Ok_0),
            ) && final(env).0.is_active(),
    {
        let memory_export = |i: &wasmer::Instance| -> (o: Option<WasmMemory>)
            ensures
                (o is Some) == exports_memory_as(*i, "memory"@),
            { exported_memory(i, "memory") };
        VmInstance::<T>::new(env, instantiated, memory_export)
    }
}

} // verus!
