pub mod codec;
pub mod engine;
pub mod gas;
pub mod guest;
pub mod instance;
pub mod module;

pub use codec::Memory;
pub use engine::EngineStore;
pub use gas::{GasMeter, GasMetering, GasPoints, Opcode, DEF_GAS_PRIORITY};
pub use guest::example;
pub use instance::{InstanceError, VmData, VmInstance};
pub use module::{ModuleError, VmModule};
