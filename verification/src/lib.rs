pub mod device;
pub mod error;
pub mod laws;
pub mod loader;
pub mod memory;
pub mod symbol_table;
pub mod types;

pub use device::GnaDevice;
pub use error::GnaError;
pub use loader::GnaLibrary;
pub use memory::GnaBuffer;
pub use symbol_table::GnaSymbolTable;
pub use types::{Gna2DeviceVersion, Gna2Status, GNA2_STATUS_SUCCESS};
