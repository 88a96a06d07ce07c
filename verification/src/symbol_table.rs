use vstd::prelude::*;

use crate::types::{Gna2DeviceVersion, Gna2Status};

verus! {

/// The entry points of a GNA runtime library that the device API calls.
///
/// An implementation forwards each method to the runtime's exported function of
/// the same name (`Gna2DeviceGetCount` for `device_get_count`, and so on); the
/// values that the C function writes through its out-pointers come back in the
/// returned tuple and mean something only when the status is success.
/// Methods that return an `Option` stand for exports that older runtimes lack:
/// `None` means that the library does not export that function.
///
/// Each `*_reply` spec function is the relation between the arguments that a call
/// hands to the runtime and the reply that comes back; its method's `ensures` records
/// that the reply it returns is a reply of that relation to exactly the arguments it
/// was given. An implementation may define each relation as what its runtime answers;
/// where it does not, the relation allows every reply, and the device API's contracts
/// then say nothing of that runtime's answers. Nothing else is assumed of a runtime:
/// the device API checks every status.
///
/// `device_close` and `memory_free` are called from destructors, which must not
/// unwind: an implementation of these two must not panic.
pub trait GnaSymbolTable {
    /// What `Gna2DeviceGetCount` may reply: a status and a number of devices.
    open spec fn count_reply(&self, reply: (Gna2Status, u32)) -> bool {
        true
    }

    /// What `Gna2DeviceGetVersion` may reply for a device index: a status and a version.
    open spec fn version_reply(&self, device_index: u32, reply: (Gna2Status, Gna2DeviceVersion)) -> bool {
        true
    }

    /// What `Gna2DeviceOpen` may reply for a device index.
    open spec fn open_reply(&self, device_index: u32, status: Gna2Status) -> bool {
        true
    }

    /// What `Gna2DeviceCreateForExport` may reply for a target version: a status and
    /// the index of the new device, or `None` where the runtime lacks the export.
    open spec fn export_reply(&self, target_device_version: Gna2DeviceVersion, reply: Option<
        (Gna2Status, u32),
    >) -> bool {
        true
    }

    /// What `Gna2DeviceSetNumberOfThreads` may reply for a device index and a thread
    /// count, or `None` where the runtime lacks the export.
    open spec fn threads_reply(&self, device_index: u32, number_of_threads: u32, reply: Option<
        Gna2Status,
    >) -> bool {
        true
    }

    /// What `Gna2MemoryAllocForDevice` may reply for a device index and a requested
    /// size: a status, the size granted and the address, or `None` where the runtime
    /// lacks the export.
    open spec fn alloc_reply(&self, device_index: u32, size_requested: u32, reply: Option<
        (Gna2Status, u32, usize),
    >) -> bool {
        true
    }

    /// `Gna2DeviceGetCount`: the status and the number of devices in the system.
    fn device_get_count(&self) -> (r: (Gna2Status, u32))
        ensures
            self.count_reply(r),
    ;

    /// `Gna2DeviceGetVersion`: the status and the version of the device with the given index.
    fn device_get_version(&self, device_index: u32) -> (r: (Gna2Status, Gna2DeviceVersion))
        ensures
            self.version_reply(device_index, r),
    ;

    /// `Gna2DeviceOpen`: opens the device with the given index.
    fn device_open(&self, device_index: u32) -> (r: Gna2Status)
        ensures
            self.open_reply(device_index, r),
    ;

    /// `Gna2DeviceClose`: closes the device with the given index. Must not panic.
    fn device_close(&self, device_index: u32) -> Gna2Status;

    /// `Gna2DeviceCreateForExport`: the status and the index of a new software device
    /// that targets the given version.
    fn device_create_for_export(&self, target_device_version: Gna2DeviceVersion) -> (r: Option<
        (Gna2Status, u32),
    >)
        ensures
            self.export_reply(target_device_version, r),
    ;

    /// `Gna2DeviceSetNumberOfThreads`: sets the number of worker threads of a device.
    fn device_set_number_of_threads(&self, device_index: u32, number_of_threads: u32) -> (r:
        Option<Gna2Status>)
        ensures
            self.threads_reply(device_index, number_of_threads, r),
    ;

    /// `Gna2MemoryAllocForDevice`: the status, the size granted and the address of a
    /// block of device memory of the requested size.
    fn memory_alloc_for_device(&self, device_index: u32, size_requested: u32) -> (r: Option<
        (Gna2Status, u32, usize),
    >)
        ensures
            self.alloc_reply(device_index, size_requested, r),
    ;

    /// `Gna2MemoryFree`: releases a block that the runtime allocated. Must not panic.
    fn memory_free(&self, memory_address: usize) -> Gna2Status;
}

} // verus!
