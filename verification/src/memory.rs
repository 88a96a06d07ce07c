use vstd::prelude::*;

use crate::error::{check_status, GnaError};
use crate::loader::GnaLibrary;
use crate::symbol_table::GnaSymbolTable;
use crate::types::{Gna2Status, GNA2_STATUS_SUCCESS};

verus! {

/// A block of memory that the GNA runtime allocated for a device.
///
/// The block goes back to the runtime when the buffer is dropped.
pub struct GnaBuffer<S: GnaSymbolTable> {
    library: GnaLibrary<S>,
    device_index: u32,
    address: usize,
    size: usize,
}

/// The message of the error for a runtime without `Gna2MemoryAllocForDevice`.
pub open spec fn alloc_unsupported_message() -> Seq<char> {
    "Gna2MemoryAllocForDevice is not supported"@
}

/// The message of the error for a size that the runtime's 32-bit size cannot carry.
pub open spec fn size_too_large_message() -> Seq<char> {
    "requested buffer size does not fit in 32 bits"@
}

/// Whether `r` is what allocating a buffer for the device with index `device_index`
/// yields when the runtime's `Gna2MemoryAllocForDevice` replied `reply` (`None`: the
/// export is missing).
pub open spec fn allocated_as<S: GnaSymbolTable>(
    r: Result<GnaBuffer<S>, GnaError>,
    library: GnaLibrary<S>,
    device_index: u32,
    reply: Option<(Gna2Status, u32, usize)>,
) -> bool {
    match reply {
        None => r matches Err(GnaError::Other(m)) && m@ == alloc_unsupported_message(),
        Some((s, granted, address)) => if s != GNA2_STATUS_SUCCESS {
            r matches Err(e) && e == GnaError::Status(s)
        } else {
            r matches Ok(b) && b.size_spec() == granted && b.address_spec() == address
                && b.device_spec() == device_index && b.library_spec().table()
                == library.table()
        },
    }
}

impl<S: GnaSymbolTable> GnaBuffer<S> {
    /// The address of the block, as the runtime returned it.
    pub closed spec fn address_spec(&self) -> usize {
        self.address
    }

    /// The number of bytes in the block.
    pub closed spec fn size_spec(&self) -> nat {
        self.size as nat
    }

    /// The index of the device that the block belongs to.
    pub closed spec fn device_spec(&self) -> u32 {
        self.device_index
    }

    /// The runtime that owns the block.
    pub closed spec fn library_spec(&self) -> GnaLibrary<S> {
        self.library
    }

    /// Allocates `size` bytes of memory for the device with the given index.
    ///
    /// Fails with `GnaError::Other` when `size` does not fit in the runtime's 32-bit
    /// size; otherwise hands `size` to the runtime's `Gna2MemoryAllocForDevice`, fails
    /// when the runtime lacks that export or reports a failure, and on success holds
    /// the size that the runtime granted and the address that it returned.
    pub fn new_for_device(library: &GnaLibrary<S>, device_index: u32, size: usize) -> (r: Result<
        Self,
        GnaError,
    >)
        ensures
            size > u32::MAX ==> (r matches Err(GnaError::Other(m)) && m@
                == size_too_large_message()),
            size <= u32::MAX ==> exists|reply: Option<(Gna2Status, u32, usize)>|
                #[trigger] library.table().alloc_reply(device_index, size as u32, reply)
                    && allocated_as(r, *library, device_index, reply),
    {
        if size > 0xffff_ffffusize {
            proof {
                reveal_strlit("requested buffer size does not fit in 32 bits");
            }
            return Err(GnaError::Other("requested buffer size does not fit in 32 bits".to_owned()));
        }
        let requested: u32 = size as u32;
        let reply = library.symbols().memory_alloc_for_device(device_index, requested);
        assert(library.table().alloc_reply(device_index, size as u32, reply));
        match reply {
            None => {
                proof {
                    reveal_strlit("Gna2MemoryAllocForDevice is not supported");
                }
                Err(GnaError::Other("Gna2MemoryAllocForDevice is not supported".to_owned()))
            },
            Some((status, granted, address)) => {
                match check_status(status) {
                    Err(e) => Err(e),
                    Ok(()) => Ok(
                        GnaBuffer {
                            library: library.clone(),
                            device_index,
                            address,
                            size: granted as usize,
                        },
                    ),
                }
            },
        }
    }

    /// The number of bytes in the block.
    pub fn len(&self) -> (n: usize)
        ensures
            n == self.size_spec(),
    {
        self.size
    }

    /// Whether the block holds no bytes.
    pub fn is_empty(&self) -> (b: bool)
        ensures
            b == (self.size_spec() == 0),
    {
        self.size == 0
    }

    /// The index of the device that the block belongs to.
    pub fn device_index(&self) -> (i: u32)
        ensures
            i == self.device_spec(),
    {
        self.device_index
    }
}

impl<S: GnaSymbolTable> Drop for GnaBuffer<S> {
    /// Returns the block through the runtime's `Gna2MemoryFree`; the status it returns
    /// is ignored, as a destructor has no one to report it to.
    #[verifier::external_body]
    fn drop(&mut self)
        opens_invariants none
        no_unwind
    {
        let _ = self.library.symbols().memory_free(self.address);
    }
}

} // verus!
