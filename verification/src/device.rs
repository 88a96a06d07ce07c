use vstd::prelude::*;

use crate::error::{check_status, status_outcome, GnaError};
use crate::loader::GnaLibrary;
use crate::memory::GnaBuffer;
use crate::symbol_table::GnaSymbolTable;
use crate::types::{Gna2DeviceVersion, Gna2Status, GNA2_STATUS_SUCCESS};

verus! {

/// An open GNA device.
///
/// Dropping it closes the device through the runtime.
pub struct GnaDevice<S: GnaSymbolTable> {
    library: GnaLibrary<S>,
    index: u32,
    version: Gna2DeviceVersion,
}

/// What checking a device index against the number of devices yields.
pub open spec fn index_outcome(count: u32, device_index: u32) -> Result<(), GnaError> {
    if count == 0 {
        Err(GnaError::NoDevicesAvailable)
    } else if device_index >= count {
        Err(GnaError::DeviceIndexOutOfRange(device_index, count))
    } else {
        Ok(())
    }
}

/// What a device-count query yields for the status and count that the runtime reported.
pub open spec fn count_outcome(status: Gna2Status, count: u32) -> Result<u32, GnaError> {
    if status != GNA2_STATUS_SUCCESS {
        Err(GnaError::Status(status))
    } else {
        Ok(count)
    }
}

/// What a version query for `device_index` yields, given the runtime's answers: the
/// count query's status and count, then, only where the index is valid, the version
/// query's status and version.
pub open spec fn version_outcome(
    count_status: Gna2Status,
    count: u32,
    device_index: u32,
    version_status: Gna2Status,
    version: Gna2DeviceVersion,
) -> Result<Gna2DeviceVersion, GnaError> {
    match count_outcome(count_status, count) {
        Err(e) => Err(e),
        Ok(c) => match index_outcome(c, device_index) {
            Err(e) => Err(e),
            Ok(_) => if version_status != GNA2_STATUS_SUCCESS {
                Err(GnaError::Status(version_status))
            } else {
                Ok(version)
            },
        },
    }
}

/// The errors with which looking up the device with index `device_index` can fail.
pub open spec fn is_lookup_error(e: GnaError, device_index: u32) -> bool {
    match e {
        GnaError::Status(s) => s != GNA2_STATUS_SUCCESS,
        GnaError::NoDevicesAvailable => true,
        GnaError::DeviceIndexOutOfRange(i, c) => i == device_index && 0 < c <= device_index,
        GnaError::Other(_) => false,
    }
}

/// Whether `r` is what opening the device with index `device_index` yields, given what
/// the version query returned and the status of the runtime's open call.
pub open spec fn opened_as<S: GnaSymbolTable>(
    r: Result<GnaDevice<S>, GnaError>,
    library: GnaLibrary<S>,
    device_index: u32,
    version_result: Result<Gna2DeviceVersion, GnaError>,
    open_status: Gna2Status,
) -> bool {
    match version_result {
        Err(e) => r matches Err(e2) && e2 == e,
        Ok(v) => if open_status != GNA2_STATUS_SUCCESS {
            r matches Err(e2) && e2 == GnaError::Status(open_status)
        } else {
            r matches Ok(d) && d.index_spec() == device_index && d.version_spec() == v
                && d.library_spec().table() == library.table()
        },
    }
}

/// Whether the runtime replied `count_reply` to the count query and, where that reply
/// lets the lookup go on to the version query, `version_reply` to the version query for
/// `device_index`.
pub open spec fn lookup_replies<S: GnaSymbolTable>(
    table: S,
    device_index: u32,
    count_reply: (Gna2Status, u32),
    version_reply: (Gna2Status, Gna2DeviceVersion),
) -> bool {
    &&& table.count_reply(count_reply)
    &&& (count_reply.0 == GNA2_STATUS_SUCCESS && index_outcome(count_reply.1, device_index) is Ok)
        ==> table.version_reply(device_index, version_reply)
}

/// Whether `r` is what looking up the version of the device with index `device_index`
/// yields for the replies that the runtime gave.
pub open spec fn version_lookup<S: GnaSymbolTable>(
    table: S,
    device_index: u32,
    r: Result<Gna2DeviceVersion, GnaError>,
) -> bool {
    exists|cr: (Gna2Status, u32), vr: (Gna2Status, Gna2DeviceVersion)|
        #[trigger] lookup_replies(table, device_index, cr, vr) && r == version_outcome(
            cr.0,
            cr.1,
            device_index,
            vr.0,
            vr.1,
        )
}

/// Whether `r` is what opening the device with index `device_index` yields, where the
/// lookup gave `lookup` and, if it succeeded, the runtime's open call replied `open_status`.
pub open spec fn open_from<S: GnaSymbolTable>(
    r: Result<GnaDevice<S>, GnaError>,
    library: GnaLibrary<S>,
    device_index: u32,
    lookup: Result<Gna2DeviceVersion, GnaError>,
    open_status: Gna2Status,
) -> bool {
    &&& version_lookup(library.table(), device_index, lookup)
    &&& lookup is Ok ==> library.table().open_reply(device_index, open_status)
    &&& opened_as(r, library, device_index, lookup, open_status)
}

/// Whether `r` is what opening the device with index `device_index` yields for the
/// replies that the runtime gave.
pub open spec fn open_result<S: GnaSymbolTable>(
    r: Result<GnaDevice<S>, GnaError>,
    library: GnaLibrary<S>,
    device_index: u32,
) -> bool {
    exists|lookup: Result<Gna2DeviceVersion, GnaError>, os: Gna2Status|
        #[trigger] open_from(r, library, device_index, lookup, os)
}

/// Whether `r` is what creating an export device for `target` yields when the runtime's
/// `Gna2DeviceCreateForExport` replied `reply` (`None`: the export is missing).
pub open spec fn exported_as<S: GnaSymbolTable>(
    r: Result<GnaDevice<S>, GnaError>,
    library: GnaLibrary<S>,
    target: Gna2DeviceVersion,
    reply: Option<(Gna2Status, u32)>,
) -> bool {
    match reply {
        None => r matches Err(GnaError::Other(m)) && m@ == export_unsupported_message(),
        Some((s, i)) => if s != GNA2_STATUS_SUCCESS {
            r matches Err(e) && e == GnaError::Status(s)
        } else {
            r matches Ok(d) && d.index_spec() == i && d.version_spec() == target
                && d.library_spec().table() == library.table()
        },
    }
}

/// Whether `r` is what setting the thread count yields when the runtime's
/// `Gna2DeviceSetNumberOfThreads` replied `reply` (`None`: the export is missing).
pub open spec fn threads_set_as(r: Result<(), GnaError>, reply: Option<Gna2Status>) -> bool {
    match reply {
        None => r matches Err(GnaError::Other(m)) && m@ == threads_unsupported_message(),
        Some(s) => r == status_outcome(s),
    }
}

/// The message of the error for a runtime without `Gna2DeviceCreateForExport`.
pub open spec fn export_unsupported_message() -> Seq<char> {
    "Gna2DeviceCreateForExport is not supported"@
}

/// The message of the error for a runtime without `Gna2DeviceSetNumberOfThreads`.
pub open spec fn threads_unsupported_message() -> Seq<char> {
    "Gna2DeviceSetNumberOfThreads is not supported"@
}

/// Checks a device index against the number of devices that the runtime reports:
/// no device at all, an index past the last device, or `Ok(())`.
pub fn check_device_index(count: u32, device_index: u32) -> (r: Result<(), GnaError>)
    ensures
        r == index_outcome(count, device_index),
{
    if count == 0 {
        return Err(GnaError::NoDevicesAvailable);
    }
    if device_index >= count {
        return Err(GnaError::DeviceIndexOutOfRange(device_index, count));
    }
    Ok(())
}

/// A version lookup succeeds only when both runtime calls succeed and the index is
/// below the number of devices that the runtime reported.
pub proof fn lemma_version_found_only_below_count(
    count_status: Gna2Status,
    count: u32,
    device_index: u32,
    version_status: Gna2Status,
    version: Gna2DeviceVersion,
)
    requires
        version_outcome(count_status, count, device_index, version_status, version) is Ok,
    ensures
        count_status == GNA2_STATUS_SUCCESS,
        version_status == GNA2_STATUS_SUCCESS,
        device_index < count,
        version_outcome(count_status, count, device_index, version_status, version) == Ok::<
            Gna2DeviceVersion,
            GnaError,
        >(version),
{
}

/// A device opens only where the runtime counted it: the count query succeeded with a
/// number of devices above the index, the version query for that index succeeded with
/// the version that the device carries, and the open call succeeded.
pub proof fn lemma_open_only_below_count<S: GnaSymbolTable>(
    r: Result<GnaDevice<S>, GnaError>,
    library: GnaLibrary<S>,
    device_index: u32,
)
    requires
        open_result(r, library, device_index),
        r is Ok,
    ensures
        r->Ok_0.index_spec() == device_index,
        r->Ok_0.library_spec().table() == library.table(),
        exists|cr: (Gna2Status, u32)|
            #[trigger] library.table().count_reply(cr) && cr.0 == GNA2_STATUS_SUCCESS
                && device_index < cr.1,
        library.table().version_reply(
            device_index,
            (GNA2_STATUS_SUCCESS, r->Ok_0.version_spec()),
        ),
        library.table().open_reply(device_index, GNA2_STATUS_SUCCESS),
{
    let (lookup, os) = choose|lookup: Result<Gna2DeviceVersion, GnaError>, os: Gna2Status|
        #[trigger] open_from(r, library, device_index, lookup, os);
    let (cr, vr) = choose|cr: (Gna2Status, u32), vr: (Gna2Status, Gna2DeviceVersion)|
        #[trigger] lookup_replies(library.table(), device_index, cr, vr) && lookup
            == version_outcome(cr.0, cr.1, device_index, vr.0, vr.1);
    lemma_version_found_only_below_count(cr.0, cr.1, device_index, vr.0, vr.1);
    assert(vr == (GNA2_STATUS_SUCCESS, r->Ok_0.version_spec()));
}

impl<S: GnaSymbolTable> GnaDevice<S> {
    /// The index of the device.
    pub closed spec fn index_spec(&self) -> u32 {
        self.index
    }

    /// The version of the device.
    pub closed spec fn version_spec(&self) -> Gna2DeviceVersion {
        self.version
    }

    /// The runtime through which the device was opened.
    pub closed spec fn library_spec(&self) -> GnaLibrary<S> {
        self.library
    }

    /// Queries the number of GNA devices in the system.
    pub fn get_count(library: &GnaLibrary<S>) -> (r: Result<u32, GnaError>)
        ensures
            exists|reply: (Gna2Status, u32)|
                #[trigger] library.table().count_reply(reply) && r == count_outcome(
                    reply.0,
                    reply.1,
                ),
    {
        let (status, count) = library.symbols().device_get_count();
        let r = match check_status(status) {
            Err(e) => Err(e),
            Ok(()) => Ok(count),
        };
        assert(library.table().count_reply((status, count)));
        r
    }

    /// Queries the version of the device with the given index without opening it.
    ///
    /// Fails when the runtime reports no device, when the index is past the last
    /// device, and when either runtime call fails.
    pub fn get_version(library: &GnaLibrary<S>, device_index: u32) -> (r: Result<
        Gna2DeviceVersion,
        GnaError,
    >)
        ensures
            version_lookup(library.table(), device_index, r),
            r matches Err(e) ==> is_lookup_error(e, device_index),
    {
        let (count_status, count) = library.symbols().device_get_count();
        let ghost cr = (count_status, count);
        let ghost unused_vr = (0i32, Gna2DeviceVersion::SoftwareEmulation);
        if count_status != GNA2_STATUS_SUCCESS {
            let r = Err(GnaError::from_status(count_status));
            assert(lookup_replies(library.table(), device_index, cr, unused_vr));
            return r;
        }
        match check_device_index(count, device_index) {
            Err(e) => {
                let r = Err(e);
                assert(lookup_replies(library.table(), device_index, cr, unused_vr));
                r
            },
            Ok(()) => {
                let (version_status, version) = library.symbols().device_get_version(device_index);
                let r = match check_status(version_status) {
                    Err(e) => Err(e),
                    Ok(()) => Ok(version),
                };
                assert(lookup_replies(library.table(), device_index, cr, (version_status, version)));
                r
            },
        }
    }

    /// Opens the device with the given (0-based) index.
    ///
    /// Looks the device up first, as `get_version` does, and fails as it does; then
    /// asks the runtime to open that index and fails when it cannot. The opened device
    /// carries the index and the version that the lookup found.
    pub fn open(library: &GnaLibrary<S>, device_index: u32) -> (r: Result<Self, GnaError>)
        ensures
            open_result(r, *library, device_index),
            r matches Err(e) ==> is_lookup_error(e, device_index),
            r matches Ok(d) ==> d.index_spec() == device_index && d.library_spec().table()
                == library.table(),
    {
        let lookup = Self::get_version(library, device_index);
        let version = match lookup {
            Err(e) => {
                let r = Err(e);
                assert(open_from(r, *library, device_index, lookup, 0));
                return r;
            },
            Ok(v) => v,
        };
        let status = library.symbols().device_open(device_index);
        if status != GNA2_STATUS_SUCCESS {
            let r = Err(GnaError::from_status(status));
            assert(open_from(r, *library, device_index, lookup, status));
            return r;
        }
        let r = Ok(GnaDevice { library: library.clone(), index: device_index, version });
        assert(open_from(r, *library, device_index, lookup, status));
        r
    }

    /// Opens the first device (index 0).
    pub fn open_first(library: &GnaLibrary<S>) -> (r: Result<Self, GnaError>)
        ensures
            open_result(r, *library, 0),
            r matches Err(e) ==> is_lookup_error(e, 0),
            r matches Ok(d) ==> d.index_spec() == 0 && d.library_spec().table() == library.table(),
    {
        Self::open(library, 0)
    }

    /// Creates a software device that targets the given version, for exporting models.
    ///
    /// Hands the target version to the runtime's `Gna2DeviceCreateForExport`; fails when
    /// the runtime lacks that export and when it reports a failure. The new device has
    /// the index that the runtime assigned and the target version.
    pub fn create_for_export(library: &GnaLibrary<S>, target_device_version: Gna2DeviceVersion)
        -> (r: Result<Self, GnaError>)
        ensures
            exists|reply: Option<(Gna2Status, u32)>|
                #[trigger] library.table().export_reply(target_device_version, reply)
                    && exported_as(r, *library, target_device_version, reply),
    {
        let reply = library.symbols().device_create_for_export(target_device_version);
        assert(library.table().export_reply(target_device_version, reply));
        match reply {
            None => {
                proof {
                    reveal_strlit("Gna2DeviceCreateForExport is not supported");
                }
                Err(GnaError::Other("Gna2DeviceCreateForExport is not supported".to_owned()))
            },
            Some((status, device_index)) => {
                if status != GNA2_STATUS_SUCCESS {
                    return Err(GnaError::from_status(status));
                }
                Ok(
                    GnaDevice {
                        library: library.clone(),
                        index: device_index,
                        version: target_device_version,
                    },
                )
            },
        }
    }

    /// Sets the number of worker threads of this device.
    ///
    /// Hands this device's index and `threads` to the runtime's
    /// `Gna2DeviceSetNumberOfThreads`; fails when the runtime lacks that export, and
    /// otherwise reports the status it replied.
    pub fn set_number_of_threads(&self, threads: u32) -> (r: Result<(), GnaError>)
        ensures
            exists|reply: Option<Gna2Status>|
                #[trigger] self.library_spec().table().threads_reply(
                    self.index_spec(),
                    threads,
                    reply,
                ) && threads_set_as(r, reply),
    {
        let reply = self.library.symbols().device_set_number_of_threads(self.index, threads);
        assert(self.library_spec().table().threads_reply(self.index_spec(), threads, reply));
        match reply {
            None => {
                proof {
                    reveal_strlit("Gna2DeviceSetNumberOfThreads is not supported");
                }
                Err(GnaError::Other("Gna2DeviceSetNumberOfThreads is not supported".to_owned()))
            },
            Some(status) => check_status(status),
        }
    }

    /// Allocates `size` bytes of memory bound to this device, as
    /// `GnaBuffer::new_for_device` does for this device's runtime and index.
    pub fn allocate_buffer(&self, size: usize) -> (r: Result<GnaBuffer<S>, GnaError>)
        ensures
            size > u32::MAX ==> (r matches Err(GnaError::Other(m)) && m@
                == crate::memory::size_too_large_message()),
            size <= u32::MAX ==> exists|reply: Option<(Gna2Status, u32, usize)>|
                #[trigger] self.library_spec().table().alloc_reply(
                    self.index_spec(),
                    size as u32,
                    reply,
                ) && crate::memory::allocated_as(r, self.library_spec(), self.index_spec(), reply),
    {
        let r = GnaBuffer::new_for_device(&self.library, self.index, size);
        proof {
            if size <= u32::MAX {
                let reply = choose|reply: Option<(Gna2Status, u32, usize)>|
                    #[trigger] self.library.table().alloc_reply(self.index, size as u32, reply)
                        && crate::memory::allocated_as(r, self.library, self.index, reply);
                assert(self.library_spec().table().alloc_reply(
                    self.index_spec(),
                    size as u32,
                    reply,
                ));
            }
        }
        r
    }

    /// The index of the device.
    pub fn index(&self) -> (i: u32)
        ensures
            i == self.index_spec(),
    {
        self.index
    }

    /// The version of the device.
    pub fn version(&self) -> (v: Gna2DeviceVersion)
        ensures
            v == self.version_spec(),
    {
        self.version
    }

    /// The runtime through which the device was opened.
    pub fn library(&self) -> (lib: &GnaLibrary<S>)
        ensures
            *lib == self.library_spec(),
    {
        &self.library
    }
}

impl<S: GnaSymbolTable> Drop for GnaDevice<S> {
    /// Closes the device through the runtime's `Gna2DeviceClose`; the status it returns
    /// is ignored, as a destructor has no one to report it to.
    #[verifier::external_body]
    fn drop(&mut self)
        opens_invariants none
        no_unwind
    {
        let _ = self.library.symbols().device_close(self.index);
    }
}

} // verus!
