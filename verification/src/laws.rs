use vstd::prelude::*;

use crate::device::{
    exported_as, lookup_replies, open_from, open_result, threads_set_as, version_lookup, GnaDevice,
};
use crate::error::GnaError;
use crate::loader::GnaLibrary;
use crate::memory::{allocated_as, GnaBuffer};
use crate::symbol_table::GnaSymbolTable;
use crate::types::{Gna2DeviceVersion, Gna2Status, GNA2_STATUS_SUCCESS};

verus! {

// Laws of the device API. Each takes a result as the operation's `ensures` describes
// it, together with what the runtime replies, and states what the result must be.

/// Looking up a device that the runtime counts, and whose version query succeeds with
/// `v`, gives `Ok(v)`.
pub proof fn law_version_found<S: GnaSymbolTable>(
    table: S,
    device_index: u32,
    count: u32,
    v: Gna2DeviceVersion,
    r: Result<Gna2DeviceVersion, GnaError>,
)
    requires
        version_lookup(table, device_index, r),
        device_index < count,
        forall|cr: (Gna2Status, u32)| #[trigger]
            table.count_reply(cr) ==> cr == (GNA2_STATUS_SUCCESS, count),
        forall|vr: (Gna2Status, Gna2DeviceVersion)| #[trigger]
            table.version_reply(device_index, vr) ==> vr == (GNA2_STATUS_SUCCESS, v),
    ensures
        r == Ok::<Gna2DeviceVersion, GnaError>(v),
{
    let (cr, vr) = choose|cr: (Gna2Status, u32), vr: (Gna2Status, Gna2DeviceVersion)|
        #[trigger] lookup_replies(table, device_index, cr, vr) && r
            == crate::device::version_outcome(cr.0, cr.1, device_index, vr.0, vr.1);
    assert(table.count_reply(cr));
    assert(cr == (GNA2_STATUS_SUCCESS, count));
    assert(table.version_reply(device_index, vr));
}

/// A version lookup reports that no device is available only when the runtime's count
/// query succeeded with a count of zero.
pub proof fn law_no_devices_only_on_zero_count<S: GnaSymbolTable>(
    table: S,
    device_index: u32,
    r: Result<Gna2DeviceVersion, GnaError>,
)
    requires
        version_lookup(table, device_index, r),
        r matches Err(GnaError::NoDevicesAvailable),
    ensures
        table.count_reply((GNA2_STATUS_SUCCESS, 0)),
{
    let (cr, vr) = choose|cr: (Gna2Status, u32), vr: (Gna2Status, Gna2DeviceVersion)|
        #[trigger] lookup_replies(table, device_index, cr, vr) && r
            == crate::device::version_outcome(cr.0, cr.1, device_index, vr.0, vr.1);
    assert(cr == (GNA2_STATUS_SUCCESS, 0u32));
}

/// Opening a device that the runtime counts, whose version query succeeds with `v` and
/// whose open call succeeds, gives a device with that index and version `v`.
pub proof fn law_open_succeeds<S: GnaSymbolTable>(
    library: GnaLibrary<S>,
    device_index: u32,
    count: u32,
    v: Gna2DeviceVersion,
    r: Result<GnaDevice<S>, GnaError>,
)
    requires
        open_result(r, library, device_index),
        device_index < count,
        forall|cr: (Gna2Status, u32)| #[trigger]
            library.table().count_reply(cr) ==> cr == (GNA2_STATUS_SUCCESS, count),
        forall|vr: (Gna2Status, Gna2DeviceVersion)| #[trigger]
            library.table().version_reply(device_index, vr) ==> vr == (GNA2_STATUS_SUCCESS, v),
        forall|os: Gna2Status| #[trigger]
            library.table().open_reply(device_index, os) ==> os == GNA2_STATUS_SUCCESS,
    ensures
        r is Ok,
        r->Ok_0.index_spec() == device_index,
        r->Ok_0.version_spec() == v,
        r->Ok_0.library_spec().table() == library.table(),
{
    let (lookup, os) = choose|lookup: Result<Gna2DeviceVersion, GnaError>, os: Gna2Status|
        #[trigger] open_from(r, library, device_index, lookup, os);
    law_version_found(library.table(), device_index, count, v, lookup);
    assert(library.table().open_reply(device_index, os));
}

/// A device created for export carries exactly the target version, and the index that
/// the runtime assigned when every reply of the runtime is a success with that index.
pub proof fn law_export_keeps_target<S: GnaSymbolTable>(
    library: GnaLibrary<S>,
    target: Gna2DeviceVersion,
    index: u32,
    r: Result<GnaDevice<S>, GnaError>,
)
    requires
        exists|reply: Option<(Gna2Status, u32)>|
            #[trigger] library.table().export_reply(target, reply) && exported_as(
                r,
                library,
                target,
                reply,
            ),
    ensures
        r matches Ok(d) ==> d.version_spec() == target,
        (forall|reply: Option<(Gna2Status, u32)>| #[trigger]
            library.table().export_reply(target, reply) ==> reply == Some(
                (GNA2_STATUS_SUCCESS, index),
            )) ==> (r is Ok && r->Ok_0.index_spec() == index && r->Ok_0.version_spec()
            == target),
{
    let reply = choose|reply: Option<(Gna2Status, u32)>|
        #[trigger] library.table().export_reply(target, reply) && exported_as(
            r,
            library,
            target,
            reply,
        );
    assert(library.table().export_reply(target, reply));
}

/// Setting the thread count fails with the status that the runtime replied whenever that
/// status is not success, and succeeds only where the runtime may reply success.
pub proof fn law_threads_follow_reply<S: GnaSymbolTable>(
    device: GnaDevice<S>,
    threads: u32,
    status: Gna2Status,
    r: Result<(), GnaError>,
)
    requires
        exists|reply: Option<Gna2Status>|
            #[trigger] device.library_spec().table().threads_reply(
                device.index_spec(),
                threads,
                reply,
            ) && threads_set_as(r, reply),
    ensures
        r is Ok ==> device.library_spec().table().threads_reply(
            device.index_spec(),
            threads,
            Some(GNA2_STATUS_SUCCESS),
        ),
        (forall|reply: Option<Gna2Status>| #[trigger]
            device.library_spec().table().threads_reply(device.index_spec(), threads, reply)
                ==> reply == Some(status)) && status != GNA2_STATUS_SUCCESS ==> (r matches Err(
            e) && e == GnaError::Status(status)),
{
    let reply = choose|reply: Option<Gna2Status>|
        #[trigger] device.library_spec().table().threads_reply(
            device.index_spec(),
            threads,
            reply,
        ) && threads_set_as(r, reply);
    assert(device.library_spec().table().threads_reply(device.index_spec(), threads, reply));
}

/// A buffer allocated with success has the length that the runtime granted: the
/// requested size whenever the runtime grants what was asked.
pub proof fn law_buffer_has_granted_size<S: GnaSymbolTable>(
    library: GnaLibrary<S>,
    device_index: u32,
    size: usize,
    granted: u32,
    address: usize,
    r: Result<GnaBuffer<S>, GnaError>,
)
    requires
        size <= u32::MAX,
        exists|reply: Option<(Gna2Status, u32, usize)>|
            #[trigger] library.table().alloc_reply(device_index, size as u32, reply)
                && allocated_as(r, library, device_index, reply),
        forall|reply: Option<(Gna2Status, u32, usize)>| #[trigger]
            library.table().alloc_reply(device_index, size as u32, reply) ==> reply == Some(
                (GNA2_STATUS_SUCCESS, granted, address),
            ),
    ensures
        r is Ok,
        r->Ok_0.size_spec() == granted,
        r->Ok_0.device_spec() == device_index,
        granted == size ==> r->Ok_0.size_spec() == size,
{
    let reply = choose|reply: Option<(Gna2Status, u32, usize)>|
        #[trigger] library.table().alloc_reply(device_index, size as u32, reply)
            && allocated_as(r, library, device_index, reply);
    assert(library.table().alloc_reply(device_index, size as u32, reply));
}

/// Counting devices gives the count that the runtime replied when its query succeeds,
/// and the runtime's status as the error when it fails.
pub proof fn law_count_follows_reply<S: GnaSymbolTable>(
    table: S,
    status: Gna2Status,
    count: u32,
    r: Result<u32, GnaError>,
)
    requires
        exists|reply: (Gna2Status, u32)|
            #[trigger] table.count_reply(reply) && r == crate::device::count_outcome(
                reply.0,
                reply.1,
            ),
        forall|cr: (Gna2Status, u32)| #[trigger] table.count_reply(cr) ==> cr == (status, count),
    ensures
        status == GNA2_STATUS_SUCCESS ==> r == Ok::<u32, GnaError>(count),
        status != GNA2_STATUS_SUCCESS ==> (r matches Err(e) && e == GnaError::Status(status)),
{
    let reply = choose|reply: (Gna2Status, u32)|
        #[trigger] table.count_reply(reply) && r == crate::device::count_outcome(
            reply.0,
            reply.1,
        );
    assert(table.count_reply(reply));
}

/// Looking up an index at or past a non-zero device count that the runtime replied fails
/// with that index and that count.
pub proof fn law_index_out_of_range<S: GnaSymbolTable>(
    table: S,
    device_index: u32,
    count: u32,
    r: Result<Gna2DeviceVersion, GnaError>,
)
    requires
        version_lookup(table, device_index, r),
        0 < count <= device_index,
        forall|cr: (Gna2Status, u32)| #[trigger]
            table.count_reply(cr) ==> cr == (GNA2_STATUS_SUCCESS, count),
    ensures
        r matches Err(e) && e == GnaError::DeviceIndexOutOfRange(device_index, count),
{
    let (cr, vr) = choose|cr: (Gna2Status, u32), vr: (Gna2Status, Gna2DeviceVersion)|
        #[trigger] lookup_replies(table, device_index, cr, vr) && r
            == crate::device::version_outcome(cr.0, cr.1, device_index, vr.0, vr.1);
    assert(table.count_reply(cr));
}

/// Opening a device whose lookup succeeds fails with the open call's status when that
/// status is not success.
pub proof fn law_open_reports_open_failure<S: GnaSymbolTable>(
    library: GnaLibrary<S>,
    device_index: u32,
    count: u32,
    v: Gna2DeviceVersion,
    status: Gna2Status,
    r: Result<GnaDevice<S>, GnaError>,
)
    requires
        open_result(r, library, device_index),
        device_index < count,
        status != GNA2_STATUS_SUCCESS,
        forall|cr: (Gna2Status, u32)| #[trigger]
            library.table().count_reply(cr) ==> cr == (GNA2_STATUS_SUCCESS, count),
        forall|vr: (Gna2Status, Gna2DeviceVersion)| #[trigger]
            library.table().version_reply(device_index, vr) ==> vr == (GNA2_STATUS_SUCCESS, v),
        forall|os: Gna2Status| #[trigger]
            library.table().open_reply(device_index, os) ==> os == status,
    ensures
        r matches Err(e) && e == GnaError::Status(status),
{
    let (lookup, os) = choose|lookup: Result<Gna2DeviceVersion, GnaError>, os: Gna2Status|
        #[trigger] open_from(r, library, device_index, lookup, os);
    law_version_found(library.table(), device_index, count, v, lookup);
    assert(library.table().open_reply(device_index, os));
}

/// Where the runtime lacks `Gna2DeviceCreateForExport`, creating an export device fails
/// with the error that names the missing export.
pub proof fn law_export_missing<S: GnaSymbolTable>(
    library: GnaLibrary<S>,
    target: Gna2DeviceVersion,
    r: Result<GnaDevice<S>, GnaError>,
)
    requires
        exists|reply: Option<(Gna2Status, u32)>|
            #[trigger] library.table().export_reply(target, reply) && exported_as(
                r,
                library,
                target,
                reply,
            ),
        forall|reply: Option<(Gna2Status, u32)>| #[trigger]
            library.table().export_reply(target, reply) ==> reply is None,
    ensures
        r matches Err(GnaError::Other(m)) && m@ == crate::device::export_unsupported_message(),
{
    let e = choose|reply: Option<(Gna2Status, u32)>|
        #[trigger] library.table().export_reply(target, reply) && exported_as(
            r,
            library,
            target,
            reply,
        );
    assert(library.table().export_reply(target, e));
}

/// Where the runtime lacks `Gna2DeviceSetNumberOfThreads`, setting the thread count
/// fails with the error that names the missing export.
pub proof fn law_threads_missing<S: GnaSymbolTable>(
    device: GnaDevice<S>,
    threads: u32,
    r: Result<(), GnaError>,
)
    requires
        exists|reply: Option<Gna2Status>|
            #[trigger] device.library_spec().table().threads_reply(
                device.index_spec(),
                threads,
                reply,
            ) && threads_set_as(r, reply),
        forall|reply: Option<Gna2Status>| #[trigger]
            device.library_spec().table().threads_reply(device.index_spec(), threads, reply)
                ==> reply is None,
    ensures
        r matches Err(GnaError::Other(m)) && m@ == crate::device::threads_unsupported_message(),
{
    let t = choose|reply: Option<Gna2Status>|
        #[trigger] device.library_spec().table().threads_reply(
            device.index_spec(),
            threads,
            reply,
        ) && threads_set_as(r, reply);
    assert(device.library_spec().table().threads_reply(device.index_spec(), threads, t));
}

/// Where the runtime lacks `Gna2MemoryAllocForDevice`, allocating a buffer of a size
/// that fits in 32 bits fails with the error that names the missing export.
pub proof fn law_alloc_missing<S: GnaSymbolTable>(
    library: GnaLibrary<S>,
    device_index: u32,
    size: usize,
    r: Result<GnaBuffer<S>, GnaError>,
)
    requires
        size <= u32::MAX,
        exists|reply: Option<(Gna2Status, u32, usize)>|
            #[trigger] library.table().alloc_reply(device_index, size as u32, reply)
                && allocated_as(r, library, device_index, reply),
        forall|reply: Option<(Gna2Status, u32, usize)>| #[trigger]
            library.table().alloc_reply(device_index, size as u32, reply) ==> reply is None,
    ensures
        r matches Err(GnaError::Other(m)) && m@ == crate::memory::alloc_unsupported_message(),
{
    let a = choose|reply: Option<(Gna2Status, u32, usize)>|
        #[trigger] library.table().alloc_reply(device_index, size as u32, reply)
            && allocated_as(r, library, device_index, reply);
    assert(library.table().alloc_reply(device_index, size as u32, a));
}

} // verus!
