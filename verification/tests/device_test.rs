use std::cell::Cell;

use nanai_gna_dll_load::device::{check_device_index, GnaDevice};
use nanai_gna_dll_load::error::{check_status, GnaError};
use nanai_gna_dll_load::loader::GnaLibrary;
use nanai_gna_dll_load::memory::GnaBuffer;
use nanai_gna_dll_load::symbol_table::GnaSymbolTable;
use nanai_gna_dll_load::types::{Gna2DeviceVersion, Gna2Status, GNA2_STATUS_SUCCESS};

const MOCK_ERROR_STATUS: Gna2Status = 100;

/// A runtime that reports a configurable number of devices and counts the calls made.
struct MockSymbols {
    device_count: u32,
    count_status: Gna2Status,
    open_status: Gna2Status,
    export_supported: bool,
    threads_supported: bool,
    alloc_supported: bool,
    close_call_count: Cell<u32>,
    free_call_count: Cell<u32>,
    next_address: Cell<usize>,
    last_threads: Cell<u32>,
    last_export_target: Cell<Option<Gna2DeviceVersion>>,
}

impl MockSymbols {
    fn with_count(device_count: u32) -> MockSymbols {
        MockSymbols {
            device_count,
            count_status: GNA2_STATUS_SUCCESS,
            open_status: GNA2_STATUS_SUCCESS,
            export_supported: false,
            threads_supported: true,
            alloc_supported: true,
            close_call_count: Cell::new(0),
            free_call_count: Cell::new(0),
            next_address: Cell::new(0x1000),
            last_threads: Cell::new(0),
            last_export_target: Cell::new(None),
        }
    }
}

impl GnaSymbolTable for MockSymbols {
    fn device_get_count(&self) -> (Gna2Status, u32) {
        (self.count_status, self.device_count)
    }

    fn device_get_version(&self, device_index: u32) -> (Gna2Status, Gna2DeviceVersion) {
        if device_index < self.device_count {
            (GNA2_STATUS_SUCCESS, Gna2DeviceVersion::SOFTWARE_EMULATION)
        } else {
            (MOCK_ERROR_STATUS, Gna2DeviceVersion::default())
        }
    }

    fn device_open(&self, _device_index: u32) -> Gna2Status {
        self.open_status
    }

    fn device_close(&self, _device_index: u32) -> Gna2Status {
        self.close_call_count.set(self.close_call_count.get() + 1);
        GNA2_STATUS_SUCCESS
    }

    fn device_create_for_export(
        &self,
        target_device_version: Gna2DeviceVersion,
    ) -> Option<(Gna2Status, u32)> {
        if self.export_supported {
            self.last_export_target.set(Some(target_device_version));
            Some((GNA2_STATUS_SUCCESS, 42))
        } else {
            None
        }
    }

    fn device_set_number_of_threads(
        &self,
        _device_index: u32,
        number_of_threads: u32,
    ) -> Option<Gna2Status> {
        if self.threads_supported {
            self.last_threads.set(number_of_threads);
            Some(GNA2_STATUS_SUCCESS)
        } else {
            None
        }
    }

    fn memory_alloc_for_device(
        &self,
        _device_index: u32,
        size_requested: u32,
    ) -> Option<(Gna2Status, u32, usize)> {
        if !self.alloc_supported {
            return None;
        }
        if size_requested == 0 {
            return Some((MOCK_ERROR_STATUS, 0, 0));
        }
        let address = self.next_address.get();
        self.next_address.set(address + size_requested as usize);
        Some((GNA2_STATUS_SUCCESS, size_requested, address))
    }

    fn memory_free(&self, _memory_address: usize) -> Gna2Status {
        self.free_call_count.set(self.free_call_count.get() + 1);
        GNA2_STATUS_SUCCESS
    }
}

fn setup_mock_library() -> GnaLibrary<MockSymbols> {
    setup_mock_library_with_count(1)
}

fn setup_mock_library_with_count(count: u32) -> GnaLibrary<MockSymbols> {
    GnaLibrary::from_symbol_table(MockSymbols::with_count(count))
}

fn setup_mock_library_for_export() -> GnaLibrary<MockSymbols> {
    let mut symbols = MockSymbols::with_count(1);
    symbols.export_supported = true;
    GnaLibrary::from_symbol_table(symbols)
}

fn get_mock_close_count(library: &GnaLibrary<MockSymbols>) -> u32 {
    library.symbols().close_call_count.get()
}

#[test]
fn test_get_count() {
    let mock_library = setup_mock_library_with_count(3);
    assert_eq!(GnaDevice::get_count(&mock_library).unwrap(), 3);
}

#[test]
fn test_get_version() {
    let mock_library = setup_mock_library_with_count(2);
    let version = GnaDevice::get_version(&mock_library, 0).expect("Failed to get version");
    assert_eq!(version, Gna2DeviceVersion::SOFTWARE_EMULATION);
    assert!(GnaDevice::get_version(&mock_library, 2).is_err());
}

#[test]
fn test_open_device_success() {
    let mock_library = setup_mock_library();
    let device = GnaDevice::open(&mock_library, 0).expect("Failed to open device");
    assert_eq!(device.index(), 0);
    assert_eq!(device.version(), Gna2DeviceVersion::SOFTWARE_EMULATION);
}

#[test]
fn test_open_first() {
    let mock_library = setup_mock_library();
    let device = GnaDevice::open_first(&mock_library).expect("Failed to open first device");
    assert_eq!(device.index(), 0);
}

#[test]
fn test_create_for_export() {
    let mock_library = setup_mock_library_for_export();
    let dummy_version = Gna2DeviceVersion::default();
    let device = GnaDevice::create_for_export(&mock_library, dummy_version).unwrap();
    assert!(device.index() > 0);
}

#[test]
fn test_set_number_of_threads() {
    let mock_library = setup_mock_library();
    let device = GnaDevice::open(&mock_library, 0).unwrap();
    assert!(device.set_number_of_threads(8).is_ok());
}

#[test]
fn test_allocate_buffer() {
    let mock_library = setup_mock_library();
    let device = GnaDevice::open(&mock_library, 0).unwrap();
    let buffer = device
        .allocate_buffer(1024)
        .expect("Failed to allocate buffer");
    assert_eq!(buffer.len(), 1024);
}

#[test]
fn test_raii_cleanup() {
    let mock_library = setup_mock_library();
    {
        let _device = GnaDevice::open(&mock_library, 0).expect("Setup failed");
        assert_eq!(get_mock_close_count(&mock_library), 0);
    }
    assert_eq!(get_mock_close_count(&mock_library), 1);
}

#[test]
fn get_count_reports_failed_status() {
    let mut symbols = MockSymbols::with_count(3);
    symbols.count_status = 7;
    let library = GnaLibrary::from_symbol_table(symbols);
    assert!(matches!(GnaDevice::get_count(&library), Err(GnaError::Status(7))));
}

#[test]
fn get_version_without_devices() {
    let library = setup_mock_library_with_count(0);
    assert!(matches!(
        GnaDevice::get_version(&library, 0),
        Err(GnaError::NoDevicesAvailable)
    ));
}

#[test]
fn get_version_index_out_of_range() {
    let library = setup_mock_library_with_count(2);
    assert!(matches!(
        GnaDevice::get_version(&library, 5),
        Err(GnaError::DeviceIndexOutOfRange(5, 2))
    ));
}

#[test]
fn open_fails_when_runtime_refuses() {
    let mut symbols = MockSymbols::with_count(1);
    symbols.open_status = MOCK_ERROR_STATUS;
    let library = GnaLibrary::from_symbol_table(symbols);
    assert!(matches!(
        GnaDevice::open(&library, 0),
        Err(GnaError::Status(MOCK_ERROR_STATUS))
    ));
    // A device that was never opened is never closed.
    assert_eq!(get_mock_close_count(&library), 0);
}

#[test]
fn open_out_of_range_index_fails() {
    let library = setup_mock_library_with_count(1);
    assert!(matches!(
        GnaDevice::open(&library, 1),
        Err(GnaError::DeviceIndexOutOfRange(1, 1))
    ));
}

#[test]
fn open_first_without_devices_fails() {
    let library = setup_mock_library_with_count(0);
    assert!(matches!(
        GnaDevice::open_first(&library),
        Err(GnaError::NoDevicesAvailable)
    ));
}

#[test]
fn create_for_export_keeps_target_version_and_runtime_index() {
    let library = setup_mock_library_for_export();
    let device = GnaDevice::create_for_export(&library, Gna2DeviceVersion::Version3_5).unwrap();
    assert_eq!(device.index(), 42);
    assert_eq!(device.version(), Gna2DeviceVersion::Version3_5);
    assert_eq!(
        library.symbols().last_export_target.get(),
        Some(Gna2DeviceVersion::Version3_5)
    );
}

#[test]
fn create_for_export_unsupported() {
    let library = setup_mock_library();
    match GnaDevice::create_for_export(&library, Gna2DeviceVersion::default()) {
        Err(GnaError::Other(message)) => {
            assert_eq!(message, "Gna2DeviceCreateForExport is not supported")
        }
        _ => panic!("expected the unsupported error"),
    }
}

#[test]
fn set_number_of_threads_reaches_runtime() {
    let library = setup_mock_library();
    let device = GnaDevice::open(&library, 0).unwrap();
    device.set_number_of_threads(6).unwrap();
    assert_eq!(library.symbols().last_threads.get(), 6);
}

#[test]
fn set_number_of_threads_unsupported() {
    let mut symbols = MockSymbols::with_count(1);
    symbols.threads_supported = false;
    let library = GnaLibrary::from_symbol_table(symbols);
    let device = GnaDevice::open(&library, 0).unwrap();
    match device.set_number_of_threads(2) {
        Err(GnaError::Other(message)) => {
            assert_eq!(message, "Gna2DeviceSetNumberOfThreads is not supported")
        }
        _ => panic!("expected the unsupported error"),
    }
}

#[test]
fn device_shares_its_library() {
    let library = setup_mock_library();
    let device = GnaDevice::open(&library, 0).unwrap();
    assert_eq!(device.library().symbols().device_count, 1);
    drop(device);
    assert_eq!(get_mock_close_count(&library), 1);
}

#[test]
fn buffer_is_freed_on_drop() {
    let library = setup_mock_library();
    let device = GnaDevice::open(&library, 0).unwrap();
    {
        let buffer = device.allocate_buffer(64).unwrap();
        assert_eq!(buffer.device_index(), 0);
        assert!(!buffer.is_empty());
        assert_eq!(library.symbols().free_call_count.get(), 0);
    }
    assert_eq!(library.symbols().free_call_count.get(), 1);
}

#[test]
fn buffer_allocation_failure_is_reported() {
    let library = setup_mock_library();
    let device = GnaDevice::open(&library, 0).unwrap();
    assert!(matches!(
        device.allocate_buffer(0),
        Err(GnaError::Status(MOCK_ERROR_STATUS))
    ));
}

#[test]
fn buffer_allocation_unsupported() {
    let mut symbols = MockSymbols::with_count(1);
    symbols.alloc_supported = false;
    let library = GnaLibrary::from_symbol_table(symbols);
    match GnaBuffer::new_for_device(&library, 0, 16) {
        Err(GnaError::Other(message)) => {
            assert_eq!(message, "Gna2MemoryAllocForDevice is not supported")
        }
        _ => panic!("expected the unsupported error"),
    }
}

#[test]
fn buffer_size_beyond_u32_is_refused() {
    let library = setup_mock_library();
    let size = (u32::MAX as usize).wrapping_add(1);
    if size == 0 {
        return;
    }
    match GnaBuffer::new_for_device(&library, 0, size) {
        Err(GnaError::Other(message)) => {
            assert_eq!(message, "requested buffer size does not fit in 32 bits")
        }
        _ => panic!("expected the size error"),
    }
}

#[test]
fn status_check_values() {
    assert!(check_status(GNA2_STATUS_SUCCESS).is_ok());
    assert!(matches!(check_status(-3), Err(GnaError::Status(-3))));
    assert!(matches!(GnaError::from_status(12), GnaError::Status(12)));
}

#[test]
fn device_index_check_values() {
    assert!(matches!(check_device_index(0, 0), Err(GnaError::NoDevicesAvailable)));
    assert!(matches!(
        check_device_index(3, 3),
        Err(GnaError::DeviceIndexOutOfRange(3, 3))
    ));
    assert!(check_device_index(3, 2).is_ok());
}

#[test]
fn default_device_version_is_software_emulation() {
    assert_eq!(Gna2DeviceVersion::default(), Gna2DeviceVersion::SoftwareEmulation);
}
