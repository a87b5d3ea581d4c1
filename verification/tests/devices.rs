use rumble::{
    check_copy, copy_bytes, AllocMode, CPUPrim, Device, DeviceAllocator, DeviceCopy, DeviceError,
    DevicePrimitive, Layout, Storage, StorageError, CPU,
};

/// A primitive of the test's own, which is not the host's.
#[derive(Debug)]
struct Shelf(Vec<u8>);

impl DevicePrimitive for Shelf {
    fn len(&self) -> usize {
        self.0.len()
    }
}

/// A device of the test's own. It refuses what is larger than its limit,
/// and it can be told to fail every transfer to the host.
#[derive(Debug)]
struct Cupboard {
    limit: usize,
    broken: bool,
}

impl Cupboard {
    fn sound() -> Cupboard {
        Cupboard { limit: usize::MAX, broken: false }
    }
}

impl DeviceAllocator for Cupboard {
    type Prim = Shelf;

    fn alloc_bytes(&self, layout: Layout, _mode: AllocMode) -> Shelf {
        if layout.size() > self.limit {
            return Shelf(Vec::new());
        }
        Shelf(vec![0xAA; layout.size()])
    }

    fn alloc_init(&self, layout: Layout, init: &[u8], _mode: AllocMode) -> Shelf {
        if layout.size() != init.len() || layout.size() > self.limit {
            return Shelf(Vec::new());
        }
        Shelf(init.to_vec())
    }

    fn dealloc(&self, item: &mut Shelf, _layout: Layout) {
        item.0 = Vec::new();
    }
}

impl Device for Cupboard {
    type Allocator = Cupboard;
    type Prim = Shelf;

    fn copy_from_host(&self, src: &[u8], dst: &mut Shelf) -> Result<(), DeviceError> {
        check_copy(src.len(), dst.0.len())?;
        dst.0.copy_from_slice(src);
        Ok(())
    }

    fn copy_to_host(&self, src: &Shelf, dst: &mut [u8]) -> Result<(), DeviceError> {
        check_copy(src.0.len(), dst.len())?;
        if self.broken {
            return Err(DeviceError::TransferError("Cupboard".to_string()));
        }
        dst.copy_from_slice(&src.0);
        Ok(())
    }

    fn allocate(&self, layout: Layout, mode: AllocMode) -> Result<Shelf, DeviceError> {
        let shelf = self.alloc_bytes(layout, mode);
        if shelf.len() != layout.size() {
            return Err(DeviceError::AllocError);
        }
        Ok(shelf)
    }

    fn deallocate(&self, item: &mut Shelf, layout: Layout) -> Result<(), DeviceError> {
        self.dealloc(item, layout);
        Ok(())
    }
}

impl DeviceCopy for Cupboard {}

fn copy_src_dst() -> AllocMode {
    AllocMode::from_bits_truncate(AllocMode::COPY_SRC | AllocMode::COPY_DST)
}

#[test]
fn storage_goes_to_another_device_and_back() {
    let start = Storage::new(vec![1u32, 2, 3, 4]).unwrap();
    let there = start.to(Cupboard::sound()).unwrap();
    assert_eq!(there.data().0, start.as_ptr().unwrap().to_vec());
    assert_eq!(there.layout(), start.layout());
    let back = there.to(CPU).unwrap();
    assert_eq!(back.as_ptr().unwrap(), start.as_ptr().unwrap());
    assert_eq!(back.as_ptr().unwrap(), &[1, 0, 0, 0, 2, 0, 0, 0, 3, 0, 0, 0, 4, 0, 0, 0][..]);
    assert_eq!(back.layout(), start.layout());
}

#[test]
fn storage_goes_between_all_pairs_of_devices() {
    let bytes: Vec<u8> = (0..=255).collect();
    let start = Storage::new(bytes.clone()).unwrap();
    let host_host = start.to(CPU).unwrap().to(CPU).unwrap();
    assert_eq!(host_host.as_ptr().unwrap(), &bytes[..]);
    let host_other = start.to(Cupboard::sound()).unwrap().to(CPU).unwrap();
    assert_eq!(host_other.as_ptr().unwrap(), &bytes[..]);
    let on_other = start.to(Cupboard::sound()).unwrap();
    let other_other = on_other.to(Cupboard::sound()).unwrap().to(Cupboard::sound()).unwrap();
    assert_eq!(other_other.data().0, bytes);
    let other_host = on_other.to(CPU).unwrap().to(Cupboard::sound()).unwrap();
    assert_eq!(other_host.data().0, bytes);
}

#[test]
fn storage_records_layout_and_device() {
    let storage = Storage::new(vec![7u16, 8, 9]).unwrap();
    assert_eq!(storage.layout().size(), 6);
    assert_eq!(storage.layout().align(), 2);
    assert_eq!(storage.data().len(), 6);
    assert!(!storage.data().is_null());
    let moved = storage.to(Cupboard { limit: 100, broken: false }).unwrap();
    assert_eq!(moved.device().limit, 100);
    assert_eq!(moved.layout().size(), 6);
    assert_eq!(moved.layout().align(), 2);
}

#[test]
fn storage_new_lays_scalars_out_low_byte_first() {
    let storage = Storage::new(vec![0x0102_0304u32, 0xA0B0_C0D0]).unwrap();
    assert_eq!(storage.as_ptr().unwrap(), &[4, 3, 2, 1, 0xD0, 0xC0, 0xB0, 0xA0][..]);
    let signed = Storage::new(vec![-2i16, 1]).unwrap();
    assert_eq!(signed.as_ptr().unwrap(), &[0xFE, 0xFF, 1, 0][..]);
    let wide = Storage::new(vec![u64::MAX - 1]).unwrap();
    assert_eq!(wide.as_ptr().unwrap(), &(u64::MAX - 1).to_le_bytes()[..]);
}

#[test]
fn migration_reports_a_refused_allocation() {
    let storage = Storage::new(vec![1u8, 2, 3, 4]).unwrap();
    let refused = storage.to(Cupboard { limit: 3, broken: false });
    assert_eq!(refused.err(), Some(StorageError::SendError(DeviceError::AllocError)));
}

#[test]
fn migration_reports_a_failed_transfer() {
    let storage = Storage::new(vec![1u8, 2, 3, 4]).unwrap();
    let there = storage.to(Cupboard { limit: 10, broken: true }).unwrap();
    let failed = there.to(CPU);
    assert_eq!(
        failed.err(),
        Some(StorageError::SendError(DeviceError::TransferError("Cupboard".to_string())))
    );
}

#[test]
fn release_gives_the_allocation_back() {
    let storage = Storage::new(vec![1u8, 2, 3]).unwrap();
    assert_eq!(storage.release(), Ok(()));
    let moved = Storage::new(vec![1u8, 2, 3]).unwrap().to(Cupboard::sound()).unwrap();
    assert_eq!(moved.release(), Ok(()));
}

#[test]
fn host_copy_checks_lengths() {
    let mut p = CPUPrim::new(vec![0u8; 4]);
    assert_eq!(CPU.copy_from_host(&[1, 2, 3], &mut p), Err(DeviceError::CopyMismatch(3, 4)));
    assert_eq!(p.as_ptr().unwrap(), &[0, 0, 0, 0][..]);
    assert_eq!(CPU.copy_from_host(&[1, 2, 3, 4, 5], &mut p), Err(DeviceError::CopyMismatch(5, 4)));
    assert_eq!(CPU.copy_from_host(&[1, 2, 3, 4], &mut p), Ok(()));
    assert_eq!(p.as_ptr().unwrap(), &[1, 2, 3, 4][..]);
}

#[test]
fn short_destination_is_left_alone() {
    let p = CPUPrim::new(vec![1, 2, 3, 4]);
    let mut short = [9u8; 3];
    assert_eq!(CPU.copy_to_host(&p, &mut short), Err(DeviceError::CopyMismatch(4, 3)));
    assert_eq!(short, [9, 9, 9]);
    let mut long = [9u8; 5];
    assert_eq!(CPU.copy_to_host(&p, &mut long), Err(DeviceError::CopyMismatch(4, 5)));
    assert_eq!(long, [9, 9, 9, 9, 9]);
    let shelf = Shelf(vec![1, 2, 3, 4]);
    assert_eq!(
        Cupboard::sound().copy_to_host(&shelf, &mut short),
        Err(DeviceError::CopyMismatch(4, 3))
    );
    assert_eq!(short, [9, 9, 9]);
}

#[test]
fn host_copy_round_trip() {
    for len in [0usize, 1, 2, 7, 64, 1000] {
        let data: Vec<u8> = (0..len).map(|i| (i * 31 % 251) as u8).collect();
        let layout = Layout::from_size_align(len, 1).unwrap();
        let mut p = CPU.allocate(layout, copy_src_dst()).unwrap();
        assert_eq!(CPU.copy_from_host(&data, &mut p), Ok(()));
        let mut out = vec![0xFFu8; len];
        assert_eq!(CPU.copy_to_host(&p, &mut out), Ok(()));
        assert_eq!(out, data);
    }
}

#[test]
fn copy_to_goes_through_the_host() {
    let src = CPUPrim::new(vec![5, 6, 7]);
    let mut dst = Shelf(vec![0; 3]);
    assert_eq!(CPU.copy_to(&src, &mut dst, &Cupboard::sound()), Ok(()));
    assert_eq!(dst.0, vec![5, 6, 7]);
    let mut back = CPUPrim::new(vec![0; 3]);
    assert_eq!(Cupboard::sound().copy_to(&dst, &mut back, &CPU), Ok(()));
    assert_eq!(back.as_ptr().unwrap(), &[5, 6, 7][..]);
    let mut wrong = Shelf(vec![0; 2]);
    assert_eq!(
        CPU.copy_to(&src, &mut wrong, &Cupboard::sound()),
        Err(DeviceError::CopyMismatch(3, 2))
    );
    assert_eq!(wrong.0, vec![0, 0]);
}

#[test]
fn host_allocation_is_zeroed() {
    let layout = Layout::from_size_align(16, 8).unwrap();
    let p = CPU.allocate(layout, AllocMode::empty()).unwrap();
    assert_eq!(p.len(), 16);
    assert!(!p.is_empty());
    assert!(!p.is_null());
    assert_eq!(p.as_ptr().unwrap(), &[0u8; 16][..]);
    assert_eq!(DevicePrimitive::len(&p), 16);
    assert!(!DevicePrimitive::is_empty(&p));
}

#[test]
fn zero_size_allocation_and_release_never_fail() {
    for align in [1usize, 2, 4, 8, 4096] {
        let layout = Layout::from_size_align(0, align).unwrap();
        let mut p = CPU.allocate(layout, AllocMode::all()).unwrap();
        assert_eq!(p.len(), 0);
        assert!(p.is_empty());
        assert_eq!(CPU.deallocate(&mut p, layout), Ok(()));
        let device = Cupboard { limit: 0, broken: true };
        let mut shelf = device.allocate(layout, AllocMode::all()).unwrap();
        assert_eq!(device.deallocate(&mut shelf, layout), Ok(()));
    }
}

#[test]
fn host_release_leaves_the_null_primitive() {
    let layout = Layout::from_size_align(8, 8).unwrap();
    let mut p = CPU.allocate(layout, AllocMode::empty()).unwrap();
    assert_eq!(CPU.deallocate(&mut p, layout), Ok(()));
    assert!(p.is_null());
    assert_eq!(p.len(), 0);
    assert_eq!(p.as_ptr(), None);
}

#[test]
fn host_allocator_initialises() {
    let layout = Layout::from_size_align(3, 1).unwrap();
    let p = CPU.alloc_init(layout, &[4, 5, 6], AllocMode::empty());
    assert_eq!(p.as_ptr().unwrap(), &[4, 5, 6][..]);
    let wrong = CPU.alloc_init(layout, &[4, 5], AllocMode::empty());
    assert!(wrong.is_null());
    let plain = CPU.alloc_bytes(layout, AllocMode::empty());
    assert_eq!(plain.as_ptr().unwrap(), &[0, 0, 0][..]);
    let mut gone = plain;
    CPU.dealloc(&mut gone, layout);
    assert!(gone.is_null());
}

#[test]
fn null_primitive_holds_nothing() {
    let p = CPUPrim::null();
    assert!(p.is_null());
    assert!(p.is_empty());
    assert_eq!(p.len(), 0);
    assert_eq!(p.as_ptr(), None);
    let mut p = p;
    assert_eq!(CPU.copy_from_host(&[], &mut p), Ok(()));
    assert_eq!(CPU.copy_from_host(&[1], &mut p), Err(DeviceError::CopyMismatch(1, 0)));
    let mut none: [u8; 0] = [];
    assert_eq!(CPU.copy_to_host(&p, &mut none), Ok(()));
}

#[test]
fn empty_storage_is_reported() {
    let empty = Storage::new(Vec::<u8>::new()).unwrap();
    assert_eq!(empty.as_ptr().unwrap().len(), 0);
    let moved = empty.to(CPU).unwrap();
    assert_eq!(moved.as_ptr(), Err(StorageError::EmptyStorage));
}

#[test]
fn check_copy_compares_lengths() {
    assert_eq!(check_copy(0, 0), Ok(()));
    assert_eq!(check_copy(5, 5), Ok(()));
    assert_eq!(check_copy(5, 6), Err(DeviceError::CopyMismatch(5, 6)));
    assert_eq!(check_copy(6, 5), Err(DeviceError::CopyMismatch(6, 5)));
}

#[test]
fn an_allocation_follows_the_answer_of_the_host() {
    let p = CPUPrim::zeroed(true, Vec::new(), 5);
    assert_eq!(p.as_ptr().unwrap(), &[0, 0, 0, 0, 0][..]);
    let p = CPUPrim::zeroed(true, vec![7, 7, 7], 2);
    assert_eq!(p.as_ptr().unwrap(), &[0, 0][..]);
    let p = CPUPrim::zeroed(true, vec![7], 0);
    assert!(!p.is_null());
    assert!(p.is_empty());
    let p = CPUPrim::zeroed(false, Vec::new(), 5);
    assert!(p.is_null());
    assert_eq!(p.len(), 0);
}

#[test]
fn an_initialised_allocation_follows_the_answer_of_the_host() {
    let p = CPUPrim::filled(true, Vec::new(), &[1, 2, 3]);
    assert_eq!(p.as_ptr().unwrap(), &[1, 2, 3][..]);
    let p = CPUPrim::filled(true, vec![9, 9, 9, 9], &[4]);
    assert_eq!(p.as_ptr().unwrap(), &[4][..]);
    let p = CPUPrim::filled(false, Vec::new(), &[1, 2, 3]);
    assert!(p.is_null());
    assert_eq!(p.as_ptr(), None);
}

#[test]
fn copy_bytes_copies_only_between_equal_lengths() {
    let mut dst = [0u8; 3];
    assert_eq!(copy_bytes(&[1, 2, 3], &mut dst), Ok(()));
    assert_eq!(dst, [1, 2, 3]);
    assert_eq!(copy_bytes(&[9, 9], &mut dst), Err(DeviceError::CopyMismatch(2, 3)));
    assert_eq!(dst, [1, 2, 3]);
    assert_eq!(copy_bytes(&[9, 9, 9, 9], &mut dst), Err(DeviceError::CopyMismatch(4, 3)));
    assert_eq!(dst, [1, 2, 3]);
    let mut none: [u8; 0] = [];
    assert_eq!(copy_bytes(&[], &mut none), Ok(()));
}
