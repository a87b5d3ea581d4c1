//! What every device backend provides: allocation, release and copies.

use crate::alloc_mode::AllocMode;
use crate::layout::Layout;
use std::fmt::Debug;
use vstd::prelude::*;

verus! {

/// What can go wrong on a device.
#[derive(Debug, Clone, PartialEq, Eq)]
pub enum DeviceError {
    /// A copy from a source of the first length to a destination of the second.
    CopyMismatch(usize, usize),
    /// The device's allocator rejected the layout.
    AllocError,
    /// Data could not be transferred between the device, here named, and the host.
    TransferError(String),
    /// A resource that the device needs could not be obtained.
    ResourceError(String),
}

/// A copy of `src_len` bytes into `dst_len` bytes goes ahead only where the
/// two lengths agree.
pub fn check_copy(src_len: usize, dst_len: usize) -> (r: Result<(), DeviceError>)
    ensures
        r == if src_len == dst_len {
            Ok::<(), DeviceError>(())
        } else {
            Err::<(), DeviceError>(DeviceError::CopyMismatch(src_len, dst_len))
        },
{
    if src_len != dst_len {
        return Err(DeviceError::CopyMismatch(src_len, dst_len));
    }
    Ok(())
}

/// Copies `src` into `dst` if the two are as long; else it leaves `dst` as
/// it is and says how the lengths differ.
pub fn copy_bytes(src: &[u8], dst: &mut [u8]) -> (r: Result<(), DeviceError>)
    ensures
        final(dst)@.len() == old(dst)@.len(),
        src@.len() == old(dst)@.len() ==> r == Ok::<(), DeviceError>(()) && final(dst)@ == src@,
        src@.len() != old(dst)@.len() ==> r == Err::<(), DeviceError>(
            DeviceError::CopyMismatch(src@.len() as usize, old(dst)@.len() as usize),
        ) && final(dst)@ == old(dst)@,
{
    check_copy(src.len(), dst.len())?;
    let n = src.len();
    let mut i: usize = 0;
    while i < n
        invariant
            n == src@.len(),
            n == dst@.len(),
            i <= n,
            forall|j: int| 0 <= j < i ==> dst@[j] == src@[j],
        decreases n - i,
    {
        dst[i] = src[i];
        i += 1;
    }
    assert(dst@ =~= src@);
    Ok(())
}

/// The memory of a device behind one handle: a span of bytes.
///
/// A primitive with no allocation behind it holds no bytes; that is what is
/// left of one that was released.
pub trait DevicePrimitive: Debug {
    /// The bytes that the primitive holds. A backend says here what they
    /// are; of one that does not, nothing is known of them.
    open spec fn bytes(&self) -> Seq<u8> {
        arbitrary()
    }

    /// Returns the size of the primitive in bytes.
    fn len(&self) -> (n: usize)
        ensures
            n == self.bytes().len(),
    ;

    fn is_empty(&self) -> (b: bool)
        ensures
            b == (self.bytes().len() == 0),
    {
        self.len() == 0
    }
}

/// DeviceAllocator hands out and takes back the memory of a device. A
/// request that it cannot meet is answered with a primitive that holds
/// nothing.
pub trait DeviceAllocator {
    /// The primitive type used to represent memory on the device.
    type Prim: DevicePrimitive;

    /// Allocates memory on the device.
    fn alloc_bytes(&self, layout: Layout, mode: AllocMode) -> (p: Self::Prim)
        ensures
            p.bytes().len() == layout.size() || p.bytes().len() == 0,
    ;

    /// Allocates memory on the device and initializes it with the given
    /// data. Data that is not as long as the layout says is answered with a
    /// primitive that holds nothing.
    fn alloc_init(&self, layout: Layout, init: &[u8], mode: AllocMode) -> (p: Self::Prim)
        ensures
            p.bytes() == init@ || p.bytes().len() == 0,
            init@.len() != layout.size() ==> p.bytes().len() == 0,
    ;

    /// Deallocates memory on the device. The layout is the one that the
    /// memory was allocated with.
    fn dealloc(&self, item: &mut Self::Prim, layout: Layout)
        requires
            old(item).bytes().len() == layout.size(),
        ensures
            final(item).bytes().len() == 0,
    ;
}

/// What `copy_from_host` has done when it returns `r`: `before` and `after`
/// are the destination at the call and at the return.
pub open spec fn copied_from_host<P: DevicePrimitive>(
    src: Seq<u8>,
    before: P,
    after: P,
    r: Result<(), DeviceError>,
) -> bool {
    &&& after.bytes().len() == before.bytes().len()
    &&& src.len() != before.bytes().len() ==> after == before && r == Err::<(), DeviceError>(
        DeviceError::CopyMismatch(src.len() as usize, before.bytes().len() as usize),
    )
    &&& src.len() == before.bytes().len() ==> match r {
        Ok(()) => after.bytes() == src,
        Err(e) => e is TransferError,
    }
}

/// What `copy_to_host` has done when it returns `r`: `before` and `after`
/// are the destination at the call and at the return. Only a copy that
/// succeeds writes to the destination.
pub open spec fn copied_to_host<P: DevicePrimitive>(
    src: P,
    before: Seq<u8>,
    after: Seq<u8>,
    r: Result<(), DeviceError>,
) -> bool {
    &&& after.len() == before.len()
    &&& src.bytes().len() != before.len() ==> after == before && r == Err::<(), DeviceError>(
        DeviceError::CopyMismatch(src.bytes().len() as usize, before.len() as usize),
    )
    &&& src.bytes().len() == before.len() ==> match r {
        Ok(()) => after == src.bytes(),
        Err(e) => e is TransferError && after == before,
    }
}

/// What `copy_to` has done when it returns `r`: `before` and `after` are
/// the destination, on the other device, at the call and at the return.
pub open spec fn copied_across<P: DevicePrimitive, Q: DevicePrimitive>(
    src: P,
    before: Q,
    after: Q,
    r: Result<(), DeviceError>,
) -> bool {
    &&& after.bytes().len() == before.bytes().len()
    &&& src.bytes().len() != before.bytes().len() ==> after == before && r == Err::<
        (),
        DeviceError,
    >(DeviceError::CopyMismatch(src.bytes().len() as usize, before.bytes().len() as usize))
    &&& src.bytes().len() == before.bytes().len() ==> match r {
        Ok(()) => after.bytes() == src.bytes(),
        Err(e) => e is TransferError,
    }
}

/// What `allocate` has done when it returns `r` for `layout`: the primitive
/// is of the layout's size, and only a layout of some bytes is ever refused.
pub open spec fn allocated<P: DevicePrimitive>(layout: Layout, r: Result<P, DeviceError>) -> bool {
    match r {
        Ok(p) => p.bytes().len() == layout.size(),
        Err(e) => e == DeviceError::AllocError && layout.size() != 0,
    }
}

/// What `deallocate` has done when it returns `r`: `before` and `after` are
/// the primitive at the call and at the return. A released primitive holds
/// nothing, one that could not be released is as it was, and the release of
/// no bytes never fails.
pub open spec fn deallocated<P: DevicePrimitive>(
    layout: Layout,
    before: P,
    after: P,
    r: Result<(), DeviceError>,
) -> bool {
    &&& r is Ok ==> after.bytes().len() == 0
    &&& r is Err ==> after == before
    &&& layout.size() == 0 ==> r is Ok
}

/// Device is an abstraction for a device on which memory can be allocated.
/// Devices only work on bytes, storage handles higher level types.
pub trait Device {
    /// The allocator used to allocate memory on the device.
    type Allocator: DeviceAllocator + ?Sized;

    /// The primitive type used to represent memory on the device.
    type Prim: DevicePrimitive;

    /// Writes `src` into `dst`, which must be as long.
    fn copy_from_host(&self, src: &[u8], dst: &mut Self::Prim) -> (r: Result<(), DeviceError>)
        ensures
            copied_from_host(src@, *old(dst), *final(dst), r),
    ;

    /// Reads `src` into `dst`, which must be as long. Where it is not,
    /// nothing is written.
    fn copy_to_host(&self, src: &Self::Prim, dst: &mut [u8]) -> (r: Result<(), DeviceError>)
        ensures
            copied_to_host(*src, old(dst)@, final(dst)@, r),
    ;

    /// Reserves storage of the layout's size. A layout of no bytes is never
    /// refused.
    fn allocate(&self, layout: Layout, mode: AllocMode) -> (r: Result<Self::Prim, DeviceError>)
        ensures
            allocated(layout, r),
    ;

    /// Releases what backs `item`; `layout` is the one that it was allocated
    /// with. Releasing no bytes never fails.
    fn deallocate(&self, item: &mut Self::Prim, layout: Layout) -> (r: Result<(), DeviceError>)
        requires
            old(item).bytes().len() == layout.size(),
        ensures
            deallocated(layout, *old(item), *final(item), r),
    ;
}

/// The copy from one device to another.
pub trait DeviceCopy: Device {
    /// Copies `src`, on this device, into `dst` on the device `ext`.
    ///
    /// This implementation goes through the host: it reads `src` into a
    /// scratch span of its size and writes that span into `dst`. A backend
    /// may replace it with a direct path that gives the same bytes.
    fn copy_to<Ext: Device>(&self, src: &Self::Prim, dst: &mut Ext::Prim, ext: &Ext) -> (r: Result<
        (),
        DeviceError,
    >)
        ensures
            copied_across(*src, *old(dst), *final(dst), r),
    {
        check_copy(src.len(), dst.len())?;
        let mut buf: Vec<u8> = vec![0u8; src.len()];
        self.copy_to_host(src, buf.as_mut_slice())?;
        ext.copy_from_host(buf.as_slice(), dst)
    }
}

/// What one device's `copy_from_host` has written, its `copy_to_host` reads
/// back unchanged.
pub proof fn lemma_copy_round_trip<P: DevicePrimitive>(
    data: Seq<u8>,
    before: P,
    prim: P,
    written: Result<(), DeviceError>,
    out_before: Seq<u8>,
    out: Seq<u8>,
    read: Result<(), DeviceError>,
)
    requires
        copied_from_host(data, before, prim, written),
        written is Ok,
        copied_to_host(prim, out_before, out, read),
        read is Ok,
    ensures
        out == data,
{
}

/// On every device, to allocate no bytes and to release them at once never
/// fails.
pub proof fn lemma_zero_size_never_fails<P: DevicePrimitive>(
    layout: Layout,
    made: Result<P, DeviceError>,
    after: P,
    released: Result<(), DeviceError>,
)
    requires
        layout.size() == 0,
        allocated(layout, made),
        made matches Ok(p) ==> deallocated(layout, p, after, released),
    ensures
        made is Ok,
        released is Ok,
{
}

/// A destination that is not as long as the source is left as it was, and
/// the copy fails with `CopyMismatch`.
pub proof fn lemma_short_destination_untouched<P: DevicePrimitive>(
    src: P,
    out_before: Seq<u8>,
    out: Seq<u8>,
    read: Result<(), DeviceError>,
)
    requires
        copied_to_host(src, out_before, out, read),
        out_before.len() < src.bytes().len(),
    ensures
        out == out_before,
        read == Err::<(), DeviceError>(
            DeviceError::CopyMismatch(src.bytes().len() as usize, out_before.len() as usize),
        ),
{
}

} // verus!
