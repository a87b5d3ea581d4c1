//! The host backend: memory of the process itself.

use crate::alloc_mode::AllocMode;
use crate::device::{
    check_copy, copy_bytes, Device, DeviceAllocator, DeviceCopy, DeviceError, DevicePrimitive,
};
use crate::layout::Layout;
use vstd::prelude::*;

verus! {

/// The CPU primitive for storing data.
/// Much like a slice, but owned. It may have nothing behind it, as a null
/// pointer has: then it holds no bytes.
#[derive(Debug)]
pub struct CPUPrim {
    data: Option<Vec<u8>>,
}

impl View for CPUPrim {
    type V = Option<Seq<u8>>;

    /// The bytes behind the primitive, if there is anything behind it.
    closed spec fn view(&self) -> Option<Seq<u8>> {
        match self.data {
            Some(v) => Some(v@),
            None => None,
        }
    }
}

impl CPUPrim {
    /// A primitive that owns `bytes`.
    pub fn new(bytes: Vec<u8>) -> (p: CPUPrim)
        ensures
            p@ == Some(bytes@),
    {
        CPUPrim { data: Some(bytes) }
    }

    /// The primitive with nothing behind it.
    pub fn null() -> (p: CPUPrim)
        ensures
            p@ == None::<Seq<u8>>,
    {
        CPUPrim { data: None }
    }

    pub fn len(&self) -> (n: usize)
        ensures
            n == self.bytes().len(),
    {
        match &self.data {
            Some(v) => v.len(),
            None => 0,
        }
    }

    /// The bytes behind the primitive; `None` stands for the null pointer.
    pub fn as_ptr(&self) -> (p: Option<&[u8]>)
        ensures
            match p {
                Some(s) => self@ == Some(s@),
                None => self@ == None::<Seq<u8>>,
            },
    {
        match &self.data {
            Some(v) => Some(v.as_slice()),
            None => None,
        }
    }

    pub fn is_empty(&self) -> (b: bool)
        ensures
            b == (self.bytes().len() == 0),
    {
        self.len() == 0
    }

    /// Whether nothing is behind the primitive.
    pub fn is_null(&self) -> (b: bool)
        ensures
            b == (self@ is None),
    {
        self.data.is_none()
    }
}

impl DevicePrimitive for CPUPrim {
    open spec fn bytes(&self) -> Seq<u8> {
        match self@ {
            Some(s) => s,
            None => Seq::empty(),
        }
    }

    fn len(&self) -> (n: usize) {
        CPUPrim::len(self)
    }
}

/// Whether every byte of `s` is zero.
pub open spec fn all_zero(s: Seq<u8>) -> bool {
    forall|i: int| 0 <= i < s.len() ==> s[i] == 0
}

/// Default device
#[derive(Debug)]
pub struct CPU;

impl DeviceAllocator for CPU {
    type Prim = CPUPrim;

    /// Zeroed memory of the layout's size. A layout of no bytes is given the
    /// null primitive, and so is a request that the host cannot meet.
    fn alloc_bytes(&self, layout: Layout, _mode: AllocMode) -> (p: CPUPrim)
        ensures
            p@ is None || p@ == Some(zeros(layout.size() as nat)),
            layout.size() == 0 ==> p@ is None,
            all_zero(p.bytes()),
    {
        let n = layout.size();
        if n == 0 {
            return CPUPrim::null();
        }
        // Whether the host has the memory is for it to say; what follows
        // from its answer is for `zeroed`.
        let mut buffer: Vec<u8> = Vec::new();
        let reserved = buffer.try_reserve(n).is_ok();
        CPUPrim::zeroed(reserved, buffer, n)
    }

    fn alloc_init(&self, layout: Layout, init: &[u8], _mode: AllocMode) -> (p: CPUPrim)
        ensures
            p@ is None || p@ == Some(init@),
            init@.len() != layout.size() || layout.size() == 0 ==> p@ is None,
    {
        let n = layout.size();
        if n != init.len() || n == 0 {
            return CPUPrim::null();
        }
        let mut buffer: Vec<u8> = Vec::new();
        let reserved = buffer.try_reserve(n).is_ok();
        CPUPrim::filled(reserved, buffer, init)
    }

    fn dealloc(&self, item: &mut CPUPrim, _layout: Layout)
        ensures
            final(item)@ is None,
    {
        item.data = None;
    }
}

impl Device for CPU {
    type Prim = CPUPrim;

    type Allocator = CPU;

    /// On the host a copy fails only where the lengths differ.
    fn copy_from_host(&self, src: &[u8], dst: &mut CPUPrim) -> (r: Result<(), DeviceError>)
        ensures
            r is Ok <==> src@.len() == old(dst).bytes().len(),
            final(dst)@ is None <==> old(dst)@ is None,
    {
        check_copy(src.len(), dst.len())?;
        match &mut dst.data {
            Some(bytes) => copy_bytes(src, bytes.as_mut_slice()),
            None => {
                assert(src@ =~= Seq::<u8>::empty());
                Ok(())
            },
        }
    }

    /// On the host a copy fails only where the lengths differ.
    fn copy_to_host(&self, src: &CPUPrim, dst: &mut [u8]) -> (r: Result<(), DeviceError>)
        ensures
            r is Ok <==> src.bytes().len() == old(dst)@.len(),
    {
        match &src.data {
            Some(bytes) => copy_bytes(bytes.as_slice(), dst),
            None => {
                assert(dst@.len() == 0 ==> dst@ =~= Seq::<u8>::empty());
                check_copy(0, dst.len())
            },
        }
    }

    /// The host answers with zeroed memory, or with `AllocError` where it has
    /// none to give.
    fn allocate(&self, layout: Layout, mode: AllocMode) -> (r: Result<CPUPrim, DeviceError>)
        ensures
            r matches Ok(p) ==> all_zero(p.bytes()) && (p@ is None <==> layout.size() == 0),
    {
        let p = self.alloc_bytes(layout, mode);
        if p.len() != layout.size() {
            return Err(DeviceError::AllocError);
        }
        Ok(p)
    }

    /// On the host a release never fails, and leaves the null primitive.
    fn deallocate(&self, item: &mut CPUPrim, layout: Layout) -> (r: Result<(), DeviceError>)
        ensures
            r is Ok,
            final(item)@ is None,
    {
        self.dealloc(item, layout);
        Ok(())
    }
}

impl DeviceCopy for CPU {

}

/// `n` bytes, every one of them zero.
pub open spec fn zeros(n: nat) -> Seq<u8> {
    Seq::new(n, |i: int| 0u8)
}

impl CPUPrim {
    /// What an allocation of `size` zeroed bytes comes to once the host has
    /// said whether it has the memory: with `reserved`, the primitive over
    /// `buffer` made `size` zero bytes long; without, the null primitive.
    pub fn zeroed(reserved: bool, buffer: Vec<u8>, size: usize) -> (p: CPUPrim)
        ensures
            p@ == if reserved {
                Some(zeros(size as nat))
            } else {
                None::<Seq<u8>>
            },
    {
        if !reserved {
            return CPUPrim::null();
        }
        let mut buffer = buffer;
        buffer.clear();
        buffer.resize(size, 0u8);
        assert(buffer@ =~= zeros(size as nat));
        CPUPrim::new(buffer)
    }

    /// What an allocation with the contents `init` comes to once the host
    /// has said whether it has the memory: with `reserved`, the primitive
    /// over `buffer` made a copy of `init`; without, the null primitive.
    pub fn filled(reserved: bool, buffer: Vec<u8>, init: &[u8]) -> (p: CPUPrim)
        ensures
            p@ == if reserved {
                Some(init@)
            } else {
                None::<Seq<u8>>
            },
    {
        if !reserved {
            return CPUPrim::null();
        }
        let mut buffer = buffer;
        buffer.clear();
        buffer.extend_from_slice(init);
        assert(buffer@ =~= init@);
        CPUPrim::new(buffer)
    }
}

} // verus!
