//! Storage: one allocation on one device, and its migration to another.

use crate::alloc_mode::AllocMode;
use crate::cpu::{CPUPrim, CPU};
use crate::device::{deallocated, Device, DeviceCopy, DeviceError, DevicePrimitive};
use crate::dtype::{encode, lemma_encode_len, lemma_size_is_power_of_two, push_le_bytes, TData};
use crate::layout::{Layout, LayoutError};
use std::rc::Rc;
use vstd::prelude::*;

verus! {

/// What can go wrong with a storage.
#[derive(Debug, Clone, PartialEq, Eq)]
pub enum StorageError {
    /// Failed to send data to a device.
    SendError(DeviceError),
    /// The data has no layout.
    InvalidLayout(LayoutError),
    /// Attempted to access empty storage.
    EmptyStorage,
}

/// Storage is an abstraction that allows us to decouple a Tensor from its data.
/// It is a contiguous one-dimensional array of elements of a single data type.
/// The data is allocated on a device, and can be "moved" between devices.
/// * D: The device on which the data is stored.
///
/// A storage owns its primitive, which is as long as its layout says.
///
/// To drop a storage asks nothing of its device: the primitive then goes as
/// its own type lets it go, which for the host frees the memory. It is
/// [`Storage::release`] that hands the allocation back to the device.
#[derive(Debug)]
pub struct Storage<D: Device> {
    data: D::Prim,
    layout: Layout,
    device: Rc<D>,
}

impl<D: Device> Storage<D> {
    #[verifier::type_invariant]
    spec fn well_formed(&self) -> bool {
        self.data.bytes().len() == self.layout.size()
    }

    pub closed spec fn spec_data(&self) -> &D::Prim {
        &self.data
    }

    pub closed spec fn spec_layout(&self) -> &Layout {
        &self.layout
    }

    pub closed spec fn spec_device(&self) -> &Rc<D> {
        &self.device
    }

    /// The bytes that the storage holds.
    pub open spec fn bytes(&self) -> Seq<u8> {
        self.spec_data().bytes()
    }

    /// What `to` has made of `self` when it returns `out` for the device
    /// `ext`.
    pub open spec fn migrated<Ext: Device>(&self, ext: Ext, out: Storage<Ext>) -> bool {
        &&& out.bytes() == self.bytes()
        &&& out.spec_layout() == self.spec_layout()
        &&& **out.spec_device() == ext
    }

    #[verifier::when_used_as_spec(spec_data)]
    pub fn data(&self) -> (p: &D::Prim)
        ensures
            *p == self.spec_data(),
            p.bytes().len() == self.spec_layout().size(),
    {
        proof {
            use_type_invariant(self);
        }
        &self.data
    }

    #[verifier::when_used_as_spec(spec_layout)]
    pub fn layout(&self) -> (l: &Layout)
        ensures
            *l == self.spec_layout(),
            l.size() == self.bytes().len(),
    {
        proof {
            use_type_invariant(self);
        }
        &self.layout
    }

    #[verifier::when_used_as_spec(spec_device)]
    pub fn device(&self) -> (d: &Rc<D>)
        ensures
            *d == self.spec_device(),
    {
        &self.device
    }

    /// Ends the storage: its allocation goes back to the device that made
    /// it, with the layout that it was made with. A failure is final, for
    /// nothing is left to try again with.
    ///
    /// The contract bounds the answer and no more. That the device is asked
    /// is what the body does; no clause says so.
    pub fn release(self) -> (r: Result<(), DeviceError>)
        ensures
            self.released(r),
            self.bytes().len() == 0 ==> r is Ok,
    {
        proof {
            use_type_invariant(&self);
        }
        let ghost whole = self;
        let Storage { data, layout, device } = self;
        let mut data = data;
        let r = device.deallocate(&mut data, layout);
        assert(deallocated(*whole.spec_layout(), *whole.spec_data(), data, r));
        r
    }

    /// What bounds the answer `r` of `release`: it is one that the contract
    /// of `deallocate` allows for the storage's primitive and its recorded
    /// layout, in that some primitive fits it as the one left behind. So
    /// the release of no bytes is `Ok`, and after `Ok` the device has a
    /// primitive that holds nothing. Whether the device was asked is not
    /// said here.
    pub open spec fn released(&self, r: Result<(), DeviceError>) -> bool {
        exists|after: D::Prim|
            #[trigger] deallocated(*self.spec_layout(), *self.spec_data(), after, r)
    }
}

impl<D: DeviceCopy> Storage<D> {
    /// Copy storage from the current device to an external device.
    ///
    /// The bytes go into a fresh allocation of the same layout on `ext`,
    /// which the new storage owns. Where the copy fails, that allocation is
    /// given back before the error is returned.
    pub fn to<Ext: Device>(&self, ext: Ext) -> (r: Result<Storage<Ext>, StorageError>)
        ensures
            match r {
                Ok(out) => self.migrated(ext, out),
                Err(StorageError::SendError(e)) => (e == DeviceError::AllocError
                    && self.bytes().len() != 0) || e is TransferError,
                Err(_) => false,
            },
    {
        proof {
            use_type_invariant(self);
        }
        let mode = AllocMode::from_bits_truncate(AllocMode::COPY_SRC | AllocMode::COPY_DST);
        let mut dst = match ext.allocate(self.layout, mode) {
            Ok(p) => p,
            Err(e) => {
                return Err(StorageError::SendError(e));
            },
        };
        match self.device.copy_to(&self.data, &mut dst, &ext) {
            Ok(()) => {},
            Err(e) => {
                let _ = ext.deallocate(&mut dst, self.layout);
                return Err(StorageError::SendError(e));
            },
        }
        Ok(Storage { data: dst, layout: self.layout, device: Rc::new(ext) })
    }
}

impl Storage<CPU> {
    /// The storage on the host that holds the scalars of `content`, each as
    /// its bytes.
    ///
    /// It fails only where all the bytes together have no layout, which no
    /// vector that fits in memory brings about.
    pub fn new<T: TData>(content: Vec<T>) -> (r: Result<Storage<CPU>, StorageError>)
        ensures
            match r {
                Ok(s) => {
                    &&& s.spec_data()@ == Some(encode(content@))
                    &&& s.spec_layout().size() == content.len() * T::kind().size()
                    &&& s.spec_layout().align() == T::kind().size()
                },
                Err(e) => e == StorageError::InvalidLayout(LayoutError),
            },
            r is Ok <==> Layout::valid(
                content.len() * T::kind().size(),
                T::kind().size() as int,
            ),
    {
        let dt = T::dtype();
        let size = dt.size_of();
        let n = content.len();
        proof {
            lemma_size_is_power_of_two(dt);
        }
        let total = match n.checked_mul(size) {
            Some(total) => total,
            None => {
                return Err(StorageError::InvalidLayout(LayoutError));
            },
        };
        let layout = match Layout::from_size_align(total, dt.alignment()) {
            Ok(layout) => layout,
            Err(e) => {
                return Err(StorageError::InvalidLayout(e));
            },
        };
        let mut bytes: Vec<u8> = Vec::with_capacity(total);
        let mut i: usize = 0;
        while i < n
            invariant
                n == content@.len(),
                size == T::kind().size(),
                i <= n,
                bytes@ == encode(content@.take(i as int)),
            decreases n - i,
        {
            push_le_bytes(&mut bytes, content[i].to_bits(), size);
            proof {
                let next = content@.take(i + 1);
                assert(next.drop_last() =~= content@.take(i as int));
            }
            i += 1;
        }
        proof {
            assert(content@.take(n as int) =~= content@);
            lemma_encode_len(content@);
        }
        Ok(Storage { data: CPUPrim::new(bytes), layout, device: Rc::new(CPU) })
    }

    /// The bytes of the storage, unless nothing is behind its primitive.
    pub fn as_ptr(&self) -> (r: Result<&[u8], StorageError>)
        ensures
            match r {
                Ok(s) => self.spec_data()@ == Some(s@),
                Err(e) => e == StorageError::EmptyStorage && self.spec_data()@ is None,
            },
    {
        match self.data.as_ptr() {
            Some(s) => Ok(s),
            None => Err(StorageError::EmptyStorage),
        }
    }
}

/// A storage that has gone to another device and from there to a third, or
/// back to the first, holds the bytes that it held at the start.
pub proof fn lemma_migration_keeps_bytes<A: Device, B: Device, C: Device>(
    origin: Storage<A>,
    b: B,
    there: Storage<B>,
    c: C,
    back: Storage<C>,
)
    requires
        origin.migrated(b, there),
        there.migrated(c, back),
    ensures
        back.bytes() == origin.bytes(),
        back.spec_layout() == origin.spec_layout(),
{
}

} // verus!
