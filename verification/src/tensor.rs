//! Tensors: a shape, a scalar kind and strides over a storage.

use crate::cpu::CPU;
use crate::device::{Device, DeviceCopy, DeviceError, DevicePrimitive};
use crate::dtype::{
    decode, le_value, lemma_decode_encode, lemma_encode_len, read_le_value, DType, F32Bits,
    F64Bits, TData,
};
use crate::layout::{Layout, LayoutError};
use crate::shape::{product, row_major, Shape, Strides};
use crate::storage::{Storage, StorageError};
use std::rc::Rc;
use vstd::prelude::*;
use vstd::std_specs::cmp::PartialEqSpecImpl;

verus! {

/// What can go wrong with a tensor.
#[derive(Debug, Clone, PartialEq, Eq)]
pub enum TensorError {
    /// The shape does not hold as many elements as were given.
    ShapeMismatch(Shape, usize),
    /// The storage failed.
    StorageError(StorageError),
}

/// Tensor is a generalization of vectors and matrices to potentially higher dimensions.
/// Internally, it uses [`Storage`] to store the data.
/// This decouples the tensor from the underlying memory, so in essence, every tensor is a view into a storage.
/// D: The device on which the tensor is stored.
///
/// The storage holds one scalar of the tensor's kind for every element of
/// its shape, and the strides are the row-major strides of the shape.
///
/// To drop a tensor asks nothing of its device, as to drop its storage asks
/// nothing. It is [`Tensor::release`] that hands the allocation back.
#[derive(Debug)]
pub struct Tensor<D: Device> {
    dt: DType,
    shape: Shape,
    strides: Strides,
    storage: Rc<Storage<D>>,
}

/// Whether the first `count` scalars of type `T` in `a` equal, one by one,
/// those in `b`.
pub open spec fn same_scalars<T: TData>(a: Seq<u8>, b: Seq<u8>, count: nat) -> bool {
    forall|i: int|
        0 <= i < count ==> (#[trigger] decode::<T>(a, count)[i]).equal(decode::<T>(b, count)[i])
}

/// Whether the first `count` scalars of kind `dt` in `a` equal those in `b`.
/// Half-precision numbers are compared by their bits.
pub open spec fn same_scalars_of(dt: DType, a: Seq<u8>, b: Seq<u8>, count: nat) -> bool {
    match dt {
        DType::U8 => same_scalars::<u8>(a, b, count),
        DType::U16 => same_scalars::<u16>(a, b, count),
        DType::U32 => same_scalars::<u32>(a, b, count),
        DType::U64 => same_scalars::<u64>(a, b, count),
        DType::I8 => same_scalars::<i8>(a, b, count),
        DType::I16 => same_scalars::<i16>(a, b, count),
        DType::I32 => same_scalars::<i32>(a, b, count),
        DType::I64 => same_scalars::<i64>(a, b, count),
        DType::F16 => same_scalars::<i16>(a, b, count),
        DType::F32 => same_scalars::<F32Bits>(a, b, count),
        DType::F64 => same_scalars::<F64Bits>(a, b, count),
    }
}

impl<D: Device> Tensor<D> {
    #[verifier::type_invariant]
    spec fn well_formed(&self) -> bool {
        &&& self.storage.bytes().len() == product(self.shape@) * self.dt.size()
        &&& self.strides@ == row_major(self.shape@)
    }

    pub closed spec fn spec_dtype(&self) -> DType {
        self.dt
    }

    pub closed spec fn spec_shape(&self) -> &Shape {
        &self.shape
    }

    pub closed spec fn spec_strides(&self) -> &Strides {
        &self.strides
    }

    pub closed spec fn spec_storage(&self) -> &Storage<D> {
        &*self.storage
    }

    /// The bytes of the tensor's storage.
    pub open spec fn bytes(&self) -> Seq<u8> {
        self.spec_storage().bytes()
    }

    /// The number of elements.
    pub open spec fn numel(&self) -> nat {
        product(self.spec_shape()@)
    }

    /// The elements, read as scalars of type `T`.
    pub open spec fn elements<T: TData>(&self) -> Seq<T> {
        decode::<T>(self.bytes(), self.numel())
    }

    /// What `to` has made of `self` when it returns `out` for the device
    /// `ext`.
    pub open spec fn migrated<Ext: Device>(&self, ext: Ext, out: Tensor<Ext>) -> bool {
        &&& out.spec_dtype() == self.spec_dtype()
        &&& out.spec_shape()@ == self.spec_shape()@
        &&& out.spec_strides()@ == self.spec_strides()@
        &&& out.bytes() == self.bytes()
        &&& **out.spec_storage().spec_device() == ext
    }

    /// The scalar kind of the elements.
    #[verifier::when_used_as_spec(spec_dtype)]
    pub fn dtype(&self) -> (dt: DType)
        ensures
            dt == self.spec_dtype(),
    {
        self.dt
    }

    #[verifier::when_used_as_spec(spec_shape)]
    pub fn shape(&self) -> (s: &Shape)
        ensures
            s == self.spec_shape(),
            product(s@) * self.spec_dtype().size() == self.bytes().len(),
    {
        proof {
            use_type_invariant(self);
        }
        &self.shape
    }

    #[verifier::when_used_as_spec(spec_strides)]
    pub fn strides(&self) -> (s: &Strides)
        ensures
            s == self.spec_strides(),
            s@ == row_major(self.spec_shape()@),
    {
        proof {
            use_type_invariant(self);
        }
        &self.strides
    }

    #[verifier::when_used_as_spec(spec_storage)]
    pub fn storage(&self) -> (s: &Storage<D>)
        ensures
            s == self.spec_storage(),
    {
        &*self.storage
    }

    pub fn device(&self) -> (d: &D)
        ensures
            *d == **self.spec_storage().spec_device(),
    {
        &**self.storage.device()
    }

    /// Ends the tensor. Where it alone holds its storage, the storage is
    /// released and the answer of that is returned. Where the storage is
    /// held elsewhere too, it lives on and nothing is returned.
    pub fn release(self) -> (r: Option<Result<(), DeviceError>>)
        ensures
            r matches Some(answer) ==> self.spec_storage().released(answer),
    {
        match Rc::try_unwrap(self.storage) {
            Ok(storage) => Some(storage.release()),
            Err(_) => None,
        }
    }
}

impl<D: DeviceCopy> Tensor<D> {
    /// Moves the tensor from D -> Other.
    ///
    /// The new tensor has the kind, the shape and the strides of the old one,
    /// over a storage on `ext` that holds the same bytes.
    pub fn to<Ext: Device>(self, ext: Ext) -> (r: Result<Tensor<Ext>, TensorError>)
        ensures
            match r {
                Ok(out) => self.migrated(ext, out),
                Err(TensorError::StorageError(StorageError::SendError(e))) => (e
                    == DeviceError::AllocError && self.bytes().len() != 0) || e is TransferError,
                Err(_) => false,
            },
    {
        proof {
            use_type_invariant(&self);
        }
        let storage = match self.storage.to(ext) {
            Ok(storage) => storage,
            Err(e) => {
                return Err(TensorError::StorageError(e));
            },
        };
        Ok(Tensor { dt: self.dt, shape: self.shape, strides: self.strides, storage: Rc::new(storage) })
    }
}

/// The layout that `count` scalars of kind `dt` need, if there is one.
pub open spec fn has_layout(dt: DType, count: nat) -> bool {
    Layout::valid((count * dt.size()) as int, dt.size() as int)
}

/// The `count` scalars of type `T` that the bytes of `src` spell.
fn read_scalars<T: TData>(src: &[u8], count: usize) -> (v: Vec<T>)
    requires
        src@.len() == count * T::kind().size(),
    ensures
        v@ == decode::<T>(src@, count as nat),
{
    let size = T::dtype().size_of();
    let total = src.len();
    let mut v: Vec<T> = Vec::with_capacity(count);
    let mut i: usize = 0;
    let mut at: usize = 0;
    while i < count
        invariant
            size == T::kind().size(),
            total == src@.len(),
            src@.len() == count * size,
            i <= count,
            at == i * size,
            v@.len() == i,
            forall|j: int| 0 <= j < i ==> v@[j] == decode::<T>(src@, count as nat)[j],
        decreases count - i,
    {
        assert(i * size + size <= count * size && (i + 1) * size == i * size + size)
            by (nonlinear_arith)
            requires
                i < count,
                size >= 1,
        ;
        v.push(T::from_bits(read_le_value(src, at, size)));
        at += size;
        i += 1;
    }
    assert(v@ =~= decode::<T>(src@, count as nat));
    v
}

/// Whether the `count` scalars of type `T` in `a` equal, one by one, those
/// in `b`.
fn scalars_equal<T: TData>(a: &[u8], b: &[u8], count: usize) -> (r: bool)
    requires
        a@.len() == count * T::kind().size(),
        b@.len() == count * T::kind().size(),
    ensures
        r == same_scalars::<T>(a@, b@, count as nat),
{
    let size = T::dtype().size_of();
    let total = a.len();
    let mut i: usize = 0;
    let mut at: usize = 0;
    while i < count
        invariant
            size == T::kind().size(),
            total == a@.len(),
            a@.len() == count * size,
            b@.len() == count * size,
            i <= count,
            at == i * size,
            forall|j: int|
                0 <= j < i ==> (#[trigger] decode::<T>(a@, count as nat)[j]).equal(
                    decode::<T>(b@, count as nat)[j],
                ),
        decreases count - i,
    {
        assert(i * size + size <= count * size && (i + 1) * size == i * size + size)
            by (nonlinear_arith)
            requires
                i < count,
                size >= 1,
        ;
        let x = T::from_bits(read_le_value(a, at, size));
        let y = T::from_bits(read_le_value(b, at, size));
        if !x.same(y) {
            assert(x == decode::<T>(a@, count as nat)[i as int]);
            assert(y == decode::<T>(b@, count as nat)[i as int]);
            return false;
        }
        at += size;
        i += 1;
    }
    true
}

/// The bytes of a host storage; of one with nothing behind it, none.
fn host_bytes(storage: &Storage<CPU>) -> (s: &[u8])
    ensures
        s@ == storage.bytes(),
{
    match storage.as_ptr() {
        Ok(s) => s,
        Err(_) => &[],
    }
}

impl Tensor<CPU> {
    /// Whether two host tensors are equal: they have the same shape and the
    /// same kind, and their elements are equal as scalars of that kind.
    pub open spec fn equal_to(&self, other: &Tensor<CPU>) -> bool {
        &&& self.spec_shape()@ == other.spec_shape()@
        &&& self.spec_dtype() == other.spec_dtype()
        &&& same_scalars_of(self.spec_dtype(), self.bytes(), other.bytes(), self.numel())
    }

    /// Instantiates a new tensor on the CPU.
    /// You cannot instantiate a tensor on any other device
    /// To create a tensor on a Device, D, you can move the tensor
    /// from CPU -> D using [`Tensor::to`].
    ///
    /// The shape must hold exactly as many elements as `data` has. The
    /// elements of the tensor are then those of `data`, in their order.
    pub fn new<T: TData>(shape: Shape, data: Vec<T>) -> (r: Result<Tensor<CPU>, TensorError>)
        ensures
            shape.numel_spec() != data.len() ==> r == Err::<Tensor<CPU>, TensorError>(
                TensorError::ShapeMismatch(shape, data.len()),
            ),
            shape.numel_spec() == data.len() && !has_layout(T::kind(), data.len() as nat) ==> r
                == Err::<Tensor<CPU>, TensorError>(
                TensorError::StorageError(StorageError::InvalidLayout(LayoutError)),
            ),
            shape.numel_spec() == data.len() && has_layout(T::kind(), data.len() as nat) ==> {
                &&& r matches Ok(t)
                &&& t.spec_dtype() == T::kind()
                &&& t.spec_shape()@ == shape@
                &&& t.spec_strides()@ == row_major(shape@)
                &&& t.elements::<T>() == data@
                &&& t.spec_storage().spec_data()@ is Some
            },
    {
        let fits = match shape.checked_numel() {
            Some(n) => n == data.len(),
            None => false,
        };
        if !fits {
            return Err(TensorError::ShapeMismatch(shape, data.len()));
        }
        let dt = T::dtype();
        let strides = Strides::from(shape.clone());
        proof {
            lemma_decode_encode(data@);
            lemma_encode_len(data@);
        }
        let storage = match Storage::new(data) {
            Ok(storage) => storage,
            Err(e) => {
                return Err(TensorError::StorageError(e));
            },
        };
        Ok(Tensor { dt, shape, strides, storage: Rc::new(storage) })
    }

    /// The elements as scalars of type `T`, which must be as wide as the
    /// tensor's kind is. It fails where nothing is behind the storage.
    pub fn as_slice<T: TData>(&self) -> (r: Result<Vec<T>, TensorError>)
        requires
            T::kind().size() == self.spec_dtype().size(),
        ensures
            match r {
                Ok(v) => v@ == self.elements::<T>() && self.spec_storage().spec_data()@ is Some,
                Err(e) => e == TensorError::StorageError(StorageError::EmptyStorage)
                    && self.spec_storage().spec_data()@ is None,
            },
    {
        proof {
            use_type_invariant(self);
        }
        let bytes = match self.storage.as_ptr() {
            Ok(bytes) => bytes,
            Err(e) => {
                return Err(TensorError::StorageError(e));
            },
        };
        let n = self.element_count();
        Ok(read_scalars::<T>(bytes, n))
    }

    /// The number of elements.
    fn element_count(&self) -> (n: usize)
        ensures
            n == self.numel(),
            n * self.spec_dtype().size() == self.bytes().len(),
    {
        let total = self.storage.layout().size();
        proof {
            use_type_invariant(self);
            let p = product(self.shape@);
            let size = self.dt.size();
            assert(p <= p * size) by (nonlinear_arith)
                requires
                    size >= 1,
            ;
        }
        self.shape.numel()
    }
}

impl PartialEqSpecImpl for Tensor<CPU> {
    open spec fn obeys_eq_spec() -> bool {
        true
    }

    open spec fn eq_spec(&self, other: &Tensor<CPU>) -> bool {
        self.equal_to(other)
    }
}

impl PartialEq for Tensor<CPU> {
    /// Tensors of different shapes, or of different kinds, are told apart
    /// before any of their bytes is read.
    fn eq(&self, other: &Tensor<CPU>) -> (r: bool) {
        if self.shape != other.shape {
            return false;
        }
        if self.dt != other.dt {
            return false;
        }
        let n = self.element_count();
        proof {
            use_type_invariant(self);
            use_type_invariant(other);
        }
        let a = host_bytes(&self.storage);
        let b = host_bytes(&other.storage);
        match self.dt {
            DType::U8 => scalars_equal::<u8>(a, b, n),
            DType::U16 => scalars_equal::<u16>(a, b, n),
            DType::U32 => scalars_equal::<u32>(a, b, n),
            DType::U64 => scalars_equal::<u64>(a, b, n),
            DType::I8 => scalars_equal::<i8>(a, b, n),
            DType::I16 => scalars_equal::<i16>(a, b, n),
            DType::I32 => scalars_equal::<i32>(a, b, n),
            DType::I64 => scalars_equal::<i64>(a, b, n),
            DType::F16 => scalars_equal::<i16>(a, b, n),
            DType::F32 => scalars_equal::<F32Bits>(a, b, n),
            DType::F64 => scalars_equal::<F64Bits>(a, b, n),
        }
    }
}

/// Two host tensors of different shapes are not equal, whatever they hold.
pub proof fn lemma_shapes_differ(a: Tensor<CPU>, b: Tensor<CPU>)
    requires
        a.spec_shape()@ != b.spec_shape()@,
    ensures
        !a.equal_to(&b),
{
}

/// A tensor that has gone to another device and from there to a third, or
/// back to the first, has the elements that it had at the start.
pub proof fn lemma_migration_keeps_elements<T: TData, A: Device, B: Device, C: Device>(
    origin: Tensor<A>,
    b: B,
    there: Tensor<B>,
    c: C,
    back: Tensor<C>,
)
    requires
        origin.migrated(b, there),
        there.migrated(c, back),
    ensures
        back.elements::<T>() == origin.elements::<T>(),
        back.spec_dtype() == origin.spec_dtype(),
        back.spec_shape()@ == origin.spec_shape()@,
        back.spec_strides()@ == origin.spec_strides()@,
{
}

} // verus!
