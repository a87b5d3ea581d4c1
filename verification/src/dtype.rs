//! Scalar kinds, and the types whose values a tensor can hold.

use vstd::arithmetic::power2::is_pow2;
use vstd::prelude::*;

verus! {

/// Data types for tensors.
#[derive(Debug, Clone, Copy, PartialEq, Eq, Structural)]
pub enum DType {
    U8,
    U16,
    U32,
    U64,
    I8,
    I16,
    I32,
    I64,
    F16,
    F32,
    F64,
}

impl DType {
    /// The number of bytes that one scalar of this kind takes.
    pub open spec fn size(self) -> nat {
        match self {
            DType::U8 | DType::I8 => 1,
            DType::U16 | DType::I16 | DType::F16 => 2,
            DType::U32 | DType::I32 | DType::F32 => 4,
            DType::U64 | DType::I64 | DType::F64 => 8,
        }
    }

    #[inline]
    pub fn size_of(&self) -> (n: usize)
        ensures
            n == self.size(),
    {
        match self {
            DType::U8 | DType::I8 => 1,
            DType::U16 | DType::I16 | DType::F16 => 2,
            DType::U32 | DType::I32 | DType::F32 => 4,
            DType::U64 | DType::I64 | DType::F64 => 8,
        }
    }

    /// Every scalar is aligned to its own size.
    #[inline]
    pub fn alignment(&self) -> (n: usize)
        ensures
            n == self.size(),
    {
        self.size_of()
    }
}

impl Default for DType {
    fn default() -> (d: DType)
        ensures
            d == DType::F32,
    {
        DType::F32
    }
}


/// The largest bit pattern that a scalar of `size` bytes has.
pub open spec fn low_mask(size: nat) -> u64 {
    if size == 1 {
        0xff
    } else if size == 2 {
        0xffff
    } else if size == 4 {
        0xffff_ffff
    } else {
        0xffff_ffff_ffff_ffff
    }
}

/// The `k`th byte of a bit pattern, counted from the lowest.
pub open spec fn byte_of(bits: u64, k: int) -> u8 {
    ((bits >> ((8 * k) as u64)) & 0xff) as u8
}

/// The first `size` bytes of a bit pattern, lowest first: how a scalar lies
/// in a buffer.
pub open spec fn le_bytes(bits: u64, size: nat) -> Seq<u8> {
    Seq::new(size, |k: int| byte_of(bits, k))
}

/// The bit pattern that the bytes `b` of one scalar spell, lowest first.
pub open spec fn le_value(b: Seq<u8>) -> u64 {
    if b.len() == 1 {
        b[0] as u64
    } else if b.len() == 2 {
        b[0] as u64 | (b[1] as u64) << 8
    } else if b.len() == 4 {
        b[0] as u64 | (b[1] as u64) << 8 | (b[2] as u64) << 16 | (b[3] as u64) << 24
    } else if b.len() == 8 {
        b[0] as u64 | (b[1] as u64) << 8 | (b[2] as u64) << 16 | (b[3] as u64) << 24 | (b[4] as u64)
            << 32 | (b[5] as u64) << 40 | (b[6] as u64) << 48 | (b[7] as u64) << 56
    } else {
        0
    }
}

/// The bytes of a bit pattern spell it again.
pub proof fn lemma_le_value_of_bytes(bits: u64, size: nat)
    requires
        size == 1 || size == 2 || size == 4 || size == 8,
        bits <= low_mask(size),
    ensures
        le_value(le_bytes(bits, size)) == bits,
{
    let b = le_bytes(bits, size);
    if size == 1 {
        assert(((bits >> 0u64) & 0xff) as u8 as u64 == bits) by (bit_vector)
            requires
                bits <= 0xff,
        ;
    } else if size == 2 {
        assert((((bits >> 0u64) & 0xff) as u8 as u64 | (((bits >> 8u64) & 0xff) as u8 as u64) << 8)
            == bits) by (bit_vector)
            requires
                bits <= 0xffff,
        ;
    } else if size == 4 {
        assert((((bits >> 0u64) & 0xff) as u8 as u64 | (((bits >> 8u64) & 0xff) as u8 as u64) << 8
            | (((bits >> 16u64) & 0xff) as u8 as u64) << 16 | (((bits >> 24u64) & 0xff) as u8
            as u64) << 24) == bits) by (bit_vector)
            requires
                bits <= 0xffff_ffff,
        ;
    } else {
        assert((((bits >> 0u64) & 0xff) as u8 as u64 | (((bits >> 8u64) & 0xff) as u8 as u64) << 8
            | (((bits >> 16u64) & 0xff) as u8 as u64) << 16 | (((bits >> 24u64) & 0xff) as u8
            as u64) << 24 | (((bits >> 32u64) & 0xff) as u8 as u64) << 32 | (((bits >> 40u64)
            & 0xff) as u8 as u64) << 40 | (((bits >> 48u64) & 0xff) as u8 as u64) << 48 | (((bits
            >> 56u64) & 0xff) as u8 as u64) << 56) == bits) by (bit_vector);
    }
}

/// What bytes spell is a bit pattern of their size, and its bytes are they.
pub proof fn lemma_le_bytes_of_value(b: Seq<u8>)
    requires
        b.len() == 1 || b.len() == 2 || b.len() == 4 || b.len() == 8,
    ensures
        le_value(b) <= low_mask(b.len()),
        le_bytes(le_value(b), b.len()) == b,
{
    let v = le_value(b);
    if b.len() == 1 {
        let b0 = b[0];
        assert(b0 as u64 <= 0xff && (((b0 as u64) >> 0u64) & 0xff) as u8 == b0) by (bit_vector);
    } else if b.len() == 2 {
        let (b0, b1) = (b[0], b[1]);
        assert({
            let v = b0 as u64 | (b1 as u64) << 8;
            &&& v <= 0xffff
            &&& ((v >> 0u64) & 0xff) as u8 == b0
            &&& ((v >> 8u64) & 0xff) as u8 == b1
        }) by (bit_vector);
    } else if b.len() == 4 {
        let (b0, b1, b2, b3) = (b[0], b[1], b[2], b[3]);
        assert({
            let v = b0 as u64 | (b1 as u64) << 8 | (b2 as u64) << 16 | (b3 as u64) << 24;
            &&& v <= 0xffff_ffff
            &&& ((v >> 0u64) & 0xff) as u8 == b0
            &&& ((v >> 8u64) & 0xff) as u8 == b1
            &&& ((v >> 16u64) & 0xff) as u8 == b2
            &&& ((v >> 24u64) & 0xff) as u8 == b3
        }) by (bit_vector);
    } else {
        let (b0, b1, b2, b3) = (b[0], b[1], b[2], b[3]);
        let (b4, b5, b6, b7) = (b[4], b[5], b[6], b[7]);
        assert({
            let v = b0 as u64 | (b1 as u64) << 8 | (b2 as u64) << 16 | (b3 as u64) << 24 | (b4 as u64)
                << 32 | (b5 as u64) << 40 | (b6 as u64) << 48 | (b7 as u64) << 56;
            &&& ((v >> 0u64) & 0xff) as u8 == b0
            &&& ((v >> 8u64) & 0xff) as u8 == b1
            &&& ((v >> 16u64) & 0xff) as u8 == b2
            &&& ((v >> 24u64) & 0xff) as u8 == b3
            &&& ((v >> 32u64) & 0xff) as u8 == b4
            &&& ((v >> 40u64) & 0xff) as u8 == b5
            &&& ((v >> 48u64) & 0xff) as u8 == b6
            &&& ((v >> 56u64) & 0xff) as u8 == b7
        }) by (bit_vector);
    }
    assert(le_bytes(v, b.len()) =~= b);
}


/// Appends to `out` the `size` bytes of a bit pattern, lowest first.
pub fn push_le_bytes(out: &mut Vec<u8>, bits: u64, size: usize)
    requires
        size <= 8,
    ensures
        final(out)@ == old(out)@ + le_bytes(bits, size as nat),
{
    let mut k: usize = 0;
    while k < size
        invariant
            size <= 8,
            k <= size,
            out@ == old(out)@ + le_bytes(bits, k as nat),
        decreases size - k,
    {
        let shift: u64 = 8 * (k as u64);
        out.push(((bits >> shift) & 0xff) as u8);
        assert(out@ =~= old(out)@ + le_bytes(bits, (k + 1) as nat));
        k += 1;
    }
}

/// The bit pattern that the `size` bytes of `src` from `at` on spell.
pub fn read_le_value(src: &[u8], at: usize, size: usize) -> (bits: u64)
    requires
        size == 1 || size == 2 || size == 4 || size == 8,
        at + size <= src@.len(),
    ensures
        bits == le_value(src@.subrange(at as int, at + size)),
{
    let ghost b = src@.subrange(at as int, at + size);
    if size == 1 {
        assert(b[0] == src@[at as int]);
        src[at] as u64
    } else if size == 2 {
        assert(b[0] == src@[at as int] && b[1] == src@[at + 1]);
        src[at] as u64 | (src[at + 1] as u64) << 8
    } else if size == 4 {
        assert(b[0] == src@[at as int] && b[1] == src@[at + 1] && b[2] == src@[at + 2] && b[3]
            == src@[at + 3]);
        src[at] as u64 | (src[at + 1] as u64) << 8 | (src[at + 2] as u64) << 16 | (src[at + 3] as u64)
            << 24
    } else {
        assert(b[0] == src@[at as int] && b[1] == src@[at + 1] && b[2] == src@[at + 2] && b[3]
            == src@[at + 3]);
        assert(b[4] == src@[at + 4] && b[5] == src@[at + 5] && b[6] == src@[at + 6] && b[7]
            == src@[at + 7]);
        src[at] as u64 | (src[at + 1] as u64) << 8 | (src[at + 2] as u64) << 16 | (src[at + 3] as u64)
            << 24 | (src[at + 4] as u64) << 32 | (src[at + 5] as u64) << 40 | (src[at + 6] as u64)
            << 48 | (src[at + 7] as u64) << 56
    }
}

/// Marker trait for types that can be used as tensor data.
///
/// A value is known to the library by its bit pattern, which lies in a
/// buffer lowest byte first.
pub trait TData: Copy + Send + Sync {
    /// The scalar kind of the type.
    spec fn kind() -> DType;

    /// The value's bit pattern.
    spec fn bits(self) -> u64;

    /// The value with the bit pattern `bits`.
    spec fn of_bits(bits: u64) -> Self;

    /// Whether two values are equal as scalars of their kind.
    spec fn equal(self, other: Self) -> bool;

    fn name() -> &'static str;

    fn dtype() -> (d: DType)
        ensures
            d == Self::kind(),
    ;

    fn to_bits(self) -> (bits: u64)
        ensures
            bits == self.bits(),
    ;

    fn from_bits(bits: u64) -> (v: Self)
        ensures
            v == Self::of_bits(bits),
    ;

    fn same(self, other: Self) -> (r: bool)
        ensures
            r == self.equal(other),
    ;

    /// A value's bit pattern is one of its kind's size, and gives the value
    /// back.
    proof fn lemma_bits(self)
        ensures
            self.bits() <= low_mask(Self::kind().size()),
            Self::of_bits(self.bits()) == self,
    ;

    /// Every bit pattern of the kind's size is that of a value.
    proof fn lemma_of_bits(bits: u64)
        requires
            bits <= low_mask(Self::kind().size()),
        ensures
            Self::of_bits(bits).bits() == bits,
    ;
}

/// The bytes of the scalars `s`, one scalar after the other.
pub open spec fn encode<T: TData>(s: Seq<T>) -> Seq<u8>
    decreases s.len(),
{
    if s.len() == 0 {
        Seq::empty()
    } else {
        encode(s.drop_last()) + le_bytes(s.last().bits(), T::kind().size())
    }
}

/// The first `count` scalars of type `T` that the bytes `b` spell.
pub open spec fn decode<T: TData>(b: Seq<u8>, count: nat) -> Seq<T> {
    let size = T::kind().size() as int;
    Seq::new(count, |i: int| T::of_bits(le_value(b.subrange(i * size, i * size + size))))
}

/// `count` scalars take `count` times the kind's size in bytes, and the
/// bytes of the `i`th lie at `i` times the size.
pub proof fn lemma_encode_layout<T: TData>(s: Seq<T>, i: int)
    requires
        0 <= i < s.len(),
    ensures
        encode(s).len() == s.len() * T::kind().size(),
        0 <= i * T::kind().size() <= (i + 1) * T::kind().size() <= encode(s).len(),
        encode(s).subrange(i * T::kind().size(), (i + 1) * T::kind().size()) == le_bytes(
            s[i].bits(),
            T::kind().size(),
        ),
    decreases s.len(),
{
    let size = T::kind().size() as int;
    let head = s.drop_last();
    let n = s.len() as int;
    lemma_encode_len(s);
    lemma_encode_len(head);
    assert(0 <= i * size <= (i + 1) * size <= n * size) by (nonlinear_arith)
        requires
            0 <= i < n,
            size >= 1,
    ;
    assert((n - 1) * size + size == n * size) by (nonlinear_arith);
    if i == n - 1 {
        assert(encode(s).subrange(i * size, (i + 1) * size) =~= le_bytes(s[i].bits(), size as nat));
    } else {
        lemma_encode_layout(head, i);
        assert((i + 1) * size <= (n - 1) * size) by (nonlinear_arith)
            requires
                i + 1 <= n - 1,
                size >= 1,
        ;
        assert(encode(s).subrange(i * size, (i + 1) * size) =~= encode(head).subrange(
            i * size,
            (i + 1) * size,
        ));
    }
}

/// `count` scalars take `count` times the kind's size in bytes.
pub proof fn lemma_encode_len<T: TData>(s: Seq<T>)
    ensures
        encode(s).len() == s.len() * T::kind().size(),
    decreases s.len(),
{
    let size = T::kind().size() as int;
    let n = s.len() as int;
    if n > 0 {
        lemma_encode_len(s.drop_last());
        assert((n - 1) * size + size == n * size) by (nonlinear_arith);
    } else {
        assert(0 * size == 0) by (nonlinear_arith);
    }
}

/// The scalars that bytes spell are the scalars whose bytes they are.
pub proof fn lemma_decode_encode<T: TData>(s: Seq<T>)
    ensures
        decode::<T>(encode(s), s.len()) == s,
{
    let size = T::kind().size() as int;
    let d = decode::<T>(encode(s), s.len());
    assert forall|i: int| 0 <= i < s.len() implies d[i] == s[i] by {
        lemma_encode_layout(s, i);
        s[i].lemma_bits();
        lemma_le_value_of_bytes(s[i].bits(), size as nat);
        assert(i * size + size == (i + 1) * size) by (nonlinear_arith);
    }
    assert(d =~= s);
}


/// The bytes of the scalars that bytes spell are those bytes: every bit
/// pattern is a value.
pub proof fn lemma_encode_decode<T: TData>(b: Seq<u8>, count: nat)
    requires
        b.len() == count * T::kind().size(),
    ensures
        encode(decode::<T>(b, count)) == b,
    decreases count,
{
    let size = T::kind().size() as int;
    let s = decode::<T>(b, count);
    if count == 0 {
        assert(0 * size == 0) by (nonlinear_arith);
        assert(b =~= Seq::<u8>::empty());
    } else {
        let split = (count - 1) * size;
        assert(split + size == count * size) by (nonlinear_arith)
            requires
                split == (count - 1) * size,
        ;
        assert(0 <= split) by (nonlinear_arith)
            requires
                split == (count - 1) * size,
                count >= 1,
                size >= 1,
        ;
        let head = b.subrange(0, split);
        let chunk = b.subrange(split, split + size);
        lemma_encode_decode::<T>(head, (count - 1) as nat);
        assert forall|i: int| 0 <= i < count - 1 implies decode::<T>(head, (count - 1) as nat)[i]
            == s[i] by {
            assert(0 <= i * size && i * size + size <= split) by (nonlinear_arith)
                requires
                    0 <= i < count - 1,
                    size >= 1,
                    split == (count - 1) * size,
            ;
            assert(head.subrange(i * size, i * size + size) =~= b.subrange(
                i * size,
                i * size + size,
            ));
        }
        assert(decode::<T>(head, (count - 1) as nat) =~= s.drop_last());
        lemma_le_bytes_of_value(chunk);
        T::lemma_of_bits(le_value(chunk));
        assert(s.last() == T::of_bits(le_value(chunk)));
        assert(encode(s) =~= head + chunk);
        assert(head + chunk =~= b);
    }
}

/// The size of every scalar kind is a power of two, and so it can be the
/// kind's alignment.
pub proof fn lemma_size_is_power_of_two(dt: DType)
    ensures
        is_pow2(dt.size() as int),
{
    reveal_with_fuel(is_pow2, 5);
}

impl TData for u8 {
    open spec fn kind() -> DType {
        DType::U8
    }

    open spec fn bits(self) -> u64 {
        self as u64
    }

    open spec fn of_bits(bits: u64) -> u8 {
        bits as u8
    }

    open spec fn equal(self, other: u8) -> bool {
        self == other
    }

    fn name() -> (s: &'static str)
        ensures
            s@ == "u8"@,
    {
        "u8"
    }

    fn dtype() -> (d: DType) {
        DType::U8
    }

    fn to_bits(self) -> (bits: u64) {
        self as u64
    }

    fn from_bits(bits: u64) -> (v: u8) {
        bits as u8
    }

    fn same(self, other: u8) -> (r: bool) {
        self == other
    }

    proof fn lemma_bits(self) {
    }

    proof fn lemma_of_bits(bits: u64) {
    }
}

impl TData for u16 {
    open spec fn kind() -> DType {
        DType::U16
    }

    open spec fn bits(self) -> u64 {
        self as u64
    }

    open spec fn of_bits(bits: u64) -> u16 {
        bits as u16
    }

    open spec fn equal(self, other: u16) -> bool {
        self == other
    }

    fn name() -> (s: &'static str)
        ensures
            s@ == "u16"@,
    {
        "u16"
    }

    fn dtype() -> (d: DType) {
        DType::U16
    }

    fn to_bits(self) -> (bits: u64) {
        self as u64
    }

    fn from_bits(bits: u64) -> (v: u16) {
        bits as u16
    }

    fn same(self, other: u16) -> (r: bool) {
        self == other
    }

    proof fn lemma_bits(self) {
    }

    proof fn lemma_of_bits(bits: u64) {
    }
}

impl TData for u32 {
    open spec fn kind() -> DType {
        DType::U32
    }

    open spec fn bits(self) -> u64 {
        self as u64
    }

    open spec fn of_bits(bits: u64) -> u32 {
        bits as u32
    }

    open spec fn equal(self, other: u32) -> bool {
        self == other
    }

    fn name() -> (s: &'static str)
        ensures
            s@ == "u32"@,
    {
        "u32"
    }

    fn dtype() -> (d: DType) {
        DType::U32
    }

    fn to_bits(self) -> (bits: u64) {
        self as u64
    }

    fn from_bits(bits: u64) -> (v: u32) {
        bits as u32
    }

    fn same(self, other: u32) -> (r: bool) {
        self == other
    }

    proof fn lemma_bits(self) {
    }

    proof fn lemma_of_bits(bits: u64) {
    }
}

impl TData for u64 {
    open spec fn kind() -> DType {
        DType::U64
    }

    open spec fn bits(self) -> u64 {
        self as u64
    }

    open spec fn of_bits(bits: u64) -> u64 {
        bits as u64
    }

    open spec fn equal(self, other: u64) -> bool {
        self == other
    }

    fn name() -> (s: &'static str)
        ensures
            s@ == "u64"@,
    {
        "u64"
    }

    fn dtype() -> (d: DType) {
        DType::U64
    }

    fn to_bits(self) -> (bits: u64) {
        self as u64
    }

    fn from_bits(bits: u64) -> (v: u64) {
        bits as u64
    }

    fn same(self, other: u64) -> (r: bool) {
        self == other
    }

    proof fn lemma_bits(self) {
    }

    proof fn lemma_of_bits(bits: u64) {
    }
}

impl TData for i8 {
    open spec fn kind() -> DType {
        DType::I8
    }

    /// The two's complement of the value.
    open spec fn bits(self) -> u64 {
        (self as u8) as u64
    }

    open spec fn of_bits(bits: u64) -> i8 {
        (bits as u8) as i8
    }

    open spec fn equal(self, other: i8) -> bool {
        self == other
    }

    fn name() -> (s: &'static str)
        ensures
            s@ == "i8"@,
    {
        "i8"
    }

    fn dtype() -> (d: DType) {
        DType::I8
    }

    fn to_bits(self) -> (bits: u64) {
        (self as u8) as u64
    }

    fn from_bits(bits: u64) -> (v: i8) {
        (bits as u8) as i8
    }

    fn same(self, other: i8) -> (r: bool) {
        self == other
    }

    proof fn lemma_bits(self) {
        let x = self;
        assert(((x as u8) as u64) <= 0xff && (((x as u8) as u64) as u8) as i8 == x) by (bit_vector);
    }

    proof fn lemma_of_bits(bits: u64) {
        assert((((bits as u8) as i8) as u8) as u64 == bits) by (bit_vector)
            requires
                bits <= 0xff,
        ;
    }
}

impl TData for i16 {
    open spec fn kind() -> DType {
        DType::I16
    }

    /// The two's complement of the value.
    open spec fn bits(self) -> u64 {
        (self as u16) as u64
    }

    open spec fn of_bits(bits: u64) -> i16 {
        (bits as u16) as i16
    }

    open spec fn equal(self, other: i16) -> bool {
        self == other
    }

    fn name() -> (s: &'static str)
        ensures
            s@ == "i16"@,
    {
        "i16"
    }

    fn dtype() -> (d: DType) {
        DType::I16
    }

    fn to_bits(self) -> (bits: u64) {
        (self as u16) as u64
    }

    fn from_bits(bits: u64) -> (v: i16) {
        (bits as u16) as i16
    }

    fn same(self, other: i16) -> (r: bool) {
        self == other
    }

    proof fn lemma_bits(self) {
        let x = self;
        assert(((x as u16) as u64) <= 0xffff && (((x as u16) as u64) as u16) as i16 == x) by (bit_vector);
    }

    proof fn lemma_of_bits(bits: u64) {
        assert((((bits as u16) as i16) as u16) as u64 == bits) by (bit_vector)
            requires
                bits <= 0xffff,
        ;
    }
}

impl TData for i32 {
    open spec fn kind() -> DType {
        DType::I32
    }

    /// The two's complement of the value.
    open spec fn bits(self) -> u64 {
        (self as u32) as u64
    }

    open spec fn of_bits(bits: u64) -> i32 {
        (bits as u32) as i32
    }

    open spec fn equal(self, other: i32) -> bool {
        self == other
    }

    fn name() -> (s: &'static str)
        ensures
            s@ == "i32"@,
    {
        "i32"
    }

    fn dtype() -> (d: DType) {
        DType::I32
    }

    fn to_bits(self) -> (bits: u64) {
        (self as u32) as u64
    }

    fn from_bits(bits: u64) -> (v: i32) {
        (bits as u32) as i32
    }

    fn same(self, other: i32) -> (r: bool) {
        self == other
    }

    proof fn lemma_bits(self) {
        let x = self;
        assert(((x as u32) as u64) <= 0xffff_ffff && (((x as u32) as u64) as u32) as i32 == x) by (bit_vector);
    }

    proof fn lemma_of_bits(bits: u64) {
        assert((((bits as u32) as i32) as u32) as u64 == bits) by (bit_vector)
            requires
                bits <= 0xffff_ffff,
        ;
    }
}

impl TData for i64 {
    open spec fn kind() -> DType {
        DType::I64
    }

    /// The two's complement of the value.
    open spec fn bits(self) -> u64 {
        self as u64
    }

    open spec fn of_bits(bits: u64) -> i64 {
        bits as i64
    }

    open spec fn equal(self, other: i64) -> bool {
        self == other
    }

    fn name() -> (s: &'static str)
        ensures
            s@ == "i64"@,
    {
        "i64"
    }

    fn dtype() -> (d: DType) {
        DType::I64
    }

    fn to_bits(self) -> (bits: u64) {
        self as u64
    }

    fn from_bits(bits: u64) -> (v: i64) {
        bits as i64
    }

    fn same(self, other: i64) -> (r: bool) {
        self == other
    }

    proof fn lemma_bits(self) {
        let x = self;
        assert((x as u64) as i64 == x) by (bit_vector);
    }

    proof fn lemma_of_bits(bits: u64) {
        assert(((bits as i64) as u64) == bits) by (bit_vector);
    }
}

/// A 32-bit floating-point number, held as its IEEE 754 bits.
#[derive(Debug, Clone, Copy, PartialEq, Eq)]
pub struct F32Bits(pub u32);

impl F32Bits {
    /// Whether the bits are those of a NaN.
    pub open spec fn is_nan(self) -> bool {
        self.0 & 0x7fff_ffff > 0x7f80_0000
    }

    /// Whether the bits are those of zero, of either sign.
    pub open spec fn is_zero(self) -> bool {
        self.0 & 0x7fff_ffff == 0
    }
}

impl TData for F32Bits {
    open spec fn kind() -> DType {
        DType::F32
    }

    open spec fn bits(self) -> u64 {
        self.0 as u64
    }

    open spec fn of_bits(bits: u64) -> F32Bits {
        F32Bits(bits as u32)
    }

    /// Equality of floating-point numbers: a NaN equals nothing, the two
    /// zeros equal each other, and any other number equals only itself.
    open spec fn equal(self, other: F32Bits) -> bool {
        &&& !self.is_nan()
        &&& !other.is_nan()
        &&& (self.0 == other.0 || (self.is_zero() && other.is_zero()))
    }

    fn name() -> (s: &'static str)
        ensures
            s@ == "f32"@,
    {
        "f32"
    }

    fn dtype() -> (d: DType) {
        DType::F32
    }

    fn to_bits(self) -> (bits: u64) {
        self.0 as u64
    }

    fn from_bits(bits: u64) -> (v: F32Bits) {
        F32Bits(bits as u32)
    }

    fn same(self, other: F32Bits) -> (r: bool) {
        let a = self.0 & 0x7fff_ffff;
        let b = other.0 & 0x7fff_ffff;
        a <= 0x7f80_0000 && b <= 0x7f80_0000 && (self.0 == other.0 || (a == 0 && b == 0))
    }

    proof fn lemma_bits(self) {
    }

    proof fn lemma_of_bits(bits: u64) {
    }
}

/// A 64-bit floating-point number, held as its IEEE 754 bits.
#[derive(Debug, Clone, Copy, PartialEq, Eq)]
pub struct F64Bits(pub u64);

impl F64Bits {
    /// Whether the bits are those of a NaN.
    pub open spec fn is_nan(self) -> bool {
        self.0 & 0x7fff_ffff_ffff_ffff > 0x7ff0_0000_0000_0000
    }

    /// Whether the bits are those of zero, of either sign.
    pub open spec fn is_zero(self) -> bool {
        self.0 & 0x7fff_ffff_ffff_ffff == 0
    }
}

impl TData for F64Bits {
    open spec fn kind() -> DType {
        DType::F64
    }

    open spec fn bits(self) -> u64 {
        self.0
    }

    open spec fn of_bits(bits: u64) -> F64Bits {
        F64Bits(bits)
    }

    /// Equality of floating-point numbers: a NaN equals nothing, the two
    /// zeros equal each other, and any other number equals only itself.
    open spec fn equal(self, other: F64Bits) -> bool {
        &&& !self.is_nan()
        &&& !other.is_nan()
        &&& (self.0 == other.0 || (self.is_zero() && other.is_zero()))
    }

    fn name() -> (s: &'static str)
        ensures
            s@ == "f64"@,
    {
        "f64"
    }

    fn dtype() -> (d: DType) {
        DType::F64
    }

    fn to_bits(self) -> (bits: u64) {
        self.0
    }

    fn from_bits(bits: u64) -> (v: F64Bits) {
        F64Bits(bits)
    }

    fn same(self, other: F64Bits) -> (r: bool) {
        let a = self.0 & 0x7fff_ffff_ffff_ffff;
        let b = other.0 & 0x7fff_ffff_ffff_ffff;
        a <= 0x7ff0_0000_0000_0000 && b <= 0x7ff0_0000_0000_0000 && (self.0 == other.0 || (a == 0 && b == 0))
    }

    proof fn lemma_bits(self) {
    }

    proof fn lemma_of_bits(bits: u64) {
    }
}

} // verus!
