use vstd::prelude::*;
use vstd::string::StringSliceAdditionalSpecFns;

use crate::TiffError;
use crate::writer::TiffWriter;

verus! {

/// Field type tags of the directory, one per native value shape.
#[allow(non_camel_case_types)]
#[derive(Clone, Copy, Debug, PartialEq, Eq, Structural)]
pub enum Type {
    BYTE,
    ASCII,
    SHORT,
    LONG,
    RATIONAL,
    SBYTE,
    SSHORT,
    SLONG,
    SRATIONAL,
    IFD,
    LONG8,
    SLONG8,
    IFD8,
}

impl Type {
    /// The 16-bit code the directory stores for this field type.
    pub open spec fn spec_code(self) -> u16 {
        match self {
            Type::BYTE => 1u16,
            Type::ASCII => 2u16,
            Type::SHORT => 3u16,
            Type::LONG => 4u16,
            Type::RATIONAL => 5u16,
            Type::SBYTE => 6u16,
            Type::SSHORT => 8u16,
            Type::SLONG => 9u16,
            Type::SRATIONAL => 10u16,
            Type::IFD => 13u16,
            Type::LONG8 => 16u16,
            Type::SLONG8 => 17u16,
            Type::IFD8 => 18u16,
        }
    }

    /// The 16-bit code the directory stores for this field type.
    pub fn code(self) -> (c: u16)
        ensures
            c == self.spec_code(),
    {
        match self {
            Type::BYTE => 1,
            Type::ASCII => 2,
            Type::SHORT => 3,
            Type::LONG => 4,
            Type::RATIONAL => 5,
            Type::SBYTE => 6,
            Type::SSHORT => 8,
            Type::SLONG => 9,
            Type::SRATIONAL => 10,
            Type::IFD => 13,
            Type::LONG8 => 16,
            Type::SLONG8 => 17,
            Type::IFD8 => 18,
        }
    }
}

/// The `n` least significant base-256 digits of `v`, least significant first:
/// the little-endian byte serialization of an unsigned value.
pub open spec fn le_bytes(v: int, n: nat) -> Seq<u8>
    decreases n,
{
    if n == 0 {
        Seq::empty()
    } else {
        seq![(v % 256) as u8] + le_bytes(v / 256, (n - 1) as nat)
    }
}

pub proof fn lemma_le_bytes_len(v: int, n: nat)
    ensures
        le_bytes(v, n).len() == n,
    decreases n,
{
    if n > 0 {
        lemma_le_bytes_len(v / 256, (n - 1) as nat);
    }
}

/// The `n` little-endian bytes of `x`.
fn le_bytes_vec(x: u64, n: usize) -> (r: Vec<u8>)
    ensures
        r@ == le_bytes(x as int, n as nat),
{
    let mut r: Vec<u8> = Vec::new();
    let mut v: u64 = x;
    let mut i: usize = 0;
    proof {
        assert(Seq::<u8>::empty() + le_bytes(x as int, n as nat) =~= le_bytes(x as int, n as nat));
    }
    while i < n
        invariant
            i <= n,
            le_bytes(x as int, n as nat) == r@ + le_bytes(v as int, (n - i) as nat),
        decreases n - i,
    {
        let ghost r0 = r@;
        let ghost v0 = v as int;
        let ghost rem = (n - i) as nat;
        r.push((v % 256) as u8);
        v = v / 256;
        proof {
            assert(le_bytes(v0, rem) == seq![(v0 % 256) as u8] + le_bytes(
                v0 / 256,
                (rem - 1) as nat,
            ));
            assert(r0 + le_bytes(v0, rem) =~= r@ + le_bytes(v as int, (n - (i + 1)) as nat));
        }
        i = i + 1;
    }
    proof {
        assert(r@ + le_bytes(v as int, 0) =~= r@);
    }
    r
}

/// Trait for types that can be encoded as directory field values.
///
/// Each implementing type fixes a field type tag and a per-element byte
/// width, and serializes to exactly `count * byte_len` bytes, little-endian
/// within each element.  The byte order is fixed: this codec serves the
/// little-endian container variant, the one whose header declares `II`; a
/// big-endian container would mirror the bytes of each element.  Only
/// strings can be invalid: a string field must be ASCII with no embedded
/// NUL, and gains one terminating NUL byte.
pub trait TiffValue {
    /// Number of bytes one element occupies on disk.
    spec fn spec_byte_len() -> nat;

    /// Number of elements this value counts as in the directory.
    spec fn spec_count(&self) -> nat;

    /// Whether the value can be encoded at all.
    spec fn spec_valid(&self) -> bool;

    /// The exact byte serialization; empty when the value is invalid.
    spec fn spec_serialized(&self) -> Seq<u8>;

    /// A valid value serializes to exactly `count * byte_len` bytes.
    proof fn serialized_len(&self)
        ensures
            self.spec_valid() ==> self.spec_serialized().len() == self.spec_count()
                * Self::spec_byte_len(),
    ;

    /// The field type tag this type is recorded under.
    spec fn spec_field_type() -> Type;

    fn byte_len() -> (r: u8)
        ensures
            r as nat == Self::spec_byte_len(),
    ;

    fn field_type() -> (t: Type)
        ensures
            t == Self::spec_field_type(),
    ;

    fn count(&self) -> (r: usize)
        requires
            self.spec_count() <= usize::MAX,
        ensures
            r == self.spec_count(),
    ;

    fn is_valid(&self) -> (b: bool)
        ensures
            b == self.spec_valid(),
    ;

    fn serialize(&self) -> (r: Vec<u8>)
        ensures
            r@ == self.spec_serialized(),
    ;

    /// Appends the serialization to the sink, whole or not at all.
    fn write(&self, writer: &mut TiffWriter) -> (r: Result<(), TiffError>)
        ensures
            final(writer).base == old(writer).base,
            match r {
                Ok(()) => self.spec_valid() && final(writer).buf@ == old(writer).buf@
                    + self.spec_serialized() && final(writer).wf(),
                Err(e) => {
                    &&& final(writer).buf@ == old(writer).buf@
                    &&& (e == TiffError::InvalidStringValue ==> !self.spec_valid())
                    &&& (e == TiffError::WriteFailure ==> old(writer).base + old(writer).buf@.len()
                        + self.spec_serialized().len() > u64::MAX)
                    &&& (e == TiffError::InvalidStringValue || e == TiffError::WriteFailure)
                },
            },
    ;

    /// Total number of bytes a valid value occupies on disk.
    fn bytes(&self) -> (r: usize)
        requires
            self.spec_count() <= usize::MAX,
            self.spec_count() * Self::spec_byte_len() <= usize::MAX,
        ensures
            r == self.spec_count() * Self::spec_byte_len(),
    {
        let c = self.count();
        let b = Self::byte_len();
        c * (b as usize)
    }
}

impl TiffValue for u8 {
    open spec fn spec_byte_len() -> nat {
        1
    }

    open spec fn spec_count(&self) -> nat {
        1
    }

    open spec fn spec_valid(&self) -> bool {
        true
    }

    open spec fn spec_serialized(&self) -> Seq<u8> {
        le_bytes(*self as int, 1)
    }

    proof fn serialized_len(&self) {
        lemma_le_bytes_len(*self as int, 1);
    }

    open spec fn spec_field_type() -> Type {
        Type::BYTE
    }

    fn byte_len() -> u8 {
        1
    }

    fn field_type() -> Type {
        Type::BYTE
    }

    fn count(&self) -> usize {
        1
    }

    fn is_valid(&self) -> bool {
        true
    }

    fn serialize(&self) -> Vec<u8> {
        le_bytes_vec(*self as u64, 1)
    }

    fn write(&self, writer: &mut TiffWriter) -> Result<(), TiffError> {
        let data = self.serialize();
        writer.write_bytes(data.as_slice())
    }
}

impl TiffValue for i8 {
    open spec fn spec_byte_len() -> nat {
        1
    }

    open spec fn spec_count(&self) -> nat {
        1
    }

    open spec fn spec_valid(&self) -> bool {
        true
    }

    open spec fn spec_serialized(&self) -> Seq<u8> {
        le_bytes((*self as u8) as int, 1)
    }

    proof fn serialized_len(&self) {
        lemma_le_bytes_len((*self as u8) as int, 1);
    }

    open spec fn spec_field_type() -> Type {
        Type::SBYTE
    }

    fn byte_len() -> u8 {
        1
    }

    fn field_type() -> Type {
        Type::SBYTE
    }

    fn count(&self) -> usize {
        1
    }

    fn is_valid(&self) -> bool {
        true
    }

    fn serialize(&self) -> Vec<u8> {
        le_bytes_vec((*self as u8) as u64, 1)
    }

    fn write(&self, writer: &mut TiffWriter) -> Result<(), TiffError> {
        let data = self.serialize();
        writer.write_bytes(data.as_slice())
    }
}

impl TiffValue for u16 {
    open spec fn spec_byte_len() -> nat {
        2
    }

    open spec fn spec_count(&self) -> nat {
        1
    }

    open spec fn spec_valid(&self) -> bool {
        true
    }

    open spec fn spec_serialized(&self) -> Seq<u8> {
        le_bytes(*self as int, 2)
    }

    proof fn serialized_len(&self) {
        lemma_le_bytes_len(*self as int, 2);
    }

    open spec fn spec_field_type() -> Type {
        Type::SHORT
    }

    fn byte_len() -> u8 {
        2
    }

    fn field_type() -> Type {
        Type::SHORT
    }

    fn count(&self) -> usize {
        1
    }

    fn is_valid(&self) -> bool {
        true
    }

    fn serialize(&self) -> Vec<u8> {
        le_bytes_vec(*self as u64, 2)
    }

    fn write(&self, writer: &mut TiffWriter) -> Result<(), TiffError> {
        let data = self.serialize();
        writer.write_bytes(data.as_slice())
    }
}

impl TiffValue for i16 {
    open spec fn spec_byte_len() -> nat {
        2
    }

    open spec fn spec_count(&self) -> nat {
        1
    }

    open spec fn spec_valid(&self) -> bool {
        true
    }

    open spec fn spec_serialized(&self) -> Seq<u8> {
        le_bytes((*self as u16) as int, 2)
    }

    proof fn serialized_len(&self) {
        lemma_le_bytes_len((*self as u16) as int, 2);
    }

    open spec fn spec_field_type() -> Type {
        Type::SSHORT
    }

    fn byte_len() -> u8 {
        2
    }

    fn field_type() -> Type {
        Type::SSHORT
    }

    fn count(&self) -> usize {
        1
    }

    fn is_valid(&self) -> bool {
        true
    }

    fn serialize(&self) -> Vec<u8> {
        le_bytes_vec((*self as u16) as u64, 2)
    }

    fn write(&self, writer: &mut TiffWriter) -> Result<(), TiffError> {
        let data = self.serialize();
        writer.write_bytes(data.as_slice())
    }
}

impl TiffValue for u32 {
    open spec fn spec_byte_len() -> nat {
        4
    }

    open spec fn spec_count(&self) -> nat {
        1
    }

    open spec fn spec_valid(&self) -> bool {
        true
    }

    open spec fn spec_serialized(&self) -> Seq<u8> {
        le_bytes(*self as int, 4)
    }

    proof fn serialized_len(&self) {
        lemma_le_bytes_len(*self as int, 4);
    }

    open spec fn spec_field_type() -> Type {
        Type::LONG
    }

    fn byte_len() -> u8 {
        4
    }

    fn field_type() -> Type {
        Type::LONG
    }

    fn count(&self) -> usize {
        1
    }

    fn is_valid(&self) -> bool {
        true
    }

    fn serialize(&self) -> Vec<u8> {
        le_bytes_vec(*self as u64, 4)
    }

    fn write(&self, writer: &mut TiffWriter) -> Result<(), TiffError> {
        let data = self.serialize();
        writer.write_bytes(data.as_slice())
    }
}

impl TiffValue for i32 {
    open spec fn spec_byte_len() -> nat {
        4
    }

    open spec fn spec_count(&self) -> nat {
        1
    }

    open spec fn spec_valid(&self) -> bool {
        true
    }

    open spec fn spec_serialized(&self) -> Seq<u8> {
        le_bytes((*self as u32) as int, 4)
    }

    proof fn serialized_len(&self) {
        lemma_le_bytes_len((*self as u32) as int, 4);
    }

    open spec fn spec_field_type() -> Type {
        Type::SLONG
    }

    fn byte_len() -> u8 {
        4
    }

    fn field_type() -> Type {
        Type::SLONG
    }

    fn count(&self) -> usize {
        1
    }

    fn is_valid(&self) -> bool {
        true
    }

    fn serialize(&self) -> Vec<u8> {
        le_bytes_vec((*self as u32) as u64, 4)
    }

    fn write(&self, writer: &mut TiffWriter) -> Result<(), TiffError> {
        let data = self.serialize();
        writer.write_bytes(data.as_slice())
    }
}

impl TiffValue for u64 {
    open spec fn spec_byte_len() -> nat {
        8
    }

    open spec fn spec_count(&self) -> nat {
        1
    }

    open spec fn spec_valid(&self) -> bool {
        true
    }

    open spec fn spec_serialized(&self) -> Seq<u8> {
        le_bytes(*self as int, 8)
    }

    proof fn serialized_len(&self) {
        lemma_le_bytes_len(*self as int, 8);
    }

    open spec fn spec_field_type() -> Type {
        Type::LONG8
    }

    fn byte_len() -> u8 {
        8
    }

    fn field_type() -> Type {
        Type::LONG8
    }

    fn count(&self) -> usize {
        1
    }

    fn is_valid(&self) -> bool {
        true
    }

    fn serialize(&self) -> Vec<u8> {
        le_bytes_vec(*self, 8)
    }

    fn write(&self, writer: &mut TiffWriter) -> Result<(), TiffError> {
        let data = self.serialize();
        writer.write_bytes(data.as_slice())
    }
}

impl TiffValue for i64 {
    open spec fn spec_byte_len() -> nat {
        8
    }

    open spec fn spec_count(&self) -> nat {
        1
    }

    open spec fn spec_valid(&self) -> bool {
        true
    }

    open spec fn spec_serialized(&self) -> Seq<u8> {
        le_bytes((*self as u64) as int, 8)
    }

    proof fn serialized_len(&self) {
        lemma_le_bytes_len((*self as u64) as int, 8);
    }

    open spec fn spec_field_type() -> Type {
        Type::SLONG8
    }

    fn byte_len() -> u8 {
        8
    }

    fn field_type() -> Type {
        Type::SLONG8
    }

    fn count(&self) -> usize {
        1
    }

    fn is_valid(&self) -> bool {
        true
    }

    fn serialize(&self) -> Vec<u8> {
        le_bytes_vec(*self as u64, 8)
    }

    fn write(&self, writer: &mut TiffWriter) -> Result<(), TiffError> {
        let data = self.serialize();
        writer.write_bytes(data.as_slice())
    }
}

/// Type to represent tiff values of type `IFD`
#[derive(Clone, Copy, Debug, PartialEq, Eq, Structural)]
pub struct Ifd(pub u32);

/// Type to represent tiff values of type `IFD8`
#[derive(Clone, Copy, Debug, PartialEq, Eq, Structural)]
pub struct Ifd8(pub u64);

/// Type to represent tiff values of type `RATIONAL`
#[derive(Clone, Copy, Debug, PartialEq, Eq, Structural)]
pub struct Rational {
    pub n: u32,
    pub d: u32,
}

/// Type to represent tiff values of type `SRATIONAL`
#[derive(Clone, Copy, Debug, PartialEq, Eq, Structural)]
pub struct SRational {
    pub n: i32,
    pub d: i32,
}

impl TiffValue for Ifd {
    open spec fn spec_byte_len() -> nat {
        4
    }

    open spec fn spec_count(&self) -> nat {
        1
    }

    open spec fn spec_valid(&self) -> bool {
        true
    }

    open spec fn spec_serialized(&self) -> Seq<u8> {
        le_bytes(self.0 as int, 4)
    }

    proof fn serialized_len(&self) {
        lemma_le_bytes_len(self.0 as int, 4);
    }

    open spec fn spec_field_type() -> Type {
        Type::IFD
    }

    fn byte_len() -> u8 {
        4
    }

    fn field_type() -> Type {
        Type::IFD
    }

    fn count(&self) -> usize {
        1
    }

    fn is_valid(&self) -> bool {
        true
    }

    fn serialize(&self) -> Vec<u8> {
        le_bytes_vec(self.0 as u64, 4)
    }

    fn write(&self, writer: &mut TiffWriter) -> Result<(), TiffError> {
        let data = self.serialize();
        writer.write_bytes(data.as_slice())
    }
}

impl TiffValue for Ifd8 {
    open spec fn spec_byte_len() -> nat {
        8
    }

    open spec fn spec_count(&self) -> nat {
        1
    }

    open spec fn spec_valid(&self) -> bool {
        true
    }

    open spec fn spec_serialized(&self) -> Seq<u8> {
        le_bytes(self.0 as int, 8)
    }

    proof fn serialized_len(&self) {
        lemma_le_bytes_len(self.0 as int, 8);
    }

    open spec fn spec_field_type() -> Type {
        Type::IFD8
    }

    fn byte_len() -> u8 {
        8
    }

    fn field_type() -> Type {
        Type::IFD8
    }

    fn count(&self) -> usize {
        1
    }

    fn is_valid(&self) -> bool {
        true
    }

    fn serialize(&self) -> Vec<u8> {
        le_bytes_vec(self.0, 8)
    }

    fn write(&self, writer: &mut TiffWriter) -> Result<(), TiffError> {
        let data = self.serialize();
        writer.write_bytes(data.as_slice())
    }
}

impl TiffValue for Rational {
    open spec fn spec_byte_len() -> nat {
        8
    }

    open spec fn spec_count(&self) -> nat {
        1
    }

    open spec fn spec_valid(&self) -> bool {
        true
    }

    open spec fn spec_serialized(&self) -> Seq<u8> {
        le_bytes(self.n as int, 4) + le_bytes(self.d as int, 4)
    }

    proof fn serialized_len(&self) {
        lemma_le_bytes_len(self.n as int, 4);
        lemma_le_bytes_len(self.d as int, 4);
    }

    open spec fn spec_field_type() -> Type {
        Type::RATIONAL
    }

    fn byte_len() -> u8 {
        8
    }

    fn field_type() -> Type {
        Type::RATIONAL
    }

    fn count(&self) -> usize {
        1
    }

    fn is_valid(&self) -> bool {
        true
    }

    fn serialize(&self) -> (r: Vec<u8>) {
        let mut r = le_bytes_vec(self.n as u64, 4);
        let mut second = le_bytes_vec(self.d as u64, 4);
        r.append(&mut second);
        r
    }

    fn write(&self, writer: &mut TiffWriter) -> Result<(), TiffError> {
        let data = self.serialize();
        writer.write_bytes(data.as_slice())
    }
}

impl TiffValue for SRational {
    open spec fn spec_byte_len() -> nat {
        8
    }

    open spec fn spec_count(&self) -> nat {
        1
    }

    open spec fn spec_valid(&self) -> bool {
        true
    }

    open spec fn spec_serialized(&self) -> Seq<u8> {
        le_bytes((self.n as u32) as int, 4) + le_bytes((self.d as u32) as int, 4)
    }

    proof fn serialized_len(&self) {
        lemma_le_bytes_len((self.n as u32) as int, 4);
        lemma_le_bytes_len((self.d as u32) as int, 4);
    }

    open spec fn spec_field_type() -> Type {
        Type::SRATIONAL
    }

    fn byte_len() -> u8 {
        8
    }

    fn field_type() -> Type {
        Type::SRATIONAL
    }

    fn count(&self) -> usize {
        1
    }

    fn is_valid(&self) -> bool {
        true
    }

    fn serialize(&self) -> (r: Vec<u8>) {
        let mut r = le_bytes_vec((self.n as u32) as u64, 4);
        let mut second = le_bytes_vec((self.d as u32) as u64, 4);
        r.append(&mut second);
        r
    }

    fn write(&self, writer: &mut TiffWriter) -> Result<(), TiffError> {
        let data = self.serialize();
        writer.write_bytes(data.as_slice())
    }
}

/// A string field is encodable when it is ASCII with no embedded NUL.
pub open spec fn ascii_field(s: Seq<char>) -> bool {
    &&& vstd::utf8::is_ascii_chars(s)
    &&& forall|i: int| 0 <= i < s.len() ==> #[trigger] s[i] != '\0'
}

/// The byte each character of a valid string field serializes to.
pub open spec fn ascii_bytes(s: Seq<char>) -> Seq<u8> {
    Seq::new(s.len(), |i: int| s[i] as u8)
}

/// Whether a string can be encoded as an ASCII field value.
fn string_field_ok(s: &String) -> (b: bool)
    ensures
        b == ascii_field(s@),
{
    let st: &str = s.as_str();
    if !st.is_ascii() {
        return false;
    }
    proof {
        broadcast use vstd::string::is_ascii_spec_bytes;
    }
    let bytes: &[u8] = st.as_bytes();
    let mut i: usize = 0;
    while i < bytes.len()
        invariant
            vstd::string::is_ascii(st),
            st@ == s@,
            bytes@.len() == st@.len(),
            forall|k: int| 0 <= k < bytes@.len() ==> #[trigger] bytes@[k] == st@[k] as u8,
            i <= bytes@.len(),
            forall|k: int| 0 <= k < i ==> #[trigger] st@[k] != '\0',
        decreases bytes@.len() - i,
    {
        if bytes[i] == 0 {
            proof {
                let c = st@[i as int];
                assert(c as u8 == 0);
                assert('\0' <= c <= '\u{7f}');
                assert(c as int <= 127);
                assert(c as int == 0);
                assert(c == '\0');
            }
            return false;
        }
        proof {
            let c = st@[i as int];
            assert(c as int <= 127);
            assert(c as u8 != 0);
            assert(c != '\0');
        }
        i = i + 1;
    }
    true
}

impl TiffValue for String {
    open spec fn spec_byte_len() -> nat {
        1
    }

    open spec fn spec_count(&self) -> nat {
        self@.len() + 1
    }

    open spec fn spec_valid(&self) -> bool {
        ascii_field(self@)
    }

    open spec fn spec_serialized(&self) -> Seq<u8> {
        if ascii_field(self@) {
            ascii_bytes(self@) + seq![0u8]
        } else {
            Seq::empty()
        }
    }

    proof fn serialized_len(&self) {
        if ascii_field(self@) {
            assert(self.spec_serialized().len() == self@.len() + 1);
            assert((self@.len() + 1) * 1 == self@.len() + 1);
        }
    }

    open spec fn spec_field_type() -> Type {
        Type::ASCII
    }

    fn byte_len() -> u8 {
        1
    }

    fn field_type() -> Type {
        Type::ASCII
    }

    fn count(&self) -> (r: usize) {
        let st: &str = self.as_str();
        st.unicode_len() + 1
    }

    fn is_valid(&self) -> bool {
        string_field_ok(self)
    }

    fn serialize(&self) -> (r: Vec<u8>) {
        if string_field_ok(self) {
            let st: &str = self.as_str();
            proof {
                broadcast use vstd::string::is_ascii_spec_bytes;

                assert(vstd::string::is_ascii(st));
            }
            let mut r = st.as_bytes_vec();
            r.push(0);
            proof {
                assert(st.spec_bytes() =~= ascii_bytes(self@));
                assert(r@ =~= ascii_bytes(self@) + seq![0u8]);
            }
            r
        } else {
            Vec::new()
        }
    }

    fn write(&self, writer: &mut TiffWriter) -> Result<(), TiffError> {
        if !string_field_ok(self) {
            return Err(TiffError::InvalidStringValue);
        }
        let data = self.serialize();
        writer.write_bytes(data.as_slice())
    }
}

/// Elements a homogeneous array field counts as, summed from position `i` on.
pub open spec fn seq_count_from<T: TiffValue>(s: Seq<T>, i: int) -> nat
    decreases s.len() - i,
{
    if i < 0 || i >= s.len() {
        0
    } else {
        s[i].spec_count() + seq_count_from(s, i + 1)
    }
}

/// Serialization of a homogeneous array field from position `i` on: each
/// element's serialization in order.
pub open spec fn seq_serialized_from<T: TiffValue>(s: Seq<T>, i: int) -> Seq<u8>
    decreases s.len() - i,
{
    if i < 0 || i >= s.len() {
        Seq::empty()
    } else {
        s[i].spec_serialized() + seq_serialized_from(s, i + 1)
    }
}

proof fn lemma_seq_serialized_from_len<T: TiffValue>(s: Seq<T>, i: int)
    requires
        forall|k: int| 0 <= k < s.len() ==> (#[trigger] s[k]).spec_valid(),
    ensures
        seq_serialized_from(s, i).len() == seq_count_from(s, i) * T::spec_byte_len(),
    decreases s.len() - i,
{
    if 0 <= i < s.len() {
        s[i].serialized_len();
        lemma_seq_serialized_from_len(s, i + 1);
        assert(s[i].spec_valid());
        assert(s[i].spec_serialized().len() == s[i].spec_count() * T::spec_byte_len());
        assert(seq_serialized_from(s, i) == s[i].spec_serialized() + seq_serialized_from(s, i + 1));
        assert(seq_count_from(s, i) == s[i].spec_count() + seq_count_from(s, i + 1));
        assert((s[i].spec_count() + seq_count_from(s, i + 1)) * T::spec_byte_len() == s[
            i
        ].spec_count() * T::spec_byte_len() + seq_count_from(s, i + 1) * T::spec_byte_len())
            by (nonlinear_arith);
    } else {
        assert(seq_serialized_from(s, i).len() == 0);
        assert(seq_count_from(s, i) == 0);
        assert((0 as nat) * T::spec_byte_len() == 0) by (nonlinear_arith);
    }
}

impl<T: TiffValue> TiffValue for Vec<T> {
    open spec fn spec_byte_len() -> nat {
        T::spec_byte_len()
    }

    open spec fn spec_count(&self) -> nat {
        seq_count_from(self@, 0)
    }

    open spec fn spec_valid(&self) -> bool {
        forall|k: int| 0 <= k < self@.len() ==> (#[trigger] self@[k]).spec_valid()
    }

    open spec fn spec_serialized(&self) -> Seq<u8> {
        seq_serialized_from(self@, 0)
    }

    proof fn serialized_len(&self) {
        if self.spec_valid() {
            lemma_seq_serialized_from_len(self@, 0);
        }
    }

    open spec fn spec_field_type() -> Type {
        T::spec_field_type()
    }

    fn byte_len() -> u8 {
        T::byte_len()
    }

    fn field_type() -> Type {
        T::field_type()
    }

    fn count(&self) -> (r: usize) {
        let mut acc: usize = 0;
        let mut i: usize = 0;
        while i < self.len()
            invariant
                i <= self@.len(),
                acc + seq_count_from(self@, i as int) == seq_count_from(self@, 0),
                seq_count_from(self@, 0) <= usize::MAX,
            decreases self@.len() - i,
        {
            let elem: &T = &self[i];
            let c = elem.count();
            acc = acc + c;
            i = i + 1;
        }
        acc
    }

    fn is_valid(&self) -> (b: bool) {
        let mut i: usize = 0;
        while i < self.len()
            invariant
                i <= self@.len(),
                forall|k: int| 0 <= k < i ==> (#[trigger] self@[k]).spec_valid(),
            decreases self@.len() - i,
        {
            let elem: &T = &self[i];
            if !elem.is_valid() {
                return false;
            }
            i = i + 1;
        }
        true
    }

    fn serialize(&self) -> (r: Vec<u8>) {
        let mut r: Vec<u8> = Vec::new();
        let mut i: usize = 0;
        proof {
            assert(Seq::<u8>::empty() + seq_serialized_from(self@, 0) =~= seq_serialized_from(
                self@,
                0,
            ));
        }
        while i < self.len()
            invariant
                i <= self@.len(),
                seq_serialized_from(self@, 0) == r@ + seq_serialized_from(self@, i as int),
            decreases self@.len() - i,
        {
            let ghost r0 = r@;
            let elem: &T = &self[i];
            let mut part = elem.serialize();
            r.append(&mut part);
            proof {
                assert(r0 + (self@[i as int].spec_serialized() + seq_serialized_from(
                    self@,
                    i as int + 1,
                )) =~= r@ + seq_serialized_from(self@, i as int + 1));
            }
            i = i + 1;
        }
        proof {
            assert(r@ + Seq::<u8>::empty() =~= r@);
        }
        r
    }

    fn write(&self, writer: &mut TiffWriter) -> Result<(), TiffError> {
        if !self.is_valid() {
            return Err(TiffError::InvalidStringValue);
        }
        let data = self.serialize();
        writer.write_bytes(data.as_slice())
    }
}

} // verus!
