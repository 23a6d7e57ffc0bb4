//! Uniform data and its byte layout.
//!
//! A uniform is an ordered list of typed fields. Every scalar lane of a field
//! is kept as the bit pattern of a 32-bit IEEE-754 number. The layout engine
//! packs the fields in their order, each at the next offset that its alignment
//! allows, and pads the end to the largest alignment.

use crate::store::Handle;
use vstd::endian::{endianness, Endian};
use vstd::prelude::*;

verus! {

/// One byte of a lane: byte `k` of its four, counted from the least
/// significant one.
pub open spec fn lane_digit(lane: u32, k: int) -> u8 {
    if k == 0 {
        (lane % 0x100) as u8
    } else if k == 1 {
        ((lane / 0x100) % 0x100) as u8
    } else if k == 2 {
        ((lane / 0x1_0000) % 0x100) as u8
    } else {
        ((lane / 0x100_0000) % 0x100) as u8
    }
}

/// Byte `k` of a lane as it lies in memory on the machine that runs the code.
pub open spec fn lane_byte(lane: u32, k: int) -> u8 {
    match endianness() {
        Endian::Little => lane_digit(lane, k),
        Endian::Big => lane_digit(lane, 3 - k),
    }
}

/// The bytes of a run of lanes as they lie in memory: four for each lane, lane
/// after lane.
pub open spec fn raw_bytes(lanes: Seq<u32>) -> Seq<u8> {
    Seq::new(4 * lanes.len(), |i: int| lane_byte(lanes[i / 4], i % 4))
}

/// `bytemuck::cast_slice` from lanes to bytes: the same memory, read byte by
/// byte. Casting to bytes cannot fail, since a byte has size and alignment 1.
#[verifier::external_body]
fn lanes_as_bytes(lanes: &[u32]) -> (bytes: &[u8])
    ensures
        bytes@ == raw_bytes(lanes@),
{
    bytemuck::cast_slice(lanes)
}

/// The value of one field of a uniform.
#[derive(Debug, Clone)]
pub enum UniformFieldType {
    Vec2f([u32; 2]),
    Vec3f([u32; 3]),
    Vec4f([u32; 4]),
    Rgb([u32; 3]),
    Rgba([u32; 4]),
    Mat4x4f([[u32; 4]; 4]),
}

impl UniformFieldType {
    /// The alignment of the field in bytes.
    pub open spec fn spec_align(&self) -> nat {
        match self {
            UniformFieldType::Vec2f(_) => 8,
            _ => 16,
        }
    }

    /// The size of the field in bytes.
    pub open spec fn spec_size(&self) -> nat {
        match self {
            UniformFieldType::Vec2f(_) => 8,
            UniformFieldType::Mat4x4f(_) => 64,
            _ => 16,
        }
    }

    /// The lanes that the field occupies. A vector of three components takes
    /// four lanes, the last of them zero; a matrix is stored row after row.
    pub open spec fn lanes(&self) -> Seq<u32> {
        match self {
            UniformFieldType::Vec2f(v) => v@,
            UniformFieldType::Vec3f(v) | UniformFieldType::Rgb(v) => v@.push(0),
            UniformFieldType::Vec4f(v) | UniformFieldType::Rgba(v) => v@,
            UniformFieldType::Mat4x4f(m) => m[0]@ + m[1]@ + m[2]@ + m[3]@,
        }
    }

    /// The bytes that the field occupies.
    pub open spec fn bytes(&self) -> Seq<u8> {
        raw_bytes(self.lanes())
    }

    /// The alignment and the size of the field, in this order.
    pub fn layout(&self) -> (r: (usize, usize))
        ensures
            r.0 == self.spec_align(),
            r.1 == self.spec_size(),
    {
        match self {
            UniformFieldType::Vec2f(_) => (8, 8),
            UniformFieldType::Vec3f(_)
            | UniformFieldType::Rgb(_)
            | UniformFieldType::Vec4f(_)
            | UniformFieldType::Rgba(_) => (16, 16),
            UniformFieldType::Mat4x4f(_) => (16, 64),
        }
    }

    /// The bytes of a field are as many as its size says.
    pub proof fn lemma_bytes_len(&self)
        ensures
            self.bytes().len() == self.spec_size(),
    {
    }

    /// Appends the bytes of the field to `buf`, as many as its size says.
    pub fn write_to(&self, buf: &mut Vec<u8>)
        ensures
            final(buf)@ == old(buf)@ + self.bytes(),
            final(buf)@.len() == old(buf)@.len() + self.spec_size(),
    {
        match self {
            UniformFieldType::Vec2f(v) => {
                buf.extend_from_slice(lanes_as_bytes(v));
            },
            UniformFieldType::Vec3f(v) | UniformFieldType::Rgb(v) => {
                let padded: [u32; 4] = [v[0], v[1], v[2], 0];
                assert(padded@ =~= v@.push(0));
                buf.extend_from_slice(lanes_as_bytes(&padded));
            },
            UniformFieldType::Vec4f(v) | UniformFieldType::Rgba(v) => {
                buf.extend_from_slice(lanes_as_bytes(v));
            },
            UniformFieldType::Mat4x4f(m) => {
                let flat: [u32; 16] = [
                    m[0][0], m[0][1], m[0][2], m[0][3],
                    m[1][0], m[1][1], m[1][2], m[1][3],
                    m[2][0], m[2][1], m[2][2], m[2][3],
                    m[3][0], m[3][1], m[3][2], m[3][3],
                ];
                assert(flat@ =~= m[0]@ + m[1]@ + m[2]@ + m[3]@);
                buf.extend_from_slice(lanes_as_bytes(&flat));
            },
        }
        assert(buf@ =~= old(buf)@ + self.bytes());
    }
}

/// A named field of a uniform.
#[derive(Debug)]
pub struct UniformField {
    pub name: String,
    pub ty: UniformFieldType,
}

impl UniformField {
    fn new(name: &str, ty: UniformFieldType) -> (field: Self)
        ensures
            field.name@ == name@,
            field.ty == ty,
    {
        Self { name: name.to_owned(), ty }
    }

    pub fn new_vec4(name: &str, vec4: [u32; 4]) -> (field: Self)
        ensures
            field.name@ == name@,
            field.ty == UniformFieldType::Vec4f(vec4),
    {
        Self::new(name, UniformFieldType::Vec4f(vec4))
    }

    pub fn new_vec3(name: &str, vec3: [u32; 3]) -> (field: Self)
        ensures
            field.name@ == name@,
            field.ty == UniformFieldType::Vec3f(vec3),
    {
        Self::new(name, UniformFieldType::Vec3f(vec3))
    }

    pub fn new_vec2(name: &str, vec2: [u32; 2]) -> (field: Self)
        ensures
            field.name@ == name@,
            field.ty == UniformFieldType::Vec2f(vec2),
    {
        Self::new(name, UniformFieldType::Vec2f(vec2))
    }

    pub fn new_rgb(name: &str, color: [u32; 3]) -> (field: Self)
        ensures
            field.name@ == name@,
            field.ty == UniformFieldType::Rgb(color),
    {
        Self::new(name, UniformFieldType::Rgb(color))
    }

    pub fn new_rgba(name: &str, color: [u32; 4]) -> (field: Self)
        ensures
            field.name@ == name@,
            field.ty == UniformFieldType::Rgba(color),
    {
        Self::new(name, UniformFieldType::Rgba(color))
    }

    pub fn new_mat4(name: &str, mat4: [[u32; 4]; 4]) -> (field: Self)
        ensures
            field.name@ == name@,
            field.ty == UniformFieldType::Mat4x4f(mat4),
    {
        Self::new(name, UniformFieldType::Mat4x4f(mat4))
    }
}

/// `n` rounded up to the next multiple of `align`.
pub open spec fn round_up(n: nat, align: nat) -> nat
    recommends
        align > 0,
{
    if n % align == 0 {
        n
    } else {
        (n + align - n % align) as nat
    }
}

/// `bytes`, followed by as many zero bytes as bring the length to a multiple
/// of `align`.
pub open spec fn padded(bytes: Seq<u8>, align: nat) -> Seq<u8>
    recommends
        align > 0,
{
    bytes + Seq::new((round_up(bytes.len(), align) - bytes.len()) as nat, |i: int| 0u8)
}

/// The alignment of a whole uniform: the largest alignment among its fields,
/// and 1 where it has none.
pub open spec fn struct_align(fields: Seq<UniformFieldType>) -> nat
    decreases fields.len(),
{
    if fields.len() == 0 {
        1
    } else {
        let rest = struct_align(fields.drop_last());
        let own = fields.last().spec_align();
        if own > rest {
            own
        } else {
            rest
        }
    }
}

/// The fields laid out one after the other in their order, each at the next
/// offset that is a multiple of its alignment, with zero bytes in the gaps.
/// Nothing follows the last field.
pub open spec fn packed(fields: Seq<UniformFieldType>) -> Seq<u8>
    decreases fields.len(),
{
    if fields.len() == 0 {
        Seq::empty()
    } else {
        padded(packed(fields.drop_last()), fields.last().spec_align()) + fields.last().bytes()
    }
}

/// The contents of the buffer of a uniform: the fields packed in their order,
/// then padded to the alignment of the whole.
pub open spec fn serialized(fields: Seq<UniformFieldType>) -> Seq<u8> {
    padded(packed(fields), struct_align(fields))
}

/// The offset of field `i` in the buffer.
pub open spec fn field_offset(fields: Seq<UniformFieldType>, i: int) -> nat
    recommends
        0 <= i < fields.len(),
{
    round_up(packed(fields.take(i)).len(), fields[i].spec_align())
}

/// Rounding up yields a multiple of `align` that is not below `n` and less
/// than `align` above it.
pub proof fn lemma_round_up(n: nat, align: nat)
    requires
        align > 0,
    ensures
        round_up(n, align) % align == 0,
        n <= round_up(n, align) < n + align,
{
    let r = n % align;
    assert(0 <= r < align) by (nonlinear_arith)
        requires
            r == n % align,
            align > 0,
    ;
    if r != 0 {
        assert((n + align - r) % (align as int) == 0) by (nonlinear_arith)
            requires
                r == n % align,
                align > 0,
        ;
    }
}

/// The alignment of a uniform is 1, 8 or 16, and no field asks for more.
pub proof fn lemma_struct_align(fields: Seq<UniformFieldType>)
    ensures
        struct_align(fields) == 1 || struct_align(fields) == 8 || struct_align(fields) == 16,
        forall|i: int| 0 <= i < fields.len() ==> (#[trigger] fields[i]).spec_align() <= struct_align(fields),
        fields.len() > 0 ==> exists|i: int|
            0 <= i < fields.len() && (#[trigger] fields[i]).spec_align() == struct_align(fields),
    decreases fields.len(),
{
    if fields.len() > 0 {
        let rest = fields.drop_last();
        lemma_struct_align(rest);
        let last = fields.len() - 1;
        assert forall|i: int| 0 <= i < fields.len() implies (#[trigger] fields[i]).spec_align()
            <= struct_align(fields) by {
            if i < last {
                assert(rest[i] == fields[i]);
            }
        }
        if fields.last().spec_align() >= struct_align(rest) {
            assert(fields[last].spec_align() == struct_align(fields));
        } else {
            let i = choose|i: int|
                0 <= i < rest.len() && (#[trigger] rest[i]).spec_align() == struct_align(rest);
            assert(fields[i] == rest[i]);
        }
    }
}

/// Packing more fields never shortens what was packed before.
pub proof fn lemma_packed_prefix(fields: Seq<UniformFieldType>, i: int)
    requires
        0 <= i <= fields.len(),
    ensures
        packed(fields.take(i)).len() <= packed(fields).len(),
        i < fields.len() ==> field_offset(fields, i) + fields[i].spec_size() <= packed(fields).len(),
    decreases fields.len() - i,
{
    if i < fields.len() {
        let next = fields.take(i + 1);
        assert(next.drop_last() =~= fields.take(i));
        assert(next.last() == fields[i]);
        lemma_round_up(packed(fields.take(i)).len(), fields[i].spec_align());
        lemma_packed_prefix(fields, i + 1);
    } else {
        assert(fields.take(i) =~= fields);
    }
}

/// The length of the buffer is a multiple of the alignment of the uniform.
pub proof fn lemma_serialized_aligned(fields: Seq<UniformFieldType>)
    ensures
        serialized(fields).len() == round_up(packed(fields).len(), struct_align(fields)),
        serialized(fields).len() % struct_align(fields) == 0,
        packed(fields).len() <= serialized(fields).len(),
{
    lemma_struct_align(fields);
    lemma_round_up(packed(fields).len(), struct_align(fields));
}

/// Every field lies in the buffer at its offset, which is a multiple of its
/// alignment, with its bytes unchanged.
pub proof fn lemma_field_placement(fields: Seq<UniformFieldType>, i: int)
    requires
        0 <= i < fields.len(),
    ensures
        field_offset(fields, i) % fields[i].spec_align() == 0,
        field_offset(fields, i) + fields[i].spec_size() <= serialized(fields).len(),
        serialized(fields).subrange(
            field_offset(fields, i) as int,
            (field_offset(fields, i) + fields[i].spec_size()) as int,
        ) == fields[i].bytes(),
{
    let offset = field_offset(fields, i) as int;
    let size = fields[i].spec_size() as int;
    lemma_round_up(packed(fields.take(i)).len(), fields[i].spec_align());
    lemma_packed_prefix(fields, i);
    lemma_serialized_aligned(fields);
    lemma_packed_extends(fields, i + 1);
    let next = fields.take(i + 1);
    assert(next.drop_last() =~= fields.take(i));
    assert(next.last() == fields[i]);
    assert(packed(next).subrange(offset, offset + size) =~= fields[i].bytes());
    assert(serialized(fields).subrange(offset, offset + size) =~= packed(next).subrange(
        offset,
        offset + size,
    ));
}

/// What is packed for the first `i` fields stays where it is when the other
/// fields follow.
pub proof fn lemma_packed_extends(fields: Seq<UniformFieldType>, i: int)
    requires
        0 <= i <= fields.len(),
    ensures
        packed(fields.take(i)).len() <= packed(fields).len(),
        packed(fields).subrange(0, packed(fields.take(i)).len() as int) == packed(fields.take(i)),
    decreases fields.len() - i,
{
    if i < fields.len() {
        let next = fields.take(i + 1);
        assert(next.drop_last() =~= fields.take(i));
        lemma_round_up(packed(fields.take(i)).len(), fields[i].spec_align());
        lemma_packed_extends(fields, i + 1);
        let short = packed(fields.take(i));
        assert(packed(next).subrange(0, short.len() as int) =~= short);
        assert(packed(fields).subrange(0, short.len() as int) =~= packed(fields).subrange(
            0,
            packed(next).len() as int,
        ).subrange(0, short.len() as int));
    } else {
        assert(fields.take(i) =~= fields);
        assert(packed(fields).subrange(0, packed(fields).len() as int) =~= packed(fields));
    }
}

/// Whether byte `b` of the buffer belongs to one of the fields.
pub open spec fn in_field(fields: Seq<UniformFieldType>, b: int) -> bool {
    exists|i: int|
        0 <= i < fields.len() && field_offset(fields, i) <= b < field_offset(fields, i)
            + (#[trigger] fields[i]).spec_size()
}

/// Every byte of the buffer that belongs to no field is zero: the gaps
/// between the fields and the padding at the end.
pub proof fn lemma_gaps_are_zero(fields: Seq<UniformFieldType>, b: int)
    requires
        0 <= b < serialized(fields).len(),
        !in_field(fields, b),
    ensures
        serialized(fields)[b] == 0,
    decreases fields.len(),
{
    lemma_serialized_aligned(fields);
    if b < packed(fields).len() {
        lemma_packed_gaps(fields, b);
    }
}

/// The same for the packed fields without the padding at their end.
proof fn lemma_packed_gaps(fields: Seq<UniformFieldType>, b: int)
    requires
        0 <= b < packed(fields).len(),
        !in_field(fields, b),
    ensures
        packed(fields)[b] == 0,
    decreases fields.len(),
{
    let n = fields.len() - 1;
    let rest = fields.drop_last();
    assert(fields.take(n) =~= rest);
    lemma_round_up(packed(rest).len(), fields.last().spec_align());
    assert(!(field_offset(fields, n) <= b < field_offset(fields, n) + fields[n].spec_size()));
    if b < packed(rest).len() {
        assert(!in_field(rest, b)) by {
            if in_field(rest, b) {
                let i = choose|i: int|
                    0 <= i < rest.len() && field_offset(rest, i) <= b < field_offset(rest, i)
                        + (#[trigger] rest[i]).spec_size();
                assert(rest.take(i) =~= fields.take(i));
                assert(rest[i] == fields[i]);
                assert(field_offset(fields, i) <= b < field_offset(fields, i)
                    + fields[i].spec_size());
            }
        }
        lemma_packed_gaps(rest, b);
    }
}

/// A field takes at most 80 bytes with the gap before it, so a buffer is never
/// longer than 80 bytes for each field and 15 bytes of padding at its end.
pub proof fn lemma_serialized_len_bound(fields: Seq<UniformFieldType>)
    ensures
        packed(fields).len() <= 80 * fields.len(),
        serialized(fields).len() <= 80 * fields.len() + 15,
    decreases fields.len(),
{
    if fields.len() > 0 {
        lemma_serialized_len_bound(fields.drop_last());
        lemma_round_up(packed(fields.drop_last()).len(), fields.last().spec_align());
    }
    lemma_serialized_aligned(fields);
    lemma_struct_align(fields);
    lemma_round_up(packed(fields).len(), struct_align(fields));
}

/// `n` rounded up to the next multiple of `align`.
pub fn next_multiple_of(n: usize, align: usize) -> (m: usize)
    requires
        align > 0,
        round_up(n as nat, align as nat) <= usize::MAX,
    ensures
        m == round_up(n as nat, align as nat),
{
    let rest = n % align;
    if rest == 0 {
        n
    } else {
        n + (align - rest)
    }
}

/// Appends zero bytes to `buf` until its length is a multiple of `align`.
fn pad_to(buf: &mut Vec<u8>, align: usize)
    requires
        align > 0,
        round_up(old(buf)@.len(), align as nat) <= usize::MAX,
    ensures
        final(buf)@ == padded(old(buf)@, align as nat),
{
    let new_len = next_multiple_of(buf.len(), align);
    proof {
        lemma_round_up(buf@.len(), align as nat);
    }
    buf.resize(new_len, 0);
    assert(buf@ =~= padded(old(buf)@, align as nat));
}

/// The ordered fields of a uniform. The order of the fields is the order in
/// which they lie in memory.
#[derive(Debug)]
pub struct UniformData {
    pub fields: Vec<UniformField>,
}

impl UniformData {
    /// The values of the fields, in their order.
    pub open spec fn types(&self) -> Seq<UniformFieldType> {
        self.fields@.map_values(|f: UniformField| f.ty)
    }

    /// Whether the fields are few enough for the length of the buffer to be
    /// a `usize` whatever their types are.
    pub fn fits(&self) -> (ok: bool)
        ensures
            ok == (80 * self.fields.len() + 15 <= usize::MAX),
            ok ==> serialized(self.types()).len() <= usize::MAX,
    {
        proof {
            lemma_serialized_len_bound(self.types());
        }
        self.fields.len() <= (usize::MAX - 15) / 80
    }

    /// The length of the buffer and the alignment of the uniform, in this
    /// order.
    pub fn layout(&self) -> (r: (usize, usize))
        requires
            serialized(self.types()).len() <= usize::MAX,
        ensures
            r.0 == serialized(self.types()).len(),
            r.1 == struct_align(self.types()),
            r.0 % r.1 == 0,
    {
        let ghost types = self.types();
        let mut cursor: usize = 0;
        let mut align_all: usize = 1;
        let mut i: usize = 0;
        while i < self.fields.len()
            invariant
                i <= self.fields.len(),
                types == self.types(),
                serialized(types).len() <= usize::MAX,
                cursor == packed(types.take(i as int)).len(),
                align_all == struct_align(types.take(i as int)),
            decreases self.fields.len() - i,
        {
            let (align, size) = self.fields[i].ty.layout();
            proof {
                assert(types.take(i + 1).drop_last() =~= types.take(i as int));
                assert(types.take(i + 1).last() == self.fields[i as int].ty);
                lemma_packed_prefix(types, i as int);
                lemma_serialized_aligned(types);
                lemma_round_up(cursor as nat, align as nat);
            }
            if align > align_all {
                align_all = align;
            }
            cursor = next_multiple_of(cursor, align) + size;
            i += 1;
        }
        proof {
            assert(types.take(i as int) =~= types);
            lemma_serialized_aligned(types);
        }
        (next_multiple_of(cursor, align_all), align_all)
    }

    /// The contents of the buffer of the uniform.
    pub fn cast(&self) -> (buf: Vec<u8>)
        requires
            serialized(self.types()).len() <= usize::MAX,
        ensures
            buf@ == serialized(self.types()),
            buf@.len() % struct_align(self.types()) == 0,
    {
        let ghost types = self.types();
        let mut buf: Vec<u8> = Vec::new();
        let mut align_all: usize = 1;
        let mut i: usize = 0;
        while i < self.fields.len()
            invariant
                i <= self.fields.len(),
                types == self.types(),
                serialized(types).len() <= usize::MAX,
                buf@ == packed(types.take(i as int)),
                align_all == struct_align(types.take(i as int)),
            decreases self.fields.len() - i,
        {
            let (align, _) = self.fields[i].ty.layout();
            proof {
                assert(types.take(i + 1).drop_last() =~= types.take(i as int));
                assert(types.take(i + 1).last() == self.fields[i as int].ty);
                lemma_packed_prefix(types, i as int);
                lemma_serialized_aligned(types);
                lemma_round_up(buf@.len(), align as nat);
            }
            if align > align_all {
                align_all = align;
            }
            pad_to(&mut buf, align);
            self.fields[i].ty.write_to(&mut buf);
            i += 1;
        }
        proof {
            assert(types.take(i as int) =~= types);
            lemma_serialized_aligned(types);
        }
        pad_to(&mut buf, align_all);
        buf
    }
}

/// Two uniforms with the same field values in the same order have the same
/// buffer contents, whatever their fields are called.
pub proof fn lemma_cast_deterministic(a: UniformData, b: UniformData)
    requires
        a.types() == b.types(),
    ensures
        serialized(a.types()) == serialized(b.types()),
{
}

/// The handle of a uniform in a project.
#[derive(Clone, Copy, Debug, PartialEq, Eq, Hash)]
pub struct UniformId {
    handle: Handle,
}

impl UniformId {
    pub(crate) fn new(handle: Handle) -> (id: Self)
        ensures
            id.spec_handle() == handle,
    {
        UniformId { handle }
    }

    pub closed spec fn spec_handle(&self) -> Handle {
        self.handle
    }

    /// The handle under which the store of uniforms keeps the uniform.
    #[verifier::when_used_as_spec(spec_handle)]
    pub fn handle(&self) -> (h: Handle)
        ensures
            h == self.spec_handle(),
    {
        self.handle
    }
}

/// Why new data was not written to a uniform.
#[derive(Debug, Clone, Copy, PartialEq, Eq)]
pub enum UniformError {
    /// No uniform is registered under the handle.
    NotFound,
    /// The new data does not fill the buffer exactly: the buffer holds
    /// `expected` bytes, the data takes `actual`.
    LengthMismatch { expected: usize, actual: usize },
}

/// A uniform: its label, its current data and the GPU buffer `B` behind it.
/// The length of the buffer is fixed when the uniform is created, and its data
/// always fills the buffer exactly.
pub struct Uniform<B> {
    label: String,
    data: UniformData,
    buffer: B,
    buffer_len: usize,
}

impl<B> Uniform<B> {
    #[verifier::type_invariant]
    spec fn fills_buffer(self) -> bool {
        self.buffer_len == serialized(self.data.types()).len()
    }

    pub closed spec fn spec_label(&self) -> Seq<char> {
        self.label@
    }

    pub closed spec fn spec_data(&self) -> UniformData {
        self.data
    }

    pub closed spec fn spec_buffer(&self) -> B {
        self.buffer
    }

    pub closed spec fn spec_buffer_len(&self) -> usize {
        self.buffer_len
    }

    /// A uniform with the given data. `buffer` is the GPU buffer that was
    /// created with the bytes of `data`.
    pub fn new(label: &str, data: UniformData, buffer: B) -> (uniform: Self)
        requires
            serialized(data.types()).len() <= usize::MAX,
        ensures
            uniform.spec_label() == label@,
            uniform.spec_data() == data,
            uniform.spec_buffer() == buffer,
            uniform.spec_buffer_len() == serialized(data.types()).len(),
    {
        let (buffer_len, _) = data.layout();
        Uniform { label: label.to_owned(), data, buffer, buffer_len }
    }

    pub fn label(&self) -> (label: &str)
        ensures
            label@ == self.spec_label(),
    {
        self.label.as_str()
    }

    pub fn data(&self) -> (data: &UniformData)
        ensures
            *data == self.spec_data(),
    {
        &self.data
    }

    pub fn buffer(&self) -> (buffer: &B)
        ensures
            *buffer == self.spec_buffer(),
    {
        &self.buffer
    }

    /// The length of the buffer in bytes, which the data fills exactly.
    #[verifier::when_used_as_spec(spec_buffer_len)]
    pub fn buffer_len(&self) -> (len: usize)
        ensures
            len == self.spec_buffer_len(),
            len == serialized(self.spec_data().types()).len(),
    {
        proof {
            use_type_invariant(self);
        }
        self.buffer_len
    }

    /// The bytes to write to the buffer, from its start: the current data,
    /// serialized. They fill the buffer exactly.
    pub fn upload(&self) -> (bytes: Vec<u8>)
        ensures
            bytes@ == serialized(self.spec_data().types()),
            bytes@.len() == self.spec_buffer_len(),
    {
        proof {
            use_type_invariant(self);
        }
        self.data.cast()
    }

    /// Replaces the data of the uniform and hands back the bytes to write to
    /// the buffer. Data that does not fill the buffer exactly is refused, and
    /// the uniform stays as it was.
    pub fn set_and_upload(&mut self, new_data: UniformData) -> (r: Result<Vec<u8>, UniformError>)
        requires
            serialized(new_data.types()).len() <= usize::MAX,
        ensures
            serialized(new_data.types()).len() == old(self).spec_buffer_len() ==> r.is_ok()
                && r.unwrap()@ == serialized(new_data.types()) && final(self).spec_data()
                == new_data,
            serialized(new_data.types()).len() != old(self).spec_buffer_len() ==> r == Err::<
                Vec<u8>,
                UniformError,
            >(
                UniformError::LengthMismatch {
                    expected: old(self).spec_buffer_len(),
                    actual: serialized(new_data.types()).len() as usize,
                },
            ) && *final(self) == *old(self),
            final(self).spec_label() == old(self).spec_label(),
            final(self).spec_buffer() == old(self).spec_buffer(),
            final(self).spec_buffer_len() == old(self).spec_buffer_len(),
    {
        let (actual, _) = new_data.layout();
        if actual != self.buffer_len {
            return Err(UniformError::LengthMismatch { expected: self.buffer_len, actual });
        }
        self.data = new_data;
        Ok(self.data.cast())
    }
}

/// The handles of a store of uniforms as uniform handles, in the same order.
pub(crate) fn uniform_ids(handles: Vec<Handle>) -> (ids: Vec<UniformId>)
    ensures
        ids@.map_values(|id: UniformId| id.handle()) == handles@,
        handles@.no_duplicates() ==> ids@.no_duplicates(),
{
    let mut ids: Vec<UniformId> = Vec::new();
    let mut i: usize = 0;
    while i < handles.len()
        invariant
            i <= handles.len(),
            ids@.len() == i,
            forall|k: int| 0 <= k < i ==> (#[trigger] ids@[k]).handle() == handles@[k],
        decreases handles.len() - i,
    {
        ids.push(UniformId::new(handles[i]));
        i += 1;
    }
    proof {
        assert(ids@.map_values(|id: UniformId| id.handle()) =~= handles@);
        if handles@.no_duplicates() {
            assert forall|a: int, b: int|
                0 <= a < ids@.len() && 0 <= b < ids@.len() && a != b implies ids@[a] != ids@[b] by {
                assert(ids@[a].handle() == handles@[a]);
                assert(ids@[b].handle() == handles@[b]);
            }
        }
    }
    ids
}

} // verus!
