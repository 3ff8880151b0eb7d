use vstd::prelude::*;
use vstd::arithmetic::div_mod::lemma_fundamental_div_mod;

verus! {

/// One instance record is eight bytes on the wire: three little-endian
/// signed 16-bit grid coordinates, then the face-orientation tag and the
/// block id, one byte each. This layout is the contract with the render
/// pipeline's vertex-input stage and must never be reordered or padded.
pub const FACE_STRIDE_BYTES: u64 = 8;

/// One quad of the voxel grid: its cell coordinates, which of the six cube
/// sides it is (up, down, left, right, front, back, as a small tag), and the
/// material it is drawn with.
#[derive(Clone, Copy, Debug, PartialEq, Eq, Structural)]
pub struct VoxelFace {
    pub x: i16,
    pub y: i16,
    pub z: i16,
    pub face: u8,
    pub block_id: u8,
}

/// The two's-complement 16-bit image of a signed coordinate, in [0, 65536).
pub open spec fn to_u16_bits(v: i16) -> int {
    if v >= 0 {
        v as int
    } else {
        v + 0x10000
    }
}

/// The signed coordinate read back from its 16-bit image.
pub open spec fn from_u16_bits(w: int) -> i16 {
    if w >= 0x8000 {
        (w - 0x10000) as i16
    } else {
        w as i16
    }
}

pub open spec fn lo_byte(w: int) -> u8 {
    (w % 256) as u8
}

pub open spec fn hi_byte(w: int) -> u8 {
    (w / 256) as u8
}

/// The fixed wire image of one face record: x, y, z little-endian, then the
/// orientation tag and the block id.
pub open spec fn face_bytes(f: VoxelFace) -> Seq<u8> {
    seq![
        lo_byte(to_u16_bits(f.x)),
        hi_byte(to_u16_bits(f.x)),
        lo_byte(to_u16_bits(f.y)),
        hi_byte(to_u16_bits(f.y)),
        lo_byte(to_u16_bits(f.z)),
        hi_byte(to_u16_bits(f.z)),
        f.face,
        f.block_id,
    ]
}

/// The face record read back from one eight-byte wire image.
pub open spec fn decoded_face(b: Seq<u8>) -> VoxelFace
    recommends
        b.len() == 8,
{
    VoxelFace {
        x: from_u16_bits(b[0] + 256 * b[1]),
        y: from_u16_bits(b[2] + 256 * b[3]),
        z: from_u16_bits(b[4] + 256 * b[5]),
        face: b[6],
        block_id: b[7],
    }
}

/// The 16-bit image of a coordinate, as executable code.
fn i16_bits(v: i16) -> (w: u16)
    ensures
        w == to_u16_bits(v),
{
    if v >= 0 {
        v as u16
    } else {
        ((v as i32) + 0x10000) as u16
    }
}

/// The coordinate read back from its 16-bit image, as executable code.
fn bits_to_i16(w: u16) -> (v: i16)
    ensures
        v == from_u16_bits(w as int),
        to_u16_bits(v) == w,
{
    if w >= 0x8000 {
        ((w as i32) - 0x10000) as i16
    } else {
        w as i16
    }
}

impl VoxelFace {
    /// Append this record's eight wire bytes to a staging buffer.
    pub fn encode_into(&self, out: &mut Vec<u8>)
        ensures
            final(out)@ == old(out)@ + face_bytes(*self),
    {
        let wx: u16 = i16_bits(self.x);
        let wy: u16 = i16_bits(self.y);
        let wz: u16 = i16_bits(self.z);
        out.push((wx % 256) as u8);
        out.push((wx / 256) as u8);
        out.push((wy % 256) as u8);
        out.push((wy / 256) as u8);
        out.push((wz % 256) as u8);
        out.push((wz / 256) as u8);
        out.push(self.face);
        out.push(self.block_id);
        assert(out@ =~= old(out)@ + face_bytes(*self));
    }

    /// Read one record back from eight wire bytes starting at `offset`.
    pub fn decode_from(bytes: &Vec<u8>, offset: usize) -> (f: VoxelFace)
        requires
            offset + 8 <= bytes@.len(),
        ensures
            f == decoded_face(bytes@.subrange(offset as int, offset + 8)),
    {
        // Anchors the vector's length into usize range for the index sums.
        let _len: usize = bytes.len();
        let b0: u16 = bytes[offset] as u16;
        let b1: u16 = bytes[offset + 1] as u16;
        let b2: u16 = bytes[offset + 2] as u16;
        let b3: u16 = bytes[offset + 3] as u16;
        let b4: u16 = bytes[offset + 4] as u16;
        let b5: u16 = bytes[offset + 5] as u16;
        VoxelFace {
            x: bits_to_i16(b0 + 256 * b1),
            y: bits_to_i16(b2 + 256 * b3),
            z: bits_to_i16(b4 + 256 * b5),
            face: bytes[offset + 6],
            block_id: bytes[offset + 7],
        }
    }
}

/// The machine format of one vertex attribute, as the pipeline declares it.
#[derive(Clone, Copy, Debug, PartialEq, Eq, Structural)]
pub enum AttributeFormat {
    SignedInt16,
    UnsignedInt8,
}

/// One entry of the per-instance vertex input layout: where an attribute
/// starts inside a record and which shader input slot receives it.
#[derive(Clone, Copy, Debug, PartialEq, Eq, Structural)]
pub struct VertexAttribute {
    pub format: AttributeFormat,
    pub offset: u64,
    pub shader_location: u32,
}

/// The per-instance vertex input layout: the stride from one record to the
/// next and the attributes inside a record.
pub struct InstanceLayout {
    pub array_stride: u64,
    pub attributes: Vec<VertexAttribute>,
}

/// The five attributes of one record: x, y, z at offsets 0, 2, 4, the
/// orientation tag at 6, the block id at 7 -- exactly where `face_bytes`
/// puts them.
pub open spec fn instance_attributes() -> Seq<VertexAttribute> {
    seq![
        VertexAttribute { format: AttributeFormat::SignedInt16, offset: 0, shader_location: 0 },
        VertexAttribute { format: AttributeFormat::SignedInt16, offset: 2, shader_location: 1 },
        VertexAttribute { format: AttributeFormat::SignedInt16, offset: 4, shader_location: 2 },
        VertexAttribute { format: AttributeFormat::UnsignedInt8, offset: 6, shader_location: 3 },
        VertexAttribute { format: AttributeFormat::UnsignedInt8, offset: 7, shader_location: 4 },
    ]
}

impl VoxelFace {
    /// Describes how one record lies in memory so the GPU can read it.
    pub fn desc() -> (l: InstanceLayout)
        ensures
            l.array_stride == FACE_STRIDE_BYTES,
            l.attributes@ == instance_attributes(),
    {
        let mut attributes: Vec<VertexAttribute> = Vec::new();
        attributes.push(
            VertexAttribute { format: AttributeFormat::SignedInt16, offset: 0, shader_location: 0 },
        );
        attributes.push(
            VertexAttribute { format: AttributeFormat::SignedInt16, offset: 2, shader_location: 1 },
        );
        attributes.push(
            VertexAttribute { format: AttributeFormat::SignedInt16, offset: 4, shader_location: 2 },
        );
        attributes.push(
            VertexAttribute { format: AttributeFormat::UnsignedInt8, offset: 6, shader_location: 3 },
        );
        attributes.push(
            VertexAttribute { format: AttributeFormat::UnsignedInt8, offset: 7, shader_location: 4 },
        );
        assert(attributes@ =~= instance_attributes());
        InstanceLayout { array_stride: FACE_STRIDE_BYTES, attributes }
    }
}

/// Law: the declared layout matches the wire encoding -- the stride equals
/// the length of one encoded record, and every attribute starts inside it.
pub proof fn lemma_layout_matches_encoding(f: VoxelFace)
    ensures
        face_bytes(f).len() == FACE_STRIDE_BYTES,
        forall|i: int|
            0 <= i < instance_attributes().len() ==> (#[trigger] instance_attributes()[i]).offset
                < FACE_STRIDE_BYTES,
{
}

/// Law: decoding inverts encoding, field by field, for every face record.
pub proof fn lemma_face_round_trip(f: VoxelFace)
    ensures
        decoded_face(face_bytes(f)) == f,
{
    lemma_bits_split(to_u16_bits(f.x));
    lemma_bits_split(to_u16_bits(f.y));
    lemma_bits_split(to_u16_bits(f.z));
}

/// A 16-bit image is recovered from its two little-endian bytes, and turning
/// it back into a signed coordinate inverts the two's-complement image.
proof fn lemma_bits_split(w: int)
    requires
        0 <= w < 0x10000,
    ensures
        lo_byte(w) + 256 * hi_byte(w) == w,
        to_u16_bits(from_u16_bits(w)) == w,
{
    lemma_fundamental_div_mod(w, 256);
}

} // verus!
