use vstd::prelude::*;
use crate::face::{
    decoded_face, face_bytes, lemma_face_round_trip, VoxelFace, FACE_STRIDE_BYTES,
};

verus! {

/// The instance buffer starts out with room for this many face records.
pub const INITIAL_FACE_CAPACITY: u64 = 5000;

/// Each instance expands to one quad of four vertices, drawn as a triangle
/// strip without an index buffer.
pub const VERTICES_PER_QUAD: u32 = 4;

/// The wire image of a whole face list: the records' eight-byte images,
/// one after the other.
pub open spec fn faces_bytes(faces: Seq<VoxelFace>) -> Seq<u8>
    decreases faces.len(),
{
    if faces.len() == 0 {
        Seq::empty()
    } else {
        faces_bytes(faces.drop_last()) + face_bytes(faces.last())
    }
}

/// The face list read back from a wire image, eight bytes per record.
pub open spec fn decoded_faces(b: Seq<u8>) -> Seq<VoxelFace>
    decreases b.len(),
{
    if b.len() < 8 {
        Seq::empty()
    } else {
        decoded_faces(b.subrange(0, b.len() - 8)).push(
            decoded_face(b.subrange(b.len() - 8, b.len() as int)),
        )
    }
}

pub proof fn lemma_faces_bytes_len(faces: Seq<VoxelFace>)
    ensures
        faces_bytes(faces).len() == FACE_STRIDE_BYTES * faces.len(),
    decreases faces.len(),
{
    if faces.len() > 0 {
        lemma_faces_bytes_len(faces.drop_last());
    }
}

/// Law: the wire image of a whole face list decodes back to that list,
/// record for record and field for field.
pub proof fn lemma_faces_round_trip(faces: Seq<VoxelFace>)
    ensures
        decoded_faces(faces_bytes(faces)) == faces,
    decreases faces.len(),
{
    if faces.len() == 0 {
        assert(faces_bytes(faces).len() == 0);
        assert(decoded_faces(faces_bytes(faces)) =~= faces);
    } else {
        let pre = faces.drop_last();
        let last = faces.last();
        let b = faces_bytes(faces);
        lemma_faces_bytes_len(pre);
        assert(b.subrange(0, b.len() - 8) =~= faces_bytes(pre));
        assert(b.subrange(b.len() - 8, b.len() as int) =~= face_bytes(last));
        lemma_faces_round_trip(pre);
        lemma_face_round_trip(last);
        assert(decoded_faces(b) =~= faces);
    }
}

/// The capacity reached after one upload that needs `needed` bytes: doubled
/// past the need when it does not fit, untouched otherwise -- growth is
/// geometric and one-directional, the buffer is never shrunk.
pub open spec fn grown_capacity(capacity: int, needed: int) -> int {
    if needed > capacity {
        2 * needed
    } else {
        capacity
    }
}

/// Law: the capacity never shrinks, whatever an upload needs.
pub proof fn lemma_capacity_never_shrinks(capacity: int, needed: int)
    requires
        0 <= capacity,
        0 <= needed,
    ensures
        grown_capacity(capacity, needed) >= capacity,
{
}

/// Law: growth is idempotent over the data size -- after one upload has made
/// room for `needed` bytes, a second upload of the same size never grows the
/// buffer again.
pub proof fn lemma_regrow_is_noop(capacity: int, needed: int)
    requires
        0 <= needed,
    ensures
        grown_capacity(grown_capacity(capacity, needed), needed) == grown_capacity(
            capacity,
            needed,
        ),
{
}

/// The GPU-resident array of face records, re-filled in full every frame.
/// `capacity_bytes` mirrors the byte size of the device buffer; `staged`
/// holds the exact bytes last uploaded to it; `instance_count` is what the
/// frame's draw call stamps out.
pub struct InstanceBuffer {
    pub capacity_bytes: u64,
    pub staged: Vec<u8>,
    pub instance_count: u32,
}

impl InstanceBuffer {
    /// The staged image holds exactly the recorded instances, and always
    /// fits the device buffer's capacity.
    pub open spec fn wf(&self) -> bool {
        &&& self.staged@.len() == FACE_STRIDE_BYTES * self.instance_count
        &&& self.staged@.len() <= self.capacity_bytes
    }

    pub fn new() -> (b: InstanceBuffer)
        ensures
            b.capacity_bytes == FACE_STRIDE_BYTES * INITIAL_FACE_CAPACITY,
            b.staged@.len() == 0,
            b.instance_count == 0,
            b.wf(),
    {
        InstanceBuffer {
            capacity_bytes: FACE_STRIDE_BYTES * INITIAL_FACE_CAPACITY,
            staged: Vec::new(),
            instance_count: 0,
        }
    }

    /// Replace the GPU-visible instance data with this frame's face list: a
    /// full replace from offset zero, never an incremental diff. When the
    /// needed bytes exceed the capacity, the device buffer must be
    /// reallocated at twice the need before the write; the returned value is
    /// that new capacity, or None when the old buffer suffices.
    pub fn upload_faces(&mut self, faces: &Vec<VoxelFace>) -> (grown_to: Option<u64>)
        requires
            old(self).wf(),
            faces@.len() <= u32::MAX,
        ensures
            final(self).wf(),
            final(self).instance_count == faces@.len(),
            final(self).staged@ == faces_bytes(faces@),
            final(self).capacity_bytes == grown_capacity(
                old(self).capacity_bytes as int,
                FACE_STRIDE_BYTES * faces@.len(),
            ),
            grown_to == if FACE_STRIDE_BYTES * faces@.len() > old(self).capacity_bytes {
                Some(final(self).capacity_bytes)
            } else {
                None::<u64>
            },
            FACE_STRIDE_BYTES * faces@.len() <= final(self).capacity_bytes,
    {
        let count: usize = faces.len();
        let needed: u64 = (count as u64) * FACE_STRIDE_BYTES;
        let grown_to: Option<u64> = if needed > self.capacity_bytes {
            self.capacity_bytes = needed * 2;
            Some(needed * 2)
        } else {
            None
        };
        let mut staged: Vec<u8> = Vec::new();
        let mut i: usize = 0;
        while i < count
            invariant
                i <= count,
                count == faces@.len(),
                staged@ == faces_bytes(faces@.take(i as int)),
            decreases count - i,
        {
            let f: VoxelFace = faces[i];
            f.encode_into(&mut staged);
            proof {
                assert(faces@.take(i + 1).drop_last() =~= faces@.take(i as int));
                assert(faces@.take(i + 1).last() == faces@[i as int]);
            }
            i = i + 1;
        }
        proof {
            assert(faces@.take(count as int) =~= faces@);
            lemma_faces_bytes_len(faces@);
        }
        self.staged = staged;
        self.instance_count = count as u32;
        grown_to
    }

    /// Decode the staged image back into face records, front to back.
    pub fn read_back(&self) -> (faces: Vec<VoxelFace>)
        requires
            self.wf(),
        ensures
            faces@ == decoded_faces(self.staged@),
            faces@.len() == self.instance_count,
    {
        let count: usize = self.instance_count as usize;
        let staged_len: usize = self.staged.len();
        let mut faces: Vec<VoxelFace> = Vec::new();
        let mut i: usize = 0;
        while i < count
            invariant
                i <= count,
                count == self.instance_count,
                staged_len == self.staged@.len(),
                self.wf(),
                faces@ == decoded_faces(self.staged@.take(FACE_STRIDE_BYTES * i)),
                faces@.len() == i,
            decreases count - i,
        {
            let f: VoxelFace = VoxelFace::decode_from(&self.staged, i * 8);
            faces.push(f);
            proof {
                let taken = self.staged@.take(FACE_STRIDE_BYTES * (i + 1));
                assert(taken.subrange(0, taken.len() - 8) =~= self.staged@.take(
                    FACE_STRIDE_BYTES * i,
                ));
                assert(taken.subrange(taken.len() - 8, taken.len() as int) =~= self.staged@
                    .subrange(8 * i, 8 * i + 8));
            }
            i = i + 1;
        }
        proof {
            assert(self.staged@.take(FACE_STRIDE_BYTES * count) =~= self.staged@);
        }
        faces
    }

    /// One frame issues exactly one instanced draw: four vertices expanded
    /// to one quad per staged record.
    pub fn draw_params(&self) -> (p: (u32, u32))
        ensures
            p.0 == VERTICES_PER_QUAD,
            p.1 == self.instance_count,
    {
        (VERTICES_PER_QUAD, self.instance_count)
    }
}

} // verus!
