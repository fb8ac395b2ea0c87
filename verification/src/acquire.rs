use vstd::prelude::*;

verus! {

/// One byte span delivered by the camera's buffer channel, flagged as the
/// final span of its frame or not.
pub struct Chunk {
    pub bytes: Vec<u8>,
    pub is_final: bool,
}

/// The bytes a frame assembles to from a delivery sequence: chunk bytes are
/// appended in delivery order up to and including the first final-flagged
/// chunk, or up to the end of the sequence when no chunk is final (the
/// channel closed early).
pub open spec fn assembled_bytes(chunks: Seq<Chunk>) -> Seq<u8>
    decreases chunks.len(),
{
    if chunks.len() == 0 {
        Seq::empty()
    } else if chunks[0].is_final {
        chunks[0].bytes@
    } else {
        chunks[0].bytes@ + assembled_bytes(chunks.drop_first())
    }
}

/// Plain delivery-order concatenation of every chunk's bytes.
pub open spec fn concat_bytes(chunks: Seq<Chunk>) -> Seq<u8>
    decreases chunks.len(),
{
    if chunks.len() == 0 {
        Seq::empty()
    } else {
        chunks[0].bytes@ + concat_bytes(chunks.drop_first())
    }
}

/// In a well-formed delivery, only the last chunk may carry the final flag;
/// assembly then equals the delivery-order concatenation of every chunk:
/// no chunk is dropped, none is reordered.
pub proof fn lemma_assembled_is_delivery_concat(chunks: Seq<Chunk>)
    requires
        forall|i: int| 0 <= i < chunks.len() - 1 ==> !(#[trigger] chunks[i]).is_final,
    ensures
        assembled_bytes(chunks) == concat_bytes(chunks),
    decreases chunks.len(),
{
    if chunks.len() == 0 {
    } else {
        let rest = chunks.drop_first();
        if chunks.len() == 1 {
            assert(rest.len() == 0);
            assert(assembled_bytes(rest) == Seq::<u8>::empty());
            assert(concat_bytes(rest) == Seq::<u8>::empty());
            assert(assembled_bytes(chunks) =~= concat_bytes(chunks));
        } else {
            assert(!chunks[0].is_final);
            assert forall|i: int| 0 <= i < rest.len() - 1 implies !(#[trigger] rest[i]).is_final by {
                assert(rest[i] == chunks[i + 1]);
            }
            lemma_assembled_is_delivery_concat(rest);
        }
    }
}

/// Assembles one complete frame per scheduler firing from delivered chunks.
///
/// The accumulation buffer is owned by the capture loop alone and is cleared,
/// never reallocated, between frames.
pub struct FrameAcquirer {
    buf: Vec<u8>,
}

impl View for FrameAcquirer {
    type V = Seq<u8>;

    closed spec fn view(&self) -> Seq<u8> {
        self.buf@
    }
}

impl FrameAcquirer {
    pub fn new() -> (a: Self)
        ensures
            a@ == Seq::<u8>::empty(),
    {
        FrameAcquirer { buf: Vec::new() }
    }

    /// Clear the accumulation buffer for the next frame (the allocation is
    /// kept).
    pub fn begin_frame(&mut self)
        ensures
            final(self)@ == Seq::<u8>::empty(),
    {
        self.buf.clear();
    }

    /// Append one delivered chunk in delivery order; returns whether the
    /// chunk carried the final flag, i.e. whether the frame is complete.
    pub fn push_chunk(&mut self, chunk: &Chunk) -> (done: bool)
        requires
            old(self)@.len() + chunk.bytes@.len() <= usize::MAX,
        ensures
            final(self)@ == old(self)@ + chunk.bytes@,
            done == chunk.is_final,
    {
        self.buf.extend_from_slice(chunk.bytes.as_slice());
        chunk.is_final
    }

    /// The bytes accumulated for the current frame.
    pub fn frame_bytes(&self) -> (b: &Vec<u8>)
        ensures
            b@ == self@,
    {
        &self.buf
    }

    /// Run one whole acquisition: clear the buffer, then append chunks in
    /// delivery order until one carries the final flag or the delivery ends.
    pub fn acquire_frame(&mut self, chunks: &Vec<Chunk>)
        requires
            assembled_bytes(chunks@).len() <= usize::MAX,
        ensures
            final(self)@ == assembled_bytes(chunks@),
    {
        self.begin_frame();
        proof {
            assert(chunks@.skip(0) =~= chunks@);
            assert(self@ + assembled_bytes(chunks@) =~= assembled_bytes(chunks@));
        }
        let n = chunks.len();
        let mut i: usize = 0;
        while i < n
            invariant
                n == chunks@.len(),
                0 <= i <= n,
                forall|j: int| 0 <= j < i ==> !chunks@[j].is_final,
                self@ + assembled_bytes(chunks@.skip(i as int)) == assembled_bytes(chunks@),
                assembled_bytes(chunks@).len() <= usize::MAX,
                self@.len() <= assembled_bytes(chunks@).len(),
            decreases n - i,
        {
            proof {
                assert(chunks@.skip(i as int).len() > 0);
                assert(chunks@.skip(i as int)[0] == chunks@[i as int]);
                assert(chunks@.skip(i as int).drop_first() =~= chunks@.skip(i as int + 1));
                assert(assembled_bytes(chunks@.skip(i as int)).len() >= chunks@[i as int].bytes@.len());
            }
            let done = self.push_chunk(&chunks[i]);
            i = i + 1;
            if done {
                proof {
                    assert(self@ =~= assembled_bytes(chunks@));
                }
                return;
            }
            proof {
                assert(self@ + assembled_bytes(chunks@.skip(i as int)) =~= assembled_bytes(
                    chunks@,
                ));
            }
        }
        proof {
            assert(chunks@.skip(n as int) =~= Seq::<Chunk>::empty());
            assert(self@ =~= assembled_bytes(chunks@));
        }
    }
}

} // verus!
