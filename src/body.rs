use crate::error::RequestError;
use vstd::prelude::*;

verus! {

/// Largest publish body, in bytes (512 KiB).
pub const MAX_MESSAGE_SIZE: usize = 524288;

/// Largest create-channel body, in bytes (16 KiB).
pub const MAX_CREATE_BODY_SIZE: usize = 16384;

/// The bytes of `chunks`, in order.
pub open spec fn joined(chunks: Seq<Seq<u8>>) -> Seq<u8> {
    chunks.flatten_alt()
}

pub open spec fn chunk_views(chunks: Seq<Vec<u8>>) -> Seq<Seq<u8>> {
    chunks.map_values(|c: Vec<u8>| c@)
}

/// Appends `chunk` to `body` unless that would take it past `max` bytes; a body
/// that would grow past the limit is refused and left as it was.
pub fn append_chunk(body: &mut Vec<u8>, chunk: &[u8], max: usize) -> (r: Result<(), RequestError>)
    requires
        old(body)@.len() <= max,
    ensures
        r is Ok <==> old(body)@.len() + chunk@.len() <= max,
        r is Ok ==> final(body)@ == old(body)@ + chunk@,
        r is Err ==> r == Err::<(), RequestError>(RequestError::PayloadTooLarge { limit: max })
            && final(body)@ == old(body)@,
{
    if chunk.len() > max - body.len() {
        return Err(RequestError::PayloadTooLarge { limit: max });
    }
    let ghost start = body@;
    let mut i: usize = 0;
    while i < chunk.len()
        invariant
            i <= chunk@.len(),
            start.len() + chunk@.len() <= max,
            body@ == start + chunk@.subrange(0, i as int),
        decreases chunk@.len() - i,
    {
        body.push(chunk[i]);
        i = i + 1;
        assert(body@ =~= start + chunk@.subrange(0, i as int));
    }
    assert(chunk@.subrange(0, chunk@.len() as int) =~= chunk@);
    Ok(())
}

/// Gathers a body that arrived in `chunks`, refusing it with `PayloadTooLarge`
/// exactly when it holds more than `max` bytes.
pub fn limited_body(chunks: &Vec<Vec<u8>>, max: usize) -> (r: Result<Vec<u8>, RequestError>)
    ensures
        r is Ok <==> joined(chunk_views(chunks@)).len() <= max,
        r matches Ok(b) ==> b@ == joined(chunk_views(chunks@)),
        r is Err ==> r == Err::<Vec<u8>, RequestError>(RequestError::PayloadTooLarge { limit: max }),
{
    let ghost cs = chunk_views(chunks@);
    let mut body: Vec<u8> = Vec::new();
    let mut i: usize = 0;
    while i < chunks.len()
        invariant
            i <= chunks@.len(),
            cs == chunk_views(chunks@),
            body@ == joined(cs.subrange(0, i as int)),
            body@.len() <= max,
        decreases chunks@.len() - i,
    {
        assert(cs.subrange(0, i + 1).drop_last() =~= cs.subrange(0, i as int));
        match append_chunk(&mut body, chunks[i].as_slice(), max) {
            Ok(()) => {},
            Err(e) => {
                proof {
                    lemma_joined_grows(cs, i as int + 1);
                }
                return Err(e);
            },
        }
        i = i + 1;
    }
    assert(cs.subrange(0, i as int) =~= cs);
    Ok(body)
}

/// Joining more chunks never yields fewer bytes.
proof fn lemma_joined_grows(cs: Seq<Seq<u8>>, k: int)
    requires
        0 <= k <= cs.len(),
    ensures
        joined(cs.subrange(0, k)).len() <= joined(cs).len(),
    decreases cs.len() - k,
{
    if k < cs.len() {
        lemma_joined_grows(cs, k + 1);
        assert(cs.subrange(0, k + 1).drop_last() =~= cs.subrange(0, k));
    } else {
        assert(cs.subrange(0, k) =~= cs);
    }
}

} // verus!
