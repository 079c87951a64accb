use vstd::prelude::*;
use vstd::bytes::{spec_u64_from_le_bytes, u64_from_le_bytes};
use vstd::slice::slice_subrange;

use crate::sample::{Counters, QueryError};

verus! {

/// Byte length of the kernel's 64-bit link statistics block: twenty-four
/// 64-bit counters.
pub const STATS64_LEN: usize = 192;

/// Byte offset of the received-bytes counter within the statistics block,
/// after the packet counters.
pub const RX_BYTES_OFFSET: usize = 16;

/// Byte offset of the transmitted-bytes counter within the statistics
/// block, right after the received-bytes counter.
pub const TX_BYTES_OFFSET: usize = 24;

/// The two counters this system records, read out of a statistics block:
/// each is a 64-bit little-endian integer at its fixed offset.
pub open spec fn spec_counters_of_stats(payload: Seq<u8>) -> Counters {
    Counters {
        received_bytes: spec_u64_from_le_bytes(
            payload.subrange(RX_BYTES_OFFSET as int, RX_BYTES_OFFSET + 8),
        ),
        transmitted_bytes: spec_u64_from_le_bytes(
            payload.subrange(TX_BYTES_OFFSET as int, TX_BYTES_OFFSET + 8),
        ),
    }
}

/// Decode the kernel's 64-bit statistics block into the counters this
/// system records, discarding the unrecognized fields. A block shorter
/// than the fixed layout cannot be decoded.
pub fn decode_stats64(payload: &[u8]) -> (r: Result<Counters, QueryError>)
    ensures
        payload@.len() >= STATS64_LEN ==> r == Ok::<Counters, QueryError>(
            spec_counters_of_stats(payload@),
        ),
        payload@.len() < STATS64_LEN ==> r == Err::<Counters, QueryError>(
            QueryError::MalformedResponse,
        ),
{
    if payload.len() < STATS64_LEN {
        Err(QueryError::MalformedResponse)
    } else {
        let rx = u64_from_le_bytes(slice_subrange(payload, RX_BYTES_OFFSET, RX_BYTES_OFFSET + 8));
        let tx = u64_from_le_bytes(slice_subrange(payload, TX_BYTES_OFFSET, TX_BYTES_OFFSET + 8));
        Ok(Counters { received_bytes: rx, transmitted_bytes: tx })
    }
}

/// One attribute of a link reply, reduced to what the sampler recognizes:
/// either the 64-bit statistics block's raw bytes, or something it
/// discards.
#[derive(Debug)]
pub enum LinkAttribute {
    Stats64(Vec<u8>),
    Unrecognized,
}

/// The payload of the first 64-bit statistics attribute of a reply, if any.
pub open spec fn spec_find_stats64(attrs: Seq<LinkAttribute>) -> Option<Seq<u8>>
    decreases attrs.len(),
{
    if attrs.len() == 0 {
        None
    } else if attrs[0] is Stats64 {
        Some((attrs[0]->0)@)
    } else {
        spec_find_stats64(attrs.drop_first())
    }
}

/// What a whole link query yields: `None` stands for a query that matched
/// no interface. A reply without a statistics attribute also counts as not
/// found; a statistics attribute too short to decode is malformed;
/// otherwise the decoded counters are returned.
pub open spec fn spec_query_result(response: Option<Seq<LinkAttribute>>) -> Result<
    Counters,
    QueryError,
> {
    match response {
        Option::None => Err(QueryError::NotFound),
        Option::Some(attrs) => match spec_find_stats64(attrs) {
            Option::None => Err(QueryError::NotFound),
            Option::Some(payload) => if payload.len() >= STATS64_LEN {
                Ok(spec_counters_of_stats(payload))
            } else {
                Err(QueryError::MalformedResponse)
            },
        },
    }
}

/// Searching from a position with no statistics attribute before it finds
/// the same attribute as searching the whole sequence.
proof fn lemma_find_stats64_skip(attrs: Seq<LinkAttribute>, i: int)
    requires
        0 <= i <= attrs.len(),
        forall|j: int| 0 <= j < i ==> !(#[trigger] attrs[j] is Stats64),
    ensures
        spec_find_stats64(attrs) == spec_find_stats64(attrs.skip(i)),
    decreases i,
{
    if i > 0 {
        assert(attrs[0] !is Stats64);
        assert(attrs.drop_first().skip(i - 1) =~= attrs.skip(i));
        lemma_find_stats64_skip(attrs.drop_first(), i - 1);
    } else {
        assert(attrs.skip(0) =~= attrs);
    }
}

/// Find the first 64-bit statistics attribute of a reply, if any.
fn find_stats64(attrs: &Vec<LinkAttribute>) -> (r: Option<&Vec<u8>>)
    ensures
        r matches Some(p) ==> spec_find_stats64(attrs@) == Some(p@),
        r is None ==> spec_find_stats64(attrs@) is None,
{
    let n: usize = attrs.len();
    for i in 0..n
        invariant
            n == attrs@.len(),
            forall|j: int| 0 <= j < i ==> !(#[trigger] attrs@[j] is Stats64),
    {
        if let LinkAttribute::Stats64(payload) = &attrs[i] {
            proof {
                lemma_find_stats64_skip(attrs@, i as int);
                assert(attrs@.skip(i as int)[0] == attrs@[i as int]);
                assert(spec_find_stats64(attrs@.skip(i as int)) == Some(payload@));
            }
            return Some(payload);
        }
    }
    proof {
        lemma_find_stats64_skip(attrs@, n as int);
        assert(attrs@.skip(n as int) =~= Seq::<LinkAttribute>::empty());
    }
    None
}

/// Decode a link query's reply into counters: take the first 64-bit
/// statistics attribute and read the byte counters out of it. A missing
/// reply or a reply without statistics means the interface was not found;
/// a statistics block too short for the fixed layout is malformed.
pub fn decode_link_response(response: &Option<Vec<LinkAttribute>>) -> (r: Result<
    Counters,
    QueryError,
>)
    ensures
        r == spec_query_result(
            match *response {
                Option::None => Option::None,
                Option::Some(attrs) => Option::Some(attrs@),
            },
        ),
{
    match response {
        None => Err(QueryError::NotFound),
        Some(attrs) => match find_stats64(attrs) {
            None => Err(QueryError::NotFound),
            Some(payload) => decode_stats64(payload.as_slice()),
        },
    }
}

} // verus!
