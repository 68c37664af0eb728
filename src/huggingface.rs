use vstd::prelude::*;
use tokenizers::Tokenizer;
use crate::chunk_size::{
    CapacityBounds, ChunkCapacity, ChunkSize, ChunkSizeError, ChunkSizer, size_view,
};

verus! {

#[verifier::external_type_specification]
#[verifier::external_body]
pub struct ExTokenizer(Tokenizer);

/// `ids` without its leading run of `pad`.
pub open spec fn trim_start(ids: Seq<u32>, pad: u32) -> Seq<u32>
    decreases ids.len(),
{
    if ids.len() > 0 && ids[0] == pad {
        trim_start(ids.drop_first(), pad)
    } else {
        ids
    }
}

/// `ids` without its trailing run of `pad`.
pub open spec fn trim_end(ids: Seq<u32>, pad: u32) -> Seq<u32>
    decreases ids.len(),
{
    if ids.len() > 0 && ids.last() == pad {
        trim_end(ids.drop_last(), pad)
    } else {
        ids
    }
}

/// The ids that carry content: with a padding id, the leading and then the
/// trailing run of it are dropped; without one, every id counts.
pub open spec fn meaningful_ids(ids: Seq<u32>, pad_id: Option<u32>) -> Seq<u32> {
    match pad_id {
        Some(pad) => trim_end(trim_start(ids, pad), pad),
        None => ids,
    }
}

/// Whether encoding is safe under `truncation`, the `(max_length, stride)` of
/// the engine's truncation parameters, if any: the engine asserts that the
/// stride is below the length it truncates to, whenever it truncates to a
/// length other than zero.
pub open spec fn truncation_is_safe(truncation: Option<(usize, usize)>) -> bool {
    match truncation {
        Some((max_length, stride)) => max_length == 0 || stride < max_length,
        None => true,
    }
}

/// A tokenizer together with the truncation limits read from it.
///
/// Built only by `read_truncation`, which reads `truncation` from `tokenizer`;
/// the shared borrow keeps the tokenizer unchanged while this value lives.
struct ConfiguredTokenizer<'a> {
    tokenizer: &'a Tokenizer,
    truncation: Option<(usize, usize)>,
}

/// Relies on `Tokenizer::get_truncation`: pairs `tokenizer` with the
/// `max_length` and `stride` of the truncation parameters it is configured
/// with, if any. Which engine holds which configuration is not visible here,
/// so nothing is stated of the limits.
#[verifier::external_body]
fn read_truncation<'a>(tokenizer: &'a Tokenizer) -> (r: ConfiguredTokenizer<'a>)
    ensures
        r.tokenizer == tokenizer,
{
    let truncation = tokenizer.get_truncation().map(|params| (params.max_length, params.stride));
    ConfiguredTokenizer { tokenizer, truncation }
}

/// Relies on `Tokenizer::encode` (called without special tokens) and
/// `Encoding::get_ids`: the token ids of `text`, or the engine's error as text.
/// Which ids come back depends on the engine's model and configuration, which
/// may draw random numbers (BPE dropout), so nothing is stated of them.
///
/// Without special tokens the engine truncates a single sequence to its
/// `max_length` with its `stride`, and panics when `0 < max_length <= stride`
/// and the sequence is longer; `requires` leaves that configuration out, over
/// the limits that `read_truncation` read from this very tokenizer.
#[verifier::external_body]
fn encode_ids(engine: &ConfiguredTokenizer, text: &str) -> (r: Result<Vec<u32>, String>)
    requires
        truncation_is_safe(engine.truncation),
{
    match engine.tokenizer.encode(text, false) {
        Ok(encoding) => Ok(encoding.get_ids().to_vec()),
        Err(e) => Err(e.to_string()),
    }
}

/// Relies on `Tokenizer::get_padding`: the `pad_id` of the padding parameters
/// the engine is configured with, if any. Which engine holds which
/// configuration is not visible here, so nothing is stated of it.
#[verifier::external_body]
fn padding_id(tokenizer: &Tokenizer) -> (r: Option<u32>) {
    tokenizer.get_padding().map(|params| params.pad_id)
}

/// The number of meaningful ids in `ids`, given the engine's padding id.
pub fn meaningful_token_count(ids: &[u32], pad_id: Option<u32>) -> (r: usize)
    ensures
        r == meaningful_ids(ids@, pad_id).len(),
{
    match pad_id {
        None => ids.len(),
        Some(pad) => {
            let len = ids.len();
            let mut start: usize = 0;
            assert(ids@.subrange(0, len as int) =~= ids@);
            while start < len && ids[start] == pad
                invariant
                    len == ids@.len(),
                    start <= len,
                    trim_start(ids@, pad) == trim_start(ids@.subrange(start as int, len as int), pad),
                decreases len - start,
            {
                proof {
                    let rest = ids@.subrange(start as int, len as int);
                    assert(rest.drop_first() =~= ids@.subrange(start + 1, len as int));
                }
                start = start + 1;
            }
            proof {
                let rest = ids@.subrange(start as int, len as int);
                assert(trim_start(rest, pad) == rest);
            }
            let mut end: usize = len;
            while end > start && ids[end - 1] == pad
                invariant
                    len == ids@.len(),
                    start <= end <= len,
                    trim_start(ids@, pad) == ids@.subrange(start as int, len as int),
                    trim_end(ids@.subrange(start as int, len as int), pad) == trim_end(
                        ids@.subrange(start as int, end as int),
                        pad,
                    ),
                decreases end,
            {
                proof {
                    let kept = ids@.subrange(start as int, end as int);
                    assert(kept.drop_last() =~= ids@.subrange(start as int, end - 1));
                }
                end = end - 1;
            }
            proof {
                let kept = ids@.subrange(start as int, end as int);
                assert(trim_end(kept, pad) == kept);
            }
            end - start
        },
    }
}

/// Measures an encoding: its meaningful ids, counted and classified against
/// `capacity`.
pub fn chunk_size_of_encoding(ids: &[u32], pad_id: Option<u32>, capacity: &ChunkCapacity) -> (r:
    ChunkSize)
    ensures
        r@ == size_view(meaningful_ids(ids@, pad_id).len(), capacity@),
{
    let count = meaningful_token_count(ids, pad_id);
    ChunkSize::from_size(count, capacity)
}

/// Measures what the engine returned for a chunk: its error becomes
/// `ChunkSizeError::Tokenization`, never a size; its ids are measured by
/// `chunk_size_of_encoding`.
pub fn measure_encoded(
    encoded: Result<Vec<u32>, String>,
    pad_id: Option<u32>,
    capacity: &ChunkCapacity,
) -> (r: Result<ChunkSize, ChunkSizeError>)
    ensures
        r is Err <==> encoded is Err,
        encoded matches Err(m) ==> r == Err::<ChunkSize, ChunkSizeError>(
            ChunkSizeError::Tokenization(m),
        ),
        encoded matches Ok(ids) ==> (r matches Ok(s) && s@ == size_view(
            meaningful_ids(ids@, pad_id).len(),
            capacity@,
        )),
{
    match encoded {
        Err(message) => Err(ChunkSizeError::Tokenization(message)),
        Ok(ids) => Ok(chunk_size_of_encoding(ids.as_slice(), pad_id, capacity)),
    }
}

/// The error for truncation limits under which the engine cannot encode every
/// chunk, or `None` where encoding is safe.
pub fn truncation_error(truncation: Option<(usize, usize)>) -> (r: Option<ChunkSizeError>)
    ensures
        r is None <==> truncation_is_safe(truncation),
        r matches Some(e) ==> (truncation matches Some((m, s)) && e == (
        ChunkSizeError::UnsupportedTruncation { max_length: m, stride: s })),
{
    match truncation {
        Some((max_length, stride)) => {
            if max_length != 0 && stride >= max_length {
                Some(ChunkSizeError::UnsupportedTruncation { max_length, stride })
            } else {
                None
            }
        },
        None => None,
    }
}

/// Measures `chunk` in meaningful tokens of `tokenizer`.
///
/// Fails with `ChunkSizeError::UnsupportedTruncation` when the engine's
/// truncation limits are unsafe (see `truncation_error`): then every chunk is
/// refused, also one short enough that the engine would not truncate it.
/// Otherwise the engine's result goes to `measure_encoded`: its error becomes
/// `ChunkSizeError::Tokenization`, and its ids are counted without padding and
/// classified against `capacity`.
pub fn tokenizer_chunk_size(tokenizer: &Tokenizer, chunk: &str, capacity: &ChunkCapacity) -> (r:
    Result<ChunkSize, ChunkSizeError>)
    ensures
        r matches Ok(s) ==> exists|ids: Seq<u32>, pad_id: Option<u32>|
            s@ == size_view(#[trigger] meaningful_ids(ids, pad_id).len(), capacity@),
        r matches Err(e) ==> e is Tokenization || e is UnsupportedTruncation,
        r matches Err(ChunkSizeError::UnsupportedTruncation { max_length, stride }) ==> 0
            < max_length <= stride,
{
    let engine = read_truncation(tokenizer);
    match truncation_error(engine.truncation) {
        Some(e) => Err(e),
        None => {
            let encoded = encode_ids(&engine, chunk);
            let pad_id = padding_id(tokenizer);
            let ghost ids = encoded->Ok_0@;
            let r = measure_encoded(encoded, pad_id, capacity);
            proof {
                if r is Ok {
                    assert(r->Ok_0@ == size_view(meaningful_ids(ids, pad_id).len(), capacity@));
                }
            }
            r
        },
    }
}

impl ChunkSizer for Tokenizer {
    /// Measures `chunk` in meaningful tokens; see `tokenizer_chunk_size`.
    fn chunk_size(&self, chunk: &str, capacity: &ChunkCapacity) -> (r: Result<ChunkSize, ChunkSizeError>)
        ensures
            r matches Ok(s) ==> exists|ids: Seq<u32>, pad_id: Option<u32>|
                s@ == size_view(#[trigger] meaningful_ids(ids, pad_id).len(), capacity@),
            r matches Err(e) ==> e is Tokenization || e is UnsupportedTruncation,
            r matches Err(ChunkSizeError::UnsupportedTruncation { max_length, stride }) ==> 0
                < max_length <= stride,
    {
        tokenizer_chunk_size(self, chunk, capacity)
    }
}

/// Measuring is a function of the engine's output: two measurements of the
/// same ids, under the same padding id and capacity, are the same value.
pub proof fn lemma_same_encoding_same_size(
    a: ChunkSize,
    b: ChunkSize,
    ids: Seq<u32>,
    pad_id: Option<u32>,
    capacity: CapacityBounds,
)
    requires
        a@ == size_view(meaningful_ids(ids, pad_id).len(), capacity),
        b@ == size_view(meaningful_ids(ids, pad_id).len(), capacity),
    ensures
        a == b,
{
    ChunkSize::lemma_view_determines(a, b);
}

/// Without a padding id every id counts, whatever the ids are.
pub proof fn lemma_no_padding_counts_every_id(ids: Seq<u32>)
    ensures
        meaningful_ids(ids, None).len() == ids.len(),
{
}

} // verus!
