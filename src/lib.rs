//! Measuring the size of a chunk of text against a target capacity.
//!
//! `ChunkCapacity` describes the acceptable size of a chunk, `ChunkSize` is
//! the verdict of one measurement, and `ChunkSizer` is any strategy that
//! produces such verdicts. The `huggingface` module measures text in the
//! meaningful tokens of a `tokenizers::Tokenizer`.

mod chunk_size;
mod huggingface;

pub use chunk_size::{
    CapacityBounds, ChunkCapacity, ChunkCapacityError, ChunkFit, ChunkSize, ChunkSizeError,
    ChunkSizeView, ChunkSizer, classify, lemma_exact_capacity_classification,
    lemma_ranged_capacity_classification, size_view,
};
pub use huggingface::{
    chunk_size_of_encoding, lemma_no_padding_counts_every_id, lemma_same_encoding_same_size,
    meaningful_ids, meaningful_token_count, measure_encoded, tokenizer_chunk_size, trim_end, trim_start,
    truncation_error, truncation_is_safe,
};
