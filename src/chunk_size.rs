use vstd::prelude::*;

verus! {

/// The model of a capacity: the inclusive range of sizes a chunk may have.
pub struct CapacityBounds {
    pub min: nat,
    pub max: nat,
}

/// The sizes a chunk may have: an exact target, or a range `min..=max`.
///
/// An exact target `n` is the range `n..=n`.
#[derive(Clone, Copy, Debug, PartialEq, Eq, Structural, Hash)]
pub struct ChunkCapacity {
    min: usize,
    max: usize,
}

/// Why a capacity could not be built.
#[derive(Clone, Copy, Debug, PartialEq, Eq, Structural, Hash)]
pub enum ChunkCapacityError {
    /// The minimum was greater than the maximum.
    InvalidCapacity { min: usize, max: usize },
}

impl View for ChunkCapacity {
    type V = CapacityBounds;

    closed spec fn view(&self) -> CapacityBounds {
        CapacityBounds { min: self.min as nat, max: self.max as nat }
    }
}

impl ChunkCapacity {
    #[verifier::type_invariant]
    spec fn bounds_ordered(self) -> bool {
        self.min <= self.max
    }

    /// A capacity of exactly `size`.
    pub fn new(size: usize) -> (r: Self)
        ensures
            r@ == (CapacityBounds { min: size as nat, max: size as nat }),
    {
        ChunkCapacity { min: size, max: size }
    }

    /// A capacity of any size in `min..=max`; fails when `min > max`.
    pub fn with_range(min: usize, max: usize) -> (r: Result<Self, ChunkCapacityError>)
        ensures
            r is Ok <==> min <= max,
            r matches Ok(c) ==> c@ == (CapacityBounds { min: min as nat, max: max as nat }),
            r matches Err(e) ==> e == (ChunkCapacityError::InvalidCapacity { min, max }),
    {
        if min <= max {
            Ok(ChunkCapacity { min, max })
        } else {
            Err(ChunkCapacityError::InvalidCapacity { min, max })
        }
    }

    /// The smallest size that fits.
    pub fn min(&self) -> (r: usize)
        ensures
            r == self@.min,
            r <= self@.max,
    {
        proof {
            use_type_invariant(self);
        }
        self.min
    }

    /// The largest size that fits.
    pub fn max(&self) -> (r: usize)
        ensures
            r == self@.max,
            self@.min <= r,
    {
        proof {
            use_type_invariant(self);
        }
        self.max
    }

    /// Whether exactly one size fits.
    pub fn is_exact(&self) -> (r: bool)
        ensures
            r == (self@.min == self@.max),
    {
        self.min == self.max
    }
}

impl From<usize> for ChunkCapacity {
    fn from(size: usize) -> (r: Self)
        ensures
            r@ == (CapacityBounds { min: size as nat, max: size as nat }),
    {
        ChunkCapacity::new(size)
    }
}

impl vstd::std_specs::convert::FromSpecImpl<usize> for ChunkCapacity {
    open spec fn obeys_from_spec() -> bool {
        true
    }

    closed spec fn from_spec(size: usize) -> Self {
        ChunkCapacity { min: size, max: size }
    }
}

/// How a measured size relates to a capacity.
#[derive(Clone, Copy, Debug, PartialEq, Eq, Structural, Hash)]
pub enum ChunkFit {
    /// The size lies within the capacity.
    Fits,
    /// The size is below the minimum by the given amount.
    Below(usize),
    /// The size exceeds the maximum by the given amount.
    Exceeds(usize),
}

/// The classification of `measured` against `bounds`.
pub open spec fn classify(measured: nat, bounds: CapacityBounds) -> ChunkFit {
    if measured < bounds.min {
        ChunkFit::Below((bounds.min - measured) as usize)
    } else if measured > bounds.max {
        ChunkFit::Exceeds((measured - bounds.max) as usize)
    } else {
        ChunkFit::Fits
    }
}

/// The model of a measurement: the size and its classification.
pub struct ChunkSizeView {
    pub size: nat,
    pub fit: ChunkFit,
}

/// The measurement of `measured` against `bounds`.
pub open spec fn size_view(measured: nat, bounds: CapacityBounds) -> ChunkSizeView {
    ChunkSizeView { size: measured, fit: classify(measured, bounds) }
}

/// The outcome of measuring a chunk against a capacity.
///
/// Built only by `from_size`, so the size and its classification agree.
#[derive(Clone, Copy, Debug, PartialEq, Eq, Structural, Hash)]
pub struct ChunkSize {
    size: usize,
    fit: ChunkFit,
}

impl View for ChunkSize {
    type V = ChunkSizeView;

    closed spec fn view(&self) -> ChunkSizeView {
        ChunkSizeView { size: self.size as nat, fit: self.fit }
    }
}

impl ChunkSize {
    /// Classifies `size` against `capacity`.
    pub fn from_size(size: usize, capacity: &ChunkCapacity) -> (r: Self)
        ensures
            r@ == size_view(size as nat, capacity@),
    {
        let fit = if size < capacity.min {
            ChunkFit::Below(capacity.min - size)
        } else if size > capacity.max {
            ChunkFit::Exceeds(size - capacity.max)
        } else {
            ChunkFit::Fits
        };
        ChunkSize { size, fit }
    }

    /// The measured size.
    pub fn size(&self) -> (r: usize)
        ensures
            r == self@.size,
    {
        self.size
    }

    /// The classification of the size against the capacity it was measured with.
    pub fn fit(&self) -> (r: ChunkFit)
        ensures
            r == self@.fit,
    {
        self.fit
    }

    /// Whether the size lies within the capacity.
    pub fn fits(&self) -> (r: bool)
        ensures
            r == (self@.fit == ChunkFit::Fits),
    {
        match self.fit {
            ChunkFit::Fits => true,
            _ => false,
        }
    }

    /// Two measurements with the same model are the same value.
    pub proof fn lemma_view_determines(a: ChunkSize, b: ChunkSize)
        requires
            a@ == b@,
        ensures
            a == b,
    {
    }
}

/// Why a measurement failed.
#[derive(Clone, Debug, PartialEq, Eq, Hash)]
pub enum ChunkSizeError {
    /// The tokenization engine could not encode the chunk; holds its message.
    Tokenization(String),
    /// The engine is configured to truncate to `max_length` tokens with a
    /// `stride` that is not below it, under which it cannot encode a longer
    /// chunk. Every chunk is refused under such limits, also a short one, so
    /// that no measurement aborts.
    UnsupportedTruncation { max_length: usize, stride: usize },
}

/// A strategy that measures text against a capacity.
pub trait ChunkSizer {
    /// Measures `chunk` against `capacity`.
    ///
    /// A verdict always classifies its own size against `capacity`.
    fn chunk_size(&self, chunk: &str, capacity: &ChunkCapacity) -> (r: Result<ChunkSize, ChunkSizeError>)
        ensures
            r matches Ok(s) ==> s@ == size_view(s@.size, capacity@),
    ;
}

impl<S: ChunkSizer> ChunkSizer for &S {
    /// Measures through the referenced sizer, returning what it returns.
    fn chunk_size(&self, chunk: &str, capacity: &ChunkCapacity) -> (r: Result<ChunkSize, ChunkSizeError>)
        ensures
            call_ensures(S::chunk_size, (*self, chunk, capacity), r),
    {
        (**self).chunk_size(chunk, capacity)
    }
}

/// Against an exact capacity `n`, a size fits exactly when it equals `n`;
/// otherwise it is below or above `n` by the distance between the two.
pub proof fn lemma_exact_capacity_classification(measured: usize, n: usize)
    ensures
        classify(measured as nat, CapacityBounds { min: n as nat, max: n as nat }) == (
        if measured < n {
            ChunkFit::Below((n - measured) as usize)
        } else if measured > n {
            ChunkFit::Exceeds((measured - n) as usize)
        } else {
            ChunkFit::Fits
        }),
        (classify(measured as nat, CapacityBounds { min: n as nat, max: n as nat })
            == ChunkFit::Fits) <==> measured == n,
{
}

/// Against a range `min..=max`, a size fits exactly when it lies in the range,
/// is below exactly when it is under `min` (by `min - measured`), and exceeds
/// exactly when it is over `max` (by `measured - max`).
pub proof fn lemma_ranged_capacity_classification(measured: usize, min: usize, max: usize)
    requires
        min <= max,
    ensures
        ({
            let fit = classify(measured as nat, CapacityBounds { min: min as nat, max: max as nat });
            &&& (fit == ChunkFit::Fits) <==> (min <= measured && measured <= max)
            &&& (fit is Below) <==> measured < min
            &&& (fit is Exceeds) <==> measured > max
            &&& fit is Below ==> fit == ChunkFit::Below((min - measured) as usize)
            &&& fit is Exceeds ==> fit == ChunkFit::Exceeds((measured - max) as usize)
        }),
{
}

} // verus!
