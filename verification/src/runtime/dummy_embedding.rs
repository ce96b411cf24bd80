//! The built-in embedding backend's deterministic core.
//!
//! For each input the backend derives an FNV-1a hash of the UTF-8 bytes and
//! fills a fixed-dimension vector from rotations of that hash; every raw
//! component lies below 1000. Scaling to floats and L2 normalization are
//! floating-point work done by the host around this crate.
use vstd::prelude::*;
use vstd::string::StrSliceExecFns;
use vstd::utf8::encode_utf8;

verus! {

/// The FNV-1a offset basis.
pub const FNV_OFFSET: u64 = 0xcbf2_9ce4_8422_2325;

/// The FNV-1a prime.
pub const FNV_PRIME: u64 = 0x100_0000_01b3;

/// The FNV-1a hash of a byte sequence.
pub open spec fn fnv1a64(bytes: Seq<u8>) -> u64
    decreases bytes.len(),
{
    if bytes.len() == 0 {
        FNV_OFFSET
    } else {
        (fnv1a64(bytes.drop_last()) ^ (bytes.last() as u64)).wrapping_mul(FNV_PRIME)
    }
}

/// `h` rotated left by `k` bits.
pub open spec fn rot_left64(h: u64, k: u64) -> u64
    recommends
        k < 64,
{
    if k == 0 {
        h
    } else {
        (h << k) | (h >> ((64 - k) as u64))
    }
}

/// The raw integer component at position `i` of the vector derived from
/// hash `h`; always below 1000.
pub open spec fn raw_component(h: u64, i: nat) -> u64 {
    rot_left64(h, (i % 64) as u64) % 1000
}

fn rotate_left64(h: u64, k: u64) -> (r: u64)
    requires
        k < 64,
    ensures
        r == rot_left64(h, k),
{
    if k == 0 {
        h
    } else {
        (h << k) | (h >> (64 - k))
    }
}

/// Hash the UTF-8 bytes of `text` with FNV-1a.
pub fn fnv1a64_of_str(text: &str) -> (r: u64)
    ensures
        r == fnv1a64(encode_utf8(text@)),
{
    let bytes = text.as_bytes();
    let n = bytes.len();
    let mut h: u64 = FNV_OFFSET;
    let mut i: usize = 0;
    while i < n
        invariant
            n == bytes@.len(),
            0 <= i <= n,
            h == fnv1a64(bytes@.subrange(0, i as int)),
            bytes@ == encode_utf8(text@),
        decreases n - i,
    {
        proof {
            assert(bytes@.subrange(0, i + 1).drop_last() =~= bytes@.subrange(0, i as int));
            assert(bytes@.subrange(0, i + 1).last() == bytes@[i as int]);
        }
        h = (h ^ (bytes[i] as u64)).wrapping_mul(FNV_PRIME);
        i = i + 1;
    }
    proof {
        assert(bytes@.subrange(0, n as int) =~= bytes@);
    }
    h
}

/// The built-in deterministic pseudo-embedding backend.
pub struct DummyEmbeddingRuntime {
    dimension: usize,
}

impl DummyEmbeddingRuntime {
    /// The fixed dimensionality of every vector this backend produces.
    pub closed spec fn spec_dimension(self) -> usize {
        self.dimension
    }

    /// A fresh pseudo-embedding backend of the given dimensionality.
    pub fn new(dimension: usize) -> (r: DummyEmbeddingRuntime)
        ensures
            r.spec_dimension() == dimension,
    {
        DummyEmbeddingRuntime { dimension }
    }

    /// The dimensionality of every vector this backend produces.
    pub fn dimension(&self) -> (r: usize)
        ensures
            r == self.spec_dimension(),
    {
        self.dimension
    }

    /// The raw integer components of the vector for one input text.
    pub fn raw_components(&self, text: &str) -> (r: Vec<u64>)
        ensures
            r@.len() == self.spec_dimension(),
            forall|i: int|
                0 <= i < r@.len() ==> r@[i] == raw_component(
                    fnv1a64(encode_utf8(text@)),
                    i as nat,
                ),
            forall|i: int| 0 <= i < r@.len() ==> r@[i] < 1000,
    {
        let h = fnv1a64_of_str(text);
        let mut r: Vec<u64> = Vec::new();
        let mut i: usize = 0;
        while i < self.dimension
            invariant
                0 <= i <= self.dimension,
                r@.len() == i,
                h == fnv1a64(encode_utf8(text@)),
                forall|j: int| 0 <= j < i ==> r@[j] == raw_component(h, j as nat),
                forall|j: int| 0 <= j < i ==> r@[j] < 1000,
            decreases self.dimension - i,
        {
            let k = (i % 64) as u64;
            let v = rotate_left64(h, k) % 1000;
            r.push(v);
            i = i + 1;
        }
        r
    }
}

} // verus!
