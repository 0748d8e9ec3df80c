use crate::error::{Error, Result};
use vstd::prelude::*;

pub mod state_resource_type;

verus! {

/// Plain-Rust view of `MPSStateTextureInfo`.
#[derive(Debug, Clone, Copy, PartialEq, Eq)]
pub struct StateTextureInfo {
    /// Corresponds to the `width` field on `MPSStateTextureInfo`.
    pub width: usize,
    /// Corresponds to the `height` field on `MPSStateTextureInfo`.
    pub height: usize,
    /// Corresponds to the `depth` field on `MPSStateTextureInfo`.
    pub depth: usize,
    /// Corresponds to the `array_length` field on `MPSStateTextureInfo`.
    pub array_length: usize,
    /// Corresponds to the `pixel_format` field on `MPSStateTextureInfo`.
    pub pixel_format: usize,
    /// Corresponds to the `texture_type` field on `MPSStateTextureInfo`.
    pub texture_type: usize,
    /// Corresponds to the `usage` field on `MPSStateTextureInfo`.
    pub usage: usize,
}

impl Default for StateTextureInfo {
    fn default() -> (r: Self)
        ensures
            r == (StateTextureInfo {
                width: 0,
                height: 0,
                depth: 0,
                array_length: 0,
                pixel_format: 0,
                texture_type: 0,
                usage: 0,
            }),
    {
        StateTextureInfo { width: 0, height: 0, depth: 0, array_length: 0, pixel_format: 0, texture_type: 0, usage: 0 }
    }
}

/// Why temporary states cannot be synchronized.
pub const TEMPORARY_SYNCHRONIZE: &'static str = "temporary states are GPU-private and cannot be synchronized with the CPU";

/// What `check_read_count` returns.
pub open spec fn read_count_spec(is_temporary: bool, read_count: usize, count: usize) -> Result<()> {
    if !is_temporary {
        Err(Error::InvalidArgument("only temporary states have a read count"))
    } else if read_count == 0 && count > 0 {
        Err(Error::InvalidArgument("a temporary state whose read count reached zero has returned its storage to MPS"))
    } else if count > isize::MAX {
        Err(Error::Overflow)
    } else {
        Ok(())
    }
}

/// Checks setting a state's read count to `count`: only temporary states
/// have one, a state whose count reached zero has given its storage back,
/// and MPS takes the count as an `NSInteger`.
pub fn check_read_count(is_temporary: bool, read_count: usize, count: usize) -> (r: Result<()>)
    ensures
        r == read_count_spec(is_temporary, read_count, count),
{
    if !is_temporary {
        return Err(Error::InvalidArgument("only temporary states have a read count"));
    }
    if read_count == 0 && count > 0 {
        return Err(Error::InvalidArgument(
            "a temporary state whose read count reached zero has returned its storage to MPS",
        ));
    }
    if count > isize::MAX as usize {
        return Err(Error::Overflow);
    }
    Ok(())
}

/// Refuses to synchronize states when any of them is temporary.
pub fn check_synchronizable(temporary: &[bool]) -> (r: Result<()>)
    ensures
        r == (if exists|i: int| 0 <= i < temporary@.len() && #[trigger] temporary@[i] {
            Err(Error::InvalidArgument(TEMPORARY_SYNCHRONIZE))
        } else {
            Ok(())
        }),
{
    let mut i: usize = 0;
    while i < temporary.len()
        invariant
            i <= temporary@.len(),
            forall|j: int| 0 <= j < i ==> !#[trigger] temporary@[j],
        decreases temporary@.len() - i,
    {
        if temporary[i] {
            return Err(Error::InvalidArgument(TEMPORARY_SYNCHRONIZE));
        }
        i = i + 1;
    }
    Ok(())
}

/// The count MPS returns from a batch read-count change, which is negative
/// when a state's count would drop below zero or overflow.
pub fn batch_read_count_result(unique: isize) -> (r: Result<usize>)
    ensures
        r == (if unique < 0 {
            Err(Error::InvalidArgument("a temporary state's read count would drop below zero or overflow"))
        } else {
            Ok(unique as usize)
        }),
{
    if unique < 0 {
        Err(Error::InvalidArgument("a temporary state's read count would drop below zero or overflow"))
    } else {
        Ok(unique as usize)
    }
}

/// Whether position `i` holds the first occurrence of its value.
pub open spec fn first_occurrence(ids: Seq<usize>, i: int) -> bool {
    0 <= i < ids.len() && forall|j: int| 0 <= j < i ==> ids[j] != ids[i]
}

/// The positions of the first occurrence of each value, in order: they
/// name every value of `ids` exactly once.
pub fn first_occurrences(ids: &[usize]) -> (r: Vec<usize>)
    ensures
        forall|k: int| 0 <= k < r@.len() ==> first_occurrence(ids@, #[trigger] r@[k] as int),
        forall|i: int| #[trigger] first_occurrence(ids@, i) ==> r@.contains(i as usize),
        forall|k: int, l: int| 0 <= k < l < r@.len() ==> r@[k] < r@[l],
        forall|k: int, l: int|
            0 <= k < l < r@.len() ==> ids@[#[trigger] r@[k] as int] != ids@[#[trigger] r@[l] as int],
        forall|v: usize| ids@.contains(v) ==> exists|k: int| 0 <= k < r@.len() && ids@[r@[k] as int] == v,
{
    let mut r: Vec<usize> = Vec::new();
    let mut i: usize = 0;
    while i < ids.len()
        invariant
            i <= ids@.len(),
            forall|k: int| 0 <= k < r@.len() ==> first_occurrence(ids@, #[trigger] r@[k] as int),
            forall|k: int| 0 <= k < r@.len() ==> #[trigger] r@[k] < i,
            forall|m: int| 0 <= m < i && #[trigger] first_occurrence(ids@, m) ==> r@.contains(m as usize),
            forall|k: int, l: int| 0 <= k < l < r@.len() ==> r@[k] < r@[l],
        decreases ids@.len() - i,
    {
        let mut seen = false;
        let mut j: usize = 0;
        while j < i
            invariant
                j <= i,
                i < ids@.len(),
                seen == exists|m: int| 0 <= m < j && ids@[m] == ids@[i as int],
            decreases i - j,
        {
            if ids[j] == ids[i] {
                seen = true;
            }
            j = j + 1;
        }
        if !seen {
            let ghost old_r = r@;
            r.push(i);
            proof {
                assert(first_occurrence(ids@, i as int));
                assert forall|m: int| 0 <= m < i + 1 && #[trigger] first_occurrence(ids@, m) implies r@.contains(m as usize) by {
                    if m == i {
                        assert(r@[r@.len() - 1] == i);
                    } else {
                        let k = choose|k: int| 0 <= k < old_r.len() && old_r[k] == m as usize;
                        assert(r@[k] == m as usize);
                    }
                }
            }
        } else {
            proof {
                assert(!first_occurrence(ids@, i as int));
            }
        }
        i = i + 1;
    }
    proof {
        assert forall|k: int, l: int| 0 <= k < l < r@.len() implies ids@[r@[k] as int] != ids@[r@[l] as int] by {
            assert(first_occurrence(ids@, r@[l] as int));
            assert(r@[k] < r@[l]);
        }
        assert forall|v: usize| ids@.contains(v) implies exists|k: int| 0 <= k < r@.len() && ids@[r@[k] as int] == v by {
            let i = choose|i: int| 0 <= i < ids@.len() && ids@[i] == v;
            lemma_has_first_occurrence(ids@, i);
            let f = choose|f: int| first_occurrence(ids@, f) && ids@[f] == ids@[i];
            assert(r@.contains(f as usize));
            let k = choose|k: int| 0 <= k < r@.len() && r@[k] == f as usize;
            assert(ids@[r@[k] as int] == v);
        }
    }
    r
}

proof fn lemma_has_first_occurrence(ids: Seq<usize>, i: int)
    requires
        0 <= i < ids.len(),
    ensures
        exists|f: int| first_occurrence(ids, f) && ids[f] == ids[i],
    decreases i,
{
    if first_occurrence(ids, i) {
    } else {
        let j = choose|j: int| 0 <= j < i && ids[j] == ids[i];
        lemma_has_first_occurrence(ids, j);
    }
}

} // verus!
