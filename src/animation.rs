use crate::ConfigError;
use vstd::prelude::*;

verus! {

/// Inclusive range `[first, last]` of atlas indices that make up one animation.
#[derive(Clone, Copy, Debug, PartialEq, Eq, Structural)]
pub struct AnimationRange {
    pub first: usize,
    pub last: usize,
}

impl AnimationRange {
    pub open spec fn wf(&self) -> bool {
        self.first <= self.last
    }

    pub open spec fn contains(&self, i: int) -> bool {
        self.first <= i <= self.last
    }

    /// Builds a range, refusing one whose first index lies after its last.
    pub fn new(first: usize, last: usize) -> (r: Result<AnimationRange, ConfigError>)
        ensures
            first <= last <==> r is Ok,
            r is Ok ==> r->Ok_0 == (AnimationRange { first, last }),
            r is Err ==> r->Err_0 == ConfigError::InvertedRange,
    {
        if first <= last {
            Ok(AnimationRange { first, last })
        } else {
            Err(ConfigError::InvertedRange)
        }
    }
}

/// How an animation behaves once it reaches the end of its range.
#[derive(Clone, Copy, Debug, PartialEq, Eq, Structural)]
pub enum AnimationType {
    /// Wraps back to the first frame.
    Loop,
    /// Stays on the last frame.
    PlayOnceHold,
}

/// Index repaired against a range that may have moved: an index below the
/// range is lifted to its first frame; any other index is kept.
pub open spec fn normalize_spec(index: usize, range: AnimationRange) -> usize {
    if index < range.first {
        range.first
    } else {
        index
    }
}

/// Index shown after one advance event.
pub open spec fn advance_spec(index: usize, range: AnimationRange, kind: AnimationType) -> usize {
    let i = normalize_spec(index, range);
    match kind {
        AnimationType::Loop => if i >= range.last {
            range.first
        } else {
            (i + 1) as usize
        },
        AnimationType::PlayOnceHold => if i < range.last {
            (i + 1) as usize
        } else {
            i
        },
    }
}

/// Lifts an index that lies below the range to the range's first frame.
pub fn normalize_index(index: usize, range: AnimationRange) -> (r: usize)
    ensures
        r == normalize_spec(index, range),
        r >= range.first,
{
    if index < range.first {
        range.first
    } else {
        index
    }
}

/// Next atlas index after an advance event, for the given range and policy.
///
/// The result lies within the range unless the policy holds on the last frame
/// and the index already lay beyond the range's end, in which case it is kept.
pub fn advance_index(index: usize, range: AnimationRange, kind: AnimationType) -> (r: usize)
    requires
        range.wf(),
    ensures
        r == advance_spec(index, range, kind),
        (kind == AnimationType::Loop || index <= range.last) ==> range.contains(r as int),
        index == range.last ==> r == (match kind {
            AnimationType::Loop => range.first,
            AnimationType::PlayOnceHold => range.last,
        }),
{
    let i = normalize_index(index, range);
    match kind {
        AnimationType::Loop => {
            if i >= range.last {
                range.first
            } else {
                i + 1
            }
        },
        AnimationType::PlayOnceHold => {
            if i < range.last {
                i + 1
            } else {
                i
            }
        },
    }
}

/// Every advance lands inside a well-formed range, except when a
/// play-once animation is handed an index already beyond the range's end.
pub proof fn lemma_advance_stays_in_range(index: usize, range: AnimationRange, kind: AnimationType)
    requires
        range.wf(),
        kind == AnimationType::Loop || index <= range.last,
    ensures
        range.contains(advance_spec(index, range, kind) as int),
{
}

/// Advancing from the last frame wraps to the first under `Loop` and stays
/// put under `PlayOnceHold`.
pub proof fn lemma_advance_from_last(range: AnimationRange)
    requires
        range.wf(),
    ensures
        advance_spec(range.last, range, AnimationType::Loop) == range.first,
        advance_spec(range.last, range, AnimationType::PlayOnceHold) == range.last,
{
}

} // verus!
