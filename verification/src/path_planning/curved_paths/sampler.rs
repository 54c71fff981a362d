//! Where along a path poses are taken.
//!
//! A path is sampled slot by slot, in steps of a fixed arc length and once
//! more at the end of each slot. The walk decides at which lengths; it never
//! adds two lengths itself. Its caller asks what is [`Walk::pending`], adds the
//! stride to the cursor, rounding as its arithmetic rounds, and hands the sum
//! to [`Walk::advance`], until nothing is pending.
//!
//! The samples then say how to lay out the poses: pose `0` is the start of the
//! path, and pose `k + 1` is reached from pose `samples[k].origin` by
//! travelling `samples[k].offset` along `samples[k].segment`.
use crate::path_planning::curved_paths::PathSegmentType;
use crate::scalar::Scalar;
use vstd::prelude::*;

verus! {

/// One pose to take: `offset` along `segment`, from pose number `origin`.
#[derive(Debug, Copy, Clone, PartialEq, Eq, Structural)]
pub struct Sample {
    pub segment: PathSegmentType,
    pub origin: usize,
    pub offset: Scalar,
}

impl Sample {
    /// Whether the sample is taken at the end of its slot.
    pub open spec fn at_boundary(self) -> bool {
        self.segment.spec_length() == Some(self.offset)
    }
}

/// The first slot from `from` on that is to be walked: slots of length zero
/// are passed over, and at an unused slot the path is over. The number of
/// slots when there is none.
pub open spec fn spec_seek(segments: Seq<PathSegmentType>, from: int) -> int
    decreases segments.len() - from,
{
    if from < 0 || from >= segments.len() {
        segments.len() as int
    } else {
        match segments[from].spec_length() {
            None => segments.len() as int,
            Some(v) => if v.spec_is_zero() {
                spec_seek(segments, from + 1)
            } else {
                from
            },
        }
    }
}

/// The step along a slot of length `length`: `step_size` with the sign of
/// `length` applied, so that a slot travelled in reverse is stepped through
/// in reverse. Not a number where `length` is not.
pub open spec fn spec_stride(step_size: Scalar, length: Scalar) -> Scalar {
    if length.spec_is_nan() {
        Scalar::spec_nan()
    } else if length.negative() {
        step_size.spec_neg()
    } else {
        step_size
    }
}

/// The step along `segments[index]`; where the walk is over, `step_size`.
pub open spec fn spec_stride_at(segments: Seq<PathSegmentType>, step_size: Scalar, index: int) -> Scalar {
    if 0 <= index < segments.len() && segments[index].spec_length() is Some {
        spec_stride(step_size, segments[index].spec_length().unwrap())
    } else {
        step_size
    }
}

/// What a walk is, to its callers.
pub struct WalkView {
    /// The slots of the path.
    pub segments: Seq<PathSegmentType>,
    /// The arc length between two samples.
    pub step_size: Scalar,
    /// The slot being walked; the number of slots when the walk is over.
    pub index: int,
    /// The step along the slot being walked.
    pub stride: Scalar,
    /// How far along that slot the next sample may be taken.
    pub cursor: Scalar,
    /// The number of the pose at which that slot begins.
    pub origin: int,
    /// The samples decided so far.
    pub samples: Seq<Sample>,
}

impl WalkView {
    /// The walk before its first sample.
    pub open spec fn start(segments: Seq<PathSegmentType>, step_size: Scalar) -> WalkView {
        let index = spec_seek(segments, 0);
        let stride = spec_stride_at(segments, step_size, index);
        WalkView { segments, step_size, index, stride, cursor: stride, origin: 0, samples: Seq::empty() }
    }

    pub open spec fn finished(self) -> bool {
        self.index >= self.segments.len()
    }

    /// The length of the slot being walked.
    pub open spec fn length(self) -> Scalar {
        self.segments[self.index].spec_length().unwrap()
    }

    /// The two lengths that the caller is to add: the cursor and the stride.
    pub open spec fn pending(self) -> Option<(Scalar, Scalar)> {
        if self.finished() {
            None
        } else {
            Some((self.cursor, self.stride))
        }
    }

    /// Whether a further step of the walk stays within the slot, `next`
    /// being the cursor plus the stride.
    pub open spec fn within(self, next: Scalar) -> bool {
        next.spec_abs().spec_le(self.length().spec_abs())
    }

    /// The walk after one more sample, `next` being the cursor plus the
    /// stride. While `next` is no farther along the slot than its end, the
    /// sample is taken at the cursor, which moves on to `next`. Otherwise the
    /// sample is taken at the end of the slot, exactly, and the walk goes on
    /// from there with the next slot to be walked. A walk that is over stays
    /// as it is.
    pub open spec fn advance(self, next: Scalar) -> WalkView {
        if self.finished() {
            self
        } else if self.within(next) {
            WalkView {
                cursor: next,
                samples: self.samples.push(
                    Sample {
                        segment: self.segments[self.index],
                        origin: self.origin as usize,
                        offset: self.cursor,
                    },
                ),
                ..self
            }
        } else {
            let index = spec_seek(self.segments, self.index + 1);
            let stride = spec_stride_at(self.segments, self.step_size, index);
            WalkView {
                index,
                stride,
                cursor: stride,
                origin: self.samples.len() as int + 1,
                samples: self.samples.push(
                    Sample {
                        segment: self.segments[self.index],
                        origin: self.origin as usize,
                        offset: self.length(),
                    },
                ),
                ..self
            }
        }
    }

    /// The number of slots that are still to be walked or passed over.
    pub open spec fn slots_left(self) -> int {
        self.segments.len() - self.index
    }

    /// How far the cursor is from the end of the slot being walked, counted
    /// in codes; zero once it is past the end or the walk is over.
    pub open spec fn room(self) -> int {
        if self.finished() || self.cursor.magnitude() >= self.length().magnitude() {
            0
        } else {
            self.length().magnitude() - self.cursor.magnitude()
        }
    }

    /// What holds of every walk: the slot being walked is used and not of
    /// length zero; every sample starts from a pose that comes before its
    /// own; every slot starts from pose 0 or from the pose at the end of a
    /// slot walked before; and a walk that is over has taken its last sample
    /// at the end of a slot.
    pub open spec fn wf(self) -> bool {
        &&& 0 <= self.index <= self.segments.len()
        &&& self.samples.len() <= usize::MAX
        &&& !self.finished() ==> {
            &&& self.segments[self.index].spec_length() is Some
            &&& !self.length().spec_is_zero()
            &&& self.stride == spec_stride(self.step_size, self.length())
        }
        &&& 0 <= self.origin <= self.samples.len()
        &&& self.finished() ==> self.origin == self.samples.len()
        &&& self.origin > 0 ==> self.samples[self.origin - 1].at_boundary()
        &&& forall|k: int|
            0 <= k < self.samples.len() ==> {
                let s = #[trigger] self.samples[k];
                &&& s.origin <= k
                &&& s.origin <= self.origin
                &&& s.origin > 0 ==> self.samples[s.origin - 1].at_boundary()
                &&& s.segment.spec_length() is Some
            }
    }
}

/// What is sought is found at or after `from`, and is a used slot of a
/// length other than zero, unless the path is over.
pub proof fn lemma_seek(segments: Seq<PathSegmentType>, from: int)
    requires
        0 <= from <= segments.len(),
    ensures
        from <= spec_seek(segments, from) <= segments.len(),
        spec_seek(segments, from) < segments.len() ==> {
            let at = spec_seek(segments, from);
            segments[at].spec_length() is Some && !segments[at].spec_length().unwrap().spec_is_zero()
        },
    decreases segments.len() - from,
{
    if from < segments.len() {
        match segments[from].spec_length() {
            None => {},
            Some(v) => {
                if v.spec_is_zero() {
                    lemma_seek(segments, from + 1);
                }
            },
        }
    }
}

/// A step of a walk keeps what holds of every walk.
pub proof fn lemma_advance_keeps_wf(v: WalkView, next: Scalar)
    requires
        v.wf(),
        v.samples.len() < usize::MAX,
    ensures
        v.advance(next).wf(),
{
    let w = v.advance(next);
    if !v.finished() {
        lemma_seek(v.segments, v.index + 1);
        assert forall|k: int| 0 <= k < w.samples.len() implies {
            let s = #[trigger] w.samples[k];
            &&& s.origin <= k
            &&& s.origin <= w.origin
            &&& s.origin > 0 ==> w.samples[s.origin - 1].at_boundary()
            &&& s.segment.spec_length() is Some
        } by {
            if k < v.samples.len() {
                assert(w.samples[k] == v.samples[k]);
                let s = v.samples[k];
                if s.origin > 0 {
                    assert(w.samples[s.origin - 1] == v.samples[s.origin - 1]);
                }
            } else {
                if v.origin > 0 {
                    assert(w.samples[v.origin - 1] == v.samples[v.origin - 1]);
                }
            }
        }
        if v.within(next) && v.origin > 0 {
            assert(w.samples[v.origin - 1] == v.samples[v.origin - 1]);
        }
    }
}

/// A walk ends if the sums that it is handed make progress. Where the sum is
/// farther from zero than the cursor, a step either leaves fewer slots to
/// walk or, in the same slot, less room between the cursor and the end of
/// the slot; and neither can shrink for ever.
pub proof fn lemma_progress_ends_the_walk(v: WalkView, next: Scalar)
    requires
        v.wf(),
        !v.finished(),
        next.magnitude() > v.cursor.magnitude(),
    ensures
        0 <= v.advance(next).slots_left() <= v.slots_left(),
        v.advance(next).slots_left() == v.slots_left() ==> 0 <= v.advance(next).room() < v.room(),
{
    lemma_seek(v.segments, v.index + 1);
}

/// A step of a walk that is not over decides exactly one sample and leaves
/// the samples decided before as they are.
pub proof fn lemma_samples_only_grow(v: WalkView, next: Scalar)
    requires
        !v.finished(),
    ensures
        v.advance(next).samples.len() == v.samples.len() + 1,
        v.advance(next).samples.take(v.samples.len() as int) == v.samples,
        v.advance(next).samples.last().segment == v.segments[v.index],
        v.advance(next).samples.last().origin == v.origin as usize,
{
    assert(v.advance(next).samples.take(v.samples.len() as int) =~= v.samples);
}

/// A walk never overshoots. Where the sum is no nearer to zero than the
/// cursor, the sample that a step decides lies within its slot: no farther
/// along than the end of the slot, whose length is a number.
pub proof fn lemma_sample_within_slot(v: WalkView, next: Scalar)
    requires
        v.wf(),
        !v.finished(),
        !v.length().spec_is_nan(),
        next.magnitude() >= v.cursor.magnitude(),
    ensures
        v.advance(next).samples.last().offset.spec_abs().spec_le(v.length().spec_abs()),
        !v.within(next) ==> v.advance(next).samples.last().at_boundary(),
{
}

/// A walk that is over and has taken a sample has taken its last sample at
/// the end of a slot: the last pose is the end of the path.
pub proof fn lemma_finished_at_boundary(v: WalkView)
    requires
        v.wf(),
        v.finished(),
        v.samples.len() > 0,
    ensures
        v.samples.last().at_boundary(),
{
}

/// Every sample starts from the start of the path or from the end of a slot
/// walked before, and that pose comes before its own.
pub proof fn lemma_origins(v: WalkView, k: int)
    requires
        v.wf(),
        0 <= k < v.samples.len(),
    ensures
        v.samples[k].origin <= k,
        v.samples[k].origin > 0 ==> v.samples[v.samples[k].origin - 1].at_boundary(),
{
}

/// The walk along a path: which slot it is in, how far along, and the
/// samples decided so far.
pub struct Walk {
    segments: Vec<PathSegmentType>,
    step_size: Scalar,
    index: usize,
    stride: Scalar,
    cursor: Scalar,
    origin: usize,
    samples: Vec<Sample>,
}

impl View for Walk {
    type V = WalkView;

    closed spec fn view(&self) -> WalkView {
        WalkView {
            segments: self.segments@,
            step_size: self.step_size,
            index: self.index as int,
            stride: self.stride,
            cursor: self.cursor,
            origin: self.origin as int,
            samples: self.samples@,
        }
    }
}

/// The first slot from `from` on that is to be walked.
pub fn seek(segments: &Vec<PathSegmentType>, from: usize) -> (r: usize)
    requires
        from <= segments@.len(),
    ensures
        r == spec_seek(segments@, from as int),
        from <= r <= segments@.len(),
        r < segments@.len() ==> segments@[r as int].spec_length() is Some
            && !segments@[r as int].spec_length().unwrap().spec_is_zero(),
{
    let mut i: usize = from;
    while i < segments.len()
        invariant
            from <= i <= segments@.len(),
            spec_seek(segments@, i as int) == spec_seek(segments@, from as int),
        decreases segments@.len() - i,
    {
        match segments[i].length() {
            None => {
                return segments.len();
            },
            Some(v) => {
                if !v.is_zero() {
                    return i;
                }
            },
        }
        i += 1;
    }
    i
}

/// The step along a slot of length `length`.
#[verifier::when_used_as_spec(spec_stride)]
pub fn stride(step_size: Scalar, length: Scalar) -> (r: Scalar)
    ensures
        r == spec_stride(step_size, length),
{
    if length.is_nan() {
        Scalar::nan()
    } else if length.is_sign_negative() {
        step_size.neg()
    } else {
        step_size
    }
}

/// The step along `segments[index]`; where the walk is over, `step_size`.
pub fn stride_at(segments: &Vec<PathSegmentType>, step_size: Scalar, index: usize) -> (r: Scalar)
    ensures
        r == spec_stride_at(segments@, step_size, index as int),
{
    if index < segments.len() {
        match segments[index].length() {
            Some(v) => stride(step_size, v),
            None => step_size,
        }
    } else {
        step_size
    }
}

impl Walk {
    /// A walk along `segments` in steps of `step_size`, before its first
    /// sample.
    pub fn new(segments: &[PathSegmentType], step_size: Scalar) -> (w: Walk)
        ensures
            w@ == WalkView::start(segments@, step_size),
            w@.wf(),
    {
        let mut own: Vec<PathSegmentType> = Vec::new();
        let mut i: usize = 0;
        while i < segments.len()
            invariant
                i <= segments@.len(),
                own@ == segments@.take(i as int),
            decreases segments@.len() - i,
        {
            own.push(segments[i]);
            assert(segments@.take(i as int).push(segments@[i as int]) =~= segments@.take(i + 1));
            i += 1;
        }
        assert(own@ =~= segments@);
        let index = seek(&own, 0);
        let stride = stride_at(&own, step_size, index);
        Walk { segments: own, step_size, index, stride, cursor: stride, origin: 0, samples: Vec::new() }
    }

    /// Whether every sample has been decided.
    pub fn is_finished(&self) -> (r: bool)
        ensures
            r == self@.finished(),
    {
        self.index >= self.segments.len()
    }

    /// The two lengths that the caller is to add for the next call of
    /// [`Walk::advance`], the cursor and the stride, or `None` when the walk
    /// is over.
    pub fn pending(&self) -> (r: Option<(Scalar, Scalar)>)
        ensures
            r == self@.pending(),
    {
        if self.index >= self.segments.len() {
            None
        } else {
            Some((self.cursor, self.stride))
        }
    }

    /// Decides one more sample, `next` being the sum of the two lengths that
    /// are pending.
    pub fn advance(&mut self, next: Scalar)
        requires
            old(self)@.wf(),
        ensures
            final(self)@ == old(self)@.advance(next),
            final(self)@.wf(),
    {
        if self.index >= self.segments.len() {
            return ;
        }
        let segment = self.segments[self.index];
        let length = segment.length().unwrap();
        let ghost before = self@;
        if next.abs().le(length.abs()) {
            self.samples.push(Sample { segment, origin: self.origin, offset: self.cursor });
            self.cursor = next;
        } else {
            self.samples.push(Sample { segment, origin: self.origin, offset: length });
            self.index = seek(&self.segments, self.index + 1);
            self.stride = stride_at(&self.segments, self.step_size, self.index);
            self.cursor = self.stride;
            self.origin = self.samples.len();
        }
        let count = self.samples.len();
        proof {
            assert(before.samples.len() + 1 == count);
            lemma_advance_keeps_wf(before, next);
        }
    }

    /// The samples decided so far.
    pub fn samples(&self) -> (r: &Vec<Sample>)
        ensures
            r@ == self@.samples,
    {
        &self.samples
    }
}

} // verus!
