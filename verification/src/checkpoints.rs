//! Incremental discovery of the ordered cycle of checkpoints, the cursor
//! over it, and the derived tuned aim points that cut corners.

use vstd::prelude::*;

use crate::config::{CARDINAL_DEADBAND, TUNE_AXIS_OFFSET, TUNE_DIAGONAL_OFFSET};
use crate::point::{cardinal_spec, Cardinal, Point};

verus! {

/// The aim for one leg: the checkpoint as reported, and its tuned variant
/// once the map is complete.
#[derive(Clone, Copy, PartialEq, Eq, Structural, Debug)]
pub struct Target {
    pub original: Point,
    pub tuned: Option<Point>,
}

/// The discovered course: checkpoints in first-sighting order, a cursor, a
/// completion flag, and the tuned aim points derived on completion.
#[derive(Debug)]
pub struct Checkpoints {
    pub checkpoints: Vec<Point>,
    pub all_mapped: bool,
    pub current_checkpoint: usize,
    pub tuned_checkpoints: Vec<Point>,
}

/// No point occurs twice in the sequence.
pub open spec fn distinct_seq(s: Seq<Point>) -> bool {
    forall|i: int, j: int| 0 <= i < j < s.len() ==> s[i] != s[j]
}

/// The recorded points after one observation: unchanged on a repeat,
/// appended otherwise.
pub open spec fn observe_points(s: Seq<Point>, p: Point) -> Seq<Point> {
    if s.contains(p) {
        s
    } else {
        s.push(p)
    }
}

/// Whether one observation completes the map: exactly on a repeat.
pub open spec fn observe_mapped(s: Seq<Point>, p: Point) -> bool {
    s.contains(p)
}

/// The recorded points after observing a whole sequence, starting from an
/// empty map.
pub open spec fn record_all(obs: Seq<Point>) -> Seq<Point>
    decreases obs.len(),
{
    if obs.len() == 0 {
        Seq::empty()
    } else {
        observe_points(record_all(obs.drop_last()), obs.last())
    }
}

/// The cursor one step ahead of `i`, wrapping to the start of the cycle.
pub open spec fn next_cursor(i: int, len: int) -> int {
    if i + 1 >= len {
        0
    } else {
        i + 1
    }
}

/// The cursor after `n` single steps from `i`.
pub open spec fn advance_n(i: int, len: int, n: nat) -> int
    decreases n,
{
    if n == 0 {
        i
    } else {
        next_cursor(advance_n(i, len, (n - 1) as nat), len)
    }
}

/// The aim point pulled away from `p`, opposite the direction `dir`.
pub open spec fn offset_opposite(p: Point, dir: Cardinal) -> Point {
    match dir {
        Cardinal::Level => p,
        Cardinal::Up => Point { x: p.x, y: (p.y + TUNE_AXIS_OFFSET) as i64 },
        Cardinal::UpRight => Point {
            x: (p.x - TUNE_DIAGONAL_OFFSET) as i64,
            y: (p.y + TUNE_DIAGONAL_OFFSET) as i64,
        },
        Cardinal::Right => Point { x: (p.x - TUNE_AXIS_OFFSET) as i64, y: p.y },
        Cardinal::DownRight => Point {
            x: (p.x - TUNE_DIAGONAL_OFFSET) as i64,
            y: (p.y - TUNE_DIAGONAL_OFFSET) as i64,
        },
        Cardinal::Down => Point { x: p.x, y: (p.y - TUNE_AXIS_OFFSET) as i64 },
        Cardinal::DownLeft => Point {
            x: (p.x + TUNE_DIAGONAL_OFFSET) as i64,
            y: (p.y - TUNE_DIAGONAL_OFFSET) as i64,
        },
        Cardinal::Left => Point { x: (p.x + TUNE_AXIS_OFFSET) as i64, y: p.y },
        Cardinal::UpLeft => Point {
            x: (p.x + TUNE_DIAGONAL_OFFSET) as i64,
            y: (p.y + TUNE_DIAGONAL_OFFSET) as i64,
        },
    }
}

/// The tuned aim point of a checkpoint, given its successor in traversal
/// order: offset opposite the direction from the checkpoint to the
/// successor. With itself as successor (a course of one checkpoint) the
/// direction is `Level` and the point is unchanged.
pub open spec fn tune_point(p: Point, succ: Point) -> Point {
    offset_opposite(p, cardinal_spec(p, succ, CARDINAL_DEADBAND as int))
}

/// The tuned aim points of a whole course, each derived from the checkpoint
/// and its successor in traversal order.
pub open spec fn tuned_seq(s: Seq<Point>) -> Seq<Point> {
    Seq::new(s.len(), |i: int| tune_point(s[i], s[next_cursor(i, s.len() as int)]))
}

impl Checkpoints {
    /// Well-formedness: the cursor stays inside the recorded cycle, every
    /// recorded point is bounded and recorded once, and a complete map
    /// carries exactly the tuned aim points of its cycle.
    pub open spec fn wf(self) -> bool {
        &&& self.checkpoints@.len() == 0 ==> self.current_checkpoint == 0
        &&& self.checkpoints@.len() > 0 ==> (self.current_checkpoint as int)
            < self.checkpoints@.len()
        &&& forall|i: int|
            0 <= i < self.checkpoints@.len() ==> (#[trigger] self.checkpoints@[i]).fits()
        &&& distinct_seq(self.checkpoints@)
        &&& self.all_mapped ==> self.checkpoints@.len() > 0
        &&& self.all_mapped ==> self.tuned_checkpoints@ == tuned_seq(self.checkpoints@)
        &&& !self.all_mapped ==> self.tuned_checkpoints@.len() == 0
    }

    /// Whether this position has already been recorded.
    pub fn have_we_seen_checkpoint(&self, checkpoint: &Point) -> (seen: bool)
        ensures
            seen == self.checkpoints@.contains(*checkpoint),
    {
        let n = self.checkpoints.len();
        let mut i: usize = 0;
        while i < n
            invariant
                n == self.checkpoints@.len(),
                i <= n,
                forall|k: int| 0 <= k < i ==> self.checkpoints@[k] != *checkpoint,
            decreases n - i,
        {
            if self.checkpoints[i] == *checkpoint {
                assert(self.checkpoints@.contains(*checkpoint));
                return true;
            }
            i += 1;
        }
        assert(!self.checkpoints@.contains(*checkpoint));
        false
    }

    /// Records a newly reported next-checkpoint position. A repeat of a
    /// recorded position closes the lap: the map is marked complete and the
    /// tuned aim points are derived; otherwise the position is appended.
    pub fn add(&mut self, checkpoint: Point)
        requires
            old(self).wf(),
            !old(self).all_mapped,
            checkpoint.fits(),
        ensures
            final(self).wf(),
            final(self).checkpoints@ == observe_points(old(self).checkpoints@, checkpoint),
            final(self).all_mapped == observe_mapped(old(self).checkpoints@, checkpoint),
            final(self).current_checkpoint == old(self).current_checkpoint,
            final(self).all_mapped ==> final(self).tuned_checkpoints@ == tuned_seq(
                final(self).checkpoints@,
            ),
            !final(self).all_mapped ==> final(self).tuned_checkpoints@ == old(
                self,
            ).tuned_checkpoints@,
    {
        if self.have_we_seen_checkpoint(&checkpoint) {
            self.all_mapped = true;
            self.tune_checkpoints();
        } else {
            self.checkpoints.push(checkpoint);
            proof {
                let s = old(self).checkpoints@;
                assert forall|i: int, j: int|
                    0 <= i < j < self.checkpoints@.len() implies self.checkpoints@[i]
                    != self.checkpoints@[j] by {
                    if j < s.len() {
                        assert(s[i] != s[j]);
                    } else {
                        assert(self.checkpoints@[j] == checkpoint);
                        assert(!s.contains(checkpoint));
                        assert(s[i] == self.checkpoints@[i]);
                    }
                }
            }
        }
    }

    /// Moves the cursor one checkpoint forward, wrapping to the start of the
    /// cycle.
    pub fn next(&mut self)
        requires
            old(self).wf(),
        ensures
            final(self).wf(),
            final(self).checkpoints@ == old(self).checkpoints@,
            final(self).all_mapped == old(self).all_mapped,
            final(self).tuned_checkpoints@ == old(self).tuned_checkpoints@,
            final(self).current_checkpoint == next_cursor(
                old(self).current_checkpoint as int,
                old(self).checkpoints@.len() as int,
            ),
    {
        let len = self.checkpoints.len();
        self.current_checkpoint += 1;
        if self.current_checkpoint >= len {
            self.current_checkpoint = 0;
        }
    }

    /// The checkpoint under the cursor, with its tuned aim point once the
    /// map is complete.
    pub fn get(&self) -> (t: Target)
        requires
            self.wf(),
            self.checkpoints@.len() > 0,
        ensures
            t.original == self.checkpoints@[self.current_checkpoint as int],
            t.tuned == (if self.all_mapped {
                Some(tuned_seq(self.checkpoints@)[self.current_checkpoint as int])
            } else {
                Option::<Point>::None
            }),
    {
        let original = self.checkpoints[self.current_checkpoint];
        let tuned = if self.current_checkpoint < self.tuned_checkpoints.len() {
            Some(self.tuned_checkpoints[self.current_checkpoint])
        } else {
            None
        };
        Target { original, tuned }
    }

    /// The checkpoint one step ahead of the cursor, without moving it.
    pub fn get_next(&self) -> (p: Point)
        requires
            self.wf(),
            self.checkpoints@.len() > 0,
        ensures
            p == self.checkpoints@[next_cursor(
                self.current_checkpoint as int,
                self.checkpoints@.len() as int,
            )],
    {
        let len = self.checkpoints.len();
        let idx = if self.current_checkpoint + 1 >= len {
            0
        } else {
            self.current_checkpoint + 1
        };
        self.checkpoints[idx]
    }

    /// Derives the tuned aim point of every recorded checkpoint from its
    /// successor in traversal order. With fewer than two checkpoints this
    /// leaves every aim point at the checkpoint itself.
    pub fn tune_checkpoints(&mut self)
        requires
            forall|i: int|
                0 <= i < old(self).checkpoints@.len() ==> (#[trigger] old(
                    self,
                ).checkpoints@[i]).fits(),
        ensures
            final(self).checkpoints@ == old(self).checkpoints@,
            final(self).all_mapped == old(self).all_mapped,
            final(self).current_checkpoint == old(self).current_checkpoint,
            final(self).tuned_checkpoints@ == tuned_seq(old(self).checkpoints@),
    {
        let n = self.checkpoints.len();
        let mut tuned: Vec<Point> = Vec::new();
        let mut i: usize = 0;
        while i < n
            invariant
                *self == *old(self),
                n == self.checkpoints@.len(),
                i <= n,
                forall|k: int|
                    0 <= k < old(self).checkpoints@.len() ==> (#[trigger] old(
                        self,
                    ).checkpoints@[k]).fits(),
                tuned@.len() == i,
                forall|k: int| 0 <= k < i ==> tuned@[k] == tuned_seq(self.checkpoints@)[k],
            decreases n - i,
        {
            let p = self.checkpoints[i];
            let succ_idx = if i + 1 >= n {
                0
            } else {
                i + 1
            };
            let succ = self.checkpoints[succ_idx];
            let dir = p.cardinal(succ, CARDINAL_DEADBAND);
            let t = offset_point(p, dir);
            tuned.push(t);
            proof {
                assert(tuned@[i as int] == tuned_seq(self.checkpoints@)[i as int]);
            }
            i += 1;
        }
        proof {
            assert(tuned@ =~= tuned_seq(self.checkpoints@));
        }
        self.tuned_checkpoints = tuned;
    }
}

impl Default for Checkpoints {
    /// An empty map: nothing recorded, cursor at the start, incomplete.
    fn default() -> (m: Checkpoints)
        ensures
            m.checkpoints@.len() == 0,
            !m.all_mapped,
            m.current_checkpoint == 0,
            m.tuned_checkpoints@.len() == 0,
            m.wf(),
    {
        Checkpoints {
            checkpoints: Vec::new(),
            all_mapped: false,
            current_checkpoint: 0,
            tuned_checkpoints: Vec::new(),
        }
    }
}

/// The exec offset of an aim point opposite a direction.
fn offset_point(p: Point, dir: Cardinal) -> (r: Point)
    requires
        p.fits(),
    ensures
        r == offset_opposite(p, dir),
{
    match dir {
        Cardinal::Level => p,
        Cardinal::Up => Point { x: p.x, y: p.y + TUNE_AXIS_OFFSET },
        Cardinal::UpRight => Point { x: p.x - TUNE_DIAGONAL_OFFSET, y: p.y + TUNE_DIAGONAL_OFFSET },
        Cardinal::Right => Point { x: p.x - TUNE_AXIS_OFFSET, y: p.y },
        Cardinal::DownRight => Point {
            x: p.x - TUNE_DIAGONAL_OFFSET,
            y: p.y - TUNE_DIAGONAL_OFFSET,
        },
        Cardinal::Down => Point { x: p.x, y: p.y - TUNE_AXIS_OFFSET },
        Cardinal::DownLeft => Point { x: p.x + TUNE_DIAGONAL_OFFSET, y: p.y - TUNE_DIAGONAL_OFFSET },
        Cardinal::Left => Point { x: p.x + TUNE_AXIS_OFFSET, y: p.y },
        Cardinal::UpLeft => Point { x: p.x + TUNE_DIAGONAL_OFFSET, y: p.y + TUNE_DIAGONAL_OFFSET },
    }
}

/// Law: observing a sequence of pairwise-distinct points records exactly
/// that sequence — the map's order is first-sighting order.
pub proof fn lemma_first_sighting_order(obs: Seq<Point>)
    requires
        distinct_seq(obs),
    ensures
        record_all(obs) == obs,
    decreases obs.len(),
{
    if obs.len() > 0 {
        let rest = obs.drop_last();
        assert(distinct_seq(rest)) by {
            assert(forall|i: int|
                0 <= i < rest.len() ==> rest[i] == #[trigger] obs[i]);
        }
        lemma_first_sighting_order(rest);
        assert(!rest.contains(obs.last())) by {
            if rest.contains(obs.last()) {
                let i = choose|i: int| 0 <= i < rest.len() && rest[i] == obs.last();
                assert(obs[i] == obs[obs.len() - 1]);
            }
        }
        assert(record_all(obs) =~= obs);
    } else {
        assert(record_all(obs) =~= obs);
    }
}

/// Law: while the observed points are pairwise distinct, no observation
/// marks the map complete; completion comes exactly with the first repeat.
pub proof fn lemma_completes_exactly_on_first_repeat(obs: Seq<Point>, p: Point)
    requires
        distinct_seq(obs),
    ensures
        forall|k: int|
            0 <= k < obs.len() ==> !observe_mapped(record_all(#[trigger] obs.take(k)), obs[k]),
        observe_mapped(record_all(obs), p) <==> obs.contains(p),
        obs.contains(p) ==> observe_points(record_all(obs), p) == obs,
{
    lemma_first_sighting_order(obs);
    assert forall|k: int|
        0 <= k < obs.len() implies !observe_mapped(record_all(obs.take(k)), obs[k]) by {
        let pre = obs.take(k);
        assert(distinct_seq(pre)) by {
            assert(forall|i: int| 0 <= i < pre.len() ==> pre[i] == #[trigger] obs[i]);
        }
        lemma_first_sighting_order(pre);
        if pre.contains(obs[k]) {
            let i = choose|i: int| 0 <= i < pre.len() && pre[i] == obs[k];
            assert(obs[i] == obs[k]);
        }
    }
}

/// Law: starting anywhere inside a cycle of `len` checkpoints, advancing the
/// cursor `len` times returns it to its starting value.
pub proof fn lemma_advance_cycle(i: int, len: int)
    requires
        0 <= i < len,
    ensures
        advance_n(i, len, len as nat) == i,
{
    let j = (len - i) as nat;
    lemma_advance_no_wrap(i, len, (j - 1) as nat);
    assert(advance_n(i, len, j) == 0);
    lemma_advance_split(i, len, j, i as nat);
    assert(j + i as nat == len as nat);
    lemma_advance_no_wrap(0, len, i as nat);
}

/// Advancing without reaching the end of the cycle just adds the steps.
proof fn lemma_advance_no_wrap(i: int, len: int, k: nat)
    requires
        0 <= i,
        i + k < len,
    ensures
        advance_n(i, len, k) == i + k,
    decreases k,
{
    if k > 0 {
        lemma_advance_no_wrap(i, len, (k - 1) as nat);
    }
}

/// Advancing `m + n` steps is advancing `m` steps and then `n` more.
proof fn lemma_advance_split(i: int, len: int, m: nat, n: nat)
    ensures
        advance_n(i, len, m + n) == advance_n(advance_n(i, len, m), len, n),
    decreases n,
{
    if n > 0 {
        lemma_advance_split(i, len, m, (n - 1) as nat);
        assert(m + n - 1 == m + (n - 1) as nat);
    }
}

/// Law: tuning is idempotent — recomputing the tuned aim points of an
/// unchanged, already tuned checkpoint set yields the same offsets.
pub proof fn lemma_tuning_idempotent(before: Checkpoints, after: Checkpoints)
    requires
        before.wf(),
        before.all_mapped,
        after.checkpoints@ == before.checkpoints@,
        after.tuned_checkpoints@ == tuned_seq(after.checkpoints@),
    ensures
        after.tuned_checkpoints@ == before.tuned_checkpoints@,
{
}

} // verus!
