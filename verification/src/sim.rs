//! The per-frame commit protocol and vehicle retirement.
//!
//! Each frame, every vehicle's move is first computed tentatively from a
//! frame-start snapshot, so no vehicle observes another's already-committed
//! move.  A tentative move is committed only when it keeps the safe
//! following distance to every same-direction vehicle ahead and collides
//! with nobody; a rejected vehicle keeps its frame-start state and retries
//! next frame.  Vehicles far enough off-screen are then retired.

use vstd::prelude::*;
use crate::geometry::spec_overlaps;
use crate::scheduler::{
    Lights, Scheduler, spec_governing, spec_green_count, spec_green_frames, spec_lights_after_rollover,
    spec_phase_direction, spec_queued_count,
};
use crate::vehicle::{
    Direction, Vehicle, spec_step, wf_vehicle, vehicle_in_bounds, vehicle_in_bounds_loose,
};
use crate::{SAFE_DISTANCE, BOARD_SIZE, RETIRE_MARGIN};

verus! {

/// The tentative state of every vehicle: each advanced one frame against the
/// light governing its frame-start direction.
pub open spec fn spec_tentative(s: Seq<Vehicle>, lights: Lights) -> Seq<Vehicle> {
    s.map(|i: int, v: Vehicle| spec_step(v, spec_governing(lights, v.direction)))
}

/// Signed longitudinal gap from `cur`'s leading edge to `other`'s trailing
/// edge, measured along `cur`'s travel axis; nonnegative exactly when
/// `other` lies ahead of `cur`.
pub open spec fn spec_gap_ahead(cur: Vehicle, other: Vehicle) -> int {
    match cur.direction {
        Direction::North => cur.rect.y - (other.rect.y + other.rect.h),
        Direction::South => other.rect.y - (cur.rect.y + cur.rect.h),
        Direction::East => other.rect.x - (cur.rect.x + cur.rect.w),
        Direction::West => cur.rect.x - (other.rect.x + other.rect.w),
    }
}

/// Vehicle `i` of the tentative set is too close behind some same-direction
/// vehicle: another tentative vehicle lies ahead of it with a gap under
/// `SAFE_DISTANCE`.
pub open spec fn spec_blocked(s: Seq<Vehicle>, i: int) -> bool {
    exists |j: int| {
        &&& 0 <= j < s.len()
        &&& j != i
        &&& (#[trigger] s[j]).direction == s[i].direction
        &&& 0 <= spec_gap_ahead(s[i], s[j]) < SAFE_DISTANCE
    }
}

/// The collision check deliberately skips a pair while either vehicle is
/// inside the intersection and neither has completed its turn: vehicles
/// converging toward different turn paths are assumed non-colliding until
/// one commits to a heading.
pub open spec fn spec_pair_skipped(a: Vehicle, b: Vehicle) -> bool {
    (a.in_intersection || b.in_intersection) && !a.has_turned && !b.has_turned
}

/// Two tentative vehicles collide: the pair is not skipped and their
/// rectangles overlap.
pub open spec fn spec_pair_collides(a: Vehicle, b: Vehicle) -> bool {
    !spec_pair_skipped(a, b) && spec_overlaps(a.rect, b.rect)
}

/// Vehicle `i` of the tentative set collides with some other vehicle.
pub open spec fn spec_collided(s: Seq<Vehicle>, i: int) -> bool {
    exists |j: int| 0 <= j < s.len() && j != i && spec_pair_collides(s[i], #[trigger] s[j])
}

/// Vehicle `i`'s tentative move is committed: it is neither too close
/// behind a same-direction vehicle nor colliding.
pub open spec fn spec_committed(s: Seq<Vehicle>, i: int) -> bool {
    !spec_blocked(s, i) && !spec_collided(s, i)
}

/// The whole active set after one commit pass: vehicle `i` becomes its
/// tentative state exactly when that move was committed, and keeps its
/// frame-start state otherwise.
pub open spec fn spec_commit(s: Seq<Vehicle>, lights: Lights) -> Seq<Vehicle> {
    Seq::new(s.len(), |i: int| {
        if spec_committed(spec_tentative(s, lights), i) {
            spec_tentative(s, lights)[i]
        } else {
            s[i]
        }
    })
}

/// A vehicle is still within the generous off-screen margin in its
/// direction of travel; once it is not, it can never re-enter and is
/// retired.
pub open spec fn spec_on_screen(v: Vehicle) -> bool {
    match v.direction {
        Direction::North => v.rect.y > -RETIRE_MARGIN,
        Direction::South => v.rect.y < BOARD_SIZE + RETIRE_MARGIN,
        Direction::East => v.rect.x < BOARD_SIZE + RETIRE_MARGIN,
        Direction::West => v.rect.x > -RETIRE_MARGIN,
    }
}

/// The vehicles that survive one retirement pass, in order.
pub open spec fn spec_retained(s: Seq<Vehicle>) -> Seq<Vehicle> {
    s.filter(|v: Vehicle| spec_on_screen(v))
}

/// One frame of the commit protocol over the whole active set: compute every
/// tentative move from the frame-start snapshot, then replace exactly the
/// vehicles whose move was committed; every other vehicle keeps its
/// frame-start state.
pub fn step_vehicles(vehicles: &mut Vec<Vehicle>, lights: &Lights)
    requires
        forall |k: int| 0 <= k < old(vehicles)@.len()
            ==> wf_vehicle(#[trigger] old(vehicles)@[k]) && vehicle_in_bounds(old(vehicles)@[k]),
    ensures
        final(vehicles)@ == spec_commit(old(vehicles)@, *lights),
        final(vehicles)@.len() == old(vehicles)@.len(),
        forall |k: int| 0 <= k < final(vehicles)@.len()
            ==> wf_vehicle(#[trigger] final(vehicles)@[k])
                && vehicle_in_bounds_loose(final(vehicles)@[k]),
{
    let ghost orig = vehicles@;
    let ghost tspec = spec_tentative(orig, *lights);
    let n = vehicles.len();

    let mut tentatives: Vec<Vehicle> = Vec::new();
    let mut i: usize = 0;
    while i < n
        invariant
            vehicles@ == orig,
            n == orig.len(),
            0 <= i <= n,
            tspec == spec_tentative(orig, *lights),
            tentatives@.len() == i,
            forall |k: int| 0 <= k < n
                ==> wf_vehicle(#[trigger] orig[k]) && vehicle_in_bounds(orig[k]),
            forall |k: int| 0 <= k < i ==> #[trigger] tentatives@[k] == tspec[k],
            forall |k: int| 0 <= k < i
                ==> wf_vehicle(#[trigger] tentatives@[k])
                    && vehicle_in_bounds_loose(tentatives@[k]),
        decreases n - i,
    {
        let mut tv = vehicles[i];
        let light = lights.governing(tv.direction);
        tv.update(light);
        tentatives.push(tv);
        i = i + 1;
    }

    let mut committed: Vec<bool> = Vec::new();
    let mut i: usize = 0;
    while i < n
        invariant
            vehicles@ == orig,
            n == orig.len(),
            0 <= i <= n,
            tspec.len() == n,
            tentatives@.len() == n,
            forall |k: int| 0 <= k < n ==> #[trigger] tentatives@[k] == tspec[k],
            forall |k: int| 0 <= k < n
                ==> wf_vehicle(#[trigger] tentatives@[k])
                    && vehicle_in_bounds_loose(tentatives@[k]),
            committed@.len() == i,
            forall |k: int| 0 <= k < i
                ==> #[trigger] committed@[k] == spec_committed(tspec, k),
        decreases n - i,
    {
        let cur = tentatives[i];
        let mut blocked = false;
        let mut coll = false;
        let mut j: usize = 0;
        while j < n
            invariant
                n == tspec.len(),
                tentatives@.len() == n,
                0 <= i < n,
                0 <= j <= n,
                cur == tspec[i as int],
                wf_vehicle(cur),
                vehicle_in_bounds_loose(cur),
                forall |k: int| 0 <= k < n ==> #[trigger] tentatives@[k] == tspec[k],
                forall |k: int| 0 <= k < n
                    ==> wf_vehicle(#[trigger] tentatives@[k])
                        && vehicle_in_bounds_loose(tentatives@[k]),
                blocked == exists |m: int| {
                    &&& 0 <= m < j
                    &&& m != i
                    &&& (#[trigger] tspec[m]).direction == tspec[i as int].direction
                    &&& 0 <= spec_gap_ahead(tspec[i as int], tspec[m]) < SAFE_DISTANCE
                },
                coll == exists |m: int| 0 <= m < j && m != i
                    && spec_pair_collides(tspec[i as int], #[trigger] tspec[m]),
            decreases n - j,
        {
            if j != i {
                let other = tentatives[j];
                if other.direction == cur.direction {
                    let distance = match cur.direction {
                        Direction::North => cur.rect.y - (other.rect.y + other.rect.h as i32),
                        Direction::South => other.rect.y - (cur.rect.y + cur.rect.h as i32),
                        Direction::East => other.rect.x - (cur.rect.x + cur.rect.w as i32),
                        Direction::West => cur.rect.x - (other.rect.x + other.rect.w as i32),
                    };
                    if distance >= 0 && distance < SAFE_DISTANCE {
                        blocked = true;
                    }
                }
                let skip = (cur.in_intersection || other.in_intersection)
                    && !cur.has_turned && !other.has_turned;
                if !skip {
                    if cur.rect.has_intersection(&other.rect) {
                        coll = true;
                    }
                }
            }
            j = j + 1;
        }
        committed.push(!blocked && !coll);
        i = i + 1;
    }

    let mut i: usize = 0;
    while i < n
        invariant
            n == orig.len(),
            0 <= i <= n,
            vehicles@.len() == n,
            tspec.len() == n,
            tentatives@.len() == n,
            committed@.len() == n,
            forall |k: int| 0 <= k < n ==> #[trigger] tentatives@[k] == tspec[k],
            forall |k: int| 0 <= k < n
                ==> #[trigger] committed@[k] == spec_committed(tspec, k),
            forall |k: int| 0 <= k < n
                ==> wf_vehicle(#[trigger] orig[k]) && vehicle_in_bounds(orig[k]),
            forall |k: int| 0 <= k < n
                ==> wf_vehicle(#[trigger] tentatives@[k])
                    && vehicle_in_bounds_loose(tentatives@[k]),
            forall |k: int| 0 <= k < i
                ==> #[trigger] vehicles@[k] == (
                    if spec_committed(tspec, k) { tspec[k] } else { orig[k] }),
            forall |k: int| i <= k < n ==> #[trigger] vehicles@[k] == orig[k],
        decreases n - i,
    {
        if committed[i] {
            let tv = tentatives[i];
            vehicles.set(i, tv);
        }
        i = i + 1;
    }
    proof {
        assert(vehicles@ =~= spec_commit(orig, *lights));
    }
}

/// Whether every active vehicle satisfies the structural invariant and the
/// coordinate bound that [`step_vehicles`] requires.  An unverified caller
/// can test this before handing the set to the frame step.
pub fn all_vehicles_well_formed(vehicles: &Vec<Vehicle>) -> (r: bool)
    ensures
        r == (forall |k: int| 0 <= k < vehicles@.len()
            ==> wf_vehicle(#[trigger] vehicles@[k]) && vehicle_in_bounds(vehicles@[k])),
{
    let n = vehicles.len();
    let mut i: usize = 0;
    while i < n
        invariant
            n == vehicles@.len(),
            0 <= i <= n,
            forall |k: int| 0 <= k < i
                ==> wf_vehicle(#[trigger] vehicles@[k]) && vehicle_in_bounds(vehicles@[k]),
        decreases n - i,
    {
        if !crate::vehicle::is_well_formed(&vehicles[i]) {
            return false;
        }
        i = i + 1;
    }
    true
}

/// Whether a vehicle is still within the retirement margin: exactly
/// [`spec_on_screen`].
pub fn is_on_screen(vehicle: &Vehicle) -> (r: bool)
    ensures
        r == spec_on_screen(*vehicle),
{
    match vehicle.direction {
        Direction::North => vehicle.rect.y > -RETIRE_MARGIN,
        Direction::South => vehicle.rect.y < BOARD_SIZE + RETIRE_MARGIN,
        Direction::East => vehicle.rect.x < BOARD_SIZE + RETIRE_MARGIN,
        Direction::West => vehicle.rect.x > -RETIRE_MARGIN,
    }
}

/// How one filter step extends over one more element.
proof fn lemma_filter_push<A>(s: Seq<A>, p: spec_fn(A) -> bool, x: A)
    ensures
        s.push(x).filter(p) == (if p(x) { s.filter(p).push(x) } else { s.filter(p) }),
{
    assert(s.push(x).drop_last() =~= s);
    assert(s.push(x).last() == x);
    reveal_with_fuel(Seq::filter, 2);
}

/// A sequence whose every element satisfies the predicate is its own filter.
proof fn lemma_filter_all<A>(s: Seq<A>, p: spec_fn(A) -> bool)
    requires
        forall |i: int| 0 <= i < s.len() ==> p(#[trigger] s[i]),
    ensures
        s.filter(p) == s,
    decreases s.len(),
{
    reveal_with_fuel(Seq::filter, 2);
    if s.len() == 0 {
        assert(s.filter(p) =~= s);
    } else {
        lemma_filter_all(s.drop_last(), p);
        assert(p(s.last()));
        assert(s.drop_last().push(s.last()) =~= s);
        lemma_filter_push(s.drop_last(), p, s.last());
    }
}

/// Filtering keeps only elements of the original sequence, so a property of
/// every element survives it.
proof fn lemma_filter_preserves_all<A>(s: Seq<A>, p: spec_fn(A) -> bool, q: spec_fn(A) -> bool)
    requires
        forall |i: int| 0 <= i < s.len() ==> q(#[trigger] s[i]),
    ensures
        forall |i: int| 0 <= i < s.filter(p).len() ==> q(#[trigger] s.filter(p)[i]),
    decreases s.len(),
{
    reveal_with_fuel(Seq::filter, 2);
    if s.len() != 0 {
        lemma_filter_preserves_all(s.drop_last(), p, q);
        let sub = s.drop_last().filter(p);
        assert forall |i: int| 0 <= i < s.filter(p).len() implies q(#[trigger] s.filter(p)[i]) by {
            if p(s.last()) {
                assert(s.filter(p) == sub.push(s.last()));
                if i < sub.len() {
                    assert(s.filter(p)[i] == sub[i]);
                } else {
                    assert(s.filter(p)[i] == s.last());
                }
            } else {
                assert(s.filter(p) == sub);
            }
        }
    }
}

/// Remove every vehicle that has left the retirement margin; the survivors
/// keep their order and their state.
pub fn retire(vehicles: &mut Vec<Vehicle>)
    ensures
        final(vehicles)@ == spec_retained(old(vehicles)@),
{
    let ghost orig = vehicles@;
    let n = vehicles.len();
    let mut kept: Vec<Vehicle> = Vec::new();
    let mut i: usize = 0;
    while i < n
        invariant
            vehicles@ == orig,
            n == orig.len(),
            0 <= i <= n,
            kept@ == orig.take(i as int).filter(|v: Vehicle| spec_on_screen(v)),
        decreases n - i,
    {
        let v = vehicles[i];
        proof {
            assert(orig.take(i as int + 1).drop_last() =~= orig.take(i as int));
            assert(orig.take(i as int + 1).last() == orig[i as int]);
            lemma_filter_push(orig.take(i as int), |u: Vehicle| spec_on_screen(u), orig[i as int]);
            assert(orig.take(i as int).push(orig[i as int]) =~= orig.take(i as int + 1));
        }
        if is_on_screen(&v) {
            kept.push(v);
        }
        i = i + 1;
    }
    proof {
        assert(orig.take(n as int) =~= orig);
    }
    *vehicles = kept;
}

/// Law: retirement is idempotent.  Pruning the off-screen vehicles twice in
/// a row, with no advance in between, leaves exactly the set the first pass
/// left.
pub proof fn lemma_retire_idempotent(s: Seq<Vehicle>)
    ensures
        spec_retained(spec_retained(s)) == spec_retained(s),
{
    let p = |v: Vehicle| spec_on_screen(v);
    assert forall |i: int| 0 <= i < spec_retained(s).len() implies p(#[trigger] spec_retained(s)[i]) by {
        s.lemma_filter_pred(p, i);
    }
    lemma_filter_all(spec_retained(s), p);
}

/// Law: the one-shot flags stay monotone across a whole committed frame.
/// Whether vehicle `k`'s tentative move was committed or discarded, a flag
/// that was true at frame start is still true afterward.
pub proof fn lemma_frame_flags_monotone(
    before: Seq<Vehicle>,
    after: Seq<Vehicle>,
    lights: Lights,
    k: int,
)
    requires
        after == spec_commit(before, lights),
        0 <= k < before.len(),
    ensures
        before[k].has_turned ==> after[k].has_turned,
        before[k].in_intersection ==> after[k].in_intersection,
{
    crate::vehicle::lemma_flags_monotone(
        before[k],
        spec_governing(lights, before[k].direction),
    );
}

/// Law: the committed frame keeps the following distance.  If the frame
/// relation of [`step_vehicles`] holds between `before` and `after`, vehicle
/// `j` lies ahead of vehicle `i` on the same travel direction, and `j`'s
/// tentative move was itself committed, then either `i` did not move this
/// frame or the gap between the two is at least `SAFE_DISTANCE`.
pub proof fn lemma_following_distance(
    before: Seq<Vehicle>,
    after: Seq<Vehicle>,
    lights: Lights,
    i: int,
    j: int,
)
    requires
        after == spec_commit(before, lights),
        0 <= i < before.len(),
        0 <= j < before.len(),
        i != j,
        after[i].direction == after[j].direction,
        spec_gap_ahead(after[i], after[j]) >= 0,
        spec_committed(spec_tentative(before, lights), j),
    ensures
        after[i] == before[i] || spec_gap_ahead(after[i], after[j]) >= SAFE_DISTANCE,
{
    let t = spec_tentative(before, lights);
    if spec_committed(t, i) {
        assert(after[i] == t[i]);
        assert(after[j] == t[j]);
        assert(!spec_blocked(t, i));
        assert(!(0 <= spec_gap_ahead(t[i], t[j]) < SAFE_DISTANCE));
    }
}

/// One whole simulation frame, in the order the control flow prescribes:
/// the scheduler advances the light phase against the frame-start vehicle
/// set, every vehicle's tentative move is validated and committed against
/// the updated lights, and the far-off-screen vehicles are retired.
pub fn run_frame(scheduler: &mut Scheduler, lights: &mut Lights, vehicles: &mut Vec<Vehicle>)
    requires
        old(scheduler).n < i32::MAX,
        old(scheduler).current_light < 4,
        old(vehicles)@.len() <= 10_000,
        forall |k: int| 0 <= k < old(vehicles)@.len()
            ==> wf_vehicle(#[trigger] old(vehicles)@[k]) && vehicle_in_bounds(old(vehicles)@[k]),
    ensures
        final(scheduler).current_light < 4,
        old(scheduler).n + 1 <= old(scheduler).green_timer ==> {
            &&& *final(lights) == *old(lights)
            &&& *final(scheduler) == (Scheduler {
                    n: (old(scheduler).n + 1) as i32,
                    ..*old(scheduler)
                })
        },
        old(scheduler).n + 1 > old(scheduler).green_timer ==> {
            let d = spec_phase_direction(old(scheduler).current_light);
            &&& final(scheduler).n == 0
            &&& final(scheduler).green_timer == spec_green_frames(old(vehicles)@, d)
            &&& final(scheduler).current_light == (old(scheduler).current_light + 1) % 4
            &&& spec_lights_after_rollover(
                    *old(lights),
                    *final(lights),
                    d,
                    spec_queued_count(old(vehicles)@, d) > 0,
                )
        },
        spec_green_count(*old(lights)) <= 1 ==> spec_green_count(*final(lights)) <= 1,
        final(vehicles)@ == spec_retained(spec_commit(old(vehicles)@, *final(lights))),
        forall |k: int| 0 <= k < final(vehicles)@.len()
            ==> wf_vehicle(#[trigger] final(vehicles)@[k])
                && vehicle_in_bounds_loose(final(vehicles)@[k]),
{
    scheduler.tick(lights, vehicles);
    step_vehicles(vehicles, lights);
    let ghost committed = vehicles@;
    retire(vehicles);
    proof {
        lemma_filter_preserves_all(
            committed,
            |v: Vehicle| spec_on_screen(v),
            |v: Vehicle| wf_vehicle(v) && vehicle_in_bounds_loose(v),
        );
    }
}

} // verus!
