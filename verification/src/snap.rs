//! The snap engine: closest-anchor searches over line endpoints, with
//! exclusion sets, and the coincident-point query that powers group drags.
//!
//! Every search scans the endpoints of the lines in element order, start
//! before end, keeps the strictly smallest distance seen so far, and so
//! resolves exact ties to the candidate encountered first.

use vstd::prelude::*;

use crate::geometry::Line;
use crate::geometry::Point;
use crate::geometry::MATCH_EPSILON;
use crate::geometry::coincident;
use crate::geometry::dist_sq;
use crate::geometry::is_strictly_within;
use crate::geometry::strictly_within;
use crate::geometry::within;

verus! {

/// The candidate anchors of a line collection: for each line, in element
/// order, its start endpoint then its end endpoint, each tagged with the
/// line's index and an is-start flag.
pub open spec fn line_candidates(lines: Seq<Line>) -> Seq<(usize, bool, Point)> {
    Seq::new(
        2 * lines.len(),
        |k: int|
            if k % 2 == 0 {
                ((k / 2) as usize, true, lines[k / 2].start)
            } else {
                ((k / 2) as usize, false, lines[k / 2].end)
            },
    )
}

/// A position is excluded when it coincides with any entry of the exclusion
/// set (a dragged group's original endpoint positions).
pub open spec fn is_excluded(p: Point, exclude: Seq<(usize, bool, Point)>) -> bool {
    exists|j: int| 0 <= j < exclude.len() && coincident(p, #[trigger] exclude[j].2)
}

/// One left-to-right scan over the candidates: a candidate replaces the best
/// seen so far exactly when it is not excluded and its squared distance to
/// the target is strictly below the current bound, which then tightens to
/// that distance.  Ties therefore keep the earlier candidate.
pub open spec fn closest_scan(
    target: Point,
    cands: Seq<(usize, bool, Point)>,
    exclude: Seq<(usize, bool, Point)>,
    best: Option<(usize, bool, Point)>,
    bound: int,
) -> Option<(usize, bool, Point)>
    decreases cands.len(),
{
    if cands.len() == 0 {
        best
    } else {
        let c = cands[0];
        if !is_excluded(c.2, exclude) && dist_sq(target, c.2) < bound {
            closest_scan(target, cands.drop_first(), exclude, Some(c), dist_sq(target, c.2))
        } else {
            closest_scan(target, cands.drop_first(), exclude, best, bound)
        }
    }
}

/// The creation-time snap: the closest endpoint strictly within `radius` of
/// the target, or `None` when no endpoint is that close.
pub open spec fn closest_point_spec(target: Point, lines: Seq<Line>, radius: int) -> Option<
    Point,
> {
    if radius > 0 {
        match closest_scan(target, line_candidates(lines), Seq::empty(), None, radius * radius) {
            Some(c) => Some(c.2),
            None => None,
        }
    } else {
        None
    }
}

/// The drag pick: the line index and endpoint flag of the closest endpoint
/// within `radius` of the target, boundary included.
pub open spec fn closest_for_drag_spec(target: Point, lines: Seq<Line>, radius: int) -> Option<
    (usize, bool),
> {
    if radius >= 0 {
        match closest_scan(
            target,
            line_candidates(lines),
            Seq::empty(),
            None,
            radius * radius + 1,
        ) {
            Some(c) => Some((c.0, c.1)),
            None => None,
        }
    } else {
        None
    }
}

/// The drag-time snap: the closest non-excluded endpoint within `radius` of
/// the target, boundary included.
pub open spec fn closest_excluding_spec(
    lines: Seq<Line>,
    target: Point,
    radius: int,
    exclude: Seq<(usize, bool, Point)>,
) -> Option<Point> {
    if radius >= 0 {
        match closest_scan(target, line_candidates(lines), exclude, None, radius * radius + 1) {
            Some(c) => Some(c.2),
            None => None,
        }
    } else {
        None
    }
}

/// What a [`closest_scan`] result means: it is the best value handed in or a
/// candidate from the sequence; any result is non-excluded, within the bound,
/// and no non-excluded candidate is strictly closer; and a `None` result
/// means nothing eligible was within the bound.
pub proof fn lemma_scan_props(
    target: Point,
    cands: Seq<(usize, bool, Point)>,
    exclude: Seq<(usize, bool, Point)>,
    best: Option<(usize, bool, Point)>,
    bound: int,
)
    requires
        best matches Some(b) ==> bound == dist_sq(target, b.2) && !is_excluded(b.2, exclude),
    ensures
        ({
            let r = closest_scan(target, cands, exclude, best, bound);
            &&& r == best || exists|k: int| 0 <= k < cands.len() && r == Some(#[trigger] cands[k])
            &&& r != best ==> (r matches Some(c) && dist_sq(target, c.2) < bound)
            &&& r matches Some(c) ==> !is_excluded(c.2, exclude) && dist_sq(target, c.2) <= bound
            &&& r matches Some(c) ==> forall|k: int|
                0 <= k < cands.len() && !is_excluded(#[trigger] cands[k].2, exclude) ==> dist_sq(
                    target,
                    c.2,
                ) <= dist_sq(target, cands[k].2)
            &&& r is None ==> best is None
            &&& r is None ==> forall|k: int|
                0 <= k < cands.len() ==> is_excluded(#[trigger] cands[k].2, exclude) || dist_sq(
                    target,
                    cands[k].2,
                ) >= bound
        }),
    decreases cands.len(),
{
    if cands.len() == 0 {
    } else {
        let c0 = cands[0];
        let rest = cands.drop_first();
        let r = closest_scan(target, cands, exclude, best, bound);
        assert(forall|k: int| 0 <= k < rest.len() ==> #[trigger] rest[k] == cands[k + 1]);
        if !is_excluded(c0.2, exclude) && dist_sq(target, c0.2) < bound {
            let d0 = dist_sq(target, c0.2);
            lemma_scan_props(target, rest, exclude, Some(c0), d0);
            assert(r == closest_scan(target, rest, exclude, Some(c0), d0));
            if r == Some(c0) {
                assert(r == Some(cands[0]));
            } else {
                let k = choose|k: int| 0 <= k < rest.len() && r == Some(#[trigger] rest[k]);
                assert(r == Some(cands[k + 1]));
            }
            assert(r matches Some(c) ==> dist_sq(target, c.2) <= d0 < bound);
            assert(r matches Some(c) ==> forall|k: int|
                0 <= k < cands.len() && !is_excluded(#[trigger] cands[k].2, exclude)
                    ==> dist_sq(target, c.2) <= dist_sq(target, cands[k].2)) by {
                if r is Some {
                    let c = r.unwrap();
                    assert forall|k: int|
                        0 <= k < cands.len() && !is_excluded(#[trigger] cands[k].2, exclude)
                            implies dist_sq(target, c.2) <= dist_sq(target, cands[k].2) by {
                        if k == 0 {
                            assert(dist_sq(target, c.2) <= d0);
                        } else {
                            assert(cands[k] == rest[k - 1]);
                        }
                    }
                }
            }
        } else {
            lemma_scan_props(target, rest, exclude, best, bound);
            assert(r == closest_scan(target, rest, exclude, best, bound));
            if r != best {
                let k = choose|k: int| 0 <= k < rest.len() && r == Some(#[trigger] rest[k]);
                assert(r == Some(cands[k + 1]));
            }
            assert(r matches Some(c) ==> forall|k: int|
                0 <= k < cands.len() && !is_excluded(#[trigger] cands[k].2, exclude)
                    ==> dist_sq(target, c.2) <= dist_sq(target, cands[k].2)) by {
                if r is Some {
                    let c = r.unwrap();
                    assert forall|k: int|
                        0 <= k < cands.len() && !is_excluded(#[trigger] cands[k].2, exclude)
                            implies dist_sq(target, c.2) <= dist_sq(target, cands[k].2) by {
                        if k == 0 {
                            assert(dist_sq(target, c0.2) >= bound);
                            assert(dist_sq(target, c.2) <= bound);
                        } else {
                            assert(cands[k] == rest[k - 1]);
                        }
                    }
                }
            }
            assert(r is None ==> forall|k: int|
                0 <= k < cands.len() ==> is_excluded(#[trigger] cands[k].2, exclude) || dist_sq(
                    target,
                    cands[k].2,
                ) >= bound) by {
                if r is None {
                    assert forall|k: int| 0 <= k < cands.len() implies is_excluded(
                        #[trigger] cands[k].2,
                        exclude,
                    ) || dist_sq(target, cands[k].2) >= bound by {
                        if k > 0 {
                            assert(cands[k] == rest[k - 1]);
                        }
                    }
                }
            }
        }
    }
}

/// Unfolds one step of [`closest_scan`] at position `k` of the candidates.
proof fn lemma_scan_step(
    target: Point,
    cands: Seq<(usize, bool, Point)>,
    exclude: Seq<(usize, bool, Point)>,
    best: Option<(usize, bool, Point)>,
    bound: int,
    k: int,
)
    requires
        0 <= k < cands.len(),
    ensures
        closest_scan(target, cands.skip(k), exclude, best, bound) == (
        if !is_excluded(cands[k].2, exclude) && dist_sq(target, cands[k].2) < bound {
            closest_scan(
                target,
                cands.skip(k + 1),
                exclude,
                Some(cands[k]),
                dist_sq(target, cands[k].2),
            )
        } else {
            closest_scan(target, cands.skip(k + 1), exclude, best, bound)
        }),
{
    assert(cands.skip(k).len() == cands.len() - k);
    assert(cands.skip(k)[0] == cands[k]);
    assert(cands.skip(k).drop_first() =~= cands.skip(k + 1));
}

/// Decides [`is_excluded`] on concrete values.
fn excluded_here(p: &Point, exclude: &Vec<(usize, bool, Point)>) -> (res: bool)
    ensures
        res == is_excluded(*p, exclude@),
{
    let mut j: usize = 0;
    while j < exclude.len()
        invariant
            0 <= j <= exclude.len(),
            forall|k: int| 0 <= k < j ==> !coincident(*p, #[trigger] exclude@[k].2),
        decreases exclude.len() - j,
    {
        if is_strictly_within(p, &exclude[j].2, MATCH_EPSILON) {
            return true;
        }
        j = j + 1;
    }
    false
}

/// The shared scanning loop behind the three closest-point searches.
fn scan_lines(
    target: Point,
    lines: &Vec<Line>,
    exclude: &Vec<(usize, bool, Point)>,
    bound0: i128,
) -> (r: Option<(usize, bool, Point)>)
    ensures
        r == closest_scan(target, line_candidates(lines@), exclude@, None, bound0 as int),
{
    let ghost cands = line_candidates(lines@);
    let mut best: Option<(usize, bool, Point)> = None;
    let mut bound: i128 = bound0;
    let mut i: usize = 0;
    proof {
        assert(cands.skip(0) =~= cands);
    }
    while i < lines.len()
        invariant
            0 <= i <= lines.len(),
            cands == line_candidates(lines@),
            closest_scan(target, cands.skip(2 * i as int), exclude@, best, bound as int)
                == closest_scan(target, cands, exclude@, None, bound0 as int),
        decreases lines.len() - i,
    {
        let line = lines[i];
        let ghost k = 2 * i as int;
        let ghost best_before = best;
        let ghost bound_before = bound as int;
        let d_start = target.dist_sq_to(&line.start);
        let skip_start = excluded_here(&line.start, exclude);
        if !skip_start && d_start < bound {
            best = Some((i, true, line.start));
            bound = d_start;
        }
        proof {
            assert(cands[k] == (i, true, lines@[i as int].start));
            lemma_scan_step(target, cands, exclude@, best_before, bound_before, k);
        }
        let ghost best_mid = best;
        let ghost bound_mid = bound as int;
        let d_end = target.dist_sq_to(&line.end);
        let skip_end = excluded_here(&line.end, exclude);
        if !skip_end && d_end < bound {
            best = Some((i, false, line.end));
            bound = d_end;
        }
        proof {
            assert(cands[k + 1] == (i, false, lines@[i as int].end));
            lemma_scan_step(target, cands, exclude@, best_mid, bound_mid, k + 1);
        }
        i = i + 1;
    }
    proof {
        assert(cands.skip(2 * i as int) =~= Seq::<(usize, bool, Point)>::empty());
    }
    best
}

/// Find the closest endpoint for snapping while creating lines: strictly
/// within `radius`, smallest distance, first encountered on a tie.
pub fn find_closest_point(target: Point, lines: &Vec<Line>, radius: i32) -> (r: Option<Point>)
    ensures
        r == closest_point_spec(target, lines@, radius as int),
{
    if radius <= 0 {
        return None;
    }
    proof {
        crate::geometry::lemma_square_in_range(radius as int, 0x80000000);
    }
    let none_excluded: Vec<(usize, bool, Point)> = Vec::new();
    let bound0: i128 = (radius as i128) * (radius as i128);
    match scan_lines(target, lines, &none_excluded, bound0) {
        Some(c) => Some(c.2),
        None => None,
    }
}

/// Find the closest endpoint to start dragging: within `radius`, boundary
/// included, returning the owning line's index and which endpoint it is.
pub fn find_closest_point_for_drag(target: Point, lines: &Vec<Line>, radius: i32) -> (r: Option<
    (usize, bool),
>)
    ensures
        r == closest_for_drag_spec(target, lines@, radius as int),
{
    if radius < 0 {
        return None;
    }
    proof {
        crate::geometry::lemma_square_in_range(radius as int, 0x80000000);
    }
    let none_excluded: Vec<(usize, bool, Point)> = Vec::new();
    let bound0: i128 = (radius as i128) * (radius as i128) + 1;
    match scan_lines(target, lines, &none_excluded, bound0) {
        Some(c) => Some((c.0, c.1)),
        None => None,
    }
}

/// Find the closest endpoint that does not coincide with any original
/// position of the dragged group, within `radius`, boundary included.
pub fn find_closest_point_excluding_multiple(
    lines: &Vec<Line>,
    target: Point,
    radius: i32,
    exclude_points: &Vec<(usize, bool, Point)>,
) -> (r: Option<Point>)
    ensures
        r == closest_excluding_spec(lines@, target, radius as int, exclude_points@),
{
    if radius < 0 {
        return None;
    }
    proof {
        crate::geometry::lemma_square_in_range(radius as int, 0x80000000);
    }
    let bound0: i128 = (radius as i128) * (radius as i128) + 1;
    match scan_lines(target, lines, exclude_points, bound0) {
        Some(c) => Some(c.2),
        None => None,
    }
}

/// The endpoint of `lines` that a candidate tag `(i, is_start)` names.
pub open spec fn endpoint_of(lines: Seq<Line>, i: int, is_start: bool) -> Point {
    if is_start {
        lines[i].start
    } else {
        lines[i].end
    }
}

/// Relates the candidate at position `k` to the endpoint it stands for.
proof fn lemma_candidate_shape(lines: Seq<Line>, k: int)
    requires
        lines.len() <= usize::MAX,
        0 <= k < 2 * lines.len(),
    ensures
        ({
            let c = line_candidates(lines)[k];
            &&& 0 <= c.0 < lines.len()
            &&& c.2 == endpoint_of(lines, c.0 as int, c.1)
            &&& c.1 == (k % 2 == 0)
            &&& c.0 == k / 2
        }),
{
}

/// Both endpoints of every line appear among the candidates.
proof fn lemma_endpoint_is_candidate(lines: Seq<Line>, i: int, is_start: bool)
    requires
        lines.len() <= usize::MAX,
        0 <= i < lines.len(),
    ensures
        ({
            let k = if is_start { 2 * i } else { 2 * i + 1 };
            &&& 0 <= k < 2 * lines.len()
            &&& line_candidates(lines)[k] == (i as usize, is_start, endpoint_of(lines, i, is_start))
        }),
{
}

/// The creation-time snap returns an existing endpoint strictly within the
/// radius, closer to the target than every endpoint, and returns `None`
/// exactly when no endpoint is strictly within the radius.
pub proof fn lemma_closest_point_props(target: Point, lines: Seq<Line>, radius: int)
    requires
        lines.len() <= usize::MAX,
    ensures
        ({
            let r = closest_point_spec(target, lines, radius);
            &&& (r matches Some(p) ==> exists|i: int|
                0 <= i < lines.len() && (#[trigger] lines[i].start == p || lines[i].end == p))
            &&& (r matches Some(p) ==> strictly_within(target, p, radius))
            &&& (r matches Some(p) ==> forall|i: int|
                0 <= i < lines.len() ==> dist_sq(target, p) <= dist_sq(
                    target,
                    (#[trigger] lines[i]).start,
                ) && dist_sq(target, p) <= dist_sq(target, lines[i].end))
            &&& (r is None ==> forall|i: int|
                0 <= i < lines.len() ==> !strictly_within(target, (#[trigger] lines[i]).start, radius)
                    && !strictly_within(target, lines[i].end, radius))
        }),
{
    let cands = line_candidates(lines);
    if radius > 0 {
        lemma_scan_props(target, cands, Seq::empty(), None, radius * radius);
        let s = closest_scan(target, cands, Seq::empty(), None, radius * radius);
        let r = closest_point_spec(target, lines, radius);
        crate::geometry::lemma_square_in_range(radius, radius);
        if s is Some {
            let c = s.unwrap();
            let k = choose|k: int| 0 <= k < cands.len() && s == Some(#[trigger] cands[k]);
            lemma_candidate_shape(lines, k);
            assert(r matches Some(p) ==> exists|i: int|
                0 <= i < lines.len() && (#[trigger] lines[i].start == p || lines[i].end == p)) by {
                assert(0 <= c.0 < lines.len());
                assert(lines[c.0 as int].start == c.2 || lines[c.0 as int].end == c.2);
            }
            assert forall|i: int| 0 <= i < lines.len() implies dist_sq(target, c.2) <= dist_sq(
                target,
                (#[trigger] lines[i]).start,
            ) && dist_sq(target, c.2) <= dist_sq(target, lines[i].end) by {
                lemma_endpoint_is_candidate(lines, i, true);
                lemma_endpoint_is_candidate(lines, i, false);
                assert(!is_excluded(cands[2 * i].2, Seq::empty()));
                assert(!is_excluded(cands[2 * i + 1].2, Seq::empty()));
            }
        } else {
            assert forall|i: int| 0 <= i < lines.len() implies !strictly_within(
                target,
                (#[trigger] lines[i]).start,
                radius,
            ) && !strictly_within(target, lines[i].end, radius) by {
                lemma_endpoint_is_candidate(lines, i, true);
                lemma_endpoint_is_candidate(lines, i, false);
                assert(!is_excluded(cands[2 * i].2, Seq::empty()));
                assert(!is_excluded(cands[2 * i + 1].2, Seq::empty()));
            }
        }
    }
}

/// The drag pick returns a valid line index whose named endpoint is within
/// the radius and closest among all endpoints; `None` means no endpoint is
/// within the radius.
pub proof fn lemma_closest_for_drag_props(target: Point, lines: Seq<Line>, radius: int)
    requires
        lines.len() <= usize::MAX,
    ensures
        ({
            let r = closest_for_drag_spec(target, lines, radius);
            &&& (r matches Some(c) ==> 0 <= c.0 < lines.len() && within(
                target,
                endpoint_of(lines, c.0 as int, c.1),
                radius,
            ))
            &&& (r matches Some(c) ==> forall|i: int|
                0 <= i < lines.len() ==> dist_sq(target, endpoint_of(lines, c.0 as int, c.1))
                    <= dist_sq(target, (#[trigger] lines[i]).start) && dist_sq(
                    target,
                    endpoint_of(lines, c.0 as int, c.1),
                ) <= dist_sq(target, lines[i].end))
            &&& (r is None ==> forall|i: int|
                0 <= i < lines.len() ==> !within(target, (#[trigger] lines[i]).start, radius)
                    && !within(target, lines[i].end, radius))
        }),
{
    let cands = line_candidates(lines);
    if radius >= 0 {
        lemma_scan_props(target, cands, Seq::empty(), None, radius * radius + 1);
        let s = closest_scan(target, cands, Seq::empty(), None, radius * radius + 1);
        crate::geometry::lemma_square_in_range(radius, radius);
        if s is Some {
            let c = s.unwrap();
            let k = choose|k: int| 0 <= k < cands.len() && s == Some(#[trigger] cands[k]);
            lemma_candidate_shape(lines, k);
            assert forall|i: int| 0 <= i < lines.len() implies dist_sq(
                target,
                endpoint_of(lines, c.0 as int, c.1),
            ) <= dist_sq(target, (#[trigger] lines[i]).start) && dist_sq(
                target,
                endpoint_of(lines, c.0 as int, c.1),
            ) <= dist_sq(target, lines[i].end) by {
                lemma_endpoint_is_candidate(lines, i, true);
                lemma_endpoint_is_candidate(lines, i, false);
                assert(!is_excluded(cands[2 * i].2, Seq::empty()));
                assert(!is_excluded(cands[2 * i + 1].2, Seq::empty()));
            }
        } else {
            assert forall|i: int| 0 <= i < lines.len() implies !within(
                target,
                (#[trigger] lines[i]).start,
                radius,
            ) && !within(target, lines[i].end, radius) by {
                lemma_endpoint_is_candidate(lines, i, true);
                lemma_endpoint_is_candidate(lines, i, false);
                assert(!is_excluded(cands[2 * i].2, Seq::empty()));
                assert(!is_excluded(cands[2 * i + 1].2, Seq::empty()));
            }
        }
    }
}

/// Snap exclusion: whatever the drag-time snap returns is an existing
/// endpoint, within the radius, coincident with no entry of the exclusion
/// set, and no closer non-excluded endpoint exists; in particular, when every
/// endpoint is excluded the search returns `None`.
pub proof fn lemma_closest_excluding_props(
    lines: Seq<Line>,
    target: Point,
    radius: int,
    exclude: Seq<(usize, bool, Point)>,
)
    requires
        lines.len() <= usize::MAX,
    ensures
        ({
            let r = closest_excluding_spec(lines, target, radius, exclude);
            &&& (r matches Some(p) ==> exists|i: int|
                0 <= i < lines.len() && (#[trigger] lines[i].start == p || lines[i].end == p))
            &&& (r matches Some(p) ==> within(target, p, radius))
            &&& (r matches Some(p) ==> !is_excluded(p, exclude))
            &&& (r matches Some(p) ==> forall|j: int|
                0 <= j < exclude.len() ==> !coincident(p, #[trigger] exclude[j].2))
            &&& (r is None ==> forall|i: int|
                0 <= i < lines.len() ==> (is_excluded((#[trigger] lines[i]).start, exclude)
                    || !within(target, lines[i].start, radius)) && (is_excluded(
                    lines[i].end,
                    exclude,
                ) || !within(target, lines[i].end, radius)))
        }),
{
    let cands = line_candidates(lines);
    if radius >= 0 {
        lemma_scan_props(target, cands, exclude, None, radius * radius + 1);
        let s = closest_scan(target, cands, exclude, None, radius * radius + 1);
        crate::geometry::lemma_square_in_range(radius, radius);
        if s is Some {
            let c = s.unwrap();
            let k = choose|k: int| 0 <= k < cands.len() && s == Some(#[trigger] cands[k]);
            lemma_candidate_shape(lines, k);
            assert(lines[c.0 as int].start == c.2 || lines[c.0 as int].end == c.2);
        } else {
            assert forall|i: int| 0 <= i < lines.len() implies (is_excluded(
                (#[trigger] lines[i]).start,
                exclude,
            ) || !within(target, lines[i].start, radius)) && (is_excluded(lines[i].end, exclude)
                || !within(target, lines[i].end, radius)) by {
                lemma_endpoint_is_candidate(lines, i, true);
                lemma_endpoint_is_candidate(lines, i, false);
                assert(cands[2 * i].2 == lines[i].start);
                assert(cands[2 * i + 1].2 == lines[i].end);
            }
        }
    }
}

/// The group entries that line `i` contributes for a target point: its start
/// endpoint when strictly within `epsilon`, then its end endpoint likewise.
pub open spec fn line_group_entries(
    lines: Seq<Line>,
    target: Point,
    epsilon: int,
    i: int,
) -> Seq<(usize, bool, Point)> {
    let s = if strictly_within(lines[i].start, target, epsilon) {
        seq![(i as usize, true, lines[i].start)]
    } else {
        Seq::empty()
    };
    let e = if strictly_within(lines[i].end, target, epsilon) {
        seq![(i as usize, false, lines[i].end)]
    } else {
        Seq::empty()
    };
    s + e
}

/// The coincident-point group of the first `n` lines, in element order.
pub open spec fn matching_points_upto(
    lines: Seq<Line>,
    target: Point,
    epsilon: int,
    n: int,
) -> Seq<(usize, bool, Point)>
    decreases n,
{
    if n <= 0 {
        Seq::empty()
    } else {
        matching_points_upto(lines, target, epsilon, n - 1) + line_group_entries(
            lines,
            target,
            epsilon,
            n - 1,
        )
    }
}

/// The full coincident-point group: every endpoint of every line that lies
/// strictly within `epsilon` of the target.
pub open spec fn matching_points_spec(lines: Seq<Line>, target: Point, epsilon: int) -> Seq<
    (usize, bool, Point),
> {
    matching_points_upto(lines, target, epsilon, lines.len() as int)
}

/// Return every endpoint strictly within `epsilon` of `target_point`, each
/// tagged with its line index and an is-start flag, in element order.
pub fn get_all_matching_points(
    lines: &Vec<Line>,
    target_point: Point,
    epsilon: i32,
) -> (r: Vec<(usize, bool, Point)>)
    ensures
        r@ == matching_points_spec(lines@, target_point, epsilon as int),
{
    let mut result: Vec<(usize, bool, Point)> = Vec::new();
    let mut i: usize = 0;
    while i < lines.len()
        invariant
            0 <= i <= lines.len(),
            result@ == matching_points_upto(lines@, target_point, epsilon as int, i as int),
        decreases lines.len() - i,
    {
        let line = lines[i];
        let ghost before = result@;
        if is_strictly_within(&line.start, &target_point, epsilon) {
            result.push((i, true, line.start));
        }
        if is_strictly_within(&line.end, &target_point, epsilon) {
            result.push((i, false, line.end));
        }
        proof {
            assert(result@ =~= before + line_group_entries(
                lines@,
                target_point,
                epsilon as int,
                i as int,
            ));
        }
        i = i + 1;
    }
    result
}

/// Membership in the coincident-point group: an entry for line `i`'s start
/// or end stands in the group exactly when that endpoint is strictly within
/// `epsilon` of the target, and every entry of the group is such an endpoint.
pub proof fn lemma_matching_points_props(lines: Seq<Line>, target: Point, epsilon: int, n: int)
    requires
        0 <= n <= lines.len() <= usize::MAX,
    ensures
        ({
            let g = matching_points_upto(lines, target, epsilon, n);
            &&& forall|j: int| 0 <= j < g.len() ==> 0 <= (#[trigger] g[j]).0 < n
            &&& forall|j: int| 0 <= j < g.len() ==> (#[trigger] g[j]).2 == endpoint_of(
                lines,
                g[j].0 as int,
                g[j].1,
            ) && strictly_within(g[j].2, target, epsilon)
            &&& forall|i: int, is_start: bool|
                0 <= i < n && strictly_within(
                    #[trigger] endpoint_of(lines, i, is_start),
                    target,
                    epsilon,
                ) ==> exists|j: int|
                    0 <= j < g.len() && #[trigger] g[j] == (
                        i as usize,
                        is_start,
                        endpoint_of(lines, i, is_start),
                    )
        }),
    decreases n,
{
    if n > 0 {
        lemma_matching_points_props(lines, target, epsilon, n - 1);
        let prev = matching_points_upto(lines, target, epsilon, n - 1);
        let tail = line_group_entries(lines, target, epsilon, n - 1);
        let g = matching_points_upto(lines, target, epsilon, n);
        assert(g == prev + tail);
        assert(forall|j: int| 0 <= j < prev.len() ==> #[trigger] g[j] == prev[j]);
        assert(forall|j: int|
            0 <= j < tail.len() ==> #[trigger] g[prev.len() + j] == tail[j]);
        assert forall|i: int, is_start: bool|
            0 <= i < n && strictly_within(
                #[trigger] endpoint_of(lines, i, is_start),
                target,
                epsilon,
            ) implies exists|j: int|
                0 <= j < g.len() && #[trigger] g[j] == (
                    i as usize,
                    is_start,
                    endpoint_of(lines, i, is_start),
                ) by {
            if i < n - 1 {
                let j = choose|j: int|
                    0 <= j < prev.len() && #[trigger] prev[j] == (
                        i as usize,
                        is_start,
                        endpoint_of(lines, i, is_start),
                    );
                assert(g[j] == (i as usize, is_start, endpoint_of(lines, i, is_start)));
            } else {
                if is_start {
                    assert(g[prev.len() as int] == (
                        i as usize,
                        is_start,
                        endpoint_of(lines, i, is_start),
                    ));
                } else {
                    let off: int = if strictly_within(lines[i].start, target, epsilon) {
                        1
                    } else {
                        0
                    };
                    assert(g[prev.len() + off] == (
                        i as usize,
                        is_start,
                        endpoint_of(lines, i, is_start),
                    ));
                }
            }
        }
    }
}

} // verus!
