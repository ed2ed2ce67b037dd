//! Why alpha bleeding takes each colour from a nearest opaque pixel: the
//! flood is followed with a record of where each colour came from and how
//! many steps it took.

use crate::alpha_bleed::{
    bled, expand, flood, flood_inv, is_opaque, lemma_order_bounded, lemma_reach, lemma_start_inv,
    neighbor, reach, start, tinted, Flood,
};
use crate::raster::Pixel;
use vstd::arithmetic::div_mod::{lemma_fundamental_div_mod, lemma_fundamental_div_mod_converse};
use vstd::prelude::*;

verus! {

/// The column of pixel `p` in an image of the given width.
pub open spec fn column(width: int, p: int) -> int {
    p % width
}

/// The row of pixel `p` in an image of the given width.
pub open spec fn row(width: int, p: int) -> int {
    p / width
}

/// The distance between two numbers.
pub open spec fn gap(a: int, b: int) -> int {
    if a >= b {
        a - b
    } else {
        b - a
    }
}

/// The number of steps between two pixels, where a step leads to the pixel
/// above, below, left or right.
pub open spec fn distance(width: int, a: int, b: int) -> int {
    gap(column(width, a), column(width, b)) + gap(row(width, a), row(width, b))
}

/// Where the neighbour of a pixel on one side lies.
pub proof fn lemma_neighbor_place(width: int, count: int, p: int, side: int)
    requires
        width > 0,
        0 <= p < count,
        0 <= side < 4,
        neighbor(width, count, p, side) is Some,
    ensures
        0 <= neighbor(width, count, p, side)->0 < count,
        side == 0 ==> column(width, neighbor(width, count, p, side)->0) == column(width, p) && row(
            width,
            neighbor(width, count, p, side)->0,
        ) == row(width, p) - 1,
        side == 1 ==> column(width, neighbor(width, count, p, side)->0) == column(width, p) - 1 && row(
            width,
            neighbor(width, count, p, side)->0,
        ) == row(width, p),
        side == 2 ==> column(width, neighbor(width, count, p, side)->0) == column(width, p) + 1 && row(
            width,
            neighbor(width, count, p, side)->0,
        ) == row(width, p),
        side == 3 ==> column(width, neighbor(width, count, p, side)->0) == column(width, p) && row(
            width,
            neighbor(width, count, p, side)->0,
        ) == row(width, p) + 1,
{
    let c = p % width;
    let r = p / width;
    lemma_fundamental_div_mod(p, width);
    assert(0 <= c < width) by (nonlinear_arith)
        requires
            c == p % width,
            width > 0,
    ;
    assert(p == r * width + c) by (nonlinear_arith)
        requires
            p == width * r + c,
    ;
    if side == 0 {
        assert(p - width == (r - 1) * width + c) by (nonlinear_arith)
            requires
                p == r * width + c,
        ;
        lemma_fundamental_div_mod_converse(p - width, width, r - 1, c);
    } else if side == 1 {
        lemma_fundamental_div_mod_converse(p - 1, width, r, c - 1);
    } else if side == 2 {
        lemma_fundamental_div_mod_converse(p + 1, width, r, c + 1);
    } else {
        assert(p + width == (r + 1) * width + c) by (nonlinear_arith)
            requires
                p == r * width + c,
        ;
        lemma_fundamental_div_mod_converse(p + width, width, r + 1, c);
    }
}

/// A step changes the distance to any pixel by one at most.
pub proof fn lemma_step_distance(width: int, count: int, p: int, side: int, target: int)
    requires
        width > 0,
        0 <= p < count,
        0 <= side < 4,
        neighbor(width, count, p, side) is Some,
    ensures
        distance(width, neighbor(width, count, p, side)->0, target) <= distance(width, p, target) + 1,
{
    lemma_neighbor_place(width, count, p, side);
}

/// The side of pixel `from` on which the next pixel on a way to `to` lies:
/// first along the row, then along the column.
pub open spec fn side_toward(width: int, from: int, to: int) -> int {
    if column(width, from) > column(width, to) {
        1
    } else if column(width, from) < column(width, to) {
        2
    } else if row(width, from) > row(width, to) {
        0
    } else {
        3
    }
}

/// From a pixel there is a step towards any other pixel: it leads to a
/// pixel of the image that is one step nearer, and from which the opposite
/// step leads back.
pub proof fn lemma_step_toward(width: int, height: int, from: int, to: int)
    requires
        width > 0,
        0 <= from < width * height,
        0 <= to < width * height,
        from != to,
    ensures
        neighbor(width, width * height, from, side_toward(width, from, to)) is Some,
        0 <= neighbor(width, width * height, from, side_toward(width, from, to))->0 < width * height,
        distance(width, neighbor(width, width * height, from, side_toward(width, from, to))->0, to)
            == distance(width, from, to) - 1,
        neighbor(
            width,
            width * height,
            neighbor(width, width * height, from, side_toward(width, from, to))->0,
            3 - side_toward(width, from, to),
        ) == Some(from),
{
    let count = width * height;
    let c = from % width;
    let r = from / width;
    let tc = to % width;
    let tr = to / width;
    lemma_fundamental_div_mod(from, width);
    lemma_fundamental_div_mod(to, width);
    assert(0 <= c < width && 0 <= tc < width) by (nonlinear_arith)
        requires
            c == from % width,
            tc == to % width,
            width > 0,
    ;
    assert(from == r * width + c && to == tr * width + tc) by (nonlinear_arith)
        requires
            from == width * r + c,
            to == width * tr + tc,
    ;
    assert(0 <= r < height && 0 <= tr < height) by (nonlinear_arith)
        requires
            from == r * width + c,
            to == tr * width + tc,
            0 <= c < width,
            0 <= tc < width,
            0 <= from < width * height,
            0 <= to < width * height,
            width > 0,
    ;
    let side = side_toward(width, from, to);
    if side == 1 {
        lemma_neighbor_place(width, count, from, 1);
        lemma_neighbor_place(width, count, from - 1, 2);
    } else if side == 2 {
        assert((r + 1) * width <= height * width && (r + 1) * width == r * width + width
            && height * width == width * height) by (nonlinear_arith)
            requires
                r + 1 <= height,
                width > 0,
        ;
        lemma_neighbor_place(width, count, from, 2);
        lemma_neighbor_place(width, count, from + 1, 1);
    } else if side == 0 {
        assert(from >= width) by (nonlinear_arith)
            requires
                from == r * width + c,
                r >= 1,
                c >= 0,
                width > 0,
        ;
        lemma_neighbor_place(width, count, from, 0);
        lemma_neighbor_place(width, count, from - width, 3);
    } else {
        assert(r < tr) by {
            if r == tr {
                assert(from == to);
            }
        }
        assert((r + 2) * width <= height * width && (r + 2) * width == r * width + 2 * width
            && height * width == width * height) by (nonlinear_arith)
            requires
                r + 2 <= height,
                width > 0,
        ;
        lemma_neighbor_place(width, count, from, 3);
        lemma_neighbor_place(width, count, from + width, 0);
    }
}

/// For each pixel, the opaque pixel that its colour came from, and the
/// number of steps that the colour took.
#[verifier::ext_equal]
pub struct Trace {
    pub origin: Seq<int>,
    pub depth: Seq<int>,
}

/// The trace after pixel `from` has offered its colour to `to`.
pub open spec fn trace_reach(s: Flood, t: Trace, from: int, to: Option<int>) -> Trace {
    match to {
        Some(q) => if 0 <= q < s.pixels.len() && q < s.reached.len() && !s.reached[q] {
            Trace { origin: t.origin.update(q, t.origin[from]), depth: t.depth.update(q, t.depth[from] + 1) }
        } else {
            t
        },
        None => t,
    }
}

/// The trace after the next pixel of the order has spread its colour.
pub open spec fn trace_expand(width: int, s: Flood, t: Trace) -> Trace {
    let count = s.pixels.len() as int;
    let p = s.order[s.head];
    let s0 = reach(s, p, neighbor(width, count, p, 0));
    let t0 = trace_reach(s, t, p, neighbor(width, count, p, 0));
    let s1 = reach(s0, p, neighbor(width, count, p, 1));
    let t1 = trace_reach(s0, t0, p, neighbor(width, count, p, 1));
    let s2 = reach(s1, p, neighbor(width, count, p, 2));
    let t2 = trace_reach(s1, t1, p, neighbor(width, count, p, 2));
    trace_reach(s2, t2, p, neighbor(width, count, p, 3))
}

/// The trace at the end of the flood.
pub open spec fn trace_flood(width: int, s: Flood, t: Trace) -> Trace
    decreases s.pixels.len() - s.head,
{
    if 0 <= s.head < s.order.len() && s.order.len() <= s.pixels.len() {
        trace_flood(width, expand(width, s), trace_expand(width, s, t))
    } else {
        t
    }
}

/// The trace before any colour has spread: every pixel is its own origin.
pub open spec fn trace_start(count: nat) -> Trace {
    Trace { origin: Seq::new(count, |i: int| i), depth: Seq::new(count, |i: int| 0int) }
}

/// The pixel whose colour pixel `i` has after alpha bleeding, where the
/// image has an opaque pixel.
pub open spec fn source(width: int, pixels: Seq<Pixel>, i: int) -> int {
    trace_flood(width, start(pixels), trace_start(pixels.len())).origin[i]
}

/// Pixel `i` has the colour of its origin, an opaque pixel that is no more
/// steps away than the colour took.
pub open spec fn settled(width: int, first: Seq<Pixel>, s: Flood, t: Trace, i: int) -> bool {
    &&& 0 <= t.origin[i] < first.len()
    &&& is_opaque(first[t.origin[i]])
    &&& s.pixels[i] == tinted(first[i], first[t.origin[i]])
    &&& 0 <= t.depth[i]
    &&& distance(width, i, t.origin[i]) <= t.depth[i]
}

/// The neighbour of `p` on one side, if there is one, has a colour that
/// took at most one step more than that of `p`.
pub open spec fn served(width: int, s: Flood, t: Trace, p: int, side: int) -> bool {
    neighbor(width, s.pixels.len() as int, p, side) matches Some(nb) ==> (0 <= nb < s.reached.len()
        && s.reached[nb] && t.depth[nb] <= t.depth[p] + 1)
}

/// What holds of a flood over the image `first` and its trace at any time.
pub open spec fn trace_inv(width: int, first: Seq<Pixel>, s: Flood, t: Trace) -> bool {
    &&& flood_inv(s)
    &&& s.pixels.len() == first.len()
    &&& t.origin.len() == first.len()
    &&& t.depth.len() == first.len()
    &&& forall|i: int| 0 <= i < first.len() && s.reached[i] ==> #[trigger] settled(width, first, s, t, i)
    &&& forall|i: int|
        0 <= i < first.len() && is_opaque(#[trigger] first[i]) ==> s.reached[i] && t.depth[i] == 0
    &&& forall|i: int| 0 <= i < first.len() && !s.reached[i] ==> #[trigger] s.pixels[i] == first[i]
    &&& forall|j: int, k: int|
        0 <= j <= k < s.order.len() ==> t.depth[#[trigger] s.order[j]] <= t.depth[#[trigger] s.order[k]]
    &&& s.head < s.order.len() ==> forall|k: int|
        0 <= k < s.order.len() ==> t.depth[#[trigger] s.order[k]] <= t.depth[s.order[s.head]] + 1
    &&& forall|k: int, side: int|
        0 <= k < s.head && 0 <= side < 4 ==> #[trigger] served(width, s, t, s.order[k], side)
}

/// The same while the next pixel of the order spreads its colour and has
/// dealt with its first `sides` sides.
pub open spec fn spreading(width: int, first: Seq<Pixel>, s: Flood, t: Trace, sides: int) -> bool {
    &&& trace_inv(width, first, s, t)
    &&& s.head < s.order.len()
    &&& forall|side: int| 0 <= side < sides ==> #[trigger] served(width, s, t, s.order[s.head], side)
}

proof fn lemma_trace_reach(width: int, height: int, first: Seq<Pixel>, s: Flood, t: Trace, side: int)
    requires
        width > 0,
        first.len() == width * height,
        0 <= side < 4,
        spreading(width, first, s, t, side),
    ensures
        spreading(
            width,
            first,
            reach(s, s.order[s.head], neighbor(width, first.len() as int, s.order[s.head], side)),
            trace_reach(s, t, s.order[s.head], neighbor(width, first.len() as int, s.order[s.head], side)),
            side + 1,
        ),
        reach(s, s.order[s.head], neighbor(width, first.len() as int, s.order[s.head], side)).head
            == s.head,
        reach(
            s,
            s.order[s.head],
            neighbor(width, first.len() as int, s.order[s.head], side),
        ).order[s.head] == s.order[s.head],
        reach(s, s.order[s.head], neighbor(width, first.len() as int, s.order[s.head], side)).pixels.len()
            == s.pixels.len(),
{
    let count = first.len() as int;
    let p = s.order[s.head];
    let to = neighbor(width, count, p, side);
    let s2 = reach(s, p, to);
    let t2 = trace_reach(s, t, p, to);
    lemma_reach(s, p, to);
    assert(s.order.contains(p));
    assert(s.reached[p]);
    assert(settled(width, first, s, t, p));
    if to is Some {
        lemma_neighbor_place(width, count, p, side);
    }
    if to is Some && !s.reached[to->0] {
        let q = to->0;
        assert(!s.order.contains(q));
        assert(q != p);
        assert(!is_opaque(first[q]));
        lemma_step_distance(width, count, p, side, t.origin[p]);
        let last = s.order.len() as int;
        assert(s2.order.len() == last + 1);
        assert(s2.order[last] == q);
        assert forall|k: int| 0 <= k < last implies s2.order[k] == s.order[k] && s.order[k] != q by {
            assert(s.order.contains(s.order[k]));
        }
        assert forall|i: int| 0 <= i < first.len() && s2.reached[i] implies #[trigger] settled(
            width,
            first,
            s2,
            t2,
            i,
        ) by {
            if i != q {
                assert(settled(width, first, s, t, i));
            }
        }
        assert forall|j: int, k: int| 0 <= j <= k < s2.order.len() implies t2.depth[#[trigger] s2.order[j]]
            <= t2.depth[#[trigger] s2.order[k]] by {
            if k < last {
                assert(t.depth[s.order[j]] <= t.depth[s.order[k]]);
            } else if j < last {
                assert(t.depth[s.order[j]] <= t.depth[s.order[s.head]] + 1);
            }
        }
        assert forall|k: int| 0 <= k < s2.order.len() implies t2.depth[#[trigger] s2.order[k]] <= t2.depth[s2.order[s2.head]]
            + 1 by {
            if k < last {
                assert(t.depth[s.order[k]] <= t.depth[s.order[s.head]] + 1);
            }
        }
        assert forall|k: int, sd: int| 0 <= k < s2.head && 0 <= sd < 4 implies #[trigger] served(
            width,
            s2,
            t2,
            s2.order[k],
            sd,
        ) by {
            assert(served(width, s, t, s.order[k], sd));
        }
        assert forall|sd: int| 0 <= sd < side + 1 implies #[trigger] served(
            width,
            s2,
            t2,
            s2.order[s2.head],
            sd,
        ) by {
            if sd < side {
                assert(served(width, s, t, s.order[s.head], sd));
            }
        }
    } else {
        assert(s2 == s);
        assert(t2 == t);
        assert forall|sd: int| 0 <= sd < side + 1 implies #[trigger] served(
            width,
            s2,
            t2,
            s2.order[s2.head],
            sd,
        ) by {
            if sd < side {
                assert(served(width, s, t, s.order[s.head], sd));
            } else if to is Some {
                let nb = to->0;
                assert(s.order.contains(nb));
                let k = choose|k: int| 0 <= k < s.order.len() && s.order[k] == nb;
                assert(t.depth[s.order[k]] <= t.depth[s.order[s.head]] + 1);
            }
        }
    }
}

proof fn lemma_trace_expand(width: int, height: int, first: Seq<Pixel>, s: Flood, t: Trace)
    requires
        width > 0,
        first.len() == width * height,
        trace_inv(width, first, s, t),
        s.head < s.order.len(),
    ensures
        trace_inv(width, first, expand(width, s), trace_expand(width, s, t)),
{
    let count = first.len() as int;
    let p = s.order[s.head];
    let s0 = reach(s, p, neighbor(width, count, p, 0));
    let t0 = trace_reach(s, t, p, neighbor(width, count, p, 0));
    lemma_trace_reach(width, height, first, s, t, 0);
    let s1 = reach(s0, p, neighbor(width, count, p, 1));
    let t1 = trace_reach(s0, t0, p, neighbor(width, count, p, 1));
    lemma_trace_reach(width, height, first, s0, t0, 1);
    let s2 = reach(s1, p, neighbor(width, count, p, 2));
    let t2 = trace_reach(s1, t1, p, neighbor(width, count, p, 2));
    lemma_trace_reach(width, height, first, s1, t1, 2);
    let s3 = reach(s2, p, neighbor(width, count, p, 3));
    let t3 = trace_reach(s2, t2, p, neighbor(width, count, p, 3));
    lemma_trace_reach(width, height, first, s2, t2, 3);
    let e = expand(width, s);
    assert(e == (Flood { head: s.head + 1, ..s3 }));
    assert(trace_expand(width, s, t) == t3);
    assert(spreading(width, first, s3, t3, 4));
    assert forall|i: int| 0 <= i < first.len() && e.reached[i] implies #[trigger] settled(
        width,
        first,
        e,
        t3,
        i,
    ) by {
        assert(settled(width, first, s3, t3, i));
    }
    if e.head < e.order.len() {
        assert forall|k: int| 0 <= k < e.order.len() implies t3.depth[#[trigger] e.order[k]] <= t3.depth[e.order[e.head]]
            + 1 by {
            assert(t3.depth[s3.order[k]] <= t3.depth[s3.order[s3.head]] + 1);
            assert(t3.depth[s3.order[s3.head]] <= t3.depth[s3.order[s3.head + 1]]);
        }
    }
    assert forall|k: int, side: int| 0 <= k < e.head && 0 <= side < 4 implies #[trigger] served(
        width,
        e,
        t3,
        e.order[k],
        side,
    ) by {
        if k < s3.head {
            assert(served(width, s3, t3, s3.order[k], side));
        } else {
            assert(served(width, s3, t3, s3.order[s3.head], side));
        }
    }
}

proof fn lemma_trace_flood(width: int, height: int, first: Seq<Pixel>, s: Flood, t: Trace)
    requires
        width > 0,
        first.len() == width * height,
        trace_inv(width, first, s, t),
    ensures
        trace_inv(width, first, flood(width, s), trace_flood(width, s, t)),
        flood(width, s).head == flood(width, s).order.len(),
    decreases s.pixels.len() - s.head,
{
    lemma_order_bounded(s);
    if s.head < s.order.len() {
        lemma_trace_expand(width, height, first, s, t);
        lemma_trace_flood(width, height, first, expand(width, s), trace_expand(width, s, t));
    }
}

proof fn lemma_trace_start(width: int, first: Seq<Pixel>)
    ensures
        trace_inv(width, first, start(first), trace_start(first.len())),
{
    let s = start(first);
    let t = trace_start(first.len());
    lemma_start_inv(first);
    assert forall|i: int| 0 <= i < first.len() && s.reached[i] implies #[trigger] settled(
        width,
        first,
        s,
        t,
        i,
    ) by {
        assert(s.pixels[i] == tinted(first[i], first[i]));
    }
    assert forall|j: int, k: int| 0 <= j <= k < s.order.len() implies t.depth[#[trigger] s.order[j]]
        <= t.depth[#[trigger] s.order[k]] by {
        assert(0 <= s.order[j] < first.len());
        assert(0 <= s.order[k] < first.len());
    }
    if s.head < s.order.len() {
        assert(0 <= s.order[s.head] < first.len());
        assert forall|k: int| 0 <= k < s.order.len() implies t.depth[#[trigger] s.order[k]] <= t.depth[s.order[s.head]]
            + 1 by {
            assert(0 <= s.order[k] < first.len());
        }
    }
}

/// At the end of a flood every pixel is reached, if the image has an opaque
/// pixel at all, and its colour took no more steps than lie between it and
/// any opaque pixel.
proof fn lemma_depth_bound(
    width: int,
    height: int,
    first: Seq<Pixel>,
    s: Flood,
    t: Trace,
    i: int,
    q: int,
)
    requires
        width > 0,
        first.len() == width * height,
        trace_inv(width, first, s, t),
        s.head == s.order.len(),
        0 <= i < first.len(),
        0 <= q < first.len(),
        is_opaque(first[q]),
    ensures
        s.reached[i],
        t.depth[i] <= distance(width, i, q),
    decreases distance(width, i, q),
{
    if i != q {
        lemma_step_toward(width, height, i, q);
        let side = side_toward(width, i, q);
        let j = neighbor(width, width * height, i, side)->0;
        lemma_depth_bound(width, height, first, s, t, j, q);
        assert(s.order.contains(j));
        let k = choose|k: int| 0 <= k < s.order.len() && s.order[k] == j;
        assert(served(width, s, t, s.order[k], 3 - side));
    }
}

/// What alpha bleeding does to pixel `i` of the image `before`, where `q`
/// is an opaque pixel of it: the pixel keeps its alpha and has the colour of
/// an opaque pixel that is no further away than `q`.
pub open spec fn takes_nearest(width: int, before: Seq<Pixel>, after: Seq<Pixel>, i: int, q: int) -> bool {
    &&& 0 <= source(width, before, i) < before.len()
    &&& is_opaque(before[source(width, before, i)])
    &&& after[i] == tinted(before[i], before[source(width, before, i)])
    &&& distance(width, i, source(width, before, i)) <= distance(width, i, q)
}

/// Alpha bleeding gives every pixel the colour of an opaque pixel that is
/// nearest to it, if the image has an opaque pixel at all: no opaque pixel
/// is fewer steps away than the one whose colour the pixel takes.
pub proof fn lemma_bleed_takes_nearest(width: int, height: int, pixels: Seq<Pixel>, i: int, q: int)
    requires
        width > 0,
        pixels.len() == width * height,
        0 <= i < pixels.len(),
        0 <= q < pixels.len(),
        is_opaque(pixels[q]),
    ensures
        takes_nearest(width, pixels, bled(width, pixels), i, q),
{
    let s = flood(width, start(pixels));
    let t = trace_flood(width, start(pixels), trace_start(pixels.len()));
    lemma_trace_start(width, pixels);
    lemma_trace_flood(width, height, pixels, start(pixels), trace_start(pixels.len()));
    lemma_depth_bound(width, height, pixels, s, t, i, q);
    assert(settled(width, pixels, s, t, i));
}

} // verus!
