//! Alpha bleeding: every fully transparent pixel takes the colour of the
//! nearest pixel that is not fully transparent, so that filtering across the
//! alpha edge does not show a halo.
//!
//! The colours spread as a flood. All pixels with `alpha > 0` are queued in
//! row-major order; each queued pixel in turn gives its colour to those of its
//! four neighbours that have none yet, and queues them.

use crate::nearest::{lemma_bleed_takes_nearest, takes_nearest};
use crate::raster::{rgba_bytes, Image, ImageView, Pixel};
use vstd::prelude::*;

verus! {

/// A pixel that keeps its colour: one that is not fully transparent.
pub open spec fn is_opaque(p: Pixel) -> bool {
    p.a > 0
}

/// `target` with the colour of `source` and its own alpha.
pub open spec fn tinted(target: Pixel, source: Pixel) -> Pixel {
    Pixel { r: source.r, g: source.g, b: source.b, a: target.a }
}

/// The state of a flood over `pixels.len()` pixels.
#[verifier::ext_equal]
pub struct Flood {
    /// The colours so far.
    pub pixels: Seq<Pixel>,
    /// Which pixels already carry their final colour.
    pub reached: Seq<bool>,
    /// The pixels in the order in which they were reached.
    pub order: Seq<int>,
    /// How many entries of `order` have spread their colour already.
    pub head: int,
}

/// The neighbour of pixel `p` on one side, in the order in which a pixel
/// visits them: above (0), left (1), right (2), below (3).
pub open spec fn neighbor(width: int, count: int, p: int, side: int) -> Option<int> {
    if side == 0 {
        if p >= width {
            Some(p - width)
        } else {
            None
        }
    } else if side == 1 {
        if p % width != 0 {
            Some(p - 1)
        } else {
            None
        }
    } else if side == 2 {
        if p % width != width - 1 && p + 1 < count {
            Some(p + 1)
        } else {
            None
        }
    } else {
        if p + width < count {
            Some(p + width)
        } else {
            None
        }
    }
}

/// Pixel `from` offers its colour to `to`: a pixel that has none yet takes
/// it and joins the order.
pub open spec fn reach(s: Flood, from: int, to: Option<int>) -> Flood {
    match to {
        Some(q) => if 0 <= q < s.pixels.len() && q < s.reached.len() && !s.reached[q] {
            Flood {
                pixels: s.pixels.update(q, tinted(s.pixels[q], s.pixels[from])),
                reached: s.reached.update(q, true),
                order: s.order.push(q),
                head: s.head,
            }
        } else {
            s
        },
        None => s,
    }
}

/// The next pixel of the order spreads its colour to its four neighbours.
pub open spec fn expand(width: int, s: Flood) -> Flood {
    let count = s.pixels.len() as int;
    let p = s.order[s.head];
    let s0 = reach(s, p, neighbor(width, count, p, 0));
    let s1 = reach(s0, p, neighbor(width, count, p, 1));
    let s2 = reach(s1, p, neighbor(width, count, p, 2));
    let s3 = reach(s2, p, neighbor(width, count, p, 3));
    Flood { head: s.head + 1, ..s3 }
}

/// The flood run to its end.
pub open spec fn flood(width: int, s: Flood) -> Flood
    decreases s.pixels.len() - s.head,
{
    if 0 <= s.head < s.order.len() && s.order.len() <= s.pixels.len() {
        flood(width, expand(width, s))
    } else {
        s
    }
}

/// The opaque pixels among the first `upto`, in row-major order.
pub open spec fn seeds(pixels: Seq<Pixel>, upto: int) -> Seq<int>
    decreases upto,
{
    if upto <= 0 {
        Seq::empty()
    } else if is_opaque(pixels[upto - 1]) {
        seeds(pixels, upto - 1).push(upto - 1)
    } else {
        seeds(pixels, upto - 1)
    }
}

/// The flood before any colour has spread: the opaque pixels are reached and
/// queued.
pub open spec fn start(pixels: Seq<Pixel>) -> Flood {
    Flood {
        pixels,
        reached: Seq::new(pixels.len(), |i: int| is_opaque(pixels[i])),
        order: seeds(pixels, pixels.len() as int),
        head: 0,
    }
}

/// The pixels of an image of the given width after alpha bleeding.
pub open spec fn bled(width: int, pixels: Seq<Pixel>) -> Seq<Pixel> {
    flood(width, start(pixels)).pixels
}

/// What holds of every state of a flood: the order lists exactly the reached
/// pixels, each once.
pub open spec fn flood_inv(s: Flood) -> bool {
    &&& s.reached.len() == s.pixels.len()
    &&& 0 <= s.head <= s.order.len()
    &&& s.order.no_duplicates()
    &&& forall|k: int| 0 <= k < s.order.len() ==> 0 <= #[trigger] s.order[k] < s.pixels.len()
    &&& forall|i: int| 0 <= i < s.pixels.len() ==> (#[trigger] s.reached[i] <==> s.order.contains(i))
}

/// The exec queue read as pixel indices.
pub open spec fn indices(queue: Seq<usize>) -> Seq<int> {
    queue.map_values(|v: usize| v as int)
}

proof fn lemma_seeds(pixels: Seq<Pixel>, upto: int)
    requires
        0 <= upto <= pixels.len(),
    ensures
        seeds(pixels, upto).no_duplicates(),
        forall|k: int| 0 <= k < seeds(pixels, upto).len() ==> 0 <= #[trigger] seeds(pixels, upto)[k] < upto,
        forall|i: int| 0 <= i < upto ==> (is_opaque(#[trigger] pixels[i]) <==> seeds(pixels, upto).contains(i)),
    decreases upto,
{
    if upto > 0 {
        lemma_seeds(pixels, upto - 1);
        let before = seeds(pixels, upto - 1);
        let now = seeds(pixels, upto);
        if is_opaque(pixels[upto - 1]) {
            assert(now == before.push(upto - 1));
            assert forall|i: int| 0 <= i < upto implies (is_opaque(#[trigger] pixels[i]) <==> now.contains(
                i,
            )) by {
                if i == upto - 1 {
                    assert(now[now.len() - 1] == i);
                } else if is_opaque(pixels[i]) {
                    let k = choose|k: int| 0 <= k < before.len() && before[k] == i;
                    assert(now[k] == i);
                } else if now.contains(i) {
                    let k = choose|k: int| 0 <= k < now.len() && now[k] == i;
                    assert(before[k] == i);
                }
            }
        }
    }
}

/// The first state of a flood is a proper one.
pub proof fn lemma_start_inv(pixels: Seq<Pixel>)
    ensures
        flood_inv(start(pixels)),
{
    lemma_seeds(pixels, pixels.len() as int);
}

/// A proper state has no more queued pixels than there are pixels.
pub proof fn lemma_order_bounded(s: Flood)
    requires
        flood_inv(s),
    ensures
        s.order.len() <= s.pixels.len(),
{
    let all = vstd::set_lib::set_int_range(0, s.pixels.len() as int);
    vstd::set_lib::lemma_int_range(0, s.pixels.len() as int);
    s.order.unique_seq_to_set();
    assert(s.order.to_set().subset_of(all)) by {
        assert forall|v: int| s.order.to_set().contains(v) implies all.contains(v) by {
            let k = choose|k: int| 0 <= k < s.order.len() && s.order[k] == v;
            assert(0 <= s.order[k] < s.pixels.len());
        }
    }
    vstd::set_lib::lemma_len_subset(s.order.to_set(), all);
}

/// Offering a colour keeps the state proper, leaves every alpha and every
/// reached pixel as it was, and forgets no reached pixel.
pub proof fn lemma_reach(s: Flood, from: int, to: Option<int>)
    requires
        flood_inv(s),
    ensures
        flood_inv(reach(s, from, to)),
        reach(s, from, to).head == s.head,
        reach(s, from, to).pixels.len() == s.pixels.len(),
        s.order.is_prefix_of(reach(s, from, to).order),
        forall|i: int|
            0 <= i < s.pixels.len() ==> (#[trigger] reach(s, from, to).pixels[i]).a == s.pixels[i].a,
        forall|i: int|
            0 <= i < s.pixels.len() && s.reached[i] ==> #[trigger] reach(s, from, to).pixels[i]
                == s.pixels[i] && reach(s, from, to).reached[i],
        forall|i: int|
            0 <= i < s.pixels.len() && !reach(s, from, to).reached[i] ==> #[trigger] reach(
                s,
                from,
                to,
            ).pixels[i] == s.pixels[i],
{
    let t = reach(s, from, to);
    match to {
        Some(q) => {
            if 0 <= q < s.pixels.len() && q < s.reached.len() && !s.reached[q] {
                assert(!s.order.contains(q));
                assert(t.order.no_duplicates());
                assert forall|i: int| 0 <= i < t.pixels.len() implies (#[trigger] t.reached[i]
                    <==> t.order.contains(i)) by {
                    if i == q {
                        assert(t.order[t.order.len() - 1] == q);
                    } else if s.reached[i] {
                        let k = choose|k: int| 0 <= k < s.order.len() && s.order[k] == i;
                        assert(t.order[k] == i);
                    } else if t.order.contains(i) {
                        let k = choose|k: int| 0 <= k < t.order.len() && t.order[k] == i;
                        assert(s.order[k] == i);
                    }
                }
            }
        },
        None => {},
    }
}

/// One step of the flood keeps the state proper, leaves every alpha and
/// every reached pixel as it was.
pub proof fn lemma_expand(width: int, s: Flood)
    requires
        flood_inv(s),
        s.head < s.order.len(),
    ensures
        flood_inv(expand(width, s)),
        expand(width, s).head == s.head + 1,
        expand(width, s).pixels.len() == s.pixels.len(),
        s.order.is_prefix_of(expand(width, s).order),
        forall|i: int|
            0 <= i < s.pixels.len() ==> (#[trigger] expand(width, s).pixels[i]).a == s.pixels[i].a,
        forall|i: int|
            0 <= i < s.pixels.len() && s.reached[i] ==> #[trigger] expand(width, s).pixels[i]
                == s.pixels[i] && expand(width, s).reached[i],
        forall|i: int|
            0 <= i < s.pixels.len() && !expand(width, s).reached[i] ==> #[trigger] expand(
                width,
                s,
            ).pixels[i] == s.pixels[i],
{
    let count = s.pixels.len() as int;
    let p = s.order[s.head];
    let s0 = reach(s, p, neighbor(width, count, p, 0));
    lemma_reach(s, p, neighbor(width, count, p, 0));
    let s1 = reach(s0, p, neighbor(width, count, p, 1));
    lemma_reach(s0, p, neighbor(width, count, p, 1));
    let s2 = reach(s1, p, neighbor(width, count, p, 2));
    lemma_reach(s1, p, neighbor(width, count, p, 2));
    let s3 = reach(s2, p, neighbor(width, count, p, 3));
    lemma_reach(s2, p, neighbor(width, count, p, 3));
    assert(s.order.is_prefix_of(s3.order));
}

/// The end of a flood: every queued pixel has spread its colour, every alpha
/// is as it was, a pixel that was reached at the start has kept its colour,
/// and so has one that was never reached.
pub proof fn lemma_flood(width: int, s: Flood)
    requires
        flood_inv(s),
    ensures
        flood_inv(flood(width, s)),
        flood(width, s).head == flood(width, s).order.len(),
        flood(width, s).pixels.len() == s.pixels.len(),
        s.order.is_prefix_of(flood(width, s).order),
        forall|i: int|
            0 <= i < s.pixels.len() ==> (#[trigger] flood(width, s).pixels[i]).a == s.pixels[i].a,
        forall|i: int|
            0 <= i < s.pixels.len() && s.reached[i] ==> #[trigger] flood(width, s).pixels[i]
                == s.pixels[i] && flood(width, s).reached[i],
        forall|i: int|
            0 <= i < s.pixels.len() && !flood(width, s).reached[i] ==> #[trigger] flood(
                width,
                s,
            ).pixels[i] == s.pixels[i],
    decreases s.pixels.len() - s.head,
{
    lemma_order_bounded(s);
    if s.head < s.order.len() {
        lemma_expand(width, s);
        lemma_flood(width, expand(width, s));
    }
}

/// Two flood states that differ at most in the colours of pixels that have
/// not been reached yet.
pub open spec fn agree(s: Flood, t: Flood) -> bool {
    &&& s.reached == t.reached
    &&& s.order == t.order
    &&& s.head == t.head
    &&& s.pixels.len() == t.pixels.len()
    &&& forall|i: int| 0 <= i < s.pixels.len() ==> (#[trigger] s.pixels[i]).a == t.pixels[i].a
    &&& forall|i: int| 0 <= i < s.pixels.len() && s.reached[i] ==> #[trigger] s.pixels[i] == t.pixels[i]
}

proof fn lemma_reach_agree(s: Flood, t: Flood, from: int, to: Option<int>)
    requires
        flood_inv(s),
        flood_inv(t),
        agree(s, t),
        0 <= from < s.pixels.len(),
        s.reached[from],
    ensures
        agree(reach(s, from, to), reach(t, from, to)),
{
    assert(reach(s, from, to).reached =~= reach(t, from, to).reached);
    assert(reach(s, from, to).order =~= reach(t, from, to).order);
}

proof fn lemma_expand_agree(width: int, s: Flood, t: Flood)
    requires
        flood_inv(s),
        flood_inv(t),
        agree(s, t),
        s.head < s.order.len(),
    ensures
        agree(expand(width, s), expand(width, t)),
{
    let count = s.pixels.len() as int;
    let p = s.order[s.head];
    assert(s.order.contains(p));
    let s0 = reach(s, p, neighbor(width, count, p, 0));
    let t0 = reach(t, p, neighbor(width, count, p, 0));
    lemma_reach(s, p, neighbor(width, count, p, 0));
    lemma_reach(t, p, neighbor(width, count, p, 0));
    lemma_reach_agree(s, t, p, neighbor(width, count, p, 0));
    let s1 = reach(s0, p, neighbor(width, count, p, 1));
    let t1 = reach(t0, p, neighbor(width, count, p, 1));
    lemma_reach(s0, p, neighbor(width, count, p, 1));
    lemma_reach(t0, p, neighbor(width, count, p, 1));
    lemma_reach_agree(s0, t0, p, neighbor(width, count, p, 1));
    let s2 = reach(s1, p, neighbor(width, count, p, 2));
    let t2 = reach(t1, p, neighbor(width, count, p, 2));
    lemma_reach(s1, p, neighbor(width, count, p, 2));
    lemma_reach(t1, p, neighbor(width, count, p, 2));
    lemma_reach_agree(s1, t1, p, neighbor(width, count, p, 2));
    lemma_reach_agree(s2, t2, p, neighbor(width, count, p, 3));
}

proof fn lemma_flood_agree(width: int, s: Flood, t: Flood)
    requires
        flood_inv(s),
        flood_inv(t),
        agree(s, t),
    ensures
        agree(flood(width, s), flood(width, t)),
    decreases s.pixels.len() - s.head,
{
    lemma_order_bounded(s);
    if s.head < s.order.len() {
        lemma_expand(width, s);
        lemma_expand(width, t);
        lemma_expand_agree(width, s, t);
        lemma_flood_agree(width, expand(width, s), expand(width, t));
    }
}

proof fn lemma_seeds_by_alpha(a: Seq<Pixel>, b: Seq<Pixel>, upto: int)
    requires
        0 <= upto <= a.len(),
        a.len() == b.len(),
        forall|i: int| 0 <= i < a.len() ==> (#[trigger] a[i]).a == b[i].a,
    ensures
        seeds(a, upto) == seeds(b, upto),
    decreases upto,
{
    if upto > 0 {
        lemma_seeds_by_alpha(a, b, upto - 1);
        assert(a[upto - 1].a == b[upto - 1].a);
    }
}

/// Alpha bleeding keeps the number of pixels and every alpha value, and
/// leaves every pixel that is not fully transparent as it is.
pub proof fn lemma_bleed_keeps_alpha(width: int, pixels: Seq<Pixel>)
    ensures
        bled(width, pixels).len() == pixels.len(),
        forall|i: int| 0 <= i < pixels.len() ==> (#[trigger] bled(width, pixels)[i]).a == pixels[i].a,
        forall|i: int|
            0 <= i < pixels.len() && is_opaque(pixels[i]) ==> #[trigger] bled(width, pixels)[i]
                == pixels[i],
{
    lemma_start_inv(pixels);
    lemma_flood(width, start(pixels));
}

/// Alpha bleeding twice gives what alpha bleeding once gives.
pub proof fn lemma_bleed_idempotent(width: int, pixels: Seq<Pixel>)
    ensures
        bled(width, bled(width, pixels)) == bled(width, pixels),
{
    let s = start(pixels);
    let f = flood(width, s);
    lemma_start_inv(pixels);
    lemma_flood(width, s);
    let t = start(f.pixels);
    lemma_start_inv(f.pixels);
    lemma_seeds_by_alpha(pixels, f.pixels, pixels.len() as int);
    assert(s.reached =~= t.reached);
    assert(agree(s, t));
    lemma_flood_agree(width, s, t);
    let g = flood(width, t);
    lemma_flood(width, t);
    assert(g.pixels =~= f.pixels) by {
        assert forall|i: int| 0 <= i < f.pixels.len() implies g.pixels[i] == f.pixels[i] by {
            if f.reached[i] {
                assert(f.pixels[i] == g.pixels[i]);
            } else {
                assert(!g.reached[i]);
                assert(g.pixels[i] == t.pixels[i]);
            }
        }
    }
}

/// Alpha bleeding the same image gives the same image each time: what comes
/// out depends on nothing but the width and the pixels that go in.
pub proof fn lemma_bleed_is_stable(a: ImageView, b: ImageView)
    requires
        a == b,
    ensures
        bled(a.width as int, a.pixels) == bled(b.width as int, b.pixels),
        rgba_bytes(bled(a.width as int, a.pixels)) == rgba_bytes(bled(b.width as int, b.pixels)),
{
}

/// An image without a fully transparent pixel is left as it is.
pub proof fn lemma_bleed_without_transparent(width: int, pixels: Seq<Pixel>)
    requires
        forall|i: int| 0 <= i < pixels.len() ==> is_opaque(#[trigger] pixels[i]),
    ensures
        bled(width, pixels) == pixels,
{
    lemma_bleed_keeps_alpha(width, pixels);
    assert(bled(width, pixels) =~= pixels);
}

/// An image in which every pixel is fully transparent is left as it is.
pub proof fn lemma_bleed_without_opaque(width: int, pixels: Seq<Pixel>)
    requires
        forall|i: int| 0 <= i < pixels.len() ==> !is_opaque(#[trigger] pixels[i]),
    ensures
        bled(width, pixels) == pixels,
{
    let order = seeds(pixels, pixels.len() as int);
    lemma_seeds(pixels, pixels.len() as int);
    if order.len() > 0 {
        let v = order[0];
        assert(order.contains(v));
        assert(is_opaque(pixels[v]));
    }
}

/// The flood state that the working data of [`alpha_bleed`] stands for.
pub open spec fn snapshot(pixels: Seq<Pixel>, reached: Seq<bool>, queue: Seq<usize>, head: int) -> Flood {
    Flood { pixels, reached, order: indices(queue), head }
}

/// Pixel `from` offers its colour to pixel `to`.
fn offer(
    pixels: &mut Vec<Pixel>,
    reached: &mut Vec<bool>,
    queue: &mut Vec<usize>,
    from: usize,
    to: usize,
    Ghost(head): Ghost<int>,
)
    requires
        from < old(pixels)@.len(),
        to < old(pixels)@.len(),
        old(reached)@.len() == old(pixels)@.len(),
    ensures
        snapshot(final(pixels)@, final(reached)@, final(queue)@, head) == reach(
            snapshot(old(pixels)@, old(reached)@, old(queue)@, head),
            from as int,
            Some(to as int),
        ),
{
    if !reached[to] {
        let source = pixels[from];
        let target = pixels[to];
        pixels.set(to, Pixel { r: source.r, g: source.g, b: source.b, a: target.a });
        reached.set(to, true);
        queue.push(to);
        assert(indices(queue@) =~= indices(old(queue)@).push(to as int));
    }
}

/// Bleeds the colours of the opaque pixels of a pixel array of the given
/// row width into its transparent pixels.
fn bleed_pixels(width: usize, pixels: &mut Vec<Pixel>)
    requires
        old(pixels)@.len() > 0 ==> width > 0,
    ensures
        final(pixels)@ == bled(width as int, old(pixels)@),
{
    let count: usize = pixels.len();
    let mut reached: Vec<bool> = Vec::new();
    let mut queue: Vec<usize> = Vec::new();
    let mut i: usize = 0;
    while i < count
        invariant
            i <= count,
            count == pixels@.len(),
            pixels@ == old(pixels)@,
            reached@.len() == i,
            forall|j: int| 0 <= j < i ==> #[trigger] reached@[j] == is_opaque(pixels@[j]),
            indices(queue@) == seeds(pixels@, i as int),
        decreases count - i,
    {
        let kept = pixels[i].a > 0;
        reached.push(kept);
        if kept {
            let ghost before = queue@;
            queue.push(i);
            assert(indices(queue@) =~= indices(before).push(i as int));
        }
        i += 1;
    }
    assert(reached@ =~= start(old(pixels)@).reached);
    proof {
        lemma_start_inv(old(pixels)@);
    }
    let mut head: usize = 0;
    while head < queue.len()
        invariant
            count == pixels@.len(),
            count > 0 ==> width > 0,
            head <= queue@.len(),
            flood_inv(snapshot(pixels@, reached@, queue@, head as int)),
            flood(width as int, snapshot(pixels@, reached@, queue@, head as int)) == flood(
                width as int,
                start(old(pixels)@),
            ),
        decreases count - head,
    {
        let ghost s = snapshot(pixels@, reached@, queue@, head as int);
        let ghost w = width as int;
        let ghost n = count as int;
        proof {
            lemma_order_bounded(s);
            lemma_expand(w, s);
            assert(s.order[head as int] == queue@[head as int]);
        }
        let p: usize = queue[head];
        let ghost s0 = reach(s, p as int, neighbor(w, n, p as int, 0));
        let ghost s1 = reach(s0, p as int, neighbor(w, n, p as int, 1));
        let ghost s2 = reach(s1, p as int, neighbor(w, n, p as int, 2));
        let ghost s3 = reach(s2, p as int, neighbor(w, n, p as int, 3));
        proof {
            lemma_reach(s, p as int, neighbor(w, n, p as int, 0));
            lemma_reach(s0, p as int, neighbor(w, n, p as int, 1));
            lemma_reach(s1, p as int, neighbor(w, n, p as int, 2));
            lemma_reach(s2, p as int, neighbor(w, n, p as int, 3));
        }
        if p >= width {
            offer(pixels, &mut reached, &mut queue, p, p - width, Ghost(head as int));
        }
        assert(snapshot(pixels@, reached@, queue@, head as int) == s0);
        if p % width != 0 {
            assert(p > 0) by {
                assert(0int % (width as int) == 0);
            }
            offer(pixels, &mut reached, &mut queue, p, p - 1, Ghost(head as int));
        }
        assert(snapshot(pixels@, reached@, queue@, head as int) == s1);
        if p % width != width - 1 && count - p > 1 {
            offer(pixels, &mut reached, &mut queue, p, p + 1, Ghost(head as int));
        }
        assert(snapshot(pixels@, reached@, queue@, head as int) == s2);
        if count - p > width {
            offer(pixels, &mut reached, &mut queue, p, p + width, Ghost(head as int));
        }
        assert(snapshot(pixels@, reached@, queue@, head as int) == s3);
        head += 1;
        assert(snapshot(pixels@, reached@, queue@, head as int) == expand(w, s));
    }
}

/// Replaces the colour of every fully transparent pixel of `img` by the
/// colour of the nearest pixel that is not fully transparent. Alpha values,
/// the pixels that are not fully transparent and the size of the image stay
/// as they are; an image without any such pixel stays as it is.
pub fn alpha_bleed(img: &mut Image)
    requires
        old(img).wf(),
    ensures
        final(img).wf(),
        final(img)@ == (ImageView {
            pixels: bled(old(img)@.width as int, old(img)@.pixels),
            ..old(img)@
        }),
        forall|i: int|
            0 <= i < old(img).pixels@.len() ==> (#[trigger] final(img).pixels@[i]).a == old(
                img,
            ).pixels@[i].a,
        forall|i: int|
            0 <= i < old(img).pixels@.len() && is_opaque(old(img).pixels@[i])
                ==> #[trigger] final(img).pixels@[i] == old(img).pixels@[i],
        forall|i: int, q: int|
            0 <= i < old(img).pixels@.len() && 0 <= q < old(img).pixels@.len() && is_opaque(
                old(img).pixels@[q],
            ) ==> #[trigger] takes_nearest(
                old(img).width as int,
                old(img).pixels@,
                final(img).pixels@,
                i,
                q,
            ),
{
    let width: usize = img.width as usize;
    let ghost before = img.pixels@;
    let ghost height = img.height as int;
    assert(before.len() > 0 ==> width > 0) by (nonlinear_arith)
        requires
            before.len() == img.width * img.height,
            width == img.width,
    ;
    bleed_pixels(width, &mut img.pixels);
    proof {
        lemma_start_inv(before);
        lemma_flood(width as int, start(before));
        assert forall|i: int, q: int|
            0 <= i < before.len() && 0 <= q < before.len() && is_opaque(
                before[q],
            ) implies #[trigger] takes_nearest(width as int, before, img.pixels@, i, q) by {
            lemma_bleed_takes_nearest(width as int, height, before, i, q);
        }
    }
}

} // verus!
