use vstd::prelude::*;

use crate::color::Color;
use crate::framebuffer::{lemma_pixel_index_bounds, Framebuffer};
use crate::intersect::{Intersect, FAR};

verus! {

/// `hits[i]` is the nearest counting hit of a ray, the first one among equals.
pub open spec fn is_nearest(hits: Seq<Intersect>, i: int) -> bool {
    &&& 0 <= i < hits.len()
    &&& hits[i].counts()
    &&& forall|j: int|
        0 <= j < hits.len() && #[trigger] hits[j].counts() ==> hits[i].distance <= hits[j].distance
    &&& forall|j: int| 0 <= j < i && #[trigger] hits[j].counts() ==> hits[i].distance < hits[j].distance
}

/// Some record among `hits` counts.
pub open spec fn any_hit(hits: Seq<Intersect>) -> bool {
    exists|i: int| 0 <= i < hits.len() && #[trigger] hits[i].counts()
}

/// The color a ray gets from the records of all primitives it was tested
/// against: the diffuse color of the nearest hit, or the background.
pub open spec fn ray_color(hits: Seq<Intersect>) -> Color {
    if any_hit(hits) {
        hits[choose|i: int| is_nearest(hits, i)].material.diffuse
    } else {
        Color::background_spec()
    }
}

/// At most one record is the nearest.
pub proof fn lemma_nearest_unique(hits: Seq<Intersect>, i: int, k: int)
    requires
        is_nearest(hits, i),
        is_nearest(hits, k),
    ensures
        i == k,
{
    if i < k {
        assert(hits[i].counts());
    } else if k < i {
        assert(hits[k].counts());
    }
}

/// Picks the index of the nearest hit, testing the records in order; on equal
/// distances the first one wins. `None` when no record counts.
pub fn nearest_hit(hits: &Vec<Intersect>) -> (r: Option<usize>)
    ensures
        r is None <==> !any_hit(hits@),
        r matches Some(i) ==> is_nearest(hits@, i as int),
{
    let mut best: Option<usize> = None;
    let mut zbuffer: u32 = FAR;
    let mut k: usize = 0;
    while k < hits.len()
        invariant
            k <= hits@.len(),
            best is None ==> zbuffer == FAR && forall|j: int| 0 <= j < k ==> !(#[trigger] hits@[j].counts()),
            best matches Some(b) ==> {
                &&& b < k
                &&& hits@[b as int].counts()
                &&& zbuffer == hits@[b as int].distance
                &&& forall|j: int| 0 <= j < k && #[trigger] hits@[j].counts()
                        ==> hits@[b as int].distance <= hits@[j].distance
                &&& forall|j: int| 0 <= j < b && #[trigger] hits@[j].counts()
                        ==> hits@[b as int].distance < hits@[j].distance
            },
        decreases hits@.len() - k,
    {
        let tmp = hits[k];
        if tmp.is_intersecting && tmp.distance < zbuffer {
            zbuffer = tmp.distance;
            best = Some(k);
        }
        k = k + 1;
    }
    proof {
        if best is None {
            assert(!any_hit(hits@));
        }
    }
    best
}

/// The color of one ray, given what each primitive of the scene reported for
/// it, in scene order. Shading is flat: the winning material's diffuse color
/// as it stands.
pub fn cast_ray(hits: &Vec<Intersect>) -> (c: Color)
    ensures
        c == ray_color(hits@),
        (forall|i: int| 0 <= i < hits@.len() ==> !(#[trigger] hits@[i]).is_intersecting)
            ==> c == Color::background_spec(),
        any_hit(hits@) ==> exists|i: int| is_nearest(hits@, i) && c == hits@[i].material.diffuse,
{
    match nearest_hit(hits) {
        None => Color::background(),
        Some(i) => {
            proof {
                let w = choose|j: int| is_nearest(hits@, j);
                lemma_nearest_unique(hits@, i as int, w);
            }
            hits[i].material.diffuse
        },
    }
}

/// A record whose distance is below that of every other counting record
/// decides the color, wherever it stands in the scene order.
pub proof fn lemma_strictly_nearest_wins(hits: Seq<Intersect>, i: int)
    requires
        0 <= i < hits.len(),
        hits[i].counts(),
        forall|j: int|
            0 <= j < hits.len() && j != i && #[trigger] hits[j].counts()
                ==> hits[i].distance < hits[j].distance,
    ensures
        ray_color(hits) == hits[i].material.diffuse,
{
    assert(is_nearest(hits, i));
    let w = choose|j: int| is_nearest(hits, j);
    lemma_nearest_unique(hits, i, w);
}

/// Of two records that both count, the nearer one gives the color in either
/// order.
pub proof fn lemma_nearer_of_two_wins(near: Intersect, far: Intersect)
    requires
        near.counts(),
        far.counts(),
        near.distance < far.distance,
    ensures
        ray_color(seq![near, far]) == near.material.diffuse,
        ray_color(seq![far, near]) == near.material.diffuse,
{
    let s1 = seq![near, far];
    let s2 = seq![far, near];
    assert(s1[0] == near && s1[1] == far);
    assert(s2[0] == far && s2[1] == near);
    lemma_strictly_nearest_wins(s1, 0);
    lemma_strictly_nearest_wins(s2, 1);
}

/// The pixels of a frame, row-major, given the records of every pixel's ray.
pub open spec fn frame_of(hits: Seq<Vec<Intersect>>) -> Seq<u32> {
    Seq::new(hits.len(), |i: int| ray_color(hits[i]@).hex_spec() as u32)
}

/// `after` is `before` with every pixel redrawn from `hits`.
pub open spec fn renders(before: Framebuffer, after: Framebuffer, hits: Seq<Vec<Intersect>>) -> bool {
    &&& after.wf()
    &&& after.width == before.width
    &&& after.height == before.height
    &&& after.buffer@ == frame_of(hits)
    &&& after.current_color == frame_of(hits).last()
}

/// Redraws the whole frame. `hits[y * width + x]` holds what each primitive of
/// the scene, in scene order, reported for the ray through pixel `(x, y)`;
/// each pixel gets that ray's color, written through the current draw color.
pub fn render(framebuffer: &mut Framebuffer, hits: &Vec<Vec<Intersect>>)
    requires
        old(framebuffer).wf(),
        hits@.len() == old(framebuffer).width * old(framebuffer).height,
    ensures
        renders(*old(framebuffer), *final(framebuffer), hits@),
{
    let width = framebuffer.width;
    let height = framebuffer.height;
    let ghost frame = frame_of(hits@);
    let mut y: usize = 0;
    while y < height
        invariant
            framebuffer.wf(),
            framebuffer.width == width,
            framebuffer.height == height,
            hits@.len() == width * height,
            frame == frame_of(hits@),
            y <= height,
            forall|i: int| 0 <= i < y * width ==> framebuffer.buffer@[i] == #[trigger] frame[i],
            y > 0 ==> framebuffer.current_color == frame[y * width - 1],
        decreases height - y,
    {
        let mut x: usize = 0;
        while x < width
            invariant
                framebuffer.wf(),
                framebuffer.width == width,
                framebuffer.height == height,
                hits@.len() == width * height,
                frame == frame_of(hits@),
                y < height,
                x <= width,
                forall|i: int| 0 <= i < y * width + x ==> framebuffer.buffer@[i] == #[trigger] frame[i],
                x > 0 ==> framebuffer.current_color == frame[y * width + x - 1],
                x == 0 && y > 0 ==> framebuffer.current_color == frame[y * width - 1],
            decreases width - x,
        {
            proof {
                lemma_pixel_index_bounds(width as int, height as int, x as int, y as int);
            }
            let i = y * width + x;
            let color = cast_ray(&hits[i]);
            framebuffer.set_current_color(color.to_hex());
            let _ = framebuffer.point(x, y);
            x = x + 1;
        }
        proof {
            assert((y + 1) * width == y * width + width) by (nonlinear_arith);
        }
        y = y + 1;
    }
    proof {
        assert(height * width == width * height) by (nonlinear_arith);
        assert(framebuffer.buffer@ =~= frame);
    }
}

/// Rendering the same records again leaves the same pixels: a frame depends on
/// the records alone, not on what the buffer held before.
pub proof fn lemma_render_repeatable(
    first: Framebuffer,
    second: Framebuffer,
    third: Framebuffer,
    hits: Seq<Vec<Intersect>>,
)
    requires
        renders(first, second, hits),
        renders(second, third, hits),
    ensures
        third.buffer@ == second.buffer@,
        third.current_color == second.current_color,
{
}

} // verus!
