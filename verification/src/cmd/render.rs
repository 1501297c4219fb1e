//! Render commands: camera setters, texture-dimension updates, and shape
//! submission with its capacity policy.

use vstd::prelude::*;

use crate::context::Context;
use crate::render::Mat3Bits;
use crate::render::Globals;
use crate::render::Shape;
use crate::render::Size2;
use crate::render::SubmitError;
use crate::render::Vec3Bits;
use crate::render::MAX_RECORDS;
use crate::render::count_records;
use crate::render::node_count;
use crate::render::total_node_count;

verus! {

/// Sets the internal camera position.
pub fn set_camera_pos(ctx: &mut Context, pos: Vec3Bits)
    ensures
        final(ctx).render.globals == (Globals { camera_pos: pos, ..old(ctx).render.globals }),
        final(ctx).render.window_size == old(ctx).render.window_size,
        final(ctx).render.resolution == old(ctx).render.resolution,
        final(ctx).render.shapes@ == old(ctx).render.shapes@,
        final(ctx).render.pending_records == old(ctx).render.pending_records,
        final(ctx).input == old(ctx).input,
        final(ctx).time == old(ctx).time,
{
    ctx.render.globals.camera_pos = pos;
}

/// Sets the internal camera rotation.
pub fn set_camera_rot(ctx: &mut Context, rot: Mat3Bits)
    ensures
        final(ctx).render.globals == (Globals { camera_rot: rot, ..old(ctx).render.globals }),
        final(ctx).render.window_size == old(ctx).render.window_size,
        final(ctx).render.resolution == old(ctx).render.resolution,
        final(ctx).render.shapes@ == old(ctx).render.shapes@,
        final(ctx).render.pending_records == old(ctx).render.pending_records,
        final(ctx).input == old(ctx).input,
        final(ctx).time == old(ctx).time,
{
    ctx.render.globals.camera_rot = rot;
}

/// Sets the internal camera focal length.
///
/// The argument is an `f32` bit pattern; the bounds admit exactly the
/// patterns of values strictly greater than zero (positive and neither
/// zero, NaN, nor negative), which is what the camera needs.
pub fn set_focal_length(ctx: &mut Context, focal_length: u32)
    requires
        0 < focal_length <= 0x7F80_0000,
    ensures
        final(ctx).render.globals == (Globals {
            focal_length,
            ..old(ctx).render.globals
        }),
        final(ctx).render.window_size == old(ctx).render.window_size,
        final(ctx).render.resolution == old(ctx).render.resolution,
        final(ctx).render.shapes@ == old(ctx).render.shapes@,
        final(ctx).render.pending_records == old(ctx).render.pending_records,
        final(ctx).input == old(ctx).input,
        final(ctx).time == old(ctx).time,
{
    ctx.render.globals.focal_length = focal_length;
}

/// Sets the screen dimensions the raymarcher renders for.  Degenerate
/// dimensions are excluded: the shader divides by them.
pub fn resize(ctx: &mut Context, width: u32, height: u32)
    requires
        width != 0 || height != 0,
    ensures
        final(ctx).render.globals == (Globals {
            screen_dim: Size2 { width, height },
            ..old(ctx).render.globals
        }),
        final(ctx).render.window_size == old(ctx).render.window_size,
        final(ctx).render.resolution == old(ctx).render.resolution,
        final(ctx).render.shapes@ == old(ctx).render.shapes@,
        final(ctx).render.pending_records == old(ctx).render.pending_records,
        final(ctx).input == old(ctx).input,
        final(ctx).time == old(ctx).time,
{
    ctx.render.globals.screen_dim = Size2 { width, height };
}

/// Submits one shape tree for this frame.
///
/// Succeeds exactly when the tree's flattened record count, added to the
/// running total of the roots already pending, still fits [`MAX_RECORDS`];
/// otherwise nothing changes and the capacity violation is reported before
/// any encoding or upload happens.
pub fn render_shape(ctx: &mut Context, shape: Shape) -> (r: Result<(), SubmitError>)
    requires
        old(ctx).render.wf(),
    ensures
        final(ctx).render.wf(),
        total_node_count(old(ctx).render.shapes@) + node_count(shape) <= MAX_RECORDS ==> {
            &&& r is Ok
            &&& final(ctx).render.shapes@ == old(ctx).render.shapes@.push(shape)
        },
        total_node_count(old(ctx).render.shapes@) + node_count(shape) > MAX_RECORDS ==> {
            &&& r == Result::<(), SubmitError>::Err(SubmitError::CapacityExceeded)
            &&& *final(ctx) == *old(ctx)
        },
        final(ctx).render.globals == old(ctx).render.globals,
        final(ctx).render.window_size == old(ctx).render.window_size,
        final(ctx).render.resolution == old(ctx).render.resolution,
        final(ctx).input == old(ctx).input,
        final(ctx).time == old(ctx).time,
{
    let n = count_records(&shape);
    let slack = MAX_RECORDS - ctx.render.pending_records;
    if n <= slack {
        ctx.render.pending_records = ctx.render.pending_records + n;
        ctx.render.shapes.push(shape);
        proof {
            assert(ctx.render.shapes@.drop_last() =~= old(ctx).render.shapes@);
        }
        Ok(())
    } else {
        Err(SubmitError::CapacityExceeded)
    }
}

/// Submits a list of shape trees in order, stopping at the first one that
/// no longer fits.
///
/// Succeeds exactly when the whole list fits; on failure the roots before
/// the first offending tree stay submitted (each submission either fits or
/// is refused as a unit) and the rest of the list is dropped.
#[verifier::loop_isolation(false)]
pub fn render_shapes(ctx: &mut Context, shapes: Vec<Shape>) -> (r: Result<(), SubmitError>)
    requires
        old(ctx).render.wf(),
    ensures
        final(ctx).render.wf(),
        total_node_count(old(ctx).render.shapes@) + total_node_count(shapes@) <= MAX_RECORDS
            ==> {
            &&& r is Ok
            &&& final(ctx).render.shapes@ == old(ctx).render.shapes@ + shapes@
        },
        total_node_count(old(ctx).render.shapes@) + total_node_count(shapes@) > MAX_RECORDS
            ==> {
            &&& r == Result::<(), SubmitError>::Err(SubmitError::CapacityExceeded)
            &&& exists|k: int|
                {
                    &&& 0 <= k < shapes@.len()
                    &&& final(ctx).render.shapes@ == old(ctx).render.shapes@ + shapes@.take(k)
                    &&& total_node_count(old(ctx).render.shapes@) + total_node_count(
                        shapes@.take(k),
                    ) <= MAX_RECORDS
                    &&& total_node_count(old(ctx).render.shapes@) + total_node_count(
                        shapes@.take(k),
                    ) + node_count(shapes@[k]) > MAX_RECORDS
                }
        },
        final(ctx).render.globals == old(ctx).render.globals,
        final(ctx).render.window_size == old(ctx).render.window_size,
        final(ctx).render.resolution == old(ctx).render.resolution,
        final(ctx).input == old(ctx).input,
        final(ctx).time == old(ctx).time,
{
    let ghost all = shapes@;
    let mut shapes = shapes;
    let ghost base = ctx.render.shapes@;
    let ghost mut k: int = 0;
    while shapes.len() > 0
        invariant
            ctx.render.wf(),
            0 <= k <= all.len(),
            shapes@ == all.subrange(k, all.len() as int),
            ctx.render.shapes@ == base + all.take(k),
            total_node_count(base) + total_node_count(all.take(k)) <= MAX_RECORDS,
            ctx.render.globals == old(ctx).render.globals,
            ctx.render.window_size == old(ctx).render.window_size,
            ctx.render.resolution == old(ctx).render.resolution,
            ctx.input == old(ctx).input,
            ctx.time == old(ctx).time,
            base == old(ctx).render.shapes@,
        decreases shapes.len(),
    {
        let shape = shapes.remove(0);
        proof {
            assert(shape == all[k]);
            assert(shapes@ =~= all.subrange(k + 1, all.len() as int));
            lemma_total_node_count_concat(base, all.take(k));
        }
        let res = render_shape(ctx, shape);
        proof {
            assert(all.take(k + 1).drop_last() =~= all.take(k));
        }
        match res {
            Ok(_) => {
                proof {
                    assert(ctx.render.shapes@ =~= base + all.take(k + 1));
                }
            },
            Err(e) => {
                proof {
                    lemma_total_node_count_prefix_bound(all, k);
                    let kk = k;
                    assert(exists|j: int|
                        {
                            &&& 0 <= j < all.len()
                            &&& ctx.render.shapes@ == base + all.take(j)
                            &&& total_node_count(base) + total_node_count(all.take(j))
                                <= MAX_RECORDS
                            &&& total_node_count(base) + total_node_count(all.take(j))
                                + node_count(all[j]) > MAX_RECORDS
                        }) by {
                        assert(0 <= kk < all.len());
                        assert(ctx.render.shapes@ == base + all.take(kk));
                        assert(total_node_count(base) + total_node_count(all.take(kk))
                            + node_count(all[kk]) > MAX_RECORDS);
                    }
                    assert(total_node_count(base) + total_node_count(all) > MAX_RECORDS);
                }
                return Err(e);
            },
        }
        proof {
            k = k + 1;
        }
    }
    proof {
        assert(all.take(all.len() as int) =~= all);
        assert(total_node_count(base) + total_node_count(all) <= MAX_RECORDS);
    }
    Ok(())
}

/// The total node count of a concatenation is the sum of the parts'.
proof fn lemma_total_node_count_concat(a: Seq<Shape>, b: Seq<Shape>)
    ensures
        total_node_count(a + b) == total_node_count(a) + total_node_count(b),
    decreases b.len(),
{
    if b.len() == 0 {
        assert(a + b =~= a);
    } else {
        assert((a + b).drop_last() =~= a + b.drop_last());
        lemma_total_node_count_concat(a, b.drop_last());
    }
}

/// A list's total node count bounds the total of any prefix plus the node
/// count of the next element.
proof fn lemma_total_node_count_prefix_bound(all: Seq<Shape>, k: int)
    requires
        0 <= k < all.len(),
    ensures
        total_node_count(all.take(k)) + node_count(all[k]) <= total_node_count(all),
{
    assert(all.take(k + 1).drop_last() =~= all.take(k));
    assert(total_node_count(all.take(k + 1)) == total_node_count(all.take(k)) + node_count(
        all[k],
    ));
    lemma_total_node_count_take_monotone(all, k + 1);
}

/// Taking a prefix never increases the total node count.
proof fn lemma_total_node_count_take_monotone(all: Seq<Shape>, k: int)
    requires
        0 <= k <= all.len(),
    ensures
        total_node_count(all.take(k)) <= total_node_count(all),
    decreases all.len() - k,
{
    if k < all.len() {
        assert(all.take(k + 1).drop_last() =~= all.take(k));
        lemma_total_node_count_take_monotone(all, k + 1);
        if k + 1 == all.len() {
            assert(all.take(k + 1) =~= all);
        }
    } else {
        assert(all.take(k) =~= all);
    }
}

} // verus!
