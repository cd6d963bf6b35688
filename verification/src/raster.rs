//! Disc rasterization into a flat row-major pixel buffer.
//!
//! A canvas of `width * height` cells is stored as one `Vec<u32>` of packed
//! RGB colors; the cell for pixel column `px` and row `py` is index
//! `py * width + px`. Filling a disc paints exactly the in-canvas pixels
//! whose center lies within Euclidean distance `r` of the disc center;
//! offsets that fall outside the canvas are silently skipped.

use vstd::arithmetic::div_mod::lemma_fundamental_div_mod;
use vstd::arithmetic::div_mod::lemma_fundamental_div_mod_converse;
use vstd::arithmetic::div_mod::lemma_mod_bound;
use vstd::prelude::*;

verus! {

/// Whether the pixel at column `px`, row `py` lies within Euclidean distance
/// `r` of the center `(cx, cy)`: the disc membership test, not perimeter-only.
pub open spec fn covers(px: int, py: int, cx: int, cy: int, r: int) -> bool {
    (px - cx) * (px - cx) + (py - cy) * (py - cy) <= r * r
}

/// Whether buffer index `i` of a canvas `w` cells wide names a pixel within
/// distance `r` of the center `(cx, cy)`.
pub open spec fn disc_hit(i: int, w: int, cx: int, cy: int, r: int) -> bool {
    covers(i % w, i / w, cx, cy, r)
}

/// The full effect of one disc fill: `post` equals `pre` with exactly the
/// covered cells set to `color`.
pub open spec fn disc_painted(
    pre: Seq<u32>,
    post: Seq<u32>,
    w: int,
    cx: int,
    cy: int,
    r: int,
    color: u32,
) -> bool {
    &&& post.len() == pre.len()
    &&& forall|i: int|
        0 <= i < pre.len() ==> post[i] == (if disc_hit(i, w, cx, cy, r) {
            color
        } else {
            pre[i]
        })
}

/// A square bound on an integer bounds the integer itself.
proof fn lemma_abs_le_of_sq_le(a: int, r: int)
    requires
        a * a <= r * r,
        0 <= r,
    ensures
        -r <= a <= r,
{
    assert(-r <= a <= r) by (nonlinear_arith)
        requires
            a * a <= r * r,
            0 <= r,
    ;
}

/// Every index of a `w`-wide, `h`-tall canvas decomposes into an in-canvas
/// column and row.
proof fn lemma_index_decompose(i: int, w: int, h: int)
    requires
        0 < w,
        0 <= i < w * h,
    ensures
        0 <= i % w < w,
        0 <= i / w < h,
        i == w * (i / w) + (i % w),
{
    lemma_fundamental_div_mod(i, w);
    lemma_mod_bound(i, w);
    assert(0 <= i / w < h) by (nonlinear_arith)
        requires
            0 < w,
            0 <= i < w * h,
            i == w * (i / w) + (i % w),
            0 <= i % w < w,
    ;
}

/// An in-canvas column and row name exactly one index of the buffer.
proof fn lemma_index_compose(px: int, py: int, w: int, h: int)
    requires
        0 <= px < w,
        0 <= py < h,
    ensures
        0 <= py * w + px < w * h,
        (py * w + px) % w == px,
        (py * w + px) / w == py,
{
    assert(0 <= py * w + px < w * h) by (nonlinear_arith)
        requires
            0 <= px < w,
            0 <= py < h,
    ;
    lemma_fundamental_div_mod_converse(py * w + px, w, py, px);
}

/// Overwrites every cell of the buffer with `color`: the per-frame clear.
pub fn fill_buffer(buffer: &mut Vec<u32>, color: u32)
    ensures
        final (buffer).len() == old(buffer).len(),
        forall|i: int| 0 <= i < old(buffer).len() ==> final (buffer)@[i] == color,
{
    let n = buffer.len();
    let mut k: usize = 0;
    while k < n
        invariant
            n == buffer.len(),
            k <= n,
            forall|i: int| 0 <= i < k ==> buffer@[i] == color,
        decreases n - k,
    {
        buffer.set(k, color);
        k = k + 1;
    }
}

/// Paints the disc of radius `r` centered at pixel `(cx, cy)` onto the
/// canvas, in place: exactly the in-canvas cells whose pixel lies within
/// distance `r` of the center receive `color`; every other cell, and every
/// offset that falls outside the canvas, is left untouched.
pub fn fill_disc(
    buffer: &mut Vec<u32>,
    width: usize,
    height: usize,
    cx: i64,
    cy: i64,
    r: i64,
    color: u32,
)
    requires
        old(buffer).len() == width * height,
        0 <= r <= 2_000_000_000,
        -100_000_000_000_000 <= cx <= 100_000_000_000_000,
        -100_000_000_000_000 <= cy <= 100_000_000_000_000,
        width <= 1_000_000_000,
        height <= 1_000_000_000,
    ensures
        disc_painted(
            old(buffer)@,
            final (buffer)@,
            width as int,
            cx as int,
            cy as int,
            r as int,
            color,
        ),
{
    let ghost pre = old(buffer)@;
    let ghost w = width as int;
    let ghost h = height as int;
    proof {
        assert forall|i: int|
            0 <= i < pre.len() && disc_hit(i, w, cx as int, cy as int, r as int) implies cy as int
            - r as int <= i / w by {
            assert(0 < w) by (nonlinear_arith)
                requires
                    0 < w * h,
                    0 <= w,
                    0 <= h,
            ;
            lemma_index_decompose(i, w, h);
            assert((i / w - cy as int) * (i / w - cy as int) <= r as int * (r as int))
                by (nonlinear_arith)
                requires
                    (i % w - cx as int) * (i % w - cx as int) + (i / w - cy as int) * (i / w
                        - cy as int) <= r as int * (r as int),
            ;
            lemma_abs_le_of_sq_le(i / w - cy as int, r as int);
        }
    }
    let mut dy: i64 = -r;
    while dy <= r
        invariant
            old(buffer).len() == width * height,
            buffer.len() == pre.len(),
            pre == old(buffer)@,
            w == width as int,
            h == height as int,
            0 <= r <= 2_000_000_000,
            -100_000_000_000_000 <= cx <= 100_000_000_000_000,
            -100_000_000_000_000 <= cy <= 100_000_000_000_000,
            width <= 1_000_000_000,
            height <= 1_000_000_000,
            -r <= dy <= r + 1,
            forall|i: int|
                0 <= i < pre.len() ==> buffer@[i] == (if disc_hit(
                    i,
                    w,
                    cx as int,
                    cy as int,
                    r as int,
                ) && i / w < cy + dy {
                    color
                } else {
                    pre[i]
                }),
        decreases r + 1 - dy,
    {
        let py: i64 = cy + dy;
        proof {
            assert forall|i: int|
                0 <= i < pre.len() && disc_hit(i, w, cx as int, cy as int, r as int) && i / w
                == py as int implies cx as int - r as int <= i % w by {
                assert(0 < w) by (nonlinear_arith)
                    requires
                        0 < w * h,
                        0 <= w,
                        0 <= h,
                ;
                lemma_index_decompose(i, w, h);
                assert((i % w - cx as int) * (i % w - cx as int) <= r as int * (r as int))
                    by (nonlinear_arith)
                    requires
                        (i % w - cx as int) * (i % w - cx as int) + (i / w - cy as int) * (i / w
                            - cy as int) <= r as int * (r as int),
                ;
                lemma_abs_le_of_sq_le(i % w - cx as int, r as int);
            }
        }
        let mut dx: i64 = -r;
        while dx <= r
            invariant
                old(buffer).len() == width * height,
                buffer.len() == pre.len(),
                pre == old(buffer)@,
                w == width as int,
                h == height as int,
                0 <= r <= 2_000_000_000,
                -100_000_000_000_000 <= cx <= 100_000_000_000_000,
                -100_000_000_000_000 <= cy <= 100_000_000_000_000,
                width <= 1_000_000_000,
                height <= 1_000_000_000,
                -r <= dy <= r,
                py == cy + dy,
                -r <= dx <= r + 1,
                forall|i: int|
                    0 <= i < pre.len() ==> buffer@[i] == (if disc_hit(
                        i,
                        w,
                        cx as int,
                        cy as int,
                        r as int,
                    ) && (i / w < py || (i / w == py && i % w < cx + dx)) {
                        color
                    } else {
                        pre[i]
                    }),
            decreases r + 1 - dx,
        {
            proof {
                assert(0 <= dx * dx <= 4_000_000_000_000_000_000) by (nonlinear_arith)
                    requires
                        -2_000_000_000 <= dx <= 2_000_000_000,
                ;
                assert(0 <= dy * dy <= 4_000_000_000_000_000_000) by (nonlinear_arith)
                    requires
                        -2_000_000_000 <= dy <= 2_000_000_000,
                ;
                assert(0 <= r * r <= 4_000_000_000_000_000_000) by (nonlinear_arith)
                    requires
                        0 <= r <= 2_000_000_000,
                ;
            }
            let ghost before = buffer@;
            let ghost cxi = cx as int;
            let ghost cyi = cy as int;
            let ghost ri = r as int;
            if dx * dx + dy * dy <= r * r {
                let px: i64 = cx + dx;
                if px >= 0 && py >= 0 && (px as u64) < (width as u64) && (py as u64) < (height
                    as u64) {
                    proof {
                        lemma_index_compose(px as int, py as int, w, h);
                    }
                    let idx: usize = (py as usize) * width + (px as usize);
                    buffer.set(idx, color);
                    proof {
                        assert forall|i: int|
                            0 <= i < pre.len() implies buffer@[i] == (if disc_hit(
                            i,
                            w,
                            cxi,
                            cyi,
                            ri,
                        ) && (i / w < py || (i / w == py && i % w < cxi + dx + 1)) {
                            color
                        } else {
                            pre[i]
                        }) by {
                            assert(0 < w) by (nonlinear_arith)
                                requires
                                    0 < w * h,
                                    0 <= w,
                                    0 <= h,
                            ;
                            lemma_index_decompose(i, w, h);
                            let pxi = i % w;
                            let pyi = i / w;
                            assert(idx as int == (py as int) * w + (px as int));
                            if i == idx as int {
                                assert(pxi == px as int && pyi == py as int);
                                assert((pxi - cxi) * (pxi - cxi) + (pyi - cyi) * (pyi - cyi) == (dx
                                    * dx + dy * dy) as int);
                                assert(disc_hit(i, w, cxi, cyi, ri));
                                assert(buffer@[i] == color);
                            } else {
                                assert(buffer@[i] == before[i]);
                                if pyi == py as int && pxi == cxi + dx {
                                    assert(i == w * pyi + pxi);
                                    assert(w * pyi == pyi * w) by (nonlinear_arith);
                                    assert(i == idx as int);
                                }
                            }
                        }
                    }
                } else {
                    proof {
                        assert forall|i: int|
                            0 <= i < pre.len() && disc_hit(i, w, cxi, cyi, ri) implies !(i / w
                            == py as int && i % w == cxi + dx) by {
                            assert(0 < w) by (nonlinear_arith)
                                requires
                                    0 < w * h,
                                    0 <= w,
                                    0 <= h,
                            ;
                            lemma_index_decompose(i, w, h);
                        }
                    }
                }
            } else {
                proof {
                    assert forall|i: int|
                        0 <= i < pre.len() && disc_hit(i, w, cxi, cyi, ri) implies !(i / w
                        == py as int && i % w == cxi + dx) by {
                        assert(0 < w) by (nonlinear_arith)
                            requires
                                0 < w * h,
                                0 <= w,
                                0 <= h,
                        ;
                        lemma_index_decompose(i, w, h);
                        if i / w == py as int && i % w == cxi + dx {
                            assert((i % w - cxi) * (i % w - cxi) + (i / w - cyi) * (i / w - cyi)
                                == (dx * dx + dy * dy) as int);
                        }
                    }
                }
            }
            dx = dx + 1;
        }
        proof {
            let cxi = cx as int;
            let cyi = cy as int;
            let ri = r as int;
            assert forall|i: int|
                0 <= i < pre.len() implies buffer@[i] == (if disc_hit(i, w, cxi, cyi, ri) && i / w
                < cyi + dy + 1 {
                color
            } else {
                pre[i]
            }) by {
                assert(0 < w) by (nonlinear_arith)
                    requires
                        0 < w * h,
                        0 <= w,
                        0 <= h,
                ;
                lemma_index_decompose(i, w, h);
                let pxi = i % w;
                let pyi = i / w;
                if disc_hit(i, w, cxi, cyi, ri) && pyi == py as int {
                    assert((pxi - cxi) * (pxi - cxi) <= ri * ri) by (nonlinear_arith)
                        requires
                            (pxi - cxi) * (pxi - cxi) + (pyi - cyi) * (pyi - cyi) <= ri * ri,
                    ;
                    lemma_abs_le_of_sq_le(pxi - cxi, ri);
                }
            }
        }
        dy = dy + 1;
    }
    proof {
        let cxi = cx as int;
        let cyi = cy as int;
        let ri = r as int;
        assert forall|i: int| 0 <= i < pre.len() implies buffer@[i] == (if disc_hit(
            i,
            w,
            cxi,
            cyi,
            ri,
        ) {
            color
        } else {
            pre[i]
        }) by {
            assert(0 < w) by (nonlinear_arith)
                requires
                    0 < w * h,
                    0 <= w,
                    0 <= h,
            ;
            lemma_index_decompose(i, w, h);
            let pyi = i / w;
            if disc_hit(i, w, cxi, cyi, ri) {
                assert(((i % w) - cxi) * ((i % w) - cxi) + (pyi - cyi) * (pyi - cyi) <= ri * ri);
                assert((pyi - cyi) * (pyi - cyi) <= ri * ri) by (nonlinear_arith)
                    requires
                        ((i % w) - cxi) * ((i % w) - cxi) + (pyi - cyi) * (pyi - cyi) <= ri * ri,
                ;
                lemma_abs_le_of_sq_le(pyi - cyi, ri);
            }
        }
    }
}

/// A cell changed by a disc fill always names an in-canvas pixel covered by
/// the disc: the fill never writes outside the canvas.
pub proof fn lemma_fill_stays_in_canvas(
    pre: Seq<u32>,
    post: Seq<u32>,
    w: int,
    h: int,
    cx: int,
    cy: int,
    r: int,
    color: u32,
    i: int,
)
    requires
        0 <= w,
        0 <= h,
        pre.len() == w * h,
        disc_painted(pre, post, w, cx, cy, r, color),
        0 <= i < post.len(),
        post[i] != pre[i],
    ensures
        0 <= i % w < w,
        0 <= i / w < h,
        covers(i % w, i / w, cx, cy, r),
{
    assert(0 < w) by (nonlinear_arith)
        requires
            0 < w * h,
            0 <= w,
            0 <= h,
    ;
    lemma_index_decompose(i, w, h);
}

/// Filling the same disc twice over an unchanged buffer changes nothing the
/// second time: the same cells receive the same color again.
pub proof fn lemma_fill_idempotent(
    pre: Seq<u32>,
    mid: Seq<u32>,
    post: Seq<u32>,
    w: int,
    cx: int,
    cy: int,
    r: int,
    color: u32,
)
    requires
        disc_painted(pre, mid, w, cx, cy, r, color),
        disc_painted(mid, post, w, cx, cy, r, color),
    ensures
        post == mid,
{
    assert(post =~= mid);
}

} // verus!
