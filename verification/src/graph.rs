//! Scaling of the retained history into the line segments of the trend
//! graph: the arithmetic half of the plot. Drawing the segments is the
//! display collaborator's job; computing them is the library's.

use vstd::prelude::*;

use crate::history::{seq_max_u16, History};
use vstd::arithmetic::div_mod::{lemma_div_nonincreasing, lemma_div_pos_is_pos};
use vstd::arithmetic::mul::lemma_mul_inequality;

verus! {

/// Abscissa of point `i` when `n` points span `width` pixels.
pub open spec fn graph_x(i: int, width: int, n: int) -> int {
    (i * width) / (n - 1)
}

/// Ordinate of reading `v` scaled against the maximum `max` over `height`
/// pixels, measured from the top edge of the plot.
pub open spec fn graph_y(v: int, max: int, height: int) -> int {
    height - (v * height) / max
}

/// The trend plot's line segments `(x0, y0, x1, y1)`, one per adjacent pair
/// of retained readings, oldest first, scaled so the readings span `width`
/// pixels and the largest reading touches the top edge. Empty when fewer
/// than two readings are retained, or when every reading is zero and there
/// is nothing to scale against.
pub fn graph_segments(history: &History, width: i32, height: i32) -> (segs: Vec<
    (i32, i32, i32, i32),
>)
    requires
        history.wf(),
        history@.len() <= i32::MAX,
        0 <= width,
        0 <= height,
        (history@.len() - 1) * width <= i32::MAX,
        65535 * height <= i32::MAX,
    ensures
        history@.len() < 2 || seq_max_u16(history@) == 0 ==> segs@.len() == 0,
        history@.len() >= 2 && seq_max_u16(history@) != 0 ==> segs@.len() == history@.len() - 1,
        forall|j: int|
            0 <= j < segs@.len() ==> {
                &&& (#[trigger] segs@[j]).0 == graph_x(j, width as int, history@.len() as int)
                &&& segs@[j].1 == graph_y(
                    history@[j] as int,
                    seq_max_u16(history@) as int,
                    height as int,
                )
                &&& segs@[j].2 == graph_x(j + 1, width as int, history@.len() as int)
                &&& segs@[j].3 == graph_y(
                    history@[j + 1] as int,
                    seq_max_u16(history@) as int,
                    height as int,
                )
            },
{
    let mut segs: Vec<(i32, i32, i32, i32)> = Vec::new();
    let n = history.len();
    if n < 2 {
        return segs;
    }
    let max = match history.max_value() {
        Some(m) => m,
        None => {
            // A maximum is absent only for an empty history, and at least
            // two readings are retained here.
            proof {
                assert(false);
            }
            return segs;
        },
    };
    if max == 0 {
        return segs;
    }
    let w = width as u32;
    let hgt = height as u32;
    let m32 = max as u32;
    let denom = (n - 1) as u32;
    let mut i: usize = 0;
    while i < n - 1
        invariant
            history.wf(),
            n == history@.len(),
            2 <= n <= i32::MAX,
            i <= n - 1,
            max == seq_max_u16(history@),
            max > 0,
            forall|k: int| 0 <= k < history@.len() ==> history@[k] <= max,
            0 <= width,
            0 <= height,
            (n - 1) * width <= i32::MAX,
            65535 * height <= i32::MAX,
            w == width,
            hgt == height,
            m32 == max,
            denom == n - 1,
            segs@.len() == i,
            forall|j: int|
                0 <= j < i ==> {
                    &&& (#[trigger] segs@[j]).0 == graph_x(j, width as int, n as int)
                    &&& segs@[j].1 == graph_y(history@[j] as int, max as int, height as int)
                    &&& segs@[j].2 == graph_x(j + 1, width as int, n as int)
                    &&& segs@[j].3 == graph_y(history@[j + 1] as int, max as int, height as int)
                },
        decreases n - 1 - i,
    {
        let v0 = history.at(i);
        let v1 = history.at(i + 1);
        proof {
            lemma_mul_inequality(i as int, n - 1, width as int);
            lemma_mul_inequality(i as int + 1, n - 1, width as int);
            lemma_mul_inequality(v0 as int, 65535, height as int);
            lemma_mul_inequality(v1 as int, 65535, height as int);
            lemma_div_pos_is_pos(i as int * width as int, n - 1);
            lemma_div_pos_is_pos((i as int + 1) * width as int, n - 1);
            lemma_div_nonincreasing(i as int * width as int, n - 1);
            lemma_div_nonincreasing((i as int + 1) * width as int, n - 1);
            lemma_div_pos_is_pos(v0 as int * height as int, max as int);
            lemma_div_pos_is_pos(v1 as int * height as int, max as int);
            lemma_div_nonincreasing(v0 as int * height as int, max as int);
            lemma_div_nonincreasing(v1 as int * height as int, max as int);
        }
        let x0 = (((i as u32) * w) / denom) as i32;
        let x1 = ((((i as u32) + 1) * w) / denom) as i32;
        let q0 = (((v0 as u32) * hgt) / m32) as i32;
        let q1 = (((v1 as u32) * hgt) / m32) as i32;
        let y0 = height - q0;
        let y1 = height - q1;
        segs.push((x0, y0, x1, y1));
        i = i + 1;
    }
    segs
}

} // verus!
