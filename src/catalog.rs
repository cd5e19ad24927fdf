use vstd::prelude::*;
use crate::fourcc::{format_of_code, fourcc_to_frameformat};
use crate::request::{is_fulfillment, lemma_fulfillment_deterministic, RequestedFormat};
use crate::text::text;
use crate::types::{is_get_error, format_rank, CameraFormat, FourCC, FrameFormat, NokhwaError, Resolution};

verus! {

/// A frame-size entry as a driver reports it: one exact size, or a range
/// per axis with a step.
#[derive(Clone, Copy, Debug)]
pub enum FrameSizeDescriptor {
    Discrete { width: u32, height: u32 },
    Stepwise {
        min_width: u32,
        max_width: u32,
        step_width: u32,
        min_height: u32,
        max_height: u32,
        step_height: u32,
    },
}

/// A rational time per frame, in seconds.
#[derive(Clone, Copy, Debug, PartialEq, Eq, Structural)]
pub struct Fraction {
    pub numerator: u32,
    pub denominator: u32,
}

/// A frame-interval entry as a driver reports it.
#[derive(Clone, Copy, Debug)]
pub enum FrameIntervalDescriptor {
    Discrete(Fraction),
    Stepwise { min: Fraction, max: Fraction, step: Fraction },
}

/// The values `min, min + step, ...` strictly below `max`. A zero step
/// yields `min` alone, so the walk always ends.
pub open spec fn axis_values(min: u32, max: u32, step: u32) -> Seq<u32>
    decreases max - min,
{
    if min >= max {
        seq![]
    } else if step == 0 || min + step >= max {
        seq![min]
    } else {
        seq![min].add(axis_values((min + step) as u32, max, step))
    }
}

/// Every width crossed with every height, widths outermost.
pub open spec fn grid(ws: Seq<u32>, hs: Seq<u32>) -> Seq<Resolution>
    decreases ws.len(),
{
    if ws.len() == 0 {
        seq![]
    } else {
        grid(ws.drop_last(), hs).add(
            hs.map_values(|h: u32| Resolution { width_x: ws.last(), height_y: h }),
        )
    }
}

/// The resolutions one frame-size descriptor stands for.
pub open spec fn size_values(d: FrameSizeDescriptor) -> Seq<Resolution> {
    match d {
        FrameSizeDescriptor::Discrete { width, height } => seq![
            Resolution { width_x: width, height_y: height },
        ],
        FrameSizeDescriptor::Stepwise {
            min_width,
            max_width,
            step_width,
            min_height,
            max_height,
            step_height,
        } => grid(
            axis_values(min_width, max_width, step_width),
            axis_values(min_height, max_height, step_height),
        ),
    }
}

/// The resolutions of a list of descriptors, in order.
pub open spec fn sizes_of_all(ds: Seq<FrameSizeDescriptor>) -> Seq<Resolution>
    decreases ds.len(),
{
    if ds.len() == 0 {
        seq![]
    } else {
        sizes_of_all(ds.drop_last()).add(size_values(ds.last()))
    }
}

fn axis(min: u32, max: u32, step: u32) -> (r: Vec<u32>)
    ensures
        r@ == axis_values(min, max, step),
{
    let mut out: Vec<u32> = Vec::new();
    if min >= max {
        return out;
    }
    let mut cur: u32 = min;
    loop
        invariant
            min <= cur < max,
            axis_values(min, max, step) == out@.add(axis_values(cur, max, step)),
        decreases max - cur,
    {
        out.push(cur);
        if step == 0 || cur as u64 + step as u64 >= max as u64 {
            assert(axis_values(min, max, step) =~= out@);
            return out;
        }
        assert(axis_values(cur, max, step) == seq![cur].add(
            axis_values((cur + step) as u32, max, step),
        ));
        assert(axis_values(min, max, step) =~= out@.add(
            axis_values((cur + step) as u32, max, step),
        ));
        cur = cur + step;
    }
}

fn cross(ws: &Vec<u32>, hs: &Vec<u32>) -> (r: Vec<Resolution>)
    ensures
        r@ == grid(ws@, hs@),
{
    let mut out: Vec<Resolution> = Vec::new();
    let mut i: usize = 0;
    while i < ws.len()
        invariant
            i <= ws@.len(),
            out@ == grid(ws@.subrange(0, i as int), hs@),
        decreases ws@.len() - i,
    {
        let w = ws[i];
        let ghost before = out@;
        let mut j: usize = 0;
        while j < hs.len()
            invariant
                i < ws@.len(),
                w == ws@[i as int],
                j <= hs@.len(),
                out@ == before.add(
                    hs@.subrange(0, j as int).map_values(
                        |h: u32| Resolution { width_x: w, height_y: h },
                    ),
                ),
            decreases hs@.len() - j,
        {
            out.push(Resolution { width_x: w, height_y: hs[j] });
            j += 1;
            assert(hs@.subrange(0, j as int).map_values(
                |h: u32| Resolution { width_x: w, height_y: h },
            ) =~= hs@.subrange(0, j - 1).map_values(
                |h: u32| Resolution { width_x: w, height_y: h },
            ).push(Resolution { width_x: w, height_y: hs@[j - 1] }));
            assert(out@ =~= before.add(
                hs@.subrange(0, j as int).map_values(
                    |h: u32| Resolution { width_x: w, height_y: h },
                ),
            ));
        }
        let ghost ws_next = ws@.subrange(0, i + 1);
        assert(ws_next.drop_last() =~= ws@.subrange(0, i as int));
        assert(hs@.subrange(0, hs@.len() as int) =~= hs@);
        i += 1;
        assert(out@ =~= grid(ws@.subrange(0, i as int), hs@));
    }
    assert(ws@.subrange(0, ws@.len() as int) =~= ws@);
    out
}

/// Expands one frame-size descriptor into the resolutions it stands for.
pub fn frame_sizes(d: &FrameSizeDescriptor) -> (r: Vec<Resolution>)
    ensures
        r@ == size_values(*d),
{
    match *d {
        FrameSizeDescriptor::Discrete { width, height } => {
            let mut out: Vec<Resolution> = Vec::new();
            out.push(Resolution { width_x: width, height_y: height });
            assert(out@ =~= size_values(*d));
            out
        },
        FrameSizeDescriptor::Stepwise {
            min_width,
            max_width,
            step_width,
            min_height,
            max_height,
            step_height,
        } => {
            let ws = axis(min_width, max_width, step_width);
            let hs = axis(min_height, max_height, step_height);
            cross(&ws, &hs)
        },
    }
}

/// Expands every frame-size descriptor of a format, in order.
pub fn expand_frame_sizes(sizes: &Vec<FrameSizeDescriptor>) -> (r: Vec<Resolution>)
    ensures
        r@ == sizes_of_all(sizes@),
{
    let mut out: Vec<Resolution> = Vec::new();
    let mut i: usize = 0;
    while i < sizes.len()
        invariant
            i <= sizes@.len(),
            out@ == sizes_of_all(sizes@.subrange(0, i as int)),
        decreases sizes@.len() - i,
    {
        let mut more = frame_sizes(&sizes[i]);
        let ghost done = sizes@.subrange(0, i + 1);
        assert(done.drop_last() =~= sizes@.subrange(0, i as int));
        out.append(&mut more);
        i += 1;
    }
    assert(sizes@.subrange(0, sizes@.len() as int) =~= sizes@);
    out
}

/// The whole frame rate of an interval of `n / d` seconds, if there is one.
/// Fractional rates are not rounded: they give `None`.
pub open spec fn whole_rate(n: u32, d: u32) -> Option<u32> {
    if n > 0 && d % n == 0 {
        Some((d / n) as u32)
    } else {
        None
    }
}

/// The whole frame rates of intervals `ns[i] / den`, in order, skipping
/// fractional ones.
pub open spec fn whole_rates(ns: Seq<u32>, den: u32) -> Seq<u32>
    decreases ns.len(),
{
    if ns.len() == 0 {
        seq![]
    } else {
        let rest = whole_rates(ns.drop_last(), den);
        match whole_rate(ns.last(), den) {
            Some(f) => rest.push(f),
            None => rest,
        }
    }
}

/// The values `min, min + step, ...` strictly below `max`, on a wide
/// integer type; a zero step yields `min` alone.
pub open spec fn wide_axis(min: u128, max: u128, step: u128) -> Seq<u128>
    decreases max - min,
{
    if min >= max {
        seq![]
    } else if step == 0 || min + step >= max {
        seq![min]
    } else {
        seq![min].add(wide_axis((min + step) as u128, max, step))
    }
}

/// The whole frame rate of an interval of `n / d` seconds, when it is one
/// and fits in 32 bits.
pub open spec fn wide_rate(n: u128, d: u128) -> Option<u32> {
    if n > 0 && d % n == 0 && d / n <= u32::MAX {
        Some((d / n) as u32)
    } else {
        None
    }
}

/// The whole frame rates of intervals `ns[i] / den`, in order.
pub open spec fn wide_rates(ns: Seq<u128>, den: u128) -> Seq<u32>
    decreases ns.len(),
{
    if ns.len() == 0 {
        seq![]
    } else {
        let rest = wide_rates(ns.drop_last(), den);
        match wide_rate(ns.last(), den) {
            Some(f) => rest.push(f),
            None => rest,
        }
    }
}

/// The common denominator of a stepped interval range: the product of its
/// three denominators.
pub open spec fn common_denominator(min: Fraction, max: Fraction, step: Fraction) -> int {
    min.denominator * max.denominator * step.denominator
}

/// The frame rates one interval descriptor stands for. A stepwise range is
/// rewritten over the common denominator of its three fractions and walked
/// from `min` in steps of `step`, strictly below `max`; the whole rates
/// among its intervals are kept.
pub open spec fn interval_rates(d: FrameIntervalDescriptor) -> Seq<u32> {
    match d {
        FrameIntervalDescriptor::Discrete(f) => whole_rates(seq![f.numerator], f.denominator),
        FrameIntervalDescriptor::Stepwise { min, max, step } => {
            if common_denominator(min, max, step) == 0 {
                seq![]
            } else {
                wide_rates(
                    wide_axis(
                        (min.numerator * max.denominator * step.denominator) as u128,
                        (max.numerator * min.denominator * step.denominator) as u128,
                        (step.numerator * min.denominator * max.denominator) as u128,
                    ),
                    common_denominator(min, max, step) as u128,
                )
            }
        },
    }
}

/// The frame rates of a list of interval descriptors, in order.
pub open spec fn rates_of_all(ds: Seq<FrameIntervalDescriptor>) -> Seq<u32>
    decreases ds.len(),
{
    if ds.len() == 0 {
        seq![]
    } else {
        rates_of_all(ds.drop_last()).add(interval_rates(ds.last()))
    }
}

/// Normalises one interval to a whole frame rate.
pub fn frame_rate_of(interval: Fraction) -> (r: Option<u32>)
    ensures
        r == whole_rate(interval.numerator, interval.denominator),
{
    if interval.numerator > 0 && interval.denominator % interval.numerator == 0 {
        Some(interval.denominator / interval.numerator)
    } else {
        None
    }
}

fn whole_rates_of(ns: &Vec<u32>, den: u32) -> (r: Vec<u32>)
    ensures
        r@ == whole_rates(ns@, den),
{
    let mut out: Vec<u32> = Vec::new();
    let mut i: usize = 0;
    while i < ns.len()
        invariant
            i <= ns@.len(),
            out@ == whole_rates(ns@.subrange(0, i as int), den),
        decreases ns@.len() - i,
    {
        let ghost done = ns@.subrange(0, i + 1);
        assert(done.drop_last() =~= ns@.subrange(0, i as int));
        assert(done.last() == ns@[i as int]);
        match frame_rate_of(Fraction { numerator: ns[i], denominator: den }) {
            Some(f) => out.push(f),
            None => {},
        }
        i += 1;
    }
    assert(ns@.subrange(0, ns@.len() as int) =~= ns@);
    out
}

fn wide_axis_vec(min: u128, max: u128, step: u128) -> (r: Vec<u128>)
    ensures
        r@ == wide_axis(min, max, step),
{
    let mut out: Vec<u128> = Vec::new();
    if min >= max {
        return out;
    }
    let mut cur: u128 = min;
    loop
        invariant
            min <= cur < max,
            wide_axis(min, max, step) == out@.add(wide_axis(cur, max, step)),
        decreases max - cur,
    {
        out.push(cur);
        if step == 0 || step >= max - cur {
            assert(wide_axis(min, max, step) =~= out@);
            return out;
        }
        assert(wide_axis(cur, max, step) == seq![cur].add(
            wide_axis((cur + step) as u128, max, step),
        ));
        assert(wide_axis(min, max, step) =~= out@.add(
            wide_axis((cur + step) as u128, max, step),
        ));
        cur = cur + step;
    }
}

fn wide_rates_of(ns: &Vec<u128>, den: u128) -> (r: Vec<u32>)
    ensures
        r@ == wide_rates(ns@, den),
{
    let mut out: Vec<u32> = Vec::new();
    let mut i: usize = 0;
    while i < ns.len()
        invariant
            i <= ns@.len(),
            out@ == wide_rates(ns@.subrange(0, i as int), den),
        decreases ns@.len() - i,
    {
        let ghost done = ns@.subrange(0, i + 1);
        assert(done.drop_last() =~= ns@.subrange(0, i as int));
        assert(done.last() == ns@[i as int]);
        let n = ns[i];
        if n > 0 && den % n == 0 && den / n <= 0xFFFF_FFFF {
            out.push((den / n) as u32);
        }
        i += 1;
    }
    assert(ns@.subrange(0, ns@.len() as int) =~= ns@);
    out
}

fn product3(a: u32, b: u32, c: u32) -> (r: u128)
    ensures
        r as int == a * b * c,
{
    let x = a as u128;
    let y = b as u128;
    let z = c as u128;
    assert(0 <= x * y <= 0xFFFF_FFFF * 0xFFFF_FFFF) by (nonlinear_arith)
        requires
            0 <= x <= 0xFFFF_FFFF,
            0 <= y <= 0xFFFF_FFFF,
    ;
    assert(0 <= (x * y) * z <= (0xFFFF_FFFF * 0xFFFF_FFFF) * 0xFFFF_FFFF) by (nonlinear_arith)
        requires
            0 <= x * y <= 0xFFFF_FFFF * 0xFFFF_FFFF,
            0 <= z <= 0xFFFF_FFFF,
    ;
    x * y * z
}

/// Expands one interval descriptor into whole frame rates.
pub fn frame_rates(d: &FrameIntervalDescriptor) -> (r: Vec<u32>)
    ensures
        r@ == interval_rates(*d),
{
    match *d {
        FrameIntervalDescriptor::Discrete(f) => {
            let mut ns: Vec<u32> = Vec::new();
            ns.push(f.numerator);
            assert(ns@ =~= seq![f.numerator]);
            whole_rates_of(&ns, f.denominator)
        },
        FrameIntervalDescriptor::Stepwise { min, max, step } => {
            let den = product3(min.denominator, max.denominator, step.denominator);
            if den == 0 {
                return Vec::new();
            }
            let lo = product3(min.numerator, max.denominator, step.denominator);
            let hi = product3(max.numerator, min.denominator, step.denominator);
            let inc = product3(step.numerator, min.denominator, max.denominator);
            let ns = wide_axis_vec(lo, hi, inc);
            wide_rates_of(&ns, den)
        },
    }
}

/// Expands every interval descriptor of one (format, resolution), in order.
pub fn expand_intervals(intervals: &Vec<FrameIntervalDescriptor>) -> (r: Vec<u32>)
    ensures
        r@ == rates_of_all(intervals@),
{
    let mut out: Vec<u32> = Vec::new();
    let mut i: usize = 0;
    while i < intervals.len()
        invariant
            i <= intervals@.len(),
            out@ == rates_of_all(intervals@.subrange(0, i as int)),
        decreases intervals@.len() - i,
    {
        let mut more = frame_rates(&intervals[i]);
        let ghost done = intervals@.subrange(0, i + 1);
        assert(done.drop_last() =~= intervals@.subrange(0, i as int));
        out.append(&mut more);
        i += 1;
    }
    assert(intervals@.subrange(0, intervals@.len() as int) =~= intervals@);
    out
}

/// Every value of a stepped axis lies in `[min, max)`; the walk has at most
/// `max - min` values, and at most one when the step is zero.
pub proof fn lemma_axis_bounded(min: u32, max: u32, step: u32)
    ensures
        forall|i: int|
            0 <= i < axis_values(min, max, step).len() ==> min <= #[trigger] axis_values(
                min,
                max,
                step,
            )[i] < max,
        axis_values(min, max, step).len() <= if min < max { max - min } else { 0 },
        step == 0 ==> axis_values(min, max, step).len() <= 1,
    decreases max - min,
{
    if min < max && step != 0 && min + step < max {
        lemma_axis_bounded((min + step) as u32, max, step);
        let rest = axis_values((min + step) as u32, max, step);
        assert(axis_values(min, max, step) == seq![min].add(rest));
        assert forall|i: int| 0 <= i < axis_values(min, max, step).len() implies min
            <= #[trigger] axis_values(min, max, step)[i] < max by {
            if i > 0 {
                assert(axis_values(min, max, step)[i] == rest[i - 1]);
            }
        }
    }
}

/// With a positive step, every value of a stepped axis lies on the lattice
/// `min + k * step`.
pub proof fn lemma_axis_on_lattice(min: u32, max: u32, step: u32)
    requires
        step > 0,
    ensures
        forall|i: int|
            0 <= i < axis_values(min, max, step).len() ==> (#[trigger] axis_values(min, max, step)[i]
                - min) % (step as int) == 0,
    decreases max - min,
{
    let a = axis_values(min, max, step);
    if min < max && min + step < max {
        lemma_axis_on_lattice((min + step) as u32, max, step);
        let rest = axis_values((min + step) as u32, max, step);
        assert(a == seq![min].add(rest));
        assert forall|i: int| 0 <= i < a.len() implies (#[trigger] a[i] - min) % (step as int) == 0 by {
            if i == 0 {
                assert(a[0] == min);
                vstd::arithmetic::div_mod::lemma_mod_multiples_basic(0, step as int);
            } else {
                assert(a[i] == rest[i - 1]);
                let v = rest[i - 1] - (min + step);
                assert(v % (step as int) == 0);
                vstd::arithmetic::div_mod::lemma_fundamental_div_mod(v, step as int);
                let k = v / (step as int);
                assert(v == (step as int) * k);
                assert(a[i] - min == (k + 1) * (step as int)) by (nonlinear_arith)
                    requires
                        a[i] - min == v + step,
                        v == (step as int) * k,
                ;
                vstd::arithmetic::div_mod::lemma_mod_multiples_basic(k + 1, step as int);
            }
        }
    } else if min < max {
        assert(a == seq![min]);
        vstd::arithmetic::div_mod::lemma_mod_multiples_basic(0, step as int);
    }
}

proof fn lemma_grid_members(ws: Seq<u32>, hs: Seq<u32>, i: int)
    requires
        0 <= i < grid(ws, hs).len(),
    ensures
        ws.contains(grid(ws, hs)[i].width_x),
        hs.contains(grid(ws, hs)[i].height_y),
        grid(ws, hs).len() == ws.len() * hs.len(),
    decreases ws.len(),
{
    let prev = grid(ws.drop_last(), hs);
    let row = hs.map_values(|h: u32| Resolution { width_x: ws.last(), height_y: h });
    assert(grid(ws, hs) == prev.add(row));
    if i < prev.len() {
        lemma_grid_members(ws.drop_last(), hs, i);
        let w = prev[i].width_x;
        let k = choose|k: int| 0 <= k < ws.drop_last().len() && ws.drop_last()[k] == w;
        assert(ws[k] == w);
    } else {
        if ws.drop_last().len() > 0 && prev.len() > 0 {
            lemma_grid_members(ws.drop_last(), hs, 0);
        }
        lemma_grid_len(ws.drop_last(), hs);
        assert(grid(ws, hs)[i] == row[i - prev.len()]);
        assert(ws[ws.len() - 1] == ws.last());
        assert(hs[i - prev.len()] == row[i - prev.len()].height_y);
    }
    lemma_grid_len(ws, hs);
}

proof fn lemma_grid_len(ws: Seq<u32>, hs: Seq<u32>)
    ensures
        grid(ws, hs).len() == ws.len() * hs.len(),
    decreases ws.len(),
{
    if ws.len() > 0 {
        lemma_grid_len(ws.drop_last(), hs);
        assert(ws.len() * hs.len() == (ws.len() - 1) * hs.len() + hs.len()) by (nonlinear_arith);
    }
}

/// A stepwise frame-size descriptor expands to finitely many resolutions,
/// every one of them inside the half-open ranges `[min, max)` on both axes;
/// a zero step contributes a single value on its axis instead of looping.
pub proof fn lemma_stepwise_sizes_bounded(
    min_width: u32,
    max_width: u32,
    step_width: u32,
    min_height: u32,
    max_height: u32,
    step_height: u32,
)
    ensures
        ({
            let sizes = size_values(
                FrameSizeDescriptor::Stepwise {
                    min_width,
                    max_width,
                    step_width,
                    min_height,
                    max_height,
                    step_height,
                },
            );
            &&& forall|i: int|
                0 <= i < sizes.len() ==> min_width <= (#[trigger] sizes[i]).width_x < max_width
                    && min_height <= sizes[i].height_y < max_height
            &&& sizes.len() == axis_values(min_width, max_width, step_width).len()
                * axis_values(min_height, max_height, step_height).len()
            &&& sizes.len() <= (if min_width < max_width { max_width - min_width } else { 0 })
                * (if min_height < max_height { max_height - min_height } else { 0 })
            &&& step_width == 0 && step_height == 0 ==> sizes.len() <= 1
        }),
{
    let ws = axis_values(min_width, max_width, step_width);
    let hs = axis_values(min_height, max_height, step_height);
    lemma_axis_bounded(min_width, max_width, step_width);
    lemma_axis_bounded(min_height, max_height, step_height);
    lemma_grid_len(ws, hs);
    let sizes = grid(ws, hs);
    assert forall|i: int| 0 <= i < sizes.len() implies min_width <= (#[trigger] sizes[i]).width_x
        < max_width && min_height <= sizes[i].height_y < max_height by {
        lemma_grid_members(ws, hs, i);
    }
    let a = ws.len() as int;
    let b = hs.len() as int;
    let am: int = if min_width < max_width { max_width - min_width } else { 0 };
    let bm: int = if min_height < max_height { max_height - min_height } else { 0 };
    assert(0 <= a <= am && 0 <= b <= bm ==> a * b <= am * bm) by (nonlinear_arith);
    assert(a <= 1 && b <= 1 && a >= 0 && b >= 0 ==> a * b <= 1) by (nonlinear_arith);
}

/// Whether some native code in `native` names the frame format `f`.
pub open spec fn offers_format(native: Seq<FourCC>, f: FrameFormat) -> bool {
    exists|i: int| 0 <= i < native.len() && format_of_code(#[trigger] native[i].repr@) == Some(f)
}

fn has_format(native: &Vec<FourCC>, f: FrameFormat) -> (r: bool)
    ensures
        r == offers_format(native@, f),
{
    let mut i: usize = 0;
    while i < native.len()
        invariant
            i <= native@.len(),
            forall|k: int| 0 <= k < i ==> format_of_code(#[trigger] native@[k].repr@) != Some(f),
        decreases native@.len() - i,
    {
        if fourcc_to_frameformat(native[i]) == Some(f) {
            return true;
        }
        i += 1;
    }
    false
}

/// The known frame formats among a device's native codes, each once, in
/// the fixed format order. Unknown codes are left out.
pub fn compatible_fourcc(native: &Vec<FourCC>) -> (r: Vec<FrameFormat>)
    ensures
        forall|f: FrameFormat| r@.contains(f) <==> offers_format(native@, f),
        forall|i: int, j: int|
            0 <= i < j < r@.len() ==> format_rank(#[trigger] r@[i]) < format_rank(#[trigger] r@[j]),
{
    let all: [FrameFormat; 5] = [
        FrameFormat::MJPEG,
        FrameFormat::YUYV,
        FrameFormat::GRAY,
        FrameFormat::RAWRGB,
        FrameFormat::NV12,
    ];
    let mut out: Vec<FrameFormat> = Vec::new();
    let mut i: usize = 0;
    while i < 5
        invariant
            i <= 5,
            forall|k: int| 0 <= k < 5 ==> format_rank(#[trigger] all@[k]) == k,
            forall|f: FrameFormat|
                out@.contains(f) <==> (offers_format(native@, f) && format_rank(f) < i),
            forall|k: int| 0 <= k < out@.len() ==> format_rank(#[trigger] out@[k]) < i,
            forall|a: int, b: int|
                0 <= a < b < out@.len() ==> format_rank(#[trigger] out@[a]) < format_rank(
                    #[trigger] out@[b],
                ),
        decreases 5 - i,
    {
        let f = all[i];
        let ghost before = out@;
        if has_format(native, f) {
            out.push(f);
            assert forall|g: FrameFormat| out@.contains(g) <==> (offers_format(native@, g)
                && format_rank(g) < i + 1) by {
                if format_rank(g) == i {
                    assert(g == f);
                    assert(out@[out@.len() - 1] == f);
                }
                if out@.contains(g) && g != f {
                    let k = choose|k: int| 0 <= k < out@.len() && out@[k] == g;
                    assert(before[k] == g);
                }
                if before.contains(g) {
                    let k = choose|k: int| 0 <= k < before.len() && before[k] == g;
                    assert(out@[k] == g);
                }
            }
        } else {
            assert forall|g: FrameFormat| out@.contains(g) <==> (offers_format(native@, g)
                && format_rank(g) < i + 1) by {
                if format_rank(g) == i {
                    assert(g == f);
                }
            }
        }
        i += 1;
    }
    out
}

/// The set of formats a device supports, each entry once.
pub struct Catalog {
    pub entries: Vec<CameraFormat>,
}

impl View for Catalog {
    type V = Seq<CameraFormat>;

    open spec fn view(&self) -> Seq<CameraFormat> {
        self.entries@
    }
}

impl Catalog {
    /// No entry appears twice.
    pub open spec fn wf(&self) -> bool {
        self@.no_duplicates()
    }

    pub fn new() -> (r: Catalog)
        ensures
            r@ == Seq::<CameraFormat>::empty(),
            r.wf(),
    {
        Catalog { entries: Vec::new() }
    }

    /// Adds `e` unless it is already listed.
    pub fn insert(&mut self, e: CameraFormat)
        requires
            old(self).wf(),
        ensures
            final(self).wf(),
            final(self)@ == if old(self)@.contains(e) {
                old(self)@
            } else {
                old(self)@.push(e)
            },
            forall|c: CameraFormat| final(self)@.contains(c) <==> (old(self)@.contains(c) || c == e),
    {
        let ghost start = self@;
        let mut i: usize = 0;
        while i < self.entries.len()
            invariant
                i <= self@.len(),
                self@ == start,
                start.no_duplicates(),
                forall|k: int| 0 <= k < i ==> self@[k] != e,
            decreases self@.len() - i,
        {
            if self.entries[i] == e {
                return;
            }
            i += 1;
        }
        self.entries.push(e);
        assert forall|c: CameraFormat| self@.contains(c) <==> (start.contains(c) || c == e) by {
            if self@.contains(c) && c != e {
                let k = choose|k: int| 0 <= k < self@.len() && self@[k] == c;
                assert(start[k] == c);
            }
            if start.contains(c) {
                let k = choose|k: int| 0 <= k < start.len() && start[k] == c;
                assert(self@[k] == c);
            }
            if c == e {
                assert(self@[self@.len() - 1] == e);
            }
        }
    }

    /// Adds one entry per frame rate for the given format and resolution.
    pub fn add_rates(&mut self, format: FrameFormat, resolution: Resolution, rates: &Vec<u32>)
        requires
            old(self).wf(),
        ensures
            final(self).wf(),
            forall|c: CameraFormat|
                final(self)@.contains(c) <==> (old(self)@.contains(c) || (c.format == format
                    && c.resolution == resolution && rates@.contains(c.frame_rate))),
    {
        let ghost start = self@;
        let mut i: usize = 0;
        while i < rates.len()
            invariant
                i <= rates@.len(),
                self.wf(),
                forall|c: CameraFormat|
                    #![trigger self@.contains(c)]
                    self@.contains(c) <==> (start.contains(c) || (c.format == format
                        && c.resolution == resolution && rates@.subrange(0, i as int).contains(
                        c.frame_rate,
                    ))),
            decreases rates@.len() - i,
        {
            let e = CameraFormat { resolution, format, frame_rate: rates[i] };
            let ghost before = self@;
            let ghost pre = rates@.subrange(0, i as int);
            let ghost post = rates@.subrange(0, i + 1);
            assert(post =~= pre.push(rates@[i as int]));
            self.insert(e);
            assert forall|c: CameraFormat| #[trigger] self@.contains(c) <==> (start.contains(c) || (
            c.format == format && c.resolution == resolution && post.contains(c.frame_rate))) by {
                assert(before.contains(c) <==> (start.contains(c) || (c.format == format
                    && c.resolution == resolution && pre.contains(c.frame_rate))));
                if pre.contains(c.frame_rate) {
                    let k = choose|k: int| 0 <= k < pre.len() && pre[k] == c.frame_rate;
                    assert(post[k] == c.frame_rate);
                }
                if post.contains(c.frame_rate) && c.frame_rate != rates@[i as int] {
                    let k = choose|k: int| 0 <= k < post.len() && post[k] == c.frame_rate;
                    assert(pre[k] == c.frame_rate);
                }
                if c.frame_rate == rates@[i as int] {
                    assert(post[i as int] == c.frame_rate);
                }
            }
            i += 1;
        }
        assert(rates@.subrange(0, rates@.len() as int) =~= rates@);
    }

    /// Records the answer to one frame-interval query. A failed query leaves
    /// the catalog unchanged: that candidate is skipped, not the enumeration.
    pub fn add_interval_query(
        &mut self,
        format: FrameFormat,
        resolution: Resolution,
        query: &Result<Vec<FrameIntervalDescriptor>, String>,
    )
        requires
            old(self).wf(),
        ensures
            final(self).wf(),
            forall|c: CameraFormat|
                final(self)@.contains(c) <==> (old(self)@.contains(c) || (c.format == format
                    && c.resolution == resolution && match query {
                    Ok(ds) => rates_of_all(ds@).contains(c.frame_rate),
                    Err(_) => false,
                })),
    {
        match query {
            Ok(ds) => {
                let rates = expand_intervals(ds);
                self.add_rates(format, resolution, &rates);
            },
            Err(_) => {},
        }
    }
}

/// Turns the answer to a frame-size query into resolutions; a failed query
/// fails the enumeration with the driver's message.
pub fn resolutions_from_query(query: Result<Vec<FrameSizeDescriptor>, String>) -> (r: Result<
    Vec<Resolution>,
    NokhwaError,
>)
    ensures
        match query {
            Ok(ds) => r == Ok::<Vec<Resolution>, NokhwaError>(r->Ok_0) && r->Ok_0@ == sizes_of_all(
                ds@,
            ),
            Err(why) => r is Err && is_get_error(r->Err_0, "Resolutions"@, why@),
        },
{
    match query {
        Ok(ds) => Ok(expand_frame_sizes(&ds)),
        Err(why) => Err(
            NokhwaError::GetPropertyError { property: text("Resolutions"), error: why },
        ),
    }
}

/// `rs[j]` is the last occurrence of `r` in `rs`.
pub open spec fn is_last_at(rs: Seq<Resolution>, j: int, r: Resolution) -> bool {
    &&& 0 <= j < rs.len()
    &&& rs[j] == r
    &&& forall|k: int| j < k < rs.len() ==> rs[k] != r
}

pub open spec fn lists_resolution(out: Seq<(Resolution, Vec<u32>)>, r: Resolution) -> bool {
    exists|p: int| 0 <= p < out.len() && (#[trigger] out[p]).0 == r
}

/// The answer for `out[p]` is the one to the last query made for its
/// resolution.
pub open spec fn answered_last(
    rs: Seq<Resolution>,
    qs: Seq<Result<Vec<FrameIntervalDescriptor>, String>>,
    out: Seq<(Resolution, Vec<u32>)>,
    p: int,
) -> bool {
    exists|j: int|
        #[trigger] is_last_at(rs, j, out[p].0) && qs[j] is Ok && out[p].1@ == rates_of_all(
            qs[j]->Ok_0@,
        )
}

/// `out` maps each resolution of `rs` once to the frame rates of the last
/// answer given for it, as a map keyed by resolution would.
pub open spec fn merged_listing(
    rs: Seq<Resolution>,
    qs: Seq<Result<Vec<FrameIntervalDescriptor>, String>>,
    out: Seq<(Resolution, Vec<u32>)>,
) -> bool {
    &&& forall|p: int, q: int| 0 <= p < q < out.len() ==> (#[trigger] out[p]).0 != (#[trigger] out[q]).0
    &&& forall|r: Resolution| rs.contains(r) <==> lists_resolution(out, r)
    &&& forall|p: int| 0 <= p < out.len() ==> #[trigger] answered_last(rs, qs, out, p)
}

/// `e` reports the first failed query of `qs`.
pub open spec fn first_failure(qs: Seq<Result<Vec<FrameIntervalDescriptor>, String>>, e: NokhwaError) -> bool {
    exists|i: int|
        0 <= i < qs.len() && (#[trigger] qs[i]) is Err && (forall|k: int| 0 <= k < i ==> (#[trigger] qs[k]) is Ok)
            && is_get_error(e, "Frame rate"@, qs[i]->Err_0@)
}

fn position_of(out: &Vec<(Resolution, Vec<u32>)>, x: Resolution) -> (r: Option<usize>)
    ensures
        r is Some ==> r->Some_0 < out@.len() && out@[r->Some_0 as int].0 == x,
        r is None ==> forall|p: int| 0 <= p < out@.len() ==> (#[trigger] out@[p]).0 != x,
{
    let mut p: usize = 0;
    while p < out.len()
        invariant
            p <= out@.len(),
            forall|k: int| 0 <= k < p ==> (#[trigger] out@[k]).0 != x,
        decreases out@.len() - p,
    {
        if out[p].0 == x {
            return Some(p);
        }
        p += 1;
    }
    None
}

/// The frame rates a format offers at each of its resolutions. `sizes` is
/// the answer to the frame-size query, and `intervals[j]` the answer to
/// the interval query for the `j`-th resolution it expands to. A failed
/// frame-size query, or the first failed interval query, fails the
/// listing. A resolution listed twice is kept once, with its last answer.
pub fn compatible_list_by_resolution(
    sizes: Result<Vec<FrameSizeDescriptor>, String>,
    intervals: Vec<Result<Vec<FrameIntervalDescriptor>, String>>,
) -> (r: Result<Vec<(Resolution, Vec<u32>)>, NokhwaError>)
    requires
        sizes is Ok ==> intervals@.len() == sizes_of_all(sizes->Ok_0@).len(),
    ensures
        sizes is Err ==> r is Err && is_get_error(r->Err_0, "Resolutions"@, sizes->Err_0@),
        sizes is Ok ==> (r is Ok <==> forall|i: int|
            0 <= i < intervals@.len() ==> (#[trigger] intervals@[i]) is Ok),
        sizes is Ok && r is Ok ==> merged_listing(sizes_of_all(sizes->Ok_0@), intervals@, r->Ok_0@),
        sizes is Ok && r is Err ==> first_failure(intervals@, r->Err_0),
{
    let ghost sz = sizes;
    let resolutions = match sizes {
        Ok(ds) => expand_frame_sizes(&ds),
        Err(why) => {
            return Err(NokhwaError::GetPropertyError { property: text("Resolutions"), error: why });
        },
    };
    let ghost rs = resolutions@;
    let ghost all = intervals@;
    let n = intervals.len();
    let mut rest = intervals;
    let mut out: Vec<(Resolution, Vec<u32>)> = Vec::new();
    let mut i: usize = 0;
    while rest.len() > 0
        invariant
            i <= all.len(),
            all.len() == n,
            all == intervals@,
            sz == sizes,
            sz is Ok,
            rs == resolutions@,
            rs == sizes_of_all(sz->Ok_0@),
            resolutions@.len() == n,
            rest@ == all.subrange(i as int, all.len() as int),
            forall|k: int| 0 <= k < i ==> (#[trigger] all[k]) is Ok,
            merged_listing(rs.subrange(0, i as int), all, out@),
        decreases rest@.len(),
    {
        assert(rest@.len() == all.len() - i);
        let q = rest.remove(0);
        assert(q == all[i as int]);
        let x = resolutions[i];
        let ghost pre = rs.subrange(0, i as int);
        let ghost post = rs.subrange(0, i + 1);
        assert(post =~= pre.push(x));
        let ghost old_out = out@;
        match q {
            Ok(ds) => {
                let rates = expand_intervals(&ds);
                match position_of(&out, x) {
                    Some(p) => {
                        out.set(p, (x, rates));
                    },
                    None => {
                        out.push((x, rates));
                    },
                }
            },
            Err(why) => {
                let e = NokhwaError::GetPropertyError { property: text("Frame rate"), error: why };
                assert(all[i as int] is Err && is_get_error(e, "Frame rate"@, all[i as int]->Err_0@));
                assert(first_failure(all, e));
                return Err(e);
            },
        }
        assert(all[i as int] is Ok);
        assert forall|k: int| 0 <= k < old_out.len() && old_out[k].0 != x implies out@.len() > k
            && #[trigger] out@[k] == old_out[k] by {}
        assert forall|k: int| 0 <= k < out@.len() && out@[k].0 != x implies old_out.len() > k
            && #[trigger] out@[k] == old_out[k] by {}
        assert forall|p1: int, p2: int| 0 <= p1 < p2 < out@.len() implies (#[trigger] out@[p1]).0
            != (#[trigger] out@[p2]).0 by {
            if p2 >= old_out.len() {
                assert(old_out[p1].0 != x);
            }
        }
        assert forall|r: Resolution| post.contains(r) <==> lists_resolution(out@, r) by {
            if post.contains(r) && r != x {
                let k = choose|k: int| 0 <= k < post.len() && post[k] == r;
                assert(pre[k] == r);
                assert(pre.contains(r));
                assert(lists_resolution(old_out, r));
                let p = choose|p: int| 0 <= p < old_out.len() && (#[trigger] old_out[p]).0 == r;
                assert(out@[p] == old_out[p]);
                assert(out@[p].0 == r);
            }
            if r == x {
                assert(post[i as int] == x);
                if exists|p: int| 0 <= p < old_out.len() && (#[trigger] old_out[p]).0 == x {
                    let p = choose|p: int| 0 <= p < old_out.len() && (#[trigger] old_out[p]).0 == x;
                    assert(out@[p].0 == x);
                } else {
                    assert(out@[out@.len() - 1].0 == x);
                }
            }
            if lists_resolution(out@, r) && r != x {
                let p = choose|p: int| 0 <= p < out@.len() && (#[trigger] out@[p]).0 == r;
                assert(old_out[p].0 == r);
                assert(lists_resolution(old_out, r));
                let k = choose|k: int| 0 <= k < pre.len() && pre[k] == r;
                assert(post[k] == r);
            }
        }
        assert forall|p: int| 0 <= p < out@.len() implies #[trigger] answered_last(post, all, out@, p) by {
            if out@[p].0 == x {
                assert(is_last_at(post, i as int, out@[p].0));
            } else {
                assert(out@[p] == old_out[p]);
                assert(answered_last(pre, all, old_out, p));
                let j = choose|j: int| #[trigger] is_last_at(pre, j, old_out[p].0) && all[j] is Ok
                    && old_out[p].1@ == rates_of_all(all[j]->Ok_0@);
                assert(is_last_at(post, j, out@[p].0));
            }
        }
        i += 1;
        assert(rest@ =~= all.subrange(i as int, all.len() as int));
    }
    assert(rs.subrange(0, n as int) =~= rs);
    Ok(out)
}

/// What a device answered for one of its frame formats: its frame-size
/// descriptors, and for the `j`-th resolution they expand to the answer to
/// the frame-interval query.
pub struct FormatListing {
    pub format: FrameFormat,
    pub sizes: Vec<FrameSizeDescriptor>,
    pub intervals: Vec<Result<Vec<FrameIntervalDescriptor>, String>>,
}

/// The listing is complete: one interval answer per expanded resolution.
pub open spec fn listing_wf(l: FormatListing) -> bool {
    l.intervals@.len() == sizes_of_all(l.sizes@).len()
}

/// The listing's answer for its `j`-th resolution offers `c`.
pub open spec fn offers_at(l: FormatListing, j: int, c: CameraFormat) -> bool {
    &&& 0 <= j < sizes_of_all(l.sizes@).len()
    &&& j < l.intervals@.len()
    &&& l.format == c.format
    &&& sizes_of_all(l.sizes@)[j] == c.resolution
    &&& l.intervals@[j] is Ok
    &&& rates_of_all(l.intervals@[j]->Ok_0@).contains(c.frame_rate)
}

pub open spec fn listing_offers(l: FormatListing, c: CameraFormat) -> bool {
    exists|j: int| #[trigger] offers_at(l, j, c)
}

/// Some listing offers `c`.
pub open spec fn listings_offer(ls: Seq<FormatListing>, c: CameraFormat) -> bool {
    exists|i: int| 0 <= i < ls.len() && #[trigger] listing_offers(ls[i], c)
}

proof fn lemma_sizes_of_all_member(ds: Seq<FrameSizeDescriptor>, j: int)
    requires
        0 <= j < sizes_of_all(ds).len(),
    ensures
        exists|k: int| 0 <= k < ds.len() && (#[trigger] size_values(ds[k])).contains(sizes_of_all(ds)[j]),
    decreases ds.len(),
{
    let prev = sizes_of_all(ds.drop_last());
    let last = size_values(ds.last());
    assert(sizes_of_all(ds) == prev.add(last));
    if j < prev.len() {
        lemma_sizes_of_all_member(ds.drop_last(), j);
        let k = choose|k: int| 0 <= k < ds.drop_last().len() && (#[trigger] size_values(ds.drop_last()[k])).contains(prev[j]);
        assert(ds[k] == ds.drop_last()[k]);
        assert(size_values(ds[k]).contains(sizes_of_all(ds)[j]));
    } else {
        assert(sizes_of_all(ds)[j] == last[j - prev.len()]);
        assert(last.contains(sizes_of_all(ds)[j]));
        assert(ds[ds.len() - 1] == ds.last());
    }
}

/// Every entry of a built catalog stems from a frame-size descriptor of its
/// format: its resolution is one that descriptor expands to.
pub proof fn lemma_catalog_entry_stems_from_descriptor(ls: Seq<FormatListing>, c: CameraFormat)
    requires
        listings_offer(ls, c),
    ensures
        exists|i: int, k: int|
            0 <= i < ls.len() && ls[i].format == c.format && 0 <= k < ls[i].sizes@.len()
                && (#[trigger] size_values(ls[i].sizes@[k])).contains(c.resolution),
{
    let i = choose|i: int| 0 <= i < ls.len() && #[trigger] listing_offers(ls[i], c);
    let j = choose|j: int| #[trigger] offers_at(ls[i], j, c);
    lemma_sizes_of_all_member(ls[i].sizes@, j);
    let k = choose|k: int| 0 <= k < ls[i].sizes@.len() && (#[trigger] size_values(ls[i].sizes@[k])).contains(sizes_of_all(ls[i].sizes@)[j]);
    assert(size_values(ls[i].sizes@[k]).contains(c.resolution));
}

/// A resolution that a stepwise descriptor expands to lies in `[min, max)`
/// on both axes, and on the step lattice of each axis whose step is
/// positive; a zero step contributes `min` alone.
pub proof fn lemma_stepwise_member(d: FrameSizeDescriptor, r: Resolution)
    requires
        d is Stepwise,
        size_values(d).contains(r),
    ensures
        match d {
            FrameSizeDescriptor::Stepwise {
                min_width,
                max_width,
                step_width,
                min_height,
                max_height,
                step_height,
            } => {
                &&& min_width <= r.width_x < max_width
                &&& min_height <= r.height_y < max_height
                &&& step_width > 0 ==> (r.width_x - min_width) % (step_width as int) == 0
                &&& step_height > 0 ==> (r.height_y - min_height) % (step_height as int) == 0
                &&& step_width == 0 ==> r.width_x == min_width
                &&& step_height == 0 ==> r.height_y == min_height
            },
            _ => true,
        },
{
    match d {
        FrameSizeDescriptor::Stepwise {
            min_width,
            max_width,
            step_width,
            min_height,
            max_height,
            step_height,
        } => {
            let ws = axis_values(min_width, max_width, step_width);
            let hs = axis_values(min_height, max_height, step_height);
            let p = choose|p: int| 0 <= p < grid(ws, hs).len() && grid(ws, hs)[p] == r;
            lemma_grid_members(ws, hs, p);
            let a = choose|a: int| 0 <= a < ws.len() && ws[a] == r.width_x;
            let b = choose|b: int| 0 <= b < hs.len() && hs[b] == r.height_y;
            lemma_axis_bounded(min_width, max_width, step_width);
            lemma_axis_bounded(min_height, max_height, step_height);
            assert(min_width <= ws[a] < max_width);
            assert(min_height <= hs[b] < max_height);
            if step_width > 0 {
                lemma_axis_on_lattice(min_width, max_width, step_width);
                assert((ws[a] - min_width) % (step_width as int) == 0);
            } else {
                assert(ws.len() <= 1);
                assert(ws[0] == min_width);
            }
            if step_height > 0 {
                lemma_axis_on_lattice(min_height, max_height, step_height);
                assert((hs[b] - min_height) % (step_height as int) == 0);
            } else {
                assert(hs.len() <= 1);
                assert(hs[0] == min_height);
            }
        },
        _ => {},
    }
}

impl Catalog {
    /// Adds everything one format's listing offers; resolutions whose
    /// interval query failed contribute nothing.
    pub fn add_listing(&mut self, l: &FormatListing)
        requires
            old(self).wf(),
            listing_wf(*l),
        ensures
            final(self).wf(),
            forall|c: CameraFormat|
                #![trigger final(self)@.contains(c)]
                final(self)@.contains(c) <==> (old(self)@.contains(c) || listing_offers(*l, c)),
    {
        let ghost start = self@;
        let resolutions = expand_frame_sizes(&l.sizes);
        let mut j: usize = 0;
        while j < resolutions.len()
            invariant
                j <= resolutions@.len(),
                resolutions@ == sizes_of_all(l.sizes@),
                listing_wf(*l),
                self.wf(),
                forall|c: CameraFormat|
                    #![trigger self@.contains(c)]
                    self@.contains(c) <==> (start.contains(c) || exists|k: int|
                        0 <= k < j && #[trigger] offers_at(*l, k, c)),
            decreases resolutions@.len() - j,
        {
            let ghost before = self@;
            self.add_interval_query(l.format, resolutions[j], &l.intervals[j]);
            assert forall|c: CameraFormat| #[trigger] self@.contains(c) <==> (start.contains(c)
                || exists|k: int| 0 <= k < j + 1 && #[trigger] offers_at(*l, k, c)) by {
                if offers_at(*l, j as int, c) {
                    assert(self@.contains(c));
                }
                if self@.contains(c) && !before.contains(c) {
                    assert(offers_at(*l, j as int, c));
                }
                if exists|k: int| 0 <= k < j + 1 && #[trigger] offers_at(*l, k, c) {
                    let k = choose|k: int| 0 <= k < j + 1 && #[trigger] offers_at(*l, k, c);
                    if k < j {
                        assert(before.contains(c));
                    }
                }
            }
            j += 1;
        }
        assert forall|c: CameraFormat| #[trigger] self@.contains(c) <==> (start.contains(c)
            || listing_offers(*l, c)) by {
            if listing_offers(*l, c) {
                let k = choose|k: int| #[trigger] offers_at(*l, k, c);
                assert(0 <= k < j);
            }
        }
    }
}

/// Builds a device's capability catalog from what it answered for each of
/// its frame formats: every (format, resolution, whole frame rate) offered,
/// each once.
pub fn build_catalog(listings: &Vec<FormatListing>) -> (r: Catalog)
    requires
        forall|i: int| 0 <= i < listings@.len() ==> listing_wf(#[trigger] listings@[i]),
    ensures
        r.wf(),
        forall|c: CameraFormat| r@.contains(c) <==> listings_offer(listings@, c),
{
    let mut cat = Catalog::new();
    let mut i: usize = 0;
    while i < listings.len()
        invariant
            i <= listings@.len(),
            cat.wf(),
            forall|k: int| 0 <= k < listings@.len() ==> listing_wf(#[trigger] listings@[k]),
            forall|c: CameraFormat|
                #![trigger cat@.contains(c)]
                cat@.contains(c) <==> exists|k: int|
                    0 <= k < i && #[trigger] listing_offers(listings@[k], c),
        decreases listings@.len() - i,
    {
        let ghost before = cat@;
        cat.add_listing(&listings[i]);
        assert forall|c: CameraFormat| #[trigger] cat@.contains(c) <==> exists|k: int|
            0 <= k < i + 1 && #[trigger] listing_offers(listings@[k], c) by {
            if exists|k: int| 0 <= k < i + 1 && #[trigger] listing_offers(listings@[k], c) {
                let k = choose|k: int| 0 <= k < i + 1 && #[trigger] listing_offers(listings@[k], c);
                if k < i {
                    assert(before.contains(c));
                }
            }
            if cat@.contains(c) && !before.contains(c) {
                assert(listing_offers(listings@[i as int], c));
            }
        }
        i += 1;
    }
    cat
}

/// Opening a device is deterministic: two catalogs built from the same
/// answers hold the same entries, and a request over them picks the same
/// format.
pub proof fn lemma_open_choice_deterministic(
    ls: Seq<FormatListing>,
    c1: Seq<CameraFormat>,
    c2: Seq<CameraFormat>,
    req: RequestedFormat,
    r1: Option<CameraFormat>,
    r2: Option<CameraFormat>,
)
    requires
        forall|c: CameraFormat| c1.contains(c) <==> listings_offer(ls, c),
        forall|c: CameraFormat| c2.contains(c) <==> listings_offer(ls, c),
        is_fulfillment(req, c1, r1),
        is_fulfillment(req, c2, r2),
    ensures
        forall|c: CameraFormat| c1.contains(c) <==> c2.contains(c),
        r1 == r2,
{
    lemma_fulfillment_deterministic(req, c1, c2, r1, r2);
}

} // verus!
