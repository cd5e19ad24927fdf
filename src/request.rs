use vstd::prelude::*;
use crate::types::{format_rank, frame_format_rank, CameraFormat, FrameFormat, Resolution};

verus! {

/// How to pick an operating format out of a device's catalog.
#[derive(Clone, Copy, Debug, PartialEq, Eq, Structural)]
pub enum RequestedFormatType {
    /// The largest frame area, then the highest frame rate.
    AbsoluteHighestResolution,
    /// The highest frame rate, then the largest frame area.
    AbsoluteHighestFrameRate,
    /// The largest frame area among entries with exactly this frame rate.
    HighestResolution(u32),
    /// The highest frame rate among entries with exactly this resolution.
    HighestFrameRate(Resolution),
    /// Exactly this entry.
    Exact(CameraFormat),
    /// The entry nearest this one: resolution distance first, then rate
    /// distance.
    Closest(CameraFormat),
    /// Any entry.
    Any,
}

/// A request policy and the frame formats the caller can consume.
pub struct RequestedFormat {
    pub requested_format: RequestedFormatType,
    pub wanted_decoder: Vec<FrameFormat>,
}

/// Absolute difference of two integers.
pub open spec fn dist(a: int, b: int) -> int {
    if a >= b {
        a - b
    } else {
        b - a
    }
}

pub open spec fn area(c: CameraFormat) -> int {
    c.resolution.width_x * c.resolution.height_y
}

/// Whether an entry meets the hard constraints of a policy.
pub open spec fn meets(req: RequestedFormatType, c: CameraFormat) -> bool {
    match req {
        RequestedFormatType::HighestResolution(fps) => c.frame_rate == fps,
        RequestedFormatType::HighestFrameRate(res) => c.resolution == res,
        RequestedFormatType::Exact(t) => c == t,
        _ => true,
    }
}

/// Whether an entry may be chosen for a request.
pub open spec fn eligible(req: RequestedFormat, c: CameraFormat) -> bool {
    req.wanted_decoder@.contains(c.format) && meets(req.requested_format, c)
}

/// The two policy scores of an entry; lower is better.
pub open spec fn score(req: RequestedFormatType, c: CameraFormat) -> (int, int) {
    match req {
        RequestedFormatType::AbsoluteHighestResolution => (-area(c), -(c.frame_rate as int)),
        RequestedFormatType::AbsoluteHighestFrameRate => (-(c.frame_rate as int), -area(c)),
        RequestedFormatType::HighestResolution(_) => (-area(c), 0),
        RequestedFormatType::HighestFrameRate(_) => (-(c.frame_rate as int), 0),
        RequestedFormatType::Closest(t) => (
            dist(c.resolution.width_x as int, t.resolution.width_x as int) + dist(
                c.resolution.height_y as int,
                t.resolution.height_y as int,
            ),
            dist(c.frame_rate as int, t.frame_rate as int),
        ),
        _ => (0, 0),
    }
}

/// The full ranking key: the policy scores, then width, height, frame rate
/// and frame format ascending, so that no two distinct entries tie.
pub open spec fn rank_key(req: RequestedFormatType, c: CameraFormat) -> (int, int, int, int, int, int) {
    (
        score(req, c).0,
        score(req, c).1,
        c.resolution.width_x as int,
        c.resolution.height_y as int,
        c.frame_rate as int,
        format_rank(c.format),
    )
}

pub open spec fn lex_lt(a: (int, int, int, int, int, int), b: (int, int, int, int, int, int)) -> bool {
    a.0 < b.0 || (a.0 == b.0 && (a.1 < b.1 || (a.1 == b.1 && (a.2 < b.2 || (a.2 == b.2 && (a.3
        < b.3 || (a.3 == b.3 && (a.4 < b.4 || (a.4 == b.4 && a.5 < b.5)))))))))
}

/// Whether `a` is strictly preferred to `b` under a policy.
pub open spec fn prefers(req: RequestedFormatType, a: CameraFormat, b: CameraFormat) -> bool {
    lex_lt(rank_key(req, a), rank_key(req, b))
}

/// `r` is the answer to `req` over `catalog`: nothing when no entry is
/// eligible, else the eligible entry preferred to every other eligible one.
pub open spec fn is_fulfillment(
    req: RequestedFormat,
    catalog: Seq<CameraFormat>,
    r: Option<CameraFormat>,
) -> bool {
    match r {
        None => forall|i: int| 0 <= i < catalog.len() ==> !eligible(req, #[trigger] catalog[i]),
        Some(best) => {
            &&& catalog.contains(best)
            &&& eligible(req, best)
            &&& forall|i: int|
                0 <= i < catalog.len() && eligible(req, #[trigger] catalog[i]) ==> catalog[i]
                    == best || prefers(req.requested_format, best, catalog[i])
        },
    }
}

proof fn lemma_prefers_order(req: RequestedFormatType, a: CameraFormat, b: CameraFormat, c: CameraFormat)
    ensures
        !prefers(req, a, a),
        prefers(req, a, b) && prefers(req, b, c) ==> prefers(req, a, c),
        a != b ==> prefers(req, a, b) || prefers(req, b, a),
{
    if rank_key(req, a) == rank_key(req, b) {
        assert(a.format == b.format) by {
            assert(format_rank(a.format) == format_rank(b.format));
        }
        assert(a.resolution == b.resolution);
        assert(a == b);
    }
}

fn abs_diff(a: u32, b: u32) -> (r: i128)
    ensures
        r as int == dist(a as int, b as int),
{
    if a >= b {
        (a - b) as i128
    } else {
        (b - a) as i128
    }
}

fn area_of(c: CameraFormat) -> (r: i128)
    ensures
        r as int == area(c),
{
    let w = c.resolution.width_x as i128;
    let h = c.resolution.height_y as i128;
    assert(0 <= w * h <= 0xFFFF_FFFF * 0xFFFF_FFFF) by (nonlinear_arith)
        requires
            0 <= w <= 0xFFFF_FFFF,
            0 <= h <= 0xFFFF_FFFF,
    ;
    w * h
}

fn score_of(req: RequestedFormatType, c: CameraFormat) -> (r: (i128, i128))
    ensures
        r.0 as int == score(req, c).0,
        r.1 as int == score(req, c).1,
{
    match req {
        RequestedFormatType::AbsoluteHighestResolution => (-area_of(c), -(c.frame_rate as i128)),
        RequestedFormatType::AbsoluteHighestFrameRate => (-(c.frame_rate as i128), -area_of(c)),
        RequestedFormatType::HighestResolution(_) => (-area_of(c), 0),
        RequestedFormatType::HighestFrameRate(_) => (-(c.frame_rate as i128), 0),
        RequestedFormatType::Closest(t) => (
            abs_diff(c.resolution.width_x, t.resolution.width_x) + abs_diff(
                c.resolution.height_y,
                t.resolution.height_y,
            ),
            abs_diff(c.frame_rate, t.frame_rate),
        ),
        _ => (0, 0),
    }
}

/// Whether `a` is strictly preferred to `b` under a policy.
pub fn is_preferred(req: RequestedFormatType, a: CameraFormat, b: CameraFormat) -> (r: bool)
    ensures
        r == prefers(req, a, b),
{
    let sa = score_of(req, a);
    let sb = score_of(req, b);
    if sa.0 != sb.0 {
        return sa.0 < sb.0;
    }
    if sa.1 != sb.1 {
        return sa.1 < sb.1;
    }
    if a.resolution.width_x != b.resolution.width_x {
        return a.resolution.width_x < b.resolution.width_x;
    }
    if a.resolution.height_y != b.resolution.height_y {
        return a.resolution.height_y < b.resolution.height_y;
    }
    if a.frame_rate != b.frame_rate {
        return a.frame_rate < b.frame_rate;
    }
    frame_format_rank(a.format) < frame_format_rank(b.format)
}

fn allows(wanted: &Vec<FrameFormat>, f: FrameFormat) -> (r: bool)
    ensures
        r == wanted@.contains(f),
{
    let mut i: usize = 0;
    while i < wanted.len()
        invariant
            i <= wanted@.len(),
            forall|k: int| 0 <= k < i ==> wanted@[k] != f,
        decreases wanted@.len() - i,
    {
        if wanted[i] == f {
            assert(wanted@[i as int] == f);
            return true;
        }
        i += 1;
    }
    false
}

impl RequestedFormat {
    /// A request that accepts every frame format.
    pub fn new(requested_format: RequestedFormatType) -> (r: RequestedFormat)
        ensures
            r.requested_format == requested_format,
            forall|f: FrameFormat| r.wanted_decoder@.contains(f),
    {
        let wanted_decoder = vec![
            FrameFormat::MJPEG,
            FrameFormat::YUYV,
            FrameFormat::GRAY,
            FrameFormat::RAWRGB,
            FrameFormat::NV12,
        ];
        assert forall|f: FrameFormat| wanted_decoder@.contains(f) by {
            match f {
                FrameFormat::MJPEG => assert(wanted_decoder@[0] == f),
                FrameFormat::YUYV => assert(wanted_decoder@[1] == f),
                FrameFormat::GRAY => assert(wanted_decoder@[2] == f),
                FrameFormat::RAWRGB => assert(wanted_decoder@[3] == f),
                FrameFormat::NV12 => assert(wanted_decoder@[4] == f),
            }
        }
        RequestedFormat { requested_format, wanted_decoder }
    }

    /// A request limited to the given frame formats.
    pub fn with_formats(requested_format: RequestedFormatType, formats: &[FrameFormat]) -> (r:
        RequestedFormat)
        ensures
            r.requested_format == requested_format,
            r.wanted_decoder@ == formats@,
    {
        let mut wanted_decoder: Vec<FrameFormat> = Vec::new();
        let mut i: usize = 0;
        while i < formats.len()
            invariant
                i <= formats@.len(),
                wanted_decoder@ == formats@.subrange(0, i as int),
            decreases formats@.len() - i,
        {
            wanted_decoder.push(formats[i]);
            i += 1;
            assert(wanted_decoder@ =~= formats@.subrange(0, i as int));
        }
        assert(formats@.subrange(0, formats@.len() as int) =~= formats@);
        RequestedFormat { requested_format, wanted_decoder }
    }

    /// Whether an entry may be chosen for this request.
    pub fn is_eligible(&self, c: CameraFormat) -> (r: bool)
        ensures
            r == eligible(*self, c),
    {
        if !allows(&self.wanted_decoder, c.format) {
            return false;
        }
        match self.requested_format {
            RequestedFormatType::HighestResolution(fps) => c.frame_rate == fps,
            RequestedFormatType::HighestFrameRate(res) => c.resolution == res,
            RequestedFormatType::Exact(t) => c == t,
            _ => true,
        }
    }

    /// Picks the best eligible entry of `catalog`, or `None` when no entry
    /// is eligible. The answer does not depend on the catalog's order.
    pub fn fulfill(&self, catalog: &Vec<CameraFormat>) -> (r: Option<CameraFormat>)
        ensures
            is_fulfillment(*self, catalog@, r),
    {
        let req = self.requested_format;
        let mut best: Option<CameraFormat> = None;
        let mut i: usize = 0;
        while i < catalog.len()
            invariant
                i <= catalog@.len(),
                req == self.requested_format,
                best is None ==> forall|k: int|
                    0 <= k < i ==> !eligible(*self, #[trigger] catalog@[k]),
                best is Some ==> {
                    &&& catalog@.contains(best->Some_0)
                    &&& eligible(*self, best->Some_0)
                    &&& forall|k: int|
                        0 <= k < i && eligible(*self, #[trigger] catalog@[k]) ==> catalog@[k]
                            == best->Some_0 || prefers(req, best->Some_0, catalog@[k])
                },
            decreases catalog@.len() - i,
        {
            let c = catalog[i];
            if self.is_eligible(c) {
                match best {
                    None => {
                        best = Some(c);
                        assert(catalog@[i as int] == c);
                    },
                    Some(b) => {
                        if is_preferred(req, c, b) {
                            assert forall|k: int|
                                0 <= k < i + 1 && eligible(*self, #[trigger] catalog@[k])
                                    implies catalog@[k] == c || prefers(req, c, catalog@[k]) by {
                                lemma_prefers_order(req, c, b, catalog@[k]);
                            }
                            best = Some(c);
                            assert(catalog@[i as int] == c);
                        } else {
                            proof {
                                lemma_prefers_order(req, b, c, c);
                            }
                        }
                    },
                }
            }
            i += 1;
        }
        best
    }
}

/// An exact request for an entry the catalog lists, in a format the
/// request accepts, yields exactly that entry.
pub proof fn lemma_exact_request_yields_entry(
    req: RequestedFormat,
    catalog: Seq<CameraFormat>,
    e: CameraFormat,
    r: Option<CameraFormat>,
)
    requires
        catalog.contains(e),
        req.requested_format == RequestedFormatType::Exact(e),
        req.wanted_decoder@.contains(e.format),
        is_fulfillment(req, catalog, r),
    ensures
        r == Some(e),
{
    let k = choose|k: int| 0 <= k < catalog.len() && catalog[k] == e;
    assert(eligible(req, catalog[k]));
}

/// A closest-match request gives the resolution priority over the frame
/// rate: when an eligible entry has the requested resolution, the answer
/// has it too, whatever the rates.
pub proof fn lemma_closest_prefers_resolution(
    req: RequestedFormat,
    catalog: Seq<CameraFormat>,
    target: CameraFormat,
    k: int,
    r: Option<CameraFormat>,
)
    requires
        req.requested_format == RequestedFormatType::Closest(target),
        0 <= k < catalog.len(),
        eligible(req, catalog[k]),
        catalog[k].resolution == target.resolution,
        is_fulfillment(req, catalog, r),
    ensures
        r is Some,
        r->Some_0.resolution == target.resolution,
{
    let best = r->Some_0;
    assert(catalog[k] == best || prefers(req.requested_format, best, catalog[k]));
    assert(score(req.requested_format, best).0 == 0);
    assert(best.resolution.width_x == target.resolution.width_x);
    assert(best.resolution.height_y == target.resolution.height_y);
}

/// The answer to a request is determined by the request and the set of
/// catalog entries: two fulfillments over catalogs with the same entries
/// agree.
pub proof fn lemma_fulfillment_deterministic(
    req: RequestedFormat,
    c1: Seq<CameraFormat>,
    c2: Seq<CameraFormat>,
    r1: Option<CameraFormat>,
    r2: Option<CameraFormat>,
)
    requires
        forall|e: CameraFormat| c1.contains(e) <==> c2.contains(e),
        is_fulfillment(req, c1, r1),
        is_fulfillment(req, c2, r2),
    ensures
        r1 == r2,
{
    if r1 is Some {
        let b1 = r1->Some_0;
        let k2 = choose|k: int| 0 <= k < c2.len() && c2[k] == b1;
        assert(eligible(req, c2[k2]));
        let b2 = r2->Some_0;
        let k1 = choose|k: int| 0 <= k < c1.len() && c1[k] == b2;
        assert(eligible(req, c1[k1]));
        lemma_prefers_order(req.requested_format, b1, b2, b1);
    } else if r2 is Some {
        let b2 = r2->Some_0;
        let k1 = choose|k: int| 0 <= k < c1.len() && c1[k] == b2;
        assert(eligible(req, c1[k1]));
    }
}

} // verus!
