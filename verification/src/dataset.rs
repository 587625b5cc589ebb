//! The dataset: building ray-sample records from posed images, splitting
//! them into a train prefix and a test suffix, and assembling items on
//! access.

use crate::grids::{
    copy_field3, copy_field4, copy_scalar_field4, same_field3, same_field4, same_scalar_field4,
    Coord3, Field3, Field4, ScalarField4,
};
use crate::scalar::{
    add_bits, bits_add, bits_div, bits_le, bits_lt, bits_mul, bits_neg, bits_of_uint,
    bits_round_away, bits_sub, bits_to_usize, div_bits, le_bits, lt_bits, mul_bits, neg_bits,
    random_u32, round_away_bits, sub_bits, uint_bits, usize_of_bits, NEG_ONE_BITS, ONE_BITS,
    POW24_BITS, TWO_BITS, ZERO_BITS,
};
use vstd::prelude::*;

verus! {

/// A single camera-to-world pose: a 3 x 4 matrix whose left 3 x 3 block is
/// the rotation and whose last column is the camera position, both as
/// single-precision bit patterns.
#[derive(Debug)]
pub struct Pose {
    pub value: Vec<Vec<u32>>,
}

impl Pose {
    /// Three rows of four entries.
    pub open spec fn wf(self) -> bool {
        &&& self.value@.len() == 3
        &&& forall|a: int| 0 <= a < 3 ==> (#[trigger] self.value@[a])@.len() == 4
    }

    /// The entry at row `a`, column `b`.
    pub open spec fn at(self, a: int, b: int) -> u32 {
        self.value@[a]@[b]
    }
}

/// The decoded image stack: `count` images of `h` rows, `w` columns and `c`
/// channels, each channel a single-precision bit pattern.
#[derive(Debug)]
pub struct ImageArray {
    pub count: usize,
    pub h: usize,
    pub w: usize,
    pub c: usize,
    pub value: Vec<Vec<Vec<Vec<u32>>>>,
}

impl ImageArray {
    /// The stored lists agree with the stated dimensions.
    pub open spec fn wf(self) -> bool {
        &&& self.value@.len() == self.count
        &&& forall|i: int| 0 <= i < self.count ==> (#[trigger] self.value@[i])@.len() == self.h
        &&& forall|i: int, r: int|
            0 <= i < self.count && 0 <= r < self.h ==> (#[trigger] self.value@[i]@[r])@.len()
                == self.w
        &&& forall|i: int, r: int, c: int|
            0 <= i < self.count && 0 <= r < self.h && 0 <= c < self.w ==> (#[trigger] self.value@[
                i
            ]@[r]@[c])@.len() == self.c
    }

    /// The channel `ch` of pixel (`r`, `c`) of image `i`.
    pub open spec fn at(self, i: int, r: int, c: int, ch: int) -> u32 {
        self.value@[i]@[r]@[c]@[ch]
    }
}

/// The decoded pose stack, co-indexed with the image stack.
#[derive(Debug)]
pub struct PoseArray {
    pub value: Vec<Pose>,
}

impl PoseArray {
    /// Every pose is a well-formed 3 x 4 matrix.
    pub open spec fn wf(self) -> bool {
        forall|i: int| 0 <= i < self.value@.len() ==> (#[trigger] self.value@[i]).wf()
    }
}

/// The sampling interval along each ray, as single-precision bit patterns.
#[derive(Clone, Copy, PartialEq, Eq, Structural, Debug)]
pub struct DistanceRange {
    pub start: u32,
    pub end: u32,
}

/// The recognized loader options: how many distances are sampled along each
/// ray, and over which interval.
#[derive(Clone, Copy, PartialEq, Eq, Structural, Debug)]
pub struct SimpleNerfDatasetConfig {
    pub points_per_ray: usize,
    pub distance_range: DistanceRange,
}

/// One record: the four co-indexed grids built for one source image.
#[derive(Debug)]
pub struct SimpleNerfDatasetInner {
    pub directions: Field4,
    pub distances: ScalarField4,
    pub image: Field3,
    pub origins: Field4,
}

impl SimpleNerfDatasetInner {
    /// The four grids are well formed, share their height and width, the
    /// directions and distances share their sample count, and the origins
    /// grid has a singleton sample axis.
    pub open spec fn wf(self) -> bool {
        &&& self.directions.wf()
        &&& self.distances.wf()
        &&& self.image.wf()
        &&& self.origins.wf()
        &&& self.distances.h == self.directions.h
        &&& self.distances.w == self.directions.w
        &&& self.distances.s == self.directions.s
        &&& self.image.h == self.directions.h
        &&& self.image.w == self.directions.w
        &&& self.origins.h == self.directions.h
        &&& self.origins.w == self.directions.w
        &&& self.origins.s == 1
    }
}

/// The ordered records plus the distance-jitter flag set on train splits.
#[derive(Debug)]
pub struct SimpleNerfDataset {
    pub inners: Vec<SimpleNerfDatasetInner>,
    pub has_noisy_distance: bool,
}

impl SimpleNerfDataset {
    /// Every record is well formed.
    pub open spec fn wf(self) -> bool {
        forall|i: int| 0 <= i < self.inners@.len() ==> (#[trigger] self.inners@[i]).wf()
    }

    /// How many records the dataset holds.
    pub fn len(&self) -> (n: usize)
        ensures
            n == self.inners@.len(),
    {
        self.inners.len()
    }

    /// Assembles the item at `index`, or reports it absent when `index` is
    /// past the end. Positions are recomputed on every call; when jitter is
    /// enabled the distances used for them carry fresh per-entry noise.
    pub fn get(&self, index: usize) -> (out: Option<SimpleNerfDatasetItem>)
        requires
            self.wf(),
        ensures
            out is Some <==> index < self.inners@.len(),
            out is Some ==> item_assembled(
                self.inners@[index as int],
                self.has_noisy_distance,
                out->0,
            ),
    {
        if index >= self.inners.len() {
            return None;
        }
        let rec = &self.inners[index];
        let directions = copy_field4(&rec.directions);
        let image = copy_field3(&rec.image);
        let distances = if self.has_noisy_distance {
            jitter_distances(&rec.distances)
        } else {
            copy_scalar_field4(&rec.distances)
        };
        let positions = assemble_positions(&rec.origins, &directions, &distances);
        Some(SimpleNerfDatasetItem { directions, distances, image, positions })
    }

    /// Splits the records into a train prefix and a test suffix. `ratio`
    /// is the bit pattern of a single-precision value; the split point is
    /// `round(clamp(ratio) * n)`, with ties rounded away from zero. The
    /// train side always has jitter enabled and the test side never does,
    /// whatever the parent's flag was.
    pub fn split_for_training(self, ratio: u32) -> (out: SimpleNerfDatasetSplit)
        requires
            self.wf(),
        ensures
            out.train.wf(),
            out.test.wf(),
            out.train.has_noisy_distance,
            !out.test.has_noisy_distance,
            out.train.inners@ == self.inners@.subrange(
                0,
                split_point_spec(ratio, self.inners@.len() as int),
            ),
            out.test.inners@ == self.inners@.subrange(
                split_point_spec(ratio, self.inners@.len() as int),
                self.inners@.len() as int,
            ),
            out.train.inners@.len() == split_point_spec(ratio, self.inners@.len() as int),
            out.train.inners@.len() + out.test.inners@.len() == self.inners@.len(),
            out.train.inners@ + out.test.inners@ == self.inners@,
    {
        let n = self.inners.len();
        let clamped = if bits_lt(ratio, ZERO_BITS) {
            ZERO_BITS
        } else if bits_lt(ONE_BITS, ratio) {
            ONE_BITS
        } else {
            ratio
        };
        let raw = bits_to_usize(bits_round_away(bits_mul(clamped, bits_of_uint(n))));
        let k = if raw > n {
            n
        } else {
            raw
        };
        proof {
            assert(k == split_point_spec(ratio, self.inners@.len() as int));
        }
        let mut left = self.inners;
        let right = left.split_off(k);
        proof {
            assert(left@ + right@ =~= self.inners@);
        }
        SimpleNerfDatasetSplit {
            train: SimpleNerfDataset { inners: left, has_noisy_distance: true },
            test: SimpleNerfDataset { inners: right, has_noisy_distance: false },
        }
    }
}

/// Shape invariants of a built record: the four grids share the image's
/// height and width, directions and distances share the configured sample
/// count, and the origins grid has a singleton sample axis.
pub proof fn lemma_record_shapes(
    rec: SimpleNerfDatasetInner,
    images: ImageArray,
    p: Pose,
    i: int,
    cfg: SimpleNerfDatasetConfig,
    focal: u32,
)
    requires
        record_built(rec, images, p, i, cfg, focal),
    ensures
        rec.directions.h == images.h && rec.directions.w == images.w && rec.directions.s
            == cfg.points_per_ray,
        rec.distances.h == images.h && rec.distances.w == images.w && rec.distances.s
            == cfg.points_per_ray,
        rec.image.h == images.h && rec.image.w == images.w,
        rec.origins.h == images.h && rec.origins.w == images.w && rec.origins.s == 1,
{
}

/// Shape invariants of an assembled item: directions and positions share
/// one shape, distances share it but for the scalar axis, and the image
/// keeps the record's height and width.
pub proof fn lemma_item_shapes(
    rec: SimpleNerfDatasetInner,
    noisy: bool,
    item: SimpleNerfDatasetItem,
)
    requires
        rec.wf(),
        item_assembled(rec, noisy, item),
    ensures
        item.positions.h == item.directions.h && item.positions.w == item.directions.w
            && item.positions.s == item.directions.s,
        item.distances.h == item.directions.h && item.distances.w == item.directions.w
            && item.distances.s == item.directions.s,
        item.image.h == item.directions.h && item.image.w == item.directions.w,
{
}

/// Without jitter, access is deterministic: any two items assembled from
/// the same record agree entry for entry, positions included.
pub proof fn lemma_plain_access_deterministic(
    rec: SimpleNerfDatasetInner,
    a: SimpleNerfDatasetItem,
    b: SimpleNerfDatasetItem,
)
    requires
        rec.wf(),
        item_assembled(rec, false, a),
        item_assembled(rec, false, b),
    ensures
        same_field4(a.directions, b.directions),
        same_field3(a.image, b.image),
        same_scalar_field4(a.distances, b.distances),
        same_field4(a.positions, b.positions),
{
    assert forall|r: int, c: int, k: int|
        0 <= r < a.directions.h && 0 <= c < a.directions.w && 0 <= k
            < a.directions.s implies a.directions.at(r, c, k) == #[trigger] b.directions.at(
        r,
        c,
        k,
    ) by {
        assert(a.directions.at(r, c, k) == rec.directions.at(r, c, k));
        assert(b.directions.at(r, c, k) == rec.directions.at(r, c, k));
    }
    assert forall|r: int, c: int|
        0 <= r < a.image.h && 0 <= c < a.image.w implies a.image.at(r, c) == #[trigger] b.image.at(
        r,
        c,
    ) by {
        assert(a.image.at(r, c) == rec.image.at(r, c));
        assert(b.image.at(r, c) == rec.image.at(r, c));
    }
    assert forall|r: int, c: int, k: int|
        0 <= r < a.distances.h && 0 <= c < a.distances.w && 0 <= k
            < a.distances.s implies a.distances.at(r, c, k) == #[trigger] b.distances.at(
        r,
        c,
        k,
    ) by {
        assert(a.distances.at(r, c, k) == rec.distances.at(r, c, k));
        assert(b.distances.at(r, c, k) == rec.distances.at(r, c, k));
    }
    assert forall|r: int, c: int, k: int|
        0 <= r < a.positions.h && 0 <= c < a.positions.w && 0 <= k
            < a.positions.s implies a.positions.at(r, c, k) == #[trigger] b.positions.at(
        r,
        c,
        k,
    ) by {
        assert(a.directions.at(r, c, k) == rec.directions.at(r, c, k));
        assert(b.directions.at(r, c, k) == rec.directions.at(r, c, k));
        assert(a.distances.at(r, c, k) == rec.distances.at(r, c, k));
        assert(b.distances.at(r, c, k) == rec.distances.at(r, c, k));
    }
}

/// With jitter, the geometry of two accesses still agrees: both items
/// return the record's directions and image unchanged; only distances and
/// positions may differ, and each distance stays within one admissible
/// jitter of the record's entry.
pub proof fn lemma_jittered_access_geometry(
    rec: SimpleNerfDatasetInner,
    a: SimpleNerfDatasetItem,
    b: SimpleNerfDatasetItem,
)
    requires
        rec.wf(),
        item_assembled(rec, true, a),
        item_assembled(rec, true, b),
    ensures
        same_field4(a.directions, b.directions),
        same_field3(a.image, b.image),
        forall|r: int, c: int, k: int|
            0 <= r < rec.distances.h && 0 <= c < rec.distances.w && 0 <= k < rec.distances.s
                ==> jittered_entry_ok(
                rec.distances.at(r, c, k),
                #[trigger] a.distances.at(r, c, k),
                step_spec(rec.distances),
            ),
{
    assert forall|r: int, c: int, k: int|
        0 <= r < a.directions.h && 0 <= c < a.directions.w && 0 <= k
            < a.directions.s implies a.directions.at(r, c, k) == #[trigger] b.directions.at(
        r,
        c,
        k,
    ) by {
        assert(a.directions.at(r, c, k) == rec.directions.at(r, c, k));
        assert(b.directions.at(r, c, k) == rec.directions.at(r, c, k));
    }
    assert forall|r: int, c: int|
        0 <= r < a.image.h && 0 <= c < a.image.w implies a.image.at(r, c) == #[trigger] b.image.at(
        r,
        c,
    ) by {
        assert(a.image.at(r, c) == rec.image.at(r, c));
        assert(b.image.at(r, c) == rec.image.at(r, c));
    }
}

/// The ratio clamped into `[0, 1]` under the single-precision order; a NaN
/// ratio stays as it is.
pub open spec fn clamp01_spec(ratio: u32) -> u32 {
    if lt_bits(ratio, ZERO_BITS) {
        ZERO_BITS
    } else if lt_bits(ONE_BITS, ratio) {
        ONE_BITS
    } else {
        ratio
    }
}

/// How many records the train prefix takes from `n`:
/// `round(clamp(ratio) * n)` with ties away from zero, truncated to a
/// machine word and capped at `n`.
pub open spec fn split_point_spec(ratio: u32, n: int) -> int {
    let raw = usize_of_bits(round_away_bits(mul_bits(clamp01_spec(ratio), uint_bits(n)))) as int;
    if raw > n {
        n
    } else {
        raw
    }
}

/// The camera-plane x coordinate of pixel column `c` on a width-`w` image:
/// `(c - w/2) / focal`.
pub open spec fn plane_x_spec(c: int, w: int, focal: u32) -> u32 {
    div_bits(sub_bits(uint_bits(c), div_bits(uint_bits(w), TWO_BITS)), focal)
}

/// The camera-plane y coordinate of pixel row `r` on a height-`h` image:
/// `(-r + h/2) / focal`. Rows grow downward while the camera y axis points
/// up, hence the negation.
pub open spec fn plane_y_spec(r: int, h: int, focal: u32) -> u32 {
    div_bits(add_bits(neg_bits(uint_bits(r)), div_bits(uint_bits(h), TWO_BITS)), focal)
}

/// Row `a` of the pose rotation applied to the camera-space direction
/// `(px, py, -1)`: `px*R[a][0] + py*R[a][1] + (-1)*R[a][2]`, summed left to
/// right.
pub open spec fn rotated_spec(p: Pose, px: u32, py: u32, a: int) -> u32 {
    add_bits(
        add_bits(mul_bits(px, p.at(a, 0)), mul_bits(py, p.at(a, 1))),
        mul_bits(NEG_ONE_BITS, p.at(a, 2)),
    )
}

/// The world-space ray direction of pixel (`r`, `c`) under pose `p`.
pub open spec fn direction_spec(p: Pose, r: int, c: int, h: int, w: int, focal: u32) -> Coord3 {
    Coord3 {
        x: rotated_spec(p, plane_x_spec(c, w, focal), plane_y_spec(r, h, focal), 0),
        y: rotated_spec(p, plane_x_spec(c, w, focal), plane_y_spec(r, h, focal), 1),
        z: rotated_spec(p, plane_x_spec(c, w, focal), plane_y_spec(r, h, focal), 2),
    }
}

/// The world-space ray origin under pose `p`: its translation column.
pub open spec fn origin_spec(p: Pose) -> Coord3 {
    Coord3 { x: p.at(0, 3), y: p.at(1, 3), z: p.at(2, 3) }
}

/// The width of one sampling bin along a ray: `(end - start) / s` for `s`
/// points per ray.
pub open spec fn bin_width_spec(s: int, range: DistanceRange) -> u32 {
    div_bits(sub_bits(range.end, range.start), uint_bits(s))
}

/// The `k`-th sampled distance along a ray: `k * bin_width + start`. The
/// `s` bins start exactly at the range start and never reach its end.
pub open spec fn distance_spec(k: int, s: int, range: DistanceRange) -> u32 {
    add_bits(mul_bits(uint_bits(k), bin_width_spec(s, range)), range.start)
}

/// The pixel of image `i` at (`r`, `c`) as a color triple; meaningful when
/// the image stack has exactly three channels.
pub open spec fn pixel_spec(images: ImageArray, i: int, r: int, c: int) -> Coord3 {
    Coord3 { x: images.at(i, r, c, 0), y: images.at(i, r, c, 1), z: images.at(i, r, c, 2) }
}

/// The record built for source image `i`: every entry of its four grids is
/// pinned to the geometric model.
pub open spec fn record_built(
    rec: SimpleNerfDatasetInner,
    images: ImageArray,
    p: Pose,
    i: int,
    cfg: SimpleNerfDatasetConfig,
    focal: u32,
) -> bool {
    &&& rec.wf()
    &&& rec.directions.h == images.h
    &&& rec.directions.w == images.w
    &&& rec.directions.s == cfg.points_per_ray
    &&& forall|r: int, c: int, k: int|
        0 <= r < images.h && 0 <= c < images.w && 0 <= k < cfg.points_per_ray
            ==> #[trigger] rec.directions.at(r, c, k) == direction_spec(
            p,
            r,
            c,
            images.h as int,
            images.w as int,
            focal,
        )
    &&& forall|r: int, c: int|
        0 <= r < images.h && 0 <= c < images.w ==> #[trigger] rec.origins.at(r, c, 0)
            == origin_spec(p)
    &&& forall|r: int, c: int, k: int|
        0 <= r < images.h && 0 <= c < images.w && 0 <= k < cfg.points_per_ray
            ==> #[trigger] rec.distances.at(r, c, k) == distance_spec(
            k,
            cfg.points_per_ray as int,
            cfg.distance_range,
        )
    &&& forall|r: int, c: int|
        0 <= r < images.h && 0 <= c < images.w ==> #[trigger] rec.image.at(r, c) == pixel_spec(
            images,
            i,
            r,
            c,
        )
}

/// The per-column camera-plane x coordinates.
fn build_plane_x(w: usize, focal: u32) -> (out: Vec<u32>)
    ensures
        out@.len() == w,
        forall|c: int| 0 <= c < w ==> out@[c] == plane_x_spec(c, w as int, focal),
{
    let half = bits_div(bits_of_uint(w), TWO_BITS);
    let mut out: Vec<u32> = Vec::new();
    let mut c: usize = 0;
    while c < w
        invariant
            c <= w,
            half == div_bits(uint_bits(w as int), TWO_BITS),
            out@.len() == c,
            forall|c0: int| 0 <= c0 < c ==> out@[c0] == plane_x_spec(c0, w as int, focal),
        decreases w - c,
    {
        out.push(bits_div(bits_sub(bits_of_uint(c), half), focal));
        c += 1;
    }
    out
}

/// The per-row camera-plane y coordinates.
fn build_plane_y(h: usize, focal: u32) -> (out: Vec<u32>)
    ensures
        out@.len() == h,
        forall|r: int| 0 <= r < h ==> out@[r] == plane_y_spec(r, h as int, focal),
{
    let half = bits_div(bits_of_uint(h), TWO_BITS);
    let mut out: Vec<u32> = Vec::new();
    let mut r: usize = 0;
    while r < h
        invariant
            r <= h,
            half == div_bits(uint_bits(h as int), TWO_BITS),
            out@.len() == r,
            forall|r0: int| 0 <= r0 < r ==> out@[r0] == plane_y_spec(r0, h as int, focal),
        decreases h - r,
    {
        out.push(bits_div(bits_add(bits_neg(bits_of_uint(r)), half), focal));
        r += 1;
    }
    out
}

/// The `s` sampled distances shared by every pixel of every image.
fn build_distance_values(s: usize, range: DistanceRange) -> (out: Vec<u32>)
    ensures
        out@.len() == s,
        forall|k: int| 0 <= k < s ==> out@[k] == distance_spec(k, s as int, range),
{
    let bin = bits_div(bits_sub(range.end, range.start), bits_of_uint(s));
    let mut out: Vec<u32> = Vec::new();
    let mut k: usize = 0;
    while k < s
        invariant
            k <= s,
            bin == bin_width_spec(s as int, range),
            out@.len() == k,
            forall|k0: int| 0 <= k0 < k ==> out@[k0] == distance_spec(k0, s as int, range),
        decreases s - k,
    {
        out.push(bits_add(bits_mul(bits_of_uint(k), bin), range.start));
        k += 1;
    }
    out
}

/// The pose rotation applied to the camera-space direction `(px, py, -1)`.
fn rotate(p: &Pose, px: u32, py: u32) -> (d: Coord3)
    requires
        p.wf(),
    ensures
        d.x == rotated_spec(*p, px, py, 0),
        d.y == rotated_spec(*p, px, py, 1),
        d.z == rotated_spec(*p, px, py, 2),
{
    let x = bits_add(
        bits_add(bits_mul(px, p.value[0][0]), bits_mul(py, p.value[0][1])),
        bits_mul(NEG_ONE_BITS, p.value[0][2]),
    );
    let y = bits_add(
        bits_add(bits_mul(px, p.value[1][0]), bits_mul(py, p.value[1][1])),
        bits_mul(NEG_ONE_BITS, p.value[1][2]),
    );
    let z = bits_add(
        bits_add(bits_mul(px, p.value[2][0]), bits_mul(py, p.value[2][1])),
        bits_mul(NEG_ONE_BITS, p.value[2][2]),
    );
    Coord3 { x, y, z }
}

/// `s` copies of one triple.
fn repeat_coord(v: Coord3, s: usize) -> (out: Vec<Coord3>)
    ensures
        out@.len() == s,
        forall|k: int| 0 <= k < s ==> out@[k] == v,
{
    let mut out: Vec<Coord3> = Vec::new();
    let mut k: usize = 0;
    while k < s
        invariant
            k <= s,
            out@.len() == k,
            forall|k0: int| 0 <= k0 < k ==> out@[k0] == v,
        decreases s - k,
    {
        out.push(v);
        k += 1;
    }
    out
}

/// An exact copy of a scalar vector.
fn copy_scalars(v: &Vec<u32>) -> (out: Vec<u32>)
    ensures
        out@ == v@,
{
    let mut out: Vec<u32> = Vec::new();
    let mut k: usize = 0;
    while k < v.len()
        invariant
            k <= v@.len(),
            out@.len() == k,
            forall|k0: int| 0 <= k0 < k ==> out@[k0] == v@[k0],
        decreases v@.len() - k,
    {
        out.push(v[k]);
        k += 1;
    }
    proof {
        assert(out@ =~= v@);
    }
    out
}

/// The `[h, w, s, 3]` grid of world-space ray directions under one pose:
/// the samples along one ray all share their direction.
fn build_directions(p: &Pose, px: &Vec<u32>, py: &Vec<u32>, h: usize, w: usize, s: usize, focal: u32)
    -> (out: Field4)
    requires
        p.wf(),
        px@.len() == w,
        forall|c: int| 0 <= c < w ==> px@[c] == plane_x_spec(c, w as int, focal),
        py@.len() == h,
        forall|r: int| 0 <= r < h ==> py@[r] == plane_y_spec(r, h as int, focal),
    ensures
        out.wf(),
        out.h == h,
        out.w == w,
        out.s == s,
        forall|r: int, c: int, k: int|
            0 <= r < h && 0 <= c < w && 0 <= k < s ==> #[trigger] out.at(r, c, k)
                == direction_spec(*p, r, c, h as int, w as int, focal),
{
    let mut value: Vec<Vec<Vec<Coord3>>> = Vec::new();
    let mut r: usize = 0;
    while r < h
        invariant
            p.wf(),
            px@.len() == w,
            forall|c0: int| 0 <= c0 < w ==> px@[c0] == plane_x_spec(c0, w as int, focal),
            py@.len() == h,
            forall|r0: int| 0 <= r0 < h ==> py@[r0] == plane_y_spec(r0, h as int, focal),
            r <= h,
            value@.len() == r,
            forall|r0: int| 0 <= r0 < r ==> (#[trigger] value@[r0])@.len() == w,
            forall|r0: int, c0: int|
                0 <= r0 < r && 0 <= c0 < w ==> (#[trigger] value@[r0]@[c0])@.len() == s,
            forall|r0: int, c0: int, k0: int|
                0 <= r0 < r && 0 <= c0 < w && 0 <= k0 < s ==> value@[r0]@[c0]@[k0]
                    == direction_spec(*p, r0, c0, h as int, w as int, focal),
        decreases h - r,
    {
        let mut row: Vec<Vec<Coord3>> = Vec::new();
        let mut c: usize = 0;
        while c < w
            invariant
                p.wf(),
                px@.len() == w,
                forall|c0: int| 0 <= c0 < w ==> px@[c0] == plane_x_spec(c0, w as int, focal),
                py@.len() == h,
                forall|r0: int| 0 <= r0 < h ==> py@[r0] == plane_y_spec(r0, h as int, focal),
                r < h,
                c <= w,
                row@.len() == c,
                forall|c0: int| 0 <= c0 < c ==> (#[trigger] row@[c0])@.len() == s,
                forall|c0: int, k0: int|
                    0 <= c0 < c && 0 <= k0 < s ==> row@[c0]@[k0] == direction_spec(
                        *p,
                        r as int,
                        c0,
                        h as int,
                        w as int,
                        focal,
                    ),
            decreases w - c,
        {
            let d = rotate(p, px[c], py[r]);
            proof {
                assert(d == direction_spec(*p, r as int, c as int, h as int, w as int, focal));
            }
            row.push(repeat_coord(d, s));
            c += 1;
        }
        value.push(row);
        r += 1;
    }
    Field4 { h, w, s, value }
}

/// The `[h, w, 1, 3]` grid that broadcasts one pose's camera position over
/// every pixel.
fn build_origins(p: &Pose, h: usize, w: usize) -> (out: Field4)
    requires
        p.wf(),
    ensures
        out.wf(),
        out.h == h,
        out.w == w,
        out.s == 1,
        forall|r: int, c: int|
            0 <= r < h && 0 <= c < w ==> #[trigger] out.at(r, c, 0) == origin_spec(*p),
{
    let t = Coord3 { x: p.value[0][3], y: p.value[1][3], z: p.value[2][3] };
    proof {
        assert(t == origin_spec(*p));
    }
    let mut value: Vec<Vec<Vec<Coord3>>> = Vec::new();
    let mut r: usize = 0;
    while r < h
        invariant
            t == origin_spec(*p),
            r <= h,
            value@.len() == r,
            forall|r0: int| 0 <= r0 < r ==> (#[trigger] value@[r0])@.len() == w,
            forall|r0: int, c0: int|
                0 <= r0 < r && 0 <= c0 < w ==> (#[trigger] value@[r0]@[c0])@.len() == 1,
            forall|r0: int, c0: int|
                0 <= r0 < r && 0 <= c0 < w ==> value@[r0]@[c0]@[0] == origin_spec(*p),
        decreases h - r,
    {
        let mut row: Vec<Vec<Coord3>> = Vec::new();
        let mut c: usize = 0;
        while c < w
            invariant
                t == origin_spec(*p),
                c <= w,
                row@.len() == c,
                forall|c0: int| 0 <= c0 < c ==> (#[trigger] row@[c0])@.len() == 1,
                forall|c0: int| 0 <= c0 < c ==> row@[c0]@[0] == origin_spec(*p),
            decreases w - c,
        {
            let cell = repeat_coord(t, 1);
            proof {
                assert(cell@[0] == t);
            }
            row.push(cell);
            c += 1;
        }
        value.push(row);
        r += 1;
    }
    Field4 { h, w, s: 1, value }
}

/// The `[h, w, s, 1]` grid that broadcasts the shared distance values over
/// every pixel.
fn build_distance_grid(dvals: &Vec<u32>, h: usize, w: usize, s: usize) -> (out: ScalarField4)
    requires
        dvals@.len() == s,
    ensures
        out.wf(),
        out.h == h,
        out.w == w,
        out.s == s,
        forall|r: int, c: int, k: int|
            0 <= r < h && 0 <= c < w && 0 <= k < s ==> #[trigger] out.at(r, c, k) == dvals@[k],
{
    let mut value: Vec<Vec<Vec<u32>>> = Vec::new();
    let mut r: usize = 0;
    while r < h
        invariant
            dvals@.len() == s,
            r <= h,
            value@.len() == r,
            forall|r0: int| 0 <= r0 < r ==> (#[trigger] value@[r0])@.len() == w,
            forall|r0: int, c0: int|
                0 <= r0 < r && 0 <= c0 < w ==> (#[trigger] value@[r0]@[c0])@.len() == s,
            forall|r0: int, c0: int, k0: int|
                0 <= r0 < r && 0 <= c0 < w && 0 <= k0 < s ==> value@[r0]@[c0]@[k0] == dvals@[k0],
        decreases h - r,
    {
        let mut row: Vec<Vec<u32>> = Vec::new();
        let mut c: usize = 0;
        while c < w
            invariant
                dvals@.len() == s,
                c <= w,
                row@.len() == c,
                forall|c0: int| 0 <= c0 < c ==> (#[trigger] row@[c0])@.len() == s,
                forall|c0: int, k0: int| 0 <= c0 < c && 0 <= k0 < s ==> row@[c0]@[k0] == dvals@[k0],
            decreases w - c,
        {
            row.push(copy_scalars(dvals));
            c += 1;
        }
        value.push(row);
        r += 1;
    }
    ScalarField4 { h, w, s, value }
}

/// The `[h, w, 3]` color grid of source image `i`.
fn build_image_grid(images: &ImageArray, i: usize) -> (out: Field3)
    requires
        images.wf(),
        i < images.count,
        images.c == 3,
    ensures
        out.wf(),
        out.h == images.h,
        out.w == images.w,
        forall|r: int, c: int|
            0 <= r < images.h && 0 <= c < images.w ==> #[trigger] out.at(r, c) == pixel_spec(
                *images,
                i as int,
                r,
                c,
            ),
{
    let h = images.h;
    let w = images.w;
    let mut value: Vec<Vec<Coord3>> = Vec::new();
    let mut r: usize = 0;
    while r < h
        invariant
            images.wf(),
            i < images.count,
            images.c == 3,
            h == images.h,
            w == images.w,
            r <= h,
            value@.len() == r,
            forall|r0: int| 0 <= r0 < r ==> (#[trigger] value@[r0])@.len() == w,
            forall|r0: int, c0: int|
                0 <= r0 < r && 0 <= c0 < w ==> value@[r0]@[c0] == pixel_spec(
                    *images,
                    i as int,
                    r0,
                    c0,
                ),
        decreases h - r,
    {
        let mut row: Vec<Coord3> = Vec::new();
        let mut c: usize = 0;
        while c < w
            invariant
                images.wf(),
                i < images.count,
                images.c == 3,
                h == images.h,
                w == images.w,
                r < h,
                c <= w,
                row@.len() == c,
                forall|c0: int| 0 <= c0 < c ==> row@[c0] == pixel_spec(*images, i as int, r as int, c0),
            decreases w - c,
        {
            let px = Coord3 {
                x: images.value[i][r][c][0],
                y: images.value[i][r][c][1],
                z: images.value[i][r][c][2],
            };
            row.push(px);
            c += 1;
        }
        value.push(row);
        r += 1;
    }
    Field3 { h, w, value }
}

impl SimpleNerfDatasetConfig {
    /// Builds the dataset from the decoded arrays: the shared focal length
    /// (as the bit pattern of a single-precision value, like every scalar
    /// here), the image stack and the camera-to-world pose of each image.
    /// Fails exactly when the image and pose counts differ or the channel
    /// count is not three; otherwise every entry of every record is pinned
    /// to the geometric model and jitter starts disabled.
    pub fn init_from_arrays(&self, focal: u32, images: &ImageArray, poses: &PoseArray) -> (out:
        Result<SimpleNerfDataset, DataError>)
        requires
            images.wf(),
            poses.wf(),
        ensures
            out is Ok <==> (images.count == poses.value@.len() && images.c == 3),
            out is Err ==> out->Err_0 == DataError::InvalidData,
            out is Ok ==> (out->Ok_0).wf(),
            out is Ok ==> !(out->Ok_0).has_noisy_distance,
            out is Ok ==> (out->Ok_0).inners@.len() == images.count,
            out is Ok ==> forall|i: int|
                0 <= i < images.count ==> record_built(
                    #[trigger] (out->Ok_0).inners@[i],
                    *images,
                    poses.value@[i],
                    i,
                    *self,
                    focal,
                ),
    {
        if images.count != poses.value.len() {
            return Err(DataError::InvalidData);
        }
        if images.c != 3 {
            return Err(DataError::InvalidData);
        }
        let h = images.h;
        let w = images.w;
        let s = self.points_per_ray;
        let px = build_plane_x(w, focal);
        let py = build_plane_y(h, focal);
        let dvals = build_distance_values(s, self.distance_range);
        let mut inners: Vec<SimpleNerfDatasetInner> = Vec::new();
        let mut i: usize = 0;
        while i < images.count
            invariant
                images.wf(),
                poses.wf(),
                images.count == poses.value@.len(),
                images.c == 3,
                h == images.h,
                w == images.w,
                s == self.points_per_ray,
                px@.len() == w,
                forall|c0: int| 0 <= c0 < w ==> px@[c0] == plane_x_spec(c0, w as int, focal),
                py@.len() == h,
                forall|r0: int| 0 <= r0 < h ==> py@[r0] == plane_y_spec(r0, h as int, focal),
                dvals@.len() == s,
                forall|k0: int|
                    0 <= k0 < s ==> dvals@[k0] == distance_spec(
                        k0,
                        s as int,
                        self.distance_range,
                    ),
                i <= images.count,
                inners@.len() == i,
                forall|i0: int|
                    0 <= i0 < i ==> record_built(
                        #[trigger] inners@[i0],
                        *images,
                        poses.value@[i0],
                        i0,
                        *self,
                        focal,
                    ),
            decreases images.count - i,
    {
            let p = &poses.value[i];
            let rec = SimpleNerfDatasetInner {
                directions: build_directions(p, &px, &py, h, w, s, focal),
                distances: build_distance_grid(&dvals, h, w, s),
                image: build_image_grid(images, i),
                origins: build_origins(p, h, w),
            };
            inners.push(rec);
            i += 1;
        }
        Ok(SimpleNerfDataset { inners, has_noisy_distance: false })
    }
}

/// One assembled item: the record's grids plus the positions computed from
/// them at access time.
#[derive(Debug)]
pub struct SimpleNerfDatasetItem {
    pub directions: Field4,
    pub distances: ScalarField4,
    pub image: Field3,
    pub positions: Field4,
}

/// The train prefix and the test suffix of a split dataset.
#[derive(Debug)]
pub struct SimpleNerfDatasetSplit {
    pub train: SimpleNerfDataset,
    pub test: SimpleNerfDataset,
}

/// The step recomputed at access time: the difference of the first two
/// entries of the flattened distances grid, zero when fewer than two
/// entries exist.
pub open spec fn step_spec(d: ScalarField4) -> u32 {
    if d.h >= 1 && d.w >= 1 && d.s >= 2 {
        sub_bits(d.at(0, 0, 1), d.at(0, 0, 0))
    } else if d.h >= 1 && d.w >= 2 && d.s == 1 {
        sub_bits(d.at(0, 1, 0), d.at(0, 0, 0))
    } else if d.h >= 2 && d.w == 1 && d.s == 1 {
        sub_bits(d.at(1, 0, 0), d.at(0, 0, 0))
    } else {
        ZERO_BITS
    }
}

/// An admissible jitter value for a step: inside `[0, step)` under the
/// single-precision order, or exactly zero when that interval is empty or
/// ill-defined.
pub open spec fn noise_ok(n: u32, step: u32) -> bool {
    (le_bits(ZERO_BITS, n) && lt_bits(n, step)) || n == ZERO_BITS
}

/// `res` is `orig` plus some admissible jitter value for `step`.
pub open spec fn jittered_entry_ok(orig: u32, res: u32, step: u32) -> bool {
    exists|n: u32| noise_ok(n, step) && res == add_bits(orig, n)
}

/// The item assembled from record `rec` under jitter flag `noisy`: its
/// directions and image are the record's; its distances carry one
/// admissible jitter value per entry when `noisy` is set and none
/// otherwise; and every position is `origin + direction * distance`, with
/// origins broadcast along the sample axis and distances broadcast across
/// the three coordinates.
pub open spec fn item_assembled(
    rec: SimpleNerfDatasetInner,
    noisy: bool,
    item: SimpleNerfDatasetItem,
) -> bool {
    &&& item.directions.wf()
    &&& item.distances.wf()
    &&& item.image.wf()
    &&& item.positions.wf()
    &&& same_field4(rec.directions, item.directions)
    &&& same_field3(rec.image, item.image)
    &&& item.distances.h == rec.distances.h
    &&& item.distances.w == rec.distances.w
    &&& item.distances.s == rec.distances.s
    &&& item.positions.h == rec.directions.h
    &&& item.positions.w == rec.directions.w
    &&& item.positions.s == rec.directions.s
    &&& !noisy ==> same_scalar_field4(rec.distances, item.distances)
    &&& noisy ==> forall|r: int, c: int, k: int|
        0 <= r < rec.distances.h && 0 <= c < rec.distances.w && 0 <= k < rec.distances.s
            ==> jittered_entry_ok(
            rec.distances.at(r, c, k),
            #[trigger] item.distances.at(r, c, k),
            step_spec(rec.distances),
        )
    &&& forall|r: int, c: int, k: int|
        0 <= r < rec.directions.h && 0 <= c < rec.directions.w && 0 <= k < rec.directions.s
            ==> #[trigger] item.positions.at(r, c, k) == (Coord3 {
            x: add_bits(
                rec.origins.at(r, c, 0).x,
                mul_bits(item.directions.at(r, c, k).x, item.distances.at(r, c, k)),
            ),
            y: add_bits(
                rec.origins.at(r, c, 0).y,
                mul_bits(item.directions.at(r, c, k).y, item.distances.at(r, c, k)),
            ),
            z: add_bits(
                rec.origins.at(r, c, 0).z,
                mul_bits(item.directions.at(r, c, k).z, item.distances.at(r, c, k)),
            ),
        })
}

/// The first two flattened entries of the distances grid, subtracted.
fn access_step(d: &ScalarField4) -> (r: u32)
    requires
        d.wf(),
    ensures
        r == step_spec(*d),
{
    if d.h >= 1 && d.w >= 1 && d.s >= 2 {
        bits_sub(d.value[0][0][1], d.value[0][0][0])
    } else if d.h >= 1 && d.w >= 2 && d.s == 1 {
        bits_sub(d.value[0][1][0], d.value[0][0][0])
    } else if d.h >= 2 && d.w == 1 && d.s == 1 {
        bits_sub(d.value[1][0][0], d.value[0][0][0])
    } else {
        ZERO_BITS
    }
}

/// One jitter draw: a random fraction of the step, kept only when it
/// falls inside `[0, step)` and replaced by zero otherwise.
fn draw_noise(step: u32) -> (n: u32)
    ensures
        noise_ok(n, step),
{
    let word = random_u32();
    let frac = bits_div(bits_of_uint((word >> 8) as usize), POW24_BITS);
    let candidate = bits_mul(step, frac);
    if bits_le(ZERO_BITS, candidate) && bits_lt(candidate, step) {
        candidate
    } else {
        ZERO_BITS
    }
}

/// A copy of the distances grid with an independent admissible jitter
/// value added to every entry.
fn jitter_distances(d: &ScalarField4) -> (out: ScalarField4)
    requires
        d.wf(),
    ensures
        out.wf(),
        out.h == d.h,
        out.w == d.w,
        out.s == d.s,
        forall|r: int, c: int, k: int|
            0 <= r < d.h && 0 <= c < d.w && 0 <= k < d.s ==> jittered_entry_ok(
                d.at(r, c, k),
                #[trigger] out.at(r, c, k),
                step_spec(*d),
            ),
{
    let step = access_step(d);
    let mut value: Vec<Vec<Vec<u32>>> = Vec::new();
    let mut r: usize = 0;
    while r < d.h
        invariant
            d.wf(),
            step == step_spec(*d),
            r <= d.h,
            value@.len() == r,
            forall|r0: int| 0 <= r0 < r ==> (#[trigger] value@[r0])@.len() == d.w,
            forall|r0: int, c0: int|
                0 <= r0 < r && 0 <= c0 < d.w ==> (#[trigger] value@[r0]@[c0])@.len() == d.s,
            forall|r0: int, c0: int, k0: int|
                0 <= r0 < r && 0 <= c0 < d.w && 0 <= k0 < d.s ==> jittered_entry_ok(
                    d.at(r0, c0, k0),
                    #[trigger] value@[r0]@[c0]@[k0],
                    step_spec(*d),
                ),
        decreases d.h - r,
    {
        let mut row: Vec<Vec<u32>> = Vec::new();
        let mut c: usize = 0;
        while c < d.w
            invariant
                d.wf(),
                step == step_spec(*d),
                r < d.h,
                c <= d.w,
                row@.len() == c,
                forall|c0: int| 0 <= c0 < c ==> (#[trigger] row@[c0])@.len() == d.s,
                forall|c0: int, k0: int|
                    0 <= c0 < c && 0 <= k0 < d.s ==> jittered_entry_ok(
                        d.at(r as int, c0, k0),
                        #[trigger] row@[c0]@[k0],
                        step_spec(*d),
                    ),
            decreases d.w - c,
        {
            let mut cell: Vec<u32> = Vec::new();
            let mut k: usize = 0;
            while k < d.s
                invariant
                    d.wf(),
                    step == step_spec(*d),
                    r < d.h,
                    c < d.w,
                    k <= d.s,
                    cell@.len() == k,
                    forall|k0: int|
                        0 <= k0 < k ==> jittered_entry_ok(
                            d.at(r as int, c as int, k0),
                            #[trigger] cell@[k0],
                            step_spec(*d),
                        ),
                decreases d.s - k,
            {
                let n = draw_noise(step);
                let v = bits_add(d.value[r][c][k], n);
                cell.push(v);
                proof {
                    assert(noise_ok(n, step_spec(*d)) && cell@[k as int] == add_bits(
                        d.at(r as int, c as int, k as int),
                        n,
                    ));
                    assert(jittered_entry_ok(
                        d.at(r as int, c as int, k as int),
                        cell@[k as int],
                        step_spec(*d),
                    ));
                }
                k += 1;
            }
            row.push(cell);
            c += 1;
        }
        value.push(row);
        r += 1;
    }
    ScalarField4 { h: d.h, w: d.w, s: d.s, value }
}

/// The positions grid: `origin + direction * distance` for every pixel,
/// sample and coordinate.
fn assemble_positions(origins: &Field4, directions: &Field4, distances: &ScalarField4) -> (out:
    Field4)
    requires
        origins.wf(),
        directions.wf(),
        distances.wf(),
        origins.h == directions.h,
        origins.w == directions.w,
        origins.s == 1,
        distances.h == directions.h,
        distances.w == directions.w,
        distances.s == directions.s,
    ensures
        out.wf(),
        out.h == directions.h,
        out.w == directions.w,
        out.s == directions.s,
        forall|r: int, c: int, k: int|
            0 <= r < directions.h && 0 <= c < directions.w && 0 <= k < directions.s
                ==> #[trigger] out.at(r, c, k) == (Coord3 {
                x: add_bits(
                    origins.at(r, c, 0).x,
                    mul_bits(directions.at(r, c, k).x, distances.at(r, c, k)),
                ),
                y: add_bits(
                    origins.at(r, c, 0).y,
                    mul_bits(directions.at(r, c, k).y, distances.at(r, c, k)),
                ),
                z: add_bits(
                    origins.at(r, c, 0).z,
                    mul_bits(directions.at(r, c, k).z, distances.at(r, c, k)),
                ),
            }),
{
    let h = directions.h;
    let w = directions.w;
    let s = directions.s;
    let mut value: Vec<Vec<Vec<Coord3>>> = Vec::new();
    let mut r: usize = 0;
    while r < h
        invariant
            origins.wf(),
            directions.wf(),
            distances.wf(),
            origins.h == h && origins.w == w && origins.s == 1,
            distances.h == h && distances.w == w && distances.s == s,
            directions.h == h && directions.w == w && directions.s == s,
            r <= h,
            value@.len() == r,
            forall|r0: int| 0 <= r0 < r ==> (#[trigger] value@[r0])@.len() == w,
            forall|r0: int, c0: int|
                0 <= r0 < r && 0 <= c0 < w ==> (#[trigger] value@[r0]@[c0])@.len() == s,
            forall|r0: int, c0: int, k0: int|
                0 <= r0 < r && 0 <= c0 < w && 0 <= k0 < s ==> value@[r0]@[c0]@[k0] == (Coord3 {
                    x: add_bits(
                        origins.at(r0, c0, 0).x,
                        mul_bits(directions.at(r0, c0, k0).x, distances.at(r0, c0, k0)),
                    ),
                    y: add_bits(
                        origins.at(r0, c0, 0).y,
                        mul_bits(directions.at(r0, c0, k0).y, distances.at(r0, c0, k0)),
                    ),
                    z: add_bits(
                        origins.at(r0, c0, 0).z,
                        mul_bits(directions.at(r0, c0, k0).z, distances.at(r0, c0, k0)),
                    ),
                }),
        decreases h - r,
    {
        let mut row: Vec<Vec<Coord3>> = Vec::new();
        let mut c: usize = 0;
        while c < w
            invariant
                origins.wf(),
                directions.wf(),
                distances.wf(),
                origins.h == h && origins.w == w && origins.s == 1,
                distances.h == h && distances.w == w && distances.s == s,
                directions.h == h && directions.w == w && directions.s == s,
                r < h,
                c <= w,
                row@.len() == c,
                forall|c0: int| 0 <= c0 < c ==> (#[trigger] row@[c0])@.len() == s,
                forall|c0: int, k0: int|
                    0 <= c0 < c && 0 <= k0 < s ==> row@[c0]@[k0] == (Coord3 {
                        x: add_bits(
                            origins.at(r as int, c0, 0).x,
                            mul_bits(
                                directions.at(r as int, c0, k0).x,
                                distances.at(r as int, c0, k0),
                            ),
                        ),
                        y: add_bits(
                            origins.at(r as int, c0, 0).y,
                            mul_bits(
                                directions.at(r as int, c0, k0).y,
                                distances.at(r as int, c0, k0),
                            ),
                        ),
                        z: add_bits(
                            origins.at(r as int, c0, 0).z,
                            mul_bits(
                                directions.at(r as int, c0, k0).z,
                                distances.at(r as int, c0, k0),
                            ),
                        ),
                    }),
            decreases w - c,
        {
            let o = origins.value[r][c][0];
            let mut cell: Vec<Coord3> = Vec::new();
            let mut k: usize = 0;
            while k < s
                invariant
                    origins.wf(),
                    directions.wf(),
                    distances.wf(),
                    origins.h == h && origins.w == w && origins.s == 1,
                    distances.h == h && distances.w == w && distances.s == s,
                    directions.h == h && directions.w == w && directions.s == s,
                    r < h,
                    c < w,
                    k <= s,
                    o == origins.at(r as int, c as int, 0),
                    cell@.len() == k,
                    forall|k0: int|
                        0 <= k0 < k ==> cell@[k0] == (Coord3 {
                            x: add_bits(
                                origins.at(r as int, c as int, 0).x,
                                mul_bits(
                                    directions.at(r as int, c as int, k0).x,
                                    distances.at(r as int, c as int, k0),
                                ),
                            ),
                            y: add_bits(
                                origins.at(r as int, c as int, 0).y,
                                mul_bits(
                                    directions.at(r as int, c as int, k0).y,
                                    distances.at(r as int, c as int, k0),
                                ),
                            ),
                            z: add_bits(
                                origins.at(r as int, c as int, 0).z,
                                mul_bits(
                                    directions.at(r as int, c as int, k0).z,
                                    distances.at(r as int, c as int, k0),
                                ),
                            ),
                        }),
                decreases s - k,
            {
                let dvec = directions.value[r][c][k];
                let dist = distances.value[r][c][k];
                let pos = Coord3 {
                    x: bits_add(o.x, bits_mul(dvec.x, dist)),
                    y: bits_add(o.y, bits_mul(dvec.y, dist)),
                    z: bits_add(o.z, bits_mul(dvec.z, dist)),
                };
                cell.push(pos);
                k += 1;
            }
            row.push(cell);
            c += 1;
        }
        value.push(row);
        r += 1;
    }
    Field4 { h, w, s, value }
}

/// The one build failure: the decoded arrays do not describe a dataset
/// (image and pose counts differ, or the channel count is not three).
#[derive(Clone, Copy, PartialEq, Eq, Structural, Debug)]
pub enum DataError {
    InvalidData,
}

} // verus!
