//! Dense grids of per-pixel and per-sample values.
//!
//! A record of the dataset keeps four co-indexed grids: ray directions, ray
//! origins, sampled distances and image colors. Directions, origins and
//! colors are triples of single-precision bit patterns; distances are
//! scalars. Shapes are carried explicitly so that empty grids still report
//! their dimensions.

use vstd::prelude::*;

verus! {

/// A triple of single-precision bit patterns: one world-space vector or one
/// RGB color.
#[derive(Clone, Copy, PartialEq, Eq, Structural, Debug)]
pub struct Coord3 {
    pub x: u32,
    pub y: u32,
    pub z: u32,
}

/// A height x width grid of triples: logical shape `[h, w, 3]`.
#[derive(Debug)]
pub struct Field3 {
    pub h: usize,
    pub w: usize,
    pub value: Vec<Vec<Coord3>>,
}

impl Field3 {
    /// The stored rows and cells agree with the stated dimensions.
    pub open spec fn wf(self) -> bool {
        &&& self.value@.len() == self.h
        &&& forall|r: int| 0 <= r < self.h ==> (#[trigger] self.value@[r])@.len() == self.w
    }

    /// The triple stored at row `r`, column `c`.
    pub open spec fn at(self, r: int, c: int) -> Coord3 {
        self.value@[r]@[c]
    }

    /// The logical shape `[h, w, 3]`.
    pub fn dims(&self) -> (d: Vec<usize>)
        ensures
            d@ == seq![self.h, self.w, 3usize],
    {
        let mut d: Vec<usize> = Vec::new();
        d.push(self.h);
        d.push(self.w);
        d.push(3);
        proof {
            assert(d@ =~= seq![self.h, self.w, 3usize]);
        }
        d
    }
}

/// A height x width x samples grid of triples: logical shape `[h, w, s, 3]`.
#[derive(Debug)]
pub struct Field4 {
    pub h: usize,
    pub w: usize,
    pub s: usize,
    pub value: Vec<Vec<Vec<Coord3>>>,
}

impl Field4 {
    /// The stored rows, cells and sample lists agree with the stated
    /// dimensions.
    pub open spec fn wf(self) -> bool {
        &&& self.value@.len() == self.h
        &&& forall|r: int| 0 <= r < self.h ==> (#[trigger] self.value@[r])@.len() == self.w
        &&& forall|r: int, c: int|
            0 <= r < self.h && 0 <= c < self.w ==> (#[trigger] self.value@[r]@[c])@.len()
                == self.s
    }

    /// The triple stored at row `r`, column `c`, sample `k`.
    pub open spec fn at(self, r: int, c: int, k: int) -> Coord3 {
        self.value@[r]@[c]@[k]
    }

    /// The logical shape `[h, w, s, 3]`.
    pub fn dims(&self) -> (d: Vec<usize>)
        ensures
            d@ == seq![self.h, self.w, self.s, 3usize],
    {
        let mut d: Vec<usize> = Vec::new();
        d.push(self.h);
        d.push(self.w);
        d.push(self.s);
        d.push(3);
        proof {
            assert(d@ =~= seq![self.h, self.w, self.s, 3usize]);
        }
        d
    }
}

/// A height x width x samples grid of scalars with a trailing singleton
/// axis: logical shape `[h, w, s, 1]`.
#[derive(Debug)]
pub struct ScalarField4 {
    pub h: usize,
    pub w: usize,
    pub s: usize,
    pub value: Vec<Vec<Vec<u32>>>,
}

impl ScalarField4 {
    /// The stored rows, cells and sample lists agree with the stated
    /// dimensions.
    pub open spec fn wf(self) -> bool {
        &&& self.value@.len() == self.h
        &&& forall|r: int| 0 <= r < self.h ==> (#[trigger] self.value@[r])@.len() == self.w
        &&& forall|r: int, c: int|
            0 <= r < self.h && 0 <= c < self.w ==> (#[trigger] self.value@[r]@[c])@.len()
                == self.s
    }

    /// The scalar stored at row `r`, column `c`, sample `k`.
    pub open spec fn at(self, r: int, c: int, k: int) -> u32 {
        self.value@[r]@[c]@[k]
    }

    /// The logical shape `[h, w, s, 1]`.
    pub fn dims(&self) -> (d: Vec<usize>)
        ensures
            d@ == seq![self.h, self.w, self.s, 1usize],
    {
        let mut d: Vec<usize> = Vec::new();
        d.push(self.h);
        d.push(self.w);
        d.push(self.s);
        d.push(1);
        proof {
            assert(d@ =~= seq![self.h, self.w, self.s, 1usize]);
        }
        d
    }
}

/// Two `Field3` grids hold the same dimensions and the same triples.
pub open spec fn same_field3(a: Field3, b: Field3) -> bool {
    &&& a.h == b.h
    &&& a.w == b.w
    &&& forall|r: int, c: int| 0 <= r < a.h && 0 <= c < a.w ==> a.at(r, c) == #[trigger] b.at(r, c)
}

/// Two `Field4` grids hold the same dimensions and the same triples.
pub open spec fn same_field4(a: Field4, b: Field4) -> bool {
    &&& a.h == b.h
    &&& a.w == b.w
    &&& a.s == b.s
    &&& forall|r: int, c: int, k: int|
        0 <= r < a.h && 0 <= c < a.w && 0 <= k < a.s ==> a.at(r, c, k) == #[trigger] b.at(r, c, k)
}

/// Two `ScalarField4` grids hold the same dimensions and the same scalars.
pub open spec fn same_scalar_field4(a: ScalarField4, b: ScalarField4) -> bool {
    &&& a.h == b.h
    &&& a.w == b.w
    &&& a.s == b.s
    &&& forall|r: int, c: int, k: int|
        0 <= r < a.h && 0 <= c < a.w && 0 <= k < a.s ==> a.at(r, c, k) == #[trigger] b.at(r, c, k)
}

/// An exact copy of a `Field3`.
pub fn copy_field3(f: &Field3) -> (r: Field3)
    requires
        f.wf(),
    ensures
        r.wf(),
        same_field3(*f, r),
{
    let mut value: Vec<Vec<Coord3>> = Vec::new();
    let mut i: usize = 0;
    while i < f.h
        invariant
            f.wf(),
            i <= f.h,
            value@.len() == i,
            forall|r0: int| 0 <= r0 < i ==> (#[trigger] value@[r0])@.len() == f.w,
            forall|r0: int, c0: int|
                0 <= r0 < i && 0 <= c0 < f.w ==> value@[r0]@[c0] == f.at(r0, c0),
        decreases f.h - i,
    {
        let row = &f.value[i];
        let mut new_row: Vec<Coord3> = Vec::new();
        let mut j: usize = 0;
        while j < f.w
            invariant
                f.wf(),
                i < f.h,
                j <= f.w,
                row@ == f.value@[i as int]@,
                new_row@.len() == j,
                forall|c0: int| 0 <= c0 < j ==> new_row@[c0] == f.at(i as int, c0),
            decreases f.w - j,
        {
            new_row.push(row[j]);
            j += 1;
        }
        value.push(new_row);
        i += 1;
    }
    Field3 { h: f.h, w: f.w, value }
}

/// An exact copy of a `Field4`.
pub fn copy_field4(f: &Field4) -> (r: Field4)
    requires
        f.wf(),
    ensures
        r.wf(),
        same_field4(*f, r),
{
    let mut value: Vec<Vec<Vec<Coord3>>> = Vec::new();
    let mut i: usize = 0;
    while i < f.h
        invariant
            f.wf(),
            i <= f.h,
            value@.len() == i,
            forall|r0: int| 0 <= r0 < i ==> (#[trigger] value@[r0])@.len() == f.w,
            forall|r0: int, c0: int|
                0 <= r0 < i && 0 <= c0 < f.w ==> (#[trigger] value@[r0]@[c0])@.len() == f.s,
            forall|r0: int, c0: int, k0: int|
                0 <= r0 < i && 0 <= c0 < f.w && 0 <= k0 < f.s ==> value@[r0]@[c0]@[k0] == f.at(
                    r0,
                    c0,
                    k0,
                ),
        decreases f.h - i,
    {
        let row = &f.value[i];
        let mut new_row: Vec<Vec<Coord3>> = Vec::new();
        let mut j: usize = 0;
        while j < f.w
            invariant
                f.wf(),
                i < f.h,
                j <= f.w,
                row@ == f.value@[i as int]@,
                new_row@.len() == j,
                forall|c0: int| 0 <= c0 < j ==> (#[trigger] new_row@[c0])@.len() == f.s,
                forall|c0: int, k0: int|
                    0 <= c0 < j && 0 <= k0 < f.s ==> new_row@[c0]@[k0] == f.at(i as int, c0, k0),
            decreases f.w - j,
        {
            let cell = &row[j];
            let mut new_cell: Vec<Coord3> = Vec::new();
            let mut k: usize = 0;
            while k < f.s
                invariant
                    f.wf(),
                    i < f.h,
                    j < f.w,
                    k <= f.s,
                    cell@ == f.value@[i as int]@[j as int]@,
                    new_cell@.len() == k,
                    forall|k0: int| 0 <= k0 < k ==> new_cell@[k0] == f.at(i as int, j as int, k0),
                decreases f.s - k,
            {
                new_cell.push(cell[k]);
                k += 1;
            }
            new_row.push(new_cell);
            j += 1;
        }
        value.push(new_row);
        i += 1;
    }
    Field4 { h: f.h, w: f.w, s: f.s, value }
}

/// An exact copy of a `ScalarField4`.
pub fn copy_scalar_field4(f: &ScalarField4) -> (r: ScalarField4)
    requires
        f.wf(),
    ensures
        r.wf(),
        same_scalar_field4(*f, r),
{
    let mut value: Vec<Vec<Vec<u32>>> = Vec::new();
    let mut i: usize = 0;
    while i < f.h
        invariant
            f.wf(),
            i <= f.h,
            value@.len() == i,
            forall|r0: int| 0 <= r0 < i ==> (#[trigger] value@[r0])@.len() == f.w,
            forall|r0: int, c0: int|
                0 <= r0 < i && 0 <= c0 < f.w ==> (#[trigger] value@[r0]@[c0])@.len() == f.s,
            forall|r0: int, c0: int, k0: int|
                0 <= r0 < i && 0 <= c0 < f.w && 0 <= k0 < f.s ==> value@[r0]@[c0]@[k0] == f.at(
                    r0,
                    c0,
                    k0,
                ),
        decreases f.h - i,
    {
        let row = &f.value[i];
        let mut new_row: Vec<Vec<u32>> = Vec::new();
        let mut j: usize = 0;
        while j < f.w
            invariant
                f.wf(),
                i < f.h,
                j <= f.w,
                row@ == f.value@[i as int]@,
                new_row@.len() == j,
                forall|c0: int| 0 <= c0 < j ==> (#[trigger] new_row@[c0])@.len() == f.s,
                forall|c0: int, k0: int|
                    0 <= c0 < j && 0 <= k0 < f.s ==> new_row@[c0]@[k0] == f.at(i as int, c0, k0),
            decreases f.w - j,
        {
            let cell = &row[j];
            let mut new_cell: Vec<u32> = Vec::new();
            let mut k: usize = 0;
            while k < f.s
                invariant
                    f.wf(),
                    i < f.h,
                    j < f.w,
                    k <= f.s,
                    cell@ == f.value@[i as int]@[j as int]@,
                    new_cell@.len() == k,
                    forall|k0: int| 0 <= k0 < k ==> new_cell@[k0] == f.at(i as int, j as int, k0),
                decreases f.s - k,
            {
                new_cell.push(cell[k]);
                k += 1;
            }
            new_row.push(new_cell);
            j += 1;
        }
        value.push(new_row);
        i += 1;
    }
    ScalarField4 { h: f.h, w: f.w, s: f.s, value }
}

} // verus!
