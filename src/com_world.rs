//! The plain parts of a map's common world: water and burnable grids.
use vstd::prelude::*;

use crate::deserializer::{same_image, T5XFileDeserializer};
use crate::error::{Error, Fault};
use crate::wire::{i16_of, i32_of, rd_deref, u16_at, u32_at, Read, Wire, NULL_TOKEN};

verus! {

/// The extent of the water grid.
#[derive(Copy, Clone, Debug, PartialEq, Eq, Structural)]
pub struct ComWaterHeader {
    pub minx: i32,
    pub miny: i32,
    pub maxx: i32,
    pub maxy: i32,
}

/// One cell of the water grid.
#[derive(Copy, Clone, Debug)]
pub struct ComWaterCell {
    pub waterheight: i16,
    pub flooroffset: u8,
    pub shoredist: u8,
    pub color: [u8; 4],
}

/// The extent of the burnable grid.
#[derive(Copy, Clone, Debug, PartialEq, Eq, Structural)]
pub struct ComBurnableHeader {
    pub minx: i32,
    pub miny: i32,
    pub maxx: i32,
    pub maxy: i32,
}

/// The state of one burnable sample.
#[derive(Copy, Clone, Debug, PartialEq, Eq, Structural)]
pub struct ComBurnableSample {
    pub state: u8,
}

/// The number of samples a burnable cell points to.
pub const BURNABLE_SAMPLES: usize = 32;

/// One cell of the burnable grid: its coordinates and, when its pointer is
/// not null, its [`BURNABLE_SAMPLES`] samples.
#[derive(Clone, Debug)]
pub struct ComBurnableCell {
    pub x: i32,
    pub y: i32,
    pub data: Option<Vec<ComBurnableSample>>,
}

/// Four signed words at `p`: the extent of a grid.
pub open spec fn rd_extent(w: Wire, d: Seq<u8>, p: int) -> Read<(i32, i32, i32, i32)> {
    if p < 0 || p + 16 > d.len() {
        Err(Fault::Truncated)
    } else {
        Ok(
            (
                (
                    i32_of(u32_at(d, p, w.little_endian)) as i32,
                    i32_of(u32_at(d, p + 4, w.little_endian)) as i32,
                    i32_of(u32_at(d, p + 8, w.little_endian)) as i32,
                    i32_of(u32_at(d, p + 12, w.little_endian)) as i32,
                ),
                p + 16,
            ),
        )
    }
}

/// A water cell at `p`: a signed height, two bytes, and four colour bytes.
pub open spec fn rd_water_cell(w: Wire, d: Seq<u8>, p: int) -> Read<ComWaterCell> {
    if p < 0 || p + 8 > d.len() {
        Err(Fault::Truncated)
    } else {
        Ok(
            (
                ComWaterCell {
                    waterheight: i16_of(u16_at(d, p, w.little_endian)) as i16,
                    flooroffset: d[p + 2],
                    shoredist: d[p + 3],
                    color: [d[p + 4], d[p + 5], d[p + 6], d[p + 7]],
                },
                p + 8,
            ),
        )
    }
}

/// The samples of a burnable cell: one byte each.
pub open spec fn rd_samples(d: Seq<u8>, t: int) -> Read<Seq<ComBurnableSample>> {
    if t < 0 || t + BURNABLE_SAMPLES > d.len() {
        Err(Fault::Truncated)
    } else {
        Ok(
            (
                Seq::new(BURNABLE_SAMPLES as nat, |i: int| ComBurnableSample { state: d[t + i] }),
                t + BURNABLE_SAMPLES,
            ),
        )
    }
}

/// A burnable cell at `p`: its coordinates and its sample pointer, then
/// the samples that pointer refers to.
pub open spec fn rd_burnable_cell(w: Wire, d: Seq<u8>, p: int) -> Read<
    (i32, i32, Option<Seq<ComBurnableSample>>),
> {
    if p < 0 || p + 12 > d.len() {
        Err(Fault::Truncated)
    } else {
        match rd_deref(w, d, p + 12, u32_at(d, p + 8, w.little_endian), |t: int| rd_samples(d, t)) {
            Err(e) => Err(e),
            Ok((data, q)) => Ok(
                (
                    (
                        i32_of(u32_at(d, p, w.little_endian)) as i32,
                        i32_of(u32_at(d, p + 4, w.little_endian)) as i32,
                        data,
                    ),
                    q,
                ),
            ),
        }
    }
}

/// Reads a grid extent at the cursor.
fn read_extent(de: &mut T5XFileDeserializer) -> (r: Result<(i32, i32, i32, i32), Error>)
    requires
        old(de).wf(),
    ensures
        final(de).wf(),
        same_image(*final(de), *old(de)),
        match rd_extent(old(de).wire(), old(de).bytes(), old(de).pos()) {
            Ok((v, q)) => r == Ok::<(i32, i32, i32, i32), Error>(v) && final(de).pos() == q,
            Err(f) => r is Err && r->Err_0.spec_kind().reports(f),
        },
{
    let minx = match de.read_i32() {
        Ok(v) => v,
        Err(e) => return Err(e),
    };
    let miny = match de.read_i32() {
        Ok(v) => v,
        Err(e) => return Err(e),
    };
    let maxx = match de.read_i32() {
        Ok(v) => v,
        Err(e) => return Err(e),
    };
    let maxy = match de.read_i32() {
        Ok(v) => v,
        Err(e) => return Err(e),
    };
    Ok((minx, miny, maxx, maxy))
}

impl ComWaterHeader {
    pub fn read(de: &mut T5XFileDeserializer) -> (r: Result<ComWaterHeader, Error>)
        requires
            old(de).wf(),
        ensures
            final(de).wf(),
            same_image(*final(de), *old(de)),
            match rd_extent(old(de).wire(), old(de).bytes(), old(de).pos()) {
                Ok((v, q)) => r == Ok::<ComWaterHeader, Error>(
                    ComWaterHeader { minx: v.0, miny: v.1, maxx: v.2, maxy: v.3 },
                ) && final(de).pos() == q,
                Err(f) => r is Err && r->Err_0.spec_kind().reports(f),
            },
    {
        match read_extent(de) {
            Ok((minx, miny, maxx, maxy)) => Ok(ComWaterHeader { minx, miny, maxx, maxy }),
            Err(e) => Err(e),
        }
    }
}

impl ComBurnableHeader {
    pub fn read(de: &mut T5XFileDeserializer) -> (r: Result<ComBurnableHeader, Error>)
        requires
            old(de).wf(),
        ensures
            final(de).wf(),
            same_image(*final(de), *old(de)),
            match rd_extent(old(de).wire(), old(de).bytes(), old(de).pos()) {
                Ok((v, q)) => r == Ok::<ComBurnableHeader, Error>(
                    ComBurnableHeader { minx: v.0, miny: v.1, maxx: v.2, maxy: v.3 },
                ) && final(de).pos() == q,
                Err(f) => r is Err && r->Err_0.spec_kind().reports(f),
            },
    {
        match read_extent(de) {
            Ok((minx, miny, maxx, maxy)) => Ok(ComBurnableHeader { minx, miny, maxx, maxy }),
            Err(e) => Err(e),
        }
    }
}

impl ComWaterCell {
    pub fn read(de: &mut T5XFileDeserializer) -> (r: Result<ComWaterCell, Error>)
        requires
            old(de).wf(),
        ensures
            final(de).wf(),
            same_image(*final(de), *old(de)),
            match rd_water_cell(old(de).wire(), old(de).bytes(), old(de).pos()) {
                Ok((v, q)) => r == Ok::<ComWaterCell, Error>(v) && final(de).pos() == q,
                Err(f) => r is Err && r->Err_0.spec_kind().reports(f),
            },
    {
        let b = match de.read_exact(8) {
            Ok(b) => b,
            Err(e) => return Err(e),
        };
        let v: u16 = if de.little_endian() {
            b[0] as u16 + 0x100u16 * b[1] as u16
        } else {
            b[1] as u16 + 0x100u16 * b[0] as u16
        };
        let waterheight: i16 = if v < 0x8000 {
            v as i16
        } else {
            (v - 0x8000) as i16 - 0x7FFF - 1
        };
        Ok(
            ComWaterCell {
                waterheight,
                flooroffset: b[2],
                shoredist: b[3],
                color: [b[4], b[5], b[6], b[7]],
            },
        )
    }
}

impl ComBurnableCell {
    pub open spec fn spec_model(&self) -> (i32, i32, Option<Seq<ComBurnableSample>>) {
        (
            self.x,
            self.y,
            match self.data {
                Some(v) => Some(v@),
                None => None,
            },
        )
    }

    /// Reads a burnable cell at the cursor, and the samples its pointer
    /// refers to.
    pub fn read(de: &mut T5XFileDeserializer) -> (r: Result<ComBurnableCell, Error>)
        requires
            old(de).wf(),
        ensures
            final(de).wf(),
            same_image(*final(de), *old(de)),
            match rd_burnable_cell(old(de).wire(), old(de).bytes(), old(de).pos()) {
                Ok((v, q)) => r is Ok && r->Ok_0.spec_model() == v && final(de).pos() == q,
                Err(f) => r is Err && r->Err_0.spec_kind().reports(f),
            },
    {
        let x = match de.read_i32() {
            Ok(v) => v,
            Err(e) => return Err(e),
        };
        let y = match de.read_i32() {
            Ok(v) => v,
            Err(e) => return Err(e),
        };
        let token = match de.read_u32() {
            Ok(v) => v,
            Err(e) => return Err(e),
        };
        if token == NULL_TOKEN {
            return Ok(ComBurnableCell { x, y, data: None });
        }
        let back = match de.enter(token) {
            Ok(b) => b,
            Err(e) => return Err(e),
        };
        let r = de.read_exact(BURNABLE_SAMPLES);
        de.leave(back);
        let bytes = match r {
            Ok(b) => b,
            Err(e) => return Err(e),
        };
        let mut samples: Vec<ComBurnableSample> = Vec::new();
        let mut i: usize = 0;
        while i < BURNABLE_SAMPLES
            invariant
                bytes@.len() == BURNABLE_SAMPLES,
                i <= BURNABLE_SAMPLES,
                samples@ == Seq::new(i as nat, |k: int| ComBurnableSample { state: bytes@[k] }),
            decreases BURNABLE_SAMPLES - i,
        {
            samples.push(ComBurnableSample { state: bytes[i] });
            i += 1;
            assert(samples@ =~= Seq::new(i as nat, |k: int| ComBurnableSample { state: bytes@[k] }));
        }
        Ok(ComBurnableCell { x, y, data: Some(samples) })
    }
}

} // verus!
