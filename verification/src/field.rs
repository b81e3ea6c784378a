//! A sampled elevation field: the synthesized surface held as a rectangular
//! raster of binary64 bit patterns, with the order-preserving lookup that
//! turns sample-point indices into per-point elevations.
//!
//! The raster mirrors the noise backend's plane map: row-major values, one
//! per integer grid position, and a border value for lookups outside the
//! raster.

use vstd::prelude::*;

verus! {

/// The raster refuses widths and heights at or above this bound.
pub const MAX_RASTER_EXTENT: usize = 32767;

/// An error refused at field construction.
#[derive(Clone, Copy, Debug, PartialEq, Eq, Structural)]
pub enum FieldError {
    /// Width or height at or above [`MAX_RASTER_EXTENT`].
    SizeOutOfRange,
    /// The value vector does not hold exactly `width * height` entries.
    WrongValueCount,
}

/// A rectangular elevation raster.  Values are binary64 bit patterns laid
/// out row-major: the value for grid position `(x, y)` sits at
/// `y * width + x`.
#[derive(Debug)]
pub struct ElevationField {
    /// Number of columns.
    pub width: usize,
    /// Number of rows.
    pub height: usize,
    /// The value returned for positions outside the raster.
    pub border: u64,
    /// The raster's values, row-major.
    pub values: Vec<u64>,
}

impl ElevationField {
    /// The raster holds exactly one value per grid position and stays
    /// within the backend's size bounds.
    pub open spec fn wf(&self) -> bool {
        &&& self.values@.len() == self.width * self.height
        &&& self.width < MAX_RASTER_EXTENT
        &&& self.height < MAX_RASTER_EXTENT
    }

    /// The value sampled at `(x, y)`: the raster entry inside the bounds,
    /// the border value outside them.
    pub open spec fn value_at(&self, x: int, y: int) -> u64 {
        if 0 <= x < self.width && 0 <= y < self.height {
            self.values@[y * self.width + x]
        } else {
            self.border
        }
    }

    /// Builds a field after checking its dimensions, refusing exactly the
    /// rasters that [`wf`](Self::wf) refuses.
    pub fn new(width: usize, height: usize, border: u64, values: Vec<u64>) -> (r: Result<
        ElevationField,
        FieldError,
    >)
        ensures
            r is Ok <==> (width < MAX_RASTER_EXTENT && height < MAX_RASTER_EXTENT && values@.len()
                == width * height),
            !(width < MAX_RASTER_EXTENT && height < MAX_RASTER_EXTENT) ==> r
                == Result::<ElevationField, FieldError>::Err(FieldError::SizeOutOfRange),
            width < MAX_RASTER_EXTENT && height < MAX_RASTER_EXTENT && values@.len() != width
                * height ==> r == Result::<ElevationField, FieldError>::Err(
                FieldError::WrongValueCount,
            ),
            r is Ok ==> {
                let f = r->Ok_0;
                f.width == width && f.height == height && f.border == border && f.values@
                    == values@ && f.wf()
            },
    {
        if width >= MAX_RASTER_EXTENT || height >= MAX_RASTER_EXTENT {
            Err(FieldError::SizeOutOfRange)
        } else {
            proof {
                assert(width * height < 0x4000_0000) by (nonlinear_arith)
                    requires
                        width < 32767 && height < 32767,
                ;
            }
            let expected = width * height;
            if values.len() != expected {
                Err(FieldError::WrongValueCount)
            } else {
                Ok(ElevationField { width, height, border, values })
            }
        }
    }

    /// The value sampled at `(x, y)`, border value included.
    pub fn get_value(&self, x: usize, y: usize) -> (r: u64)
        requires
            self.wf(),
        ensures
            r == self.value_at(x as int, y as int),
    {
        if x < self.width && y < self.height {
            let n = self.values.len();
            proof {
                vstd::arithmetic::mul::lemma_mul_inequality(
                    y as int + 1,
                    self.height as int,
                    self.width as int,
                );
                assert((y + 1) * self.width == y * self.width + self.width) by (nonlinear_arith);
                assert(self.height * self.width == self.width * self.height)
                    by (nonlinear_arith);
                assert(y * self.width + x < n);
            }
            self.values[y * self.width + x]
        } else {
            self.border
        }
    }

    /// Samples the field at each requested grid position, in order: one
    /// output per input position, the `k`-th output belonging to the `k`-th
    /// position.
    pub fn sample(&self, positions: &Vec<(usize, usize)>) -> (out: Vec<u64>)
        requires
            self.wf(),
        ensures
            out@.len() == positions@.len(),
            forall|k: int|
                0 <= k < positions@.len() ==> out@[k] == self.value_at(
                    (#[trigger] positions@[k]).0 as int,
                    positions@[k].1 as int,
                ),
    {
        let mut out: Vec<u64> = Vec::new();
        let n = positions.len();
        for k in 0..n
            invariant
                n == positions@.len(),
                self.wf(),
                out@.len() == k,
                forall|i: int|
                    0 <= i < k ==> out@[i] == self.value_at(
                        (#[trigger] positions@[i]).0 as int,
                        positions@[i].1 as int,
                    ),
        {
            let p = positions[k];
            let v = self.get_value(p.0, p.1);
            out.push(v);
        }
        out
    }
}

} // verus!
