# ninterp

Interpolation over rectilinear grids in one, two, three or any number of dimensions,
specified and proved with Verus. One standard-library call, copying a slice into an
array, is taken on trust by its documented contract.

An interpolator holds its data (one strictly increasing coordinate vector per axis
and the function values on the grid), an interpolation strategy, and an extrapolation
setting that says what happens to points beyond the grid (`Enable`, `Fill`, `Clamp`,
`Wrap` or `Error`). Construction validates all three; interpolation resolves the
extrapolation setting and hands the point to the strategy.

## Layout

- `src/order.rs`: the comparison model for coordinates, clamping, wrapping, and
  locating a coordinate on a sorted axis.
- `src/data.rs`: interpolator data and its validation.
- `src/data_nd.rs`: data whose number of axes is known only at run time.
- `src/strategy.rs`: the `Strategy` trait and the step and nearest-neighbour
  strategies.
- `src/extrapolate.rs`: the extrapolation setting, resolved for one point and for
  batches of points.
- `src/interp.rs`: the 0-D, 1-D, 2-D and 3-D interpolators.
- `src/interp_nd.rs`: the N-D interpolator, whose number of axes is known only at run
  time, with its strategy trait and the step and nearest-neighbour strategies for it.
- `src/interpolator.rs`: the `Interpolator` trait, which takes points of any length
  and checks them against the interpolator's dimensionality.
- `src/points.rs`: runtime-length points checked against a dimensionality.
- `src/dyn_interp.rs`: a thread-safe interface over runtime-length points.
- `src/message.rs`: the error messages.
- `src/uom.rs`: interpolators over quantities with units.
- `src/laws.rs`: properties that span several functions.
- `app/`: `Display` for the errors, serde forms (settings, data, the N-D interpolator), construction from `ndarray`
  arrays, `uom` quantities as inputs, and downcasting for interpolators stored
  behind one trait object.
