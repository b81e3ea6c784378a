//! Procedural planet elevation synthesis, modelled and checked at the level of
//! the node graph that produces it.
//!
//! The heart of the library is a fixed dataflow graph of noise-generating and
//! noise-combining nodes whose wiring encodes a terrain model: continents,
//! mountains, hills, plains, badlands, rivers and coastal shelves.  The graph
//! is pure data.  Every numeric parameter is carried as the raw bit pattern of
//! an IEEE 754 binary64 value, so that the wiring, its validity conditions and
//! its seed-derivation scheme can be stated and proved exactly, while a host
//! evaluates the graph with whatever noise backend it links against.
//!
//! Modules:
//! - [`seed`]: the positional-weighted seed hash.
//! - [`bits`]: ordering and decoding of binary64 bit patterns.
//! - [`graph`]: the node graph, its well-formedness invariant and its
//!   fail-fast constructors.
//! - [`assembly`]: the fixed planet pipeline built from a base seed.
//! - [`elevation`]: exact-arithmetic facts about the pipeline's elevation
//!   stages.
//! - [`field`]: a sampled elevation field and its order-preserving lookup.
//! - [`points`]: the sample-point lattice.
//! - [`mesh`]: triangulation results and their index arithmetic.

pub mod assembly;
pub mod bits;
pub mod elevation;
pub mod field;
pub mod graph;
pub mod mesh;
pub mod points;
pub mod seed;
