//! A linear supply-and-demand market under a price ceiling.
//!
//! The library derives the market equilibrium, the traded quantity and price
//! under a (possibly binding) price ceiling, and the consumer and producer
//! surplus, and samples the curves and surplus regions as point sequences for
//! a rendering surface.
//!
//! All values are exact fixed-point integers: quantities and curve shifts are
//! counted in steps of `1 / SCALE` of a unit, prices in steps of
//! `1 / PRICE_SCALE`, and surpluses in steps of `1 / SURPLUS_SCALE`. Because
//! the two curves have slope `1/2` and `-1/2`, every derived value on these
//! grids is exact: no rounding happens anywhere in the library.

pub mod market;
pub mod sampler;

