//! One Metropolis sweep over a one-dimensional Ising spin chain with
//! periodic boundary conditions.
//!
//! The chain is a ring of sites, each holding a spin of `-1` or `+1`. A
//! sweep proposes a flip at every site, evaluates the local energy change
//! from the pre-sweep configuration, accepts every energy-lowering flip
//! unconditionally, and accepts the rest exactly when the site's random
//! draw fell below the Metropolis acceptance threshold. The floating-point
//! side of that criterion (the coupling constant, the inverse temperature,
//! the draw itself) is reduced by the caller to plain values: the sign of
//! the coupling and one boolean per site recording whether the draw fell
//! below the threshold. Everything else is verified here.

pub mod chain;
pub mod sweep;
