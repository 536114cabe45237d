//! Verified decision core of a simulator for stocks, European options,
//! futures and exchange-traded funds under geometric Brownian motion.
//!
//! Real-valued quantities are carried as IEEE 754 binary64 encodings. The
//! library never computes with them: it reads how they compare with zero and
//! with each other, and hands them on unchanged. The numerical kernels, which
//! draw normal variates and take exponentials, live with the caller.
//!
//! What is decided and proved here is everything around those kernels: which
//! requests are rejected and with which error, which paths are to be
//! generated for an accepted request, with how many points, under which
//! process and from which seed, which instant each point carries, and how
//! the generated paths are put together into the result.

pub mod sign;
pub mod binary64;
pub mod error;
pub mod random_process;
pub mod stock_simulation;
pub mod option_pricing;
pub mod futures_simulation;
pub mod etf_simulation;
pub mod config;
pub mod api_models;
pub mod api_interface;
