//! A family of artificial reverberators for digital audio: the classic
//! Schroeder-style designs (JCRev, its Synthesis ToolKit variant, PRCRev,
//! NRev, SATREV) and Freeverb.
//!
//! Samples are exact fixed-point numbers (see [`sample`]), so every
//! per-sample recurrence is stated and proved exactly: the circular
//! delay line obeys a precise FIFO law, each filter primitive advances
//! its state by a closed-form step function, and each reverb topology
//! is specified as the composition of its primitives' steps.

pub mod delay;
pub mod filter;
pub mod reverb;
pub mod sample;

pub use delay::Delay;
pub use filter::{Allpass, FeedbackComb, FeedforwardComb, Filter, LowpassFeedbackComb};
pub use reverb::{Freeverb, JCRev, NRev, PRCRev, Reverb, SATREV, STKJCRev};
pub use sample::{sample_add, sample_mul, sample_neg, sample_sub};
