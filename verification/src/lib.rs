//! A pond of lily pads that grow, carry smaller pads, age and die.
//!
//! Every pad is a disc on the integer plane. While it lives it grows towards
//! its radius and, tick after tick, tries to take in one smaller pad that
//! overlaps none of those it already carries. When its time is over it
//! shrinks, one unit a tick, and dies. The pond lets a new pad appear at
//! fixed intervals, wherever it overlaps no pad that is still there.
//!
//! - [`geometry`]: points, discs, windows, and the overlap of two discs;
//! - [`polar`]: directions in whole degrees and fixed-point sines;
//! - [`palette`]: the five colours;
//! - [`chance`]: the random draws;
//! - [`nenuphar`]: the pad, its mathematical view and the rules of a tick;
//! - [`lifecycle`]: what those rules imply for every pad and every run;
//! - [`world`]: the pond.
//!
//! Time is counted in whole milliseconds, lengths in whole units. Contracts
//! speak of the views of the pads and of the pond: `NenupharView` and
//! `WorldView`.

pub mod chance;
pub mod geometry;
pub mod lifecycle;
pub mod nenuphar;
pub mod palette;
pub mod polar;
pub mod world;
