//! Core of an interactive 2D vector outline editor: viewport coordinate
//! transforms, geometric hit-testing and box-selection over an outline of
//! contours, nearest-point-on-curve projection over piecewise cubic Bezier
//! segments, selection state, and the event handling of the interaction
//! modes (pan, select, zoom, measure).
//!
//! All geometry is exact: document positions derived from device pixels are
//! rationals (`pos::RatPos`), zoom factors are integers in hundredths, and
//! every query is an exhaustive scan with a proved contract.

pub mod pos;
pub mod geometry;
pub mod viewport;
pub mod editor;
pub mod hit;
pub mod select;
pub mod project;
pub mod events;
pub mod tool;
pub mod measure;
