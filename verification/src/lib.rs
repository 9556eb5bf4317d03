//! A verified layout and placement engine for a small card game.
//!
//! The crate tracks an ordered collection of cards inside fixed-capacity
//! zones (a player hand and a battlefield), computes the screen position of
//! every slot, and resolves drag-and-drop gestures into zone membership and
//! ordering changes.  It also carries the turn/combat bookkeeping types and
//! the bitmap-font arithmetic that drives the heads-up display counters.
//!
//! All geometry is integer valued.  The caller picks the coordinate unit; a
//! unit of half a pixel reproduces pixel-valued sprite sheets exactly while
//! keeping every slot center integral (see [`layout`]).

pub mod cards;
pub mod combat;
pub mod geometry;
pub mod hud;
pub mod layout;
