//! A small scene of procedurally generated shapes, described without touching
//! the graphics device.
//!
//! The library works on an exact grid: lengths and positions are whole numbers
//! of grid steps, [`vector::UNIT`] of them to one unit of length, and colour
//! channels are whole numbers of thousandths.  It generates the vertices of the
//! shapes, keeps the state of the light and of the keyboard, and decides which
//! calls the graphics backend is to receive and what its answers mean.  The
//! application makes those calls and hands the answers back.

pub mod backend;
pub mod christmas_star;
pub mod control;
pub mod draw_object;
pub mod game;
pub mod geometry;
pub mod glutil;
pub mod light;
pub mod mesh;
pub mod pass;
pub mod scene;
pub mod setup;
pub mod star_laws;
pub mod timer;
pub mod vector;
