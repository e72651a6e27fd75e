//! Logic of a round instrument-cluster display: the rate-limited gauge, its
//! geometry tables, the vehicle state record and the hand-off of the single
//! frame buffer between the drawing side and the flushing side.

pub mod canvas;
pub mod car_state;
pub mod demo_can;
pub mod display;
pub mod exchange;
pub mod fps;
pub mod game;
pub mod gauge;
pub mod geometry;

pub use exchange::DrawBufferStatus;
