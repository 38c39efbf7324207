//! A verified core for a small arcade shooter: a triangular ship rotates,
//! thrusts and fires at polygonal asteroids that drift over a wrap-around
//! play field. The whole simulation runs on exact milli-unit integer
//! coordinates; rendering and input live outside the library.

pub mod asteroid;
pub mod bullet;
pub mod game;
pub mod geom;
pub mod laws;
pub mod player;
mod rng;
pub mod trig;
