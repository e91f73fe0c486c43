//! Core of a small 2D arcade engine: an entity/component substrate with a
//! phased scheduler, and the discrete rules of the Pong and Arkanoid games
//! built on it.
pub mod arkanoid;
pub mod entity;
pub mod input;
pub mod pong;
pub mod query;
pub mod registry;
pub mod schedule;
pub mod storage;
pub mod tuning;
pub mod world;
