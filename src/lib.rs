//! Gameplay rules of a physics arcade game: a rolling player ball that
//! absorbs spawned obstacles ("doodads") into its own body.
//!
//! The engine (entities, rendering, the rigid-body solver) lives outside this
//! crate; here are the decisions the game makes each frame, stated over plain
//! values and proved.
pub mod groups;
pub mod assets;
pub mod physics;
pub mod world;
pub mod doodad;
pub mod player;
pub mod level;
