//! The rules of a first-person speedrunning platformer, apart from any
//! engine: the states of the application, the lifecycle of a level, the
//! attachment of colliders to scene content, the reactions to checkpoints,
//! boost pads and end zones, and the timing of a run.
//!
//! Every value is plain: positions and speeds are fixed-point integers,
//! times are nanoseconds, entities and assets are numbers. The program
//! around the rules feeds them what the engine reports and carries out what
//! they return.

pub mod collider;
pub mod color;
pub mod console;
pub mod duration;
pub mod game;
pub mod history;
pub mod input;
pub mod laws;
pub mod level;
pub mod scene;
pub mod space;
pub mod state;
pub mod trigger;
