//! Parameter synchronisation between a local model of audio devices and
//! nodes and the typed parameter objects of an audio graph.
//!
//! The library holds no connection of its own: the program around it hands
//! over what the graph reported (enumerations, point queries, change
//! notifications) as plain values, and carries out the parameter writes that
//! the models queue.

pub mod text;
pub mod pod;
pub mod device;
pub mod guard;
pub mod volume;
pub mod format;
pub mod target;
pub mod node;
pub mod registry;
