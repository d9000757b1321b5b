//! Portable GPU backend translation core.
//!
//! A single low-level command/resource API implemented against two
//! structurally different native backends: an immediate-mode, global-state
//! API and a retained, command-buffer-based API.  The modules here hold the
//! translation logic of that layer — descriptor-set emulation over flat
//! binding slots, fixed-function pipeline state replay, the command-buffer
//! encoder state machine, and queue submission tracking — stated over plain
//! values.  The native layers themselves (context creation, function-pointer
//! resolution, the actual driver calls) are external collaborators: each
//! translation function here produces the data a native shim performs.

pub mod command;
pub mod conv;
pub mod device;
pub mod state;
pub mod glenum;
pub mod native;
pub mod pipes;
pub mod pso;
pub mod remap;
pub mod starc;
