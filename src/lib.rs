//! An Intel 8080 emulator core: memory and port buses, the CPU interpreter
//! with its CP/M console shim, and the arcade cabinet's port devices.
use vstd::prelude::*;

pub mod bdos;
pub mod cpu;
pub mod input;
pub mod laws;
pub mod mmu;
pub mod ports;
pub mod semantics;
pub mod sound;
pub mod state;
pub mod video;

pub use crate::bdos::Bdos;
pub use crate::cpu::{Cpu, Flags};
pub use crate::input::{HostKey, Input};
pub use crate::mmu::Mmu;
pub use crate::ports::Ports;
pub use crate::sound::{SoundEffect, SoundTriggers};
pub use crate::state::{FrameRun, State};
pub use crate::video::render_invaders;

verus! {

} // verus!
