//! A NES emulator: the machine, its save states and replays, and the decisions of the program
//! around it.
//!
//! The machine is deterministic. Everything that happens to it comes in through [`FrameInput`], so
//! the same ROM and the same inputs always lead to the same machine. [`laws`] states what follows
//! from that, and what else holds of the machine as a whole.

use vstd::prelude::*;

pub mod apu;
pub mod audio;
pub mod bits;
pub mod bus;
pub mod cartridge;
pub mod cpu;
pub mod debug;
pub mod dual;
pub mod error;
pub mod fingerprint;
pub mod frame;
pub mod input;
pub mod joypad;
pub mod keys;
pub mod laws;
pub mod nes;
pub mod netplay;
pub mod panel;
pub mod ppu;
pub mod replay;
pub mod session;
pub mod state;
pub mod text;
pub mod window;

pub use bus::Bus;
pub use cartridge::{Cartridge, Mapper, Mirroring, RomId, RomInfo};
pub use cpu::flags::StatusFlags;
pub use cpu::Cpu;
pub use debug::{DebugSnapshot, PpuImage, PpuViews};
pub use error::{DecodeError, RomError, StateError};
pub use frame::FrameBuffer;
pub use input::FrameInput;
pub use joypad::{Buttons, Joypad};
pub use nes::Nes;
pub use replay::{Replay, ReplayError, ReplayMismatch, ReplayPlayer, ReplayRecorder};
pub use state::{StateHeader, CORE_BEHAVIOR_VERSION, STATE_FORMAT_VERSION};

verus! {

} // verus!
