//! What holds of the machine and its parts, stated over all inputs.
//!
//! The first group says what each part does, in numbers and bits: instructions and opcodes, picture,
//! sound, cartridge, wiring. The second says what holds of the machine as a whole.

pub mod words;
pub mod instructions;
pub mod flow;
pub mod matrix;
pub mod listing;
pub mod background;
pub mod sprites;
pub mod colors;
pub mod registers;
pub mod channels;
pub mod sequencer;
pub mod banks;
pub mod images;
pub mod wiring;
pub mod power;
pub mod formats;

pub mod machine;
pub mod memory;
pub mod output;
pub mod picture;
pub mod progress;
pub mod rollback;
pub mod fingerprint;
pub mod replay;
pub mod session;
pub mod commands;
pub mod front;
