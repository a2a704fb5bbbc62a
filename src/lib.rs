//! Control state and signal scheduling for a vibration device: waveforms, the
//! mode scheduler, the alarm, the operator console and per-device control loops.

pub mod alarm;
pub mod clock;
pub mod console;
pub mod device;
mod draw;
pub mod scheduler;
pub mod state;
pub mod text;
pub mod waveform;
