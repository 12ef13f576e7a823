//! Serial message protocol between a footswitch pedal and a guitar amplifier:
//! the frame format with its checksum, the assembly of frames from single
//! bytes, and the session that owns the half-duplex line.

pub mod buttons;
pub mod checksum;
pub mod kt_sysex;
pub mod kt_uart;
pub mod message;
pub mod queues;
pub mod session;
pub mod time;
