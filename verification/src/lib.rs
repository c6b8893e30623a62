//! Verified core of an Art-Net output scheduler.
//!
//! A process holds one or more lighting "universes" (512-channel byte
//! streams) and delivers each of them, at a fixed frame rate, to the
//! network device that owns it.  This crate is the per-device output
//! subsystem: it owns each device's frame buffer, slices the buffer into
//! protocol-sized packets on every tick, stamps monotonically cycling
//! sequence numbers, hands the packets to a per-device worker queue in
//! FIFO order, and aggregates throughput statistics.  Sockets, threads
//! and the clock live outside this crate; everything here is plain state
//! and arithmetic, verified end to end.

pub mod clock;
pub mod device;
pub mod manager;
pub mod packet;
pub mod queue;
pub mod seqnum;
pub mod stats;
pub mod textfmt;
pub mod throttle;
pub mod worker;
