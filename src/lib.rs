//! A layered storage stack over a sector-addressable block device: the
//! block-device contract, the sizing and lookup rules of a GUID partition
//! table holding one data partition, and a bounded region that confines
//! stream I/O to that partition. Two small companions stand beside it: a
//! double-ended list and the phase logic of a work/break timer.

pub mod device;
pub mod error;
pub mod gpt_table;
pub mod layout;
pub mod list;
pub mod pomodoro;
pub mod region;
pub mod table;
