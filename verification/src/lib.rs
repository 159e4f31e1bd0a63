//! Descriptors, the files that they point to, and the listeners of a file's status.
//!
//! A [`descriptor::Descriptor`] points to a [`file::PosixFile`], which it closes when it is the
//! last open descriptor of that file. A file has a status, and a change of the status is reported
//! to the listeners of the file: functions with a filter, and status listeners of the C side, to
//! which the file holds references. Listeners are not called on the spot. An event is queued for
//! each of them in an [`event_queue::EventQueue`], and runs later.
//!
//! The C side is known by the addresses of its objects. The calls that are to be made to it are
//! collected in a [`cshadow::CShadow`], in order. What has to be given back to the C side is given
//! back by a method named `release`, which takes the place of a destructor.

pub mod counts;
pub mod cshadow;
pub mod descriptor;
pub mod effects;
pub mod event_queue;
pub mod export;
pub mod file;
pub mod flags;
pub mod ids;
pub mod laws;
pub mod listener;
pub mod pipe;
pub mod shared;
pub mod status_source;
pub mod syscall;
pub mod text;
