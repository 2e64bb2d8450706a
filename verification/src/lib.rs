//! A session layer over the packet datapath of a virtual network interface.
//!
//! The driver and the operating system stay outside. Every function here
//! takes what a driver call returned as plain values, decides, and names the
//! call that is due next. Handles and buffer addresses are carried as
//! integers; zero is the null handle.

pub mod driver;
pub mod error;
pub mod log;
pub mod once;
pub mod packet;
pub mod receive;
pub mod session;
