//! A driver for the AM2320 humidity/temperature sensor on a two-wire bus.
//!
//! The driver sequences one wake/command/read transaction per call, validates
//! the 8-byte response frame with a CRC-16 checksum, and decodes the signed
//! fixed-point measurement. The bus and delay primitives are supplied by the
//! embedding application through the [`I2cBus`] and [`DelayProvider`] traits.

pub mod checksum;
pub mod driver;
pub mod frame;

pub use checksum::crc16;
pub use vstd::seq::Seq as LogSeq;
pub use driver::Am2320;
pub use driver::DelayProvider;
pub use driver::I2cBus;
pub use driver::Transaction;
pub use frame::Error;
pub use frame::Measurement;
pub use frame::decode_response;
