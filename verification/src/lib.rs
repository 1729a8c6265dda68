//! A driver for the MCP4725, a single-channel 12-bit digital-to-analog
//! converter with non-volatile memory, addressed over a two-wire
//! serial bus.
//!
//! The driver owns a handle to a bus transport and the peripheral's
//! address, and translates numeric output requests into the device's
//! wire-level register frames: fast-mode writes, normal writes, writes
//! persisted to EEPROM, register reads, and the reset command. The
//! transport and a millisecond-delay capability are supplied by the
//! caller at construction time as implementations of [`I2cBus`] and
//! [`DelayMillis`].

mod bus;
mod codec;
mod driver;

pub use bus::{BusEvent, DelayMillis, I2cBus};
pub use codec::{
    decode_dac_code, fast_mode_bytes, fits_twelve_bits, lemma_fast_mode_masked,
    lemma_normal_write_read_round_trip, lemma_persist_matches_normal, normal_write_bytes,
    persist_write_bytes, reset_bytes,
};
pub use driver::{lemma_write_then_read_yields_code, reads_dac_code, MCP4725};
