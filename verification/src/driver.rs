//! The MCP4725 driver itself.

use vstd::prelude::*;

use crate::bus::{BusEvent, DelayMillis, I2cBus};
use crate::codec::{
    decode_dac_code, fast_mode_bytes, fits_twelve_bits, lemma_normal_write_read_round_trip,
    normal_write_bytes, persist_write_bytes, reset_bytes,
};

verus! {

/// Driver for the MCP4725 DAC.
///
/// It holds the bus transport, the peripheral's 7-bit address (fixed
/// for the lifetime of the instance), and the delay handle. The
/// device's DAC register and EEPROM are not modelled in memory: they
/// live only in the physical peripheral and are queried by issuing a
/// bus read.
#[derive(Debug)]
pub struct MCP4725<I2C, D> {
    /// The concrete bus transport implementation.
    i2c: I2C,
    /// The peripheral's bus address.
    address: u8,
    /// The concrete delay implementation, reserved for future timing
    /// needs.
    delay: D,
}

/// Holds when `ev` is a read, at `address`, of a three-byte device
/// frame `[status, b1, b2]` whose payload decodes to the DAC code `v`.
/// The status byte's content is device-defined and is discarded.
pub open spec fn reads_dac_code(ev: BusEvent, address: u8, v: u16) -> bool {
    ev matches BusEvent::ReadFrom { address: a, bytes: b } && a == address && b.len() == 3
        && v == decode_dac_code(b[1], b[2])
}

/// A normal write followed by a read yields the written code back:
/// for every code the device can represent, a read transaction at
/// `address` that returns some status byte `status` and then the
/// payload bytes of the normal-write frame for `code` — as a register
/// read does once that frame is latched — decodes to `code` exactly.
pub proof fn lemma_write_then_read_yields_code(code: u16, address: u8, status: u8)
    requires
        fits_twelve_bits(code),
    ensures
        reads_dac_code(
            BusEvent::ReadFrom {
                address: address,
                bytes: seq![status, normal_write_bytes(code)[1], normal_write_bytes(code)[2]],
            },
            address,
            code,
        ),
{
    lemma_normal_write_read_round_trip(code);
}

impl<I2C: I2cBus, D: DelayMillis> MCP4725<I2C, D> {
    /// The peripheral address the driver was constructed with.
    pub closed spec fn device_address(&self) -> u8 {
        self.address
    }

    /// The bus transactions issued through the driver's transport,
    /// oldest first, including any issued before construction.
    pub closed spec fn bus_history(&self) -> Seq<BusEvent> {
        self.i2c.history()
    }

    /// Initialize the MCP4725 driver. Stores the three inputs
    /// verbatim and performs no bus traffic; construction itself
    /// never fails.
    pub fn new(i2c: I2C, address: u8, delay: D) -> (r: Result<Self, I2C::BusError>)
        ensures
            r matches Ok(d) && d.device_address() == address && d.bus_history() == i2c.history(),
    {
        let mcp4725 = MCP4725 { i2c, address, delay };
        Ok(mcp4725)
    }

    /// Write the DAC register in fast mode: a two-byte frame with no
    /// command prefix. The input is not masked; its top four bits go
    /// out in the first byte as supplied.
    pub fn write_dac_register_fast(&mut self, input_code: u16) -> (r: Result<
        (),
        I2C::BusError,
    >)
        ensures
            final(self).device_address() == old(self).device_address(),
            r is Ok ==> final(self).bus_history() == old(self).bus_history().push(
                BusEvent::WriteTo {
                    address: old(self).device_address(),
                    bytes: fast_mode_bytes(input_code),
                },
            ),
            r is Err ==> final(self).bus_history() == old(self).bus_history(),
    {
        let b1 = (input_code >> 8) as u8;
        let b2 = (input_code & 0xFF) as u8;
        let frame: [u8; 2] = [b1, b2];
        proof {
            assert(frame@ =~= fast_mode_bytes(input_code));
        }
        self.i2c.write(self.address, frame.as_slice())?;
        Ok(())
    }

    /// Write the DAC register with the general write command: prefix
    /// `0x40`, then the code's top eight bits, then its low four bits
    /// in the high nibble of the last byte. Input bits above the low
    /// twelve are discarded by the bit arithmetic.
    pub fn write_dac_register(&mut self, input_code: u16) -> (r: Result<(), I2C::BusError>)
        ensures
            final(self).device_address() == old(self).device_address(),
            r is Ok ==> final(self).bus_history() == old(self).bus_history().push(
                BusEvent::WriteTo {
                    address: old(self).device_address(),
                    bytes: normal_write_bytes(input_code),
                },
            ),
            r is Err ==> final(self).bus_history() == old(self).bus_history(),
    {
        let b1 = (input_code >> 4) as u8;
        let b2 = ((input_code << 4) & 0xFF) as u8;
        let frame: [u8; 3] = [0x40, b1, b2];
        proof {
            assert(frame@ =~= normal_write_bytes(input_code));
        }
        self.i2c.write(self.address, frame.as_slice())?;
        Ok(())
    }

    /// Write the DAC register and persist the value to EEPROM, so it
    /// becomes the power-on default: the normal-write frame under
    /// command prefix `0x60`.
    pub fn write_dac_register_eeprom(&mut self, input_code: u16) -> (r: Result<
        (),
        I2C::BusError,
    >)
        ensures
            final(self).device_address() == old(self).device_address(),
            r is Ok ==> final(self).bus_history() == old(self).bus_history().push(
                BusEvent::WriteTo {
                    address: old(self).device_address(),
                    bytes: persist_write_bytes(input_code),
                },
            ),
            r is Err ==> final(self).bus_history() == old(self).bus_history(),
    {
        let b1 = (input_code >> 4) as u8;
        let b2 = ((input_code << 4) & 0xFF) as u8;
        let frame: [u8; 3] = [0x60, b1, b2];
        proof {
            assert(frame@ =~= persist_write_bytes(input_code));
        }
        self.i2c.write(self.address, frame.as_slice())?;
        Ok(())
    }

    /// Read the DAC register: one three-byte read transaction whose
    /// payload decodes to the register's 12-bit value.
    pub fn read_dac_register(&mut self) -> (r: Result<u16, I2C::BusError>)
        ensures
            final(self).device_address() == old(self).device_address(),
            r matches Ok(v) ==> {
                &&& final(self).bus_history().len() == old(self).bus_history().len() + 1
                &&& final(self).bus_history().drop_last() == old(self).bus_history()
                &&& reads_dac_code(
                    final(self).bus_history().last(),
                    old(self).device_address(),
                    v,
                )
            },
            r is Err ==> final(self).bus_history() == old(self).bus_history(),
    {
        let buf = match self.i2c.read_three(self.address) {
            Ok(b) => b,
            Err(e) => {
                return Err(e);
            },
        };
        let val = ((buf[1] as u16) << 4) | ((buf[2] >> 4) as u16);
        proof {
            assert(self.bus_history().drop_last() =~= old(self).bus_history());
        }
        Ok(val)
    }

    /// Set the DAC output using fast mode. The value is masked to
    /// twelve bits, which correspond to the 0-to-supply voltage
    /// range; higher input bits never reach the bus.
    pub fn set_dac_value(&mut self, val: u16) -> (r: Result<(), I2C::BusError>)
        ensures
            final(self).device_address() == old(self).device_address(),
            r is Ok ==> final(self).bus_history() == old(self).bus_history().push(
                BusEvent::WriteTo {
                    address: old(self).device_address(),
                    bytes: fast_mode_bytes(val & 0xFFF),
                },
            ),
            r is Err ==> final(self).bus_history() == old(self).bus_history(),
    {
        let dac_code: u16 = val & 0xFFF;
        self.write_dac_register_fast(dac_code)?;
        Ok(())
    }

    /// Get the current value of the DAC output: one three-byte read
    /// transaction, decoded as in `read_dac_register`.
    pub fn get_dac_value(&mut self) -> (r: Result<u16, I2C::BusError>)
        ensures
            final(self).device_address() == old(self).device_address(),
            r matches Ok(v) ==> {
                &&& final(self).bus_history().len() == old(self).bus_history().len() + 1
                &&& final(self).bus_history().drop_last() == old(self).bus_history()
                &&& reads_dac_code(
                    final(self).bus_history().last(),
                    old(self).device_address(),
                    v,
                )
            },
            r is Err ==> final(self).bus_history() == old(self).bus_history(),
    {
        let v = self.read_dac_register()?;
        Ok(v)
    }

    /// Perform the device's reset sequence: the single byte `0x06`
    /// written to the configured address, and no other bus traffic.
    /// After it, the device reloads its DAC register from EEPROM; the
    /// driver does not verify the reload.
    pub fn reset(&mut self) -> (r: Result<(), I2C::BusError>)
        ensures
            final(self).device_address() == old(self).device_address(),
            r is Ok ==> final(self).bus_history() == old(self).bus_history().push(
                BusEvent::WriteTo {
                    address: old(self).device_address(),
                    bytes: reset_bytes(),
                },
            ),
            r is Err ==> final(self).bus_history() == old(self).bus_history(),
    {
        let frame: [u8; 1] = [0x06];
        proof {
            assert(frame@ =~= reset_bytes());
        }
        self.i2c.write(self.address, frame.as_slice())?;
        Ok(())
    }
}

} // verus!
