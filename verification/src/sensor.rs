//! Sensor measurements: raw pressure and temperature readings, data status,
//! offsets, thresholds and one-shot acquisition.
//!
//! The pressure output is a 24-bit two's-complement count of 1/4096 hPa;
//! the temperature output is a 16-bit two's-complement count of 1/100 degree
//! Celsius.  This module decodes the raw counts; dividing by the scale
//! factors to obtain physical units is left to the caller.

use vstd::prelude::*;

verus! {

use crate::config::datarate_update;
use crate::interface::{Interface, Transaction, read1_byte, read1_trace, read_data, rmw_trace,
    tx_write};
use crate::register::{Bitmasks, Registers, reg_addr};
use crate::{LPS22HB, Odr, set_bits};

/// The signed value of a 24-bit two's-complement field given its three bytes
/// in ascending address order (lowest byte first).
pub open spec fn i24_of(xl: u8, l: u8, h: u8) -> int {
    let v = (h as int) * 0x10000 + (l as int) * 0x100 + (xl as int);
    if v >= 0x80_0000 {
        v - 0x100_0000
    } else {
        v
    }
}

/// The signed value of a 16-bit two's-complement field given its two bytes
/// in ascending address order (low byte first).
pub open spec fn i16_of(l: u8, h: u8) -> int {
    let v = (h as int) * 0x100 + (l as int);
    if v >= 0x8000 {
        v - 0x1_0000
    } else {
        v
    }
}

/// The low byte of a 16-bit value.
pub open spec fn lo8(v: u16) -> u8 {
    (v & 0xFF) as u8
}

/// The high byte of a 16-bit value.
pub open spec fn hi8(v: u16) -> u8 {
    (v >> 8) as u8
}

/// Law: splitting a 16-bit value into its two bytes and decoding them as a
/// two's-complement field yields the value's own two's-complement reading.
pub proof fn lemma_split_decode_roundtrip(v: u16)
    ensures
        i16_of(lo8(v), hi8(v)) == if v >= 0x8000 {
            v - 0x1_0000
        } else {
            v as int
        },
{
    assert(((v >> 8) as u8) as int * 0x100 + ((v & 0xFF) as u8) as int == v) by (bit_vector);
}

/// Contents of the status register: pressure and temperature overrun and
/// data-availability flags, decoded from one snapshot byte.
#[derive(Debug, Clone, Copy, PartialEq, Eq, Structural)]
pub struct DataStatus {
    /// Has new temperature data overwritten the previous one?
    pub temp_overrun: bool,
    /// Has new pressure data overwritten the previous one?
    pub press_overrun: bool,
    /// Is new temperature data available?
    pub temp_available: bool,
    /// Is new pressure data available?
    pub press_available: bool,
}

/// The data status decoded from one snapshot byte of the status register.
pub open spec fn data_status_of(b: u8) -> DataStatus {
    DataStatus {
        temp_overrun: (b & Bitmasks::T_OR) != 0,
        press_overrun: (b & Bitmasks::P_OR) != 0,
        temp_available: (b & Bitmasks::T_DA) != 0,
        press_available: (b & Bitmasks::P_DA) != 0,
    }
}

impl<T: Interface> LPS22HB<T> {
    /// Read the device's identification register ("who am I").  Callers
    /// compare the byte against the known device constant to verify bus
    /// wiring and addressing.
    pub fn get_device_id(&mut self) -> (r: Result<u8, T::Error>)
        requires
            old(self).inv(),
        ensures
            final(self).inv(),
            r matches Ok(id) ==> read1_trace(
                old(self).log(),
                final(self).log(),
                reg_addr(Registers::WHO_AM_I),
            ) && id == read1_byte(final(self).log().last()),
    {
        let ghost pre = self.log();
        let id = self.read_register(Registers::WHO_AM_I)?;
        proof {
            assert(self.log().take(pre.len() as int) =~= pre);
        }
        Ok(id)
    }

    /// Read the raw pressure count: the three pressure output registers in
    /// one transfer, decoded as a 24-bit two's-complement integer (lowest
    /// byte first).  Dividing the count by 4096 yields hPa.
    pub fn read_pressure_raw(&mut self) -> (r: Result<i32, T::Error>)
        requires
            old(self).inv(),
        ensures
            final(self).inv(),
            r matches Ok(p) ==> ({
                let post = final(self).log();
                let d = read_data(post.last());
                &&& d.len() == 3
                &&& post == old(self).log().push(
                    Transaction::Read { addr: reg_addr(Registers::PRESS_OUT_XL), data: d },
                )
                &&& p == i24_of(d[0], d[1], d[2])
            }),
    {
        let data = self.interface.read(Registers::PRESS_OUT_XL.addr(), 3)?;
        let v: u32 = (data[2] as u32) * 0x10000 + (data[1] as u32) * 0x100 + (data[0] as u32);
        let p: i32 = if v >= 0x80_0000 {
            (v as i32) - 0x100_0000
        } else {
            v as i32
        };
        Ok(p)
    }

    /// Read the raw temperature count: the two temperature output registers
    /// in one transfer, decoded as a 16-bit two's-complement integer (low
    /// byte first).  Dividing the count by 100 yields degrees Celsius.
    pub fn read_temperature_raw(&mut self) -> (r: Result<i16, T::Error>)
        requires
            old(self).inv(),
        ensures
            final(self).inv(),
            r matches Ok(t) ==> ({
                let post = final(self).log();
                let d = read_data(post.last());
                &&& d.len() == 2
                &&& post == old(self).log().push(
                    Transaction::Read { addr: reg_addr(Registers::TEMP_OUT_L), data: d },
                )
                &&& t == i16_of(d[0], d[1])
            }),
    {
        let data = self.interface.read(Registers::TEMP_OUT_L.addr(), 2)?;
        let v: u32 = (data[1] as u32) * 0x100 + (data[0] as u32);
        let t: i32 = if v >= 0x8000 {
            (v as i32) - 0x1_0000
        } else {
            v as i32
        };
        Ok(t as i16)
    }

    /// Read the raw reference-pressure count: the three reference-pressure
    /// registers in one transfer, decoded as a 24-bit two's-complement
    /// integer (lowest byte first).  Dividing the count by 4096 yields hPa.
    pub fn read_reference_pressure_raw(&mut self) -> (r: Result<i32, T::Error>)
        requires
            old(self).inv(),
        ensures
            final(self).inv(),
            r matches Ok(p) ==> ({
                let post = final(self).log();
                let d = read_data(post.last());
                &&& d.len() == 3
                &&& post == old(self).log().push(
                    Transaction::Read { addr: reg_addr(Registers::REF_P_XL), data: d },
                )
                &&& p == i24_of(d[0], d[1], d[2])
            }),
    {
        let data = self.interface.read(Registers::REF_P_XL.addr(), 3)?;
        let v: u32 = (data[2] as u32) * 0x10000 + (data[1] as u32) * 0x100 + (data[0] as u32);
        let p: i32 = if v >= 0x80_0000 {
            (v as i32) - 0x100_0000
        } else {
            v as i32
        };
        Ok(p)
    }

    /// Read the pressure offset, a 16-bit two's-complement count of 1/16
    /// hPa used for one-point calibration after soldering.
    pub fn read_pressure_offset(&mut self) -> (r: Result<i16, T::Error>)
        requires
            old(self).inv(),
        ensures
            final(self).inv(),
            r matches Ok(o) ==> ({
                let post = final(self).log();
                let d = read_data(post.last());
                &&& d.len() == 2
                &&& post == old(self).log().push(
                    Transaction::Read { addr: reg_addr(Registers::RPDS_L), data: d },
                )
                &&& o == i16_of(d[0], d[1])
            }),
    {
        let data = self.interface.read(Registers::RPDS_L.addr(), 2)?;
        let v: u32 = (data[1] as u32) * 0x100 + (data[0] as u32);
        let o: i32 = if v >= 0x8000 {
            (v as i32) - 0x1_0000
        } else {
            v as i32
        };
        Ok(o as i16)
    }

    /// Read the threshold for pressure interrupt generation, a 16-bit
    /// two's-complement count of 1/16 hPa.
    pub fn read_threshold(&mut self) -> (r: Result<i16, T::Error>)
        requires
            old(self).inv(),
        ensures
            final(self).inv(),
            r matches Ok(o) ==> ({
                let post = final(self).log();
                let d = read_data(post.last());
                &&& d.len() == 2
                &&& post == old(self).log().push(
                    Transaction::Read { addr: reg_addr(Registers::THS_P_L), data: d },
                )
                &&& o == i16_of(d[0], d[1])
            }),
    {
        let data = self.interface.read(Registers::THS_P_L.addr(), 2)?;
        let v: u32 = (data[1] as u32) * 0x100 + (data[0] as u32);
        let o: i32 = if v >= 0x8000 {
            (v as i32) - 0x1_0000
        } else {
            v as i32
        };
        Ok(o as i16)
    }

    /// Set the threshold for pressure interrupt generation, given in hPa.
    /// The device's threshold unit is 1/16 hPa, so the value is scaled by 16
    /// and written as two bytes, low byte first.  Values above 4095 hPa
    /// would not fit the 16-bit field.
    pub fn set_threshold(&mut self, threshold: u16) -> (r: Result<(), T::Error>)
        requires
            old(self).inv(),
            threshold <= 4095,
        ensures
            final(self).inv(),
            r is Ok ==> final(self).log() == old(self).log().push(
                tx_write(reg_addr(Registers::THS_P_L), lo8((threshold * 16) as u16)),
            ).push(tx_write(reg_addr(Registers::THS_P_H), hi8((threshold * 16) as u16))),
    {
        let scaled: u16 = threshold * 16;
        let low: u8 = (scaled & 0xFF) as u8;
        let high: u8 = (scaled >> 8) as u8;
        self.interface.write(Registers::THS_P_L.addr(), low)?;
        self.interface.write(Registers::THS_P_H.addr(), high)?;
        Ok(())
    }

    /// Set the pressure offset for one-point calibration, given in hPa.
    /// The device's offset unit is 1/16 hPa, so the value is scaled by 16
    /// and written as two bytes, low byte first.  Values above 4095 hPa
    /// would not fit the 16-bit field.
    pub fn set_pressure_offset(&mut self, offset: u16) -> (r: Result<(), T::Error>)
        requires
            old(self).inv(),
            offset <= 4095,
        ensures
            final(self).inv(),
            r is Ok ==> final(self).log() == old(self).log().push(
                tx_write(reg_addr(Registers::RPDS_L), lo8((offset * 16) as u16)),
            ).push(tx_write(reg_addr(Registers::RPDS_H), hi8((offset * 16) as u16))),
    {
        let scaled: u16 = offset * 16;
        let low: u8 = (scaled & 0xFF) as u8;
        let high: u8 = (scaled >> 8) as u8;
        self.interface.write(Registers::RPDS_L.addr(), low)?;
        self.interface.write(Registers::RPDS_H.addr(), high)?;
        Ok(())
    }

    /// Setting the reference pressure issues no bus transaction: the device
    /// fills the reference-pressure registers itself through the autozero
    /// function (see [`LPS22HB::autozero_config`]), and this driver does not
    /// write them directly.
    pub fn set_reference_pressure(&mut self, _pressure: u16) -> (r: Result<(), T::Error>)
        requires
            old(self).inv(),
        ensures
            final(self).inv(),
            r is Ok,
            final(self).log() == old(self).log(),
    {
        Ok(())
    }

    /// Get all the flags from the status register in one read, so that all
    /// four fields describe the same instant.
    pub fn get_data_status(&mut self) -> (r: Result<DataStatus, T::Error>)
        requires
            old(self).inv(),
        ensures
            final(self).inv(),
            r matches Ok(status) ==> read1_trace(
                old(self).log(),
                final(self).log(),
                reg_addr(Registers::STATUS),
            ) && status == data_status_of(read1_byte(final(self).log().last())),
    {
        let ghost pre = self.log();
        let reg_value = self.read_register(Registers::STATUS)?;
        let status = DataStatus {
            temp_overrun: (reg_value & Bitmasks::T_OR) != 0,
            press_overrun: (reg_value & Bitmasks::P_OR) != 0,
            temp_available: (reg_value & Bitmasks::T_DA) != 0,
            press_available: (reg_value & Bitmasks::P_DA) != 0,
        };
        proof {
            assert(self.log().take(pre.len() as int) =~= pre);
        }
        Ok(status)
    }

    /// Trigger one-shot acquisition: first force the rate field to
    /// power-down/one-shot mode (triggering is only valid there), then set
    /// the one-shot bit, which the device clears itself once the
    /// acquisition completes.  The acquisition is asynchronous: poll
    /// [`LPS22HB::get_data_status`] or wait the device's conversion time
    /// before reading pressure or temperature.
    pub fn one_shot(&mut self) -> (r: Result<(), T::Error>)
        requires
            old(self).inv(),
        ensures
            final(self).inv(),
            r is Ok ==> ({
                let pre = old(self).log();
                let post = final(self).log();
                &&& post.len() == pre.len() + 4
                &&& rmw_trace(
                    pre,
                    post.take(pre.len() as int + 2),
                    reg_addr(Registers::CTRL_REG1),
                    (|b: u8| datarate_update(b, Odr::PowerDown)),
                )
                &&& rmw_trace(
                    post.take(pre.len() as int + 2),
                    post,
                    reg_addr(Registers::CTRL_REG2),
                    (|b: u8| set_bits(b, Bitmasks::ONE_SHOT)),
                )
            }),
    {
        let ghost pre = self.log();
        self.set_datarate(Odr::PowerDown)?;
        let ghost mid = self.log();
        self.enable_one_shot()?;
        proof {
            assert(self.log().take(pre.len() as int + 2) == mid);
        }
        Ok(())
    }
}

} // verus!
