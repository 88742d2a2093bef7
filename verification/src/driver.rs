use vstd::prelude::*;

use crate::bus::Bus;
use crate::error::Error;
use crate::protocol::{
    brightness_register, bus_write, enable_all_writes, enable_channel_mask,
    enable_channel_writes, enable_control_register, enable_device_writes, enable_register,
    enable_mask, reset_writes, set_all_writes, set_many_writes, set_writes,
    shutdown_device_writes, update_write, BRIGHTNESS_BASE, CHANNEL_COUNT, DEVICE_ADDRESS,
    ENABLE_BASE, MAX_PAYLOAD, RESET_REGISTER, SHUTDOWN_REGISTER, UPDATE_REGISTER,
};

verus! {

/// Driver for the 18-channel LED controller.
///
/// It owns the injected bus and a fixed 23-byte command buffer, reused
/// across calls: one byte for the target register address followed by
/// up to 22 payload bytes.
pub struct Is31Fl3218<B> {
    /// The injected bus transport.
    bus: B,
    /// Command buffer: byte 0 holds the target register address
    /// immediately before a bus write, bytes 1..=len the payload.
    cmd_buf: Vec<u8>,
}

impl<B: Bus> Is31Fl3218<B> {
    /// The command buffer keeps its fixed capacity of one address byte
    /// plus the longest payload.
    pub closed spec fn wf(&self) -> bool {
        self.cmd_buf@.len() == MAX_PAYLOAD + 1
    }

    /// Transactions the underlying bus has completed.
    pub closed spec fn written(&self) -> Seq<(u8, Seq<u8>)> {
        self.bus.written()
    }

    /// Create a new driver around `bus`, with a zeroed command buffer.
    /// No bus traffic: the device stays shut down until
    /// `enable_device` is called.
    pub fn new(bus: B) -> (r: Self)
        ensures
            r.wf(),
            r.written() == bus.written(),
    {
        let mut cmd_buf: Vec<u8> = Vec::new();
        let mut i: usize = 0;
        while i < MAX_PAYLOAD + 1
            invariant
                i <= MAX_PAYLOAD + 1,
                cmd_buf@.len() == i,
            decreases MAX_PAYLOAD + 1 - i,
        {
            cmd_buf.push(0);
            i = i + 1;
        }
        Is31Fl3218 { bus, cmd_buf }
    }

    /// A shared borrow of the underlying bus.
    pub fn bus(&self) -> (r: &B)
        ensures
            r.written() == self.written(),
    {
        &self.bus
    }

    /// Issue the first `len + 1` bytes of the command buffer — the
    /// register address in byte 0 and `len` payload bytes — as one bus
    /// transaction.
    fn write_raw(&mut self, len: usize) -> (r: Result<(), Error<B::Fault>>)
        requires
            old(self).wf(),
            len <= MAX_PAYLOAD,
        ensures
            final(self).wf(),
            (match r {
                Ok(_) => final(self).written() == old(self).written().push(
                    bus_write(old(self).cmd_buf@.take(len + 1)),
                ),
                Err(e) => final(self).written() == old(self).written() && (e matches Error::I2c(
                    _,
                )),
            }),
    {
        let frame: &[u8] = vstd::slice::slice_subrange(self.cmd_buf.as_slice(), 0, len + 1);
        proof {
            assert(frame@ =~= self.cmd_buf@.take(len + 1));
        }
        match self.bus.write(DEVICE_ADDRESS, frame) {
            Ok(_) => Ok(()),
            Err(fault) => Err(Error::I2c(fault)),
        }
    }

    /// Buffered register write: place `register` and `values` in the
    /// command buffer and issue them as one bus transaction.
    fn write(&mut self, register: u8, values: &[u8]) -> (r: Result<(), Error<B::Fault>>)
        requires
            old(self).wf(),
        ensures
            final(self).wf(),
            values@.len() > MAX_PAYLOAD ==> r == Err::<(), Error<B::Fault>>(Error::Address)
                && final(self).written() == old(self).written(),
            values@.len() <= MAX_PAYLOAD ==> (match r {
                Ok(_) => final(self).written() == old(self).written().push(
                    bus_write(seq![register] + values@),
                ),
                Err(e) => final(self).written() == old(self).written() && (e matches Error::I2c(
                    _,
                )),
            }),
    {
        let len = values.len();
        if len > MAX_PAYLOAD {
            return Err(Error::Address);
        }
        self.cmd_buf.set(0, register);
        let mut i: usize = 0;
        while i < len
            invariant
                i <= len,
                len == values@.len(),
                len <= MAX_PAYLOAD,
                self.wf(),
                self.bus == old(self).bus,
                self.cmd_buf@[0] == register,
                forall|j: int| 0 <= j < i ==> self.cmd_buf@[j + 1] == values@[j],
            decreases len - i,
        {
            self.cmd_buf.set(i + 1, values[i]);
            i = i + 1;
        }
        proof {
            assert(self.cmd_buf@.take(len + 1) =~= seq![register] + values@);
        }
        self.write_raw(len)
    }

    /// Commit pending brightness and enable values: write the update
    /// register.
    fn update(&mut self) -> (r: Result<(), Error<B::Fault>>)
        requires
            old(self).wf(),
        ensures
            final(self).wf(),
            (match r {
                Ok(_) => final(self).written() == old(self).written().push(update_write()),
                Err(e) => final(self).written() == old(self).written() && (e matches Error::I2c(
                    _,
                )),
            }),
    {
        let mut payload: Vec<u8> = Vec::new();
        payload.push(0);
        let r = self.write(UPDATE_REGISTER, payload.as_slice());
        proof {
            assert(seq![UPDATE_REGISTER] + payload@ =~= seq![UPDATE_REGISTER, 0u8]);
        }
        r
    }

    /// Enable the device: set the shutdown register to normal
    /// operation. Touches no channel enable bit and no brightness.
    pub fn enable_device(&mut self) -> (r: Result<(), Error<B::Fault>>)
        requires
            old(self).wf(),
        ensures
            final(self).wf(),
            (match r {
                Ok(_) => final(self).written() == old(self).written() + enable_device_writes(),
                Err(e) => final(self).written() == old(self).written() && (e matches Error::I2c(
                    _,
                )),
            }),
    {
        let mut payload: Vec<u8> = Vec::new();
        payload.push(1);
        let r = self.write(SHUTDOWN_REGISTER, payload.as_slice());
        proof {
            assert(seq![SHUTDOWN_REGISTER] + payload@ =~= seq![SHUTDOWN_REGISTER, 1u8]);
            if r is Ok {
                assert(self.written() =~= old(self).written() + enable_device_writes());
            }
        }
        r
    }

    /// Shut the device down: set the shutdown register to software
    /// shutdown. Brightness and enable registers keep their values.
    pub fn shutdown_device(&mut self) -> (r: Result<(), Error<B::Fault>>)
        requires
            old(self).wf(),
        ensures
            final(self).wf(),
            (match r {
                Ok(_) => final(self).written() == old(self).written() + shutdown_device_writes(),
                Err(e) => final(self).written() == old(self).written() && (e matches Error::I2c(
                    _,
                )),
            }),
    {
        let mut payload: Vec<u8> = Vec::new();
        payload.push(0);
        let r = self.write(SHUTDOWN_REGISTER, payload.as_slice());
        proof {
            assert(seq![SHUTDOWN_REGISTER] + payload@ =~= seq![SHUTDOWN_REGISTER, 0u8]);
            if r is Ok {
                assert(self.written() =~= old(self).written() + shutdown_device_writes());
            }
        }
        r
    }

    /// Enable one channel: write the channel's single-bit mask to its
    /// enable register, then commit.
    ///
    /// The mask replaces the register's whole six-bit group, so the
    /// other five channels of the same group end up disabled; see
    /// `enable_mask`.
    pub fn enable_channel(&mut self, led: usize) -> (r: Result<(), Error<B::Fault>>)
        requires
            old(self).wf(),
        ensures
            final(self).wf(),
            led >= CHANNEL_COUNT ==> r == Err::<(), Error<B::Fault>>(Error::Address)
                && final(self).written() == old(self).written(),
            led < CHANNEL_COUNT ==> (match r {
                Ok(_) => final(self).written() == old(self).written() + enable_channel_writes(
                    led as int,
                ),
                Err(e) => (e matches Error::I2c(_)) && (final(self).written() == old(
                    self,
                ).written() || final(self).written() == old(self).written().push(
                    enable_channel_writes(led as int)[0],
                )),
            }),
    {
        if led >= CHANNEL_COUNT {
            return Err(Error::Address);
        }
        let register = enable_control_register(led);
        let mask = enable_channel_mask(led);
        let mut payload: Vec<u8> = Vec::new();
        payload.push(mask);
        match self.write(register, payload.as_slice()) {
            Ok(_) => {},
            Err(e) => {
                return Err(e);
            },
        }
        proof {
            assert(seq![register] + payload@ =~= seq![
                enable_register(led as int),
                enable_mask(led as int),
            ]);
        }
        let r = self.update();
        proof {
            if r is Ok {
                assert(self.written() =~= old(self).written() + enable_channel_writes(led as int));
            }
        }
        r
    }

    /// Enable all 18 channels: write all six bits to each of the three
    /// enable registers in one payload, then commit.
    pub fn enable_all(&mut self) -> (r: Result<(), Error<B::Fault>>)
        requires
            old(self).wf(),
        ensures
            final(self).wf(),
            (match r {
                Ok(_) => final(self).written() == old(self).written() + enable_all_writes(),
                Err(e) => (e matches Error::I2c(_)) && (final(self).written() == old(
                    self,
                ).written() || final(self).written() == old(self).written().push(
                    enable_all_writes()[0],
                )),
            }),
    {
        let mut payload: Vec<u8> = Vec::new();
        payload.push(0x3f);
        payload.push(0x3f);
        payload.push(0x3f);
        match self.write(ENABLE_BASE, payload.as_slice()) {
            Ok(_) => {},
            Err(e) => {
                return Err(e);
            },
        }
        proof {
            assert(seq![ENABLE_BASE] + payload@ =~= seq![ENABLE_BASE, 0x3fu8, 0x3fu8, 0x3fu8]);
        }
        let r = self.update();
        proof {
            if r is Ok {
                assert(self.written() =~= old(self).written() + enable_all_writes());
            }
        }
        r
    }

    /// Set one channel's brightness register, then commit. The
    /// channel's enable bit is not touched: a channel set but never
    /// enabled stays dark.
    pub fn set(&mut self, led: usize, brightness: u8) -> (r: Result<(), Error<B::Fault>>)
        requires
            old(self).wf(),
        ensures
            final(self).wf(),
            led >= CHANNEL_COUNT ==> r == Err::<(), Error<B::Fault>>(Error::Address)
                && final(self).written() == old(self).written(),
            led < CHANNEL_COUNT ==> (match r {
                Ok(_) => final(self).written() == old(self).written() + set_writes(
                    led as int,
                    brightness,
                ),
                Err(e) => (e matches Error::I2c(_)) && (final(self).written() == old(
                    self,
                ).written() || final(self).written() == old(self).written().push(
                    set_writes(led as int, brightness)[0],
                )),
            }),
    {
        if led >= CHANNEL_COUNT {
            return Err(Error::Address);
        }
        let register: u8 = BRIGHTNESS_BASE + (led as u8);
        let mut payload: Vec<u8> = Vec::new();
        payload.push(brightness);
        match self.write(register, payload.as_slice()) {
            Ok(_) => {},
            Err(e) => {
                return Err(e);
            },
        }
        proof {
            assert(seq![register] + payload@ =~= seq![
                brightness_register(led as int),
                brightness,
            ]);
        }
        let r = self.update();
        proof {
            if r is Ok {
                assert(self.written() =~= old(self).written() + set_writes(
                    led as int,
                    brightness,
                ));
            }
        }
        r
    }

    /// Set a contiguous run of brightness registers, starting at
    /// `start_led`, in one payload, then commit. Enable bits are not
    /// touched.
    pub fn set_many(&mut self, start_led: usize, values: &[u8]) -> (r: Result<
        (),
        Error<B::Fault>,
    >)
        requires
            old(self).wf(),
        ensures
            final(self).wf(),
            start_led + values@.len() > CHANNEL_COUNT ==> r == Err::<(), Error<B::Fault>>(
                Error::Address,
            ) && final(self).written() == old(self).written(),
            start_led + values@.len() <= CHANNEL_COUNT ==> (match r {
                Ok(_) => final(self).written() == old(self).written() + set_many_writes(
                    start_led as int,
                    values@,
                ),
                Err(e) => (e matches Error::I2c(_)) && (final(self).written() == old(
                    self,
                ).written() || final(self).written() == old(self).written().push(
                    set_many_writes(start_led as int, values@)[0],
                )),
            }),
    {
        let len = values.len();
        if start_led > CHANNEL_COUNT || len > CHANNEL_COUNT - start_led {
            return Err(Error::Address);
        }
        let register: u8 = BRIGHTNESS_BASE + (start_led as u8);
        match self.write(register, values) {
            Ok(_) => {},
            Err(e) => {
                return Err(e);
            },
        }
        proof {
            assert(seq![register] + values@ =~= seq![brightness_register(start_led as int)]
                + values@);
        }
        let r = self.update();
        proof {
            if r is Ok {
                assert(self.written() =~= old(self).written() + set_many_writes(
                    start_led as int,
                    values@,
                ));
            }
        }
        r
    }

    /// Set all 18 brightness registers and enable every channel in a
    /// single transaction: the 18 values, the three enable registers at
    /// all six bits, and the update trigger, written back to back from
    /// the brightness block's base.
    pub fn set_all(&mut self, values: &[u8; 18]) -> (r: Result<(), Error<B::Fault>>)
        requires
            old(self).wf(),
        ensures
            final(self).wf(),
            (match r {
                Ok(_) => final(self).written() == old(self).written() + set_all_writes(values@),
                Err(e) => final(self).written() == old(self).written() && (e matches Error::I2c(
                    _,
                )),
            }),
    {
        let vs: &[u8] = values.as_slice();
        let mut payload: Vec<u8> = Vec::new();
        let mut i: usize = 0;
        while i < vs.len()
            invariant
                i <= vs@.len(),
                vs@ == values@,
                payload@ == vs@.take(i as int),
            decreases vs@.len() - i,
        {
            payload.push(vs[i]);
            proof {
                assert(payload@ =~= vs@.take(i + 1 as int));
            }
            i = i + 1;
        }
        proof {
            assert(payload@ =~= values@);
        }
        payload.push(0x3f);
        payload.push(0x3f);
        payload.push(0x3f);
        payload.push(0);
        let r = self.write(BRIGHTNESS_BASE, payload.as_slice());
        proof {
            assert(seq![BRIGHTNESS_BASE] + payload@ =~= seq![BRIGHTNESS_BASE] + values@ + seq![
                0x3fu8,
                0x3fu8,
                0x3fu8,
                0u8,
            ]);
            if r is Ok {
                assert(self.written() =~= old(self).written() + set_all_writes(values@));
            }
        }
        r
    }

    /// Reset every register to its power-on default, as after a power
    /// cycle: one write to the reset register. The chip reinitializes
    /// itself, so no update write follows.
    pub fn reset(&mut self) -> (r: Result<(), Error<B::Fault>>)
        requires
            old(self).wf(),
        ensures
            final(self).wf(),
            (match r {
                Ok(_) => final(self).written() == old(self).written() + reset_writes(),
                Err(e) => final(self).written() == old(self).written() && (e matches Error::I2c(
                    _,
                )),
            }),
    {
        let mut payload: Vec<u8> = Vec::new();
        payload.push(0);
        let r = self.write(RESET_REGISTER, payload.as_slice());
        proof {
            assert(seq![RESET_REGISTER] + payload@ =~= seq![RESET_REGISTER, 0u8]);
            if r is Ok {
                assert(self.written() =~= old(self).written() + reset_writes());
            }
        }
        r
    }
}

} // verus!
