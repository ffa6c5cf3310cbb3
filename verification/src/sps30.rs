//! The device session: one method per sensor operation.
//!
//! Each operation builds its request from the register catalog, encodes it
//! with the frame codec, writes it on the bus, waits the command-specific
//! settle time where the device needs one, and, for read operations, reads
//! and decodes the response. The session does not track whether the device
//! is measuring or idle; sequencing the operations correctly is the caller's
//! responsibility.

use vstd::prelude::*;

use crate::bus::bus_read;
use crate::bus::bus_write;
use crate::bus::BusOp;
use crate::bus::DelayMs;
use crate::bus::I2cBus;
use crate::codec::add_crc;
use crate::codec::check_crc;
use crate::codec::encoded;
use crate::codec::frame_ok;
use crate::codec::framed;
use crate::codec::lemma_stripped_len;
use crate::codec::remove_crc;
use crate::codec::stripped;
use crate::crc::crc8;
use crate::decode::air_info_of;
use crate::decode::be_bytes;
use crate::decode::be_u32_at;
use crate::decode::decode_air_info;
use crate::decode::decode_status;
use crate::decode::decode_u32;
use crate::decode::encode_u32;
use crate::decode::status_of;
use crate::register_access::Register;
use crate::register_access::DEV_ADDR;
use crate::types::AirInfo;
use crate::types::Error;
use crate::types::StatusRegisterResult;

verus! {

/// A zero-filled buffer of length `len`, ready to be handed to a bus read.
fn zero_vec(len: usize) -> (r: Vec<u8>)
    ensures
        r@.len() == len,
{
    let mut r: Vec<u8> = Vec::new();
    while r.len() < len
        invariant
            r@.len() <= len,
        decreases len - r@.len(),
    {
        r.push(0);
    }
    r
}

/// The given command word as an owned 2-byte buffer.
fn cmd_vec(cmd: [u8; 2]) -> (r: Vec<u8>)
    ensures
        r@ == seq![cmd[0], cmd[1]],
{
    let mut r: Vec<u8> = Vec::new();
    r.push(cmd[0]);
    r.push(cmd[1]);
    proof {
        assert(r@ =~= seq![cmd[0], cmd[1]]);
    }
    r
}

/// The device session. It owns the bus handle and the delay handle for its
/// whole lifetime and talks to the device at a fixed bus address.
pub struct Sps30<I2C, D> {
    i2c: I2C,
    delay: D,
    address: u8,
}

impl<I2C: I2cBus, D: DelayMs> Sps30<I2C, D> {
    /// The bus handle the session owns.
    pub closed spec fn bus(&self) -> I2C {
        self.i2c
    }

    /// The bus handle's transaction log.
    pub closed spec fn history(&self) -> Seq<BusOp> {
        self.i2c.history()
    }

    /// The delay handle's log of requested waits, in milliseconds.
    pub closed spec fn waited(&self) -> Seq<u8> {
        self.delay.waited()
    }

    /// The device address the session talks to.
    pub closed spec fn addr(&self) -> u8 {
        self.address
    }

    /// Create a new session around the given bus and delay handles, bound to
    /// the device's fixed bus address.
    pub fn new_sps30(i2c: I2C, delay: D) -> (r: Self)
        ensures
            r.addr() == DEV_ADDR,
            r.bus() == i2c,
            r.history() == i2c.history(),
            r.waited() == delay.waited(),
    {
        Sps30 { i2c, delay, address: DEV_ADDR }
    }

    /// Destroy the session, releasing the bus handle to the caller.
    pub fn destroy(self) -> (r: I2C)
        ensures
            r == self.bus(),
    {
        self.i2c
    }

    /// Encode an outbound buffer and write it on the bus. A zero-length
    /// buffer is the address-only bus ping: it is written as it is and a
    /// transport failure is deliberately ignored, since a sleeping device
    /// does not acknowledge the ping.
    fn write_data(&mut self, buffer: &Vec<u8>) -> (r: Result<(), Error<I2C::BusError>>)
        requires
            buffer@.len() % 2 == 0,
        ensures
            final(self).addr() == old(self).addr(),
            final(self).waited() == old(self).waited(),
            final(self).history() == old(self).history().push(
                bus_write(old(self).addr(), encoded(buffer@)),
            ),
            r is Err ==> (r matches Err(Error::I2C(_))),
            buffer@.len() == 0 ==> r is Ok,
    {
        if buffer.len() == 0 {
            let _ = self.i2c.write(self.address, buffer);
            return Ok(());
        }
        let framed_buf = add_crc(buffer);
        match self.i2c.write(self.address, &framed_buf) {
            Ok(()) => Ok(()),
            Err(e) => Err(Error::I2C(e)),
        }
    }

    /// Read a framed response of `len` bytes from the bus, validate every
    /// checksum over the original offsets, and compact the frame down to its
    /// data bytes. The ghost result is the raw frame as the bus delivered
    /// it; it is meaningful whenever the read itself succeeded.
    fn read_data(&mut self, len: usize) -> (r: (
        Result<Vec<u8>, Error<I2C::BusError>>,
        Ghost<Seq<u8>>,
    ))
        requires
            len % 3 == 0,
        ensures
            final(self).addr() == old(self).addr(),
            final(self).waited() == old(self).waited(),
            r.0 matches Ok(data) ==> r.1@.len() == len && frame_ok(r.1@) && final(self).history()
                == old(self).history().push(bus_read(old(self).addr(), r.1@)) && data@ == stripped(
                r.1@,
            ),
            r.0 matches Err(Error::ChecksumMismatch) ==> r.1@.len() == len && !frame_ok(r.1@)
                && final(self).history() == old(self).history().push(
                bus_read(old(self).addr(), r.1@),
            ),
            r.0 matches Err(Error::I2C(_)) ==> final(self).history() == old(self).history(),
    {
        let mut buffer = zero_vec(len);
        match self.i2c.read(self.address, &mut buffer) {
            Err(e) => {
                return (Err(Error::I2C(e)), Ghost(Seq::empty()));
            },
            Ok(()) => {},
        }
        if !check_crc(&buffer) {
            return (Err(Error::ChecksumMismatch), Ghost(buffer@));
        }
        let data = remove_crc(&buffer);
        (Ok(data), Ghost(buffer@))
    }

    /// Enter measurement mode. The request carries one argument word,
    /// `03 00` (measure in IEEE-754 format), framed with its checksum.
    /// Command execution time: 20 ms.
    pub fn start_measurement(&mut self) -> (r: Result<(), Error<I2C::BusError>>)
        ensures
            final(self).addr() == old(self).addr(),
            final(self).history() == old(self).history().push(
                bus_write(
                    old(self).addr(),
                    seq![0x00u8, 0x10u8, 0x03u8, 0x00u8, crc8(0x03, 0x00)],
                ),
            ),
            r is Ok ==> final(self).waited() == old(self).waited().push(20),
            r is Err ==> (r matches Err(Error::I2C(_))) && final(self).waited() == old(self).waited(),
    {
        let mut buf = cmd_vec(Register::START_MEASUREMENT);
        buf.push(0x03);
        buf.push(0x00);
        proof {
            let b = buf@;
            assert(b =~= seq![0x00u8, 0x10u8, 0x03u8, 0x00u8]);
            let body = b.skip(2);
            assert(body =~= seq![0x03u8, 0x00u8]);
            assert(framed(body.skip(2)) =~= Seq::<u8>::empty());
            assert(framed(body) =~= seq![0x03u8, 0x00u8, crc8(0x03, 0x00)]);
            assert(encoded(b) =~= seq![0x00u8, 0x10u8, 0x03u8, 0x00u8, crc8(0x03, 0x00)]);
        }
        match self.write_data(&buf) {
            Ok(()) => {},
            Err(e) => {
                return Err(e);
            },
        }
        self.delay.delay_ms(20);
        Ok(())
    }

    /// Exit measurement mode. Command execution time: 20 ms.
    pub fn stop_measurement(&mut self) -> (r: Result<(), Error<I2C::BusError>>)
        ensures
            final(self).addr() == old(self).addr(),
            final(self).history() == old(self).history().push(
                bus_write(old(self).addr(), seq![0x01u8, 0x04u8]),
            ),
            r is Ok ==> final(self).waited() == old(self).waited().push(20),
            r is Err ==> (r matches Err(Error::I2C(_))) && final(self).waited() == old(self).waited(),
    {
        let cmd = cmd_vec(Register::STOP_MEASUREMENT);
        proof {
            assert(cmd@ =~= seq![0x01u8, 0x04u8]);
        }
        match self.write_data(&cmd) {
            Ok(()) => {},
            Err(e) => {
                return Err(e);
            },
        }
        self.delay.delay_ms(20);
        Ok(())
    }

    /// Enter sleep mode. Command execution time: 5 ms.
    pub fn sleep(&mut self) -> (r: Result<(), Error<I2C::BusError>>)
        ensures
            final(self).addr() == old(self).addr(),
            final(self).history() == old(self).history().push(
                bus_write(old(self).addr(), seq![0x10u8, 0x01u8]),
            ),
            r is Ok ==> final(self).waited() == old(self).waited().push(5),
            r is Err ==> (r matches Err(Error::I2C(_))) && final(self).waited() == old(self).waited(),
    {
        let cmd = cmd_vec(Register::SLEEP);
        proof {
            assert(cmd@ =~= seq![0x10u8, 0x01u8]);
        }
        match self.write_data(&cmd) {
            Ok(()) => {},
            Err(e) => {
                return Err(e);
            },
        }
        self.delay.delay_ms(5);
        Ok(())
    }

    /// Exit sleep mode. The device first needs an address-only zero-length
    /// write to rouse its bus interface — a transport failure on that ping
    /// is expected and ignored — then the wake-up command itself.
    /// Command execution time: 5 ms.
    pub fn wake_up(&mut self) -> (r: Result<(), Error<I2C::BusError>>)
        ensures
            final(self).addr() == old(self).addr(),
            final(self).history() == old(self).history().push(
                bus_write(old(self).addr(), Seq::<u8>::empty()),
            ).push(bus_write(old(self).addr(), seq![0x11u8, 0x03u8])),
            r is Ok ==> final(self).waited() == old(self).waited().push(5),
            r is Err ==> (r matches Err(Error::I2C(_))) && final(self).waited() == old(self).waited(),
    {
        let ping: Vec<u8> = Vec::new();
        let _ = self.write_data(&ping);
        let cmd = cmd_vec(Register::WAKE_UP);
        proof {
            assert(cmd@ =~= seq![0x11u8, 0x03u8]);
        }
        match self.write_data(&cmd) {
            Ok(()) => {},
            Err(e) => {
                return Err(e);
            },
        }
        self.delay.delay_ms(5);
        Ok(())
    }

    /// Start the fan cleaning manually. The device executes this command
    /// only in measurement mode. Command execution time: 5 ms.
    pub fn start_fan_cleaning(&mut self) -> (r: Result<(), Error<I2C::BusError>>)
        ensures
            final(self).addr() == old(self).addr(),
            final(self).history() == old(self).history().push(
                bus_write(old(self).addr(), seq![0x56u8, 0x07u8]),
            ),
            r is Ok ==> final(self).waited() == old(self).waited().push(5),
            r is Err ==> (r matches Err(Error::I2C(_))) && final(self).waited() == old(self).waited(),
    {
        let cmd = cmd_vec(Register::START_FAN_CLEANING);
        proof {
            assert(cmd@ =~= seq![0x56u8, 0x07u8]);
        }
        match self.write_data(&cmd) {
            Ok(()) => {},
            Err(e) => {
                return Err(e);
            },
        }
        self.delay.delay_ms(5);
        Ok(())
    }

    /// Clear the device status register. Command execution time: 5 ms.
    pub fn clear_device_status_register(&mut self) -> (r: Result<(), Error<I2C::BusError>>)
        ensures
            final(self).addr() == old(self).addr(),
            final(self).history() == old(self).history().push(
                bus_write(old(self).addr(), seq![0xD2u8, 0x10u8]),
            ),
            r is Ok ==> final(self).waited() == old(self).waited().push(5),
            r is Err ==> (r matches Err(Error::I2C(_))) && final(self).waited() == old(self).waited(),
    {
        let cmd = cmd_vec(Register::CLEAR_DEVICE_STATUS_REGISTER);
        proof {
            assert(cmd@ =~= seq![0xD2u8, 0x10u8]);
        }
        match self.write_data(&cmd) {
            Ok(()) => {},
            Err(e) => {
                return Err(e);
            },
        }
        self.delay.delay_ms(5);
        Ok(())
    }

    /// Reset the device. Command execution time: 100 ms.
    pub fn device_reset(&mut self) -> (r: Result<(), Error<I2C::BusError>>)
        ensures
            final(self).addr() == old(self).addr(),
            final(self).history() == old(self).history().push(
                bus_write(old(self).addr(), seq![0xD3u8, 0x04u8]),
            ),
            r is Ok ==> final(self).waited() == old(self).waited().push(100),
            r is Err ==> (r matches Err(Error::I2C(_))) && final(self).waited() == old(self).waited(),
    {
        let cmd = cmd_vec(Register::DEVICE_RESET);
        proof {
            assert(cmd@ =~= seq![0xD3u8, 0x04u8]);
        }
        match self.write_data(&cmd) {
            Ok(()) => {},
            Err(e) => {
                return Err(e);
            },
        }
        self.delay.delay_ms(100);
        Ok(())
    }

    /// Poll for the availability of new measurements: one framed data word
    /// comes back, and a non-zero second data byte means a new measurement
    /// is ready to be read.
    pub fn read_data_ready_flag(&mut self) -> (r: Result<bool, Error<I2C::BusError>>)
        ensures
            final(self).addr() == old(self).addr(),
            final(self).waited() == old(self).waited(),
            r matches Ok(flag) ==> exists|raw: Seq<u8>|
                #![trigger frame_ok(raw)]
                raw.len() == 3 && frame_ok(raw) && final(self).history() == old(
                    self,
                ).history().push(bus_write(old(self).addr(), seq![0x02u8, 0x02u8])).push(
                    bus_read(old(self).addr(), raw),
                ) && flag == (stripped(raw)[1] != 0),
            r matches Err(Error::ChecksumMismatch) ==> exists|raw: Seq<u8>|
                #![trigger frame_ok(raw)]
                raw.len() == 3 && !frame_ok(raw) && final(self).history() == old(
                    self,
                ).history().push(bus_write(old(self).addr(), seq![0x02u8, 0x02u8])).push(
                    bus_read(old(self).addr(), raw),
                ),
            r matches Err(Error::I2C(_)) ==> final(self).history() == old(self).history().push(
                bus_write(old(self).addr(), seq![0x02u8, 0x02u8]),
            ),
    {
        let cmd = cmd_vec(Register::READ_DATA_READY_FLAG);
        proof {
            assert(cmd@ =~= seq![0x02u8, 0x02u8]);
        }
        match self.write_data(&cmd) {
            Ok(()) => {},
            Err(e) => {
                return Err(e);
            },
        }
        let (res, raw) = self.read_data(3);
        let data = match res {
            Ok(d) => d,
            Err(e) => {
                return Err(e);
            },
        };
        proof {
            lemma_stripped_len(raw@);
        }
        Ok(data[1] != 0)
    }

    /// Read the measured values: 20 data bytes come back (60 bytes on the
    /// wire with their checksums) and decode to the ten big-endian 32-bit
    /// fields of one measurement record.
    pub fn read_measured_values(&mut self) -> (r: Result<AirInfo, Error<I2C::BusError>>)
        ensures
            final(self).addr() == old(self).addr(),
            final(self).waited() == old(self).waited(),
            r matches Ok(info) ==> exists|raw: Seq<u8>|
                #![trigger frame_ok(raw)]
                raw.len() == 60 && frame_ok(raw) && final(self).history() == old(
                    self,
                ).history().push(bus_write(old(self).addr(), seq![0x03u8, 0x00u8])).push(
                    bus_read(old(self).addr(), raw),
                ) && info == air_info_of(stripped(raw)),
            r matches Err(Error::ChecksumMismatch) ==> exists|raw: Seq<u8>|
                #![trigger frame_ok(raw)]
                raw.len() == 60 && !frame_ok(raw) && final(self).history() == old(
                    self,
                ).history().push(bus_write(old(self).addr(), seq![0x03u8, 0x00u8])).push(
                    bus_read(old(self).addr(), raw),
                ),
            r matches Err(Error::I2C(_)) ==> final(self).history() == old(self).history().push(
                bus_write(old(self).addr(), seq![0x03u8, 0x00u8]),
            ),
    {
        let cmd = cmd_vec(Register::READ_MEASURED_VALUES);
        proof {
            assert(cmd@ =~= seq![0x03u8, 0x00u8]);
        }
        match self.write_data(&cmd) {
            Ok(()) => {},
            Err(e) => {
                return Err(e);
            },
        }
        let (res, raw) = self.read_data(60);
        let data = match res {
            Ok(d) => d,
            Err(e) => {
                return Err(e);
            },
        };
        proof {
            lemma_stripped_len(raw@);
        }
        Ok(decode_air_info(&data))
    }

    /// Read the interval of the periodic fan cleaning, in seconds. The
    /// device needs a 5 ms settle time between the command and the read.
    pub fn read_auto_cleaning_interval(&mut self) -> (r: Result<u32, Error<I2C::BusError>>)
        ensures
            final(self).addr() == old(self).addr(),
            r matches Ok(v) ==> exists|raw: Seq<u8>|
                #![trigger frame_ok(raw)]
                raw.len() == 6 && frame_ok(raw) && final(self).history() == old(
                    self,
                ).history().push(bus_write(old(self).addr(), seq![0x80u8, 0x04u8])).push(
                    bus_read(old(self).addr(), raw),
                ) && v == be_u32_at(stripped(raw), 0) && final(self).waited() == old(
                    self,
                ).waited().push(5),
            r matches Err(Error::ChecksumMismatch) ==> exists|raw: Seq<u8>|
                #![trigger frame_ok(raw)]
                raw.len() == 6 && !frame_ok(raw) && final(self).history() == old(
                    self,
                ).history().push(bus_write(old(self).addr(), seq![0x80u8, 0x04u8])).push(
                    bus_read(old(self).addr(), raw),
                ) && final(self).waited() == old(self).waited().push(5),
            r matches Err(Error::I2C(_)) ==> final(self).history() == old(self).history().push(
                bus_write(old(self).addr(), seq![0x80u8, 0x04u8]),
            ) && (final(self).waited() == old(self).waited() || final(self).waited() == old(
                self,
            ).waited().push(5)),
    {
        let cmd = cmd_vec(Register::READ_WRITE_AUTO_CLEANING_INTERVAL);
        proof {
            assert(cmd@ =~= seq![0x80u8, 0x04u8]);
        }
        match self.write_data(&cmd) {
            Ok(()) => {},
            Err(e) => {
                return Err(e);
            },
        }
        self.delay.delay_ms(5);
        let (res, raw) = self.read_data(6);
        let data = match res {
            Ok(d) => d,
            Err(e) => {
                return Err(e);
            },
        };
        proof {
            lemma_stripped_len(raw@);
        }
        Ok(decode_u32(&data, 0))
    }

    /// Write the interval of the periodic fan cleaning, in seconds. The
    /// request carries the interval as 4 big-endian data bytes, framed with
    /// their checksums. Command execution time: 20 ms.
    pub fn write_auto_cleaning_interval(&mut self, n: u32) -> (r: Result<
        (),
        Error<I2C::BusError>,
    >)
        ensures
            final(self).addr() == old(self).addr(),
            final(self).history() == old(self).history().push(
                bus_write(old(self).addr(), encoded(seq![0x80u8, 0x04u8] + be_bytes(n))),
            ),
            r is Ok ==> final(self).waited() == old(self).waited().push(20),
            r is Err ==> (r matches Err(Error::I2C(_))) && final(self).waited() == old(
                self,
            ).waited(),
    {
        let mut buf = cmd_vec(Register::READ_WRITE_AUTO_CLEANING_INTERVAL);
        let nb = encode_u32(n);
        buf.push(nb[0]);
        buf.push(nb[1]);
        buf.push(nb[2]);
        buf.push(nb[3]);
        proof {
            assert(buf@ =~= seq![0x80u8, 0x04u8] + be_bytes(n));
        }
        match self.write_data(&buf) {
            Ok(()) => {},
            Err(e) => {
                return Err(e);
            },
        }
        self.delay.delay_ms(20);
        Ok(())
    }

    /// Read the device product type: 8 raw bytes, not further interpreted.
    pub fn read_device_product_type(&mut self) -> (r: Result<[u8; 8], Error<I2C::BusError>>)
        ensures
            final(self).addr() == old(self).addr(),
            final(self).waited() == old(self).waited(),
            r matches Ok(a) ==> exists|raw: Seq<u8>|
                #![trigger frame_ok(raw)]
                raw.len() == 12 && frame_ok(raw) && final(self).history() == old(
                    self,
                ).history().push(bus_write(old(self).addr(), seq![0xD0u8, 0x02u8])).push(
                    bus_read(old(self).addr(), raw),
                ) && a@ == stripped(raw),
            r matches Err(Error::ChecksumMismatch) ==> exists|raw: Seq<u8>|
                #![trigger frame_ok(raw)]
                raw.len() == 12 && !frame_ok(raw) && final(self).history() == old(
                    self,
                ).history().push(bus_write(old(self).addr(), seq![0xD0u8, 0x02u8])).push(
                    bus_read(old(self).addr(), raw),
                ),
            r matches Err(Error::I2C(_)) ==> final(self).history() == old(self).history().push(
                bus_write(old(self).addr(), seq![0xD0u8, 0x02u8]),
            ),
    {
        let cmd = cmd_vec(Register::READ_DEVICE_PRODUCT_TYPE);
        proof {
            assert(cmd@ =~= seq![0xD0u8, 0x02u8]);
        }
        match self.write_data(&cmd) {
            Ok(()) => {},
            Err(e) => {
                return Err(e);
            },
        }
        let (res, raw) = self.read_data(12);
        let data = match res {
            Ok(d) => d,
            Err(e) => {
                return Err(e);
            },
        };
        proof {
            lemma_stripped_len(raw@);
        }
        let a: [u8; 8] = [data[0], data[1], data[2], data[3], data[4], data[5], data[6], data[7]];
        proof {
            assert(a@ =~= stripped(raw@));
        }
        Ok(a)
    }

    /// Read the device serial number: 32 raw bytes, not further interpreted.
    pub fn read_device_serial_number(&mut self) -> (r: Result<[u8; 32], Error<I2C::BusError>>)
        ensures
            final(self).addr() == old(self).addr(),
            final(self).waited() == old(self).waited(),
            r matches Ok(a) ==> exists|raw: Seq<u8>|
                #![trigger frame_ok(raw)]
                raw.len() == 48 && frame_ok(raw) && final(self).history() == old(
                    self,
                ).history().push(bus_write(old(self).addr(), seq![0xD0u8, 0x33u8])).push(
                    bus_read(old(self).addr(), raw),
                ) && a@ == stripped(raw),
            r matches Err(Error::ChecksumMismatch) ==> exists|raw: Seq<u8>|
                #![trigger frame_ok(raw)]
                raw.len() == 48 && !frame_ok(raw) && final(self).history() == old(
                    self,
                ).history().push(bus_write(old(self).addr(), seq![0xD0u8, 0x33u8])).push(
                    bus_read(old(self).addr(), raw),
                ),
            r matches Err(Error::I2C(_)) ==> final(self).history() == old(self).history().push(
                bus_write(old(self).addr(), seq![0xD0u8, 0x33u8]),
            ),
    {
        let cmd = cmd_vec(Register::READ_DEVICE_SERIAL_NUMBER);
        proof {
            assert(cmd@ =~= seq![0xD0u8, 0x33u8]);
        }
        match self.write_data(&cmd) {
            Ok(()) => {},
            Err(e) => {
                return Err(e);
            },
        }
        let (res, raw) = self.read_data(48);
        let data = match res {
            Ok(d) => d,
            Err(e) => {
                return Err(e);
            },
        };
        proof {
            lemma_stripped_len(raw@);
        }
        let a: [u8; 32] = [
            data[0],
            data[1],
            data[2],
            data[3],
            data[4],
            data[5],
            data[6],
            data[7],
            data[8],
            data[9],
            data[10],
            data[11],
            data[12],
            data[13],
            data[14],
            data[15],
            data[16],
            data[17],
            data[18],
            data[19],
            data[20],
            data[21],
            data[22],
            data[23],
            data[24],
            data[25],
            data[26],
            data[27],
            data[28],
            data[29],
            data[30],
            data[31],
        ];
        proof {
            assert(a@ =~= stripped(raw@));
        }
        Ok(a)
    }

    /// Read the firmware version as the pair (major, minor), decoded from
    /// the 2 data bytes of the response.
    pub fn read_firmware_version(&mut self) -> (r: Result<(u8, u8), Error<I2C::BusError>>)
        ensures
            final(self).addr() == old(self).addr(),
            final(self).waited() == old(self).waited(),
            r matches Ok(v) ==> exists|raw: Seq<u8>|
                #![trigger frame_ok(raw)]
                raw.len() == 3 && frame_ok(raw) && final(self).history() == old(
                    self,
                ).history().push(bus_write(old(self).addr(), seq![0xD1u8, 0x00u8])).push(
                    bus_read(old(self).addr(), raw),
                ) && v.0 == stripped(raw)[0] && v.1 == stripped(raw)[1],
            r matches Err(Error::ChecksumMismatch) ==> exists|raw: Seq<u8>|
                #![trigger frame_ok(raw)]
                raw.len() == 3 && !frame_ok(raw) && final(self).history() == old(
                    self,
                ).history().push(bus_write(old(self).addr(), seq![0xD1u8, 0x00u8])).push(
                    bus_read(old(self).addr(), raw),
                ),
            r matches Err(Error::I2C(_)) ==> final(self).history() == old(self).history().push(
                bus_write(old(self).addr(), seq![0xD1u8, 0x00u8]),
            ),
    {
        let cmd = cmd_vec(Register::READ_FIRMWARE_VERSION);
        proof {
            assert(cmd@ =~= seq![0xD1u8, 0x00u8]);
        }
        match self.write_data(&cmd) {
            Ok(()) => {},
            Err(e) => {
                return Err(e);
            },
        }
        let (res, raw) = self.read_data(3);
        let data = match res {
            Ok(d) => d,
            Err(e) => {
                return Err(e);
            },
        };
        proof {
            lemma_stripped_len(raw@);
        }
        Ok((data[0], data[1]))
    }

    /// Read the device status register: the 4 data bytes of the response
    /// decode to a big-endian 32-bit word, and the three status flags are
    /// derived from its bit masks.
    pub fn read_device_status_register(&mut self) -> (r: Result<
        StatusRegisterResult,
        Error<I2C::BusError>,
    >)
        ensures
            final(self).addr() == old(self).addr(),
            final(self).waited() == old(self).waited(),
            r matches Ok(flags) ==> exists|raw: Seq<u8>|
                #![trigger frame_ok(raw)]
                raw.len() == 6 && frame_ok(raw) && final(self).history() == old(
                    self,
                ).history().push(bus_write(old(self).addr(), seq![0xD2u8, 0x06u8])).push(
                    bus_read(old(self).addr(), raw),
                ) && flags == status_of(be_u32_at(stripped(raw), 0)),
            r matches Err(Error::ChecksumMismatch) ==> exists|raw: Seq<u8>|
                #![trigger frame_ok(raw)]
                raw.len() == 6 && !frame_ok(raw) && final(self).history() == old(
                    self,
                ).history().push(bus_write(old(self).addr(), seq![0xD2u8, 0x06u8])).push(
                    bus_read(old(self).addr(), raw),
                ),
            r matches Err(Error::I2C(_)) ==> final(self).history() == old(self).history().push(
                bus_write(old(self).addr(), seq![0xD2u8, 0x06u8]),
            ),
    {
        let cmd = cmd_vec(Register::READ_DEVICE_STATUS_REGISTER);
        proof {
            assert(cmd@ =~= seq![0xD2u8, 0x06u8]);
        }
        match self.write_data(&cmd) {
            Ok(()) => {},
            Err(e) => {
                return Err(e);
            },
        }
        let (res, raw) = self.read_data(6);
        let data = match res {
            Ok(d) => d,
            Err(e) => {
                return Err(e);
            },
        };
        proof {
            lemma_stripped_len(raw@);
        }
        let word = decode_u32(&data, 0);
        Ok(decode_status(word))
    }
}

} // verus!
