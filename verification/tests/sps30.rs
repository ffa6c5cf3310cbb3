//! Session tests: every operation is driven against a mock bus that checks
//! the exact bytes written and supplies canned responses.

use sps30_i2c::calc_crc;
use sps30_i2c::DelayMs;
use sps30_i2c::Error;
use sps30_i2c::I2cBus;
use sps30_i2c::Sps30;

const DEV_ADDR: u8 = 0x69;

struct Register {}

impl Register {
    pub const START_MEASUREMENT: [u8; 2] = [0x00, 0x10];
    pub const STOP_MEASUREMENT: [u8; 2] = [0x01, 0x04];
    pub const READ_DATA_READY_FLAG: [u8; 2] = [0x02, 0x02];
    pub const READ_MEASURED_VALUES: [u8; 2] = [0x03, 0x00];
    pub const SLEEP: [u8; 2] = [0x10, 0x01];
    pub const WAKE_UP: [u8; 2] = [0x11, 0x03];
    pub const START_FAN_CLEANING: [u8; 2] = [0x56, 0x07];
    pub const READ_WRITE_AUTO_CLEANING_INTERVAL: [u8; 2] = [0x80, 0x04];
    pub const READ_DEVICE_PRODUCT_TYPE: [u8; 2] = [0xD0, 0x02];
    pub const READ_DEVICE_SERIAL_NUMBER: [u8; 2] = [0xD0, 0x33];
    pub const READ_FIRMWARE_VERSION: [u8; 2] = [0xD1, 0x00];
    pub const READ_DEVICE_STATUS_REGISTER: [u8; 2] = [0xD2, 0x06];
    pub const CLEAR_DEVICE_STATUS_REGISTER: [u8; 2] = [0xD2, 0x10];
    pub const DEVICE_RESET: [u8; 2] = [0xD3, 0x04];
}

/// One expected bus transaction, with the outcome the mock should produce.
enum I2cTrans {
    Write(u8, Vec<u8>),
    WriteFail(u8, Vec<u8>),
    Read(u8, Vec<u8>),
    ReadFail(u8, usize),
}

impl I2cTrans {
    fn write(address: u8, bytes: Vec<u8>) -> I2cTrans {
        I2cTrans::Write(address, bytes)
    }

    fn read(address: u8, response: Vec<u8>) -> I2cTrans {
        I2cTrans::Read(address, response)
    }
}

/// A mock bus: checks each transaction against the expected list, in order.
struct I2cMock {
    expected: Vec<I2cTrans>,
    pos: usize,
}

impl I2cMock {
    fn new(expected: Vec<I2cTrans>) -> I2cMock {
        I2cMock { expected, pos: 0 }
    }

    fn done(&self) {
        assert_eq!(self.pos, self.expected.len(), "not every expected transaction happened");
    }
}

impl I2cBus for I2cMock {
    type BusError = ();

    // The abstract transaction log is a ghost view: the compiled trait keeps
    // its item, but nothing ever calls it at run time.
    fn history(&self) -> sps30_i2c::BusLog {
        unreachable!()
    }

    fn write(&mut self, address: u8, bytes: &Vec<u8>) -> Result<(), ()> {
        assert!(self.pos < self.expected.len(), "unexpected extra write");
        let t = &self.expected[self.pos];
        self.pos += 1;
        match t {
            I2cTrans::Write(a, b) => {
                assert_eq!(*a, address);
                assert_eq!(b, bytes);
                Ok(())
            }
            I2cTrans::WriteFail(a, b) => {
                assert_eq!(*a, address);
                assert_eq!(b, bytes);
                Err(())
            }
            _ => panic!("expected a read, got a write"),
        }
    }

    fn read(&mut self, address: u8, buffer: &mut Vec<u8>) -> Result<(), ()> {
        assert!(self.pos < self.expected.len(), "unexpected extra read");
        let t = &self.expected[self.pos];
        self.pos += 1;
        match t {
            I2cTrans::Read(a, response) => {
                assert_eq!(*a, address);
                assert_eq!(response.len(), buffer.len());
                buffer.clear();
                buffer.extend_from_slice(response);
                Ok(())
            }
            I2cTrans::ReadFail(a, len) => {
                assert_eq!(*a, address);
                assert_eq!(*len, buffer.len());
                Err(())
            }
            _ => panic!("expected a write, got a read"),
        }
    }
}

/// A delay provider that records nothing and does not sleep.
struct NoopDelay;

impl DelayMs for NoopDelay {
    // Ghost view; never called at run time.
    fn waited(&self) -> sps30_i2c::WaitLog {
        unreachable!()
    }

    fn delay_ms(&mut self, _ms: u8) {}
}

/// A response of `n` zero data bytes with a correct checksum after every 2.
fn zero_response(n: usize) -> Vec<u8> {
    let mut res: Vec<u8> = vec![0; n];
    for i in 0..n {
        if i % 3 == 2 {
            res[i] = calc_crc(&[res[i - 2], res[i - 1]]);
        }
    }
    res
}

/// Frame the given data bytes: after every 2 of them, their checksum.
fn frame(data: &[u8]) -> Vec<u8> {
    assert_eq!(data.len() % 2, 0);
    let mut res: Vec<u8> = Vec::new();
    for pair in data.chunks(2) {
        res.push(pair[0]);
        res.push(pair[1]);
        res.push(calc_crc(&[pair[0], pair[1]]));
    }
    res
}

#[test]
fn test_create_destroy() {
    let sensor = Sps30::new_sps30(I2cMock::new(vec![]), NoopDelay);

    sensor.destroy().done();
}

#[test]
fn test_start_measurement() {
    let mut cmd: Vec<u8> = Vec::new();
    cmd.extend_from_slice(&Register::START_MEASUREMENT);
    cmd.extend_from_slice(&[0x03, 0x00, calc_crc(&[0x03, 0x00])]);

    let expectations = vec![I2cTrans::write(DEV_ADDR, cmd)];
    let mut sensor = Sps30::new_sps30(I2cMock::new(expectations), NoopDelay);

    sensor.start_measurement().unwrap();

    sensor.destroy().done();
}

#[test]
fn test_stop_measurement() {
    let mut cmd: Vec<u8> = Vec::new();
    cmd.extend_from_slice(&Register::STOP_MEASUREMENT);

    let expectations = vec![I2cTrans::write(DEV_ADDR, cmd)];
    let mut sensor = Sps30::new_sps30(I2cMock::new(expectations), NoopDelay);

    sensor.stop_measurement().unwrap();

    sensor.destroy().done();
}

#[test]
fn test_read_data_ready_flag() {
    let mut cmd: Vec<u8> = Vec::new();
    cmd.extend_from_slice(&Register::READ_DATA_READY_FLAG);

    let mut res: Vec<u8> = Vec::new();
    res.extend_from_slice(&[0x00, 0x00, calc_crc(&[0x00, 0x00])]);

    let expectations = vec![I2cTrans::write(DEV_ADDR, cmd), I2cTrans::read(DEV_ADDR, res)];
    let mut sensor = Sps30::new_sps30(I2cMock::new(expectations), NoopDelay);

    sensor.read_data_ready_flag().unwrap();

    sensor.destroy().done();
}

#[test]
fn test_read_measured_values() {
    let mut cmd: Vec<u8> = Vec::new();
    cmd.extend_from_slice(&Register::READ_MEASURED_VALUES);

    let res = zero_response(60);

    let expectations = vec![I2cTrans::write(DEV_ADDR, cmd), I2cTrans::read(DEV_ADDR, res)];
    let mut sensor = Sps30::new_sps30(I2cMock::new(expectations), NoopDelay);

    sensor.read_measured_values().unwrap();

    sensor.destroy().done();
}

#[test]
fn test_sleep() {
    let mut cmd: Vec<u8> = Vec::new();
    cmd.extend_from_slice(&Register::SLEEP);

    let expectations = vec![I2cTrans::write(DEV_ADDR, cmd)];
    let mut sensor = Sps30::new_sps30(I2cMock::new(expectations), NoopDelay);

    sensor.sleep().unwrap();

    sensor.destroy().done();
}

#[test]
fn test_wake_up() {
    let mut cmd: Vec<u8> = Vec::new();
    cmd.extend_from_slice(&Register::WAKE_UP);

    let expectations = vec![I2cTrans::write(DEV_ADDR, vec![]), I2cTrans::write(DEV_ADDR, cmd)];
    let mut sensor = Sps30::new_sps30(I2cMock::new(expectations), NoopDelay);

    sensor.wake_up().unwrap();

    sensor.destroy().done();
}

#[test]
fn test_start_fan_cleaning() {
    let mut cmd: Vec<u8> = Vec::new();
    cmd.extend_from_slice(&Register::START_FAN_CLEANING);

    let expectations = vec![I2cTrans::write(DEV_ADDR, cmd)];
    let mut sensor = Sps30::new_sps30(I2cMock::new(expectations), NoopDelay);

    sensor.start_fan_cleaning().unwrap();

    sensor.destroy().done();
}

#[test]
fn test_read_auto_cleaning_interval() {
    let mut cmd: Vec<u8> = Vec::new();
    cmd.extend_from_slice(&Register::READ_WRITE_AUTO_CLEANING_INTERVAL);

    let res = zero_response(6);

    let expectations = vec![I2cTrans::write(DEV_ADDR, cmd), I2cTrans::read(DEV_ADDR, res)];
    let mut sensor = Sps30::new_sps30(I2cMock::new(expectations), NoopDelay);

    sensor.read_auto_cleaning_interval().unwrap();

    sensor.destroy().done();
}

#[test]
fn test_write_auto_cleaning_interval() {
    let mut cmd: Vec<u8> = Vec::new();
    cmd.extend_from_slice(&Register::READ_WRITE_AUTO_CLEANING_INTERVAL);
    cmd.extend_from_slice(&[0; 6]);
    for i in 0..6 {
        if i % 3 == 2 {
            cmd[i + 2] = calc_crc(&[cmd[i - 2 + 2], cmd[i - 1 + 2]]);
        }
    }

    let expectations = vec![I2cTrans::write(DEV_ADDR, cmd)];
    let mut sensor = Sps30::new_sps30(I2cMock::new(expectations), NoopDelay);

    sensor.write_auto_cleaning_interval(0).unwrap();

    sensor.destroy().done();
}

#[test]
fn test_read_device_product_type() {
    let mut cmd: Vec<u8> = Vec::new();
    cmd.extend_from_slice(&Register::READ_DEVICE_PRODUCT_TYPE);

    let res = zero_response(12);

    let expectations = vec![I2cTrans::write(DEV_ADDR, cmd), I2cTrans::read(DEV_ADDR, res)];
    let mut sensor = Sps30::new_sps30(I2cMock::new(expectations), NoopDelay);

    sensor.read_device_product_type().unwrap();

    sensor.destroy().done();
}

#[test]
fn test_read_device_serial_number() {
    let mut cmd: Vec<u8> = Vec::new();
    cmd.extend_from_slice(&Register::READ_DEVICE_SERIAL_NUMBER);

    let res = zero_response(48);

    let expectations = vec![I2cTrans::write(DEV_ADDR, cmd), I2cTrans::read(DEV_ADDR, res)];
    let mut sensor = Sps30::new_sps30(I2cMock::new(expectations), NoopDelay);

    sensor.read_device_serial_number().unwrap();

    sensor.destroy().done();
}

#[test]
fn test_read_firmware_version() {
    let mut cmd: Vec<u8> = Vec::new();
    cmd.extend_from_slice(&Register::READ_FIRMWARE_VERSION);

    let res = zero_response(3);

    let expectations = vec![I2cTrans::write(DEV_ADDR, cmd), I2cTrans::read(DEV_ADDR, res)];
    let mut sensor = Sps30::new_sps30(I2cMock::new(expectations), NoopDelay);

    sensor.read_firmware_version().unwrap();

    sensor.destroy().done();
}

#[test]
fn test_read_device_status_register() {
    let mut cmd: Vec<u8> = Vec::new();
    cmd.extend_from_slice(&Register::READ_DEVICE_STATUS_REGISTER);

    let res = zero_response(6);

    let expectations = vec![I2cTrans::write(DEV_ADDR, cmd), I2cTrans::read(DEV_ADDR, res)];
    let mut sensor = Sps30::new_sps30(I2cMock::new(expectations), NoopDelay);

    sensor.read_device_status_register().unwrap();

    sensor.destroy().done();
}

#[test]
fn test_clear_device_status_register() {
    let mut cmd: Vec<u8> = Vec::new();
    cmd.extend_from_slice(&Register::CLEAR_DEVICE_STATUS_REGISTER);

    let expectations = vec![I2cTrans::write(DEV_ADDR, cmd)];
    let mut sensor = Sps30::new_sps30(I2cMock::new(expectations), NoopDelay);

    sensor.clear_device_status_register().unwrap();

    sensor.destroy().done();
}

#[test]
fn test_device_reset() {
    let mut cmd: Vec<u8> = Vec::new();
    cmd.extend_from_slice(&Register::DEVICE_RESET);

    let expectations = vec![I2cTrans::write(DEV_ADDR, cmd)];
    let mut sensor = Sps30::new_sps30(I2cMock::new(expectations), NoopDelay);

    sensor.device_reset().unwrap();

    sensor.destroy().done();
}

#[test]
fn data_ready_flag_follows_second_data_byte() {
    let expectations = vec![
        I2cTrans::write(DEV_ADDR, vec![0x02, 0x02]),
        I2cTrans::read(DEV_ADDR, frame(&[0x00, 0x01])),
        I2cTrans::write(DEV_ADDR, vec![0x02, 0x02]),
        I2cTrans::read(DEV_ADDR, frame(&[0x00, 0x00])),
    ];
    let mut sensor = Sps30::new_sps30(I2cMock::new(expectations), NoopDelay);

    assert_eq!(sensor.read_data_ready_flag().unwrap(), true);
    assert_eq!(sensor.read_data_ready_flag().unwrap(), false);

    sensor.destroy().done();
}

#[test]
fn measured_values_of_zero_bytes_are_an_all_zero_record() {
    let expectations = vec![
        I2cTrans::write(DEV_ADDR, vec![0x03, 0x00]),
        I2cTrans::read(DEV_ADDR, zero_response(60)),
    ];
    let mut sensor = Sps30::new_sps30(I2cMock::new(expectations), NoopDelay);

    let info = sensor.read_measured_values().unwrap();
    assert_eq!(info.mass_pm1_0, 0);
    assert_eq!(info.mass_pm2_5, 0);
    assert_eq!(info.mass_pm4_0, 0);
    assert_eq!(info.mass_pm10, 0);
    assert_eq!(info.number_pm0_5, 0);
    assert_eq!(info.number_pm1_0, 0);
    assert_eq!(info.number_pm2_5, 0);
    assert_eq!(info.number_pm4_0, 0);
    assert_eq!(info.number_pm10, 0);
    assert_eq!(info.typical_size, 0);

    sensor.destroy().done();
}

#[test]
fn measured_values_decode_big_endian_fields_in_order() {
    let mut data: Vec<u8> = Vec::new();
    for field in 0..10u8 {
        data.extend_from_slice(&[0x40 + field, 0x01, 0x02, 0x03]);
    }
    let expectations = vec![
        I2cTrans::write(DEV_ADDR, vec![0x03, 0x00]),
        I2cTrans::read(DEV_ADDR, frame(&data)),
    ];
    let mut sensor = Sps30::new_sps30(I2cMock::new(expectations), NoopDelay);

    let info = sensor.read_measured_values().unwrap();
    assert_eq!(info.mass_pm1_0, 0x40010203);
    assert_eq!(info.mass_pm2_5, 0x41010203);
    assert_eq!(info.mass_pm4_0, 0x42010203);
    assert_eq!(info.mass_pm10, 0x43010203);
    assert_eq!(info.number_pm0_5, 0x44010203);
    assert_eq!(info.number_pm1_0, 0x45010203);
    assert_eq!(info.number_pm2_5, 0x46010203);
    assert_eq!(info.number_pm4_0, 0x47010203);
    assert_eq!(info.number_pm10, 0x48010203);
    assert_eq!(info.typical_size, 0x49010203);

    sensor.destroy().done();
}

#[test]
fn status_register_word_drives_the_three_flags() {
    let expectations = vec![
        I2cTrans::write(DEV_ADDR, vec![0xD2, 0x06]),
        I2cTrans::read(DEV_ADDR, frame(&[0x00, 0x20, 0x00, 0x10])),
    ];
    let mut sensor = Sps30::new_sps30(I2cMock::new(expectations), NoopDelay);

    let flags = sensor.read_device_status_register().unwrap();
    assert_eq!(flags.speed, true);
    assert_eq!(flags.laser, false);
    assert_eq!(flags.fan, true);

    sensor.destroy().done();
}

#[test]
fn firmware_version_is_the_first_two_data_bytes() {
    let expectations = vec![
        I2cTrans::write(DEV_ADDR, vec![0xD1, 0x00]),
        I2cTrans::read(DEV_ADDR, frame(&[0x02, 0x01])),
    ];
    let mut sensor = Sps30::new_sps30(I2cMock::new(expectations), NoopDelay);

    assert_eq!(sensor.read_firmware_version().unwrap(), (2, 1));

    sensor.destroy().done();
}

#[test]
fn auto_cleaning_interval_decodes_big_endian() {
    let expectations = vec![
        I2cTrans::write(DEV_ADDR, vec![0x80, 0x04]),
        I2cTrans::read(DEV_ADDR, frame(&[0x00, 0x03, 0xF4, 0x80])),
    ];
    let mut sensor = Sps30::new_sps30(I2cMock::new(expectations), NoopDelay);

    assert_eq!(sensor.read_auto_cleaning_interval().unwrap(), 259200);

    sensor.destroy().done();
}

#[test]
fn write_auto_cleaning_interval_frames_the_big_endian_value() {
    let mut cmd: Vec<u8> = vec![0x80, 0x04];
    cmd.extend_from_slice(&frame(&[0x00, 0x03, 0xF4, 0x80]));

    let expectations = vec![I2cTrans::write(DEV_ADDR, cmd)];
    let mut sensor = Sps30::new_sps30(I2cMock::new(expectations), NoopDelay);

    sensor.write_auto_cleaning_interval(259200).unwrap();

    sensor.destroy().done();
}

#[test]
fn product_type_and_serial_number_return_the_data_bytes() {
    let ptype: Vec<u8> = (1..=8).collect();
    let serial: Vec<u8> = (1..=32).collect();
    let expectations = vec![
        I2cTrans::write(DEV_ADDR, vec![0xD0, 0x02]),
        I2cTrans::read(DEV_ADDR, frame(&ptype)),
        I2cTrans::write(DEV_ADDR, vec![0xD0, 0x33]),
        I2cTrans::read(DEV_ADDR, frame(&serial)),
    ];
    let mut sensor = Sps30::new_sps30(I2cMock::new(expectations), NoopDelay);

    assert_eq!(sensor.read_device_product_type().unwrap().to_vec(), ptype);
    assert_eq!(sensor.read_device_serial_number().unwrap().to_vec(), serial);

    sensor.destroy().done();
}

#[test]
fn corrupted_checksum_is_a_checksum_mismatch_error() {
    let mut res = frame(&[0x02, 0x01]);
    res[2] ^= 0x01;
    let expectations = vec![
        I2cTrans::write(DEV_ADDR, vec![0xD1, 0x00]),
        I2cTrans::read(DEV_ADDR, res),
    ];
    let mut sensor = Sps30::new_sps30(I2cMock::new(expectations), NoopDelay);

    let r = sensor.read_firmware_version();
    assert!(matches!(r, Err(Error::ChecksumMismatch)));

    sensor.destroy().done();
}

#[test]
fn transport_errors_surface_unmodified() {
    let expectations = vec![
        I2cTrans::WriteFail(DEV_ADDR, vec![0x01, 0x04]),
        I2cTrans::write(DEV_ADDR, vec![0xD1, 0x00]),
        I2cTrans::ReadFail(DEV_ADDR, 3),
    ];
    let mut sensor = Sps30::new_sps30(I2cMock::new(expectations), NoopDelay);

    assert!(matches!(sensor.stop_measurement(), Err(Error::I2C(()))));
    assert!(matches!(sensor.read_firmware_version(), Err(Error::I2C(()))));

    sensor.destroy().done();
}
