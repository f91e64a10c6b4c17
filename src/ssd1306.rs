//! Driver for an SSD1306 OLED controller on a two-wire (I2C) bus.
//!
//! Every bus write starts with a control byte: `CONTROL_COMMAND` for a
//! command stream, `CONTROL_DATA` for display RAM data. A bus is modelled by
//! the list of writes attempted on it, and each driver operation states
//! exactly which writes it attempts, to which address, and where it stops.
use vstd::prelude::*;

pub mod command;

use crate::ssd1306::command::{
    encode,
    encoding,
    AddressMode,
    Command,
    CONTROL_COMMAND,
    CONTROL_DATA,
};

verus! {

/// Panel width in pixels.
pub const SSD_1306_WIDTH: u8 = 128;

/// Panel height in pixels.
pub const SSD_1306_HEIGHT: u8 = 64;

/// Most display RAM bytes carried by one data write.
pub const CHUNK_SIZE: usize = 16;

/// One write attempted on an I2C bus: the 7-bit device address, the bytes,
/// and whether the device acknowledged the transfer.
pub type BusWrite = (u8, Seq<u8>, bool);

/// A blocking I2C bus: each `write` is one transaction that sends `bytes`
/// to the device at the 7-bit `address`, and either completes or reports
/// the bus's own error.
pub trait I2cWrite {
    type Error;

    /// Every write attempted on this bus, oldest first.
    spec fn sent(&self) -> Seq<BusWrite>;

    fn write(&mut self, address: u8, bytes: &[u8]) -> (r: Result<(), Self::Error>)
        ensures
            final(self).sent() == old(self).sent().push((address, bytes@, r is Ok)),
    ;
}

/// A bus made from a blocking write function (for instance, a closure over
/// an embedded-hal `blocking::i2c::Write` bus), with the record of the
/// writes made through it.
pub struct WriteFnBus<F> {
    write_fn: F,
    sent: Ghost<Seq<BusWrite>>,
}

impl<F, E> WriteFnBus<F> where F: FnMut(u8, &[u8]) -> Result<(), E> {
    pub fn new(write_fn: F) -> (r: Self)
        ensures
            r.sent() == Seq::<BusWrite>::empty(),
    {
        WriteFnBus { write_fn, sent: Ghost(Seq::empty()) }
    }
}

impl<F, E> I2cWrite for WriteFnBus<F> where F: FnMut(u8, &[u8]) -> Result<(), E> {
    type Error = E;

    closed spec fn sent(&self) -> Seq<BusWrite> {
        self.sent@
    }

    fn write(&mut self, address: u8, bytes: &[u8]) -> (r: Result<(), E>) {
        let r = call_write_fn(&mut self.write_fn, address, bytes);
        proof {
            self.sent@ = self.sent@.push((address, bytes@, r is Ok));
        }
        r
    }
}

/// Calls the write function that the bus was made from, once, with `address`
/// and `bytes`. In the firmware that function is embedded-hal's
/// `blocking::i2c::Write::write` on the board's I2C peripheral. The
/// precondition of a caller-supplied `FnMut` cannot be stated, so the call
/// is not verified; nothing is assumed of its result, and `write` records
/// the attempt from its own arguments.
#[verifier::external_body]
fn call_write_fn<F, E>(write_fn: &mut F, address: u8, bytes: &[u8]) -> Result<(), E> where
    F: FnMut(u8, &[u8]) -> Result<(), E>,
 {
    write_fn(address, bytes)
}

/// `frames`, each written to `address` and acknowledged.
pub open spec fn acked_writes(address: u8, frames: Seq<Seq<u8>>) -> Seq<BusWrite> {
    frames.map_values(|f: Seq<u8>| (address, f, true))
}

/// The first `k` of `frames` written to `address` and acknowledged, then
/// frame `k` written and refused.
pub open spec fn failed_at(address: u8, frames: Seq<Seq<u8>>, k: int) -> Seq<BusWrite> {
    acked_writes(address, frames.take(k)).push((address, frames[k], false))
}

/// Number of data writes that carry `n` bytes: `n / CHUNK_SIZE`, rounded up.
pub open spec fn chunk_count(n: nat) -> nat {
    if n % (CHUNK_SIZE as nat) == 0 {
        n / (CHUNK_SIZE as nat)
    } else {
        n / (CHUNK_SIZE as nat) + 1
    }
}

/// The `i`-th data write for `data`: the data control byte, then the
/// `i`-th chunk of `data` (`CHUNK_SIZE` bytes, or what is left).
pub open spec fn data_frame(data: Seq<u8>, i: int) -> Seq<u8> {
    let start = i * CHUNK_SIZE;
    let end = if start + CHUNK_SIZE <= data.len() {
        start + CHUNK_SIZE
    } else {
        data.len() as int
    };
    seq![CONTROL_DATA] + data.subrange(start, end)
}

/// The writes that send `data` to display RAM, in order.
pub open spec fn data_frames(data: Seq<u8>) -> Seq<Seq<u8>> {
    Seq::new(chunk_count(data.len()), |i: int| data_frame(data, i))
}

/// A command write that no `Command` variant stands for.
pub open spec fn raw_command(opcode: u8, param: u8) -> Seq<u8> {
    seq![CONTROL_COMMAND, opcode, param]
}

/// The writes that bring the panel from reset to operation, in order:
/// display off, clock, multiplex ratio, display offset 0, start line 0,
/// charge pump on, page addressing, COM pin configuration, orientation,
/// pre-charge period, contrast, VCOMH deselect level, RAM-driven pixels,
/// normal (not inverted) display, scrolling off, display on.
pub open spec fn init_frames() -> Seq<Seq<u8>> {
    seq![
        encoding(Command::DisplayEnable(false)),
        encoding(Command::DisplayClockDiv { oscillator_freq: 0x8, divide_ratio: 0x0 }),
        encoding(Command::SetMultiplexRatio { ratio: 63 }),
        raw_command(0xD3, 0x00),
        encoding(Command::SetStartLine(0)),
        encoding(Command::ChargePump(true)),
        encoding(Command::SetAddressMode(AddressMode::Page)),
        raw_command(0xDA, 0x12),
        encoding(Command::SegmentRemap(true)),
        encoding(Command::SetComScanDir(true)),
        encoding(Command::PreChargePeriod(0x21)),
        encoding(Command::SetContrast { contrast: 0x5F }),
        raw_command(0xDB, 0x40),
        encoding(Command::AllPixelsOn(false)),
        encoding(Command::InvertDisplay(false)),
        encoding(Command::EnableScroll(false)),
        encoding(Command::DisplayEnable(true)),
    ]
}

/// Number of writes in the initialization sequence.
pub const INIT_STEPS: usize = 17;

/// The `step`-th write of the initialization sequence.
fn init_frame(step: usize) -> (r: Vec<u8>)
    requires
        step < INIT_STEPS,
    ensures
        r@ == init_frames()[step as int],
{
    let r = match step {
        0 => encode(Command::DisplayEnable(false)),
        1 => encode(Command::DisplayClockDiv { oscillator_freq: 0x8, divide_ratio: 0x0 }),
        2 => encode(Command::SetMultiplexRatio { ratio: 63 }),
        3 => vec![CONTROL_COMMAND, 0xD3, 0x00],
        4 => encode(Command::SetStartLine(0)),
        5 => encode(Command::ChargePump(true)),
        6 => encode(Command::SetAddressMode(AddressMode::Page)),
        7 => vec![CONTROL_COMMAND, 0xDA, 0x12],
        8 => encode(Command::SegmentRemap(true)),
        9 => encode(Command::SetComScanDir(true)),
        10 => encode(Command::PreChargePeriod(0x21)),
        11 => encode(Command::SetContrast { contrast: 0x5F }),
        12 => vec![CONTROL_COMMAND, 0xDB, 0x40],
        13 => encode(Command::AllPixelsOn(false)),
        14 => encode(Command::InvertDisplay(false)),
        15 => encode(Command::EnableScroll(false)),
        _ => encode(Command::DisplayEnable(true)),
    };
    assert(r@ =~= init_frames()[step as int]);
    r
}

/// Every data write starts with the data control byte and carries between
/// one and `CHUNK_SIZE` bytes; all but the last carry exactly
/// `CHUNK_SIZE`, and their payloads, in order, are `data`.
pub proof fn lemma_data_frames_partition(data: Seq<u8>)
    ensures
        data_frames(data).len() == chunk_count(data.len()),
        forall|i: int|
            #![trigger data_frames(data)[i]]
            0 <= i < data_frames(data).len() ==> {
                &&& data_frames(data)[i][0] == CONTROL_DATA
                &&& 2 <= data_frames(data)[i].len() <= CHUNK_SIZE + 1
                &&& i + 1 < data_frames(data).len() ==> data_frames(data)[i].len() == CHUNK_SIZE + 1
                &&& data_frames(data)[i].skip(1) == data.subrange(
                    i * CHUNK_SIZE,
                    i * CHUNK_SIZE + data_frames(data)[i].len() - 1,
                )
            },
{
    assert forall|i: int| 0 <= i < data_frames(data).len() implies {
        &&& data_frames(data)[i][0] == CONTROL_DATA
        &&& 2 <= data_frames(data)[i].len() <= CHUNK_SIZE + 1
        &&& i + 1 < data_frames(data).len() ==> data_frames(data)[i].len() == CHUNK_SIZE + 1
        &&& data_frames(data)[i].skip(1) == data.subrange(
            i * CHUNK_SIZE,
            i * CHUNK_SIZE + data_frames(data)[i].len() - 1,
        )
    } by {
        let f = data_frame(data, i);
        assert(i * CHUNK_SIZE < data.len());
        assert(f.skip(1) =~= data.subrange(i * CHUNK_SIZE, i * CHUNK_SIZE + f.len() - 1));
    }
}

/// A payload that is a whole number of chunks goes out in
/// `len / CHUNK_SIZE` writes of `CHUNK_SIZE + 1` bytes each.
pub proof fn lemma_whole_chunks(data: Seq<u8>)
    requires
        data.len() % (CHUNK_SIZE as nat) == 0,
    ensures
        data_frames(data).len() == data.len() / (CHUNK_SIZE as nat),
        forall|i: int|
            #![trigger data_frames(data)[i]]
            0 <= i < data_frames(data).len() ==> data_frames(data)[i].len() == CHUNK_SIZE + 1
                && data_frames(data)[i][0] == CONTROL_DATA,
{
    assert forall|i: int| 0 <= i < data_frames(data).len() implies data_frames(data)[i].len()
        == CHUNK_SIZE + 1 && data_frames(data)[i][0] == CONTROL_DATA by {
        assert(i * CHUNK_SIZE + CHUNK_SIZE <= data.len());
    }
}

/// A non-empty payload of at most `CHUNK_SIZE` bytes goes out in one write:
/// the data control byte, then the payload.
pub proof fn lemma_single_chunk(data: Seq<u8>)
    requires
        0 < data.len() <= CHUNK_SIZE,
    ensures
        data_frames(data).len() == 1,
        data_frames(data)[0] == seq![CONTROL_DATA] + data,
        data_frames(data)[0].len() == data.len() + 1,
{
    assert(data.subrange(0, data.len() as int) =~= data);
}

/// Initialization turns the charge pump on strictly before it turns the
/// display on, and every write in it that turns the display on comes after
/// one that turns the charge pump on.
pub proof fn lemma_charge_pump_before_display_on()
    ensures
        exists|i: int, j: int|
            0 <= i < j < init_frames().len() && init_frames()[i] == encoding(
                Command::ChargePump(true),
            ) && init_frames()[j] == encoding(Command::DisplayEnable(true)),
        forall|j: int|
            0 <= j < init_frames().len() && init_frames()[j] == encoding(Command::DisplayEnable(true))
                ==> exists|i: int|
                0 <= i < j && init_frames()[i] == encoding(Command::ChargePump(true)),
{
    let frames = init_frames();
    let pump = encoding(Command::ChargePump(true));
    let on = encoding(Command::DisplayEnable(true));
    assert(frames[5] == pump);
    assert(frames[16] == on);
    assert forall|j: int| 0 <= j < frames.len() && frames[j] == on implies exists|i: int|
        0 <= i < j && frames[i] == pump by {
        assert(on[1] == 0xAF);
        if j < 16 {
            assert(frames[j][1] != 0xAF || frames[j].len() != on.len());
        }
    }
}

/// An SSD1306 panel at a fixed 7-bit address, which owns its bus.
pub struct SSD1306<I> where I: I2cWrite {
    i2c: I,
    address: u8,
}

impl<I> SSD1306<I> where I: I2cWrite {
    /// The panel's bus address.
    pub closed spec fn bus_address(&self) -> u8 {
        self.address
    }

    /// The bus the panel is driven through.
    pub closed spec fn bus(&self) -> I {
        self.i2c
    }

    /// Every write attempted on the panel's bus, oldest first.
    pub open spec fn sent(&self) -> Seq<BusWrite> {
        self.bus().sent()
    }

    pub fn new(address: u8, i2c: I) -> (r: Self)
        ensures
            r.bus_address() == address,
            r.bus() == i2c,
    {
        SSD1306 { i2c, address }
    }

    /// One bus write of `frame` to the panel.
    fn write_frame(&mut self, frame: &[u8]) -> (r: Result<(), I::Error>)
        ensures
            final(self).bus_address() == old(self).bus_address(),
            final(self).sent() == old(self).sent().push((old(self).bus_address(), frame@, r is Ok)),
    {
        self.i2c.write(self.address, frame)
    }

    /// Sends `command` as exactly one bus write of its encoding to the
    /// panel, and returns what the bus returned.
    pub fn send_command(&mut self, command: Command) -> (r: Result<(), I::Error>)
        ensures
            final(self).bus_address() == old(self).bus_address(),
            final(self).sent() == old(self).sent().push(
                (old(self).bus_address(), encoding(command), r is Ok),
            ),
    {
        let bytes = encode(command);
        self.write_frame(bytes.as_slice())
    }

    /// Runs the initialization sequence, one bus write per step. The first
    /// failed write ends it: the steps after it are not sent.
    pub fn initialize(&mut self) -> (r: Result<(), I::Error>)
        ensures
            final(self).bus_address() == old(self).bus_address(),
            r is Ok ==> final(self).sent() == old(self).sent() + acked_writes(
                old(self).bus_address(),
                init_frames(),
            ),
            r is Err ==> exists|k: int|
                0 <= k < init_frames().len() && final(self).sent() == old(self).sent()
                    + failed_at(old(self).bus_address(), init_frames(), k),
    {
        let ghost start = self.sent();
        let ghost address = self.bus_address();
        let mut step: usize = 0;
        while step < INIT_STEPS
            invariant
                step <= INIT_STEPS,
                self.bus_address() == address,
                address == old(self).bus_address(),
                start == old(self).sent(),
                self.sent() == start + acked_writes(address, init_frames().take(step as int)),
            decreases INIT_STEPS - step,
        {
            let frame = init_frame(step);
            let r = self.write_frame(frame.as_slice());
            if r.is_err() {
                assert(self.sent() =~= start + failed_at(address, init_frames(), step as int));
                return r;
            }
            assert(acked_writes(address, init_frames().take(step + 1)) =~= acked_writes(
                address,
                init_frames().take(step as int),
            ).push((address, frame@, true)));
            step = step + 1;
        }
        assert(init_frames().take(INIT_STEPS as int) =~= init_frames());
        Ok(())
    }

    /// Sends `data` to display RAM in writes of at most `CHUNK_SIZE` bytes,
    /// each after the data control byte. The first failed write ends it.
    pub fn send_data(&mut self, data: &[u8]) -> (r: Result<(), I::Error>)
        ensures
            final(self).bus_address() == old(self).bus_address(),
            r is Ok ==> final(self).sent() == old(self).sent() + acked_writes(
                old(self).bus_address(),
                data_frames(data@),
            ),
            r is Err ==> exists|k: int|
                0 <= k < data_frames(data@).len() && final(self).sent() == old(self).sent()
                    + failed_at(old(self).bus_address(), data_frames(data@), k),
    {
        let ghost start = self.sent();
        let ghost address = self.bus_address();
        let n = data.len();
        let count: usize = if n % CHUNK_SIZE == 0 {
            n / CHUNK_SIZE
        } else {
            n / CHUNK_SIZE + 1
        };
        let mut i: usize = 0;
        while i < count
            invariant
                i <= count,
                n == data@.len(),
                count == chunk_count(n as nat),
                self.bus_address() == address,
                address == old(self).bus_address(),
                start == old(self).sent(),
                self.sent() == start + acked_writes(address, data_frames(data@).take(i as int)),
            decreases count - i,
        {
            let pos: usize = i * CHUNK_SIZE;
            let end: usize = if n - pos > CHUNK_SIZE {
                pos + CHUNK_SIZE
            } else {
                n
            };
            let mut frame: Vec<u8> = Vec::with_capacity(CHUNK_SIZE + 1);
            frame.push(CONTROL_DATA);
            let mut j: usize = pos;
            while j < end
                invariant
                    pos <= j <= end <= n,
                    n == data@.len(),
                    frame@ == seq![CONTROL_DATA] + data@.subrange(pos as int, j as int),
                decreases end - j,
            {
                frame.push(data[j]);
                assert(seq![CONTROL_DATA] + data@.subrange(pos as int, j + 1) =~= frame@);
                j = j + 1;
            }
            assert(frame@ =~= data_frame(data@, i as int));
            let r = self.write_frame(frame.as_slice());
            if r.is_err() {
                assert(self.sent() =~= start + failed_at(address, data_frames(data@), i as int));
                return r;
            }
            assert(acked_writes(address, data_frames(data@).take(i + 1)) =~= acked_writes(
                address,
                data_frames(data@).take(i as int),
            ).push((address, frame@, true)));
            i = i + 1;
        }
        assert(data_frames(data@).take(count as int) =~= data_frames(data@));
        Ok(())
    }
}

} // verus!
