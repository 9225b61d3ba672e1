//! A register-level simulation of the expander chip behind a transport.
//!
//! `SimBus` implements the transport capabilities over a modelled register
//! file instead of hardware: a register write updates the register file, a
//! register read answers from it, and every completed exchange is recorded,
//! in order, so that callers can observe exactly which transactions a
//! driver operation issued. Failures can be injected to exercise the
//! driver's error propagation.

use vstd::prelude::*;

use crate::address::DeviceAddr;
use crate::command::CONFIGURATION_PORT_0;
use crate::command::CONFIGURATION_PORT_1;
use crate::command::POLARITY_INVERT_PORT_0;
use crate::command::POLARITY_INVERT_PORT_1;
use crate::command::READ_PORT_0;
use crate::command::READ_PORT_1;
use crate::command::WRITE_PORT_0;
use crate::command::WRITE_PORT_1;
use crate::driver::read_txn;
use crate::driver::write_txn;
use crate::driver::Tca9555;
use crate::transport::high_byte;
use crate::transport::lemma_word_of_ports;
use crate::transport::low_byte;
use crate::transport::word_from_ports;
use crate::transport::I2cBus;
use crate::transport::I2cWrite;
use crate::transport::I2cWriteRead;
use crate::transport::Transaction;

verus! {

/// The registers of the simulated chip, together with the logic level
/// externally driven on its pins. Bit n of each byte belongs to pin n of
/// the port.
#[derive(Copy, Clone, Debug, PartialEq, Eq, Structural)]
pub struct ChipState {
    /// Port-0 output register: the level driven on output-configured pins.
    pub out0: u8,
    /// Port-1 output register.
    pub out1: u8,
    /// Port-0 direction register: bit 0 = output mode, bit 1 = input mode.
    pub cfg0: u8,
    /// Port-1 direction register.
    pub cfg1: u8,
    /// Port-0 polarity inversion register: bit 1 inverts the sensed level.
    pub pol0: u8,
    /// Port-1 polarity inversion register.
    pub pol1: u8,
    /// Logic level externally driven on the port-0 pins.
    pub in0: u8,
    /// Logic level externally driven on the port-1 pins.
    pub in1: u8,
}

impl ChipState {
    /// The register file at power-on: all pins in input mode, output
    /// registers high, no polarity inversion, external lines low.
    pub open spec fn power_on() -> ChipState {
        ChipState {
            out0: 0xff,
            out1: 0xff,
            cfg0: 0xff,
            cfg1: 0xff,
            pol0: 0,
            pol1: 0,
            in0: 0,
            in1: 0,
        }
    }
}

/// The logic level a read of port 0 senses: the driven output level on
/// output-configured pins, the external line level on input-configured
/// pins, with polarity-inverted bits flipped.
pub open spec fn port_0_level(chip: ChipState) -> u8 {
    ((chip.out0 & !chip.cfg0) | (chip.in0 & chip.cfg0)) ^ chip.pol0
}

/// The logic level a read of port 1 senses.
pub open spec fn port_1_level(chip: ChipState) -> u8 {
    ((chip.out1 & !chip.cfg1) | (chip.in1 & chip.cfg1)) ^ chip.pol1
}

/// The register file after a write transaction carrying `data`: a
/// two-byte frame whose command byte selects a writable register stores
/// its value byte there; any other frame leaves the chip unchanged.
pub open spec fn spec_apply_write(chip: ChipState, data: Seq<u8>) -> ChipState {
    if data.len() == 2 {
        let command = data[0];
        let value = data[1];
        if command == WRITE_PORT_0 {
            ChipState { out0: value, ..chip }
        } else if command == WRITE_PORT_1 {
            ChipState { out1: value, ..chip }
        } else if command == POLARITY_INVERT_PORT_0 {
            ChipState { pol0: value, ..chip }
        } else if command == POLARITY_INVERT_PORT_1 {
            ChipState { pol1: value, ..chip }
        } else if command == CONFIGURATION_PORT_0 {
            ChipState { cfg0: value, ..chip }
        } else if command == CONFIGURATION_PORT_1 {
            ChipState { cfg1: value, ..chip }
        } else {
            chip
        }
    } else {
        chip
    }
}

/// The byte the chip answers to a write-then-read transaction carrying
/// `data`: a one-byte frame selecting a register reads it back, the two
/// port registers reading the sensed pin levels; any other frame reads 0.
pub open spec fn spec_read_response(chip: ChipState, data: Seq<u8>) -> u8 {
    if data.len() == 1 {
        let command = data[0];
        if command == READ_PORT_0 {
            port_0_level(chip)
        } else if command == READ_PORT_1 {
            port_1_level(chip)
        } else if command == WRITE_PORT_0 {
            chip.out0
        } else if command == WRITE_PORT_1 {
            chip.out1
        } else if command == POLARITY_INVERT_PORT_0 {
            chip.pol0
        } else if command == POLARITY_INVERT_PORT_1 {
            chip.pol1
        } else if command == CONFIGURATION_PORT_0 {
            chip.cfg0
        } else if command == CONFIGURATION_PORT_1 {
            chip.cfg1
        } else {
            0
        }
    } else {
        0
    }
}

/// One recorded exchange: the slave address, the bytes sent, and the byte
/// read back where the exchange was a combined write-then-read.
#[derive(Debug)]
pub struct Frame {
    /// The slave address the exchange was directed at.
    pub addr: u8,
    /// The bytes sent to the device.
    pub data: Vec<u8>,
    /// The byte read back, where the exchange read one.
    pub response: Option<u8>,
}

impl View for Frame {
    type V = Transaction;

    open spec fn view(&self) -> Transaction {
        match self.response {
            Some(b) => Transaction::WriteRead { addr: self.addr, data: self.data@, response: b },
            None => Transaction::Write { addr: self.addr, data: self.data@ },
        }
    }
}

/// The transaction log that a sequence of recorded frames stands for.
pub open spec fn frames_log(frames: Seq<Frame>) -> Seq<Transaction> {
    frames.map_values(|f: Frame| f@)
}

/// Recording one more frame appends exactly its transaction to the log.
proof fn lemma_frames_log_push(frames: Seq<Frame>, f: Frame)
    ensures
        frames_log(frames.push(f)) == frames_log(frames).push(f@),
{
    assert(frames_log(frames.push(f)) =~= frames_log(frames).push(f@));
}

/// Whether two chip states hold the same six registers, whatever the
/// externally driven pin levels are.
spec fn regs_eq(a: ChipState, b: ChipState) -> bool {
    a.out0 == b.out0 && a.out1 == b.out1 && a.cfg0 == b.cfg0 && a.cfg1 == b.cfg1 && a.pol0
        == b.pol0 && a.pol1 == b.pol1
}

/// The register file that a recorded history leaves behind: every write
/// frame applied in order to the starting state. Read frames change
/// nothing, and failed exchanges are never recorded.
spec fn replay_writes(base: ChipState, frames: Seq<Frame>) -> ChipState
    decreases frames.len(),
{
    if frames.len() == 0 {
        base
    } else {
        let prev = replay_writes(base, frames.drop_last());
        let f = frames.last();
        if f.response is None {
            spec_apply_write(prev, f.data@)
        } else {
            prev
        }
    }
}

/// A chip state with its externally driven pin levels replaced.
spec fn with_inputs(chip: ChipState, w0: u8, w1: u8) -> ChipState {
    ChipState { in0: w0, in1: w1, ..chip }
}

/// Whether the response recorded in frame `i` is what the chip's register
/// file, replayed up to that frame, answers to the frame's request — for
/// some external pin levels, since the world outside the chip may drive
/// the pins differently at any time.
spec fn response_consistent(base: ChipState, frames: Seq<Frame>, i: int) -> bool {
    frames[i].response matches Some(b) ==> exists|w0: u8, w1: u8|
        b == spec_read_response(
            #[trigger] with_inputs(replay_writes(base, frames.take(i)), w0, w1),
            frames[i].data@,
        )
}

/// Whether every recorded response is consistent with the replayed
/// register file at its point in the history.
spec fn responses_ok(base: ChipState, frames: Seq<Frame>) -> bool {
    forall|i: int| 0 <= i < frames.len() ==> #[trigger] response_consistent(base, frames, i)
}

/// Recording a write frame replays to applying it to the state so far.
proof fn lemma_replay_push_write(base: ChipState, frames: Seq<Frame>, f: Frame)
    requires
        f.response is None,
    ensures
        replay_writes(base, frames.push(f)) == spec_apply_write(
            replay_writes(base, frames),
            f.data@,
        ),
{
    assert(frames.push(f).drop_last() =~= frames);
}

/// Recording a read frame leaves the replayed register file unchanged.
proof fn lemma_replay_push_read(base: ChipState, frames: Seq<Frame>, f: Frame)
    requires
        f.response is Some,
    ensures
        replay_writes(base, frames.push(f)) == replay_writes(base, frames),
{
    assert(frames.push(f).drop_last() =~= frames);
}

/// A history stays consistent when one more frame is recorded, provided
/// the new frame's own response is consistent with the state so far.
proof fn lemma_responses_ok_push(base: ChipState, frames: Seq<Frame>, f: Frame)
    requires
        responses_ok(base, frames),
        response_consistent(base, frames.push(f), frames.len() as int),
    ensures
        responses_ok(base, frames.push(f)),
{
    let pushed = frames.push(f);
    assert forall|i: int| 0 <= i < pushed.len() implies #[trigger] response_consistent(
        base,
        pushed,
        i,
    ) by {
        if i < frames.len() {
            assert(pushed.take(i) =~= frames.take(i));
            assert(response_consistent(base, frames, i));
        }
    }
}

/// A copy of a byte vector, element by element.
fn clone_bytes(v: &Vec<u8>) -> (r: Vec<u8>)
    ensures
        r@ == v@,
{
    let mut r: Vec<u8> = Vec::new();
    let mut i: usize = 0;
    while i < v.len()
        invariant
            i <= v@.len(),
            r@ == v@.take(i as int),
        decreases v@.len() - i,
    {
        r.push(v[i]);
        proof {
            assert(v@.take(i as int).push(v@[i as int]) =~= v@.take(i as int + 1));
        }
        i = i + 1;
    }
    proof {
        assert(v@.take(v@.len() as int) =~= v@);
    }
    r
}

/// Applies a write transaction to the register file.
fn apply_register_write(chip: ChipState, data: &Vec<u8>) -> (r: ChipState)
    ensures
        r == spec_apply_write(chip, data@),
{
    if data.len() == 2 {
        let command = data[0];
        let value = data[1];
        if command == WRITE_PORT_0 {
            ChipState { out0: value, ..chip }
        } else if command == WRITE_PORT_1 {
            ChipState { out1: value, ..chip }
        } else if command == POLARITY_INVERT_PORT_0 {
            ChipState { pol0: value, ..chip }
        } else if command == POLARITY_INVERT_PORT_1 {
            ChipState { pol1: value, ..chip }
        } else if command == CONFIGURATION_PORT_0 {
            ChipState { cfg0: value, ..chip }
        } else if command == CONFIGURATION_PORT_1 {
            ChipState { cfg1: value, ..chip }
        } else {
            chip
        }
    } else {
        chip
    }
}

/// Answers a write-then-read transaction from the register file.
fn read_register_level(chip: ChipState, data: &Vec<u8>) -> (r: u8)
    ensures
        r == spec_read_response(chip, data@),
{
    if data.len() == 1 {
        let command = data[0];
        if command == READ_PORT_0 {
            ((chip.out0 & !chip.cfg0) | (chip.in0 & chip.cfg0)) ^ chip.pol0
        } else if command == READ_PORT_1 {
            ((chip.out1 & !chip.cfg1) | (chip.in1 & chip.cfg1)) ^ chip.pol1
        } else if command == WRITE_PORT_0 {
            chip.out0
        } else if command == WRITE_PORT_1 {
            chip.out1
        } else if command == POLARITY_INVERT_PORT_0 {
            chip.pol0
        } else if command == POLARITY_INVERT_PORT_1 {
            chip.pol1
        } else if command == CONFIGURATION_PORT_0 {
            chip.cfg0
        } else if command == CONFIGURATION_PORT_1 {
            chip.cfg1
        } else {
            0
        }
    } else {
        0
    }
}

/// A simulated chip on a simulated bus.
///
/// Exchanges directed at any other slave address are not acknowledged and
/// fail. A budget of successful exchanges can be set to inject failures:
/// once it is used up, every exchange fails with the configured error
/// code, leaving the register file and the transaction log untouched.
pub struct SimBus {
    address: u8,
    chip: ChipState,
    remaining_ok: u64,
    err_code: u8,
    frames: Vec<Frame>,
    errs: Ghost<Seq<u8>>,
    base: Ghost<ChipState>,
}

impl SimBus {
    /// Always true of a simulated bus: its register file is the recorded
    /// write frames replayed over the state it started from, and every
    /// recorded response is what that replayed register file answers.
    /// This is what lets a caller of the driver conclude, from the
    /// transaction log alone, what a read against the simulated chip
    /// returned.
    #[verifier::type_invariant]
    spec fn wf(self) -> bool {
        regs_eq(self.chip, replay_writes(self.base@, self.frames@)) && responses_ok(
            self.base@,
            self.frames@,
        )
    }
    /// The slave address the simulated chip acknowledges.
    pub closed spec fn sim_address(self) -> u8 {
        self.address
    }

    /// The simulated register file and pin levels.
    pub closed spec fn chip_state(self) -> ChipState {
        self.chip
    }

    /// How many more exchanges will succeed before injected failure.
    pub closed spec fn budget(self) -> u64 {
        self.remaining_ok
    }

    /// The error value a failed exchange reports.
    pub closed spec fn fail_code(self) -> u8 {
        self.err_code
    }

    /// A fresh chip at power-on listening at `address`, with an unlimited
    /// budget of successful exchanges and error code 0.
    pub fn new(address: u8) -> (r: SimBus)
        ensures
            r.sim_address() == address,
            r.chip_state() == ChipState::power_on(),
            r.log() == Seq::<Transaction>::empty(),
            r.error_log() == Seq::<u8>::empty(),
            r.budget() == u64::MAX,
            r.fail_code() == 0,
    {
        let r = SimBus {
            address,
            chip: ChipState {
                out0: 0xff,
                out1: 0xff,
                cfg0: 0xff,
                cfg1: 0xff,
                pol0: 0,
                pol1: 0,
                in0: 0,
                in1: 0,
            },
            remaining_ok: u64::MAX,
            err_code: 0,
            frames: Vec::new(),
            errs: Ghost(Seq::empty()),
            base: Ghost(ChipState::power_on()),
        };
        proof {
            assert(frames_log(r.frames@) =~= Seq::<Transaction>::empty());
        }
        r
    }

    /// Drive the external pin levels of both ports, as the world outside
    /// the chip would. No bus transaction takes place.
    pub fn set_inputs(&mut self, in0: u8, in1: u8)
        ensures
            final(self).chip_state() == (ChipState { in0, in1, ..old(self).chip_state() }),
            final(self).log() == old(self).log(),
            final(self).error_log() == old(self).error_log(),
            final(self).sim_address() == old(self).sim_address(),
            final(self).budget() == old(self).budget(),
            final(self).fail_code() == old(self).fail_code(),
    {
        proof {
            use_type_invariant(&*self);
        }
        self.chip = ChipState { in0, in1, ..self.chip };
    }

    /// Let the next `n` exchanges succeed and every one after them fail,
    /// reporting `code`.
    pub fn fail_after(&mut self, n: u64, code: u8)
        ensures
            final(self).budget() == n,
            final(self).fail_code() == code,
            final(self).chip_state() == old(self).chip_state(),
            final(self).log() == old(self).log(),
            final(self).error_log() == old(self).error_log(),
            final(self).sim_address() == old(self).sim_address(),
    {
        proof {
            use_type_invariant(&*self);
        }
        self.remaining_ok = n;
        self.err_code = code;
    }

    /// The exchanges recorded so far, oldest first.
    pub fn frames(&self) -> (r: &Vec<Frame>)
        ensures
            frames_log(r@) == self.log(),
    {
        &self.frames
    }

    /// The simulated register file and pin levels, for inspection.
    pub fn chip(&self) -> (r: ChipState)
        ensures
            r == self.chip_state(),
    {
        self.chip
    }

    /// A write exchange against the simulated chip: succeeds exactly when
    /// the budget is not used up and the address is the chip's, updates
    /// the register file by the frame, and records the exchange. A failed
    /// exchange leaves the chip and the transaction log unchanged and
    /// reports the configured error code, recording it in the error log.
    pub fn transact_write(&mut self, address: u8, bytes: &Vec<u8>) -> (r: Result<(), u8>)
        ensures
            final(self).sim_address() == old(self).sim_address(),
            final(self).fail_code() == old(self).fail_code(),
            r is Ok <==> old(self).budget() > 0 && address == old(self).sim_address(),
            r is Ok ==> final(self).chip_state() == spec_apply_write(
                old(self).chip_state(),
                bytes@,
            ) && final(self).log() == old(self).log().push(
                Transaction::Write { addr: address, data: bytes@ },
            ) && final(self).budget() == old(self).budget() - 1 && final(self).error_log() == old(
                self).error_log(),
            r matches Err(e) ==> e == old(self).fail_code() && final(self).chip_state() == old(
                self).chip_state() && final(self).log() == old(self).log() && final(self).budget()
                == old(self).budget() && final(self).error_log() == old(self).error_log().push(e),
    {
        proof {
            use_type_invariant(&*self);
        }
        if self.remaining_ok == 0 || address != self.address {
            self.errs = Ghost(self.errs@.push(self.err_code));
            return Err(self.err_code);
        }
        let new_chip = apply_register_write(self.chip, bytes);
        let data = clone_bytes(bytes);
        let frame = Frame { addr: address, data, response: None };
        let ghost gframe = frame;
        proof {
            lemma_frames_log_push(self.frames@, gframe);
            lemma_replay_push_write(self.base@, self.frames@, gframe);
            assert(response_consistent(
                self.base@,
                self.frames@.push(gframe),
                self.frames@.len() as int,
            ));
            lemma_responses_ok_push(self.base@, self.frames@, gframe);
            assert(gframe@ == Transaction::Write { addr: address, data: bytes@ });
        }
        let mut taken = SimBus {
            address: 0,
            chip: ChipState {
                out0: 0xff,
                out1: 0xff,
                cfg0: 0xff,
                cfg1: 0xff,
                pol0: 0,
                pol1: 0,
                in0: 0,
                in1: 0,
            },
            remaining_ok: 0,
            err_code: 0,
            frames: Vec::new(),
            errs: Ghost(Seq::empty()),
            base: Ghost(ChipState::power_on()),
        };
        core::mem::swap(self, &mut taken);
        let SimBus { address: dev_addr, chip: _, remaining_ok, err_code, mut frames, errs, base } =
            taken;
        frames.push(frame);
        *self = SimBus {
            address: dev_addr,
            chip: new_chip,
            remaining_ok: remaining_ok - 1,
            err_code,
            frames,
            errs,
            base,
        };
        Ok(())
    }

    /// A write-then-read exchange against the simulated chip: succeeds
    /// exactly when the budget is not used up and the address is the
    /// chip's, answers from the register file, and records the exchange
    /// with its response. A failed exchange leaves the chip and the
    /// transaction log unchanged and reports the configured error code,
    /// recording it in the error log.
    pub fn transact_write_read(&mut self, address: u8, bytes: &Vec<u8>) -> (r: Result<u8, u8>)
        ensures
            final(self).sim_address() == old(self).sim_address(),
            final(self).fail_code() == old(self).fail_code(),
            r is Ok <==> old(self).budget() > 0 && address == old(self).sim_address(),
            r matches Ok(b) ==> b == spec_read_response(old(self).chip_state(), bytes@) && final(self)
                .chip_state() == old(self).chip_state() && final(self).log() == old(self).log().push(
                Transaction::WriteRead { addr: address, data: bytes@, response: b },
            ) && final(self).budget() == old(self).budget() - 1 && final(self).error_log() == old(
                self).error_log(),
            r matches Err(e) ==> e == old(self).fail_code() && final(self).chip_state() == old(
                self).chip_state() && final(self).log() == old(self).log() && final(self).budget()
                == old(self).budget() && final(self).error_log() == old(self).error_log().push(e),
    {
        proof {
            use_type_invariant(&*self);
        }
        if self.remaining_ok == 0 || address != self.address {
            self.errs = Ghost(self.errs@.push(self.err_code));
            return Err(self.err_code);
        }
        let response = read_register_level(self.chip, bytes);
        let data = clone_bytes(bytes);
        let frame = Frame { addr: address, data, response: Some(response) };
        let ghost gframe = frame;
        proof {
            lemma_frames_log_push(self.frames@, gframe);
            lemma_replay_push_read(self.base@, self.frames@, gframe);
            let st = replay_writes(self.base@, self.frames@);
            assert(with_inputs(st, self.chip.in0, self.chip.in1) == self.chip);
            assert(response == spec_read_response(
                with_inputs(st, self.chip.in0, self.chip.in1),
                gframe.data@,
            ));
            assert(self.frames@.push(gframe).take(self.frames@.len() as int) =~= self.frames@);
            assert(response_consistent(
                self.base@,
                self.frames@.push(gframe),
                self.frames@.len() as int,
            ));
            lemma_responses_ok_push(self.base@, self.frames@, gframe);
            assert(gframe@ == Transaction::WriteRead {
                addr: address,
                data: bytes@,
                response: response,
            });
        }
        let chip = self.chip;
        let mut taken = SimBus {
            address: 0,
            chip: ChipState {
                out0: 0xff,
                out1: 0xff,
                cfg0: 0xff,
                cfg1: 0xff,
                pol0: 0,
                pol1: 0,
                in0: 0,
                in1: 0,
            },
            remaining_ok: 0,
            err_code: 0,
            frames: Vec::new(),
            errs: Ghost(Seq::empty()),
            base: Ghost(ChipState::power_on()),
        };
        core::mem::swap(self, &mut taken);
        let SimBus { address: dev_addr, chip: _, remaining_ok, err_code, mut frames, errs, base } =
            taken;
        frames.push(frame);
        *self = SimBus {
            address: dev_addr,
            chip,
            remaining_ok: remaining_ok - 1,
            err_code,
            frames,
            errs,
            base,
        };
        Ok(response)
    }
}

impl I2cBus for SimBus {
    type BusError = u8;

    closed spec fn log(&self) -> Seq<Transaction> {
        frames_log(self.frames@)
    }

    closed spec fn error_log(&self) -> Seq<u8> {
        self.errs@
    }
}

impl I2cWrite for SimBus {
    fn bus_write(&mut self, address: u8, bytes: &Vec<u8>) -> (r: Result<(), u8>) {
        self.transact_write(address, bytes)
    }
}

impl I2cWriteRead for SimBus {
    fn bus_write_read_byte(&mut self, address: u8, bytes: &Vec<u8>) -> (r: Result<u8, u8>) {
        self.transact_write_read(address, bytes)
    }
}

/// Round trip: on a chip whose two configuration registers select
/// all-output mode and whose polarity inversion registers are clear,
/// writing a 16-bit word port by port and then reading both ports back
/// yields the word that was written.
pub proof fn lemma_write_read_round_trip(chip: ChipState, v: u16)
    requires
        chip.cfg0 == 0,
        chip.cfg1 == 0,
        chip.pol0 == 0,
        chip.pol1 == 0,
    ensures
        ({
            let written = spec_apply_write(
                spec_apply_write(chip, seq![WRITE_PORT_0, low_byte(v)]),
                seq![WRITE_PORT_1, high_byte(v)],
            );
            word_from_ports(
                spec_read_response(written, seq![READ_PORT_1]),
                spec_read_response(written, seq![READ_PORT_0]),
            ) == v
        }),
{
    let written = spec_apply_write(
        spec_apply_write(chip, seq![WRITE_PORT_0, low_byte(v)]),
        seq![WRITE_PORT_1, high_byte(v)],
    );
    assert(written.out0 == low_byte(v) && written.out1 == high_byte(v) && written.cfg0 == 0
        && written.cfg1 == 0 && written.pol0 == 0 && written.pol1 == 0);
    let x0 = written.out0;
    let y0 = written.in0;
    assert(((x0 & !0u8) | (y0 & 0u8)) ^ 0u8 == x0) by (bit_vector);
    let x1 = written.out1;
    let y1 = written.in1;
    assert(((x1 & !0u8) | (y1 & 0u8)) ^ 0u8 == x1) by (bit_vector);
    assert(spec_read_response(written, seq![READ_PORT_0]) == low_byte(v));
    assert(spec_read_response(written, seq![READ_PORT_1]) == high_byte(v));
    lemma_word_of_ports(v);
}

/// The round trip observed end to end through the driver's contracts: a
/// fresh simulated chip is configured all-output with no polarity
/// inversion, a word is written port by port and both ports are read
/// back. The returned word provably equals the word written, from the
/// operations' contracts and the simulated bus's invariant alone.
pub fn driver_round_trip(value: u16) -> (r: Option<u16>)
    ensures
        r matches Some(w) ==> w == value,
{
    let ghost sel = DeviceAddr::Default;
    let sim = SimBus::new(0x20);
    let mut dev = Tca9555::new(sim, DeviceAddr::Default);
    if dev.set_port_0_direction(0x00).is_err() {
        return None;
    }
    if dev.set_port_1_direction(0x00).is_err() {
        return None;
    }
    if dev.set_port_0_polarity_invert(0x00).is_err() {
        return None;
    }
    if dev.set_port_1_polarity_invert(0x00).is_err() {
        return None;
    }
    if dev.write_all(value).is_err() {
        return None;
    }
    let res = dev.read_all();
    let sim = dev.release();
    match res {
        Ok(w) => {
            proof {
                use_type_invariant(&sim);
                let fr = sim.frames@;
                let lg = sim.log();
                assert(lg == frames_log(fr));
                assert(lg.len() == 8);
                assert(fr.len() == 8);
                assert(fr[0]@ == lg[0] && fr[1]@ == lg[1] && fr[2]@ == lg[2] && fr[3]@ == lg[3]
                    && fr[4]@ == lg[4] && fr[5]@ == lg[5] && fr[6]@ == lg[6] && fr[7]@ == lg[7]);
                assert(fr[0]@ == write_txn(sel, CONFIGURATION_PORT_0, 0x00));
                assert(fr[1]@ == write_txn(sel, CONFIGURATION_PORT_1, 0x00));
                assert(fr[2]@ == write_txn(sel, POLARITY_INVERT_PORT_0, 0x00));
                assert(fr[3]@ == write_txn(sel, POLARITY_INVERT_PORT_1, 0x00));
                assert(fr[4]@ == write_txn(sel, WRITE_PORT_0, low_byte(value)));
                assert(fr[5]@ == write_txn(sel, WRITE_PORT_1, high_byte(value)));
                assert(fr[6]@ == read_txn(sel, READ_PORT_0, low_byte(w)));
                assert(fr[7]@ == read_txn(sel, READ_PORT_1, high_byte(w)));
                assert(fr[0].response is None && fr[0].data@ == seq![CONFIGURATION_PORT_0, 0x00u8]);
                assert(fr[1].response is None && fr[1].data@ == seq![CONFIGURATION_PORT_1, 0x00u8]);
                assert(fr[2].response is None && fr[2].data@ == seq![
                    POLARITY_INVERT_PORT_0,
                    0x00u8,
                ]);
                assert(fr[3].response is None && fr[3].data@ == seq![
                    POLARITY_INVERT_PORT_1,
                    0x00u8,
                ]);
                assert(fr[4].response is None && fr[4].data@ == seq![
                    WRITE_PORT_0,
                    low_byte(value),
                ]);
                assert(fr[5].response is None && fr[5].data@ == seq![
                    WRITE_PORT_1,
                    high_byte(value),
                ]);
                assert(fr[6].response == Some(low_byte(w)) && fr[6].data@ == seq![READ_PORT_0]);
                assert(fr[7].response == Some(high_byte(w)) && fr[7].data@ == seq![READ_PORT_1]);
                let base = sim.base@;
                assert(fr.take(0) =~= Seq::<Frame>::empty());
                assert(replay_writes(base, fr.take(0)) == base);
                assert(fr.take(1).drop_last() =~= fr.take(0));
                assert(fr.take(1).last() == fr[0]);
                let s1 = replay_writes(base, fr.take(1));
                assert(s1 == spec_apply_write(base, fr[0].data@));
                assert(fr.take(2).drop_last() =~= fr.take(1));
                assert(fr.take(2).last() == fr[1]);
                let s2 = replay_writes(base, fr.take(2));
                assert(s2 == spec_apply_write(s1, fr[1].data@));
                assert(fr.take(3).drop_last() =~= fr.take(2));
                assert(fr.take(3).last() == fr[2]);
                let s3 = replay_writes(base, fr.take(3));
                assert(s3 == spec_apply_write(s2, fr[2].data@));
                assert(fr.take(4).drop_last() =~= fr.take(3));
                assert(fr.take(4).last() == fr[3]);
                let s4 = replay_writes(base, fr.take(4));
                assert(s4 == spec_apply_write(s3, fr[3].data@));
                assert(fr.take(5).drop_last() =~= fr.take(4));
                assert(fr.take(5).last() == fr[4]);
                let s5 = replay_writes(base, fr.take(5));
                assert(s5 == spec_apply_write(s4, fr[4].data@));
                assert(fr.take(6).drop_last() =~= fr.take(5));
                assert(fr.take(6).last() == fr[5]);
                let st = replay_writes(base, fr.take(6));
                assert(st == spec_apply_write(s5, fr[5].data@));
                assert(st.cfg0 == 0 && st.cfg1 == 0 && st.pol0 == 0 && st.pol1 == 0 && st.out0
                    == low_byte(value) && st.out1 == high_byte(value));
                assert(fr.take(7).drop_last() =~= fr.take(6));
                assert(fr.take(7).last() == fr[6]);
                assert(replay_writes(base, fr.take(7)) == st);
                assert(response_consistent(base, fr, 6));
                let (w0, w1): (u8, u8) = choose|w0: u8, w1: u8|
                    low_byte(w) == spec_read_response(
                        #[trigger] with_inputs(replay_writes(base, fr.take(6)), w0, w1),
                        fr[6].data@,
                    );
                let inner0 = with_inputs(st, w0, w1);
                assert(spec_read_response(inner0, fr[6].data@) == port_0_level(inner0));
                let x0 = inner0.out0;
                let y0 = inner0.in0;
                assert(((x0 & !0u8) | (y0 & 0u8)) ^ 0u8 == x0) by (bit_vector);
                assert(low_byte(w) == low_byte(value));
                assert(response_consistent(base, fr, 7));
                let (v0, v1): (u8, u8) = choose|v0: u8, v1: u8|
                    high_byte(w) == spec_read_response(
                        #[trigger] with_inputs(replay_writes(base, fr.take(7)), v0, v1),
                        fr[7].data@,
                    );
                let inner1 = with_inputs(st, v0, v1);
                assert(spec_read_response(inner1, fr[7].data@) == port_1_level(inner1));
                let x1 = inner1.out1;
                let y1 = inner1.in1;
                assert(((x1 & !0u8) | (y1 & 0u8)) ^ 0u8 == x1) by (bit_vector);
                assert(high_byte(w) == high_byte(value));
                lemma_word_of_ports(w);
                lemma_word_of_ports(value);
                assert(w == value);
            }
            Some(w)
        },
        Err(_) => None,
    }
}

} // verus!
