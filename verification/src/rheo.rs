//! The MCP45HVX1 digital rheostat on the I2C bus: command bytes, the frames that
//! are sent for each operation on wiper 0, and what a read reply holds.
use vstd::prelude::*;

verus! {

/// 7-bit I2C address of the rheostat.
pub const RHEO_ADDR: u8 = 0b0101111;

/// Command bits of a read.
pub const RHEO_READ: u8 = 0b11;

/// Command bits of a write.
pub const RHEO_WRITE: u8 = 0b00;

/// Command bits of an increment.
pub const RHEO_INCREMENT: u8 = 0b01;

/// Command bits of a decrement.
pub const RHEO_DECREMENT: u8 = 0b10;

/// Memory address of the volatile wiper 0 register.
pub const RHEO_VOLATILE_WIPER0_ADDR: u8 = 0x00;

/// Memory address of the non-volatile wiper 0 register.
pub const RHEO_NONVOLATILE_WIPER0_ADDR: u8 = 0x02;

/// The command byte for a memory address and a command: the address in bits 7..4,
/// the command in bits 3..2, bits 1..0 clear.
pub open spec fn command_byte_spec(mem_addr: u8, command: u8) -> int {
    mem_addr * 16 + command * 4
}

/// Builds the command byte `mem_addr << 4 | command << 2`.
pub fn command_byte(mem_addr: u8, command: u8) -> (byte: u8)
    requires
        mem_addr < 16,
        command < 4,
    ensures
        byte == command_byte_spec(mem_addr, command),
{
    let byte = (mem_addr << 4) | (command << 2);
    assert(byte == mem_addr * 16 + command * 4) by (bit_vector)
        requires
            mem_addr < 16,
            command < 4,
            byte == (mem_addr << 4) | (command << 2),
    ;
    byte
}

/// Distinct addresses or commands give distinct command bytes, and the byte gives
/// both back: the address in its high four bits, the command in bits 3..2.
pub proof fn lemma_command_byte_fields(mem_addr: u8, command: u8)
    requires
        mem_addr < 16,
        command < 4,
    ensures
        0 <= command_byte_spec(mem_addr, command) < 256,
        command_byte_spec(mem_addr, command) / 16 == mem_addr,
        (command_byte_spec(mem_addr, command) % 16) / 4 == command,
        command_byte_spec(mem_addr, command) % 4 == 0,
{
}

/// Two commands on memory addresses share a command byte only when they are the same.
pub proof fn lemma_command_byte_injective(a1: u8, c1: u8, a2: u8, c2: u8)
    requires
        a1 < 16,
        c1 < 4,
        a2 < 16,
        c2 < 4,
        command_byte_spec(a1, c1) == command_byte_spec(a2, c2),
    ensures
        a1 == a2,
        c1 == c2,
{
    lemma_command_byte_fields(a1, c1);
    lemma_command_byte_fields(a2, c2);
}

/// An operation on wiper 0 of the rheostat, each one I2C transaction.
#[derive(Clone, Copy, Debug, PartialEq, Eq, Structural)]
pub enum WiperCommand {
    /// Read the volatile wiper 0 register.
    Read,
    /// Move the wiper one step up.
    Increment,
    /// Move the wiper one step down.
    Decrement,
    /// Write a wiper position to the volatile wiper 0 register.
    Write(u8),
}

impl WiperCommand {
    /// The bytes written to the rheostat for this command.
    pub open spec fn frame_spec(self) -> Seq<u8> {
        match self {
            WiperCommand::Read => seq![
                command_byte_spec(RHEO_VOLATILE_WIPER0_ADDR, RHEO_READ) as u8,
            ],
            WiperCommand::Increment => seq![
                command_byte_spec(RHEO_VOLATILE_WIPER0_ADDR, RHEO_INCREMENT) as u8,
            ],
            WiperCommand::Decrement => seq![
                command_byte_spec(RHEO_VOLATILE_WIPER0_ADDR, RHEO_DECREMENT) as u8,
            ],
            WiperCommand::Write(data) => seq![
                command_byte_spec(RHEO_VOLATILE_WIPER0_ADDR, RHEO_WRITE) as u8,
                data,
            ],
        }
    }

    /// The number of bytes read back after the frame: two for a read, none otherwise.
    pub open spec fn reply_len_spec(self) -> nat {
        match self {
            WiperCommand::Read => 2,
            _ => 0,
        }
    }

    /// The bytes to write to the rheostat for this command.
    pub fn frame(&self) -> (bytes: Vec<u8>)
        ensures
            bytes@ == self.frame_spec(),
    {
        match self {
            WiperCommand::Read => vec![command_byte(RHEO_VOLATILE_WIPER0_ADDR, RHEO_READ)],
            WiperCommand::Increment => vec![
                command_byte(RHEO_VOLATILE_WIPER0_ADDR, RHEO_INCREMENT),
            ],
            WiperCommand::Decrement => vec![
                command_byte(RHEO_VOLATILE_WIPER0_ADDR, RHEO_DECREMENT),
            ],
            WiperCommand::Write(data) => vec![
                command_byte(RHEO_VOLATILE_WIPER0_ADDR, RHEO_WRITE),
                *data,
            ],
        }
    }

    /// How many bytes to read back after the frame.
    pub fn reply_len(&self) -> (n: usize)
        ensures
            n == self.reply_len_spec(),
    {
        match self {
            WiperCommand::Read => 2,
            _ => 0,
        }
    }
}

/// The frames on the wire: a read is `0x0C`, an increment `0x04`, a decrement `0x08`,
/// each one byte with a two-byte reply for the read only, and a write is `0x00`
/// followed by the data byte unchanged.
pub proof fn lemma_frames(data: u8)
    ensures
        WiperCommand::Read.frame_spec() == seq![0x0Cu8],
        WiperCommand::Increment.frame_spec() == seq![0x04u8],
        WiperCommand::Decrement.frame_spec() == seq![0x08u8],
        WiperCommand::Write(data).frame_spec().len() == 2,
        WiperCommand::Write(data).frame_spec()[0] == 0x00u8,
        WiperCommand::Write(data).frame_spec()[1] == data,
        WiperCommand::Write(data).frame_spec() == seq![0x00u8, data],
        WiperCommand::Read.reply_len_spec() == 2,
        WiperCommand::Increment.reply_len_spec() == 0,
        WiperCommand::Decrement.reply_len_spec() == 0,
        WiperCommand::Write(data).reply_len_spec() == 0,
{
    assert(WiperCommand::Read.frame_spec() =~= seq![0x0Cu8]);
    assert(WiperCommand::Increment.frame_spec() =~= seq![0x04u8]);
    assert(WiperCommand::Decrement.frame_spec() =~= seq![0x08u8]);
    assert(WiperCommand::Write(data).frame_spec() =~= seq![0x00u8, data]);
}

/// What a read of wiper 0 gives: the wiper position, which is the second byte that
/// the rheostat sends back, or `Err(())` when the transaction failed.
pub fn wiper_from_reply(outcome: Result<(), ()>, rx_buf: [u8; 2]) -> (r: Result<u8, ()>)
    ensures
        r == (match outcome {
            Ok(_) => Ok::<u8, ()>(rx_buf@[1]),
            Err(_) => Err::<u8, ()>(()),
        }),
{
    match outcome {
        Ok(_) => Ok(rx_buf[1]),
        Err(_) => Err(()),
    }
}

/// Resistance of the rheostat at a wiper position, in units of 1/128 Ω: the wiper
/// resistance of 75 Ω plus `position / 128` of the 10 kΩ track.
pub open spec fn resistance_128(wiper_position: int) -> int {
    75 * 128 + 10000 * wiper_position
}

/// Numerator of the amplifier gain `1 + 100 kΩ / R` over the denominator
/// `resistance_128(position)`, both in units of 1/128 Ω.
pub open spec fn gain_numerator(wiper_position: int) -> int {
    resistance_128(wiper_position) + 100000 * 128
}

/// The gain at position `a` exceeds the gain at position `b`.
pub open spec fn gain_exceeds(a: int, b: int) -> bool {
    gain_numerator(a) * resistance_128(b) > gain_numerator(b) * resistance_128(a)
}

/// The amplifier gain as an exact fraction `numerator / denominator`.
#[derive(Clone, Copy, Debug, PartialEq, Eq, Structural)]
pub struct GainRatio {
    pub numerator: u32,
    pub denominator: u32,
}

/// The gain `1 + 100 kΩ / (75 Ω + position / 128 * 10 kΩ)` that the instrumentation
/// amplifier has when the rheostat wiper stands at `wiper_position`.
pub fn gain_ratio(wiper_position: u8) -> (g: GainRatio)
    ensures
        g.denominator == resistance_128(wiper_position as int),
        g.numerator == gain_numerator(wiper_position as int),
        g.denominator == 9600 + 10000 * wiper_position,
        g.numerator == g.denominator + 12_800_000,
{
    let denominator: u32 = 9600 + 10000 * (wiper_position as u32);
    GainRatio { numerator: denominator + 12_800_000, denominator }
}

/// The gain for a wiper reading: the gain at the position read, or `Err(())` when the
/// read failed.
pub fn gain_from_reading(reading: Result<u8, ()>) -> (r: Result<GainRatio, ()>)
    ensures
        match reading {
            Ok(position) => r matches Ok(g) && g.denominator == resistance_128(position as int)
                && g.numerator == gain_numerator(position as int),
            Err(_) => r is Err,
        },
{
    match reading {
        Ok(position) => Ok(gain_ratio(position)),
        Err(_) => Err(()),
    }
}

/// The resistance is affine in the wiper position: 75 Ω (9600 in 1/128 Ω) at position
/// 0, and each step of the wiper adds 10000/128 Ω of the 10 kΩ track; the gain's
/// numerator adds the 100 kΩ feedback resistor (12 800 000 in 1/128 Ω).
pub proof fn lemma_resistance_affine(wiper_position: int)
    ensures
        resistance_128(0) == 9600,
        resistance_128(wiper_position + 1) == resistance_128(wiper_position) + 10000,
        resistance_128(wiper_position) == 9600 + 10000 * wiper_position,
        gain_numerator(wiper_position) == resistance_128(wiper_position) + 12_800_000,
{
}

/// Over the whole `u8` range the gain fraction is exactly
/// `(9600 + 10000 p + 12 800 000) / (9600 + 10000 p)`.
pub proof fn lemma_gain_fraction(wiper_position: u8)
    ensures
        resistance_128(wiper_position as int) == 9600 + 10000 * (wiper_position as int),
        gain_numerator(wiper_position as int) == 12_809_600 + 10000 * (wiper_position as int),
{
}

/// Moving the wiper up lowers the gain: a lower wiper position always gives a
/// strictly higher gain.
pub proof fn lemma_gain_decreases_with_position(lower: u8, higher: u8)
    requires
        lower < higher,
    ensures
        gain_exceeds(lower as int, higher as int),
{
    let a = lower as int;
    let b = higher as int;
    assert(gain_numerator(a) * resistance_128(b) - gain_numerator(b) * resistance_128(a)
        == 100000 * 128 * (resistance_128(b) - resistance_128(a))) by (nonlinear_arith);
    assert(100000 * 128 * (resistance_128(b) - resistance_128(a)) > 0) by (nonlinear_arith)
        requires
            a < b,
    ;
}

/// Over the positions 0 to 128 of the track the gain stays above 10 and at most 1335.
pub proof fn lemma_gain_range(wiper_position: u8)
    requires
        wiper_position <= 128,
    ensures
        10 * resistance_128(wiper_position as int) < gain_numerator(wiper_position as int),
        gain_numerator(wiper_position as int) <= 1335 * resistance_128(wiper_position as int),
{
}

} // verus!
