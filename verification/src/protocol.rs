use vstd::prelude::*;

verus! {

/// Factory-assigned bus address of the chip.
pub const DEVICE_ADDRESS: u8 = 0x54;

/// Shutdown register: 0 = software shutdown, 1 = normal operation.
pub const SHUTDOWN_REGISTER: u8 = 0x00;

/// First of the 18 per-channel brightness registers (0x01 ..= 0x12).
pub const BRIGHTNESS_BASE: u8 = 0x01;

/// First of the three enable-bitmap registers (0x13 ..= 0x15), six
/// channels per register.
pub const ENABLE_BASE: u8 = 0x13;

/// Writing any value here makes the chip apply pending brightness and
/// enable values together.
pub const UPDATE_REGISTER: u8 = 0x16;

/// Writing any value here restores the power-on defaults.
pub const RESET_REGISTER: u8 = 0x17;

/// Number of LED channels the chip drives.
pub const CHANNEL_COUNT: usize = 18;

/// Longest payload one buffered register write can carry: the 18
/// brightness registers, the three enable registers and the update
/// register, written back to back.
pub const MAX_PAYLOAD: usize = 22;

/// One transaction on the bus: the device address and the bytes sent,
/// which are the target register followed by the payload.
pub open spec fn bus_write(data: Seq<u8>) -> (u8, Seq<u8>) {
    (DEVICE_ADDRESS, data)
}

/// Brightness register of `channel`.
pub open spec fn brightness_register(channel: int) -> u8 {
    (0x01 + channel) as u8
}

/// Enable-bitmap register that carries `channel`'s enable bit: the
/// block base plus one register per six channels.
pub open spec fn enable_register(channel: int) -> u8 {
    (0x13 + channel / 6) as u8
}

/// Bit position of `channel` inside its enable-bitmap register.
///
/// The chip's layout pairs `register = base + channel / 6` with
/// `bit = (channel - 1) mod 6`, one off from the register formula; the
/// subtraction wraps, so channel 0 lands on bit 5. The asymmetry is kept
/// here exactly as the chip defines it.
pub open spec fn enable_bit(channel: int) -> int {
    (channel + 5) % 6
}

/// Single-bit byte written to `channel`'s enable register. It replaces
/// the register's whole six-bit group, so enabling one channel clears
/// the enable bits of the other five channels of the same group.
pub open spec fn enable_mask(channel: int) -> u8 {
    1u8 << (enable_bit(channel) as u8)
}

/// The write that commits pending brightness and enable values.
pub open spec fn update_write() -> (u8, Seq<u8>) {
    bus_write(seq![UPDATE_REGISTER, 0u8])
}

/// Bus writes of `enable_device`: shutdown register set to normal
/// operation.
pub open spec fn enable_device_writes() -> Seq<(u8, Seq<u8>)> {
    seq![bus_write(seq![SHUTDOWN_REGISTER, 1u8])]
}

/// Bus writes of `shutdown_device`: shutdown register set to shutdown.
pub open spec fn shutdown_device_writes() -> Seq<(u8, Seq<u8>)> {
    seq![bus_write(seq![SHUTDOWN_REGISTER, 0u8])]
}

/// Bus writes of `enable_channel`: the channel's enable register set to
/// the channel's single-bit mask, then the update write.
pub open spec fn enable_channel_writes(channel: int) -> Seq<(u8, Seq<u8>)> {
    seq![bus_write(seq![enable_register(channel), enable_mask(channel)]), update_write()]
}

/// Bus writes of `enable_all`: all three enable registers set to all
/// six bits in one payload, then the update write.
pub open spec fn enable_all_writes() -> Seq<(u8, Seq<u8>)> {
    seq![bus_write(seq![ENABLE_BASE, 0x3fu8, 0x3fu8, 0x3fu8]), update_write()]
}

/// Bus writes of `set`: the channel's brightness register set to the
/// given value, then the update write.
pub open spec fn set_writes(channel: int, brightness: u8) -> Seq<(u8, Seq<u8>)> {
    seq![bus_write(seq![brightness_register(channel), brightness]), update_write()]
}

/// Bus writes of `set_many`: the brightness registers from
/// `start` onward set to `values` in one payload, then the update write.
pub open spec fn set_many_writes(start: int, values: Seq<u8>) -> Seq<(u8, Seq<u8>)> {
    seq![bus_write(seq![brightness_register(start)] + values), update_write()]
}

/// The single bus write of `set_all`: all 18 brightness registers, the
/// three enable registers at all six bits, and the update trigger, in
/// one transaction.
pub open spec fn set_all_writes(values: Seq<u8>) -> Seq<(u8, Seq<u8>)> {
    seq![bus_write(seq![BRIGHTNESS_BASE] + values + seq![0x3fu8, 0x3fu8, 0x3fu8, 0u8])]
}

/// The single bus write of `reset`: the reset register.
pub open spec fn reset_writes() -> Seq<(u8, Seq<u8>)> {
    seq![bus_write(seq![RESET_REGISTER, 0u8])]
}

/// The transactions that a list of encoded frames stands for, each
/// frame addressed to the chip.
pub open spec fn frames_view(frames: Seq<Vec<u8>>) -> Seq<(u8, Seq<u8>)> {
    frames.map_values(|f: Vec<u8>| bus_write(f@))
}

/// Enable-bitmap register of `channel`, as an executable computation.
pub fn enable_control_register(channel: usize) -> (r: u8)
    requires
        channel < CHANNEL_COUNT,
    ensures
        r == enable_register(channel as int),
{
    0x13 + (channel as u8) / 6
}

/// Single-bit enable mask of `channel`, as an executable computation.
pub fn enable_channel_mask(channel: usize) -> (r: u8)
    requires
        channel < CHANNEL_COUNT,
    ensures
        r == enable_mask(channel as int),
{
    let bit: u8 = ((channel + 5) % 6) as u8;
    1u8 << bit
}

/// A two-byte frame: a register address and a one-byte payload.
fn frame2(register: u8, value: u8) -> (r: Vec<u8>)
    ensures
        r@ == seq![register, value],
{
    let mut r: Vec<u8> = Vec::new();
    r.push(register);
    r.push(value);
    proof {
        assert(r@ =~= seq![register, value]);
    }
    r
}

/// The frame that commits pending values: the update register and one
/// trigger byte.
fn update_frame() -> (r: Vec<u8>)
    ensures
        r@ == seq![UPDATE_REGISTER, 0u8],
{
    frame2(UPDATE_REGISTER, 0)
}

/// Frames of `enable_device`, for a caller that drives the bus itself:
/// each frame is a register address followed by its payload, to be
/// written to the chip's address in order, stopping at the first
/// failure.
pub fn enable_device_frames() -> (r: Vec<Vec<u8>>)
    ensures
        frames_view(r@) == enable_device_writes(),
{
    let mut r: Vec<Vec<u8>> = Vec::new();
    r.push(frame2(SHUTDOWN_REGISTER, 1));
    proof {
        assert(frames_view(r@) =~= enable_device_writes());
    }
    r
}

/// Frames of `shutdown_device`; see `enable_device_frames`.
pub fn shutdown_device_frames() -> (r: Vec<Vec<u8>>)
    ensures
        frames_view(r@) == shutdown_device_writes(),
{
    let mut r: Vec<Vec<u8>> = Vec::new();
    r.push(frame2(SHUTDOWN_REGISTER, 0));
    proof {
        assert(frames_view(r@) =~= shutdown_device_writes());
    }
    r
}

/// Frames of `enable_channel`; see `enable_device_frames`.
pub fn enable_channel_frames(channel: usize) -> (r: Vec<Vec<u8>>)
    requires
        channel < CHANNEL_COUNT,
    ensures
        frames_view(r@) == enable_channel_writes(channel as int),
{
    let mut r: Vec<Vec<u8>> = Vec::new();
    r.push(frame2(enable_control_register(channel), enable_channel_mask(channel)));
    r.push(update_frame());
    proof {
        assert(frames_view(r@) =~= enable_channel_writes(channel as int));
    }
    r
}

/// Frames of `enable_all`; see `enable_device_frames`.
pub fn enable_all_frames() -> (r: Vec<Vec<u8>>)
    ensures
        frames_view(r@) == enable_all_writes(),
{
    let mut first: Vec<u8> = Vec::new();
    first.push(ENABLE_BASE);
    first.push(0x3f);
    first.push(0x3f);
    first.push(0x3f);
    let mut r: Vec<Vec<u8>> = Vec::new();
    proof {
        assert(first@ =~= seq![ENABLE_BASE, 0x3fu8, 0x3fu8, 0x3fu8]);
    }
    r.push(first);
    r.push(update_frame());
    proof {
        assert(frames_view(r@) =~= enable_all_writes());
    }
    r
}

/// Frames of `set`; see `enable_device_frames`.
pub fn set_frames(channel: usize, brightness: u8) -> (r: Vec<Vec<u8>>)
    requires
        channel < CHANNEL_COUNT,
    ensures
        frames_view(r@) == set_writes(channel as int, brightness),
{
    let mut r: Vec<Vec<u8>> = Vec::new();
    r.push(frame2(BRIGHTNESS_BASE + (channel as u8), brightness));
    r.push(update_frame());
    proof {
        assert(frames_view(r@) =~= set_writes(channel as int, brightness));
    }
    r
}

/// Frames of `set_many`; see `enable_device_frames`.
pub fn set_many_frames(start: usize, values: &[u8]) -> (r: Vec<Vec<u8>>)
    requires
        start + values@.len() <= CHANNEL_COUNT,
    ensures
        frames_view(r@) == set_many_writes(start as int, values@),
{
    let mut first: Vec<u8> = Vec::new();
    first.push(BRIGHTNESS_BASE + (start as u8));
    let mut i: usize = 0;
    while i < values.len()
        invariant
            i <= values@.len(),
            start + values@.len() <= CHANNEL_COUNT,
            first@ == seq![brightness_register(start as int)] + values@.take(i as int),
        decreases values@.len() - i,
    {
        first.push(values[i]);
        proof {
            assert(first@ =~= seq![brightness_register(start as int)] + values@.take(
                i + 1 as int,
            ));
        }
        i = i + 1;
    }
    proof {
        assert(first@ =~= seq![brightness_register(start as int)] + values@);
    }
    let mut r: Vec<Vec<u8>> = Vec::new();
    r.push(first);
    r.push(update_frame());
    proof {
        assert(frames_view(r@) =~= set_many_writes(start as int, values@));
    }
    r
}

/// The one frame of `set_all`; see `enable_device_frames`.
pub fn set_all_frames(values: &[u8; 18]) -> (r: Vec<Vec<u8>>)
    ensures
        frames_view(r@) == set_all_writes(values@),
{
    let vs: &[u8] = values.as_slice();
    let mut first: Vec<u8> = Vec::new();
    first.push(BRIGHTNESS_BASE);
    let mut i: usize = 0;
    while i < vs.len()
        invariant
            i <= vs@.len(),
            vs@ == values@,
            first@ == seq![BRIGHTNESS_BASE] + vs@.take(i as int),
        decreases vs@.len() - i,
    {
        first.push(vs[i]);
        proof {
            assert(first@ =~= seq![BRIGHTNESS_BASE] + vs@.take(i + 1 as int));
        }
        i = i + 1;
    }
    first.push(0x3f);
    first.push(0x3f);
    first.push(0x3f);
    first.push(0);
    proof {
        assert(first@ =~= seq![BRIGHTNESS_BASE] + values@ + seq![0x3fu8, 0x3fu8, 0x3fu8, 0u8]);
    }
    let mut r: Vec<Vec<u8>> = Vec::new();
    r.push(first);
    proof {
        assert(frames_view(r@) =~= set_all_writes(values@));
    }
    r
}

/// The one frame of `reset`; see `enable_device_frames`.
pub fn reset_frames() -> (r: Vec<Vec<u8>>)
    ensures
        frames_view(r@) == reset_writes(),
{
    let mut r: Vec<Vec<u8>> = Vec::new();
    r.push(frame2(RESET_REGISTER, 0));
    proof {
        assert(frames_view(r@) =~= reset_writes());
    }
    r
}

/// Law: enabling the device is idempotent on the wire. Whatever
/// transactions came before, two successful `enable_device` calls
/// append the same transaction twice, so the second call changes
/// nothing the first had not already established.
pub proof fn lemma_enable_device_idempotent(log: Seq<(u8, Seq<u8>)>)
    ensures
        (log + enable_device_writes() + enable_device_writes()).skip(log.len() as int) == seq![
            bus_write(seq![SHUTDOWN_REGISTER, 1u8]),
            bus_write(seq![SHUTDOWN_REGISTER, 1u8]),
        ],
{
    assert((log + enable_device_writes() + enable_device_writes()).skip(log.len() as int) =~= seq![
        bus_write(seq![SHUTDOWN_REGISTER, 1u8]),
        bus_write(seq![SHUTDOWN_REGISTER, 1u8]),
    ]);
}

/// Law: recovery is deterministic. A successful `reset` followed by a
/// successful `enable_device` appends the same two transactions
/// whatever the log held before, so the device always comes back
/// enabled with power-on defaults, regardless of prior state.
pub proof fn lemma_reset_then_enable_deterministic(
    log_a: Seq<(u8, Seq<u8>)>,
    log_b: Seq<(u8, Seq<u8>)>,
)
    ensures
        (log_a + reset_writes() + enable_device_writes()).skip(log_a.len() as int) == (log_b
            + reset_writes() + enable_device_writes()).skip(log_b.len() as int),
{
    assert((log_a + reset_writes() + enable_device_writes()).skip(log_a.len() as int)
        =~= reset_writes() + enable_device_writes());
    assert((log_b + reset_writes() + enable_device_writes()).skip(log_b.len() as int)
        =~= reset_writes() + enable_device_writes());
}

} // verus!
