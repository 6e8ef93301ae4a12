//! Register map of the embedded controller and pure decoders over a raw
//! snapshot of its I/O space.

use vstd::prelude::*;

use crate::protocol::FanStatus;
use crate::text::{hex_byte, push_hex_byte, str_eq};

verus! {

/// Snapshots shorter than this are refused by the status decoder.
pub const MIN_SNAPSHOT_LEN: usize = 0xFF;

pub const REG_CPU_TEMP: u64 = 0x68;
pub const REG_GPU_TEMP: u64 = 0x80;

/// Cooler-boost control register; bit 7 switches the boost, the other bits
/// are unrelated flags.
pub const REG_COOLER_BOOST: u64 = 0x98;
pub const COOLER_BOOST_BIT: u8 = 0x80;

/// Fan 1 speed: a primary and a secondary little-endian pair.
pub const REG_FAN1_RPM_LOW: u64 = 0xC9;
pub const REG_FAN1_RPM_HIGH: u64 = 0xC8;
pub const REG_FAN1_RPM_ALT_LOW: u64 = 0xCD;
pub const REG_FAN1_RPM_ALT_HIGH: u64 = 0xCC;

pub const REG_FAN2_RPM_LOW: u64 = 0xCB;
pub const REG_FAN2_RPM_HIGH: u64 = 0xCA;

/// Candidate locations of the fan-mode register.
pub const REG_FAN_MODE_PRIMARY: u64 = 0xD4;
pub const REG_FAN_MODE_FALLBACK: u64 = 0xF4;

pub const FAN_MODE_AUTO: u8 = 0x0D;
pub const FAN_MODE_SILENT: u8 = 0x1D;
pub const FAN_MODE_BASIC: u8 = 0x4D;
pub const FAN_MODE_ADVANCED: u8 = 0x8D;

/// First registers of the two fan speed curves, each `FAN_SPEED_POINTS` long.
pub const REG_FAN1_SPEED_START: u64 = 0x72;
pub const REG_FAN2_SPEED_START: u64 = 0x8A;
pub const FAN_SPEED_POINTS: u64 = 7;

/// Readings of the secondary fan 1 pair at or above this are taken as noise.
pub const FAN1_RPM_LIMIT: u32 = 10000;

/// Pulse-counting period of the EC's tachometer: RPM is this divided by the count.
pub const RPM_PULSE_PERIOD: u32 = 470000;

/// RPM that the EC's tachometer count `v` stands for.
pub open spec fn rpm_from_count(v: int) -> int {
    if v > 0 {
        RPM_PULSE_PERIOD as int / v
    } else {
        0
    }
}

/// RPM read from a little-endian pair of registers; zero when either lies
/// outside the snapshot.
pub open spec fn rpm_at(b: Seq<u8>, low: int, high: int) -> int {
    if 0 <= low < b.len() && 0 <= high < b.len() {
        rpm_from_count(b[high] * 256 + b[low])
    } else {
        0
    }
}

/// Converts a tachometer count into RPM.
pub fn decode_rpm(count: u16) -> (r: u32)
    ensures
        r == rpm_from_count(count as int),
{
    if count > 0 {
        RPM_PULSE_PERIOD / (count as u32)
    } else {
        0
    }
}

/// Decodes the fan speed held in the register pair (`low_offset`, `high_offset`).
pub fn get_fan_rpm(buffer: &[u8], low_offset: usize, high_offset: usize) -> (r: u32)
    ensures
        r == rpm_at(buffer@, low_offset as int, high_offset as int),
{
    if high_offset >= buffer.len() || low_offset >= buffer.len() {
        return 0;
    }
    let low = buffer[low_offset] as u32;
    let high = buffer[high_offset] as u32;
    assert((high << 8u32) | low == high * 256 + low) by (bit_vector)
        requires
            high < 256,
            low < 256,
    ;
    let value = (high << 8) | low;
    decode_rpm(value as u16)
}

/// Fan 1 speed: the secondary pair when it reads strictly between zero and
/// `limit`, the primary pair otherwise.
pub open spec fn fan1_rpm(b: Seq<u8>, limit: int) -> int {
    let alt = rpm_at(b, REG_FAN1_RPM_ALT_LOW as int, REG_FAN1_RPM_ALT_HIGH as int);
    if 0 < alt < limit {
        alt
    } else {
        rpm_at(b, REG_FAN1_RPM_LOW as int, REG_FAN1_RPM_HIGH as int)
    }
}

/// Fan 1 speed, trusting the secondary pair only below `limit`.
pub fn fan1_rpm_within(buffer: &[u8], limit: u32) -> (r: u32)
    ensures
        r == fan1_rpm(buffer@, limit as int),
{
    let rpm_alt = get_fan_rpm(
        buffer,
        REG_FAN1_RPM_ALT_LOW as usize,
        REG_FAN1_RPM_ALT_HIGH as usize,
    );
    if rpm_alt > 0 && rpm_alt < limit {
        return rpm_alt;
    }
    get_fan_rpm(buffer, REG_FAN1_RPM_LOW as usize, REG_FAN1_RPM_HIGH as usize)
}

/// Fan 1 speed with the usual noise bound.
pub fn get_fan1_rpm(buffer: &[u8]) -> (r: u32)
    ensures
        r == fan1_rpm(buffer@, FAN1_RPM_LIMIT as int),
{
    fan1_rpm_within(buffer, FAN1_RPM_LIMIT)
}

/// The byte at `i`, or zero past the end of the snapshot.
pub open spec fn byte_at(b: Seq<u8>, i: int) -> u8 {
    if 0 <= i < b.len() {
        b[i]
    } else {
        0
    }
}

fn read_byte(buffer: &[u8], offset: u64) -> (r: u8)
    ensures
        r == byte_at(buffer@, offset as int),
{
    if offset < buffer.len() as u64 {
        buffer[offset as usize]
    } else {
        0
    }
}

/// One of the four fan-mode codes that the EC understands.
pub open spec fn is_mode_code(v: u8) -> bool {
    v == FAN_MODE_AUTO || v == FAN_MODE_SILENT || v == FAN_MODE_BASIC || v == FAN_MODE_ADVANCED
}

/// Where this EC keeps its fan mode: the primary register when it already
/// holds a known code, the fallback register otherwise.
pub open spec fn mode_register(b: Seq<u8>) -> u64 {
    if is_mode_code(byte_at(b, REG_FAN_MODE_PRIMARY as int)) {
        REG_FAN_MODE_PRIMARY
    } else {
        REG_FAN_MODE_FALLBACK
    }
}

/// Locates the fan-mode register from a snapshot.
pub fn detect_fan_mode_address(buffer: &[u8]) -> (r: u64)
    ensures
        r == mode_register(buffer@),
{
    let val = read_byte(buffer, REG_FAN_MODE_PRIMARY);
    if val == FAN_MODE_AUTO || val == FAN_MODE_SILENT || val == FAN_MODE_BASIC || val
        == FAN_MODE_ADVANCED {
        return REG_FAN_MODE_PRIMARY;
    }
    REG_FAN_MODE_FALLBACK
}

/// Name of a fan-mode byte; a byte that is no known code is named by its
/// hexadecimal value.
pub open spec fn fan_mode_name(v: u8) -> Seq<char> {
    if v == FAN_MODE_AUTO {
        "auto"@
    } else if v == FAN_MODE_SILENT {
        "silent"@
    } else if v == FAN_MODE_BASIC {
        "basic"@
    } else if v == FAN_MODE_ADVANCED {
        "advanced"@
    } else {
        "unknown(0x"@ + hex_byte(v) + ")"@
    }
}

/// Renders a fan-mode byte as a name.
pub fn fan_mode_string(v: u8) -> (r: String)
    ensures
        r@ == fan_mode_name(v),
{
    if v == FAN_MODE_AUTO {
        String::from_str("auto")
    } else if v == FAN_MODE_SILENT {
        String::from_str("silent")
    } else if v == FAN_MODE_BASIC {
        String::from_str("basic")
    } else if v == FAN_MODE_ADVANCED {
        String::from_str("advanced")
    } else {
        let mut s = String::from_str("unknown(0x");
        push_hex_byte(&mut s, v);
        s.append(")");
        s
    }
}

/// Current fan mode of a snapshot, read at the detected register.
pub fn get_fan_mode_string(buffer: &[u8]) -> (r: String)
    ensures
        r@ == fan_mode_name(byte_at(buffer@, mode_register(buffer@) as int)),
{
    let addr = detect_fan_mode_address(buffer);
    fan_mode_string(read_byte(buffer, addr))
}

/// The fan modes that can be selected.
#[derive(Clone, Copy, Debug, PartialEq, Eq, Structural)]
pub enum FanMode {
    Auto,
    Silent,
    Basic,
    Advanced,
}

impl FanMode {
    pub open spec fn spec_code(self) -> u8 {
        match self {
            FanMode::Auto => FAN_MODE_AUTO,
            FanMode::Silent => FAN_MODE_SILENT,
            FanMode::Basic => FAN_MODE_BASIC,
            FanMode::Advanced => FAN_MODE_ADVANCED,
        }
    }

    pub open spec fn spec_name(self) -> Seq<char> {
        fan_mode_name(self.spec_code())
    }

    /// The register value that selects this mode.
    pub fn code(self) -> (r: u8)
        ensures
            r == self.spec_code(),
    {
        match self {
            FanMode::Auto => FAN_MODE_AUTO,
            FanMode::Silent => FAN_MODE_SILENT,
            FanMode::Basic => FAN_MODE_BASIC,
            FanMode::Advanced => FAN_MODE_ADVANCED,
        }
    }

    /// The mode that `name` names, if any.
    pub fn from_name(name: &str) -> (r: Option<FanMode>)
        ensures
            r matches Some(m) ==> m.spec_name() == name@,
            r is None ==> forall|m: FanMode| m.spec_name() != name@,
    {
        if str_eq(name, "auto") {
            Some(FanMode::Auto)
        } else if str_eq(name, "silent") {
            Some(FanMode::Silent)
        } else if str_eq(name, "basic") {
            Some(FanMode::Basic)
        } else if str_eq(name, "advanced") {
            Some(FanMode::Advanced)
        } else {
            None
        }
    }
}

/// Distinct modes have distinct names.
pub proof fn lemma_mode_names_distinct(m1: FanMode, m2: FanMode)
    ensures
        m1.spec_name() == m2.spec_name() ==> m1 == m2,
{
    reveal_strlit("auto");
    reveal_strlit("silent");
    reveal_strlit("basic");
    reveal_strlit("advanced");
    if m1.spec_name() == m2.spec_name() {
        assert(m1.spec_name().len() == m2.spec_name().len());
    }
}

/// Appends the name of `m`.
pub fn push_mode_name(s: &mut String, m: FanMode)
    ensures
        final(s)@ == old(s)@ + m.spec_name(),
{
    match m {
        FanMode::Auto => s.append("auto"),
        FanMode::Silent => s.append("silent"),
        FanMode::Basic => s.append("basic"),
        FanMode::Advanced => s.append("advanced"),
    }
}

/// One single-byte write into the EC's I/O space.
#[derive(Clone, Copy, Debug, PartialEq, Eq, Structural)]
pub struct EcWrite {
    pub offset: u64,
    pub value: u8,
}

/// The control byte `current` with the boost bit set or cleared.
pub open spec fn boost_byte(current: u8, enabled: bool) -> u8 {
    if enabled {
        current | COOLER_BOOST_BIT
    } else {
        current & !COOLER_BOOST_BIT
    }
}

/// Sets or clears the boost bit of a control byte, keeping every other bit.
pub fn cooler_boost_byte(current: u8, enabled: bool) -> (r: u8)
    ensures
        r == boost_byte(current, enabled),
        (r & COOLER_BOOST_BIT != 0) == enabled,
        r & 0x7F == current & 0x7F,
{
    let r = if enabled {
        current | COOLER_BOOST_BIT
    } else {
        current & !COOLER_BOOST_BIT
    };
    assert((current | 0x80u8) & 0x80u8 != 0) by (bit_vector);
    assert((current | 0x80u8) & 0x7Fu8 == current & 0x7Fu8) by (bit_vector);
    assert((current & !0x80u8) & 0x80u8 == 0) by (bit_vector);
    assert((current & !0x80u8) & 0x7Fu8 == current & 0x7Fu8) by (bit_vector);
    r
}

/// The write that switches cooler boost, computed from a fresh snapshot;
/// fails when the snapshot does not reach the control register.
pub fn set_cooler_boost(buffer: &[u8], enabled: bool) -> (r: Result<EcWrite, String>)
    ensures
        buffer@.len() > REG_COOLER_BOOST ==> r == Ok::<EcWrite, String>(
            EcWrite {
                offset: REG_COOLER_BOOST,
                value: boost_byte(buffer@[REG_COOLER_BOOST as int], enabled),
            },
        ),
        buffer@.len() <= REG_COOLER_BOOST ==> (r matches Err(e) && e@
            == "Cannot read cooler boost reg"@),
{
    if (buffer.len() as u64) <= REG_COOLER_BOOST {
        return Err(String::from_str("Cannot read cooler boost reg"));
    }
    let current = buffer[REG_COOLER_BOOST as usize];
    Ok(EcWrite { offset: REG_COOLER_BOOST, value: cooler_boost_byte(current, enabled) })
}

/// The same `percent` at each point of the curve that starts at `start`.
pub open spec fn curve_writes(start: u64, percent: u8) -> Seq<EcWrite> {
    Seq::new(FAN_SPEED_POINTS as nat, |i: int| EcWrite { offset: (start + i) as u64, value: percent })
}

/// Fixed fan speed: advanced mode at the detected register first, then both
/// curves, fan 1 before fan 2.
pub open spec fn fan_speed_plan(b: Seq<u8>, percent: u8) -> Seq<EcWrite> {
    seq![EcWrite { offset: mode_register(b), value: FAN_MODE_ADVANCED }] + curve_writes(
        REG_FAN1_SPEED_START,
        percent,
    ) + curve_writes(REG_FAN2_SPEED_START, percent)
}

/// A fixed fan speed makes fifteen writes: the advanced-mode code at the
/// detected mode register first, then `percent` at each of the seven fan 1
/// curve points and each of the seven fan 2 curve points, in address order.
pub proof fn lemma_fan_speed_plan_shape(b: Seq<u8>, percent: u8)
    ensures
        fan_speed_plan(b, percent).len() == 1 + 2 * FAN_SPEED_POINTS,
        fan_speed_plan(b, percent)[0] == (EcWrite {
            offset: mode_register(b),
            value: FAN_MODE_ADVANCED,
        }),
        forall|i: int|
            0 <= i < FAN_SPEED_POINTS ==> #[trigger] fan_speed_plan(b, percent)[1 + i] == (EcWrite {
                offset: (REG_FAN1_SPEED_START + i) as u64,
                value: percent,
            }) && fan_speed_plan(b, percent)[1 + FAN_SPEED_POINTS + i] == (EcWrite {
                offset: (REG_FAN2_SPEED_START + i) as u64,
                value: percent,
            }),
{
    let plan = fan_speed_plan(b, percent);
    assert forall|i: int| 0 <= i < FAN_SPEED_POINTS implies #[trigger] plan[1 + i] == (EcWrite {
        offset: (REG_FAN1_SPEED_START + i) as u64,
        value: percent,
    }) && plan[1 + FAN_SPEED_POINTS + i] == (EcWrite {
        offset: (REG_FAN2_SPEED_START + i) as u64,
        value: percent,
    }) by {
        assert(plan[1 + i] == curve_writes(REG_FAN1_SPEED_START, percent)[i]);
        assert(plan[1 + FAN_SPEED_POINTS + i] == curve_writes(REG_FAN2_SPEED_START, percent)[i]);
    }
}

fn push_curve(plan: &mut Vec<EcWrite>, start: u64, percent: u8)
    requires
        start == REG_FAN1_SPEED_START || start == REG_FAN2_SPEED_START,
    ensures
        final(plan)@ == old(plan)@ + curve_writes(start, percent),
{
    let mut i: u64 = 0;
    while i < FAN_SPEED_POINTS
        invariant
            start == REG_FAN1_SPEED_START || start == REG_FAN2_SPEED_START,
            i <= FAN_SPEED_POINTS,
            plan@ =~= old(plan)@ + curve_writes(start, percent).take(i as int),
        decreases FAN_SPEED_POINTS - i,
    {
        plan.push(EcWrite { offset: start + i, value: percent });
        i = i + 1;
    }
    assert(curve_writes(start, percent).take(FAN_SPEED_POINTS as int) =~= curve_writes(
        start,
        percent,
    ));
}

/// The writes that pin both fans at `percent`, in the order they must be made.
pub fn set_fan_speed_fixed(buffer: &[u8], percent: u8) -> (r: Vec<EcWrite>)
    ensures
        r@ == fan_speed_plan(buffer@, percent),
{
    let mut plan: Vec<EcWrite> = Vec::new();
    plan.push(EcWrite { offset: detect_fan_mode_address(buffer), value: FAN_MODE_ADVANCED });
    push_curve(&mut plan, REG_FAN1_SPEED_START, percent);
    push_curve(&mut plan, REG_FAN2_SPEED_START, percent);
    assert(plan@ =~= fan_speed_plan(buffer@, percent));
    plan
}

/// The write that selects `mode`, at the register detected in a fresh snapshot.
pub fn set_fan_mode(buffer: &[u8], mode: FanMode) -> (r: EcWrite)
    ensures
        r == (EcWrite { offset: mode_register(buffer@), value: mode.spec_code() }),
{
    EcWrite { offset: detect_fan_mode_address(buffer), value: mode.code() }
}

/// `s` is the status that the snapshot `b` reads as.
pub open spec fn describes(s: FanStatus, b: Seq<u8>) -> bool {
    &&& s.cpu_temp == b[REG_CPU_TEMP as int]
    &&& s.gpu_temp == b[REG_GPU_TEMP as int]
    &&& s.cooler_boost == (b[REG_COOLER_BOOST as int] & COOLER_BOOST_BIT != 0)
    &&& s.fan1_rpm == fan1_rpm(b, FAN1_RPM_LIMIT as int)
    &&& s.fan2_rpm == rpm_at(b, REG_FAN2_RPM_LOW as int, REG_FAN2_RPM_HIGH as int)
    &&& s.fan_mode@ == fan_mode_name(byte_at(b, mode_register(b) as int))
}

/// Message of a snapshot too short to decode.
pub open spec fn too_small_message(len: nat) -> Seq<char> {
    "EC buffer too small: "@ + crate::text::decimal(len) + " bytes"@
}

/// Decodes a snapshot into a status; refuses one shorter than `MIN_SNAPSHOT_LEN`.
pub fn get_status(buffer: &[u8]) -> (r: Result<FanStatus, String>)
    ensures
        buffer@.len() >= MIN_SNAPSHOT_LEN ==> (r matches Ok(s) && describes(s, buffer@)),
        buffer@.len() < MIN_SNAPSHOT_LEN ==> (r matches Err(e) && e@ == too_small_message(
            buffer@.len(),
        )),
{
    if buffer.len() < MIN_SNAPSHOT_LEN {
        let mut e = String::from_str("EC buffer too small: ");
        crate::text::push_decimal(&mut e, buffer.len() as u64);
        e.append(" bytes");
        return Err(e);
    }
    let cooler_boost_byte = buffer[REG_COOLER_BOOST as usize];
    Ok(
        FanStatus {
            cpu_temp: buffer[REG_CPU_TEMP as usize],
            gpu_temp: buffer[REG_GPU_TEMP as usize],
            fan1_rpm: get_fan1_rpm(buffer),
            fan2_rpm: get_fan_rpm(buffer, REG_FAN2_RPM_LOW as usize, REG_FAN2_RPM_HIGH as usize),
            cooler_boost: (cooler_boost_byte & COOLER_BOOST_BIT) != 0,
            fan_mode: get_fan_mode_string(buffer),
        },
    )
}

/// Encoding a target speed as the tachometer count the EC would hold and
/// decoding that count again gives back the target up to integer division:
/// never less than the target, and the excess times the count stays below
/// the target.
pub proof fn lemma_rpm_round_trip(b: Seq<u8>, low: int, high: int, target: int)
    requires
        0 <= low < b.len(),
        0 <= high < b.len(),
        low != high,
        0 < target <= RPM_PULSE_PERIOD,
        RPM_PULSE_PERIOD as int / target <= 0xFFFF,
        b[low] == (RPM_PULSE_PERIOD as int / target) % 256,
        b[high] == (RPM_PULSE_PERIOD as int / target) / 256,
    ensures
        ({
            let count = RPM_PULSE_PERIOD as int / target;
            let r = rpm_at(b, low, high);
            &&& r == RPM_PULSE_PERIOD as int / count
            &&& target <= r
            &&& (r - target) * count < target
        }),
{
    let n = RPM_PULSE_PERIOD as int;
    let count = n / target;
    assert(count * target <= n < (count + 1) * target) by (nonlinear_arith)
        requires
            count == n / target,
            target > 0,
    ;
    assert(count >= 1) by (nonlinear_arith)
        requires
            count * target <= n < (count + 1) * target,
            target <= n,
            target > 0,
    ;
    assert(b[high] * 256 + b[low] == count);
    let r = n / count;
    assert(r * count <= n < (r + 1) * count) by (nonlinear_arith)
        requires
            r == n / count,
            count > 0,
    ;
    assert(target <= r) by (nonlinear_arith)
        requires
            r * count <= n < (r + 1) * count,
            count * target <= n,
            count > 0,
    ;
    assert((r - target) * count < target) by (nonlinear_arith)
        requires
            r * count <= n,
            n < (count + 1) * target,
    ;
}

/// A known mode code at the primary register decides the detection, whatever
/// the fallback register holds; and writing a mode code where detection
/// pointed leaves detection pointing at the same register.
pub proof fn lemma_mode_register_stable(b: Seq<u8>, fallback: u8, code: u8)
    requires
        b.len() > REG_FAN_MODE_FALLBACK,
        is_mode_code(code),
    ensures
        is_mode_code(b[REG_FAN_MODE_PRIMARY as int]) ==> mode_register(b) == REG_FAN_MODE_PRIMARY
            && mode_register(b.update(REG_FAN_MODE_FALLBACK as int, fallback))
            == REG_FAN_MODE_PRIMARY,
        mode_register(b.update(mode_register(b) as int, code)) == mode_register(b),
{
}

} // verus!
