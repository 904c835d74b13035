//! The native sensor source's own bookkeeping: processor time counters,
//! text encodings for the system interfaces, and the reading of sensor names.
use vstd::prelude::*;
use crate::text::{ascii_lower, contains_ignoring_ascii_case, eq_ignoring_ascii_case, has_infix, owned};
use super::mock::MockCollector;

verus! {

/// Cumulative processor times, in 100-nanosecond ticks.
#[derive(Clone, Copy, Debug, PartialEq, Eq, Structural)]
pub struct CpuTimes {
    pub idle: u64,
    pub kernel: u64,
    pub user: u64,
}

/// The native sensor source. Besides the demonstration source it keeps the
/// processor times of the previous sample, so that usage covers the time
/// between two samples.
#[derive(Debug)]
pub struct WindowsCollector {
    pub mock: MockCollector,
    pub previous_cpu_times: Option<CpuTimes>,
}

impl WindowsCollector {
    pub fn new() -> (r: Self)
        ensures
            r.mock.samples() == 0,
            r.previous_cpu_times is None,
    {
        WindowsCollector { mock: MockCollector::new(), previous_cpu_times: None }
    }
}

/// `a - b`, or 0 when `b` is larger.
pub open spec fn saturating_sub(a: u64, b: u64) -> u64 {
    if a >= b {
        (a - b) as u64
    } else {
        0
    }
}

/// `a + b`, or the largest value when the sum does not fit.
pub open spec fn saturating_add(a: u64, b: u64) -> u64 {
    if a + b <= u64::MAX {
        (a + b) as u64
    } else {
        u64::MAX
    }
}

/// The busy and total ticks between two samples of processor times; none
/// when no time passed. Kernel time includes idle time.
pub open spec fn busy_and_total(previous: CpuTimes, current: CpuTimes) -> Option<(u64, u64)> {
    let total = saturating_sub(
        saturating_add(current.kernel, current.user),
        saturating_add(previous.kernel, previous.user),
    );
    let idle = saturating_sub(current.idle, previous.idle);
    if total == 0 {
        None
    } else {
        Some((saturating_sub(total, idle), total))
    }
}

/// The busy and total ticks between two samples; usage is their ratio.
pub fn cpu_time_deltas(previous: CpuTimes, current: CpuTimes) -> (r: Option<(u64, u64)>)
    ensures
        r == busy_and_total(previous, current),
{
    let previous_total = previous.kernel.saturating_add(previous.user);
    let current_total = current.kernel.saturating_add(current.user);
    let total_delta = current_total.saturating_sub(previous_total);
    let idle_delta = current.idle.saturating_sub(previous.idle);
    if total_delta == 0 {
        None
    } else {
        Some((total_delta.saturating_sub(idle_delta), total_delta))
    }
}

/// The busy share never exceeds the total.
pub proof fn busy_never_exceeds_total(previous: CpuTimes, current: CpuTimes)
    ensures
        busy_and_total(previous, current) matches Some((busy, total)) ==> 0 < total && busy <= total,
{
}

/// A 64-bit tick count from its high and low halves.
pub fn filetime_ticks(high: u32, low: u32) -> (r: u64)
    ensures
        r == high * 0x1_0000_0000 + low,
{
    let h = high as u64;
    let l = low as u64;
    let r = (h << 32u64) | l;
    assert(r == h * 0x1_0000_0000 + l) by (bit_vector)
        requires
            h < 0x1_0000_0000,
            l < 0x1_0000_0000,
            r == (h << 32u64) | l,
    ;
    r
}

/// The UTF-16 code units of one character.
pub open spec fn utf16_units(c: char) -> Seq<u16> {
    let v = c as u32;
    if v < 0x10000 {
        seq![v as u16]
    } else {
        seq![(0xD800 + (v - 0x10000) / 0x400) as u16, (0xDC00 + (v - 0x10000) % 0x400) as u16]
    }
}

/// The UTF-16 code units of a text.
pub open spec fn utf16(s: Seq<char>) -> Seq<u16>
    decreases s.len(),
{
    if s.len() == 0 {
        Seq::empty()
    } else {
        utf16(s.drop_last()) + utf16_units(s.last())
    }
}

/// A text as a zero-terminated UTF-16 string for the system interfaces.
pub fn to_wide(value: &str) -> (r: Vec<u16>)
    ensures
        r@ == utf16(value@).push(0u16),
{
    let n = value.unicode_len();
    let mut out: Vec<u16> = Vec::new();
    let mut i: usize = 0;
    while i < n
        invariant
            n == value@.len(),
            i <= n,
            out@ == utf16(value@.take(i as int)),
        decreases n - i,
    {
        let c = value.get_char(i);
        let v = c as u32;
        if v < 0x10000 {
            out.push(v as u16);
        } else {
            let offset = v - 0x10000;
            out.push((0xD800 + offset / 0x400) as u16);
            out.push((0xDC00 + offset % 0x400) as u16);
        }
        proof {
            assert(value@.take(i + 1).drop_last() =~= value@.take(i as int));
            assert(value@.take(i + 1).last() == c);
        }
        assert(out@ =~= utf16(value@.take(i + 1)));
        i += 1;
    }
    assert(value@.take(n as int) =~= value@);
    out.push(0);
    out
}

/// A character with Unicode's White_Space property.
pub open spec fn is_white_space(c: char) -> bool {
    ||| '\u{9}' <= c <= '\u{d}'
    ||| c == ' '
    ||| c == '\u{85}'
    ||| c == '\u{a0}'
    ||| c == '\u{1680}'
    ||| '\u{2000}' <= c <= '\u{200a}'
    ||| c == '\u{2028}'
    ||| c == '\u{2029}'
    ||| c == '\u{202f}'
    ||| c == '\u{205f}'
    ||| c == '\u{3000}'
}

/// `s` without its leading white space.
pub open spec fn trimmed_start(s: Seq<char>) -> Seq<char>
    decreases s.len(),
{
    if s.len() > 0 && is_white_space(s[0]) {
        trimmed_start(s.drop_first())
    } else {
        s
    }
}

/// `s` without its trailing white space.
pub open spec fn trimmed_end(s: Seq<char>) -> Seq<char>
    decreases s.len(),
{
    if s.len() > 0 && is_white_space(s.last()) {
        trimmed_end(s.drop_last())
    } else {
        s
    }
}

/// What `str::trim` leaves of `s`: the text without leading and trailing
/// white space.
pub open spec fn trimmed(s: Seq<char>) -> Seq<char> {
    trimmed_end(trimmed_start(s))
}

/// Calls `str::trim`, which removes the leading and trailing characters
/// with Unicode's White_Space property, and takes the result as an owned
/// string.
#[verifier::external_body]
fn trim_text(s: &str) -> (r: String)
    ensures
        r@ == trimmed(s@),
{
    s.trim().to_string()
}

/// The processor name of a native sample, trimmed, when the sample has all
/// the readings a snapshot needs; otherwise the message for the first one
/// missing, checked in the order name (absent or blank), usage, clock,
/// total memory, free memory.
pub fn required_telemetry(
    cpu_name: Option<&str>,
    has_cpu_usage: bool,
    has_cpu_clock: bool,
    has_total_memory: bool,
    has_free_memory: bool,
) -> (r: Result<String, String>)
    ensures
        match cpu_name {
            None => r matches Err(e) && e@ == "CPU 이름을 읽지 못했습니다."@,
            Some(name) => if trimmed(name@).len() == 0 {
                r matches Err(e) && e@ == "CPU 이름을 읽지 못했습니다."@
            } else if !has_cpu_usage {
                r matches Err(e) && e@ == "CPU 사용률을 읽지 못했습니다."@
            } else if !has_cpu_clock {
                r matches Err(e) && e@ == "CPU 클럭을 읽지 못했습니다."@
            } else if !has_total_memory {
                r matches Err(e) && e@ == "전체 메모리를 읽지 못했습니다."@
            } else if !has_free_memory {
                r matches Err(e) && e@ == "사용 가능 메모리를 읽지 못했습니다."@
            } else {
                r matches Ok(n) && n@ == trimmed(name@)
            },
        },
{
    let name = match cpu_name {
        None => {
            return Err(owned("CPU 이름을 읽지 못했습니다."));
        },
        Some(name) => trim_text(name),
    };
    if name.as_str().unicode_len() == 0 {
        Err(owned("CPU 이름을 읽지 못했습니다."))
    } else if !has_cpu_usage {
        Err(owned("CPU 사용률을 읽지 못했습니다."))
    } else if !has_cpu_clock {
        Err(owned("CPU 클럭을 읽지 못했습니다."))
    } else if !has_total_memory {
        Err(owned("전체 메모리를 읽지 못했습니다."))
    } else if !has_free_memory {
        Err(owned("사용 가능 메모리를 읽지 못했습니다."))
    } else {
        Ok(name)
    }
}

/// A collection error message, or a general one when it is empty.
pub fn non_empty_or_default(message: String) -> (r: String)
    ensures
        r@ == (if message@.len() == 0 {
            "Windows 센서 데이터를 읽지 못했습니다."@
        } else {
            message@
        }),
{
    if message.as_str().unicode_len() == 0 {
        owned("Windows 센서 데이터를 읽지 못했습니다.")
    } else {
        message
    }
}

/// Whether a hardware-monitor sensor is a processor temperature, by its type
/// and identifier.
pub open spec fn is_cpu_temperature_sensor(sensor_type: Seq<char>, identifier: Seq<char>) -> bool {
    &&& ascii_lower(sensor_type) == "temperature"@
    &&& (has_infix(ascii_lower(identifier), "/amdcpu/"@) || has_infix(
        ascii_lower(identifier),
        "/intelcpu/"@,
    ) || has_infix(ascii_lower(identifier), "/cpu/"@))
}

/// Whether a hardware-monitor sensor is a processor temperature.
pub fn cpu_temperature_sensor(sensor_type: &str, identifier: &str) -> (r: bool)
    ensures
        r == is_cpu_temperature_sensor(sensor_type@, identifier@),
{
    proof {
        reveal_strlit("temperature");
        reveal_strlit("/amdcpu/");
        reveal_strlit("/intelcpu/");
        reveal_strlit("/cpu/");
        assert(ascii_lower("temperature"@) =~= "temperature"@);
        assert(ascii_lower("/amdcpu/"@) =~= "/amdcpu/"@);
        assert(ascii_lower("/intelcpu/"@) =~= "/intelcpu/"@);
        assert(ascii_lower("/cpu/"@) =~= "/cpu/"@);
    }
    if !eq_ignoring_ascii_case(sensor_type, "temperature") {
        return false;
    }
    contains_ignoring_ascii_case(identifier, "/amdcpu/") || contains_ignoring_ascii_case(
        identifier,
        "/intelcpu/",
    ) || contains_ignoring_ascii_case(identifier, "/cpu/")
}

} // verus!
