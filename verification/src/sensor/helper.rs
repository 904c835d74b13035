//! The request side of the sensor helper protocol: one JSON object per line.
use vstd::prelude::*;
use crate::text::{
    join_texts, joined_text, owned, texts,
    ascii_lower, contains_ignoring_ascii_case, decimal_text, eq_ignoring_ascii_case, has_infix,
    push_decimal,
};

verus! {

/// Text that stands in a JSON string without escapes: ASCII letters,
/// digits and underscores.
pub open spec fn plain_json_text(s: Seq<char>) -> bool {
    forall|i: int|
        0 <= i < s.len() ==> {
            let c = #[trigger] s[i];
            ('a' <= c <= 'z') || ('A' <= c <= 'Z') || ('0' <= c <= '9') || c == '_'
        }
}

/// One request line: the JSON object `{"id":…,"command":"…"}` followed by a
/// newline.
pub open spec fn request_text(id: u64, command: Seq<char>) -> Seq<char> {
    "{\"id\":"@ + decimal_text(id as nat) + ",\"command\":\""@ + command + "\"}\n"@
}

fn request_line(id: u64, command: &str) -> (r: Result<String, String>)
    requires
        plain_json_text(command@),
    ensures
        r matches Ok(line) && line@ == request_text(id, command@),
{
    let mut line = String::from_str("{\"id\":");
    push_decimal(&mut line, id);
    line.append(",\"command\":\"");
    line.append(command);
    line.append("\"}\n");
    Ok(line)
}

/// The line that asks the helper for one sample.
pub fn sample_request(id: u64) -> (r: Result<String, String>)
    ensures
        r matches Ok(line) && line@ == request_text(id, "sample"@),
{
    proof {
        reveal_strlit("sample");
    }
    request_line(id, "sample")
}

/// The line that asks the helper to shut down.
pub fn shutdown_request(id: u64) -> (r: Result<String, String>)
    ensures
        r matches Ok(line) && line@ == request_text(id, "shutdown"@),
{
    proof {
        reveal_strlit("shutdown");
    }
    request_line(id, "shutdown")
}

/// Runs `attempt`; when it fails, runs `restart` once and then `attempt` a
/// second and last time. A failed restart ends the retry with its error.
///
/// The contract names the calls made, each by the state it was handed and
/// the state it left: either the first attempt succeeded and is the result;
/// or it failed, the restart succeeded and the second attempt is the result;
/// or it failed and the restart failed, whose error is the result.
pub fn retry_once<S, T, A, R>(state: &mut S, mut attempt: A, mut restart: R) -> (r: Result<
    T,
    String,
>) where A: FnMut(&mut S) -> Result<T, String>, R: FnMut(&mut S) -> Result<(), String>
    requires
        forall|s: &mut S| call_requires(attempt, (s,)),
        forall|s: &mut S| call_requires(restart, (s,)),
    ensures
        ({
            ||| exists|a1: &mut S|
                #[trigger] call_ensures(attempt, (a1,), r) && r is Ok && *a1 == *old(state)
                    && *final(a1) == *final(state)
            ||| exists|a1: &mut S, r1: Result<T, String>, b: &mut S, rb: Result<(), String>, a2: &mut S|
                #![trigger call_ensures(attempt, (a1,), r1), call_ensures(restart, (b,), rb), call_ensures(attempt, (a2,), r)]
                call_ensures(attempt, (a1,), r1) && r1 is Err && *a1 == *old(state)
                    && call_ensures(restart, (b,), rb) && rb is Ok && *b == *final(a1)
                    && call_ensures(attempt, (a2,), r) && *a2 == *final(b)
                    && *final(a2) == *final(state)
            ||| exists|a1: &mut S, r1: Result<T, String>, b: &mut S, rb: Result<(), String>|
                #![trigger call_ensures(attempt, (a1,), r1), call_ensures(restart, (b,), rb)]
                call_ensures(attempt, (a1,), r1) && r1 is Err && *a1 == *old(state)
                    && call_ensures(restart, (b,), rb) && rb is Err && r is Err && rb->Err_0 == r->Err_0
                    && *b == *final(a1) && *final(b) == *final(state)
        }),
{
    let first = attempt(state);
    match first {
        Ok(value) => Ok(value),
        Err(_) => {
            let restarted = restart(state);
            match restarted {
                Ok(()) => {},
                Err(e) => {
                    return Err(e);
                },
            }
            attempt(state)
        },
    }
}

/// Whether a sensor name marks a whole-package temperature.
pub open spec fn names_package_sensor(name: Seq<char>) -> bool {
    has_infix(ascii_lower(name), "package"@) || has_infix(ascii_lower(name), "tctl"@) || has_infix(
        ascii_lower(name),
        "tdie"@,
    )
}

/// The preference of a temperature sensor by its name: package sensors (2)
/// over any other (1).
pub fn temperature_priority(name: &str) -> (r: u8)
    ensures
        r == (if names_package_sensor(name@) {
            2u8
        } else {
            1u8
        }),
{
    proof {
        reveal_strlit("package");
        reveal_strlit("tctl");
        reveal_strlit("tdie");
        assert(ascii_lower("package"@) =~= "package"@);
        assert(ascii_lower("tctl"@) =~= "tctl"@);
        assert(ascii_lower("tdie"@) =~= "tdie"@);
    }
    if contains_ignoring_ascii_case(name, "package") || contains_ignoring_ascii_case(name, "tctl")
        || contains_ignoring_ascii_case(name, "tdie") {
        2
    } else {
        1
    }
}

/// Whether a hardware entry is a processor, by its type name.
pub open spec fn is_cpu_hardware(hardware_type: Seq<char>) -> bool {
    ascii_lower(hardware_type) == "cpu"@
}

/// Whether a sensor entry measures a temperature, by its type name.
pub open spec fn is_temperature_sensor(sensor_type: Seq<char>) -> bool {
    ascii_lower(sensor_type) == "temperature"@
}

/// Whether a helper hardware entry is a processor.
pub fn cpu_hardware(hardware_type: &str) -> (r: bool)
    ensures
        r == is_cpu_hardware(hardware_type@),
{
    proof {
        reveal_strlit("cpu");
        assert(ascii_lower("cpu"@) =~= "cpu"@);
    }
    eq_ignoring_ascii_case(hardware_type, "cpu")
}

/// Whether a helper sensor entry measures a temperature.
pub fn temperature_sensor(sensor_type: &str) -> (r: bool)
    ensures
        r == is_temperature_sensor(sensor_type@),
{
    proof {
        reveal_strlit("temperature");
        assert(ascii_lower("temperature"@) =~= "temperature"@);
    }
    eq_ignoring_ascii_case(sensor_type, "temperature")
}

/// How an optional request id reads in a mismatch message.
pub open spec fn id_debug_text(id: Option<u64>) -> Seq<char> {
    match id {
        None => "None"@,
        Some(n) => "Some("@ + decimal_text(n as nat) + ")"@,
    }
}

/// Why a parsed helper response is refused, if it is: an answer to another
/// request, or a failure the helper reported (its own errors, or a general
/// message when it gave none).
pub open spec fn response_error(
    id: Option<u64>,
    expected_id: u64,
    ok: bool,
    errors: Seq<Seq<char>>,
) -> Option<Seq<char>> {
    if id != Some(expected_id) {
        Some(
            "sensor helper request id가 일치하지 않습니다: expected "@ + decimal_text(
                expected_id as nat,
            ) + ", got "@ + id_debug_text(id),
        )
    } else if !ok {
        Some(
            if errors.len() == 0 {
                "sensor helper가 실패 응답을 반환했습니다."@
            } else {
                joined_text(errors, "; "@)
            },
        )
    } else {
        None
    }
}

/// Checks a parsed helper response against the request it answers.
pub fn check_response(id: Option<u64>, expected_id: u64, ok: bool, errors: &Vec<String>) -> (r:
    Result<(), String>)
    ensures
        match r {
            Ok(()) => response_error(id, expected_id, ok, texts(errors@)) is None,
            Err(e) => response_error(id, expected_id, ok, texts(errors@)) == Some(e@),
        },
{
    let matches = match id {
        Some(n) => n == expected_id,
        None => false,
    };
    if !matches {
        let mut message = owned("sensor helper request id가 일치하지 않습니다: expected ");
        push_decimal(&mut message, expected_id);
        message.append(", got ");
        match id {
            None => message.append("None"),
            Some(n) => {
                message.append("Some(");
                push_decimal(&mut message, n);
                message.append(")");
            },
        }
        proof {
            assert(message@ =~= "sensor helper request id가 일치하지 않습니다: expected "@
                + decimal_text(expected_id as nat) + ", got "@ + id_debug_text(id));
        }
        return Err(message);
    }
    if !ok {
        if errors.len() == 0 {
            return Err(owned("sensor helper가 실패 응답을 반환했습니다."));
        }
        return Err(join_texts(errors, "; "));
    }
    Ok(())
}

} // verus!
