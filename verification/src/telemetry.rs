//! Decoding of inbound telemetry payloads.
//!
//! A payload is a JSON object `{ "status": { ... }, "message": string|null,
//! "timestamp": string }`: the four status fields are booleans or `null`
//! (`null` and an absent field both mean "unknown"), `message` may be absent,
//! and `timestamp` must be an RFC 3339 timestamp.  Keys may come in any
//! order; a duplicate or unknown key, a trailing comma, or trailing text make
//! the payload malformed.  JSON strings support the usual escapes, `\uXXXX`
//! and surrogate pairs included.

use vstd::prelude::*;

use crate::rfc3339::{rfc3339_valid, validate_rfc3339};
use crate::status::StationStatus;
use crate::text::{chars_match, chars_of, is_space, space, string_from_chars};
use crate::tristate::TriState;

verus! {

/// Why a telemetry payload was rejected.
#[derive(Clone, Copy, Debug, PartialEq, Eq, Structural)]
pub enum DecodeError {
    /// The payload is not a report of the expected shape.
    Malformed,
}

/// The mathematical value of a telemetry report.
pub ghost struct ReportView {
    pub status: StationStatus,
    pub message: Option<Seq<char>>,
    pub timestamp: Seq<char>,
}

/// One decoded telemetry report: a status snapshot, an optional one-shot
/// message, and the timestamp the station reported.
#[derive(Clone, Debug, PartialEq)]
pub struct TelemetryReport {
    pub status: StationStatus,
    pub message: Option<String>,
    pub timestamp: String,
}

impl View for TelemetryReport {
    type V = ReportView;

    open spec fn view(&self) -> ReportView {
        ReportView {
            status: self.status,
            message: match self.message {
                Some(m) => Some(m@),
                None => None,
            },
            timestamp: self.timestamp@,
        }
    }
}

/// The first position at or after `i` holding no whitespace.
pub open spec fn skip_ws(s: Seq<char>, i: int) -> int
    decreases s.len() - i,
{
    if 0 <= i < s.len() && is_space(s[i]) {
        skip_ws(s, i + 1)
    } else {
        i
    }
}

/// The value of a hexadecimal digit, if the character is one.
pub open spec fn hex_digit_val(c: char) -> Option<u32> {
    if '0' <= c && c <= '9' {
        Some((c as u32 - 48) as u32)
    } else if 'a' <= c && c <= 'f' {
        Some((c as u32 - 87) as u32)
    } else if 'A' <= c && c <= 'F' {
        Some((c as u32 - 55) as u32)
    } else {
        None
    }
}

/// The value of the four hexadecimal digits at `i`, if they are there.
pub open spec fn hex4_val(s: Seq<char>, i: int) -> Option<u32> {
    if 0 <= i && i + 4 <= s.len() && hex_digit_val(s[i]) is Some && hex_digit_val(s[i + 1]) is Some
        && hex_digit_val(s[i + 2]) is Some && hex_digit_val(s[i + 3]) is Some {
        Some(
            (hex_digit_val(s[i])->Some_0 * 0x1000 + hex_digit_val(s[i + 1])->Some_0 * 0x100
                + hex_digit_val(s[i + 2])->Some_0 * 0x10 + hex_digit_val(s[i + 3])->Some_0) as u32,
        )
    } else {
        None
    }
}

/// The rest of a JSON string starting at `i` (just past the opening quote or
/// the last consumed character), with `acc` the characters read so far: the
/// string's characters and the position just past the closing quote.  Raw
/// control characters and bad escapes yield `None`; `\uXXXX` escapes cover
/// the basic plane and surrogate pairs.
pub open spec fn string_body(s: Seq<char>, i: int, acc: Seq<char>) -> Option<(Seq<char>, int)>
    decreases s.len() - i,
{
    if i < 0 || i >= s.len() {
        None
    } else if s[i] == '"' {
        Some((acc, i + 1))
    } else if s[i] == '\\' {
        if i + 1 >= s.len() {
            None
        } else {
            let e = s[i + 1];
            if e == '"' {
                string_body(s, i + 2, acc.push('"'))
            } else if e == '\\' {
                string_body(s, i + 2, acc.push('\\'))
            } else if e == '/' {
                string_body(s, i + 2, acc.push('/'))
            } else if e == 'b' {
                string_body(s, i + 2, acc.push('\u{8}'))
            } else if e == 'f' {
                string_body(s, i + 2, acc.push('\u{c}'))
            } else if e == 'n' {
                string_body(s, i + 2, acc.push('\n'))
            } else if e == 'r' {
                string_body(s, i + 2, acc.push('\r'))
            } else if e == 't' {
                string_body(s, i + 2, acc.push('\t'))
            } else if e == 'u' {
                match hex4_val(s, i + 2) {
                    Some(v) => if 0xD800 <= v && v <= 0xDBFF {
                        if i + 7 < s.len() && s[i + 6] == '\\' && s[i + 7] == 'u' {
                            match hex4_val(s, i + 8) {
                                Some(w) => if 0xDC00 <= w && w <= 0xDFFF {
                                    string_body(
                                        s,
                                        i + 12,
                                        acc.push(
                                            ((0x10000 + (v - 0xD800) * 0x400 + (
                                            w - 0xDC00)) as u32) as char,
                                        ),
                                    )
                                } else {
                                    None
                                },
                                None => None,
                            }
                        } else {
                            None
                        }
                    } else if 0xDC00 <= v && v <= 0xDFFF {
                        None
                    } else {
                        string_body(s, i + 6, acc.push(v as char))
                    },
                    None => None,
                }
            } else {
                None
            }
        }
    } else if (s[i] as u32) < 0x20 {
        None
    } else {
        string_body(s, i + 1, acc.push(s[i]))
    }
}

/// A JSON string at `i`: its characters and the position just past it.
pub open spec fn parse_string(s: Seq<char>, i: int) -> Option<(Seq<char>, int)> {
    if 0 <= i < s.len() && s[i] == '"' {
        string_body(s, i + 1, Seq::empty())
    } else {
        None
    }
}

/// Whether the four characters of `null` stand at `i`.
pub open spec fn null_at(s: Seq<char>, i: int) -> bool {
    0 <= i && i + 4 <= s.len() && s[i] == 'n' && s[i + 1] == 'u' && s[i + 2] == 'l' && s[i + 3]
        == 'l'
}

/// A JSON boolean or `null` at `i`: the optional boolean and the position
/// just past it.
pub open spec fn parse_bool_null(s: Seq<char>, i: int) -> Option<(Option<bool>, int)> {
    if 0 <= i && i + 4 <= s.len() && s[i] == 't' && s[i + 1] == 'r' && s[i + 2] == 'u' && s[i + 3]
        == 'e' {
        Some((Some(true), i + 4))
    } else if 0 <= i && i + 5 <= s.len() && s[i] == 'f' && s[i + 1] == 'a' && s[i + 2] == 'l' && s[i
        + 3] == 's' && s[i + 4] == 'e' {
        Some((Some(false), i + 5))
    } else if null_at(s, i) {
        Some((None, i + 4))
    } else {
        None
    }
}

/// A JSON string or `null` at `i`, as the value of the `message` field.
pub open spec fn parse_message_val(s: Seq<char>, i: int) -> Option<(Option<Seq<char>>, int)> {
    if 0 <= i < s.len() && s[i] == '"' {
        match parse_string(s, i) {
            Some((t, j)) => Some((Some(t), j)),
            None => None,
        }
    } else if null_at(s, i) {
        Some((None, i + 4))
    } else {
        None
    }
}

/// The status fields seen so far while reading a status object: `None` marks
/// a field not yet named, so that a duplicate can be told apart.
pub ghost struct StatusAcc {
    pub tx_power_enabled: Option<TriState>,
    pub tx_power_active: Option<TriState>,
    pub ptt_enabled: Option<TriState>,
    pub ptt_active: Option<TriState>,
}

/// The empty status accumulator: no field named yet.
pub open spec fn status_acc_empty() -> StatusAcc {
    StatusAcc { tx_power_enabled: None, tx_power_active: None, ptt_enabled: None, ptt_active: None }
}

/// The snapshot an accumulator denotes: a field never named is unknown.
pub open spec fn status_of_acc(acc: StatusAcc) -> StationStatus {
    StationStatus {
        tx_power_enabled: acc.tx_power_enabled.unwrap_or(TriState::Unknown),
        tx_power_active: acc.tx_power_active.unwrap_or(TriState::Unknown),
        ptt_enabled: acc.ptt_enabled.unwrap_or(TriState::Unknown),
        ptt_active: acc.ptt_active.unwrap_or(TriState::Unknown),
    }
}

/// The accumulator after naming `key` with value `v`, or `None` for an
/// unknown or repeated key.
pub open spec fn status_acc_set(acc: StatusAcc, key: Seq<char>, v: Option<bool>) -> Option<
    StatusAcc,
> {
    let t = TriState::spec_from_option(v);
    if key == "tx_power_enabled"@ {
        if acc.tx_power_enabled is None {
            Some(StatusAcc { tx_power_enabled: Some(t), ..acc })
        } else {
            None
        }
    } else if key == "tx_power_active"@ {
        if acc.tx_power_active is None {
            Some(StatusAcc { tx_power_active: Some(t), ..acc })
        } else {
            None
        }
    } else if key == "ptt_enabled"@ {
        if acc.ptt_enabled is None {
            Some(StatusAcc { ptt_enabled: Some(t), ..acc })
        } else {
            None
        }
    } else if key == "ptt_active"@ {
        if acc.ptt_active is None {
            Some(StatusAcc { ptt_active: Some(t), ..acc })
        } else {
            None
        }
    } else {
        None
    }
}

/// The members of a status object from `i` on (just past `{` or a comma):
/// the accumulator after this and all following members, and the position
/// just past the closing brace.
pub open spec fn status_members(s: Seq<char>, i: int, acc: StatusAcc) -> Option<(StatusAcc, int)>
    decreases s.len() - i,
{
    if i < 0 {
        None
    } else {
        let k = skip_ws(s, i);
        match parse_string(s, k) {
            Some((key, j)) => {
                let c = skip_ws(s, j);
                if c < s.len() && s[c] == ':' {
                    match parse_bool_null(s, skip_ws(s, c + 1)) {
                        Some((v, m)) => match status_acc_set(acc, key, v) {
                            Some(acc2) => {
                                let e = skip_ws(s, m);
                                if e < s.len() && s[e] == ',' {
                                    if i <= e {
                                        status_members(s, e + 1, acc2)
                                    } else {
                                        None
                                    }
                                } else if e < s.len() && s[e] == '}' {
                                    Some((acc2, e + 1))
                                } else {
                                    None
                                }
                            },
                            None => None,
                        },
                        None => None,
                    }
                } else {
                    None
                }
            },
            None => None,
        }
    }
}

/// A status object at `i`: the snapshot it denotes and the position just
/// past it.  Absent fields are unknown.
pub open spec fn parse_status(s: Seq<char>, i: int) -> Option<(StationStatus, int)> {
    if 0 <= i < s.len() && s[i] == '{' {
        let k = skip_ws(s, i + 1);
        if k < s.len() && s[k] == '}' {
            Some((status_of_acc(status_acc_empty()), k + 1))
        } else {
            match status_members(s, i + 1, status_acc_empty()) {
                Some((acc, j)) => Some((status_of_acc(acc), j)),
                None => None,
            }
        }
    } else {
        None
    }
}

/// The report fields seen so far while reading the top-level object.
pub ghost struct ReportAcc {
    pub status: Option<StationStatus>,
    pub message: Option<Option<Seq<char>>>,
    pub timestamp: Option<Seq<char>>,
}

/// The empty report accumulator: no field named yet.
pub open spec fn report_acc_empty() -> ReportAcc {
    ReportAcc { status: None, message: None, timestamp: None }
}

/// The members of the top-level report object from `i` on (just past `{` or
/// a comma): the accumulator after this and all following members, and the
/// position just past the closing brace.
pub open spec fn report_members(s: Seq<char>, i: int, acc: ReportAcc) -> Option<(ReportAcc, int)>
    decreases s.len() - i,
{
    if i < 0 {
        None
    } else {
        let k = skip_ws(s, i);
        match parse_string(s, k) {
            Some((key, j)) => {
                let c = skip_ws(s, j);
                if c < s.len() && s[c] == ':' {
                    let v = skip_ws(s, c + 1);
                    let stepped: Option<(ReportAcc, int)> = if key == "status"@ {
                        if acc.status is None {
                            match parse_status(s, v) {
                                Some((st, m)) => Some((ReportAcc { status: Some(st), ..acc }, m)),
                                None => None,
                            }
                        } else {
                            None
                        }
                    } else if key == "message"@ {
                        if acc.message is None {
                            match parse_message_val(s, v) {
                                Some((msg, m)) => Some(
                                    (ReportAcc { message: Some(msg), ..acc }, m),
                                ),
                                None => None,
                            }
                        } else {
                            None
                        }
                    } else if key == "timestamp"@ {
                        if acc.timestamp is None {
                            match parse_string(s, v) {
                                Some((ts, m)) => Some(
                                    (ReportAcc { timestamp: Some(ts), ..acc }, m),
                                ),
                                None => None,
                            }
                        } else {
                            None
                        }
                    } else {
                        None
                    };
                    match stepped {
                        Some((acc2, m)) => {
                            let e = skip_ws(s, m);
                            if e < s.len() && s[e] == ',' {
                                if i <= e {
                                    report_members(s, e + 1, acc2)
                                } else {
                                    None
                                }
                            } else if e < s.len() && s[e] == '}' {
                                Some((acc2, e + 1))
                            } else {
                                None
                            }
                        },
                        None => None,
                    }
                } else {
                    None
                }
            },
            None => None,
        }
    }
}

/// What decoding a payload yields: the whole text must be one report object,
/// `status` and a valid RFC 3339 `timestamp` are required, `message` may be
/// absent or `null`.
pub open spec fn spec_decode(s: Seq<char>) -> Option<ReportView> {
    let i = skip_ws(s, 0);
    if i < s.len() && s[i] == '{' {
        let members = {
            let k = skip_ws(s, i + 1);
            if k < s.len() && s[k] == '}' {
                Some((report_acc_empty(), k + 1))
            } else {
                report_members(s, i + 1, report_acc_empty())
            }
        };
        match members {
            Some((acc, j)) => if skip_ws(s, j) == s.len() {
                match (acc.status, acc.timestamp) {
                    (Some(st), Some(ts)) => if rfc3339_valid(ts) {
                        Some(
                            ReportView {
                                status: st,
                                message: match acc.message {
                                    Some(m) => m,
                                    None => None,
                                },
                                timestamp: ts,
                            },
                        )
                    } else {
                        None
                    },
                    _ => None,
                }
            } else {
                None
            },
            None => None,
        }
    } else {
        None
    }
}

/// The first position at or after `i` holding no whitespace.
fn skip_spaces(v: &[char], i: usize) -> (r: usize)
    requires
        i <= v@.len(),
    ensures
        r as int == skip_ws(v@, i as int),
        i <= r <= v@.len(),
{
    let mut k = i;
    while k < v.len() && space(v[k])
        invariant
            i <= k <= v@.len(),
            skip_ws(v@, i as int) == skip_ws(v@, k as int),
        decreases v@.len() - k,
    {
        k = k + 1;
    }
    k
}

/// The value of a hexadecimal digit, if the character is one.
fn hex_digit(c: char) -> (r: Option<u32>)
    ensures
        r == hex_digit_val(c),
{
    if '0' <= c && c <= '9' {
        Some(c as u32 - 48)
    } else if 'a' <= c && c <= 'f' {
        Some(c as u32 - 87)
    } else if 'A' <= c && c <= 'F' {
        Some(c as u32 - 55)
    } else {
        None
    }
}

/// The value of the four hexadecimal digits at `i`, if they are there.
fn hex4(v: &[char], i: usize) -> (r: Option<u32>)
    requires
        i <= v@.len(),
    ensures
        r == hex4_val(v@, i as int),
{
    if v.len() - i < 4 {
        return None;
    }
    let h0 = hex_digit(v[i]);
    let h1 = hex_digit(v[i + 1]);
    let h2 = hex_digit(v[i + 2]);
    let h3 = hex_digit(v[i + 3]);
    match (h0, h1, h2, h3) {
        (Some(a), Some(b), Some(c), Some(d)) => Some(a * 0x1000 + b * 0x100 + c * 0x10 + d),
        _ => None,
    }
}

/// Reads the JSON string at `i`: its unescaped characters and the position
/// just past the closing quote.
fn scan_string(v: &[char], i: usize) -> (r: Option<(Vec<char>, usize)>)
    requires
        i <= v@.len(),
    ensures
        match r {
            Some((t, j)) => parse_string(v@, i as int) == Some((t@, j as int)) && i < j <= v@.len(),
            None => parse_string(v@, i as int) is None,
        },
{
    if i >= v.len() || v[i] != '"' {
        return None;
    }
    let mut k: usize = i + 1;
    let mut acc: Vec<char> = Vec::new();
    assert(acc@ =~= Seq::<char>::empty());
    loop
        invariant
            i + 1 <= k <= v@.len(),
            parse_string(v@, i as int) == string_body(v@, k as int, acc@),
        decreases v@.len() - k,
    {
        if k >= v.len() {
            return None;
        }
        let c = v[k];
        if c == '"' {
            return Some((acc, k + 1));
        } else if c == '\\' {
            if k + 1 >= v.len() {
                return None;
            }
            let e = v[k + 1];
            if e == '"' {
                acc.push('"');
                k = k + 2;
            } else if e == '\\' {
                acc.push('\\');
                k = k + 2;
            } else if e == '/' {
                acc.push('/');
                k = k + 2;
            } else if e == 'b' {
                acc.push('\u{8}');
                k = k + 2;
            } else if e == 'f' {
                acc.push('\u{c}');
                k = k + 2;
            } else if e == 'n' {
                acc.push('\n');
                k = k + 2;
            } else if e == 'r' {
                acc.push('\r');
                k = k + 2;
            } else if e == 't' {
                acc.push('\t');
                k = k + 2;
            } else if e == 'u' {
                match hex4(v, k + 2) {
                    Some(val) => {
                        if 0xD800 <= val && val <= 0xDBFF {
                            if v.len() - k > 7 && v[k + 6] == '\\' && v[k + 7] == 'u' {
                                match hex4(v, k + 8) {
                                    Some(w) => {
                                        if 0xDC00 <= w && w <= 0xDFFF {
                                            let u: u32 = 0x10000 + (val - 0xD800) * 0x400 + (w
                                                - 0xDC00);
                                            acc.push(char::from_u32(u).unwrap());
                                            k = k + 12;
                                        } else {
                                            return None;
                                        }
                                    },
                                    None => {
                                        return None;
                                    },
                                }
                            } else {
                                return None;
                            }
                        } else if 0xDC00 <= val && val <= 0xDFFF {
                            return None;
                        } else {
                            acc.push(char::from_u32(val).unwrap());
                            k = k + 6;
                        }
                    },
                    None => {
                        return None;
                    },
                }
            } else {
                return None;
            }
        } else if (c as u32) < 0x20 {
            return None;
        } else {
            acc.push(c);
            k = k + 1;
        }
    }
}

/// Reads the JSON boolean or `null` at `i`.
fn scan_bool_null(v: &[char], i: usize) -> (r: Option<(Option<bool>, usize)>)
    requires
        i <= v@.len(),
    ensures
        match r {
            Some((b, j)) => parse_bool_null(v@, i as int) == Some((b, j as int)) && i < j
                <= v@.len(),
            None => parse_bool_null(v@, i as int) is None,
        },
{
    if v.len() - i >= 4 && v[i] == 't' && v[i + 1] == 'r' && v[i + 2] == 'u' && v[i + 3] == 'e' {
        let b: Option<bool> = Some(true);
        return Some((b, i + 4));
    }
    if v.len() - i >= 5 && v[i] == 'f' && v[i + 1] == 'a' && v[i + 2] == 'l' && v[i + 3] == 's'
        && v[i + 4] == 'e' {
        let b: Option<bool> = Some(false);
        return Some((b, i + 5));
    }
    if v.len() - i >= 4 && v[i] == 'n' && v[i + 1] == 'u' && v[i + 2] == 'l' && v[i + 3] == 'l' {
        let b: Option<bool> = None;
        return Some((b, i + 4));
    }
    None
}

/// Reads the `message` value at `i`: a JSON string or `null`.
fn scan_message_val(v: &[char], i: usize) -> (r: Option<(Option<Vec<char>>, usize)>)
    requires
        i <= v@.len(),
    ensures
        match r {
            Some((m, j)) => parse_message_val(v@, i as int) == Some(
                (
                    match m {
                        Some(t) => Some(t@),
                        None => None,
                    },
                    j as int,
                ),
            ) && i < j <= v@.len(),
            None => parse_message_val(v@, i as int) is None,
        },
{
    if i < v.len() && v[i] == '"' {
        match scan_string(v, i) {
            Some((t, j)) => Some((Some(t), j)),
            None => None,
        }
    } else if v.len() - i >= 4 && v[i] == 'n' && v[i + 1] == 'u' && v[i + 2] == 'l' && v[i + 3]
        == 'l' {
        let m: Option<Vec<char>> = None;
        Some((m, i + 4))
    } else {
        None
    }
}

/// Reads the status object at `i`.
fn scan_status(v: &[char], i: usize) -> (r: Option<(StationStatus, usize)>)
    requires
        i <= v@.len(),
    ensures
        match r {
            Some((st, j)) => parse_status(v@, i as int) == Some((st, j as int)) && i < j
                <= v@.len(),
            None => parse_status(v@, i as int) is None,
        },
{
    if i >= v.len() || v[i] != '{' {
        return None;
    }
    let k0 = skip_spaces(v, i + 1);
    if k0 < v.len() && v[k0] == '}' {
        let st = StationStatus::initial();
        assert(st == status_of_acc(status_acc_empty()));
        return Some((st, k0 + 1));
    }
    let mut pos: usize = i + 1;
    let mut f_txe: Option<TriState> = None;
    let mut f_txa: Option<TriState> = None;
    let mut f_pte: Option<TriState> = None;
    let mut f_pta: Option<TriState> = None;
    loop
        invariant
            i < pos <= v@.len(),
            parse_status(v@, i as int) == match status_members(
                v@,
                pos as int,
                StatusAcc {
                    tx_power_enabled: f_txe,
                    tx_power_active: f_txa,
                    ptt_enabled: f_pte,
                    ptt_active: f_pta,
                },
            ) {
                Some((acc, j)) => Some((status_of_acc(acc), j)),
                None => None::<(StationStatus, int)>,
            },
        decreases v@.len() - pos,
    {
        let ghost acc0 = StatusAcc {
            tx_power_enabled: f_txe,
            tx_power_active: f_txa,
            ptt_enabled: f_pte,
            ptt_active: f_pta,
        };
        let k = skip_spaces(v, pos);
        match scan_string(v, k) {
            None => {
                return None;
            },
            Some((key, j)) => {
                let c = skip_spaces(v, j);
                if !(c < v.len() && v[c] == ':') {
                    return None;
                }
                let vpos = skip_spaces(v, c + 1);
                match scan_bool_null(v, vpos) {
                    None => {
                        return None;
                    },
                    Some((val, m)) => {
                        let t = TriState::from_option(val);
                        if chars_match(key.as_slice(), "tx_power_enabled") {
                            if f_txe.is_some() {
                                return None;
                            }
                            f_txe = Some(t);
                        } else if chars_match(key.as_slice(), "tx_power_active") {
                            if f_txa.is_some() {
                                return None;
                            }
                            f_txa = Some(t);
                        } else if chars_match(key.as_slice(), "ptt_enabled") {
                            if f_pte.is_some() {
                                return None;
                            }
                            f_pte = Some(t);
                        } else if chars_match(key.as_slice(), "ptt_active") {
                            if f_pta.is_some() {
                                return None;
                            }
                            f_pta = Some(t);
                        } else {
                            return None;
                        }
                        let ghost acc2 = status_acc_set(acc0, key@, val)->Some_0;
                        let e = skip_spaces(v, m);
                        if e < v.len() && v[e] == ',' {
                            pos = e + 1;
                        } else if e < v.len() && v[e] == '}' {
                            let st = StationStatus {
                                tx_power_enabled: unwrap_or_unknown(f_txe),
                                tx_power_active: unwrap_or_unknown(f_txa),
                                ptt_enabled: unwrap_or_unknown(f_pte),
                                ptt_active: unwrap_or_unknown(f_pta),
                            };
                            assert(st == status_of_acc(acc2));
                            return Some((st, e + 1));
                        } else {
                            return None;
                        }
                    },
                }
            },
        }
    }
}

/// The tri-state a possibly missing field denotes.
fn unwrap_or_unknown(t: Option<TriState>) -> (r: TriState)
    ensures
        r == t.unwrap_or(TriState::Unknown),
{
    match t {
        Some(x) => x,
        None => TriState::Unknown,
    }
}

/// Decodes one telemetry payload, exactly per [`spec_decode`]: `Ok` holds the
/// report it denotes, `Err` marks a payload that is not a well-formed report.
pub fn decode_report(s: &str) -> (r: Result<TelemetryReport, DecodeError>)
    ensures
        match r {
            Ok(t) => spec_decode(s@) == Some(t@),
            Err(_) => spec_decode(s@) is None,
        },
{
    let v = chars_of(s);
    let v = v.as_slice();
    let i = skip_spaces(v, 0);
    if !(i < v.len() && v[i] == '{') {
        return Err(DecodeError::Malformed);
    }
    let k0 = skip_spaces(v, i + 1);
    let members: Option<(Option<StationStatus>, Option<Option<Vec<char>>>, Option<Vec<char>>, usize)>
        = if k0 < v.len() && v[k0] == '}' {
        Some((None, None, None, k0 + 1))
    } else {
        scan_report_members(v, i + 1)
    };
    match members {
        None => Err(DecodeError::Malformed),
        Some((st_o, msg_o, ts_o, j)) => {
            if skip_spaces(v, j) != v.len() {
                return Err(DecodeError::Malformed);
            }
            match (st_o, ts_o) {
                (Some(st), Some(ts)) => {
                    if !validate_rfc3339(ts.as_slice()) {
                        return Err(DecodeError::Malformed);
                    }
                    let message: Option<String> = match msg_o {
                        Some(Some(m)) => Some(string_from_chars(m.as_slice())),
                        _ => None,
                    };
                    let timestamp = string_from_chars(ts.as_slice());
                    Ok(TelemetryReport { status: st, message, timestamp })
                },
                _ => Err(DecodeError::Malformed),
            }
        },
    }
}

/// The report accumulator the three optional fields denote.
spec fn report_acc_of(
    st: Option<StationStatus>,
    msg: Option<Option<Vec<char>>>,
    ts: Option<Vec<char>>,
) -> ReportAcc {
    ReportAcc {
        status: st,
        message: match msg {
            Some(Some(m)) => Some(Some(m@)),
            Some(None) => Some(None),
            None => None,
        },
        timestamp: match ts {
            Some(t) => Some(t@),
            None => None,
        },
    }
}

/// Reads the members of the top-level report object from `i` on.
fn scan_report_members(v: &[char], i: usize) -> (r: Option<
    (Option<StationStatus>, Option<Option<Vec<char>>>, Option<Vec<char>>, usize),
>)
    requires
        i <= v@.len(),
    ensures
        match r {
            Some((st, msg, ts, j)) => report_members(v@, i as int, report_acc_empty()) == Some(
                (report_acc_of(st, msg, ts), j as int),
            ) && j <= v@.len(),
            None => report_members(v@, i as int, report_acc_empty()) is None,
        },
{
    let mut pos: usize = i;
    let mut st_o: Option<StationStatus> = None;
    let mut msg_o: Option<Option<Vec<char>>> = None;
    let mut ts_o: Option<Vec<char>> = None;
    assert(report_acc_of(st_o, msg_o, ts_o) == report_acc_empty());
    loop
        invariant
            i <= pos <= v@.len(),
            report_members(v@, i as int, report_acc_empty()) == report_members(
                v@,
                pos as int,
                report_acc_of(st_o, msg_o, ts_o),
            ),
        decreases v@.len() - pos,
    {
        let ghost acc0 = report_acc_of(st_o, msg_o, ts_o);
        let k = skip_spaces(v, pos);
        match scan_string(v, k) {
            None => {
                return None;
            },
            Some((key, j)) => {
                let c = skip_spaces(v, j);
                if !(c < v.len() && v[c] == ':') {
                    return None;
                }
                let vpos = skip_spaces(v, c + 1);
                let m: usize;
                if chars_match(key.as_slice(), "status") {
                    if st_o.is_some() {
                        return None;
                    }
                    match scan_status(v, vpos) {
                        None => {
                            return None;
                        },
                        Some((st, m2)) => {
                            st_o = Some(st);
                            m = m2;
                        },
                    }
                } else if chars_match(key.as_slice(), "message") {
                    if msg_o.is_some() {
                        return None;
                    }
                    match scan_message_val(v, vpos) {
                        None => {
                            return None;
                        },
                        Some((msg, m2)) => {
                            msg_o = Some(msg);
                            m = m2;
                        },
                    }
                } else if chars_match(key.as_slice(), "timestamp") {
                    if ts_o.is_some() {
                        return None;
                    }
                    match scan_string(v, vpos) {
                        None => {
                            return None;
                        },
                        Some((ts, m2)) => {
                            ts_o = Some(ts);
                            m = m2;
                        },
                    }
                } else {
                    return None;
                }
                let e = skip_spaces(v, m);
                if e < v.len() && v[e] == ',' {
                    pos = e + 1;
                } else if e < v.len() && v[e] == '}' {
                    return Some((st_o, msg_o, ts_o, e + 1));
                } else {
                    return None;
                }
            },
        }
    }
}

} // verus!
