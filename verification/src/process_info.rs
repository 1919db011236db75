//! Process record enrichment and parsing of the process-inspection
//! utility's fixed-format start timestamp.

use crate::error::PortsError;
use crate::models::{opt_view, ProcessInfo, ProcessInfoView};
use crate::text::{
    chars_eq, concat_str, parse_dec, parse_i32, spec_parse_i32, spec_parse_u32, spec_trim,
    split_chars, split_seq, split_ws_ranges, str_to_chars, subvec, trim_str, ws_tokens,
};
use crate::timestamp::{epoch_seconds_of, spec_elapsed, valid_civil, Timestamp};
use vstd::prelude::*;
use vstd::string::StrSliceExecFns;

verus! {

/// The six civil fields read out of a start-time line.
#[verifier::ext_equal]
pub ghost struct LstartFields {
    pub year: int,
    pub month: int,
    pub day: int,
    pub hour: int,
    pub minute: int,
    pub second: int,
}

/// The month number of a three-letter month abbreviation; 0 if unrecognized.
pub open spec fn spec_month_num(t: Seq<char>) -> int {
    if t == "Jan"@ {
        1
    } else if t == "Feb"@ {
        2
    } else if t == "Mar"@ {
        3
    } else if t == "Apr"@ {
        4
    } else if t == "May"@ {
        5
    } else if t == "Jun"@ {
        6
    } else if t == "Jul"@ {
        7
    } else if t == "Aug"@ {
        8
    } else if t == "Sep"@ {
        9
    } else if t == "Oct"@ {
        10
    } else if t == "Nov"@ {
        11
    } else if t == "Dec"@ {
        12
    } else {
        0
    }
}

/// The fields of a start-time line `<weekday> <month> <day> <HH:MM:SS>
/// <year>`: exactly five whitespace-separated tokens, a known month
/// abbreviation, numeric day, time and year, and a valid calendar datetime.
pub open spec fn spec_parse_lstart(s: Seq<char>) -> Option<LstartFields> {
    let toks = ws_tokens(s);
    if toks.len() != 5 {
        None
    } else {
        let month = spec_month_num(toks[1]);
        let day = spec_parse_u32(toks[2]);
        let tparts = split_seq(toks[3], ':');
        let year = spec_parse_i32(toks[4]);
        if month == 0 || day is None || tparts.len() != 3 || year is None {
            None
        } else {
            let hour = spec_parse_u32(tparts[0]);
            let minute = spec_parse_u32(tparts[1]);
            let second = spec_parse_u32(tparts[2]);
            if hour is None || minute is None || second is None {
                None
            } else {
                let f = LstartFields {
                    year: year->0,
                    month,
                    day: day->0 as int,
                    hour: hour->0 as int,
                    minute: minute->0 as int,
                    second: second->0 as int,
                };
                if valid_civil(f.year, f.month, f.day, f.hour, f.minute, f.second) {
                    Some(f)
                } else {
                    None
                }
            }
        }
    }
}

/// The timestamp that a successfully parsed start-time line denotes.
pub open spec fn spec_timestamp(f: LstartFields) -> Timestamp {
    Timestamp {
        year: f.year as i32,
        month: f.month as u32,
        day: f.day as u32,
        hour: f.hour as u32,
        minute: f.minute as u32,
        second: f.second as u32,
        epoch: epoch_seconds_of(f.year, f.month, f.day, f.hour, f.minute, f.second) as i64,
    }
}

/// Parses the inspection utility's start-time format, e.g.
/// `"Wed Jan  1 12:34:56 2025"`. Succeeds exactly on well-formed lines
/// denoting valid calendar datetimes; every failure is a SystemError.
pub fn parse_lstart(lstart: &str) -> (r: Result<Timestamp, PortsError>)
    ensures
        r is Ok <==> spec_parse_lstart(lstart@) is Some,
        r matches Ok(ts) ==> ts == spec_timestamp(spec_parse_lstart(lstart@)->0) && ts.wf(),
        r matches Err(e) ==> e is SystemError,
{
    let v = str_to_chars(lstart);
    let toks = split_ws_ranges(&v);
    if toks.len() != 5 {
        return Err(PortsError::system_error(concat_str("Invalid lstart format: ", lstart)));
    }
    let t1 = toks[1];
    let mtok = subvec(&v, t1.0, t1.1);
    let month: u32 = if chars_eq(&mtok, "Jan") {
        1
    } else if chars_eq(&mtok, "Feb") {
        2
    } else if chars_eq(&mtok, "Mar") {
        3
    } else if chars_eq(&mtok, "Apr") {
        4
    } else if chars_eq(&mtok, "May") {
        5
    } else if chars_eq(&mtok, "Jun") {
        6
    } else if chars_eq(&mtok, "Jul") {
        7
    } else if chars_eq(&mtok, "Aug") {
        8
    } else if chars_eq(&mtok, "Sep") {
        9
    } else if chars_eq(&mtok, "Oct") {
        10
    } else if chars_eq(&mtok, "Nov") {
        11
    } else if chars_eq(&mtok, "Dec") {
        12
    } else {
        0
    };
    proof {
        assert(month as int == spec_month_num(ws_tokens(lstart@)[1]));
    }
    if month == 0 {
        return Err(
            PortsError::system_error(
                concat_str("Unknown month: ", lstart.substring_char(t1.0, t1.1)),
            ),
        );
    }
    let t2 = toks[2];
    let dtok = subvec(&v, t2.0, t2.1);
    let day: u32 = match parse_dec(&dtok, 4294967295) {
        Some(x) => x as u32,
        None => {
            return Err(
                PortsError::system_error(
                    concat_str("Invalid day: ", lstart.substring_char(t2.0, t2.1)),
                ),
            );
        },
    };
    let t3 = toks[3];
    let ttok = subvec(&v, t3.0, t3.1);
    let tparts = split_chars(&ttok, ':');
    if tparts.len() != 3 {
        return Err(
            PortsError::system_error(
                concat_str("Invalid time format: ", lstart.substring_char(t3.0, t3.1)),
            ),
        );
    }
    let hour: u32 = match parse_dec(&tparts[0], 4294967295) {
        Some(x) => x as u32,
        None => {
            return Err(
                PortsError::system_error(
                    concat_str("Invalid hour: ", lstart.substring_char(t3.0, t3.1)),
                ),
            );
        },
    };
    let minute: u32 = match parse_dec(&tparts[1], 4294967295) {
        Some(x) => x as u32,
        None => {
            return Err(
                PortsError::system_error(
                    concat_str("Invalid minute: ", lstart.substring_char(t3.0, t3.1)),
                ),
            );
        },
    };
    let second: u32 = match parse_dec(&tparts[2], 4294967295) {
        Some(x) => x as u32,
        None => {
            return Err(
                PortsError::system_error(
                    concat_str("Invalid second: ", lstart.substring_char(t3.0, t3.1)),
                ),
            );
        },
    };
    let t4 = toks[4];
    let ytok = subvec(&v, t4.0, t4.1);
    let year: i32 = match parse_i32(&ytok) {
        Some(x) => x,
        None => {
            return Err(
                PortsError::system_error(
                    concat_str("Invalid year: ", lstart.substring_char(t4.0, t4.1)),
                ),
            );
        },
    };
    match Timestamp::new(year, month, day, hour, minute, second) {
        Some(ts) => {
            proof {
                let f = spec_parse_lstart(lstart@)->0;
                assert(ts == spec_timestamp(f));
            }
            Ok(ts)
        },
        None => Err(PortsError::system_error(concat_str("Invalid date: ", lstart))),
    }
}

/// The cleaned value of one enrichment lookup: trimmed, and absent when
/// the lookup failed or the trimmed text is empty.
pub open spec fn spec_clean(o: Option<Seq<char>>) -> Option<Seq<char>> {
    match o {
        Some(s) => if spec_trim(s).len() == 0 {
            None
        } else {
            Some(spec_trim(s))
        },
        None => None,
    }
}

/// Trims a lookup result and drops it when empty.
fn clean_field(o: Option<String>) -> (r: Option<String>)
    ensures
        opt_view(r) == spec_clean(opt_view(o)),
{
    match o {
        Some(s) => {
            let t = trim_str(s.as_str());
            if t.as_str().unicode_len() == 0 {
                None
            } else {
                Some(t)
            }
        },
        None => None,
    }
}

/// The record after best-effort enrichment: each cleaned field overwrites
/// its attribute when present; a cleaned start-time line that parses sets
/// the start time, and sets the elapsed seconds when the start does not lie
/// in the future of `now`.
pub open spec fn spec_enrich(
    p: ProcessInfoView,
    command: Option<Seq<char>>,
    lstart: Option<Seq<char>>,
    user: Option<Seq<char>>,
    now: i64,
) -> ProcessInfoView {
    let p1 = match spec_clean(command) {
        Some(c) => ProcessInfoView { command: Some(c), ..p },
        None => p,
    };
    let p2 = match spec_clean(lstart) {
        Some(ls) => match spec_parse_lstart(ls) {
            Some(f) => ProcessInfoView {
                started_at: Some(spec_timestamp(f)),
                elapsed: match spec_elapsed(spec_timestamp(f).epoch, now) {
                    Some(e) => Some(e),
                    None => p1.elapsed,
                },
                ..p1
            },
            None => p1,
        },
        None => p1,
    };
    match spec_clean(user) {
        Some(u) => ProcessInfoView { user: Some(u), ..p2 },
        None => p2,
    }
}

/// Enriches a process record with the results of the three inspection
/// lookups (command line, start-time line, user), each already reduced by
/// the caller to the lookup's raw text, or absent if the lookup failed.
/// Best-effort: a missing or malformed value leaves its field unchanged,
/// and the call never fails.
pub fn enrich_process_info(
    process: &mut ProcessInfo,
    command: Option<String>,
    lstart: Option<String>,
    user: Option<String>,
    now_seconds: i64,
)
    ensures
        final(process)@ == spec_enrich(
            old(process)@,
            opt_view(command),
            opt_view(lstart),
            opt_view(user),
            now_seconds,
        ),
{
    if let Some(c) = clean_field(command) {
        process.command = Some(c);
    }
    if let Some(ls) = clean_field(lstart) {
        match parse_lstart(ls.as_str()) {
            Ok(ts) => {
                match crate::timestamp::elapsed_since(ts.epoch_seconds(), now_seconds) {
                    Some(e) => {
                        process.elapsed = Some(e);
                    },
                    None => {},
                }
                process.started_at = Some(ts);
            },
            Err(_) => {},
        }
    }
    if let Some(u) = clean_field(user) {
        process.user = Some(u);
    }
    proof {
        assert(process@ =~= spec_enrich(
            old(process)@,
            opt_view(command),
            opt_view(lstart),
            opt_view(user),
            now_seconds,
        ));
    }
}

} // verus!
