//! The saved activation session: where it is stored, how it is sealed to the
//! machine, and whether it is still active.

use crate::crypto::{decrypt, decrypts_to, encrypt};
use crate::paths::{is_ordinary_base, is_path_join, is_plain_relative, lemma_join_keeps_ordinary, path_join};
use crate::text::{utf8_error_text, utf8_to_string};
use chrono::{Datelike, NaiveDate};
use vstd::prelude::*;
use vstd::utf8::{decode_utf8, encode_utf8, valid_utf8};

verus! {

/// A saved session: the activated CDK, its expiry date (`YYYY-MM-DD`) and
/// when it was activated.
pub struct SessionData {
    pub cdk: String,
    pub expiry: String,
    pub activated_at: String,
}

/// The session file inside the data directory: `<data_dir>/steam-box/session.dat`.
pub fn session_file(data_dir: &Option<String>) -> (file: Option<String>)
    ensures
        file is Some <==> data_dir is Some,
        data_dir is Some && is_ordinary_base(data_dir->0@) ==> exists|dir: Seq<char>|
            is_path_join(data_dir->0@, "steam-box"@, dir) && is_path_join(
                dir,
                "session.dat"@,
                file->0@,
            ),
{
    match data_dir {
        Some(d) => {
            proof {
                reveal_strlit("steam-box");
                reveal_strlit("session.dat");
                assert(is_plain_relative("steam-box"@));
                assert(is_plain_relative("session.dat"@));
            }
            let dir = path_join(d.as_str(), "steam-box");
            proof {
                if is_ordinary_base(d@) {
                    lemma_join_keeps_ordinary(d@, "steam-box"@, dir@);
                }
            }
            let file = path_join(dir.as_str(), "session.dat");
            Some(file)
        },
        None => None,
    }
}

/// Seal the serialized session for this machine.
pub fn seal_session(json: &str, machine_id: &str) -> (r: Result<Vec<u8>, String>)
    ensures
        r is Ok <==> encode_utf8(json@).len() <= crate::cipher::gcm_max_plaintext(),
        r matches Ok(data) ==> decrypts_to(data@, machine_id@) == Some(encode_utf8(json@)),
        r matches Err(m) ==> m@ == "Encryption failed: aead::Error"@,
{
    match encrypt(json.as_bytes(), machine_id) {
        Ok(data) => Ok(data),
        Err(e) => {
            let m = e.message();
            proof {
                reveal_strlit("Encryption failed: ");
                reveal_strlit("aead::Error");
                reveal_strlit("Encryption failed: aead::Error");
                assert(m@ =~= "Encryption failed: aead::Error"@);
            }
            Err(m)
        },
    }
}

/// Open a sealed session: decrypt it for this machine and read it as UTF-8
/// text. Errors carry the text of the failing step.
pub fn open_session(data: &[u8], machine_id: &str) -> (r: Result<String, String>)
    ensures
        decrypts_to(data@, machine_id@) is Some && valid_utf8(decrypts_to(data@, machine_id@)->0)
            ==> (r matches Ok(s) && s@ == decode_utf8(decrypts_to(data@, machine_id@)->0)),
        decrypts_to(data@, machine_id@) is Some && !valid_utf8(decrypts_to(data@, machine_id@)->0)
            ==> (r matches Err(m) && m@ == utf8_error_text(decrypts_to(data@, machine_id@)->0)),
        decrypts_to(data@, machine_id@) is None && data@.len() < 28 ==> (r matches Err(m) && m@
            == "Invalid data: Data too short to contain nonce and tag"@),
        decrypts_to(data@, machine_id@) is None && data@.len() >= 28 ==> (r matches Err(m) && m@
            == "Decryption failed: aead::Error"@),
{
    match decrypt(data, machine_id) {
        Ok(plain) => utf8_to_string(plain),
        Err(e) => {
            let m = e.message();
            proof {
                reveal_strlit("Invalid data: ");
                reveal_strlit("Data too short to contain nonce and tag");
                reveal_strlit("Invalid data: Data too short to contain nonce and tag");
                reveal_strlit("Decryption failed: ");
                reveal_strlit("aead::Error");
                reveal_strlit("Decryption failed: aead::Error");
                if data@.len() < 28 {
                    assert(m@ =~= "Invalid data: Data too short to contain nonce and tag"@);
                } else {
                    assert(m@ =~= "Decryption failed: aead::Error"@);
                }
            }
            Err(m)
        },
    }
}

/// Leap years of the proleptic Gregorian calendar.
pub open spec fn is_leap_year(y: int) -> bool {
    (y % 4 == 0 && y % 100 != 0) || y % 400 == 0
}

/// The number of days of month `m` of year `y`.
pub open spec fn days_in_month(y: int, m: int) -> int {
    if m == 2 {
        if is_leap_year(y) {
            29
        } else {
            28
        }
    } else if m == 4 || m == 6 || m == 9 || m == 11 {
        30
    } else {
        31
    }
}

/// A calendar date that `chrono::NaiveDate` can hold.
pub open spec fn is_valid_date(y: i32, m: u32, d: u32) -> bool {
    &&& -262143 <= y <= 262142
    &&& 1 <= m <= 12
    &&& 1 <= d <= days_in_month(y as int, m as int)
}

/// The number of days from 1970-01-01 to the given proleptic Gregorian date.
pub open spec fn days_from_civil(y: int, m: int, d: int) -> int {
    let y1 = if m <= 2 {
        y - 1
    } else {
        y
    };
    let era = y1 / 400;
    let yoe = y1 - era * 400;
    let mp = if m > 2 {
        m - 3
    } else {
        m + 9
    };
    let doy = (153 * mp + 2) / 5 + d - 1;
    let doe = yoe * 365 + yoe / 4 - yoe / 100 + doy;
    era * 146097 + doe - 719468
}

/// The date that `chrono::NaiveDate::parse_from_str` reads from `text` with
/// the pattern `format`, as year, month and day; `None` when it fails.
pub uninterp spec fn chrono_parse_date(text: Seq<char>, format: Seq<char>) -> Option<(i32, u32, u32)>;

/// Calls `chrono::NaiveDate::parse_from_str` and reads the year, month and day
/// of the date. Claimed: the outcome is the one named by `chrono_parse_date`,
/// and a date read is one that `NaiveDate` can hold.
#[verifier::external_body]
pub(crate) fn parse_date(text: &str, format: &str) -> (r: Option<(i32, u32, u32)>)
    ensures
        r == chrono_parse_date(text@, format@),
        r matches Some((y, m, d)) ==> is_valid_date(y, m, d),
{
    match NaiveDate::parse_from_str(text, format) {
        Ok(date) => Some((date.year(), date.month(), date.day())),
        Err(_) => None,
    }
}

/// Builds the UTC date and time with `chrono::NaiveDate::from_ymd_opt`,
/// `and_hms_opt` and `and_utc` (both succeed under the `requires`) and calls
/// `DateTime::timestamp`. Claimed: the result is the number of days since
/// 1970-01-01 times 86400 plus the seconds of the day, which is what
/// `timestamp` computes from `num_days_from_ce` and `num_seconds_from_midnight`.
#[verifier::external_body]
pub(crate) fn utc_timestamp(y: i32, m: u32, d: u32, hour: u32, minute: u32, second: u32) -> (t: i64)
    requires
        is_valid_date(y, m, d),
        hour < 24,
        minute < 60,
        second < 60,
    ensures
        t == days_from_civil(y as int, m as int, d as int) * 86400 + hour * 3600 + minute * 60
            + second,
{
    NaiveDate::from_ymd_opt(y, m, d).unwrap().and_hms_opt(hour, minute, second).unwrap().and_utc().timestamp()
}

/// The last second (23:59:59 UTC) of the expiry date written in `expiry` as
/// `YYYY-MM-DD`, as Unix time; `None` when the text is not such a date.
pub open spec fn spec_expiry_deadline(expiry: Seq<char>) -> Option<int> {
    match chrono_parse_date(expiry, "%Y-%m-%d"@) {
        Some((y, m, d)) => Some(days_from_civil(y as int, m as int, d as int) * 86400 + 86399),
        None => None,
    }
}

/// The last second of the expiry day, as Unix time.
pub fn expiry_deadline(expiry: &str) -> (deadline: Option<i64>)
    ensures
        deadline matches Some(t) ==> spec_expiry_deadline(expiry@) == Some(t as int),
        deadline is None ==> spec_expiry_deadline(expiry@) is None,
{
    match parse_date(expiry, "%Y-%m-%d") {
        Some((y, m, d)) => Some(utc_timestamp(y, m, d, 23, 59, 59)),
        None => None,
    }
}

/// Whether a session with this expiry date is still active at Unix time
/// `now` (in whole seconds): until the end of the expiry day in UTC. A date
/// that cannot be read keeps the session active.
pub open spec fn spec_session_active(expiry: Seq<char>, now: int) -> bool {
    match spec_expiry_deadline(expiry) {
        Some(deadline) => now < deadline,
        None => true,
    }
}

/// A session active at some time was active at every earlier time.
pub proof fn lemma_active_earlier(expiry: Seq<char>, earlier: int, later: int)
    requires
        earlier <= later,
        spec_session_active(expiry, later),
    ensures
        spec_session_active(expiry, earlier),
{
}

/// Check whether a session with this expiry date is still active at Unix time `now`.
pub fn session_is_active(expiry: &str, now: i64) -> (active: bool)
    ensures
        active == spec_session_active(expiry@, now as int),
{
    match expiry_deadline(expiry) {
        Some(deadline) => now < deadline,
        None => true,
    }
}

} // verus!
