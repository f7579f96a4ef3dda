//! Snapshot-listing parsing and the recency report for verification runs.
//!
//! The engine's `snapshots --last --json` output is a JSON array of
//! snapshot records. serde_json parses the text; each field the report
//! needs is read out through a trusted accessor whose result is named as
//! a function of the listing text, so that the classification below owes
//! the exact recency report for every well-formed listing.
use vstd::prelude::*;

use crate::numfmt::dec_int;
use crate::numfmt::signed_dec;
use crate::outcome::CmdOutput;
use crate::outcome::TaskOutcome;
use crate::strutil::join_seq;
use crate::strutil::join_strings;
use crate::strutil::lemma_string_vec_deep_view;

verus! {

/// serde_json's parsed JSON value, carried opaquely; the accessors below
/// read single fields out of it.
#[verifier::external_type_specification]
#[verifier::external_body]
pub struct ExValue(serde_json::Value);

/// Relies on serde_json::Value::as_str: the string slice of a JSON
/// string, `None` for any other kind of value.
pub assume_specification<'a>[ serde_json::Value::as_str ](v: &'a serde_json::Value) -> Option<
    &'a str,
>;

/// Relies on serde_json::Value::as_i64: a JSON number that fits an i64,
/// `None` otherwise.
pub assume_specification[ serde_json::Value::as_i64 ](v: &serde_json::Value) -> Option<i64>;

/// Relies on serde_json::Value::is_null: whether the value is JSON null.
pub assume_specification[ serde_json::Value::is_null ](v: &serde_json::Value) -> bool;

/// Relies on serde_json::Value::get with a string index: the field of a
/// JSON object under that key, if the value is an object that has it.
#[verifier::external_body]
fn value_get<'a>(v: &'a serde_json::Value, key: &str) -> (r: Option<&'a serde_json::Value>) {
    v.get(key)
}

/// The field of `v` under `key` when `v` is a JSON object and that field
/// is a string; a function of the value and key alone.
pub uninterp spec fn json_str_field_of(v: serde_json::Value, key: Seq<char>) -> Option<Seq<char>>;

/// The length of the field of `v` under `key` when that field is a JSON
/// array; a function of the value and key alone.
pub uninterp spec fn json_arr_len_of(v: serde_json::Value, key: Seq<char>) -> Option<nat>;

/// Element `i` of the array field of `v` under `key` when that element is
/// a string; a function of the value, key and index alone.
pub uninterp spec fn json_str_elem_of(v: serde_json::Value, key: Seq<char>, i: int) -> Option<
    Seq<char>,
>;

/// Relies on serde_json::Value::get and Value::as_str: the string field
/// of a JSON object under `key`, a deterministic function of the value.
#[verifier::external_body]
fn get_str_field(v: &serde_json::Value, key: &str) -> (r: Option<String>)
    ensures
        r matches Some(x) ==> json_str_field_of(*v, key@) == Some(x@),
        r is None ==> json_str_field_of(*v, key@) is None,
{
    match v.get(key) {
        Some(f) => f.as_str().map(|s| s.to_string()),
        None => None,
    }
}

/// Relies on serde_json::Value::get and Value::as_array: the length of
/// the array field of a JSON object under `key`, a deterministic function
/// of the value.
#[verifier::external_body]
fn get_arr_len(v: &serde_json::Value, key: &str) -> (r: Option<usize>)
    ensures
        r matches Some(n) ==> json_arr_len_of(*v, key@) == Some(n as nat),
        r is None ==> json_arr_len_of(*v, key@) is None,
{
    match v.get(key) {
        Some(f) => f.as_array().map(|a| a.len()),
        None => None,
    }
}

/// Relies on serde_json::Value::get, Value::as_array, slice::get and
/// Value::as_str: string element `i` of the array field of a JSON object
/// under `key`, a deterministic function of the value.
#[verifier::external_body]
fn get_str_elem(v: &serde_json::Value, key: &str, i: usize) -> (r: Option<String>)
    ensures
        r matches Some(x) ==> json_str_elem_of(*v, key@, i as int) == Some(x@),
        r is None ==> json_str_elem_of(*v, key@, i as int) is None,
{
    let f = match v.get(key) {
        Some(f) => f,
        None => return None,
    };
    let a = match f.as_array() {
        Some(a) => a,
        None => return None,
    };
    match a.get(i) {
        Some(e) => e.as_str().map(|s| s.to_string()),
        None => None,
    }
}

/// Whether `s` is a JSON array, and of how many elements, as serde_json
/// reads it; a function of the text alone.
pub uninterp spec fn json_array_len_of(s: Seq<char>) -> Option<nat>;

/// `json_str_field_of` for element `i` of the JSON array `s`; a function
/// of the text alone, since parsing is deterministic.
pub uninterp spec fn listing_str_field_of(s: Seq<char>, i: int, key: Seq<char>) -> Option<
    Seq<char>,
>;

/// `json_arr_len_of` for element `i` of the JSON array `s`.
pub uninterp spec fn listing_arr_len_of(s: Seq<char>, i: int, key: Seq<char>) -> Option<nat>;

/// `json_str_elem_of` for element `i` of the JSON array `s`.
pub uninterp spec fn listing_str_elem_of(s: Seq<char>, i: int, key: Seq<char>, j: int) -> Option<
    Seq<char>,
>;

/// Relies on serde_json::from_str for `Vec<serde_json::Value>`: parsing
/// is deterministic, an `Ok` holds one value per element of the top-level
/// JSON array, and what the accessors above read from each element is
/// therefore a function of the text and the element's position.
#[verifier::external_body]
fn parse_json_array(s: &str) -> (r: Result<Vec<serde_json::Value>, String>)
    ensures
        r matches Ok(v) ==> json_array_len_of(s@) == Some(v@.len() as nat),
        r is Err ==> json_array_len_of(s@) is None,
        r matches Ok(v) ==> forall|i: int, key: Seq<char>|
            0 <= i < v@.len() ==> #[trigger] json_str_field_of(v@[i], key)
                == listing_str_field_of(s@, i, key),
        r matches Ok(v) ==> forall|i: int, key: Seq<char>|
            0 <= i < v@.len() ==> #[trigger] json_arr_len_of(v@[i], key) == listing_arr_len_of(
                s@,
                i,
                key,
            ),
        r matches Ok(v) ==> forall|i: int, key: Seq<char>, j: int|
            0 <= i < v@.len() ==> #[trigger] json_str_elem_of(v@[i], key, j)
                == listing_str_elem_of(s@, i, key, j),
{
    match serde_json::from_str::<Vec<serde_json::Value>>(s) {
        Ok(v) => Ok(v),
        Err(e) => Err(e.to_string()),
    }
}

/// The timestamp `s` read as whole seconds since the Unix epoch, when `s`
/// is a valid RFC 3339 date-and-time; the result is a function of the
/// text alone.
pub uninterp spec fn rfc3339_unix_of(s: Seq<char>) -> Option<int>;

/// Relies on chrono's DateTime::parse_from_rfc3339 and
/// DateTime::timestamp: both are deterministic functions of the text.
#[verifier::external_body]
fn parse_rfc3339_unix(s: &str) -> (r: Option<i64>)
    ensures
        r matches Some(t) ==> rfc3339_unix_of(s@) == Some(t as int),
        r is None ==> rfc3339_unix_of(s@) is None,
{
    match chrono::DateTime::parse_from_rfc3339(s) {
        Ok(d) => Some(d.timestamp()),
        Err(_) => None,
    }
}

/// One snapshot record of the engine's structured listing, with its
/// timestamp resolved to whole seconds since the Unix epoch.
#[derive(Debug)]
pub struct SnapshotRecord {
    pub time_unix: i64,
    pub parent: Option<String>,
    pub tree: String,
    pub paths: Vec<String>,
    pub hostname: String,
    pub username: Option<String>,
    pub uid: Option<i64>,
    pub gid: Option<i64>,
    pub id: String,
    pub short_id: String,
}

/// Whether one parsed JSON value is a well-formed snapshot record: the
/// required string fields are present, the timestamp is valid RFC 3339,
/// and the paths field is an array of strings.
pub open spec fn record_wf(v: serde_json::Value) -> bool {
    &&& match json_str_field_of(v, "time"@) {
        Some(ts) => rfc3339_unix_of(ts) is Some,
        None => false,
    }
    &&& match json_arr_len_of(v, "paths"@) {
        Some(n) => forall|j: int| 0 <= j < n ==> json_str_elem_of(v, "paths"@, j) is Some,
        None => false,
    }
    &&& json_str_field_of(v, "tree"@) is Some
    &&& json_str_field_of(v, "hostname"@) is Some
    &&& json_str_field_of(v, "id"@) is Some
    &&& json_str_field_of(v, "short_id"@) is Some
}

/// The timestamp of a well-formed record, in seconds since the epoch.
pub open spec fn record_time(v: serde_json::Value) -> int {
    rfc3339_unix_of(json_str_field_of(v, "time"@).unwrap()).unwrap()
}

/// The backed-up paths of a well-formed record.
pub open spec fn record_paths(v: serde_json::Value) -> Seq<Seq<char>> {
    Seq::new(
        json_arr_len_of(v, "paths"@).unwrap(),
        |j: int| json_str_elem_of(v, "paths"@, j).unwrap(),
    )
}

/// An optional string field of a record: absent, null or not a string is
/// `None`.
fn optional_string_field(v: &serde_json::Value, key: &str) -> Option<String> {
    match value_get(v, key) {
        Some(f) => {
            if f.is_null() {
                None
            } else {
                match f.as_str() {
                    Some(s) => Some(s.to_owned()),
                    None => None,
                }
            }
        },
        None => None,
    }
}

/// An optional integer field of a record: absent, null or not an i64
/// number is `None`.
fn optional_int_field(v: &serde_json::Value, key: &str) -> Option<i64> {
    match value_get(v, key) {
        Some(f) => {
            if f.is_null() {
                None
            } else {
                f.as_i64()
            }
        },
        None => None,
    }
}

/// Read one snapshot record out of a parsed JSON value: `Ok` exactly for
/// a well-formed record, with the timestamp and paths the record carries;
/// the error names the first missing or malformed required field.
fn extract_record(v: &serde_json::Value) -> (r: Result<SnapshotRecord, String>)
    ensures
        r is Ok <==> record_wf(*v),
        r matches Ok(rec) ==> rec.time_unix as int == record_time(*v) && rec.paths.deep_view()
            == record_paths(*v),
{
    let time_str = match get_str_field(v, "time") {
        Some(ts) => ts,
        None => {
            return Err(String::from_str("time"));
        },
    };
    let time_unix = match parse_rfc3339_unix(time_str.as_str()) {
        Some(t) => t,
        None => {
            return Err(String::from_str("time"));
        },
    };
    let n: usize = match get_arr_len(v, "paths") {
        Some(n) => n,
        None => {
            return Err(String::from_str("paths"));
        },
    };
    let mut paths: Vec<String> = Vec::new();
    let mut j: usize = 0;
    while j < n
        invariant
            0 <= j <= n,
            json_arr_len_of(*v, "paths"@) == Some(n as nat),
            paths@.len() == j,
            forall|k: int|
                0 <= k < j ==> json_str_elem_of(*v, "paths"@, k) == Some((#[trigger] paths@[k])@),
        decreases n - j,
    {
        match get_str_elem(v, "paths", j) {
            Some(p) => {
                paths.push(p);
            },
            None => {
                return Err(String::from_str("paths"));
            },
        }
        j += 1;
    }
    let tree = match get_str_field(v, "tree") {
        Some(x) => x,
        None => {
            return Err(String::from_str("tree"));
        },
    };
    let hostname = match get_str_field(v, "hostname") {
        Some(x) => x,
        None => {
            return Err(String::from_str("hostname"));
        },
    };
    let id = match get_str_field(v, "id") {
        Some(x) => x,
        None => {
            return Err(String::from_str("id"));
        },
    };
    let short_id = match get_str_field(v, "short_id") {
        Some(x) => x,
        None => {
            return Err(String::from_str("short_id"));
        },
    };
    let rec = SnapshotRecord {
        time_unix,
        parent: optional_string_field(v, "parent"),
        tree,
        paths,
        hostname,
        username: optional_string_field(v, "username"),
        uid: optional_int_field(v, "uid"),
        gid: optional_int_field(v, "gid"),
        id,
        short_id,
    };
    proof {
        lemma_string_vec_deep_view(rec.paths);
        assert forall|k: int| 0 <= k < n implies #[trigger] json_str_elem_of(*v, "paths"@, k)
            == Some(rec.paths@[k]@) by {
            assert(json_str_elem_of(*v, "paths"@, k) == Some((rec.paths@[k])@));
        }
        assert(record_wf(*v));
        assert(rec.paths.deep_view() =~= record_paths(*v));
    }
    Ok(rec)
}

/// Read every snapshot record of a parsed listing, in order: `Ok` exactly
/// when every record is well-formed, carrying each record's timestamp and
/// paths; the error names the first missing or malformed field.
fn extract_records(values: &Vec<serde_json::Value>) -> (r: Result<Vec<SnapshotRecord>, String>)
    ensures
        r is Ok <==> (forall|i: int| 0 <= i < values@.len() ==> record_wf(#[trigger] values@[i])),
        r matches Ok(rs) ==> rs@.len() == values@.len() && forall|i: int|
            0 <= i < rs@.len() ==> (#[trigger] rs@[i]).time_unix as int == record_time(values@[i])
                && rs@[i].paths.deep_view() == record_paths(values@[i]),
{
    let mut out: Vec<SnapshotRecord> = Vec::new();
    let n: usize = values.len();
    let mut i: usize = 0;
    while i < n
        invariant
            0 <= i <= n,
            n == values@.len(),
            out@.len() == i,
            forall|k: int| 0 <= k < i ==> record_wf(#[trigger] values@[k]),
            forall|k: int|
                0 <= k < i ==> (#[trigger] out@[k]).time_unix as int == record_time(values@[k])
                    && out@[k].paths.deep_view() == record_paths(values@[k]),
        decreases n - i,
    {
        match extract_record(&values[i]) {
            Ok(rec) => {
                out.push(rec);
            },
            Err(e) => {
                return Err(e);
            },
        }
        i += 1;
    }
    Ok(out)
}

/// Integer division truncated toward zero, for a positive divisor: the
/// elapsed-time fields count whole days, hours and minutes of the
/// duration's magnitude.
pub open spec fn div_trunc(a: int, b: int) -> int {
    if a >= 0 {
        a / b
    } else {
        -((-a) / b)
    }
}

/// The elapsed-time half of the recency report, for an elapsed duration
/// in seconds.
pub open spec fn elapsed_part(elapsed: int) -> Seq<char> {
    "Last backed up "@ + dec_int(div_trunc(elapsed, 86400)) + " days, ("@ + dec_int(
        div_trunc(elapsed, 3600),
    ) + " hours), ("@ + dec_int(div_trunc(elapsed, 60)) + " mins) ago. Paths: "@
}

/// The paths half of the recency report: the backed-up paths joined by a
/// comma separator.
pub open spec fn paths_part(paths: Seq<Seq<char>>) -> Seq<char> {
    join_seq(paths, ", "@)
}

/// The whole recency report for a snapshot taken at `time_unix`, read at
/// `now_unix`.
pub open spec fn recency_report(time_unix: int, paths: Seq<Seq<char>>, now_unix: int) -> Seq<
    char,
> {
    elapsed_part(now_unix - time_unix) + paths_part(paths)
}

/// Render the recency report for `rec` as of `now_unix`.
pub fn render_recency(rec: &SnapshotRecord, now_unix: i64) -> (r: String)
    ensures
        r@ == recency_report(rec.time_unix as int, rec.paths.deep_view(), now_unix as int),
{
    let elapsed: i128 = now_unix as i128 - rec.time_unix as i128;
    let neg = elapsed < 0;
    let mag: u128 = if neg {
        (-elapsed) as u128
    } else {
        elapsed as u128
    };
    let days: u128 = mag / 86400;
    let hours: u128 = mag / 3600;
    let mins: u128 = mag / 60;
    proof {
        assert(mag as int == if elapsed < 0 {
            -(elapsed as int)
        } else {
            elapsed as int
        });
        assert(dec_int(if neg {
            -(days as int)
        } else {
            days as int
        }) == dec_int(div_trunc(elapsed as int, 86400)));
        assert(dec_int(if neg {
            -(hours as int)
        } else {
            hours as int
        }) == dec_int(div_trunc(elapsed as int, 3600)));
        assert(dec_int(if neg {
            -(mins as int)
        } else {
            mins as int
        }) == dec_int(div_trunc(elapsed as int, 60)));
    }
    let mut s = String::from_str("Last backed up ");
    s.append(signed_dec(neg, days).as_str());
    s.append(" days, (");
    s.append(signed_dec(neg, hours).as_str());
    s.append(" hours), (");
    s.append(signed_dec(neg, mins).as_str());
    s.append(" mins) ago. Paths: ");
    s.append(join_strings(&rec.paths, ", ").as_str());
    proof {
        assert(s@ =~= recency_report(rec.time_unix as int, rec.paths.deep_view(), now_unix as int));
    }
    s
}

/// The verification outcome for an ordered snapshot listing: an empty
/// listing is the failure "no snapshots found"; otherwise the recency
/// report for the most recent (last) record is the success payload.
pub fn verify_report(records: &Vec<SnapshotRecord>, now_unix: i64) -> (r: TaskOutcome)
    ensures
        records@.len() == 0 ==> (r matches TaskOutcome::Failure(m) && m@ == "no snapshots found"@),
        records@.len() > 0 ==> (r matches TaskOutcome::Success(m) && m@ == recency_report(
            records@.last().time_unix as int,
            records@.last().paths.deep_view(),
            now_unix as int,
        )),
{
    if records.len() == 0 {
        TaskOutcome::Failure(String::from_str("no snapshots found"))
    } else {
        let last = &records[records.len() - 1];
        TaskOutcome::Success(render_recency(last, now_unix))
    }
}

/// Whether element `i` of the JSON array `s` is a well-formed snapshot
/// record, read off the listing text alone.
pub open spec fn listing_record_wf(s: Seq<char>, i: int) -> bool {
    &&& match listing_str_field_of(s, i, "time"@) {
        Some(ts) => rfc3339_unix_of(ts) is Some,
        None => false,
    }
    &&& match listing_arr_len_of(s, i, "paths"@) {
        Some(n) => forall|j: int| 0 <= j < n ==> listing_str_elem_of(s, i, "paths"@, j) is Some,
        None => false,
    }
    &&& listing_str_field_of(s, i, "tree"@) is Some
    &&& listing_str_field_of(s, i, "hostname"@) is Some
    &&& listing_str_field_of(s, i, "id"@) is Some
    &&& listing_str_field_of(s, i, "short_id"@) is Some
}

/// The timestamp of record `i` of the listing `s`, in epoch seconds.
pub open spec fn listing_record_time(s: Seq<char>, i: int) -> int {
    rfc3339_unix_of(listing_str_field_of(s, i, "time"@).unwrap()).unwrap()
}

/// The backed-up paths of record `i` of the listing `s`.
pub open spec fn listing_record_paths(s: Seq<char>, i: int) -> Seq<Seq<char>> {
    Seq::new(
        listing_arr_len_of(s, i, "paths"@).unwrap(),
        |j: int| listing_str_elem_of(s, i, "paths"@, j).unwrap(),
    )
}

/// Whether `s` is a well-formed snapshot listing: a JSON array whose
/// every element is a well-formed snapshot record.
pub open spec fn listing_wf(s: Seq<char>) -> bool {
    match json_array_len_of(s) {
        Some(n) => forall|i: int| 0 <= i < n ==> listing_record_wf(s, i),
        None => false,
    }
}

/// Whether `m` is a snapshot-listing parse failure message.
pub open spec fn is_parse_failure_msg(m: Seq<char>) -> bool {
    let prefix = "Couldn't parse response from restic: "@;
    m.len() >= prefix.len() && m.subrange(0, prefix.len() as int) == prefix
}

/// Prefix a parse-failure detail with the parse failure message.
fn parse_failure(detail: &str) -> (r: String)
    ensures
        is_parse_failure_msg(r@),
{
    let mut s = String::from_str("Couldn't parse response from restic: ");
    s.append(detail);
    proof {
        let prefix = "Couldn't parse response from restic: "@;
        assert(s@.subrange(0, prefix.len() as int) =~= prefix);
    }
    s
}

/// Classify a verification subprocess result as of `now_unix`. A spawn
/// failure or nonzero exit carries the error text; with exit 0 the
/// standard output is parsed as a snapshot listing: output that is not a
/// well-formed listing is a parse failure, an empty listing is "no
/// snapshots found", and otherwise the success payload is exactly the
/// recency report of the most recent record.
pub fn classify_verify_output(run: Result<CmdOutput, String>, now_unix: i64) -> (r: TaskOutcome)
    ensures
        run matches Err(e) ==> (r matches TaskOutcome::Failure(m) && m@ == e@),
        run matches Ok(o) ==> (o.exit_code != Some(0i32) ==> (r matches TaskOutcome::Failure(m)
            && m@ == o.stderr@)),
        run matches Ok(o) ==> ((o.exit_code == Some(0i32) && !listing_wf(o.stdout@)) ==> (
        r matches TaskOutcome::Failure(m) && is_parse_failure_msg(m@))),
        run matches Ok(o) ==> ((o.exit_code == Some(0i32) && json_array_len_of(o.stdout@) == Some(
            0nat,
        )) ==> (r matches TaskOutcome::Failure(m) && m@ == "no snapshots found"@)),
        run matches Ok(o) ==> (json_array_len_of(o.stdout@) matches Some(n) ==> ((o.exit_code
            == Some(0i32) && listing_wf(o.stdout@) && n > 0) ==> (r matches TaskOutcome::Success(m)
            && m@ == recency_report(
            listing_record_time(o.stdout@, n as int - 1),
            listing_record_paths(o.stdout@, n as int - 1),
            now_unix as int,
        )))),
{
    match run {
        Err(e) => TaskOutcome::Failure(e),
        Ok(o) => {
            let is_zero = match o.exit_code {
                Some(code) => code == 0,
                None => false,
            };
            if !is_zero {
                return TaskOutcome::Failure(o.stderr);
            }
            let ghost s = o.stdout@;
            match parse_json_array(o.stdout.as_str()) {
                Err(e) => TaskOutcome::Failure(parse_failure(e.as_str())),
                Ok(values) => {
                    proof {
                        lemma_listing_bridge(s, values@);
                    }
                    match extract_records(&values) {
                        Err(e) => TaskOutcome::Failure(parse_failure(e.as_str())),
                        Ok(records) => verify_report(&records, now_unix),
                    }
                },
            }
        },
    }
}

/// When a parse of `s` yielded `values`, each value's well-formedness,
/// timestamp and paths coincide with the listing's, read off the text.
proof fn lemma_listing_bridge(s: Seq<char>, values: Seq<serde_json::Value>)
    requires
        json_array_len_of(s) == Some(values.len() as nat),
        forall|i: int, key: Seq<char>|
            0 <= i < values.len() ==> #[trigger] json_str_field_of(values[i], key)
                == listing_str_field_of(s, i, key),
        forall|i: int, key: Seq<char>|
            0 <= i < values.len() ==> #[trigger] json_arr_len_of(values[i], key)
                == listing_arr_len_of(s, i, key),
        forall|i: int, key: Seq<char>, j: int|
            0 <= i < values.len() ==> #[trigger] json_str_elem_of(values[i], key, j)
                == listing_str_elem_of(s, i, key, j),
    ensures
        forall|i: int|
            0 <= i < values.len() ==> (record_wf(#[trigger] values[i]) <==> listing_record_wf(
                s,
                i,
            )),
        forall|i: int|
            0 <= i < values.len() && record_wf(#[trigger] values[i]) ==> record_time(values[i])
                == listing_record_time(s, i) && record_paths(values[i]) == listing_record_paths(
                s,
                i,
            ),
        listing_wf(s) <==> (forall|i: int|
            0 <= i < values.len() ==> record_wf(#[trigger] values[i])),
{
    assert forall|i: int| 0 <= i < values.len() implies (record_wf(#[trigger] values[i])
        <==> listing_record_wf(s, i)) by {
        assert(json_str_field_of(values[i], "time"@) == listing_str_field_of(s, i, "time"@));
        assert(json_str_field_of(values[i], "tree"@) == listing_str_field_of(s, i, "tree"@));
        assert(json_str_field_of(values[i], "hostname"@) == listing_str_field_of(
            s,
            i,
            "hostname"@,
        ));
        assert(json_str_field_of(values[i], "id"@) == listing_str_field_of(s, i, "id"@));
        assert(json_str_field_of(values[i], "short_id"@) == listing_str_field_of(
            s,
            i,
            "short_id"@,
        ));
        assert(json_arr_len_of(values[i], "paths"@) == listing_arr_len_of(s, i, "paths"@));
        if record_wf(values[i]) {
            let n = listing_arr_len_of(s, i, "paths"@).unwrap();
            assert forall|j: int| 0 <= j < n implies listing_str_elem_of(
                s,
                i,
                "paths"@,
                j,
            ) is Some by {
                assert(json_str_elem_of(values[i], "paths"@, j) == listing_str_elem_of(
                    s,
                    i,
                    "paths"@,
                    j,
                ));
            }
            assert(listing_record_wf(s, i));
        }
        if listing_record_wf(s, i) {
            let n = json_arr_len_of(values[i], "paths"@).unwrap();
            assert forall|j: int| 0 <= j < n implies json_str_elem_of(
                values[i],
                "paths"@,
                j,
            ) is Some by {
                assert(json_str_elem_of(values[i], "paths"@, j) == listing_str_elem_of(
                    s,
                    i,
                    "paths"@,
                    j,
                ));
            }
            assert(record_wf(values[i]));
        }
    }
    assert forall|i: int| 0 <= i < values.len() && record_wf(#[trigger] values[i]) implies
    record_time(values[i]) == listing_record_time(s, i) && record_paths(values[i])
        == listing_record_paths(s, i) by {
        assert(json_str_field_of(values[i], "time"@) == listing_str_field_of(s, i, "time"@));
        assert(json_arr_len_of(values[i], "paths"@) == listing_arr_len_of(s, i, "paths"@));
        assert forall|j: int|
            0 <= j < record_paths(values[i]).len() implies record_paths(values[i])[j]
            == listing_record_paths(s, i)[j] by {
            assert(json_str_elem_of(values[i], "paths"@, j) == listing_str_elem_of(
                s,
                i,
                "paths"@,
                j,
            ));
        }
        assert(record_paths(values[i]) =~= listing_record_paths(s, i));
    }
    if listing_wf(s) {
        assert forall|i: int| 0 <= i < values.len() implies record_wf(#[trigger] values[i]) by {
            assert(listing_record_wf(s, i));
        }
    }
    if forall|i: int| 0 <= i < values.len() ==> record_wf(#[trigger] values[i]) {
        assert forall|i: int| 0 <= i < values.len() implies listing_record_wf(s, i) by {
            assert(record_wf(values[i]));
        }
        assert(listing_wf(s));
    }
}

/// Verifying twice against an unchanged repository differs only in the
/// elapsed-time fields: every recency report for the same snapshot record
/// ends with the identical paths section, and equal clocks give equal
/// reports.
pub proof fn lemma_recency_paths_stable(
    time_unix: int,
    paths: Seq<Seq<char>>,
    now1: int,
    now2: int,
)
    ensures
        recency_report(time_unix, paths, now1).skip(
            elapsed_part(now1 - time_unix).len() as int,
        ) == paths_part(paths),
        recency_report(time_unix, paths, now2).skip(
            elapsed_part(now2 - time_unix).len() as int,
        ) == paths_part(paths),
        now1 == now2 ==> recency_report(time_unix, paths, now1) == recency_report(
            time_unix,
            paths,
            now2,
        ),
{
    assert(recency_report(time_unix, paths, now1).skip(elapsed_part(now1 - time_unix).len() as int)
        =~= paths_part(paths));
    assert(recency_report(time_unix, paths, now2).skip(elapsed_part(now2 - time_unix).len() as int)
        =~= paths_part(paths));
}

} // verus!
