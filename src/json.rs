//! The JSON text of the outbound frames. Field names and their order are the
//! wire format: a peer reads them by name, and the text here is what a
//! compact serializer writes for the same values.
use vstd::prelude::*;
use vstd::string::StringExecFns;
use crate::models::{ConnectionRequest, Heartbeat, JobResponse};

verus! {

/// The lowercase hexadecimal digit for `n < 16`.
pub open spec fn hex_digit(n: u32) -> char {
    "0123456789abcdef"@[n as int]
}

/// How one character appears inside a JSON string: `"` and `\` after a
/// backslash, the five usual controls by their short escapes, the other
/// controls below U+0020 as `\u00xx`, everything else as it is.
pub open spec fn escaped_char(c: char) -> Seq<char> {
    if c == '"' {
        "\\\""@
    } else if c == '\\' {
        "\\\\"@
    } else if c == '\x08' {
        "\\b"@
    } else if c == '\t' {
        "\\t"@
    } else if c == '\n' {
        "\\n"@
    } else if c == '\x0C' {
        "\\f"@
    } else if c == '\r' {
        "\\r"@
    } else if (c as u32) < 0x20 {
        "\\u00"@ + seq![hex_digit((c as u32) / 16), hex_digit((c as u32) % 16)]
    } else {
        seq![c]
    }
}

/// The characters of `s`, each escaped.
pub open spec fn escaped(s: Seq<char>) -> Seq<char>
    decreases s.len(),
{
    if s.len() == 0 {
        Seq::empty()
    } else {
        escaped(s.drop_last()) + escaped_char(s.last())
    }
}

/// The JSON string literal for `s`: quotes around its escaped characters.
pub open spec fn json_quoted(s: Seq<char>) -> Seq<char> {
    "\""@ + escaped(s) + "\""@
}

/// Relies on `serde_json::to_string` applied to a `str`: it writes the JSON
/// string literal of `s`, escaping as `escaped_char` says, and on a `str` it
/// cannot fail (it writes to memory).
#[verifier::external_body]
fn quote(s: &str) -> (r: String)
    ensures
        r@ == json_quoted(s@),
{
    match serde_json::to_string(s) {
        Ok(t) => t,
        Err(_) => String::new(),
    }
}

pub open spec fn bool_json(b: bool) -> Seq<char> {
    if b { "true"@ } else { "false"@ }
}

pub open spec fn opt_view(o: Option<String>) -> Option<Seq<char>> {
    match o {
        Some(s) => Some(s@),
        None => None,
    }
}

/// A string, or `null` when there is none.
pub open spec fn opt_str_json(o: Option<Seq<char>>) -> Seq<char> {
    match o {
        Some(s) => json_quoted(s),
        None => "null"@,
    }
}

/// The items of a JSON array of strings, without the brackets.
pub open spec fn str_items_json(s: Seq<Seq<char>>) -> Seq<char>
    decreases s.len(),
{
    if s.len() == 0 {
        Seq::empty()
    } else if s.len() == 1 {
        json_quoted(s[0])
    } else {
        str_items_json(s.drop_last()) + ","@ + json_quoted(s.last())
    }
}

pub open spec fn str_list_json(o: Option<Vec<String>>) -> Seq<char> {
    match o {
        Some(v) => "["@ + str_items_json(v@.map_values(|x: String| x@)) + "]"@,
        None => "null"@,
    }
}

/// The JSON object of a job response with these fields.
pub open spec fn response_json(id: Seq<char>, success: bool, is_async: bool, result: Option<Seq<char>>) -> Seq<char> {
    "{\"job_id\":"@ + json_quoted(id) + ",\"success\":"@ + bool_json(success)
        + ",\"async\":"@ + bool_json(is_async) + ",\"result\":"@ + opt_str_json(result) + "}"@
}

pub open spec fn job_response_json(r: JobResponse) -> Seq<char> {
    response_json(r.job_id@, r.success, r.is_async, opt_view(r.result))
}

/// The JSON object of a heartbeat with these fields.
pub open spec fn heartbeat_text(timestamp: Seq<char>, acknowledged: Option<Seq<char>>) -> Seq<char> {
    "{\"timestamp\":"@ + json_quoted(timestamp) + ",\"acknowledged\":"@ + opt_str_json(acknowledged)
        + "}"@
}

pub open spec fn heartbeat_json(h: Heartbeat) -> Seq<char> {
    heartbeat_text(h.timestamp@, opt_view(h.acknowledged))
}

pub open spec fn connection_request_json(c: ConnectionRequest) -> Seq<char> {
    "{\"client_secret\":"@ + opt_str_json(opt_view(c.client_secret)) + ",\"friendly_name\":"@
        + opt_str_json(opt_view(c.friendly_name)) + ",\"jobs_available\":"@ + str_list_json(c.jobs_available)
        + "}"@
}

fn push_bool(out: &mut String, b: bool)
    ensures
        final(out)@ == old(out)@ + bool_json(b),
{
    if b {
        out.append("true");
    } else {
        out.append("false");
    }
}

fn push_opt_str(out: &mut String, o: &Option<String>)
    ensures
        final(out)@ == old(out)@ + opt_str_json(opt_view(*o)),
{
    match o {
        Some(s) => {
            let q = quote(s.as_str());
            out.append(q.as_str());
        },
        None => out.append("null"),
    }
}

fn push_str_list(out: &mut String, o: &Option<Vec<String>>)
    ensures
        final(out)@ == old(out)@ + str_list_json(*o),
{
    match o {
        None => out.append("null"),
        Some(v) => {
            let ghost start = out@;
            let ghost names = v@.map_values(|x: String| x@);
            out.append("[");
            let mut i: usize = 0;
            while i < v.len()
                invariant
                    i <= v@.len(),
                    names == v@.map_values(|x: String| x@),
                    out@ == start + "["@ + str_items_json(names.take(i as int)),
                decreases v@.len() - i,
            {
                let ghost before = out@;
                if i > 0 {
                    out.append(",");
                }
                let q = quote(v[i].as_str());
                out.append(q.as_str());
                proof {
                    let t = names.take(i + 1);
                    assert(t.drop_last() =~= names.take(i as int));
                    assert(t.last() == v@[i as int]@);
                    if i == 0 {
                        assert(names.take(0) =~= Seq::<Seq<char>>::empty());
                    }
                }
                i += 1;
            }
            assert(names.take(v@.len() as int) =~= names);
            out.append("]");
        },
    }
}

/// The JSON object of a job response: `job_id`, `success`, `async`, `result`.
pub fn encode_job_response(r: &JobResponse) -> (out: String)
    ensures
        out@ == job_response_json(*r),
{
    let mut out = String::from_str("{\"job_id\":");
    let q = quote(r.job_id.as_str());
    out.append(q.as_str());
    out.append(",\"success\":");
    push_bool(&mut out, r.success);
    out.append(",\"async\":");
    push_bool(&mut out, r.is_async);
    out.append(",\"result\":");
    push_opt_str(&mut out, &r.result);
    out.append("}");
    out
}

/// The JSON object of a heartbeat: `timestamp`, `acknowledged`.
pub fn encode_heartbeat(h: &Heartbeat) -> (out: String)
    ensures
        out@ == heartbeat_json(*h),
{
    let mut out = String::from_str("{\"timestamp\":");
    let q = quote(h.timestamp.as_str());
    out.append(q.as_str());
    out.append(",\"acknowledged\":");
    push_opt_str(&mut out, &h.acknowledged);
    out.append("}");
    out
}

/// The JSON object of a connection request: `client_secret`, `friendly_name`,
/// `jobs_available`.
pub fn encode_connection_request(c: &ConnectionRequest) -> (out: String)
    ensures
        out@ == connection_request_json(*c),
{
    let mut out = String::from_str("{\"client_secret\":");
    push_opt_str(&mut out, &c.client_secret);
    out.append(",\"friendly_name\":");
    push_opt_str(&mut out, &c.friendly_name);
    out.append(",\"jobs_available\":");
    push_str_list(&mut out, &c.jobs_available);
    out.append("}");
    out
}

} // verus!
