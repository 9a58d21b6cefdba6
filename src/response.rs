//! The reply record handed to the user interface, and its JSON text.

use vstd::prelude::*;

verus! {

/// A reply: a status code, a message and a payload.
#[derive(Clone, Debug, PartialEq, Eq)]
pub struct BizResponse {
    pub code: i32,
    pub msg: String,
    pub data: String,
}

/// The JSON text that `serde_json` writes for a string.
pub uninterp spec fn json_string(s: Seq<char>) -> Seq<char>;

/// Relies on `serde_json::to_string` applied to a string: the string as a
/// JSON string literal, quoted and escaped.
#[verifier::external_body]
fn json_quoted(s: &str) -> (r: Option<String>)
    ensures
        r matches Some(q) ==> q@ == json_string(s@),
{
    match serde_json::to_string(s) {
        Ok(q) => Some(q),
        Err(_) => None,
    }
}

/// The decimal digits, in order.
pub open spec fn digit_chars() -> Seq<char> {
    "0123456789"@
}

/// A natural number in decimal, without leading zeros.
pub open spec fn decimal(n: nat) -> Seq<char>
    decreases n,
{
    if n < 10 {
        seq![digit_chars()[n as int]]
    } else {
        decimal(n / 10).push(digit_chars()[(n % 10) as int])
    }
}

/// An integer in decimal, with a leading `-` when negative.
pub open spec fn int_text(n: int) -> Seq<char> {
    if n < 0 {
        seq!['-'] + decimal((-n) as nat)
    } else {
        decimal(n as nat)
    }
}

/// The JSON object for a reply whose strings are already JSON text.
pub open spec fn response_text(code: int, msg_json: Seq<char>, data_json: Seq<char>) -> Seq<char> {
    "{\"code\":"@ + int_text(code) + ",\"msg\":"@ + msg_json + ",\"data\":"@ + data_json + "}"@
}

/// The text given when a string could not be written as JSON.
pub open spec fn fallback_text() -> Seq<char> {
    "{\"code\":1,\"msg\":\"serde failed\",\"data\":}"@
}

fn push_decimal(out: &mut String, n: u64)
    ensures
        final(out)@ == old(out)@ + decimal(n as nat),
    decreases n,
{
    proof {
        reveal_strlit("0123456789");
    }
    let digits = "0123456789";
    let d = (n % 10) as usize;
    if n >= 10 {
        push_decimal(out, n / 10);
    }
    let ch = digits.substring_char(d, d + 1);
    assert(ch@ =~= seq![digit_chars()[d as int]]);
    out.append(ch);
    assert(out@ =~= old(out)@ + decimal(n as nat));
}

/// A reply's JSON text from its code and the JSON text of its two strings;
/// when either string could not be written, the fixed fallback text.
pub fn frame_response(code: i32, msg_json: Option<String>, data_json: Option<String>) -> (r: String)
    ensures
        match (msg_json, data_json) {
            (Some(m), Some(d)) => r@ == response_text(code as int, m@, d@),
            _ => r@ == fallback_text(),
        },
{
    match (msg_json, data_json) {
        (Some(m), Some(d)) => {
            let mut out = String::from_str("{\"code\":");
            if code < 0 {
                out.append("-");
                proof {
                    reveal_strlit("-");
                }
                push_decimal(&mut out, (-(code as i64)) as u64);
            } else {
                push_decimal(&mut out, code as u64);
            }
            out.append(",\"msg\":");
            out.append(m.as_str());
            out.append(",\"data\":");
            out.append(d.as_str());
            out.append("}");
            assert(out@ =~= response_text(code as int, m@, d@));
            out
        },
        _ => String::from_str("{\"code\":1,\"msg\":\"serde failed\",\"data\":}"),
    }
}

impl BizResponse {
    /// A reply with the given code, message and payload.
    pub fn new(code: i32, msg: &str, data: &str) -> (r: BizResponse)
        ensures
            r.code == code,
            r.msg@ == msg@,
            r.data@ == data@,
    {
        BizResponse { code, msg: String::from_str(msg), data: String::from_str(data) }
    }

    /// The reply as a JSON object with the fields `code`, `msg` and `data`.
    pub fn to_str(&self) -> (r: String)
        ensures
            r@ == response_text(self.code as int, json_string(self.msg@), json_string(self.data@))
                || r@ == fallback_text(),
    {
        let m = json_quoted(self.msg.as_str());
        let d = json_quoted(self.data.as_str());
        frame_response(self.code, m, d)
    }
}

} // verus!
