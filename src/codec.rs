use vstd::prelude::*;
use vstd::string::StringExecFns;

verus! {

/// sonic_rs's JSON document type, the result of decoding.
#[verifier::external_type_specification]
#[verifier::external_body]
pub struct ExJsonValue(sonic_rs::Value);

/// Whether the JSON decoder accepts these bytes as one complete JSON document.
pub uninterp spec fn json_accepts(bytes: Seq<u8>) -> bool;

/// The text that lossy UTF-8 decoding makes of these bytes.
pub uninterp spec fn lossy_utf8(bytes: Seq<u8>) -> Seq<char>;

/// Deepest nesting of arrays and objects that the decoder is handed; its parser recurses
/// once per level.
pub const MAX_JSON_NESTING: usize = 32;

/// Scanner state after a prefix of JSON text: open containers, the most that were open at
/// once, whether inside a string, and whether the previous string byte was a backslash.
pub open spec fn nesting_scan(bytes: Seq<u8>) -> (nat, nat, bool, bool)
    decreases bytes.len(),
{
    if bytes.len() == 0 {
        (0, 0, false, false)
    } else {
        let prev = nesting_scan(bytes.drop_last());
        let c = bytes.last();
        if prev.2 {
            if prev.3 {
                (prev.0, prev.1, true, false)
            } else if c == 92u8 {
                (prev.0, prev.1, true, true)
            } else if c == 34u8 {
                (prev.0, prev.1, false, false)
            } else {
                (prev.0, prev.1, true, false)
            }
        } else if c == 34u8 {
            (prev.0, prev.1, true, false)
        } else if c == 91u8 || c == 123u8 {
            (prev.0 + 1, if prev.1 > prev.0 { prev.1 } else { prev.0 + 1 }, false, false)
        } else if c == 93u8 || c == 125u8 {
            ((if prev.0 > 0 { prev.0 - 1 } else { 0 }) as nat, prev.1, false, false)
        } else {
            (prev.0, prev.1, false, false)
        }
    }
}

/// The deepest nesting of arrays and objects in JSON text, brackets inside strings aside.
pub open spec fn nesting_depth(bytes: Seq<u8>) -> nat {
    nesting_scan(bytes).1
}

/// JSON text shallow enough to hand to the decoder.
pub open spec fn json_nesting_ok(bytes: Seq<u8>) -> bool {
    nesting_depth(bytes) <= MAX_JSON_NESTING
}

/// Text that decodes: shallow enough, and accepted by the decoder.
pub open spec fn json_decodes(bytes: Seq<u8>) -> bool {
    json_nesting_ok(bytes) && json_accepts(bytes)
}

/// Measures whether JSON text nests no deeper than `MAX_JSON_NESTING`.
pub fn json_nesting_within(bytes: &[u8]) -> (r: bool)
    ensures
        r == json_nesting_ok(bytes@),
{
    let mut depth: usize = 0;
    let mut deepest: usize = 0;
    let mut in_string = false;
    let mut escaped = false;
    let mut i: usize = 0;
    while i < bytes.len()
        invariant
            i <= bytes@.len(),
            depth <= i,
            deepest <= i,
            nesting_scan(bytes@.take(i as int)) == (depth as nat, deepest as nat, in_string, escaped),
        decreases bytes@.len() - i,
    {
        let c = bytes[i];
        proof {
            assert(bytes@.take(i + 1).drop_last() =~= bytes@.take(i as int));
            assert(bytes@.take(i + 1).last() == c);
        }
        if in_string {
            if escaped {
                escaped = false;
            } else if c == 92u8 {
                escaped = true;
            } else if c == 34u8 {
                in_string = false;
            }
        } else if c == 34u8 {
            in_string = true;
        } else if c == 91u8 || c == 123u8 {
            depth = depth + 1;
            if deepest < depth {
                deepest = depth;
            }
        } else if c == 93u8 || c == 125u8 {
            if depth > 0 {
                depth = depth - 1;
            }
        }
        i = i + 1;
    }
    assert(bytes@.take(i as int) =~= bytes@);
    deepest <= MAX_JSON_NESTING
}

/// Relies on `sonic_rs::from_slice`: decoding succeeds or fails by the bytes alone. Its
/// parser recurses once per level of nesting, so the text handed to it is bounded in depth.
#[verifier::external_body]
fn decode_json_shallow(bytes: &[u8]) -> (r: Result<sonic_rs::Value, sonic_rs::Error>)
    requires
        json_nesting_ok(bytes@),
    ensures
        r.is_ok() == json_accepts(bytes@),
{
    sonic_rs::from_slice::<sonic_rs::Value>(bytes)
}

/// Relies on `serde::de::Error::custom` as sonic_rs implements it: an error with this message.
#[verifier::external_body]
fn json_error(message: &str) -> (r: sonic_rs::Error) {
    <sonic_rs::Error as serde::de::Error>::custom(message)
}

/// Decodes JSON text; text nested deeper than `MAX_JSON_NESTING` is refused undecoded.
pub fn decode_json(bytes: &[u8]) -> (r: Result<sonic_rs::Value, sonic_rs::Error>)
    ensures
        r.is_ok() == json_decodes(bytes@),
{
    if json_nesting_within(bytes) {
        decode_json_shallow(bytes)
    } else {
        Err(json_error("JSON nested too deeply"))
    }
}

/// Relies on `String::from_utf8_lossy`: the text of the bytes, invalid sequences replaced.
#[verifier::external_body]
fn utf8_lossy(bytes: &[u8]) -> (r: String)
    ensures
        r@ == lossy_utf8(bytes@),
{
    String::from_utf8_lossy(bytes).into_owned()
}

/// The character of a decimal digit.
pub open spec fn digit_char(d: nat) -> char {
    if d == 0 {
        '0'
    } else if d == 1 {
        '1'
    } else if d == 2 {
        '2'
    } else if d == 3 {
        '3'
    } else if d == 4 {
        '4'
    } else if d == 5 {
        '5'
    } else if d == 6 {
        '6'
    } else if d == 7 {
        '7'
    } else if d == 8 {
        '8'
    } else {
        '9'
    }
}

/// Decimal notation of a natural number, without leading zeros.
pub open spec fn decimal(n: nat) -> Seq<char>
    decreases n,
{
    if n < 10 {
        seq![digit_char(n)]
    } else {
        decimal(n / 10) + seq![digit_char(n % 10)]
    }
}

fn digit_str(d: u16) -> (r: &'static str)
    requires
        d < 10,
    ensures
        r@ == seq![digit_char(d as nat)],
{
    proof {
        reveal_strlit("0");
        reveal_strlit("1");
        reveal_strlit("2");
        reveal_strlit("3");
        reveal_strlit("4");
        reveal_strlit("5");
        reveal_strlit("6");
        reveal_strlit("7");
        reveal_strlit("8");
        reveal_strlit("9");
    }
    if d == 0 {
        "0"
    } else if d == 1 {
        "1"
    } else if d == 2 {
        "2"
    } else if d == 3 {
        "3"
    } else if d == 4 {
        "4"
    } else if d == 5 {
        "5"
    } else if d == 6 {
        "6"
    } else if d == 7 {
        "7"
    } else if d == 8 {
        "8"
    } else {
        "9"
    }
}

/// Appends the decimal notation of `n`.
fn append_decimal(s: &mut String, n: u16)
    ensures
        final(s)@ == old(s)@ + decimal(n as nat),
    decreases n,
{
    if n < 10 {
        s.append(digit_str(n));
    } else {
        append_decimal(s, n / 10);
        s.append(digit_str(n % 10));
        assert(final(s)@ =~= old(s)@ + decimal(n as nat));
    }
}

/// The reason text of a rejected response.
pub open spec fn rejection_text(status: u16, body: Seq<u8>) -> Seq<char> {
    "request rejected: status="@ + decimal(status as nat) + " body="@ + lossy_utf8(body)
}

/// Builds the reason text of a rejected response from its status and body.
pub fn rejection_reason(status: u16, body: &[u8]) -> (r: String)
    ensures
        r@ == rejection_text(status, body@),
{
    let mut s = String::from_str("request rejected: status=");
    append_decimal(&mut s, status);
    s.append(" body=");
    let text = utf8_lossy(body);
    s.append(text.as_str());
    proof {
        reveal_strlit("request rejected: status=");
        reveal_strlit(" body=");
    }
    assert(s@ =~= rejection_text(status, body@));
    s
}

} // verus!
