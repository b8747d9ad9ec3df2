//! The RESP value model: the wire values the proxy receives and replies with,
//! classification of client commands, and small byte-level helpers (equality,
//! ASCII case folding, decimal parsing and printing) that the rest of the
//! crate states its contracts with.

use vstd::prelude::*;
use vstd::slice::slice_to_vec;
use vstd::string::StringSliceAdditionalSpecFns;
use vstd::utf8::encode_utf8;
use vstd::utf8::valid_utf8;
use vstd::utf8::decode_utf8;

verus! {

/// A bulk-string payload: either bytes or the RESP nil bulk.
pub enum BulkStr {
    Str(Vec<u8>),
    Nil,
}

/// An array payload: either elements or the RESP nil array.
pub enum Array {
    Arr(Vec<Resp>),
    Nil,
}

/// A RESP value.
pub enum Resp {
    Simple(Vec<u8>),
    Error(Vec<u8>),
    Bulk(BulkStr),
    Arr(Array),
}

/// The reply `r` is a RESP simple string whose payload is the UTF-8 encoding
/// of `s`.
pub open spec fn is_simple(r: Resp, s: Seq<char>) -> bool {
    r matches Resp::Simple(v) && v@ == encode_utf8(s)
}

/// The reply `r` is a RESP error whose payload is the UTF-8 encoding of `s`.
pub open spec fn is_error(r: Resp, s: Seq<char>) -> bool {
    r matches Resp::Error(v) && v@ == encode_utf8(s)
}

/// The reply `r` is a RESP bulk string holding exactly the bytes `s`.
pub open spec fn is_bulk(r: Resp, s: Seq<u8>) -> bool {
    r matches Resp::Bulk(BulkStr::Str(v)) && v@ == s
}

/// The bytes of a `&str`, as the crate's byte-level specs speak of them.
pub open spec fn str_bytes(s: Seq<char>) -> Seq<u8> {
    encode_utf8(s)
}

/// Copy the bytes of a string slice into an owned byte vector.
pub fn bytes_of_str(s: &str) -> (r: Vec<u8>)
    ensures
        r@ == str_bytes(s@),
{
    slice_to_vec(s.as_bytes())
}

/// A simple-string reply carrying `s`.
pub fn simple_reply(s: &str) -> (r: Resp)
    ensures
        is_simple(r, s@),
{
    Resp::Simple(bytes_of_str(s))
}

/// An error reply carrying `s`.
pub fn error_reply(s: &str) -> (r: Resp)
    ensures
        is_error(r, s@),
{
    Resp::Error(bytes_of_str(s))
}

/// A bulk-string reply carrying the bytes `v`.
pub fn bulk_reply(v: Vec<u8>) -> (r: Resp)
    ensures
        is_bulk(r, v@),
{
    Resp::Bulk(BulkStr::Str(v))
}

/// Byte-sequence equality, decided element by element.
pub fn bytes_eq(a: &[u8], b: &[u8]) -> (r: bool)
    ensures
        r == (a@ =~= b@),
{
    if a.len() != b.len() {
        return false;
    }
    let mut i: usize = 0;
    while i < a.len()
        invariant
            a@.len() == b@.len(),
            i <= a@.len(),
            forall|j: int| 0 <= j < i ==> a@[j] == b@[j],
        decreases a@.len() - i,
    {
        if a[i] != b[i] {
            return false;
        }
        i += 1;
    }
    true
}

/// ASCII upper-casing of one byte.
pub open spec fn ascii_upper_byte(b: u8) -> u8 {
    if 97 <= b <= 122 {
        (b - 32) as u8
    } else {
        b
    }
}

/// ASCII upper-casing of a byte sequence; bytes outside `a..=z` are kept.
pub open spec fn ascii_upper(s: Seq<u8>) -> Seq<u8> {
    Seq::new(s.len(), |i: int| ascii_upper_byte(s[i]))
}

/// Upper-case the ASCII letters of `s`.
pub fn to_ascii_upper(s: &[u8]) -> (r: Vec<u8>)
    ensures
        r@ =~= ascii_upper(s@),
{
    let mut r: Vec<u8> = Vec::new();
    let mut i: usize = 0;
    while i < s.len()
        invariant
            i <= s@.len(),
            r@.len() == i,
            forall|j: int| 0 <= j < i ==> r@[j] == ascii_upper_byte(s@[j]),
        decreases s@.len() - i,
    {
        let b = s[i];
        if 97 <= b && b <= 122 {
            r.push(b - 32);
        } else {
            r.push(b);
        }
        i += 1;
    }
    r
}

/// `a` equals `b` up to ASCII case.
pub open spec fn eq_ascii_ci(a: Seq<u8>, b: Seq<u8>) -> bool {
    ascii_upper(a) == ascii_upper(b)
}

/// Case-insensitive (ASCII) byte-sequence equality.
pub fn bytes_eq_ascii_ci(a: &[u8], b: &[u8]) -> (r: bool)
    ensures
        r == eq_ascii_ci(a@, b@),
{
    let ua = to_ascii_upper(a);
    let ub = to_ascii_upper(b);
    let r = bytes_eq(ua.as_slice(), ub.as_slice());
    proof {
        if ua@ =~= ub@ {
            assert(ascii_upper(a@) == ascii_upper(b@));
        } else {
            assert(ascii_upper(a@) != ascii_upper(b@));
        }
    }
    r
}

/// The sequence is one or more ASCII decimal digits.
pub open spec fn is_digits(s: Seq<u8>) -> bool {
    s.len() > 0 && forall|i: int| 0 <= i < s.len() ==> 48 <= #[trigger] s[i] <= 57
}

/// The number a digit sequence denotes in decimal.
pub open spec fn dec_value(s: Seq<u8>) -> nat
    decreases s.len(),
{
    if s.len() == 0 {
        0
    } else {
        dec_value(s.drop_last()) * 10 + (s.last() - 48) as nat
    }
}

/// A prefix of a digit sequence denotes no more than the whole.
proof fn lemma_dec_value_prefix(s: Seq<u8>, i: int)
    requires
        forall|j: int| 0 <= j < s.len() ==> 48 <= #[trigger] s[j] <= 57,
        0 <= i <= s.len(),
    ensures
        dec_value(s.take(i)) <= dec_value(s),
    decreases s.len() - i,
{
    if i == s.len() {
        assert(s.take(i) =~= s);
    } else {
        lemma_dec_value_prefix(s, i + 1);
        assert(s.take(i + 1).drop_last() =~= s.take(i));
        assert(dec_value(s.take(i + 1)) == dec_value(s.take(i)) * 10 + (s.take(i + 1).last()
            - 48));
    }
}

/// Parse an unsigned decimal integer. Succeeds exactly on non-empty
/// all-digit input whose value fits in a `u64`.
pub fn parse_u64(s: &[u8]) -> (r: Option<u64>)
    ensures
        r is Some <==> is_digits(s@) && dec_value(s@) <= u64::MAX,
        r matches Some(v) ==> v == dec_value(s@),
{
    if s.len() == 0 {
        return None;
    }
    let mut acc: u64 = 0;
    let mut i: usize = 0;
    while i < s.len()
        invariant
            0 < s@.len(),
            i <= s@.len(),
            forall|j: int| 0 <= j < i ==> 48 <= #[trigger] s@[j] <= 57,
            acc == dec_value(s@.take(i as int)),
        decreases s@.len() - i,
    {
        let b = s[i];
        if b < 48 || b > 57 {
            return None;
        }
        let d = b - 48;
        if acc > (u64::MAX - d as u64) / 10 {
            proof {
                assert(s@.take(i + 1).drop_last() =~= s@.take(i as int));
                assert(dec_value(s@.take(i + 1)) > u64::MAX);
                if forall|j: int| 0 <= j < s@.len() ==> 48 <= #[trigger] s@[j] <= 57 {
                    lemma_dec_value_prefix(s@, i + 1);
                }
            }
            return None;
        }
        acc = acc * 10 + d as u64;
        proof {
            assert(s@.take(i + 1).drop_last() =~= s@.take(i as int));
        }
        i += 1;
    }
    proof {
        assert(s@.take(s@.len() as int) =~= s@);
    }
    Some(acc)
}

/// The decimal digits of `n`, most significant first.
pub open spec fn dec_repr(n: nat) -> Seq<u8>
    decreases n,
{
    if n < 10 {
        seq![(48 + n) as u8]
    } else {
        dec_repr(n / 10).push((48 + n % 10) as u8)
    }
}

/// Print `n` in decimal.
pub fn u64_to_dec(n: u64) -> (r: Vec<u8>)
    ensures
        r@ =~= dec_repr(n as nat),
    decreases n,
{
    if n < 10 {
        let mut r: Vec<u8> = Vec::new();
        r.push(48 + (n as u8));
        r
    } else {
        let mut r = u64_to_dec(n / 10);
        r.push(48 + ((n % 10) as u8));
        r
    }
}

/// The classes the forward handler dispatches on.
#[derive(PartialEq, Eq, Structural, Clone, Copy, Debug)]
pub enum CmdType {
    Ping,
    Info,
    Auth,
    Quit,
    Echo,
    Select,
    Cluster,
    UmCtl,
    Invalid,
    Others,
}

/// The command's name: the first element of the request array, which must be
/// a bulk string.
pub open spec fn cmd_name(r: Resp) -> Option<Seq<u8>> {
    match r {
        Resp::Arr(Array::Arr(items)) => if items@.len() > 0 {
            match items@[0] {
                Resp::Bulk(BulkStr::Str(v)) => Some(v@),
                _ => None,
            }
        } else {
            None
        },
        _ => None,
    }
}

/// The class of a command name, matched case-insensitively (ASCII).
pub open spec fn cmd_type_of_name(name: Seq<u8>) -> CmdType {
    if eq_ascii_ci(name, str_bytes("PING"@)) {
        CmdType::Ping
    } else if eq_ascii_ci(name, str_bytes("INFO"@)) {
        CmdType::Info
    } else if eq_ascii_ci(name, str_bytes("AUTH"@)) {
        CmdType::Auth
    } else if eq_ascii_ci(name, str_bytes("QUIT"@)) {
        CmdType::Quit
    } else if eq_ascii_ci(name, str_bytes("ECHO"@)) {
        CmdType::Echo
    } else if eq_ascii_ci(name, str_bytes("SELECT"@)) {
        CmdType::Select
    } else if eq_ascii_ci(name, str_bytes("CLUSTER"@)) {
        CmdType::Cluster
    } else if eq_ascii_ci(name, str_bytes("UMCTL"@)) {
        CmdType::UmCtl
    } else {
        CmdType::Others
    }
}

/// The class of a whole request: `Invalid` when the request is not a
/// non-empty array headed by a bulk-string name, else by the name.
pub open spec fn cmd_type_of(r: Resp) -> CmdType {
    match cmd_name(r) {
        Some(name) => cmd_type_of_name(name),
        None => CmdType::Invalid,
    }
}

/// Classify a request.
pub fn classify_cmd(r: &Resp) -> (t: CmdType)
    ensures
        t == cmd_type_of(*r),
{
    let name: &Vec<u8> = match r {
        Resp::Arr(Array::Arr(items)) => {
            if items.len() == 0 {
                return CmdType::Invalid;
            }
            match &items[0] {
                Resp::Bulk(BulkStr::Str(v)) => v,
                _ => {
                    return CmdType::Invalid;
                },
            }
        },
        _ => {
            return CmdType::Invalid;
        },
    };
    if bytes_eq_ascii_ci(name.as_slice(), "PING".as_bytes()) {
        CmdType::Ping
    } else if bytes_eq_ascii_ci(name.as_slice(), "INFO".as_bytes()) {
        CmdType::Info
    } else if bytes_eq_ascii_ci(name.as_slice(), "AUTH".as_bytes()) {
        CmdType::Auth
    } else if bytes_eq_ascii_ci(name.as_slice(), "QUIT".as_bytes()) {
        CmdType::Quit
    } else if bytes_eq_ascii_ci(name.as_slice(), "ECHO".as_bytes()) {
        CmdType::Echo
    } else if bytes_eq_ascii_ci(name.as_slice(), "SELECT".as_bytes()) {
        CmdType::Select
    } else if bytes_eq_ascii_ci(name.as_slice(), "CLUSTER".as_bytes()) {
        CmdType::Cluster
    } else if bytes_eq_ascii_ci(name.as_slice(), "UMCTL".as_bytes()) {
        CmdType::UmCtl
    } else {
        CmdType::Others
    }
}

/// Relies on `str::from_utf8`: it succeeds exactly on valid UTF-8 and the
/// resulting slice views the same bytes.
#[verifier::external_body]
pub fn bytes_as_str(b: &[u8]) -> (r: Option<&str>)
    ensures
        r is Some <==> valid_utf8(b@),
        r matches Some(s) ==> s@ == decode_utf8(b@) && s.spec_bytes() == b@,
{
    core::str::from_utf8(b).ok()
}

} // verus!
