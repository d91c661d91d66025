//! The request handling of the small HTTP servers that serve as a benchmark
//! for the runtime: how long a request's body is, and what is answered.
//!
//! A request's headers end at the first empty line. Its body is as long as
//! its first `Content-Length` header says (in any letter case), or empty
//! without one. The answer to an empty body is a fixed greeting; any other
//! body is echoed back.

use vstd::prelude::*;

verus! {

#[verifier::external_type_specification]
#[verifier::external_body]
pub struct ExParseError(httparse::Error);

/// The headers, as name and value bytes, that `httparse` reports for the
/// request in `data` when given room for `max` headers; `None` when it
/// reports an error.
pub uninterp spec fn parsed_headers(data: Seq<u8>, max: usize) -> Option<Seq<(Seq<u8>, Seq<u8>)>>;

/// Whether `bytes` is valid UTF-8, as `std::str::from_utf8` decides.
pub uninterp spec fn is_utf8(bytes: Seq<u8>) -> bool;

/// `httparse::Request::parse` on `data`, with room for `max` headers: the
/// request's header slots as name and value bytes, or the parser's error.
#[verifier::external_body]
fn parse_request_headers(data: &[u8], max: usize) -> (res: Result<Vec<(Vec<u8>, Vec<u8>)>, httparse::Error>)
    ensures
        res is Ok <==> parsed_headers(data@, max) is Some,
        res matches Ok(h) ==> parsed_headers(data@, max) == Some(
            h@.map_values(|p: (Vec<u8>, Vec<u8>)| (p.0@, p.1@)),
        ),
{
    let mut headers = vec![httparse::EMPTY_HEADER; max];
    let mut req = httparse::Request::new(&mut headers);
    match req.parse(data) {
        Ok(_) => Ok(req.headers.iter().map(|h| (h.name.as_bytes().to_vec(), h.value.to_vec())).collect()),
        Err(e) => Err(e),
    }
}

/// `std::str::from_utf8(bytes).is_ok()`.
#[verifier::external_body]
fn utf8_valid(bytes: &[u8]) -> (ok: bool)
    ensures
        ok == is_utf8(bytes@),
{
    std::str::from_utf8(bytes).is_ok()
}

/// The room for headers that a request is parsed with.
pub const MAX_HEADERS: usize = 16;

/// Why a request's body length could not be told.
#[derive(Debug, PartialEq, Eq)]
pub enum RequestError {
    /// The request does not parse.
    Malformed,
    /// The `Content-Length` value is not UTF-8.
    NotUtf8,
    /// The `Content-Length` value is not a number that fits a `usize`.
    BadLength,
}

/// An ASCII digit.
pub open spec fn is_digit(b: u8) -> bool {
    48 <= b <= 57
}

/// The value of a string of decimal digits.
pub open spec fn digits_value(s: Seq<u8>) -> nat
    decreases s.len(),
{
    if s.len() == 0 {
        0
    } else {
        digits_value(s.drop_last()) * 10 + (s.last() - 48) as nat
    }
}

/// The digits of a number: without a leading `+`, if there is one.
pub open spec fn number_digits(s: Seq<u8>) -> Seq<u8> {
    if s.len() > 0 && s[0] == 43 {
        s.drop_first()
    } else {
        s
    }
}

/// Does `s` spell an unsigned number: an optional `+`, then one or more
/// digits?
pub open spec fn is_number(s: Seq<u8>) -> bool {
    let d = number_digits(s);
    &&& d.len() > 0
    &&& forall|i: int| 0 <= i < d.len() ==> is_digit(#[trigger] d[i])
}

/// The decimal digits of `n`, without leading zeros.
pub open spec fn decimal(n: nat) -> Seq<u8>
    decreases n,
{
    if n < 10 {
        seq![(48 + n) as u8]
    } else {
        decimal(n / 10).push((48 + n % 10) as u8)
    }
}

/// A byte in lower case, for ASCII letters.
pub open spec fn ascii_lower(b: u8) -> u8 {
    if 65 <= b <= 90 {
        (b + 32) as u8
    } else {
        b
    }
}

/// Are `a` and `b` the same, ignoring the case of ASCII letters?
pub open spec fn eq_ignore_ascii_case(a: Seq<u8>, b: Seq<u8>) -> bool {
    &&& a.len() == b.len()
    &&& forall|i: int| 0 <= i < a.len() ==> ascii_lower(#[trigger] a[i]) == ascii_lower(b[i])
}

/// `Content-Length`.
pub open spec fn content_length_name() -> Seq<u8> {
    seq![67u8, 111, 110, 116, 101, 110, 116, 45, 76, 101, 110, 103, 116, 104]
}

/// Is header `i` of `headers` the first named `Content-Length`?
pub open spec fn is_first_length_header(headers: Seq<(Seq<u8>, Seq<u8>)>, i: int) -> bool {
    &&& 0 <= i < headers.len()
    &&& eq_ignore_ascii_case(headers[i].0, content_length_name())
    &&& forall|j: int| 0 <= j < i ==> !eq_ignore_ascii_case(#[trigger] headers[j].0, content_length_name())
}

/// Does some header of `headers` name `Content-Length`?
pub open spec fn has_length_header(headers: Seq<(Seq<u8>, Seq<u8>)>) -> bool {
    exists|i: int| 0 <= i < headers.len() && eq_ignore_ascii_case(#[trigger] headers[i].0, content_length_name())
}

/// The answer `HTTP/1.1 200 OK` with `body`, framed by its length.
pub open spec fn response_bytes(body: Seq<u8>) -> Seq<u8> {
    seq![72u8, 84, 84, 80, 47, 49, 46, 49, 32, 50, 48, 48, 32, 79, 75, 13, 10]
        + seq![67u8, 111, 110, 116, 101, 110, 116, 45, 76, 101, 110, 103, 116, 104, 58, 32]
        + decimal(body.len()) + seq![13u8, 10, 13, 10] + body
}

/// `Hello world!`.
pub open spec fn greeting() -> Seq<u8> {
    seq![72u8, 101, 108, 108, 111, 32, 119, 111, 114, 108, 100, 33]
}

/// `Hello, world! ` followed by `index` in decimal.
pub open spec fn numbered_greeting(index: nat) -> Seq<u8> {
    seq![72u8, 101, 108, 108, 111, 44, 32, 119, 111, 114, 108, 100, 33, 32] + decimal(index)
}

proof fn digits_value_grows(s: Seq<u8>, a: int, j: int, k: int)
    requires
        0 <= a <= j <= k <= s.len(),
    ensures
        digits_value(s.subrange(a, j)) <= digits_value(s.subrange(a, k)),
    decreases k - j,
{
    if j < k {
        digits_value_grows(s, a, j, k - 1);
        assert(s.subrange(a, k).drop_last() =~= s.subrange(a, k - 1));
    }
}

/// The decimal digits of a number are digits, and their value is the number.
pub proof fn decimal_reads_back(n: nat)
    ensures
        is_number(decimal(n)),
        number_digits(decimal(n)) == decimal(n),
        digits_value(decimal(n)) == n,
        decimal(n).len() >= 1,
    decreases n,
{
    if n >= 10 {
        decimal_reads_back(n / 10);
        let d = decimal(n);
        assert(d.drop_last() =~= decimal(n / 10));
        assert(d.last() == (48 + n % 10) as u8);
        assert(n == (n / 10) * 10 + n % 10);
        assert(digits_value(d) == digits_value(d.drop_last()) * 10 + (d.last() - 48) as nat);
    } else {
        let d = decimal(n);
        assert(d.drop_last() =~= Seq::<u8>::empty());
        assert(digits_value(d) == digits_value(d.drop_last()) * 10 + (d.last() - 48) as nat);
        assert forall|i: int| 0 <= i < d.len() implies is_digit(#[trigger] d[i]) by {
            if i < d.len() - 1 {
                assert(d[i] == decimal(n / 10)[i]);
            }
        }
    }
}

/// Parses an unsigned number: an optional `+` and then decimal digits, as
/// `usize::from_str` does. `None` when the bytes are no number or the
/// number does not fit a `usize`.
pub fn parse_decimal(bytes: &[u8]) -> (res: Option<usize>)
    ensures
        match res {
            Some(v) => is_number(bytes@) && digits_value(number_digits(bytes@)) == v,
            None => !(is_number(bytes@) && digits_value(number_digits(bytes@)) <= usize::MAX),
        },
{
    let ghost s = bytes@;
    let len = bytes.len();
    let start: usize = if len > 0 && bytes[0] == 43u8 {
        1
    } else {
        0
    };
    if start == len {
        return None;
    }
    let ghost d = number_digits(s);
    assert(d =~= s.subrange(start as int, len as int));
    let mut value: usize = 0;
    let mut i: usize = start;
    while i < len
        invariant
            start <= i <= len,
            len == s.len(),
            start < len,
            bytes@ == s,
            d == s.subrange(start as int, len as int),
            d == number_digits(s),
            forall|j: int| start <= j < i ==> is_digit(s[j]),
            value == digits_value(s.subrange(start as int, i as int)),
        decreases len - i,
    {
        let b = bytes[i];
        if b < 48u8 || b > 57u8 {
            assert(!is_digit(d[i - start]));
            return None;
        }
        assert(s.subrange(start as int, i + 1).drop_last() =~= s.subrange(start as int, i as int));
        match value.checked_mul(10) {
            None => {
                proof {
                    digits_value_grows(s, start as int, i + 1, len as int);
                }
                return None;
            },
            Some(tens) => match tens.checked_add((b - 48u8) as usize) {
                None => {
                    proof {
                        digits_value_grows(s, start as int, i + 1, len as int);
                    }
                    return None;
                },
                Some(next) => {
                    value = next;
                },
            },
        }
        i = i + 1;
    }
    assert forall|j: int| 0 <= j < d.len() implies is_digit(#[trigger] d[j]) by {
        assert(d[j] == s[start + j]);
    }
    Some(value)
}

/// Writes `n` in decimal.
pub fn format_decimal(n: u64) -> (digits: Vec<u8>)
    ensures
        digits@ == decimal(n as nat),
    decreases n,
{
    if n < 10 {
        let mut digits: Vec<u8> = Vec::new();
        digits.push((48 + n) as u8);
        assert(digits@ =~= decimal(n as nat));
        digits
    } else {
        let mut digits = format_decimal(n / 10);
        digits.push((48 + n % 10) as u8);
        digits
    }
}

/// Do the bytes read so far end with the empty line that closes the headers?
pub fn headers_complete(data: &[u8]) -> (done: bool)
    ensures
        done == (data@.len() >= 4 && data@.subrange(data@.len() - 4, data@.len() as int) == seq![
            13u8,
            10,
            13,
            10,
        ]),
{
    let len = data.len();
    if len < 4 {
        return false;
    }
    let done = data[len - 4] == 13u8 && data[len - 3] == 10u8 && data[len - 2] == 13u8 && data[len
        - 1] == 10u8;
    assert(done == (data@.subrange(len - 4, len as int) =~= seq![13u8, 10, 13, 10]));
    done
}

/// Compares two byte strings, ignoring the case of ASCII letters.
pub fn eq_ignore_case(a: &[u8], b: &[u8]) -> (same: bool)
    ensures
        same == eq_ignore_ascii_case(a@, b@),
{
    if a.len() != b.len() {
        return false;
    }
    let mut i: usize = 0;
    while i < a.len()
        invariant
            a@.len() == b@.len(),
            i <= a@.len(),
            forall|j: int| 0 <= j < i ==> ascii_lower(#[trigger] a@[j]) == ascii_lower(b@[j]),
        decreases a@.len() - i,
    {
        let x = a[i];
        let y = b[i];
        let lx = if 65u8 <= x && x <= 90u8 {
            x + 32
        } else {
            x
        };
        let ly = if 65u8 <= y && y <= 90u8 {
            y + 32
        } else {
            y
        };
        if lx != ly {
            assert(ascii_lower(a@[i as int]) != ascii_lower(b@[i as int]));
            return false;
        }
        i = i + 1;
    }
    true
}

/// The position of the first header named `Content-Length`, in any case.
pub fn find_content_length(headers: &Vec<(Vec<u8>, Vec<u8>)>) -> (pos: Option<usize>)
    ensures
        ({
            let hs = headers@.map_values(|p: (Vec<u8>, Vec<u8>)| (p.0@, p.1@));
            match pos {
                Some(i) => is_first_length_header(hs, i as int),
                None => !has_length_header(hs),
            }
        }),
{
    let ghost hs = headers@.map_values(|p: (Vec<u8>, Vec<u8>)| (p.0@, p.1@));
    let name: [u8; 14] = [67u8, 111, 110, 116, 101, 110, 116, 45, 76, 101, 110, 103, 116, 104];
    let mut name_bytes: Vec<u8> = Vec::new();
    name_bytes.extend_from_slice(&name);
    assert(name_bytes@ =~= content_length_name());
    let mut i: usize = 0;
    while i < headers.len()
        invariant
            i <= headers@.len(),
            hs == headers@.map_values(|p: (Vec<u8>, Vec<u8>)| (p.0@, p.1@)),
            name_bytes@ == content_length_name(),
            forall|j: int| 0 <= j < i ==> !eq_ignore_ascii_case(#[trigger] hs[j].0, content_length_name()),
        decreases headers@.len() - i,
    {
        if eq_ignore_case(headers[i].0.as_slice(), name_bytes.as_slice()) {
            return Some(i);
        }
        i = i + 1;
    }
    None
}

/// The length of the body of the request whose headers are `data`: the
/// value of its first `Content-Length` header, or zero without one.
pub fn body_length(data: &[u8]) -> (res: Result<usize, RequestError>)
    ensures
        match parsed_headers(data@, MAX_HEADERS) {
            None => res == Err::<usize, RequestError>(RequestError::Malformed),
            Some(hs) => if !has_length_header(hs) {
                res == Ok::<usize, RequestError>(0)
            } else {
                let i = choose|i: int| is_first_length_header(hs, i);
                let v = hs[i].1;
                &&& is_first_length_header(hs, i)
                &&& if !is_utf8(v) {
                    res == Err::<usize, RequestError>(RequestError::NotUtf8)
                } else if is_number(v) && digits_value(number_digits(v)) <= usize::MAX {
                    res == Ok::<usize, RequestError>(digits_value(number_digits(v)) as usize)
                } else {
                    res == Err::<usize, RequestError>(RequestError::BadLength)
                }
            },
        },
{
    let headers = match parse_request_headers(data, MAX_HEADERS) {
        Ok(h) => h,
        Err(_) => {
            return Err(RequestError::Malformed);
        },
    };
    let ghost hs = headers@.map_values(|p: (Vec<u8>, Vec<u8>)| (p.0@, p.1@));
    match find_content_length(&headers) {
        None => Ok(0),
        Some(i) => {
            proof {
                let k = choose|k: int| is_first_length_header(hs, k);
                assert(is_first_length_header(hs, i as int));
                if k != i as int {
                    if k < i as int {
                        assert(!eq_ignore_ascii_case(hs[k].0, content_length_name()));
                    } else {
                        assert(!eq_ignore_ascii_case(hs[i as int].0, content_length_name()));
                    }
                }
            }
            let value = headers[i].1.as_slice();
            assert(value@ == hs[i as int].1);
            if !utf8_valid(value) {
                return Err(RequestError::NotUtf8);
            }
            match parse_decimal(value) {
                Some(n) => Ok(n),
                None => Err(RequestError::BadLength),
            }
        },
    }
}

/// The answer `HTTP/1.1 200 OK` carrying `body`.
pub fn response(body: &[u8]) -> (bytes: Vec<u8>)
    ensures
        bytes@ == response_bytes(body@),
{
    let status: [u8; 17] = [72u8, 84, 84, 80, 47, 49, 46, 49, 32, 50, 48, 48, 32, 79, 75, 13, 10];
    let header: [u8; 16] = [67u8, 111, 110, 116, 101, 110, 116, 45, 76, 101, 110, 103, 116, 104, 58, 32];
    let blank: [u8; 4] = [13u8, 10, 13, 10];
    let mut bytes: Vec<u8> = Vec::new();
    bytes.extend_from_slice(&status);
    bytes.extend_from_slice(&header);
    let len = format_decimal(body.len() as u64);
    bytes.extend_from_slice(len.as_slice());
    bytes.extend_from_slice(&blank);
    bytes.extend_from_slice(body);
    assert(bytes@ =~= response_bytes(body@));
    bytes
}

/// The answer to a request without a body: a greeting.
pub fn greeting_response() -> (bytes: Vec<u8>)
    ensures
        bytes@ == response_bytes(greeting()),
{
    let hello: [u8; 12] = [72u8, 101, 108, 108, 111, 32, 119, 111, 114, 108, 100, 33];
    let mut body: Vec<u8> = Vec::new();
    body.extend_from_slice(&hello);
    assert(body@ =~= greeting());
    response(body.as_slice())
}

/// The answer to the `index`-th request without a body, for the server that
/// counts its requests: a greeting with the number.
pub fn numbered_greeting_response(index: u64) -> (bytes: Vec<u8>)
    ensures
        bytes@ == response_bytes(numbered_greeting(index as nat)),
{
    let hello: [u8; 14] = [72u8, 101, 108, 108, 111, 44, 32, 119, 111, 114, 108, 100, 33, 32];
    let mut body: Vec<u8> = Vec::new();
    body.extend_from_slice(&hello);
    let number = format_decimal(index);
    body.extend_from_slice(number.as_slice());
    assert(body@ =~= numbered_greeting(index as nat));
    response(body.as_slice())
}

/// The answer to a request whose head announced `length` bytes of body and
/// whose body read gave `body`: the greeting when no body was announced, the
/// body echoed back otherwise.
pub fn answer(length: usize, body: &[u8]) -> (bytes: Vec<u8>)
    ensures
        bytes@ == if length == 0 {
            response_bytes(greeting())
        } else {
            response_bytes(body@)
        },
{
    if length == 0 {
        greeting_response()
    } else {
        response(body)
    }
}

/// A number written by `format_decimal` parses back to itself with
/// `parse_decimal`.
pub proof fn formatted_number_parses_back(n: u64)
    ensures
        is_number(decimal(n as nat)),
        digits_value(number_digits(decimal(n as nat))) == n,
{
    decimal_reads_back(n as nat);
}

} // verus!
