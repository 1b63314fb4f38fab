//! Byte-exact assembly of the three HTTP responses.
//!
//! A response is always: status line, then (for a successful response only)
//! the `Content-Type` header, then a `Content-Length` header whose decimal
//! number is the exact byte length of the body, then a blank line, then the
//! body bytes verbatim.

use vstd::prelude::*;
use vstd::string::*;

use crate::status::StatusLine;

verus! {

/// The two-byte line terminator `\r\n`.
pub open spec fn crlf() -> Seq<u8> {
    seq![13u8, 10u8]
}

/// The decimal digits of `n`, most significant first, as ASCII bytes.
pub open spec fn dec_digits(n: nat) -> Seq<u8>
    decreases n,
{
    if n < 10 {
        seq![(48 + n) as u8]
    } else {
        dec_digits(n / 10).push((48 + n % 10) as u8)
    }
}

/// The number a sequence of ASCII digit bytes denotes, most significant first.
pub open spec fn dec_value(digits: Seq<u8>) -> int
    decreases digits.len(),
{
    if digits.len() == 0 {
        0
    } else {
        dec_value(digits.drop_last()) * 10 + (digits.last() - 48)
    }
}

/// The digits of `n` are ASCII digits, begin with a zero only for `n == 0`,
/// and denote exactly `n`.
pub proof fn lemma_dec_digits_value(n: nat)
    ensures
        dec_value(dec_digits(n)) == n,
        dec_digits(n).len() >= 1,
        forall|i: int| 0 <= i < dec_digits(n).len() ==> 48 <= #[trigger] dec_digits(n)[i] <= 57,
        n > 0 ==> dec_digits(n)[0] != 48,
    decreases n,
{
    if n < 10 {
        let d = (48 + n) as u8;
        assert(d == 48 + n);
        assert(dec_digits(n) == seq![d]);
        assert(seq![d].drop_last() =~= Seq::<u8>::empty());
        assert(dec_value(seq![d]) == dec_value(Seq::<u8>::empty()) * 10 + (d - 48));
        assert(dec_value(Seq::<u8>::empty()) == 0);
    } else {
        lemma_dec_digits_value(n / 10);
        assert(dec_digits(n) == dec_digits(n / 10).push((48 + n % 10) as u8));
        assert(dec_digits(n).drop_last() =~= dec_digits(n / 10));
        assert(dec_digits(n).last() == (48 + n % 10) as u8);
        assert((48 + n % 10) as u8 == 48 + n % 10) by {
            assert(0 <= 48 + n % 10 < 256);
        }
        assert(dec_value(dec_digits(n)) == dec_value(dec_digits(n / 10)) * 10 + n % 10);
        assert(n == (n / 10) * 10 + n % 10);
    }
}

/// The bytes of the status line belonging to each response kind.
pub open spec fn status_line_bytes(s: StatusLine) -> Seq<u8> {
    match s {
        StatusLine::Success => "HTTP/1.1 200 OK".spec_bytes(),
        StatusLine::NotFound => "HTTP/1.1 404 NOT FOUND".spec_bytes(),
        StatusLine::InternalServerError => "HTTP/1.1 500 INTERNAL SERVER ERROR".spec_bytes(),
    }
}

/// The `Content-Type` line, emitted for a successful response only.
pub open spec fn content_type_part(s: StatusLine) -> Seq<u8> {
    match s {
        StatusLine::Success => "Content-Type: application/json".spec_bytes() + crlf(),
        _ => Seq::empty(),
    }
}

/// Everything of a response that precedes the `Content-Length` header.
pub open spec fn status_prologue(s: StatusLine) -> Seq<u8> {
    status_line_bytes(s) + crlf() + content_type_part(s)
}

/// The full header block for a response of kind `s` whose body is `body_len`
/// bytes long, blank line included.
pub open spec fn response_head(s: StatusLine, body_len: nat) -> Seq<u8> {
    status_prologue(s) + "Content-Length: ".spec_bytes() + dec_digits(body_len) + crlf() + crlf()
}

/// The complete response for kind `s` with body `body`.
pub open spec fn response_bytes(s: StatusLine, body: Seq<u8>) -> Seq<u8> {
    response_head(s, body.len()) + body
}

/// In every response, of any kind, the number in the `Content-Length` header
/// denotes exactly the byte length of the body that follows the blank line.
pub proof fn lemma_content_length_exact(s: StatusLine, body: Seq<u8>)
    ensures
        response_bytes(s, body) =~= status_prologue(s) + "Content-Length: ".spec_bytes()
            + dec_digits(body.len()) + crlf() + crlf() + body,
        dec_value(dec_digits(body.len())) == body.len(),
{
    lemma_dec_digits_value(body.len());
}

/// Appends a copy of `bytes` to `out`.
fn append_bytes(out: &mut Vec<u8>, bytes: &[u8])
    ensures
        final(out)@ == old(out)@ + bytes@,
{
    let mut i: usize = 0;
    while i < bytes.len()
        invariant
            i <= bytes.len(),
            out@ == old(out)@ + bytes@.subrange(0, i as int),
        decreases bytes.len() - i,
    {
        out.push(bytes[i]);
        i += 1;
        proof {
            assert(out@ =~= old(out)@ + bytes@.subrange(0, i as int));
        }
    }
    proof {
        assert(bytes@.subrange(0, bytes@.len() as int) =~= bytes@);
    }
}

/// Appends the line terminator to `out`.
fn append_crlf(out: &mut Vec<u8>)
    ensures
        final(out)@ == old(out)@ + crlf(),
{
    out.push(13);
    out.push(10);
    proof {
        assert(out@ =~= old(out)@ + crlf());
    }
}

/// Appends the decimal digits of `n` to `out`, most significant first.
fn append_decimal(out: &mut Vec<u8>, n: usize)
    ensures
        final(out)@ == old(out)@ + dec_digits(n as nat),
    decreases n,
{
    if n < 10 {
        out.push(48 + n as u8);
        proof {
            assert(out@ =~= old(out)@ + dec_digits(n as nat));
        }
    } else {
        append_decimal(out, n / 10);
        out.push(48 + (n % 10) as u8);
        proof {
            assert(out@ =~= old(out)@ + dec_digits(n as nat));
        }
    }
}

/// Assembles the complete response of kind `status` around `body`, computing
/// `Content-Length` from the body's exact byte length.
pub fn build_response(status: &StatusLine, body: &[u8]) -> (r: Vec<u8>)
    ensures
        r@ == response_bytes(*status, body@),
{
    let mut out: Vec<u8> = Vec::new();
    append_bytes(&mut out, status.as_str().as_bytes());
    append_crlf(&mut out);
    if let StatusLine::Success = status {
        append_bytes(&mut out, "Content-Type: application/json".as_bytes());
        append_crlf(&mut out);
    }
    append_bytes(&mut out, "Content-Length: ".as_bytes());
    append_decimal(&mut out, body.len());
    append_crlf(&mut out);
    append_crlf(&mut out);
    append_bytes(&mut out, body);
    proof {
        assert(out@ =~= response_bytes(*status, body@));
    }
    out
}

} // verus!
