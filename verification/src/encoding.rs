//! The URL-safe, unpadded base64 text form of byte strings, and the trusted
//! calls into the `base64` crate that produce and read it.
use vstd::prelude::*;
use base64::Engine;
use base64::DecodeError as Malformed;
use base64::DecodeSliceError as SliceError;
use base64::engine::general_purpose::URL_SAFE_NO_PAD;

verus! {

/// The symbol of the URL-safe base64 alphabet (RFC 4648, section 5) for a
/// six-bit value: `A`-`Z`, `a`-`z`, `0`-`9`, `-`, `_`.
pub open spec fn url_safe_symbol(v: int) -> char {
    if v < 26 {
        (65 + v) as char
    } else if v < 52 {
        (97 + (v - 26)) as char
    } else if v < 62 {
        (48 + (v - 52)) as char
    } else if v == 62 {
        '-'
    } else {
        '_'
    }
}

/// Base64 with the URL-safe alphabet and no padding: every three bytes give
/// four symbols, a trailing pair gives three and a trailing byte gives two,
/// the unused low bits of the last symbol being zero.
pub open spec fn url_safe_encode(b: Seq<u8>) -> Seq<char>
    decreases b.len(),
{
    if b.len() == 0 {
        seq![]
    } else if b.len() == 1 {
        seq![url_safe_symbol(b[0] as int / 4), url_safe_symbol((b[0] as int % 4) * 16)]
    } else if b.len() == 2 {
        seq![
            url_safe_symbol(b[0] as int / 4),
            url_safe_symbol((b[0] as int % 4) * 16 + b[1] as int / 16),
            url_safe_symbol((b[1] as int % 16) * 4),
        ]
    } else {
        seq![
            url_safe_symbol(b[0] as int / 4),
            url_safe_symbol((b[0] as int % 4) * 16 + b[1] as int / 16),
            url_safe_symbol((b[1] as int % 16) * 4 + b[2] as int / 64),
            url_safe_symbol(b[2] as int % 64),
        ] + url_safe_encode(b.subrange(3, b.len() as int))
    }
}

/// The number of symbols in the encoding of `n` bytes.
pub open spec fn url_safe_encoded_len(n: nat) -> nat {
    4 * (n / 3) + if n % 3 == 0 {
        0nat
    } else if n % 3 == 1 {
        2nat
    } else {
        3nat
    }
}

/// Every symbol of the alphabet stands for one six-bit value.
pub proof fn lemma_symbol_injective(v: int, w: int)
    requires
        0 <= v < 64,
        0 <= w < 64,
        url_safe_symbol(v) == url_safe_symbol(w),
    ensures
        v == w,
{
    let cv = url_safe_symbol(v);
    let cw = url_safe_symbol(w);
    assert(cv as int == cw as int);
}

/// The encoding of `n` bytes has `url_safe_encoded_len(n)` symbols, each of
/// them in the alphabet.
pub proof fn lemma_encode_len(b: Seq<u8>)
    ensures
        url_safe_encode(b).len() == url_safe_encoded_len(b.len()),
    decreases b.len(),
{
    if b.len() >= 3 {
        lemma_encode_len(b.subrange(3, b.len() as int));
    }
}

/// A character of the URL-safe base64 alphabet.
pub open spec fn is_url_safe_char(c: char) -> bool {
    ('A' <= c && c <= 'Z') || ('a' <= c && c <= 'z') || ('0' <= c && c <= '9') || c == '-' || c
        == '_'
}

/// Every symbol of an encoding is in the URL-safe alphabet.
pub proof fn lemma_encode_alphabet(b: Seq<u8>)
    ensures
        forall|i: int| 0 <= i < url_safe_encode(b).len() ==> is_url_safe_char(
            #[trigger] url_safe_encode(b)[i],
        ),
    decreases b.len(),
{
    let e = url_safe_encode(b);
    if b.len() >= 3 {
        let rest = b.subrange(3, b.len() as int);
        lemma_encode_alphabet(rest);
        assert forall|i: int| 0 <= i < e.len() implies is_url_safe_char(#[trigger] e[i]) by {
            if i >= 4 {
                assert(e[i] == url_safe_encode(rest)[i - 4]);
            }
        }
    }
}

/// Distinct byte strings have distinct encodings.
pub proof fn lemma_encode_injective(a: Seq<u8>, b: Seq<u8>)
    requires
        url_safe_encode(a) == url_safe_encode(b),
    ensures
        a == b,
    decreases a.len(),
{
    lemma_encode_len(a);
    lemma_encode_len(b);
    assert(a.len() == b.len());
    let e = url_safe_encode(a);
    if a.len() == 0 {
        assert(a =~= b);
    } else {
        let a0 = a[0] as int;
        let b0 = b[0] as int;
        let f = url_safe_encode(b);
        assert(e[0] == url_safe_symbol(a0 / 4));
        assert(f[0] == url_safe_symbol(b0 / 4));
        lemma_symbol_injective(a0 / 4, b0 / 4);
        if a.len() == 1 {
            assert(e[1] == url_safe_symbol((a0 % 4) * 16));
            lemma_symbol_injective((a0 % 4) * 16, (b0 % 4) * 16);
            assert(a0 == b0);
            assert(a =~= b);
        } else {
            let a1 = a[1] as int;
            let b1 = b[1] as int;
            assert(e[1] == url_safe_symbol((a0 % 4) * 16 + a1 / 16));
            lemma_symbol_injective((a0 % 4) * 16 + a1 / 16, (b0 % 4) * 16 + b1 / 16);
            assert(a0 == b0);
            assert(a1 / 16 == b1 / 16);
            if a.len() == 2 {
                lemma_symbol_injective((a1 % 16) * 4, (b1 % 16) * 4);
                assert(a1 == b1);
                assert(a =~= b);
            } else {
                let a2 = a[2] as int;
                let b2 = b[2] as int;
                assert(e[2] == url_safe_symbol((a1 % 16) * 4 + a2 / 64));
                assert(f[2] == url_safe_symbol((b1 % 16) * 4 + b2 / 64));
                assert(e[3] == url_safe_symbol(a2 % 64));
                assert(f[3] == url_safe_symbol(b2 % 64));
                lemma_symbol_injective((a1 % 16) * 4 + a2 / 64, (b1 % 16) * 4 + b2 / 64);
                lemma_symbol_injective(a2 % 64, b2 % 64);
                assert(a1 == b1);
                assert(a2 == b2);
                let ra = a.subrange(3, a.len() as int);
                let rb = b.subrange(3, b.len() as int);
                assert(url_safe_encode(ra) =~= e.subrange(4, e.len() as int));
                assert(url_safe_encode(rb) =~= url_safe_encode(b).subrange(4, e.len() as int));
                lemma_encode_injective(ra, rb);
                assert forall|i: int| 0 <= i < a.len() implies a[i] == b[i] by {
                    if i >= 3 {
                        assert(a[i] == ra[i - 3]);
                        assert(b[i] == rb[i - 3]);
                    }
                }
                assert(a =~= b);
            }
        }
    }
}

/// Why a base64 text could not be decoded into a buffer; the same cases as
/// `base64::DecodeError`.
#[derive(Debug, Clone, Copy, PartialEq, Eq, Structural)]
pub enum Base64Error {
    /// A byte outside the alphabet, with its offset.
    InvalidByte(usize, u8),
    /// The number of symbols cannot come from any byte string, or the
    /// decoded bytes are not the expected number.
    InvalidLength(usize),
    /// The last symbol carries bits that a canonical encoding leaves zero.
    InvalidLastSymbol(usize, u8),
    /// Padding where none is allowed.
    InvalidPadding,
}

/// A decoding failure, or a buffer too small for the decoded bytes; the same
/// cases as `base64::DecodeSliceError`.
#[derive(Debug, Clone, Copy, PartialEq, Eq, Structural)]
pub enum IdDecodeError {
    DecodeError(Base64Error),
    OutputSliceTooSmall,
}

/// A decode into `out` that gives back every byte string of at most 16 bytes
/// from its encoding: on such a `text` the result is `Ok` with the string's
/// length, and the string stands at the front of `out`.
pub open spec fn decodes_every_fitting_encoding(
    text: Seq<char>,
    r: Result<usize, IdDecodeError>,
    out: Seq<u8>,
) -> bool {
    forall|b: Seq<u8>| #![trigger url_safe_encode(b)]
        b.len() <= 16 && text == url_safe_encode(b) ==> (r matches Ok(n) && n == b.len())
            && out.take(b.len() as int) == b
}

/// `base64::Engine::encode` on the `URL_SAFE_NO_PAD` engine: the text is the
/// unpadded URL-safe base64 encoding of the bytes.
#[verifier::external_body]
pub(crate) fn encode_url_safe(bytes: &[u8; 16]) -> (text: String)
    ensures
        text@ == url_safe_encode(bytes@),
{
    URL_SAFE_NO_PAD.encode(bytes)
}

/// What `base64::Engine::decode_slice` on the `URL_SAFE_NO_PAD` engine, into
/// a 16-byte buffer, answers a text that it rejects. Which error comes out
/// depends on the text alone: the buffer's length is fixed and its contents
/// are not read.
pub uninterp spec fn url_safe_decode_error(text: Seq<char>) -> IdDecodeError;

/// `base64::Engine::decode_slice` on the `URL_SAFE_NO_PAD` engine, writing
/// into a 16-byte buffer, with the cases of `base64::DecodeSliceError` and
/// `base64::DecodeError` told apart one arm each. That engine accepts only
/// canonical text (no padding, zero trailing bits), so a success of `n`
/// bytes means the text is the encoding of the first `n` bytes written; the
/// encoding of any byte string that fits the buffer is decoded back to it;
/// and a rejected text gets the error that `url_safe_decode_error` names.
/// What a failed call leaves in the buffer is not stated.
#[verifier::external_body]
pub(crate) fn decode_url_safe(text: &str, output: &mut [u8; 16]) -> (r: Result<usize, IdDecodeError>)
    ensures
        r matches Ok(n) ==> n <= 16 && text@ == url_safe_encode(final(output)@.take(n as int)),
        decodes_every_fitting_encoding(text@, r, final(output)@),
        r matches Err(e) ==> e == url_safe_decode_error(text@),
{
    match URL_SAFE_NO_PAD.decode_slice(text.as_bytes(), output) {
        Ok(n) => Ok(n),
        Err(SliceError::OutputSliceTooSmall) => Err(IdDecodeError::OutputSliceTooSmall),
        Err(SliceError::DecodeError(e)) => Err(IdDecodeError::DecodeError(match e {
            Malformed::InvalidByte(at, b) => Base64Error::InvalidByte(at, b),
            Malformed::InvalidLength(n) => Base64Error::InvalidLength(n),
            Malformed::InvalidLastSymbol(at, b) => Base64Error::InvalidLastSymbol(at, b),
            Malformed::InvalidPadding => Base64Error::InvalidPadding,
        })),
    }
}

} // verus!
