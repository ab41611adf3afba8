//! Session identifiers and their text form.
use vstd::prelude::*;
use crate::little_endian::le_bytes;
use crate::little_endian::from_le;
use crate::little_endian::lemma_byte_bound_16;
use crate::little_endian::lemma_le_bytes_len;
use crate::little_endian::lemma_from_le_of_le_bytes;
use crate::little_endian::lemma_le_bytes_of_from_le;
use crate::little_endian::i128_to_le_bytes;
use crate::little_endian::i128_from_le_bytes;
use crate::encoding::url_safe_encode;
use crate::encoding::url_safe_decode_error;
use crate::encoding::is_url_safe_char;
use crate::encoding::lemma_encode_len;
use crate::encoding::lemma_encode_alphabet;
use crate::encoding::lemma_encode_injective;
use crate::encoding::encode_url_safe;
use crate::encoding::decode_url_safe;
use crate::encoding::IdDecodeError;
use crate::encoding::Base64Error;
use crate::session_store;
use std::collections::HashMap;
use serde_json::Error as JsonError;

verus! {

/// A session identifier: 128 random bits.
#[derive(Clone, Copy, Debug, PartialEq, Eq, Hash, Structural)]
pub struct Id(pub i128);

/// The 16 bytes of an identifier: its two's-complement representation,
/// least significant byte first.
pub open spec fn id_bytes(id: Id) -> Seq<u8> {
    le_bytes((id.0 as u128) as nat, 16)
}

/// The text form of an identifier: its bytes in unpadded URL-safe base64.
pub open spec fn id_text(id: Id) -> Seq<char> {
    url_safe_encode(id_bytes(id))
}

/// The identifier that a text stands for, if it is the text form of one.
pub open spec fn parsed_id(t: Seq<char>) -> Option<Id> {
    if exists|id: Id| id_text(id) == t {
        Some(choose|id: Id| id_text(id) == t)
    } else {
        None
    }
}

/// Whether a text is the encoding of at most 16 bytes, so that it decodes
/// into the buffer of an identifier.
pub open spec fn decodes_within_id(t: Seq<char>) -> bool {
    exists|b: Seq<u8>| b.len() <= 16 && url_safe_encode(b) == t
}

/// The bytes of an identifier are 16, and give back its bits.
pub proof fn lemma_id_bytes(id: Id)
    ensures
        id_bytes(id).len() == 16,
        from_le(id_bytes(id)) == id.0 as u128,
{
    let u = (id.0 as u128) as nat;
    lemma_le_bytes_len(u, 16);
    lemma_byte_bound_16();
    lemma_from_le_of_le_bytes(u, 16);
}

/// Distinct identifiers have distinct text forms.
pub proof fn lemma_id_text_injective(a: Id, b: Id)
    requires
        id_text(a) == id_text(b),
    ensures
        a == b,
{
    lemma_encode_injective(id_bytes(a), id_bytes(b));
    lemma_id_bytes(a);
    lemma_id_bytes(b);
    lemma_cast_roundtrip(a.0, 0);
    lemma_cast_roundtrip(b.0, 0);
}

/// Reading the text form of an identifier gives back that identifier.
pub proof fn law_text_form_reads_back(id: Id)
    ensures
        parsed_id(id_text(id)) == Some(id),
{
    let t = id_text(id);
    assert(exists|x: Id| id_text(x) == t);
    let other = choose|x: Id| id_text(x) == t;
    lemma_id_text_injective(other, id);
}

/// A text that is read as an identifier is that identifier's text form: the
/// form is canonical.
pub proof fn law_read_text_is_canonical(t: Seq<char>)
    ensures
        parsed_id(t) matches Some(id) ==> id_text(id) == t,
{
}

/// The text form of an identifier has 22 characters, all of the URL-safe
/// base64 alphabet.
pub proof fn law_text_form_shape(id: Id)
    ensures
        id_text(id).len() == 22,
        forall|i: int| 0 <= i < 22 ==> is_url_safe_char(#[trigger] id_text(id)[i]),
{
    lemma_id_bytes(id);
    lemma_encode_len(id_bytes(id));
    lemma_encode_alphabet(id_bytes(id));
}

/// `rand::Rng::random` on the thread-local generator: an `i128` drawn at
/// random. Nothing is stated of the value.
#[verifier::external_body]
fn random_i128() -> i128 {
    rand::Rng::random(&mut rand::rng())
}

proof fn lemma_cast_roundtrip(x: i128, u: u128)
    ensures
        (x as u128) as i128 == x,
        (u as i128) as u128 == u,
{
    assert((x as u128) as i128 == x) by (bit_vector);
    assert((u as i128) as u128 == u) by (bit_vector);
}

impl Id {
    /// The identifier as text: the unpadded URL-safe base64 encoding of its
    /// little-endian bytes, 22 characters long.
    pub fn to_string(&self) -> (s: String)
        ensures
            s@ == id_text(*self),
    {
        let bytes = i128_to_le_bytes(self.0);
        encode_url_safe(&bytes)
    }

    /// The identifier that a decode into a 16-byte buffer gives: the one
    /// whose bytes fill the whole buffer; a decode of fewer bytes is refused
    /// as `InvalidLength` of that count, and a failed decode keeps its error.
    pub fn from_decoded(decoded: Result<usize, IdDecodeError>, bytes: [u8; 16]) -> (r: Result<Id, IdDecodeError>)
        ensures
            decoded == Ok::<usize, IdDecodeError>(16) ==> r == Ok::<Id, IdDecodeError>(
                Id((from_le(bytes@) as u128) as i128),
            ),
            decoded == Ok::<usize, IdDecodeError>(16) ==> (r matches Ok(id) && id_bytes(id) == bytes@),
            decoded is Ok && decoded->Ok_0 != 16 ==> r == Err::<Id, IdDecodeError>(
                IdDecodeError::DecodeError(Base64Error::InvalidLength(decoded->Ok_0)),
            ),
            decoded matches Err(e) ==> r == Err::<Id, IdDecodeError>(e),
    {
        match decoded {
            Ok(n) => {
                if n != 16 {
                    Err(IdDecodeError::DecodeError(Base64Error::InvalidLength(n)))
                } else {
                    let x = i128_from_le_bytes(bytes);
                    proof {
                        lemma_cast_roundtrip(x, 0);
                        lemma_le_bytes_of_from_le(bytes@);
                    }
                    Ok(Id(x))
                }
            },
            Err(e) => Err(e),
        }
    }

    /// Reads an identifier from its text form. Exactly the texts that some
    /// identifier gives as `to_string` are accepted, each as that
    /// identifier; the encoding of fewer than 16 bytes is refused as
    /// `InvalidLength` of that byte count; any other text gets the error
    /// that the base64 decoder gives it.
    pub fn from_str(s: &str) -> (r: Result<Id, IdDecodeError>)
        ensures
            r is Ok <==> parsed_id(s@) is Some,
            r matches Ok(id) ==> parsed_id(s@) == Some(id),
            forall|b: Seq<u8>|
                b.len() < 16 && s@ == url_safe_encode(b) ==> r == Err::<Id, IdDecodeError>(
                    IdDecodeError::DecodeError(Base64Error::InvalidLength(b.len() as usize)),
                ),
            !decodes_within_id(s@) ==> r == Err::<Id, IdDecodeError>(url_safe_decode_error(s@)),
    {
        let mut decoded = [0u8; 16];
        let res = decode_url_safe(s, &mut decoded);
        let r = Id::from_decoded(res, decoded);
        proof {
            match res {
                Ok(n) => {
                    assert(decoded@.take(n as int).len() <= 16);
                    assert(decodes_within_id(s@));
                    if n != 16 {
                        assert forall|id: Id| id_text(id) != s@ by {
                            lemma_id_bytes(id);
                        }
                    } else {
                        let id = r->Ok_0;
                        assert(decoded@.take(16) =~= decoded@);
                        assert(s@ == id_text(id));
                        law_text_form_reads_back(id);
                    }
                },
                Err(e) => {
                    assert forall|id: Id| id_text(id) != s@ by {
                        lemma_id_bytes(id);
                    }
                },
            }
        }
        r
    }
}

impl Default for Id {
    /// A fresh identifier drawn at random.
    fn default() -> Self {
        Id(random_i128())
    }
}

impl std::str::FromStr for Id {
    type Err = IdDecodeError;

    /// Reads an identifier from its text form, as `Id::from_str` does.
    fn from_str(s: &str) -> (r: Result<Id, IdDecodeError>)
        ensures
            r is Ok <==> parsed_id(s@) is Some,
            r matches Ok(id) ==> parsed_id(s@) == Some(id),
            forall|b: Seq<u8>|
                b.len() < 16 && s@ == url_safe_encode(b) ==> r == Err::<Id, IdDecodeError>(
                    IdDecodeError::DecodeError(Base64Error::InvalidLength(b.len() as usize)),
                ),
            !decodes_within_id(s@) ==> r == Err::<Id, IdDecodeError>(url_safe_decode_error(s@)),
    {
        Id::from_str(s)
    }
}

#[verifier::external_type_specification]
#[verifier::external_body]
pub struct ExJsonValue(serde_json::Value);

#[verifier::external_type_specification]
#[verifier::external_body]
pub struct ExJsonError(JsonError);

#[verifier::external_type_specification]
#[verifier::external_body]
pub struct ExOffsetDateTime(time::OffsetDateTime);

/// `Clone::clone` on `time::OffsetDateTime`, a `Copy` type: the same moment
/// and offset.
pub assume_specification[ <time::OffsetDateTime as Clone>::clone ](t: &time::OffsetDateTime) -> (r: time::OffsetDateTime)
    ensures
        r == *t,
;

/// The stored state of a session: its identifier, its data by key, and when
/// it expires.
#[derive(Debug, Clone)]
pub struct Record {
    pub id: Id,
    pub data: HashMap<String, serde_json::Value>,
    pub expiry_date: time::OffsetDateTime,
}

impl Record {
    /// A fresh record that expires at `expiry_date`: a random identifier and
    /// no data.
    pub fn new(expiry_date: time::OffsetDateTime) -> (r: Record)
        ensures
            r.data@ == Map::<String, serde_json::Value>::empty(),
            r.expiry_date == expiry_date,
    {
        Record { id: Id::default(), data: HashMap::new(), expiry_date }
    }
}

/// Why a session operation failed: the session data could not be converted,
/// or the store failed.
#[derive(Debug)]
pub enum Error {
    SerdeJson(JsonError),
    Store(session_store::Error),
}

impl From<JsonError> for Error {
    fn from(e: JsonError) -> (r: Error) {
        Error::SerdeJson(e)
    }
}

impl vstd::std_specs::convert::FromSpecImpl<JsonError> for Error {
    open spec fn obeys_from_spec() -> bool {
        true
    }

    open spec fn from_spec(e: JsonError) -> Error {
        Error::SerdeJson(e)
    }
}

impl From<session_store::Error> for Error {
    fn from(e: session_store::Error) -> (r: Error) {
        Error::Store(e)
    }
}

impl vstd::std_specs::convert::FromSpecImpl<session_store::Error> for Error {
    open spec fn obeys_from_spec() -> bool {
        true
    }

    open spec fn from_spec(e: session_store::Error) -> Error {
        Error::Store(e)
    }
}

} // verus!
