use vstd::prelude::*;
use hash_ids::HashIds;
use crate::error::ConvertError;

verus! {

/// The token that hashids, configured with `salt` and `min_length`, gives
/// the one-number list `[value]`.
pub uninterp spec fn hashids_token(salt: Seq<char>, min_length: nat, value: u64) -> Seq<char>;

/// Relies on hash_ids' `HashIds` (built with `with_salt`, `with_min_length`,
/// `finish`) and `HashIds::encode` on a one-number list: the token depends on
/// the configuration and the number alone, is padded to at least
/// `min_length` characters, and is decoded back to that number by `decode`,
/// so no other number has the same token.
#[verifier::external_body]
fn hashids_encode(salt: &str, min_length: usize, value: u64) -> (r: String)
    ensures
        r@ == hashids_token(salt@, min_length as nat, value),
        r@.len() >= min_length,
        forall|w: u64| #[trigger] hashids_token(salt@, min_length as nat, w) == r@ ==> w == value,
{
    HashIds::builder().with_salt(salt).with_min_length(min_length).finish().encode(&[value])
}

/// An opaque external identifier: the token that stands for a row id.
#[derive(Clone, Debug, PartialEq, Eq, Hash)]
pub struct Id {
    pub token: String,
}

impl Id {
    pub fn new(token: String) -> (r: Id)
        ensures
            r.token == token,
    {
        Id { token }
    }

    pub fn as_str(&self) -> (r: &str)
        ensures
            r@ == self.token@,
    {
        self.token.as_str()
    }
}

/// The configuration of the identifier codec, built once and passed to
/// every conversion that reads or writes identifiers.
pub struct IdCodec {
    pub salt: String,
    pub min_length: usize,
}

impl IdCodec {
    /// The token of row id `id`; a negative id is read as its two's
    /// complement, as the codec works on unsigned numbers.
    pub open spec fn token_of(&self, id: i64) -> Seq<char> {
        hashids_token(self.salt@, self.min_length as nat, id as u64)
    }

    /// The row id that `token` stands for, given the numbers that hashids'
    /// decoder read from it: the first number, accepted only where it
    /// encodes back to exactly `token`.
    pub open spec fn rowid_of(&self, token: Seq<char>, decoded: Seq<u64>) -> Option<i64> {
        if decoded.len() > 0 && hashids_token(self.salt@, self.min_length as nat, decoded[0])
            == token {
            Some(decoded[0] as i64)
        } else {
            None
        }
    }

    /// The codec of the service: a fixed salt and tokens of at least six
    /// characters.
    pub fn new() -> (c: IdCodec)
        ensures
            c.salt@ == "tabby-id-serializer"@,
            c.min_length == 6,
    {
        IdCodec { salt: "tabby-id-serializer".to_owned(), min_length: 6 }
    }

    /// A codec with another configuration, whose tokens the service's codec
    /// does not read.
    pub fn with_config(salt: String, min_length: usize) -> (c: IdCodec)
        ensures
            c.salt == salt,
            c.min_length == min_length,
    {
        IdCodec { salt, min_length }
    }

    /// The token of row id `id`.
    pub fn encode(&self, id: i64) -> (r: Id)
        ensures
            r.token@ == self.token_of(id),
            r.token@.len() >= self.min_length,
            forall|w: u64| #[trigger] hashids_token(self.salt@, self.min_length as nat, w) == r.token@
                ==> w == id as u64,
    {
        Id::new(hashids_encode(self.salt.as_str(), self.min_length, id as u64))
    }

    /// The row id of `token`, given the numbers that hashids' decoder read
    /// from it; fails unless the first of them encodes back to `token`.
    pub fn decode(&self, token: &Id, decoded: &Vec<u64>) -> (r: Result<i64, ConvertError>)
        ensures
            r is Ok <==> self.rowid_of(token.token@, decoded@) is Some,
            r is Ok ==> Some(r->Ok_0) == self.rowid_of(token.token@, decoded@),
            r is Ok ==> self.token_of(r->Ok_0) == token.token@,
            r is Err ==> r->Err_0 == ConvertError::IdentifierDecodeFailure,
    {
        if decoded.len() == 0 {
            return Err(ConvertError::IdentifierDecodeFailure);
        }
        let first = decoded[0];
        let again = hashids_encode(self.salt.as_str(), self.min_length, first);
        if again == token.token {
            assert(((first as i64) as u64) == first) by (bit_vector);
            Ok(first as i64)
        } else {
            Err(ConvertError::IdentifierDecodeFailure)
        }
    }
}

/// Decoding the token of any row id, with the number that the decoder reads
/// from it, gives that row id back.
pub proof fn lemma_decode_encode(codec: IdCodec, id: i64)
    ensures
        codec.rowid_of(codec.token_of(id), seq![id as u64]) == Some(id),
{
    assert(((id as u64) as i64) == id) by (bit_vector);
}

/// Values that reference a row by an external identifier.
pub trait AsRowid {
    /// The token that references the row.
    spec fn token_view(&self) -> Seq<char>;

    /// The row id, given the numbers that hashids' decoder read from the
    /// identifier; fails unless they encode back to it.
    fn as_rowid(&self, codec: &IdCodec, decoded: &Vec<u64>) -> (r: Result<i64, ConvertError>)
        ensures
            r is Ok <==> codec.rowid_of(self.token_view(), decoded@) is Some,
            r is Ok ==> Some(r->Ok_0) == codec.rowid_of(self.token_view(), decoded@),
            r is Ok ==> codec.token_of(r->Ok_0) == self.token_view(),
            r is Err ==> r->Err_0 == ConvertError::IdentifierDecodeFailure,
    ;
}

impl AsRowid for Id {
    open spec fn token_view(&self) -> Seq<char> {
        self.token@
    }

    fn as_rowid(&self, codec: &IdCodec, decoded: &Vec<u64>) -> (r: Result<i64, ConvertError>) {
        codec.decode(self, decoded)
    }
}

/// Row ids that can be handed out as external identifiers.
pub trait AsID {
    /// The row id as a 64-bit number.
    spec fn row_value(&self) -> i64;

    fn as_id(&self, codec: &IdCodec) -> (r: Id)
        ensures
            r.token@ == codec.token_of(self.row_value()),
    ;
}

impl AsID for i64 {
    open spec fn row_value(&self) -> i64 {
        *self
    }

    fn as_id(&self, codec: &IdCodec) -> (r: Id) {
        codec.encode(*self)
    }
}

impl AsID for i32 {
    open spec fn row_value(&self) -> i64 {
        *self as i64
    }

    fn as_id(&self, codec: &IdCodec) -> (r: Id) {
        codec.encode(*self as i64)
    }
}

} // verus!
