use vstd::prelude::*;
use vstd::utf8::*;

verus! {

#[verifier::external_type_specification]
#[verifier::external_body]
pub struct ExIoError(std::io::Error);

/// The four little-endian bytes of `v`.
pub open spec fn u32_le(v: u32) -> Seq<u8> {
    seq![
        (v % 256) as u8,
        ((v / 256) % 256) as u8,
        ((v / 65536) % 256) as u8,
        (v / 16777216) as u8,
    ]
}

/// A byte string preceded by its length as a little-endian `u32`.
pub open spec fn length_prefixed(b: Seq<u8>) -> Seq<u8> {
    u32_le(b.len() as u32) + b
}

/// Both variable-length fields have a length that fits in the `u32` prefix.
pub open spec fn encodable(name: Seq<char>, key: Seq<u8>) -> bool {
    encode_utf8(name).len() <= u32::MAX && key.len() <= u32::MAX
}

/// The binary layout of a record: the name as length-prefixed UTF-8, the age
/// as four little-endian bytes, then the length-prefixed key.
pub open spec fn record_bytes(name: Seq<char>, age: u32, key: Seq<u8>) -> Seq<u8> {
    length_prefixed(encode_utf8(name)) + u32_le(age) + length_prefixed(key)
}

/// `b` is the encoding of some record.
pub open spec fn is_record_bytes(b: Seq<u8>) -> bool {
    exists|name: Seq<char>, age: u32, key: Seq<u8>|
        encodable(name, key) && #[trigger] record_bytes(name, age, key) == b
}

/// Relies on `borsh::to_vec` of a `(String, u32, Vec<u8>)` tuple: the three
/// fields one after the other, a string or byte vector as its `u32`
/// little-endian length followed by its bytes, and an error exactly where a
/// length does not fit in `u32`.
#[verifier::external_body]
fn borsh_to_vec(name: &String, age: u32, key: &Vec<u8>) -> (r: Result<Vec<u8>, std::io::Error>)
    ensures
        r is Ok <==> encodable(name@, key@),
        r matches Ok(b) ==> b@ == record_bytes(name@, age, key@),
{
    borsh::to_vec(&(name, age, key))
}

/// Relies on `borsh::from_slice` into a `(String, u32, Vec<u8>)` tuple: it
/// reads the layout that `borsh::to_vec` writes, rejects a name that is not
/// UTF-8, a short input and trailing bytes.
#[verifier::external_body]
fn borsh_from_slice(bytes: &[u8]) -> (r: Result<(String, u32, Vec<u8>), std::io::Error>)
    ensures
        r is Ok <==> is_record_bytes(bytes@),
        r matches Ok(t) ==> encodable(t.0@, t.2@) && record_bytes(t.0@, t.1, t.2@) == bytes@,
{
    borsh::from_slice::<(String, u32, Vec<u8>)>(bytes)
}

/// Why a record could not be encoded or decoded.
#[derive(Debug, Clone, Copy, PartialEq, Eq, Structural)]
pub enum CodecError {
    /// The name or the key is longer than a `u32` length can say.
    TooLong,
    /// The bytes are not the encoding of a record.
    Malformed,
}

/// A user record with a public key, stored in a compact binary form.
#[derive(Debug, Clone)]
pub struct User {
    pub name: String,
    pub age: u32,
    pub pub_key: Vec<u8>,
}

impl User {
    pub open spec fn encodable(&self) -> bool {
        encodable(self.name@, self.pub_key@)
    }

    pub open spec fn encoding(&self) -> Seq<u8> {
        record_bytes(self.name@, self.age, self.pub_key@)
    }

    /// Encodes the record in its binary layout.
    pub fn to_bytes(&self) -> (r: Result<Vec<u8>, CodecError>)
        ensures
            r is Ok <==> self.encodable(),
            r matches Ok(b) ==> b@ == self.encoding(),
            r matches Err(e) ==> e == CodecError::TooLong,
    {
        match borsh_to_vec(&self.name, self.age, &self.pub_key) {
            Ok(b) => Ok(b),
            Err(_) => Err(CodecError::TooLong),
        }
    }

    /// Decodes a record from its binary layout.
    pub fn from_bytes(bytes: &[u8]) -> (r: Result<User, CodecError>)
        ensures
            r is Ok <==> is_record_bytes(bytes@),
            r matches Ok(u) ==> u.encodable() && u.encoding() == bytes@,
            r matches Err(e) ==> e == CodecError::Malformed,
    {
        match borsh_from_slice(bytes) {
            Ok(t) => Ok(User { name: t.0, age: t.1, pub_key: t.2 }),
            Err(_) => Err(CodecError::Malformed),
        }
    }
}

proof fn lemma_u32_le_injective(a: u32, b: u32)
    requires
        u32_le(a) == u32_le(b),
    ensures
        a == b,
{
    assert(u32_le(a)[0] == u32_le(b)[0]);
    assert(u32_le(a)[1] == u32_le(b)[1]);
    assert(u32_le(a)[2] == u32_le(b)[2]);
    assert(u32_le(a)[3] == u32_le(b)[3]);
    assert(a == b) by (nonlinear_arith)
        requires
            a % 256 == b % 256,
            (a / 256) % 256 == (b / 256) % 256,
            (a / 65536) % 256 == (b / 65536) % 256,
            a / 16777216 == b / 16777216,
    {}
}

/// Two length-prefixed byte strings followed by the same bytes are equal, and so are the rests.
proof fn lemma_length_prefixed_split(x: Seq<u8>, y: Seq<u8>, rx: Seq<u8>, ry: Seq<u8>)
    requires
        x.len() <= u32::MAX,
        y.len() <= u32::MAX,
        length_prefixed(x) + rx == length_prefixed(y) + ry,
    ensures
        x == y,
        rx == ry,
{
    let bx = length_prefixed(x) + rx;
    let by = length_prefixed(y) + ry;
    assert(bx.subrange(0, 4) == u32_le(x.len() as u32));
    assert(by.subrange(0, 4) == u32_le(y.len() as u32));
    lemma_u32_le_injective(x.len() as u32, y.len() as u32);
    assert(x.len() == y.len());
    assert(x == bx.subrange(4, 4 + x.len() as int));
    assert(y == by.subrange(4, 4 + y.len() as int));
    assert(rx == bx.subrange(4 + x.len() as int, bx.len() as int));
    assert(ry == by.subrange(4 + y.len() as int, by.len() as int));
}

/// Decoding inverts encoding: the encoding of an encodable record is accepted
/// by `User::from_bytes`, and any record that decodes from it has the same
/// name, age and key.
pub proof fn lemma_round_trip(u: User, v: User)
    requires
        u.encodable(),
        v.encodable(),
        v.encoding() == u.encoding(),
    ensures
        is_record_bytes(u.encoding()),
        v.name@ == u.name@,
        v.age == u.age,
        v.pub_key@ == u.pub_key@,
{
    broadcast use encode_utf8_decode_utf8;

    assert(encodable(u.name@, u.pub_key@) && record_bytes(u.name@, u.age, u.pub_key@)
        == u.encoding());
    let ue = encode_utf8(u.name@);
    let ve = encode_utf8(v.name@);
    let ur = u32_le(u.age) + length_prefixed(u.pub_key@);
    let vr = u32_le(v.age) + length_prefixed(v.pub_key@);
    assert(u.encoding() == length_prefixed(ue) + ur);
    assert(v.encoding() == length_prefixed(ve) + vr);
    lemma_length_prefixed_split(ue, ve, ur, vr);
    assert(decode_utf8(ue) == u.name@);
    assert(decode_utf8(ve) == v.name@);
    assert(ur.subrange(0, 4) == u32_le(u.age));
    assert(vr.subrange(0, 4) == u32_le(v.age));
    lemma_u32_le_injective(u.age, v.age);
    assert(ur.subrange(4, ur.len() as int) == length_prefixed(u.pub_key@));
    assert(vr.subrange(4, vr.len() as int) == length_prefixed(v.pub_key@));
    lemma_length_prefixed_split(u.pub_key@, v.pub_key@, Seq::empty(), Seq::empty());
}

} // verus!
