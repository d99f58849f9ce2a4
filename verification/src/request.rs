//! Request frames: their bodies, their encoded size and their encoding, and
//! the requests that the client sends.

use vstd::prelude::*;
use vstd::utf8::encode_utf8;
use crate::codes::{Consistency, OpcodeReq, consistency_of, lemma_consistency_roundtrip};
use crate::error::{Model, Result};
use crate::model::models_of;
use crate::error::Step;
use crate::reader::{sp_long_str, sp_u16};
use crate::wire::{be16, be32, signed32};
use crate::wire::{be16_bytes, be32_bytes, unsigned16, u16_be_bytes, i16_be_bytes, u32_be_bytes};

verus! {

/// The protocol version that requests carry.
pub const CQL_VERSION: u8 = 0x03;

/// The encoding of a key and a value: each a `u16` length and its bytes.
pub open spec fn pair_bytes(k: Seq<u8>, v: Seq<u8>) -> Seq<u8> {
    be16_bytes(k.len() as u16) + k + be16_bytes(v.len() as u16) + v
}

/// The encodings of the pairs one after another.
pub open spec fn pairs_bytes(ps: Seq<(Seq<u8>, Seq<u8>)>) -> Seq<u8>
    decreases ps.len(),
{
    if ps.len() == 0 {
        Seq::empty()
    } else {
        pairs_bytes(ps.drop_last()) + pair_bytes(ps.last().0, ps.last().1)
    }
}

/// The encoded size of the pairs: four bytes of lengths and the bytes of
/// key and value for each.
pub open spec fn pairs_len(ps: Seq<(Seq<u8>, Seq<u8>)>) -> int
    decreases ps.len(),
{
    if ps.len() == 0 {
        0
    } else {
        pairs_len(ps.drop_last()) + 4 + ps.last().0.len() + ps.last().1.len()
    }
}

/// The encoding of a `[string map]`: a `u16` count, then the pairs.
pub open spec fn map_bytes(ps: Seq<(Seq<u8>, Seq<u8>)>) -> Seq<u8> {
    be16_bytes(ps.len() as u16) + pairs_bytes(ps)
}

/// A key and a value of a `[string map]`.
#[derive(Debug)]
struct Pair {
    key: Vec<u8>,
    value: Vec<u8>,
}

impl Model for Pair {
    type M = (Seq<u8>, Seq<u8>);

    closed spec fn model(&self) -> (Seq<u8>, Seq<u8>) {
        (self.key@, self.value@)
    }
}

/// Appends the bytes of `src` to `buf`.
fn append(buf: &mut Vec<u8>, src: &[u8])
    ensures
        final(buf)@ == old(buf)@ + src@,
{
    let mut i: usize = 0;
    while i < src.len()
        invariant
            i <= src@.len(),
            buf@ == old(buf)@ + src@.take(i as int),
        decreases src@.len() - i,
    {
        buf.push(src[i]);
        proof {
            assert(src@.take(i + 1) =~= src@.take(i as int).push(src@[i as int]));
            assert(buf@ =~= old(buf)@ + src@.take(i + 1));
        }
        i = i + 1;
    }
    proof {
        assert(src@.take(src@.len() as int) =~= src@);
    }
}

/// Appends the big-endian bytes of `n` to `buf`.
fn put_u16(buf: &mut Vec<u8>, n: u16)
    ensures
        final(buf)@ == old(buf)@ + be16_bytes(n),
{
    let b = u16_be_bytes(n);
    append(buf, &b);
}

/// Appends the big-endian two's complement bytes of `n` to `buf`.
fn put_i16(buf: &mut Vec<u8>, n: i16)
    ensures
        final(buf)@ == old(buf)@ + be16_bytes(unsigned16(n)),
{
    let b = i16_be_bytes(n);
    append(buf, &b);
}

/// Appends the big-endian bytes of `n` to `buf`.
fn put_u32(buf: &mut Vec<u8>, n: u32)
    ensures
        final(buf)@ == old(buf)@ + be32_bytes(n),
{
    let b = u32_be_bytes(n);
    append(buf, &b);
}

impl Pair {
    /// Encodes the pair; a length beyond `u16` is truncated to its low 16
    /// bits.
    fn serialize(&self, buf: &mut Vec<u8>) -> (r: Result<()>)
        ensures
            r is Ok,
            final(buf)@ == old(buf)@ + pair_bytes(self.key@, self.value@),
    {
        put_u16(buf, #[verifier::truncate] (self.key.len() as u16));
        append(buf, self.key.as_slice());
        put_u16(buf, #[verifier::truncate] (self.value.len() as u16));
        append(buf, self.value.as_slice());
        proof {
            assert(buf@ =~= old(buf)@ + pair_bytes(self.key@, self.value@));
        }
        Ok(())
    }

    /// The encoded size of the pair.
    fn len(&self) -> (n: usize)
        requires
            4 + self.key@.len() + self.value@.len() <= usize::MAX,
        ensures
            n == 4 + self.key@.len() + self.value@.len(),
    {
        4 + self.key.len() + self.value.len()
    }
}

/// A `[string map]`: pairs of a key and a value.
#[derive(Debug)]
pub struct StringMap {
    pairs: Vec<Pair>,
}

impl Model for StringMap {
    type M = Seq<(Seq<u8>, Seq<u8>)>;

    closed spec fn model(&self) -> Seq<(Seq<u8>, Seq<u8>)> {
        models_of(self.pairs@)
    }
}

/// The first `i` pairs' encodings append one by one.
proof fn lemma_pairs_take(ps: Seq<(Seq<u8>, Seq<u8>)>, i: int)
    requires
        0 <= i < ps.len(),
    ensures
        pairs_bytes(ps.take(i + 1)) == pairs_bytes(ps.take(i)) + pair_bytes(ps[i].0, ps[i].1),
        pairs_len(ps.take(i + 1)) == pairs_len(ps.take(i)) + 4 + ps[i].0.len() + ps[i].1.len(),
{
    assert(ps.take(i + 1).drop_last() =~= ps.take(i));
}

/// The encoded size of pairs is never negative.
proof fn lemma_pairs_len_nonneg(ps: Seq<(Seq<u8>, Seq<u8>)>)
    ensures
        pairs_len(ps) >= 0,
    decreases ps.len(),
{
    if ps.len() > 0 {
        lemma_pairs_len_nonneg(ps.drop_last());
    }
}

impl StringMap {
    /// Encodes the map: a `u16` count, then each pair. A count or a length
    /// beyond `u16` is truncated to its low 16 bits.
    pub fn serialize(&self, buf: &mut Vec<u8>) -> (r: Result<()>)
        ensures
            r is Ok,
            final(buf)@ == old(buf)@ + map_bytes(self.model()),
    {
        let ghost ps = self.model();
        put_u16(buf, #[verifier::truncate] (self.pairs.len() as u16));
        let ghost start = buf@;
        let mut i: usize = 0;
        proof {
            assert(ps.take(0) =~= Seq::<(Seq<u8>, Seq<u8>)>::empty());
        }
        while i < self.pairs.len()
            invariant
                i <= self.pairs@.len(),
                ps == models_of(self.pairs@),
                buf@ == start + pairs_bytes(ps.take(i as int)),
            decreases self.pairs@.len() - i,
        {
            let _ = self.pairs[i].serialize(buf);
            proof {
                lemma_pairs_take(ps, i as int);
            }
            i = i + 1;
        }
        proof {
            assert(ps.take(ps.len() as int) =~= ps);
        }
        Ok(())
    }

    /// The encoded size of the map.
    pub fn len(&self) -> (n: usize)
        requires
            2 + pairs_len(self.model()) <= usize::MAX,
        ensures
            n == 2 + pairs_len(self.model()),
    {
        let ghost ps = self.model();
        let mut len: usize = 2;
        let mut i: usize = 0;
        proof {
            assert(ps.take(0) =~= Seq::<(Seq<u8>, Seq<u8>)>::empty());
        }
        while i < self.pairs.len()
            invariant
                i <= self.pairs@.len(),
                ps == models_of(self.pairs@),
                2 + pairs_len(ps) <= usize::MAX,
                len == 2 + pairs_len(ps.take(i as int)),
            decreases self.pairs@.len() - i,
        {
            proof {
                lemma_pairs_take(ps, i as int);
                lemma_pairs_bound(ps, i + 1);
            }
            len = len + self.pairs[i].len();
            i = i + 1;
        }
        proof {
            assert(ps.take(ps.len() as int) =~= ps);
        }
        len
    }
}

/// The encoded size of a prefix of the pairs is at most that of all of them.
proof fn lemma_pairs_bound(ps: Seq<(Seq<u8>, Seq<u8>)>, i: int)
    requires
        0 <= i <= ps.len(),
    ensures
        0 <= pairs_len(ps.take(i)) <= pairs_len(ps),
    decreases ps.len(),
{
    lemma_pairs_len_nonneg(ps.take(i));
    if i < ps.len() {
        assert(ps.drop_last().take(i) =~= ps.take(i));
        lemma_pairs_bound(ps.drop_last(), i);
    } else {
        assert(ps.take(i) =~= ps);
    }
}

/// The body of a request.
#[derive(Debug)]
pub enum RequestBody {
    RequestStartup(StringMap),
    RequestCred(Vec<Vec<u8>>),
    RequestQuery(String, Consistency),
    RequestOptions,
}

/// The value of a request body.
pub enum RequestBodyV {
    Startup(Seq<(Seq<u8>, Seq<u8>)>),
    Cred(Seq<Seq<u8>>),
    Query(Seq<char>, Consistency),
    Options,
}

impl Model for RequestBody {
    type M = RequestBodyV;

    open spec fn model(&self) -> RequestBodyV {
        match self {
            RequestBody::RequestStartup(m) => RequestBodyV::Startup(m.model()),
            RequestBody::RequestCred(c) => RequestBodyV::Cred(Seq::new(c@.len(), |i: int| c@[i]@)),
            RequestBody::RequestQuery(q, c) => RequestBodyV::Query(q@, *c),
            RequestBody::RequestOptions => RequestBodyV::Options,
        }
    }
}

/// The value of a request: header fields and body.
pub struct RequestV {
    pub version: u8,
    pub flags: u8,
    pub stream: i16,
    pub opcode: OpcodeReq,
    pub body: RequestBodyV,
}

/// Whether a request body can be encoded: the encoder handles `STARTUP` and
/// `QUERY` bodies only.
pub open spec fn encodable(b: RequestBodyV) -> bool {
    b is Startup || b is Query
}

/// The encoded size of a body that can be encoded.
pub open spec fn body_len(b: RequestBodyV) -> int {
    match b {
        RequestBodyV::Startup(ps) => 2 + pairs_len(ps),
        RequestBodyV::Query(q, _) => 4 + encode_utf8(q).len() as int + 3,
        _ => 0,
    }
}

/// The encoding of a body that can be encoded: a `[string map]`, or a query
/// as a `[long string]` (its UTF-8 bytes after their `u32` length),
/// the consistency code as a `u16`, and a zero flags byte.
pub open spec fn body_bytes(b: RequestBodyV) -> Seq<u8> {
    match b {
        RequestBodyV::Startup(ps) => map_bytes(ps),
        RequestBodyV::Query(q, c) => be32_bytes(encode_utf8(q).len() as u32) + encode_utf8(q) + be16_bytes(
            c.spec_code(),
        ) + seq![0u8],
        _ => Seq::empty(),
    }
}

/// The encoded size of a request: the nine-byte header and the body.
pub open spec fn request_len(r: RequestV) -> int {
    9 + body_len(r.body)
}

/// The encoding of a request: version, flags, big-endian `i16` stream,
/// opcode, the body length as a big-endian `u32`, then the body.
pub open spec fn request_bytes(r: RequestV) -> Seq<u8> {
    seq![r.version, r.flags] + be16_bytes(unsigned16(r.stream)) + seq![r.opcode.spec_code()] + be32_bytes(
        (request_len(r) - 9) as u32,
    ) + body_bytes(r.body)
}

/// A request frame.
#[derive(Debug)]
pub struct Request {
    version: u8,
    flags: u8,
    stream: i16,
    opcode: OpcodeReq,
    body: RequestBody,
}

impl Model for Request {
    type M = RequestV;

    closed spec fn model(&self) -> RequestV {
        RequestV {
            version: self.version,
            flags: self.flags,
            stream: self.stream,
            opcode: self.opcode,
            body: self.body.model(),
        }
    }
}

/// Encodes a body that the encoder handles.
fn serialize_body(body: &RequestBody, buf: &mut Vec<u8>)
    requires
        encodable(body.model()),
    ensures
        final(buf)@ == old(buf)@ + body_bytes(body.model()),
{
    match body {
        RequestBody::RequestStartup(map) => {
            let _ = map.serialize(buf);
        },
        RequestBody::RequestQuery(query_str, consistency) => {
            let bytes = query_str.as_str().as_bytes();
            put_u32(buf, #[verifier::truncate] (bytes.len() as u32));
            append(buf, bytes);
            put_u16(buf, consistency.code());
            buf.push(0);
            proof {
                assert(buf@ =~= old(buf)@ + body_bytes(body.model()));
            }
        },
        _ => {
            assert(false);
        },
    }
}

impl Request {
    /// Encodes the request; the request must have a body that the encoder
    /// handles and a size that fits in memory.
    pub fn serialize(&self, buf: &mut Vec<u8>) -> (r: Result<()>)
        requires
            encodable(self.model().body),
            request_len(self.model()) <= usize::MAX,
        ensures
            r is Ok,
            final(buf)@ == old(buf)@ + request_bytes(self.model()),
    {
        buf.push(self.version);
        buf.push(self.flags);
        put_i16(buf, self.stream);
        buf.push(self.opcode.code());
        let len = self.len();
        proof {
            if let RequestBodyV::Startup(ps) = self.model().body {
                lemma_pairs_len_nonneg(ps);
            }
        }
        put_u32(buf, #[verifier::truncate] ((len - 9) as u32));
        serialize_body(&self.body, buf);
        proof {
            assert(buf@ =~= old(buf)@ + request_bytes(self.model()));
        }
        Ok(())
    }

    /// The encoded size of the request.
    pub fn len(&self) -> (n: usize)
        requires
            encodable(self.model().body),
            request_len(self.model()) <= usize::MAX,
        ensures
            n == request_len(self.model()),
    {
        9 + match &self.body {
            RequestBody::RequestStartup(map) => map.len(),
            RequestBody::RequestQuery(query_str, _) => 4 + query_str.as_str().len() + 3,
            _ => {
                assert(false);
                0
            },
        }
    }
}

/// The `STARTUP` request on stream 1, which asks for CQL version 3.0.0.
pub fn startup() -> (r: Request)
    ensures
        r.model() == (RequestV {
            version: CQL_VERSION,
            flags: 0,
            stream: 1,
            opcode: OpcodeReq::Startup,
            body: RequestBodyV::Startup(
                seq![(seq![67u8, 81, 76, 95, 86, 69, 82, 83, 73, 79, 78], seq![51u8, 46, 48, 46, 48])],
            ),
        }),
{
    // "CQL_VERSION" and "3.0.0" in ASCII.
    let key: Vec<u8> = vec![67, 81, 76, 95, 86, 69, 82, 83, 73, 79, 78];
    let value: Vec<u8> = vec![51, 46, 48, 46, 48];
    let body = StringMap { pairs: vec![Pair { key, value }] };
    proof {
        assert(body.model() =~= seq![(seq![67u8, 81, 76, 95, 86, 69, 82, 83, 73, 79, 78], seq![51u8, 46, 48, 46, 48])]);
    }
    Request {
        version: CQL_VERSION,
        flags: 0x00,
        stream: 0x01,
        opcode: OpcodeReq::Startup,
        body: RequestBody::RequestStartup(body),
    }
}

/// The `CREDENTIALS` request on stream 1 with the given credentials.
pub fn auth(creds: Vec<Vec<u8>>) -> (r: Request)
    ensures
        r.model() == (RequestV {
            version: CQL_VERSION,
            flags: 0,
            stream: 1,
            opcode: OpcodeReq::Cred,
            body: RequestBodyV::Cred(Seq::new(creds@.len(), |i: int| creds@[i]@)),
        }),
{
    Request {
        version: CQL_VERSION,
        flags: 0x00,
        stream: 0x01,
        opcode: OpcodeReq::Cred,
        body: RequestBody::RequestCred(creds),
    }
}

/// The `OPTIONS` request on stream 1.
pub fn options() -> (r: Request)
    ensures
        r.model() == (RequestV {
            version: CQL_VERSION,
            flags: 0,
            stream: 1,
            opcode: OpcodeReq::Opts,
            body: RequestBodyV::Options,
        }),
{
    Request {
        version: CQL_VERSION,
        flags: 0x00,
        stream: 0x01,
        opcode: OpcodeReq::Opts,
        body: RequestBody::RequestOptions,
    }
}

/// The `QUERY` request on `stream` for `query_str` at consistency `con`.
pub fn query(stream: i16, query_str: &str, con: Consistency) -> (r: Request)
    ensures
        r.model() == (RequestV {
            version: CQL_VERSION,
            flags: 0,
            stream,
            opcode: OpcodeReq::Query,
            body: RequestBodyV::Query(query_str@, con),
        }),
{
    Request {
        version: CQL_VERSION,
        flags: 0x00,
        stream: stream,
        opcode: OpcodeReq::Query,
        body: RequestBody::RequestQuery(query_str.to_owned(), con),
    }
}

/// The encoding of pairs is as long as their encoded size says.
proof fn lemma_pairs_bytes_len(ps: Seq<(Seq<u8>, Seq<u8>)>)
    ensures
        pairs_bytes(ps).len() == pairs_len(ps),
    decreases ps.len(),
{
    if ps.len() > 0 {
        lemma_pairs_bytes_len(ps.drop_last());
    }
}

/// The size that `len` gives a request is the length of the bytes that
/// `serialize` writes for it, and the length field of the header is that size
/// less the nine bytes of the header (when it fits in 32 bits).
pub proof fn lemma_request_len(r: RequestV)
    requires
        encodable(r.body),
    ensures
        request_bytes(r).len() == request_len(r),
        request_len(r) - 9 <= u32::MAX ==> request_bytes(r).subrange(5, 9) == be32_bytes(
            (request_len(r) - 9) as u32,
        ),
{
    if let RequestBodyV::Startup(ps) = r.body {
        lemma_pairs_bytes_len(ps);
    }
    let b = request_bytes(r);
    assert(b.subrange(5, 9) =~= be32_bytes((request_len(r) - 9) as u32));
}

/// The big-endian bytes of a `u32` read back as that `u32`.
proof fn lemma_be32_bytes(n: u32)
    ensures
        be32_bytes(n).len() == 4,
        be32(be32_bytes(n)[0], be32_bytes(n)[1], be32_bytes(n)[2], be32_bytes(n)[3]) == n,
{
    let b = be32_bytes(n);
    assert(b[0] as int * 0x1000000 + b[1] as int * 0x10000 + b[2] as int * 0x100 + b[3] as int == n) by {
        assert(b[0] == (n / 0x1000000) as u8);
        assert(b[1] == ((n / 0x10000) % 0x100) as u8);
        assert(b[2] == ((n / 0x100) % 0x100) as u8);
        assert(b[3] == (n % 0x100) as u8);
        assert((n / 0x1000000) as u8 as int * 0x1000000 + ((n / 0x10000) % 0x100) as u8 as int * 0x10000
            + ((n / 0x100) % 0x100) as u8 as int * 0x100 + (n % 0x100) as u8 as int == n) by (bit_vector);
    }
}

/// The big-endian bytes of a `u16` read back as that `u16`.
proof fn lemma_be16_bytes(n: u16)
    ensures
        be16_bytes(n).len() == 2,
        be16(be16_bytes(n)[0], be16_bytes(n)[1]) == n,
{
    let b = be16_bytes(n);
    assert(b[0] as int * 0x100 + b[1] as int == n) by {
        assert(b[0] == (n / 0x100) as u8);
        assert(b[1] == (n % 0x100) as u8);
        assert((n / 0x100) as u8 as int * 0x100 + (n % 0x100) as u8 as int == n) by (bit_vector);
    }
}

/// The body that `serialize` writes for a `QUERY` request holds the query's
/// length as a `[long string]` length, the query's UTF-8 bytes, the
/// consistency code and a zero flags byte, and the protocol's readers read
/// the query text and the consistency level back from it.
pub proof fn lemma_query_body_reads_back(r: RequestV, q: Seq<char>, c: Consistency)
    requires
        r.body == RequestBodyV::Query(q, c),
        encode_utf8(q).len() <= 0x7fff_ffff,
    ensures
        ({
            let bytes = request_bytes(r);
            let body = bytes.subrange(9, bytes.len() as int);
            let n = encode_utf8(q).len() as int;
            &&& body == body_bytes(r.body)
            &&& body.len() == n + 7
            &&& body.subrange(4, 4 + n) == encode_utf8(q)
            &&& sp_long_str(body, 0) == Step::Done(Some(q), 4 + n)
            &&& sp_u16(body, 4 + n) matches Step::Done(code, _) && consistency_of(code) == c
            &&& body[6 + n] == 0
        }),
{
    let bytes = request_bytes(r);
    let body = bytes.subrange(9, bytes.len() as int);
    let e = encode_utf8(q);
    let n = e.len() as int;
    lemma_be32_bytes(n as u32);
    lemma_be16_bytes(c.spec_code());
    lemma_consistency_roundtrip(c, c.spec_code());
    assert(body =~= body_bytes(r.body));
    assert(body.subrange(4, 4 + n) =~= e);
    vstd::utf8::encode_utf8_valid_utf8(q);
    vstd::utf8::encode_utf8_decode_utf8(q);
    let b = be32_bytes(n as u32);
    assert(body[0] == b[0] && body[1] == b[1] && body[2] == b[2] && body[3] == b[3]);
    assert(signed32(be32(body[0], body[1], body[2], body[3])) == n);
    assert(body[4 + n] == be16_bytes(c.spec_code())[0]);
    assert(body[5 + n] == be16_bytes(c.spec_code())[1]);
    if c == Consistency::Unknown {
        assert(consistency_of(c.spec_code()) == c);
    }
}

} // verus!
