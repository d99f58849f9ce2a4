//! The decoded objects of a response — column metadata, result metadata,
//! rows and response bodies — with their mathematical values, and the
//! decoding model of each: what a read of it gives on given bytes.

use vstd::prelude::*;
use crate::codes::{ColumnType, OpcodeResp, column_type_of, opcode_of};
use crate::error::{Fault, Model, Step};
use crate::reader::{sp_bytes, sp_i32, sp_i64, sp_long_str, sp_str, sp_u16, sp_u32, sp_u64, sp_u8};
use crate::value::{Cql, CqlV};
use crate::wire::{be16, be32, signed16};

verus! {

/// The values of a sequence of objects, in order.
pub open spec fn models_of<X: Model>(s: Seq<X>) -> Seq<X::M> {
    Seq::new(s.len(), |i: int| s[i].model())
}

/// Appending an object appends its value.
pub proof fn lemma_models_of_push<X: Model>(s: Seq<X>, x: X)
    ensures
        models_of(s.push(x)) == models_of(s).push(x.model()),
{
    assert(models_of(s.push(x)) =~= models_of(s).push(x.model()));
}

impl Model for Cql {
    type M = CqlV;

    open spec fn model(&self) -> CqlV {
        self.value()
    }
}

/// Reading `n` items one after another from `p`; `f(i, q)` reads the item
/// with index `i` at position `q`. The first failure or fault ends it.
pub open spec fn sp_iter<T>(f: spec_fn(int, int) -> Step<T>, p: int, n: nat) -> Step<Seq<T>>
    decreases n,
{
    if n == 0 {
        Step::Done(Seq::empty(), p)
    } else {
        match sp_iter(f, p, (n - 1) as nat) {
            Step::Done(vs, q) => match f(n - 1, q) {
                Step::Done(v, q2) => Step::Done(vs.push(v), q2),
                other => other.cast(),
            },
            other => other.cast(),
        }
    }
}

/// Once the first `i + 1` items do not all read, no longer run does, and it
/// fails in the same way.
pub proof fn lemma_iter_stops<T>(f: spec_fn(int, int) -> Step<T>, p: int, i: nat, n: nat)
    requires
        i + 1 <= n,
        !(sp_iter(f, p, i + 1) is Done),
    ensures
        sp_iter(f, p, n) == sp_iter(f, p, i + 1),
    decreases n,
{
    if n > i + 1 {
        lemma_iter_stops(f, p, i, (n - 1) as nat);
    }
}

/// A run of `n` items that reads has `n` items.
pub proof fn lemma_iter_len<T>(f: spec_fn(int, int) -> Step<T>, p: int, n: nat)
    ensures
        sp_iter(f, p, n) matches Step::Done(vs, _) ==> vs.len() == n,
    decreases n,
{
    if n > 0 {
        lemma_iter_len(f, p, (n - 1) as nat);
    }
}

/// The value of the metadata of one column.
pub struct ColMetaV {
    pub keyspace: Option<Seq<char>>,
    pub table: Option<Seq<char>>,
    pub col_name: Seq<char>,
    pub col_type: ColumnType,
    pub col_type_name: ColumnType,
}

/// The value of the metadata of a result.
pub struct MetadataV {
    pub flags: u32,
    pub column_count: u32,
    pub keyspace: Option<Seq<char>>,
    pub table: Option<Seq<char>>,
    pub row_metadata: Seq<ColMetaV>,
}

/// The value of a row: a value for each column, and the result's metadata.
pub struct RowV {
    pub cols: Seq<CqlV>,
    pub metadata: MetadataV,
}

/// The value of the rows of a result.
pub struct RowsV {
    pub metadata: MetadataV,
    pub rows: Seq<RowV>,
}

/// The value of the body of a response.
pub enum BodyV {
    Error(u32, Seq<char>),
    Ready,
    Auth(Seq<char>),
    Void,
    Rows(RowsV),
    Keyspace(Seq<char>),
    Prepared(u8, MetadataV),
    SchemaChange(Seq<char>, Seq<char>, Seq<char>),
}

/// The value of a response: the header's version, flags, stream and opcode,
/// and the body.
pub struct ResponseV {
    pub version: u8,
    pub flags: u8,
    pub stream: i16,
    pub opcode: OpcodeResp,
    pub body: BodyV,
}

/// Reading two `[string]`s one after the other.
pub open spec fn sp_str_pair(s: Seq<u8>, p: int) -> Step<(Seq<char>, Seq<char>)> {
    match sp_str(s, p) {
        Step::Done(a, p1) => match sp_str(s, p1) {
            Step::Done(b, p2) => Step::Done((a, b), p2),
            other => other.cast(),
        },
        other => other.cast(),
    }
}

/// Reading a keyspace and a table name when `present`: two `[string]`s;
/// none otherwise.
pub open spec fn sp_opt_names(s: Seq<u8>, p: int, present: bool) -> Step<(Option<Seq<char>>, Option<Seq<char>>)> {
    if present {
        match sp_str_pair(s, p) {
            Step::Done((a, b), p1) => Step::Done((Some(a), Some(b)), p1),
            other => other.cast(),
        }
    } else {
        Step::Done((None, None), p)
    }
}

/// Reading the type of a column: a `u16` code, then, for the collection
/// codes (`0x20` and above), a second code that names the element type.
pub open spec fn sp_col_type(s: Seq<u8>, p: int) -> Step<(ColumnType, ColumnType)> {
    match sp_u16(s, p) {
        Step::Done(key, p1) => if key >= 0x20 {
            match sp_u16(s, p1) {
                Step::Done(k2, p2) => Step::Done((column_type_of(key), column_type_of(k2)), p2),
                other => other.cast(),
            }
        } else {
            Step::Done((column_type_of(key), ColumnType::Unknown), p1)
        },
        other => other.cast(),
    }
}

/// Reading the metadata of one column: its keyspace and table unless the
/// result has them globally, its name, and its type.
pub open spec fn sp_col_meta(s: Seq<u8>, p: int, global: bool) -> Step<ColMetaV> {
    match sp_opt_names(s, p, !global) {
        Step::Done((ks, tb), p1) => match sp_str(s, p1) {
            Step::Done(name, p2) => match sp_col_type(s, p2) {
                Step::Done((t, tn), p3) => Step::Done(
                    ColMetaV { keyspace: ks, table: tb, col_name: name, col_type: t, col_type_name: tn },
                    p3,
                ),
                other => other.cast(),
            },
            other => other.cast(),
        },
        other => other.cast(),
    }
}

/// The reader of the metadata of the columns, one after another.
pub open spec fn col_meta_reader(s: Seq<u8>, global: bool) -> spec_fn(int, int) -> Step<ColMetaV> {
    |i: int, q: int| sp_col_meta(s, q, global)
}

/// Reading the metadata of a result: a `u32` flags word and a `u32` column
/// count; the keyspace and table when the flags are exactly 1 (global table
/// spec); then the metadata of each column.
pub open spec fn sp_metadata(s: Seq<u8>, p: int) -> Step<MetadataV> {
    match sp_u32(s, p) {
        Step::Done(flags, p1) => match sp_u32(s, p1) {
            Step::Done(count, p2) => match sp_opt_names(s, p2, flags == 1) {
                Step::Done((ks, tb), p3) => match sp_iter(col_meta_reader(s, flags == 1), p3, count as nat) {
                    Step::Done(cols, p4) => Step::Done(
                        MetadataV { flags, column_count: count, keyspace: ks, table: tb, row_metadata: cols },
                        p4,
                    ),
                    other => other.cast(),
                },
                other => other.cast(),
            },
            other => other.cast(),
        },
        other => other.cast(),
    }
}

/// Reading a value whose length prefix must be -1 (null) or 4; `present`
/// reads the value after a length of 4, and any other length is the fault
/// `bad(len)`.
pub open spec fn sp_nullable<T>(
    s: Seq<u8>,
    p: int,
    present: spec_fn(int) -> Step<T>,
    bad: spec_fn(i32) -> Fault,
) -> Step<Option<T>> {
    match sp_i32(s, p) {
        Step::Done(n, p1) => if n == -1 {
            Step::Done(None, p1)
        } else if n == 4 {
            match present(p1) {
                Step::Done(v, p2) => Step::Done(Some(v), p2),
                other => other.cast(),
            }
        } else {
            Step::Fault(bad(n))
        },
        other => other.cast(),
    }
}

/// Reading the value of a column of type `t`:
/// - text types (`ascii`, `varchar`, `text`): a `[long string]`;
/// - `int`: a length of -1 (null) or 4, then a big-endian `i32`;
/// - `bigint`: a big-endian `i64`, with no length before it;
/// - `float`: a length of -1 or 4, then the 32-bit pattern;
/// - `double`: a length of -1 or 4, then the 64-bit pattern (eight bytes);
/// - `list`: a length, which must be -1 (null);
/// - any other type: a length, -1 or the length of bytes that are skipped.
pub open spec fn sp_value(s: Seq<u8>, p: int, t: ColumnType) -> Step<CqlV> {
    match t {
        ColumnType::Ascii | ColumnType::VarChar | ColumnType::Text => match sp_long_str(s, p) {
            Step::Done(v, p1) => Step::Done(CqlV::Str(v), p1),
            other => other.cast(),
        },
        ColumnType::Int => match sp_nullable(s, p, |q: int| sp_i32(s, q), |n: i32| Fault::InvalidIntLength(n)) {
            Step::Done(v, p1) => Step::Done(CqlV::I32(v), p1),
            other => other.cast(),
        },
        ColumnType::Bigint => match sp_i64(s, p) {
            Step::Done(v, p1) => Step::Done(CqlV::I64(Some(v)), p1),
            other => other.cast(),
        },
        ColumnType::Float => match sp_nullable(s, p, |q: int| sp_u32(s, q), |n: i32| Fault::InvalidFloatLength(n)) {
            Step::Done(v, p1) => Step::Done(CqlV::F32(v), p1),
            other => other.cast(),
        },
        ColumnType::Double => match sp_nullable(s, p, |q: int| sp_u64(s, q), |n: i32| Fault::InvalidDoubleLength(n)) {
            Step::Done(v, p1) => Step::Done(CqlV::F64(v), p1),
            other => other.cast(),
        },
        ColumnType::List => match sp_i32(s, p) {
            Step::Done(n, p1) => if n == -1 {
                Step::Done(CqlV::List(None), p1)
            } else {
                Step::Fault(Fault::ListNotImplemented)
            },
            other => other.cast(),
        },
        _ => match sp_i32(s, p) {
            Step::Done(n, p1) => if n == -1 {
                Step::Done(CqlV::Unknown, p1)
            } else if n < 0 {
                Step::Fault(Fault::CapacityOverflow)
            } else {
                match sp_bytes(s, p1, n as int) {
                    Step::Done(_, p2) => Step::Done(CqlV::Unknown, p2),
                    other => other.cast(),
                }
            },
            other => other.cast(),
        },
    }
}

/// The reader of the values of a row, one per column of `metas`.
pub open spec fn value_reader(s: Seq<u8>, metas: Seq<ColMetaV>) -> spec_fn(int, int) -> Step<CqlV> {
    |i: int, q: int| sp_value(s, q, metas[i].col_type)
}

/// Reading one row: a value for each column of the metadata, in order.
pub open spec fn sp_row(s: Seq<u8>, p: int, md: MetadataV) -> Step<RowV> {
    match sp_iter(value_reader(s, md.row_metadata), p, md.row_metadata.len()) {
        Step::Done(cols, p1) => Step::Done(RowV { cols, metadata: md }, p1),
        other => other.cast(),
    }
}

/// The reader of rows, one after another.
pub open spec fn row_reader(s: Seq<u8>, md: MetadataV) -> spec_fn(int, int) -> Step<RowV> {
    |i: int, q: int| sp_row(s, q, md)
}

/// Reading the rows of a result: its metadata, a `u32` row count, then the
/// rows.
pub open spec fn sp_rows(s: Seq<u8>, p: int) -> Step<RowsV> {
    match sp_metadata(s, p) {
        Step::Done(md, p1) => match sp_u32(s, p1) {
            Step::Done(count, p2) => match sp_iter(row_reader(s, md), p2, count as nat) {
                Step::Done(rows, p3) => Step::Done(RowsV { metadata: md, rows }, p3),
                other => other.cast(),
            },
            other => other.cast(),
        },
        other => other.cast(),
    }
}

/// Reading the body of an `ERROR` response: a `u32` code and a message; the
/// code `0x2400` (already exists) is followed by a keyspace and a table,
/// which are read and dropped.
pub open spec fn sp_error_body(b: Seq<u8>) -> Step<BodyV> {
    match sp_u32(b, 0) {
        Step::Done(code, p1) => match sp_str(b, p1) {
            Step::Done(msg, p2) => if code == 0x2400 {
                match sp_str_pair(b, p2) {
                    Step::Done(_, p3) => Step::Done(BodyV::Error(code, msg), p3),
                    other => other.cast(),
                }
            } else {
                Step::Done(BodyV::Error(code, msg), p2)
            },
            other => other.cast(),
        },
        other => other.cast(),
    }
}

/// Reading the body of a `RESULT` response: a `u32` kind, then
/// 1 nothing (void), 2 rows, 3 a keyspace name, 4 a `u8` id and metadata
/// (prepared), 5 three strings (schema change). Other kinds are a fault.
pub open spec fn sp_result_body(b: Seq<u8>) -> Step<BodyV> {
    match sp_u32(b, 0) {
        Step::Done(code, p1) => if code == 1 {
            Step::Done(BodyV::Void, p1)
        } else if code == 2 {
            match sp_rows(b, p1) {
                Step::Done(rows, p2) => Step::Done(BodyV::Rows(rows), p2),
                other => other.cast(),
            }
        } else if code == 3 {
            match sp_str(b, p1) {
                Step::Done(ks, p2) => Step::Done(BodyV::Keyspace(ks), p2),
                other => other.cast(),
            }
        } else if code == 4 {
            match sp_u8(b, p1) {
                Step::Done(id, p2) => match sp_metadata(b, p2) {
                    Step::Done(md, p3) => Step::Done(BodyV::Prepared(id, md), p3),
                    other => other.cast(),
                },
                other => other.cast(),
            }
        } else if code == 5 {
            match sp_str_pair(b, p1) {
                Step::Done((change, ks), p2) => match sp_str(b, p2) {
                    Step::Done(table, p3) => Step::Done(BodyV::SchemaChange(change, ks, table), p3),
                    other => other.cast(),
                },
                other => other.cast(),
            }
        } else {
            Step::Fault(Fault::UnknownResultCode(code))
        },
        other => other.cast(),
    }
}

/// Reading a response body of opcode `op` from the start of `b`.
pub open spec fn sp_body(b: Seq<u8>, op: OpcodeResp) -> Step<BodyV> {
    match op {
        OpcodeResp::Ready => Step::Done(BodyV::Ready, 0),
        OpcodeResp::Auth => match sp_str(b, 0) {
            Step::Done(a, p1) => Step::Done(BodyV::Auth(a), p1),
            other => other.cast(),
        },
        OpcodeResp::Error => sp_error_body(b),
        OpcodeResp::Result => sp_result_body(b),
        _ => Step::Fault(Fault::InvalidResponse),
    }
}

/// The body length that a nine-byte frame header announces.
pub open spec fn header_length(h: Seq<u8>) -> u32 {
    be32(h[5], h[6], h[7], h[8])
}

/// Reading a response frame at `p`: a nine-byte header (version, flags,
/// big-endian `i16` stream, opcode, big-endian `u32` body length), then the
/// body, which is decoded on its own. The position after it is the end of
/// the body, whatever the decoding of the body used of it, also when the
/// body fails to decode; a frame cut short leaves the reader at the end of
/// the input.
pub open spec fn sp_response(s: Seq<u8>, p: int) -> Step<ResponseV> {
    match sp_bytes(s, p, 9) {
        Step::Done(h, p1) => match sp_bytes(s, p1, header_length(h) as int) {
            Step::Done(b, p2) => match sp_body(b, opcode_of(h[4])) {
                Step::Done(body, _) => Step::Done(
                    ResponseV {
                        version: h[0],
                        flags: h[1],
                        stream: signed16(be16(h[2], h[3])),
                        opcode: opcode_of(h[4]),
                        body,
                    },
                    p2,
                ),
                Step::Fail(k, _) => Step::Fail(k, p2),
                Step::Fault(f) => Step::Fault(f),
            },
            other => other.cast(),
        },
        other => other.cast(),
    }
}

/// The index of the first column named `name`, if any.
pub open spec fn column_position(metas: Seq<ColMetaV>, name: Seq<char>) -> Option<int>
    decreases metas.len(),
{
    if metas.len() == 0 {
        None
    } else {
        match column_position(metas.drop_last(), name) {
            Some(i) => Some(i),
            None => if metas.last().col_name == name {
                Some(metas.len() - 1)
            } else {
                None
            },
        }
    }
}

/// The position found is that of the first column with the name, and none is
/// found exactly when no column has it.
pub proof fn lemma_column_position(metas: Seq<ColMetaV>, name: Seq<char>)
    ensures
        column_position(metas, name) matches Some(i) ==> {
            &&& 0 <= i < metas.len()
            &&& metas[i].col_name == name
            &&& forall|j: int| 0 <= j < i ==> metas[j].col_name != name
        },
        column_position(metas, name) is None ==> forall|j: int|
            0 <= j < metas.len() ==> metas[j].col_name != name,
    decreases metas.len(),
{
    if metas.len() > 0 {
        lemma_column_position(metas.drop_last(), name);
        assert forall|j: int| 0 <= j < metas.len() - 1 implies metas.drop_last()[j] == metas[j] by {}
    }
}

/// A response frame is read from its own bytes alone: when a frame reads at
/// `p`, it reads the same from any input that extends those bytes, and it
/// ends nine bytes past its header's body length.
pub proof fn lemma_response_frame(s: Seq<u8>, t: Seq<u8>, p: int)
    requires
        0 <= p,
        sp_response(s, p) is Done,
    ensures
        sp_response(s + t, p) == sp_response(s, p),
        sp_response(s, p) matches Step::Done(_, q) ==> q == p + 9 + header_length(s.subrange(p, p + 9)),
{
    let h = s.subrange(p, p + 9);
    assert((s + t).subrange(p, p + 9) =~= h);
    let n = header_length(h) as int;
    assert((s + t).subrange(p + 9, p + 9 + n) =~= s.subrange(p + 9, p + 9 + n));
}

/// Decoded metadata describes as many columns as its column count, and
/// every decoded row has a value for each of them.
pub proof fn lemma_rows_shape(s: Seq<u8>, p: int)
    ensures
        sp_metadata(s, p) matches Step::Done(md, _) ==> md.row_metadata.len() == md.column_count,
        sp_rows(s, p) matches Step::Done(rv, _) ==> {
            &&& rv.metadata.row_metadata.len() == rv.metadata.column_count
            &&& forall|i: int| 0 <= i < rv.rows.len() ==> {
                &&& (#[trigger] rv.rows[i]).cols.len() == rv.metadata.row_metadata.len()
                &&& rv.rows[i].metadata == rv.metadata
            }
        },
{
    if let Step::Done(md, p1) = sp_metadata(s, p) {
        if let Step::Done(flags, q1) = sp_u32(s, p) {
            if let Step::Done(count, q2) = sp_u32(s, q1) {
                if let Step::Done(_, q3) = sp_opt_names(s, q2, flags == 1) {
                    lemma_iter_len(col_meta_reader(s, flags == 1), q3, count as nat);
                }
            }
        }
        if let Step::Done(count, p2) = sp_u32(s, p1) {
            lemma_rows_each(s, md, p2, count as nat);
        }
    }
}

/// Every row of a run of rows that reads has a value for each column.
proof fn lemma_rows_each(s: Seq<u8>, md: MetadataV, p: int, n: nat)
    ensures
        sp_iter(row_reader(s, md), p, n) matches Step::Done(rows, _) ==> forall|i: int|
            0 <= i < rows.len() ==> {
                &&& (#[trigger] rows[i]).cols.len() == md.row_metadata.len()
                &&& rows[i].metadata == md
            },
    decreases n,
{
    if n > 0 {
        lemma_rows_each(s, md, p, (n - 1) as nat);
        if let Step::Done(vs, q) = sp_iter(row_reader(s, md), p, (n - 1) as nat) {
            lemma_iter_len(value_reader(s, md.row_metadata), q, md.row_metadata.len());
        }
    }
}

/// A `RESULT` body of kind 5 whose three `[string]`s read as `change`,
/// `keyspace` and `table`, in that order, decodes to a schema change with
/// those fields in that order.
pub proof fn lemma_schema_change_fields(
    b: Seq<u8>,
    change: Seq<char>,
    keyspace: Seq<char>,
    table: Seq<char>,
    p1: int,
    p2: int,
    p3: int,
)
    requires
        sp_u32(b, 0) == Step::Done(5u32, 4),
        sp_str(b, 4) == Step::Done(change, p1),
        sp_str(b, p1) == Step::Done(keyspace, p2),
        sp_str(b, p2) == Step::Done(table, p3),
    ensures
        sp_body(b, OpcodeResp::Result) == Step::Done(BodyV::SchemaChange(change, keyspace, table), p3),
{
}

/// A `RESULT` body of kind 3 decodes to the keyspace its `[string]` reads
/// as; one of kind 1 decodes to `Void`.
pub proof fn lemma_result_kinds(b: Seq<u8>, ks: Seq<char>, p1: int)
    ensures
        sp_u32(b, 0) == Step::Done(1u32, 4) ==> sp_body(b, OpcodeResp::Result) == Step::Done(BodyV::Void, 4),
        sp_u32(b, 0) == Step::Done(3u32, 4) && sp_str(b, 4) == Step::Done(ks, p1) ==> sp_body(
            b,
            OpcodeResp::Result,
        ) == Step::Done(BodyV::Keyspace(ks), p1),
{
}

/// An `ERROR` body whose code reads as `code` and whose message `[string]`
/// reads as `msg` decodes to that code and message (the code 0x2400 is
/// followed by two more strings, which are read past).
pub proof fn lemma_error_fields(b: Seq<u8>, code: u32, msg: Seq<char>, p1: int)
    requires
        sp_u32(b, 0) == Step::Done(code, 4),
        sp_str(b, 4) == Step::Done(msg, p1),
        code != 0x2400,
    ensures
        sp_body(b, OpcodeResp::Error) == Step::Done(BodyV::Error(code, msg), p1),
{
}

/// The type of a column: a code `k` below 0x20 is the type `k` names, with
/// no element type; a code `k` of 0x20 or more is followed by a second code
/// `k2`, and the element type is the type that `k2` names.
pub proof fn lemma_col_type_element(s: Seq<u8>, p: int, k: u16, k2: u16, p1: int, p2: int)
    requires
        sp_u16(s, p) == Step::Done(k, p1),
    ensures
        k < 0x20 ==> sp_col_type(s, p) == Step::Done((column_type_of(k), ColumnType::Unknown), p1),
        k >= 0x20 && sp_u16(s, p1) == Step::Done(k2, p2) ==> sp_col_type(s, p) == Step::Done(
            (column_type_of(k), column_type_of(k2)),
            p2,
        ),
{
}

/// The metadata of a column in a result with global keyspace and table is
/// its name, the type its first code names, and, for a collection code, the
/// element type its second code names.
pub proof fn lemma_col_meta_fields(s: Seq<u8>, p: int, name: Seq<char>, k: u16, k2: u16, p1: int, p2: int, p3: int)
    requires
        sp_str(s, p) == Step::Done(name, p1),
        sp_u16(s, p1) == Step::Done(k, p2),
        k >= 0x20,
        sp_u16(s, p2) == Step::Done(k2, p3),
    ensures
        sp_col_meta(s, p, true) == Step::Done(
            ColMetaV {
                keyspace: None,
                table: None,
                col_name: name,
                col_type: column_type_of(k),
                col_type_name: column_type_of(k2),
            },
            p3,
        ),
{
    lemma_col_type_element(s, p1, k, k2, p2, p3);
}

/// A cell whose `i32` length prefix is -1 is null: `int`, `float`, `double`,
/// `list` and the text types decode to their null value, any other type to
/// `Unknown`, and the reader is just past the prefix.
pub proof fn lemma_null_cells(s: Seq<u8>, p: int, p1: int, t: ColumnType)
    requires
        sp_i32(s, p) == Step::Done(-1i32, p1),
        t != ColumnType::Bigint,
    ensures
        sp_value(s, p, t) == Step::Done(
            match t {
                ColumnType::Int => CqlV::I32(None),
                ColumnType::Float => CqlV::F32(None),
                ColumnType::Double => CqlV::F64(None),
                ColumnType::List => CqlV::List(None),
                ColumnType::Ascii | ColumnType::VarChar | ColumnType::Text => CqlV::Str(None),
                _ => CqlV::Unknown,
            },
            p1,
        ),
{
}

/// A cell whose `i32` length prefix is 4 holds its value: an `int` cell the
/// next `i32`, a `float` cell the next 32-bit pattern.
pub proof fn lemma_present_cells(s: Seq<u8>, p: int, p1: int, i: i32, f: u32, p2: int)
    requires
        sp_i32(s, p) == Step::Done(4i32, p1),
    ensures
        sp_i32(s, p1) == Step::Done(i, p2) ==> sp_value(s, p, ColumnType::Int) == Step::Done(CqlV::I32(Some(i)), p2),
        sp_u32(s, p1) == Step::Done(f, p2) ==> sp_value(s, p, ColumnType::Float) == Step::Done(CqlV::F32(Some(f)), p2),
{
}

/// A text cell is read as a `[long string]`; a cell of a type that the
/// decoder does not represent (such as `blob`) with a length `n` of zero or
/// more is skipped: it is `Unknown`, and the reader is `n` bytes past the
/// prefix.
pub proof fn lemma_text_and_skipped_cells(s: Seq<u8>, p: int, n: i32, p1: int, t: ColumnType)
    ensures
        (t == ColumnType::Text || t == ColumnType::VarChar || t == ColumnType::Ascii) ==> sp_value(s, p, t) == match sp_long_str(s, p) {
            Step::Done(v, q) => Step::Done(CqlV::Str(v), q),
            other => other.cast(),
        },
        (t == ColumnType::Blob || t == ColumnType::Boolean || t == ColumnType::Timestamp)
            && sp_i32(s, p) == Step::Done(n, p1) && n >= 0 && p1 + n <= s.len()
            ==> sp_value(s, p, t) == Step::Done(CqlV::Unknown, p1 + n),
{
}

} // verus!
