//! Decoded responses — column metadata, result metadata, rows and response
//! bodies — and the decoders that read them from the bytes of a frame.

use vstd::prelude::*;
use std::rc::Rc;
use crate::codes::{ColumnType, OpcodeResp, column_type, opcode, opcode_of};
use crate::error::{Decoded, Error, Fault, Model, Result, Step, decoded_agrees, result_agrees};
use crate::model::{
    BodyV, ColMetaV, MetadataV, ResponseV, RowV, RowsV, col_meta_reader, column_position,
    header_length, lemma_iter_len, lemma_iter_stops, lemma_models_of_push, models_of, row_reader,
    sp_body, sp_col_meta, sp_col_type, sp_iter, sp_metadata, sp_opt_names, sp_response, sp_row,
    sp_rows, sp_value, value_reader,
};
use crate::reader::Reader;
use crate::value::{Cql, CqlV};
use crate::wire::{be16, signed16};

verus! {

/// The metadata of one column of a result.
#[derive(Debug)]
pub struct CqlColMetadata {
    keyspace: Option<String>,
    table: Option<String>,
    col_name: String,
    col_type: ColumnType,
    col_type_name: ColumnType,
}

impl Model for CqlColMetadata {
    type M = ColMetaV;

    closed spec fn model(&self) -> ColMetaV {
        ColMetaV {
            keyspace: self.keyspace.model(),
            table: self.table.model(),
            col_name: self.col_name@,
            col_type: self.col_type,
            col_type_name: self.col_type_name,
        }
    }
}

/// The metadata of a result: its flags, its column count, the keyspace and
/// table when they are global, and the metadata of each column.
#[derive(Debug)]
pub struct Metadata {
    flags: u32,
    column_count: u32,
    keyspace: Option<String>,
    table: Option<String>,
    row_metadata: Vec<CqlColMetadata>,
}

impl Model for Metadata {
    type M = MetadataV;

    closed spec fn model(&self) -> MetadataV {
        MetadataV {
            flags: self.flags,
            column_count: self.column_count,
            keyspace: self.keyspace.model(),
            table: self.table.model(),
            row_metadata: models_of(self.row_metadata@),
        }
    }
}

/// One row of a result: a value for each column of the metadata, in order.
#[derive(Debug)]
pub struct Row {
    cols: Vec<Cql>,
    metadata: Rc<Metadata>,
}

impl Model for Row {
    type M = RowV;

    closed spec fn model(&self) -> RowV {
        RowV { cols: models_of(self.cols@), metadata: (*self.metadata).model() }
    }
}

impl Row {
    #[verifier::type_invariant]
    spec fn wf(self) -> bool {
        self.cols@.len() == self.metadata.row_metadata@.len()
    }
}

/// The rows of a result, with its metadata.
#[derive(Debug)]
pub struct Rows {
    metadata: Rc<Metadata>,
    rows: Vec<Row>,
}

impl Model for Rows {
    type M = RowsV;

    closed spec fn model(&self) -> RowsV {
        RowsV { metadata: (*self.metadata).model(), rows: models_of(self.rows@) }
    }
}

impl CqlColMetadata {
    /// The column's name.
    pub fn col_name(&self) -> (r: &String)
        ensures
            r@ == self.model().col_name,
    {
        &self.col_name
    }

    /// The column's type.
    pub fn col_type(&self) -> (r: ColumnType)
        ensures
            r == self.model().col_type,
    {
        self.col_type
    }

    /// The element type of a collection column; `Unknown` for other columns.
    pub fn col_type_name(&self) -> (r: ColumnType)
        ensures
            r == self.model().col_type_name,
    {
        self.col_type_name
    }
}

impl Metadata {
    /// The flags word.
    pub fn flags(&self) -> (r: u32)
        ensures
            r == self.model().flags,
    {
        self.flags
    }

    /// The column count that the server sent.
    pub fn column_count(&self) -> (r: u32)
        ensures
            r == self.model().column_count,
    {
        self.column_count
    }

    /// The metadata of each column, in order.
    pub fn row_metadata(&self) -> (r: &Vec<CqlColMetadata>)
        ensures
            models_of(r@) == self.model().row_metadata,
    {
        &self.row_metadata
    }
}

impl Rows {
    /// The metadata of the result.
    pub fn metadata(&self) -> (r: &Metadata)
        ensures
            r.model() == self.model().metadata,
    {
        &self.metadata
    }

    /// The rows, in order.
    pub fn rows(&self) -> (r: &Vec<Row>)
        ensures
            models_of(r@) == self.model().rows,
    {
        &self.rows
    }
}

/// The body of a response.
#[derive(Debug)]
pub enum ResponseBody {
    Error(u32, String),
    Ready,
    Auth(String),
    Void,
    Rows(Rows),
    Keyspace(String),
    Prepared(u8, Metadata),
    SchemaChange(String, String, String),
}

impl Model for ResponseBody {
    type M = BodyV;

    open spec fn model(&self) -> BodyV {
        match self {
            ResponseBody::Error(code, msg) => BodyV::Error(*code, msg@),
            ResponseBody::Ready => BodyV::Ready,
            ResponseBody::Auth(a) => BodyV::Auth(a@),
            ResponseBody::Void => BodyV::Void,
            ResponseBody::Rows(rows) => BodyV::Rows(rows.model()),
            ResponseBody::Keyspace(ks) => BodyV::Keyspace(ks@),
            ResponseBody::Prepared(id, md) => BodyV::Prepared(*id, md.model()),
            ResponseBody::SchemaChange(c, k, t) => BodyV::SchemaChange(c@, k@, t@),
        }
    }
}

/// A response frame: the header's version, flags, stream and opcode, and
/// the decoded body.
#[derive(Debug)]
pub struct Response {
    version: u8,
    flags: u8,
    stream: i16,
    opcode: OpcodeResp,
    body: ResponseBody,
}

impl Model for Response {
    type M = ResponseV;

    closed spec fn model(&self) -> ResponseV {
        ResponseV {
            version: self.version,
            flags: self.flags,
            stream: self.stream,
            opcode: self.opcode,
            body: self.body.model(),
        }
    }
}

impl Response {
    /// The protocol version byte of the header.
    pub fn version(&self) -> (r: u8)
        ensures
            r == self.model().version,
    {
        self.version
    }

    /// The flags byte of the header.
    pub fn flags(&self) -> (r: u8)
        ensures
            r == self.model().flags,
    {
        self.flags
    }

    /// The stream id of the header.
    pub fn stream(&self) -> (r: i16)
        ensures
            r == self.model().stream,
    {
        self.stream
    }

    /// The opcode of the header.
    pub fn opcode(&self) -> (r: OpcodeResp)
        ensures
            r == self.model().opcode,
    {
        self.opcode
    }

    /// The decoded body.
    pub fn body(&self) -> (r: &ResponseBody)
        ensures
            r.model() == self.model().body,
    {
        &self.body
    }
}

/// `<Rc<Metadata> as Clone>::clone`: another pointer to the same metadata.
#[verifier::external_body]
fn share_metadata(m: &Rc<Metadata>) -> (r: Rc<Metadata>)
    ensures
        r == *m,
{
    m.clone()
}

impl<'a> Reader<'a> {
    /// Reads a keyspace and a table name when `present`.
    fn read_opt_names(&mut self, present: bool) -> (r: Result<(Option<String>, Option<String>)>)
        ensures
            final(self).bytes() == old(self).bytes(),
            result_agrees(r, sp_opt_names(old(self).bytes(), old(self).pos(), present), final(self).pos()),
    {
        if present {
            let a = match self.read_cql_str() {
                Ok(a) => a,
                Err(e) => return Err(e),
            };
            let b = match self.read_cql_str() {
                Ok(b) => b,
                Err(e) => return Err(e),
            };
            Ok((Some(a), Some(b)))
        } else {
            Ok((None, None))
        }
    }

    /// Reads the type of a column, and the element type of a collection.
    fn read_col_type(&mut self) -> (r: Result<(ColumnType, ColumnType)>)
        ensures
            final(self).bytes() == old(self).bytes(),
            result_agrees(r, sp_col_type(old(self).bytes(), old(self).pos()), final(self).pos()),
    {
        let type_key = match self.read_u16() {
            Ok(k) => k,
            Err(e) => return Err(e),
        };
        let elem_type = if type_key >= 0x20 {
            match self.read_u16() {
                Ok(k) => column_type(k),
                Err(e) => return Err(e),
            }
        } else {
            ColumnType::Unknown
        };
        Ok((column_type(type_key), elem_type))
    }

    /// Reads the metadata of one column.
    fn read_col_meta(&mut self, global: bool) -> (r: Result<CqlColMetadata>)
        ensures
            final(self).bytes() == old(self).bytes(),
            result_agrees(r, sp_col_meta(old(self).bytes(), old(self).pos(), global), final(self).pos()),
    {
        let (keyspace, table) = match self.read_opt_names(!global) {
            Ok(n) => n,
            Err(e) => return Err(e),
        };
        let col_name = match self.read_cql_str() {
            Ok(n) => n,
            Err(e) => return Err(e),
        };
        let (col_type, col_type_name) = match self.read_col_type() {
            Ok(t) => t,
            Err(e) => return Err(e),
        };
        Ok(CqlColMetadata { keyspace, table, col_name, col_type, col_type_name })
    }

    /// Reads the metadata of a result.
    #[verifier::loop_isolation(false)]
    pub fn read_cql_metadata(&mut self) -> (r: Result<Metadata>)
        ensures
            final(self).bytes() == old(self).bytes(),
            result_agrees(r, sp_metadata(old(self).bytes(), old(self).pos()), final(self).pos()),
    {
        let ghost s = self.bytes();
        let flags = match self.read_u32() {
            Ok(v) => v,
            Err(e) => return Err(e),
        };
        let column_count = match self.read_u32() {
            Ok(v) => v,
            Err(e) => return Err(e),
        };
        let global = flags == 1;
        let (keyspace, table) = match self.read_opt_names(global) {
            Ok(n) => n,
            Err(e) => return Err(e),
        };
        let ghost p3 = self.pos();
        let ghost f = col_meta_reader(s, global);
        let mut row_metadata: Vec<CqlColMetadata> = Vec::new();
        proof {
            assert(models_of(row_metadata@) =~= Seq::<ColMetaV>::empty());
        }
        let mut i: u32 = 0;
        while i < column_count
            invariant
                self.bytes() == s,
                i <= column_count,
                f == col_meta_reader(s, global),
                sp_iter(f, p3, i as nat) == Step::Done(models_of(row_metadata@), self.pos()),
            decreases column_count - i,
        {
            let ghost q = self.pos();
            match self.read_col_meta(global) {
                Ok(c) => {
                    proof {
                        lemma_models_of_push(row_metadata@, c);
                    }
                    row_metadata.push(c);
                    i = i + 1;
                },
                Err(e) => {
                    proof {
                        assert(f(i as int, q) == sp_col_meta(s, q, global));
                        lemma_iter_stops(f, p3, i as nat, column_count as nat);
                    }
                    return Err(e);
                },
            }
        }
        Ok(Metadata { flags, column_count, keyspace, table, row_metadata })
    }

    /// Reads the value of a column of type `t`; reports the fault of a
    /// length that the type does not allow.
    fn decode_value(&mut self, t: ColumnType) -> (r: Decoded<Cql>)
        ensures
            final(self).bytes() == old(self).bytes(),
            decoded_agrees(r, sp_value(old(self).bytes(), old(self).pos(), t), final(self).pos()),
    {
        match t {
            ColumnType::Ascii | ColumnType::VarChar | ColumnType::Text => match self.decode_cql_long_str() {
                Decoded::Value(v) => Decoded::Value(Cql::CqlString(v)),
                Decoded::Failed(e) => Decoded::Failed(e),
                Decoded::Panicked(f) => Decoded::Panicked(f),
            },
            ColumnType::Int => {
                let len = match self.read_i32() {
                    Ok(n) => n,
                    Err(e) => return Decoded::Failed(e),
                };
                if len == -1 {
                    Decoded::Value(Cql::Cqli32(None))
                } else if len == 4 {
                    match self.read_i32() {
                        Ok(v) => Decoded::Value(Cql::Cqli32(Some(v))),
                        Err(e) => Decoded::Failed(e),
                    }
                } else {
                    Decoded::Panicked(Fault::InvalidIntLength(len))
                }
            },
            ColumnType::Bigint => match self.read_i64() {
                Ok(v) => Decoded::Value(Cql::Cqli64(Some(v))),
                Err(e) => Decoded::Failed(e),
            },
            ColumnType::Float => {
                let len = match self.read_i32() {
                    Ok(n) => n,
                    Err(e) => return Decoded::Failed(e),
                };
                if len == -1 {
                    Decoded::Value(Cql::Cqlf32(None))
                } else if len == 4 {
                    match self.read_u32() {
                        Ok(v) => Decoded::Value(Cql::Cqlf32(Some(v))),
                        Err(e) => Decoded::Failed(e),
                    }
                } else {
                    Decoded::Panicked(Fault::InvalidFloatLength(len))
                }
            },
            ColumnType::Double => {
                let len = match self.read_i32() {
                    Ok(n) => n,
                    Err(e) => return Decoded::Failed(e),
                };
                if len == -1 {
                    Decoded::Value(Cql::Cqlf64(None))
                } else if len == 4 {
                    match self.read_u64() {
                        Ok(v) => Decoded::Value(Cql::Cqlf64(Some(v))),
                        Err(e) => Decoded::Failed(e),
                    }
                } else {
                    Decoded::Panicked(Fault::InvalidDoubleLength(len))
                }
            },
            ColumnType::List => {
                let len = match self.read_i32() {
                    Ok(n) => n,
                    Err(e) => return Decoded::Failed(e),
                };
                if len == -1 {
                    Decoded::Value(Cql::CqlList(None))
                } else {
                    Decoded::Panicked(Fault::ListNotImplemented)
                }
            },
            _ => {
                let len = match self.read_i32() {
                    Ok(n) => n,
                    Err(e) => return Decoded::Failed(e),
                };
                if len == -1 {
                    Decoded::Value(Cql::CqlUnknown)
                } else if len < 0 {
                    Decoded::Panicked(Fault::CapacityOverflow)
                } else {
                    match self.read_bytes(len as usize) {
                        Ok(_) => Decoded::Value(Cql::CqlUnknown),
                        Err(e) => Decoded::Failed(e),
                    }
                }
            },
        }
    }

    /// Reads one row: a value for each column of `metadata`, in order.
    #[verifier::loop_isolation(false)]
    fn decode_row(&mut self, metadata: &Metadata) -> (r: Decoded<Vec<Cql>>)
        ensures
            final(self).bytes() == old(self).bytes(),
            match sp_iter(
                value_reader(old(self).bytes(), metadata.model().row_metadata),
                old(self).pos(),
                metadata.model().row_metadata.len(),
            ) {
                Step::Done(vs, p) => r matches Decoded::Value(v) && models_of(v@) == vs && final(self).pos() == p,
                Step::Fail(k, p) => r matches Decoded::Failed(e) && e.kind() == k && final(self).pos() == p,
                Step::Fault(f) => r matches Decoded::Panicked(g) && g == f,
            },
    {
        let ghost s = self.bytes();
        let ghost p0 = self.pos();
        let ghost metas = metadata.model().row_metadata;
        let ghost f = value_reader(s, metas);
        let n = metadata.row_metadata.len();
        let mut cols: Vec<Cql> = Vec::new();
        proof {
            assert(models_of(cols@) =~= Seq::<CqlV>::empty());
        }
        let mut i: usize = 0;
        while i < n
            invariant
                self.bytes() == s,
                i <= n,
                n == metas.len(),
                f == value_reader(s, metas),
                sp_iter(f, p0, i as nat) == Step::Done(models_of(cols@), self.pos()),
            decreases n - i,
        {
            let ghost q = self.pos();
            let t = metadata.row_metadata[i].col_type;
            proof {
                assert(f(i as int, q) == sp_value(s, q, t));
            }
            match self.decode_value(t) {
                Decoded::Value(c) => {
                    proof {
                        lemma_models_of_push(cols@, c);
                    }
                    cols.push(c);
                    i = i + 1;
                },
                Decoded::Failed(e) => {
                    proof {
                        lemma_iter_stops(f, p0, i as nat, n as nat);
                    }
                    return Decoded::Failed(e);
                },
                Decoded::Panicked(fault) => {
                    proof {
                        lemma_iter_stops(f, p0, i as nat, n as nat);
                    }
                    return Decoded::Panicked(fault);
                },
            }
        }
        Decoded::Value(cols)
    }

    /// Reads the rows of a result: its metadata, a `u32` row count, then the
    /// rows; reports the fault of a value that cannot be decoded.
    #[verifier::loop_isolation(false)]
    pub fn decode_cql_rows(&mut self) -> (r: Decoded<Rows>)
        ensures
            final(self).bytes() == old(self).bytes(),
            decoded_agrees(r, sp_rows(old(self).bytes(), old(self).pos()), final(self).pos()),
    {
        let ghost s = self.bytes();
        let md = match self.read_cql_metadata() {
            Ok(m) => m,
            Err(e) => return Decoded::Failed(e),
        };
        let metadata = Rc::new(md);
        let rows_count = match self.read_u32() {
            Ok(n) => n,
            Err(e) => return Decoded::Failed(e),
        };
        let ghost mdv = (*metadata).model();
        let ghost p2 = self.pos();
        let ghost f = row_reader(s, mdv);
        let mut rows: Vec<Row> = Vec::new();
        proof {
            assert(models_of(rows@) =~= Seq::<RowV>::empty());
        }
        let mut i: u32 = 0;
        while i < rows_count
            invariant
                self.bytes() == s,
                i <= rows_count,
                f == row_reader(s, mdv),
                mdv == (*metadata).model(),
                sp_iter(f, p2, i as nat) == Step::Done(models_of(rows@), self.pos()),
            decreases rows_count - i,
        {
            let ghost q = self.pos();
            proof {
                assert(f(i as int, q) == sp_row(s, q, mdv));
            }
            match self.decode_row(&metadata) {
                Decoded::Value(cols) => {
                    proof {
                        lemma_iter_len(value_reader(s, mdv.row_metadata), q, mdv.row_metadata.len());
                    }
                    let row = Row { cols, metadata: share_metadata(&metadata) };
                    proof {
                        lemma_models_of_push(rows@, row);
                    }
                    rows.push(row);
                    i = i + 1;
                },
                Decoded::Failed(e) => {
                    proof {
                        lemma_iter_stops(f, p2, i as nat, rows_count as nat);
                    }
                    return Decoded::Failed(e);
                },
                Decoded::Panicked(fault) => {
                    proof {
                        lemma_iter_stops(f, p2, i as nat, rows_count as nat);
                    }
                    return Decoded::Panicked(fault);
                },
            }
        }
        Decoded::Value(Rows { metadata, rows })
    }

    /// Reads the rows of a result, on an input without a fault.
    pub fn read_cql_rows(&mut self) -> (r: Result<Rows>)
        requires
            !sp_rows(old(self).bytes(), old(self).pos()).is_fault(),
        ensures
            final(self).bytes() == old(self).bytes(),
            result_agrees(r, sp_rows(old(self).bytes(), old(self).pos()), final(self).pos()),
    {
        match self.decode_cql_rows() {
            Decoded::Value(v) => Ok(v),
            Decoded::Failed(e) => Err(e),
            Decoded::Panicked(_) => {
                assert(false);
                Err(Error::UnexpectedEOF)
            },
        }
    }
}

/// Reads a response body of opcode `op` from the start of `b`; reports the
/// fault of an opcode or a result kind that the decoder does not handle.
fn decode_body(b: &[u8], op: OpcodeResp) -> (r: Decoded<ResponseBody>)
    ensures
        match sp_body(b@, op) {
            Step::Done(v, _) => r matches Decoded::Value(x) && x.model() == v,
            Step::Fail(k, _) => r matches Decoded::Failed(e) && e.kind() == k,
            Step::Fault(f) => r matches Decoded::Panicked(g) && g == f,
        },
{
    let mut reader = Reader::new(b);
    match op {
        OpcodeResp::Ready => Decoded::Value(ResponseBody::Ready),
        OpcodeResp::Auth => match reader.read_cql_str() {
            Ok(a) => Decoded::Value(ResponseBody::Auth(a)),
            Err(e) => Decoded::Failed(e),
        },
        OpcodeResp::Error => {
            let code = match reader.read_u32() {
                Ok(c) => c,
                Err(e) => return Decoded::Failed(e),
            };
            let msg = match reader.read_cql_str() {
                Ok(m) => m,
                Err(e) => return Decoded::Failed(e),
            };
            if code == 0x2400 {
                match reader.read_cql_str() {
                    Ok(_) => {},
                    Err(e) => return Decoded::Failed(e),
                }
                match reader.read_cql_str() {
                    Ok(_) => {},
                    Err(e) => return Decoded::Failed(e),
                }
            }
            Decoded::Value(ResponseBody::Error(code, msg))
        },
        OpcodeResp::Result => {
            let code = match reader.read_u32() {
                Ok(c) => c,
                Err(e) => return Decoded::Failed(e),
            };
            if code == 1 {
                Decoded::Value(ResponseBody::Void)
            } else if code == 2 {
                match reader.decode_cql_rows() {
                    Decoded::Value(rows) => Decoded::Value(ResponseBody::Rows(rows)),
                    Decoded::Failed(e) => Decoded::Failed(e),
                    Decoded::Panicked(f) => Decoded::Panicked(f),
                }
            } else if code == 3 {
                match reader.read_cql_str() {
                    Ok(ks) => Decoded::Value(ResponseBody::Keyspace(ks)),
                    Err(e) => Decoded::Failed(e),
                }
            } else if code == 4 {
                let id = match reader.read_u8() {
                    Ok(id) => id,
                    Err(e) => return Decoded::Failed(e),
                };
                match reader.read_cql_metadata() {
                    Ok(md) => Decoded::Value(ResponseBody::Prepared(id, md)),
                    Err(e) => Decoded::Failed(e),
                }
            } else if code == 5 {
                let change = match reader.read_cql_str() {
                    Ok(v) => v,
                    Err(e) => return Decoded::Failed(e),
                };
                let keyspace = match reader.read_cql_str() {
                    Ok(v) => v,
                    Err(e) => return Decoded::Failed(e),
                };
                let table = match reader.read_cql_str() {
                    Ok(v) => v,
                    Err(e) => return Decoded::Failed(e),
                };
                Decoded::Value(ResponseBody::SchemaChange(change, keyspace, table))
            } else {
                Decoded::Panicked(Fault::UnknownResultCode(code))
            }
        },
        _ => Decoded::Panicked(Fault::InvalidResponse),
    }
}

/// The fields of a nine-byte frame header: version, flags, stream, opcode
/// and body length.
fn read_header(h: &[u8]) -> (r: (u8, u8, i16, OpcodeResp, u32))
    requires
        h@.len() == 9,
    ensures
        r.0 == h@[0],
        r.1 == h@[1],
        r.2 == signed16(be16(h@[2], h@[3])),
        r.3 == opcode_of(h@[4]),
        r.4 == header_length(h@),
{
    let mut header = Reader::new(h);
    let version = match header.read_u8() {
        Ok(v) => v,
        Err(_) => {
            assert(false);
            0
        },
    };
    let flags = match header.read_u8() {
        Ok(v) => v,
        Err(_) => {
            assert(false);
            0
        },
    };
    let stream = match header.read_i16() {
        Ok(v) => v,
        Err(_) => {
            assert(false);
            0
        },
    };
    let op = match header.read_u8() {
        Ok(v) => opcode(v),
        Err(_) => {
            assert(false);
            OpcodeResp::Error
        },
    };
    let length = match header.read_u32() {
        Ok(v) => v,
        Err(_) => {
            assert(false);
            0
        },
    };
    (version, flags, stream, op, length)
}

impl<'a> Reader<'a> {
    /// Reads a response frame: the nine-byte header, then the body of the
    /// length it announces, which is decoded on its own. Reports the fault
    /// of a response that the decoder does not handle.
    pub fn decode_cql_response(&mut self) -> (r: Decoded<Response>)
        ensures
            final(self).bytes() == old(self).bytes(),
            decoded_agrees(r, sp_response(old(self).bytes(), old(self).pos()), final(self).pos()),
    {
        proof {
            Reader::lemma_pos_nonneg(&*self);
        }
        let header_data = match self.read_bytes(9) {
            Ok(h) => h,
            Err(e) => return Decoded::Failed(e),
        };
        let (version, flags, stream, op, length) = read_header(header_data.as_slice());
        let body_data = match self.read_bytes(length as usize) {
            Ok(b) => b,
            Err(e) => return Decoded::Failed(e),
        };
        match decode_body(body_data.as_slice(), op) {
            Decoded::Value(body) => Decoded::Value(Response { version, flags, stream, opcode: op, body }),
            Decoded::Failed(e) => Decoded::Failed(e),
            Decoded::Panicked(f) => Decoded::Panicked(f),
        }
    }

    /// Reads a response frame, on an input without a fault.
    pub fn read_cql_response(&mut self) -> (r: Result<Response>)
        requires
            !sp_response(old(self).bytes(), old(self).pos()).is_fault(),
        ensures
            final(self).bytes() == old(self).bytes(),
            result_agrees(r, sp_response(old(self).bytes(), old(self).pos()), final(self).pos()),
    {
        match self.decode_cql_response() {
            Decoded::Value(v) => Ok(v),
            Decoded::Failed(e) => Err(e),
            Decoded::Panicked(_) => {
                assert(false);
                Err(Error::UnexpectedEOF)
            },
        }
    }
}

/// Whether two byte runs are equal.
fn bytes_eq(a: &[u8], b: &[u8]) -> (r: bool)
    ensures
        r == (a@ == b@),
{
    if a.len() != b.len() {
        return false;
    }
    let mut i: usize = 0;
    while i < a.len()
        invariant
            a@.len() == b@.len(),
            i <= a@.len(),
            a@.take(i as int) == b@.take(i as int),
        decreases a@.len() - i,
    {
        if a[i] != b[i] {
            assert(a@[i as int] != b@[i as int]);
            return false;
        }
        assert(a@.take(i + 1) =~= a@.take(i as int).push(a@[i as int]));
        assert(b@.take(i + 1) =~= b@.take(i as int).push(b@[i as int]));
        i = i + 1;
    }
    assert(a@.take(a@.len() as int) =~= a@);
    assert(b@.take(b@.len() as int) =~= b@);
    true
}

/// Whether two texts are equal, compared by their UTF-8 bytes.
fn text_eq(a: &str, b: &str) -> (r: bool)
    ensures
        r == (a@ == b@),
{
    let r = bytes_eq(a.as_bytes(), b.as_bytes());
    proof {
        vstd::utf8::encode_utf8_decode_utf8(a@);
        vstd::utf8::encode_utf8_decode_utf8(b@);
    }
    r
}

impl Row {
    /// The value of the first column named `col_name`, or `None` when no
    /// column has that name.
    pub fn get_column(&self, col_name: &str) -> (r: Option<Cql>)
        ensures
            match column_position(self.model().metadata.row_metadata, col_name@) {
                Some(i) => r matches Some(c) && c.value() == self.model().cols[i],
                None => r is None,
            },
    {
        proof {
            use_type_invariant(self);
        }
        let metas = &self.metadata.row_metadata;
        let ghost mv = models_of(metas@);
        let mut i: usize = 0;
        while i < metas.len()
            invariant
                i <= metas@.len(),
                mv == models_of(metas@),
                metas@ == self.metadata.row_metadata@,
                self.cols@.len() == metas@.len(),
                column_position(mv.take(i as int), col_name@) is None,
            decreases metas@.len() - i,
        {
            proof {
                assert(mv.take(i + 1).drop_last() =~= mv.take(i as int));
            }
            if text_eq(metas[i].col_name.as_str(), col_name) {
                proof {
                    lemma_take_position(mv, col_name@, i as int);
                }
                return Some(self.cols[i].clone());
            }
            i = i + 1;
        }
        proof {
            assert(mv.take(metas@.len() as int) =~= mv);
        }
        None
    }
}

/// A first match at `i` within the first `i + 1` columns is the first match
/// of all the columns.
proof fn lemma_take_position(metas: Seq<ColMetaV>, name: Seq<char>, i: int)
    requires
        0 <= i < metas.len(),
        column_position(metas.take(i + 1), name) == Some(i),
    ensures
        column_position(metas, name) == Some(i),
    decreases metas.len(),
{
    if metas.len() > i + 1 {
        assert(metas.drop_last().take(i + 1) =~= metas.take(i + 1));
        lemma_take_position(metas.drop_last(), name, i);
    } else {
        assert(metas.take(i + 1) =~= metas);
    }
}

/// The body length that a frame header announces: the big-endian `u32` at
/// offset 5 of its nine bytes.
pub fn frame_body_length(header: &[u8]) -> (n: u32)
    requires
        header@.len() >= 9,
    ensures
        n == header_length(header@.subrange(0, 9)),
{
    let (_, _, _, _, length) = read_header(vstd::slice::slice_subrange(header, 0, 9));
    length
}

} // verus!
