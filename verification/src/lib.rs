//! A client library for the Cassandra CQL binary protocol (version 3):
//! request framing, response decoding and the protocol's code tables,
//! with their behaviour stated and proved in Verus.

pub mod codes;
pub mod error;
pub mod wire;
pub mod value;
pub mod reader;
pub mod model;
pub mod response;
pub mod request;

pub use codes::{consistency, column_type, opcode, ColumnType, Consistency, OpcodeReq, OpcodeResp};
pub use error::{Decoded, Error, ErrorKind, Fault, Result};
pub use reader::{fill_step, read_full, FillStep, Reader};
pub use request::{auth, options, query, startup, Request, RequestBody, StringMap, CQL_VERSION};
pub use response::{frame_body_length, CqlColMetadata, Metadata, Response, ResponseBody, Row, Rows};
pub use value::Cql;
