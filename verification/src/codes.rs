//! The protocol's numeric code tables: consistency levels, column types and
//! frame opcodes, with the maps between codes and values in both directions.

use vstd::prelude::*;
use crate::error::Model;

verus! {

/// The consistency level of a query.
#[derive(Clone, Copy, Debug, PartialEq, Eq, Structural)]
pub enum Consistency {
    Any,
    One,
    Two,
    Three,
    Quorum,
    All,
    LocalQuorum,
    EachQuorum,
    Unknown,
}

/// The consistency level that a wire code names.
pub open spec fn consistency_of(val: u16) -> Consistency {
    match val {
        0 => Consistency::Any,
        1 => Consistency::One,
        2 => Consistency::Two,
        3 => Consistency::Three,
        4 => Consistency::Quorum,
        5 => Consistency::All,
        6 => Consistency::LocalQuorum,
        7 => Consistency::EachQuorum,
        _ => Consistency::Unknown,
    }
}

/// Decodes a consistency level; codes outside `0..=7` give `Unknown`.
pub fn consistency(val: u16) -> (c: Consistency)
    ensures
        c == consistency_of(val),
{
    match val {
        0 => Consistency::Any,
        1 => Consistency::One,
        2 => Consistency::Two,
        3 => Consistency::Three,
        4 => Consistency::Quorum,
        5 => Consistency::All,
        6 => Consistency::LocalQuorum,
        7 => Consistency::EachQuorum,
        _ => Consistency::Unknown,
    }
}


impl Consistency {
    /// The wire code of a consistency level; `Unknown` has the code after
    /// the last named level.
    pub open spec fn spec_code(self) -> u16 {
        match self {
            Consistency::Any => 0,
            Consistency::One => 1,
            Consistency::Two => 2,
            Consistency::Three => 3,
            Consistency::Quorum => 4,
            Consistency::All => 5,
            Consistency::LocalQuorum => 6,
            Consistency::EachQuorum => 7,
            Consistency::Unknown => 8,
        }
    }

    /// The wire code of this consistency level.
    pub fn code(&self) -> (c: u16)
        ensures
            c == self.spec_code(),
    {
        match self {
            Consistency::Any => 0,
            Consistency::One => 1,
            Consistency::Two => 2,
            Consistency::Three => 3,
            Consistency::Quorum => 4,
            Consistency::All => 5,
            Consistency::LocalQuorum => 6,
            Consistency::EachQuorum => 7,
            Consistency::Unknown => 8,
        }
    }
}

/// Decoding the code of a named consistency level gives that level back, and
/// a code that decodes to a named level is that level's code.
pub proof fn lemma_consistency_roundtrip(c: Consistency, val: u16)
    ensures
        c != Consistency::Unknown ==> consistency_of(c.spec_code()) == c,
        consistency_of(val) != Consistency::Unknown ==> consistency_of(val).spec_code() == val,
{
}

/// The protocol's consistency codes: ANY 0, ONE 1, TWO 2, THREE 3,
/// QUORUM 4, ALL 5, LOCAL_QUORUM 6, EACH_QUORUM 7. Each level is encoded as
/// its code and each code decodes to its level; every other code decodes to
/// `Unknown`, which is encoded as 8.
pub proof fn lemma_consistency_codes(val: u16)
    ensures
        Consistency::Any.spec_code() == 0 && consistency_of(0) == Consistency::Any,
        Consistency::One.spec_code() == 1 && consistency_of(1) == Consistency::One,
        Consistency::Two.spec_code() == 2 && consistency_of(2) == Consistency::Two,
        Consistency::Three.spec_code() == 3 && consistency_of(3) == Consistency::Three,
        Consistency::Quorum.spec_code() == 4 && consistency_of(4) == Consistency::Quorum,
        Consistency::All.spec_code() == 5 && consistency_of(5) == Consistency::All,
        Consistency::LocalQuorum.spec_code() == 6 && consistency_of(6) == Consistency::LocalQuorum,
        Consistency::EachQuorum.spec_code() == 7 && consistency_of(7) == Consistency::EachQuorum,
        Consistency::Unknown.spec_code() == 8,
        val > 7 ==> consistency_of(val) == Consistency::Unknown,
{
}

/// The type of a column.
#[derive(Clone, Copy, Debug, PartialEq, Eq, Structural)]
pub enum ColumnType {
    Custom,
    Ascii,
    Bigint,
    Blob,
    Boolean,
    Counter,
    Decimal,
    Double,
    Float,
    Int,
    Text,
    Timestamp,
    UUID,
    VarChar,
    Varint,
    TimeUUID,
    Inet,
    List,
    CqlMap,
    CqlSet,
    Unknown,
}

impl ColumnType {
    /// The wire code of a column type; `Unknown` is `0xFFFF`.
    pub open spec fn spec_code(self) -> u16 {
        match self {
            ColumnType::Custom => 0x0000,
            ColumnType::Ascii => 0x0001,
            ColumnType::Bigint => 0x0002,
            ColumnType::Blob => 0x0003,
            ColumnType::Boolean => 0x0004,
            ColumnType::Counter => 0x0005,
            ColumnType::Decimal => 0x0006,
            ColumnType::Double => 0x0007,
            ColumnType::Float => 0x0008,
            ColumnType::Int => 0x0009,
            ColumnType::Text => 0x000A,
            ColumnType::Timestamp => 0x000B,
            ColumnType::UUID => 0x000C,
            ColumnType::VarChar => 0x000D,
            ColumnType::Varint => 0x000E,
            ColumnType::TimeUUID => 0x000F,
            ColumnType::Inet => 0x0010,
            ColumnType::List => 0x0020,
            ColumnType::CqlMap => 0x0021,
            ColumnType::CqlSet => 0x0022,
            ColumnType::Unknown => 0xFFFF,
        }
    }

    /// The wire code of this column type.
    pub fn code(&self) -> (c: u16)
        ensures
            c == self.spec_code(),
    {
        match self {
            ColumnType::Custom => 0x0000,
            ColumnType::Ascii => 0x0001,
            ColumnType::Bigint => 0x0002,
            ColumnType::Blob => 0x0003,
            ColumnType::Boolean => 0x0004,
            ColumnType::Counter => 0x0005,
            ColumnType::Decimal => 0x0006,
            ColumnType::Double => 0x0007,
            ColumnType::Float => 0x0008,
            ColumnType::Int => 0x0009,
            ColumnType::Text => 0x000A,
            ColumnType::Timestamp => 0x000B,
            ColumnType::UUID => 0x000C,
            ColumnType::VarChar => 0x000D,
            ColumnType::Varint => 0x000E,
            ColumnType::TimeUUID => 0x000F,
            ColumnType::Inet => 0x0010,
            ColumnType::List => 0x0020,
            ColumnType::CqlMap => 0x0021,
            ColumnType::CqlSet => 0x0022,
            ColumnType::Unknown => 0xFFFF,
        }
    }
}

/// The column type that a wire code names.
pub open spec fn column_type_of(val: u16) -> ColumnType {
    match val {
        0x0000 => ColumnType::Custom,
        0x0001 => ColumnType::Ascii,
        0x0002 => ColumnType::Bigint,
        0x0003 => ColumnType::Blob,
        0x0004 => ColumnType::Boolean,
        0x0005 => ColumnType::Counter,
        0x0006 => ColumnType::Decimal,
        0x0007 => ColumnType::Double,
        0x0008 => ColumnType::Float,
        0x0009 => ColumnType::Int,
        0x000A => ColumnType::Text,
        0x000B => ColumnType::Timestamp,
        0x000C => ColumnType::UUID,
        0x000D => ColumnType::VarChar,
        0x000E => ColumnType::Varint,
        0x000F => ColumnType::TimeUUID,
        0x0010 => ColumnType::Inet,
        0x0020 => ColumnType::List,
        0x0021 => ColumnType::CqlMap,
        0x0022 => ColumnType::CqlSet,
        _ => ColumnType::Unknown,
    }
}

impl Model for ColumnType {
    type M = ColumnType;

    open spec fn model(&self) -> ColumnType {
        *self
    }
}

/// Decodes a column type; codes outside the table give `Unknown`.
pub fn column_type(val: u16) -> (t: ColumnType)
    ensures
        t == column_type_of(val),
{
    match val {
        0x0000 => ColumnType::Custom,
        0x0001 => ColumnType::Ascii,
        0x0002 => ColumnType::Bigint,
        0x0003 => ColumnType::Blob,
        0x0004 => ColumnType::Boolean,
        0x0005 => ColumnType::Counter,
        0x0006 => ColumnType::Decimal,
        0x0007 => ColumnType::Double,
        0x0008 => ColumnType::Float,
        0x0009 => ColumnType::Int,
        0x000A => ColumnType::Text,
        0x000B => ColumnType::Timestamp,
        0x000C => ColumnType::UUID,
        0x000D => ColumnType::VarChar,
        0x000E => ColumnType::Varint,
        0x000F => ColumnType::TimeUUID,
        0x0010 => ColumnType::Inet,
        0x0020 => ColumnType::List,
        0x0021 => ColumnType::CqlMap,
        0x0022 => ColumnType::CqlSet,
        _ => ColumnType::Unknown,
    }
}

/// The protocol's column type codes: custom 0x00, ascii 0x01, bigint 0x02,
/// blob 0x03, boolean 0x04, counter 0x05, decimal 0x06, double 0x07,
/// float 0x08, int 0x09, text 0x0A, timestamp 0x0B, uuid 0x0C, varchar 0x0D,
/// varint 0x0E, timeuuid 0x0F, inet 0x10, list 0x20, map 0x21, set 0x22.
/// Each type is encoded as its code and each code decodes to its type; every
/// other code decodes to `Unknown`, which is encoded as 0xFFFF.
pub proof fn lemma_column_type_codes(val: u16)
    ensures
        ColumnType::Custom.spec_code() == 0x0000 && column_type_of(0x0000) == ColumnType::Custom,
        ColumnType::Ascii.spec_code() == 0x0001 && column_type_of(0x0001) == ColumnType::Ascii,
        ColumnType::Bigint.spec_code() == 0x0002 && column_type_of(0x0002) == ColumnType::Bigint,
        ColumnType::Blob.spec_code() == 0x0003 && column_type_of(0x0003) == ColumnType::Blob,
        ColumnType::Boolean.spec_code() == 0x0004 && column_type_of(0x0004) == ColumnType::Boolean,
        ColumnType::Counter.spec_code() == 0x0005 && column_type_of(0x0005) == ColumnType::Counter,
        ColumnType::Decimal.spec_code() == 0x0006 && column_type_of(0x0006) == ColumnType::Decimal,
        ColumnType::Double.spec_code() == 0x0007 && column_type_of(0x0007) == ColumnType::Double,
        ColumnType::Float.spec_code() == 0x0008 && column_type_of(0x0008) == ColumnType::Float,
        ColumnType::Int.spec_code() == 0x0009 && column_type_of(0x0009) == ColumnType::Int,
        ColumnType::Text.spec_code() == 0x000A && column_type_of(0x000A) == ColumnType::Text,
        ColumnType::Timestamp.spec_code() == 0x000B && column_type_of(0x000B) == ColumnType::Timestamp,
        ColumnType::UUID.spec_code() == 0x000C && column_type_of(0x000C) == ColumnType::UUID,
        ColumnType::VarChar.spec_code() == 0x000D && column_type_of(0x000D) == ColumnType::VarChar,
        ColumnType::Varint.spec_code() == 0x000E && column_type_of(0x000E) == ColumnType::Varint,
        ColumnType::TimeUUID.spec_code() == 0x000F && column_type_of(0x000F) == ColumnType::TimeUUID,
        ColumnType::Inet.spec_code() == 0x0010 && column_type_of(0x0010) == ColumnType::Inet,
        ColumnType::List.spec_code() == 0x0020 && column_type_of(0x0020) == ColumnType::List,
        ColumnType::CqlMap.spec_code() == 0x0021 && column_type_of(0x0021) == ColumnType::CqlMap,
        ColumnType::CqlSet.spec_code() == 0x0022 && column_type_of(0x0022) == ColumnType::CqlSet,
        ColumnType::Unknown.spec_code() == 0xFFFF,
        (0x0010 < val < 0x0020 || val > 0x0022) ==> column_type_of(val) == ColumnType::Unknown,
{
}

/// Every column type is decoded back from its code, and a code that decodes
/// to a known type is that type's code.
pub proof fn lemma_column_type_roundtrip(t: ColumnType, val: u16)
    ensures
        column_type_of(t.spec_code()) == t,
        column_type_of(val) != ColumnType::Unknown ==> column_type_of(val).spec_code() == val,
{
}

/// The opcode of a request frame.
#[derive(Clone, Copy, Debug, PartialEq, Eq, Structural)]
pub enum OpcodeReq {
    Startup,
    Cred,
    Opts,
    Query,
    Prepare,
    Register,
}

impl OpcodeReq {
    /// The wire code of a request opcode.
    pub open spec fn spec_code(self) -> u8 {
        match self {
            OpcodeReq::Startup => 0x01,
            OpcodeReq::Cred => 0x04,
            OpcodeReq::Opts => 0x05,
            OpcodeReq::Query => 0x07,
            OpcodeReq::Prepare => 0x09,
            OpcodeReq::Register => 0x0B,
        }
    }

    /// The wire code of this request opcode.
    pub fn code(&self) -> (c: u8)
        ensures
            c == self.spec_code(),
    {
        match self {
            OpcodeReq::Startup => 0x01,
            OpcodeReq::Cred => 0x04,
            OpcodeReq::Opts => 0x05,
            OpcodeReq::Query => 0x07,
            OpcodeReq::Prepare => 0x09,
            OpcodeReq::Register => 0x0B,
        }
    }
}

/// The opcode of a response frame.
#[derive(Clone, Copy, Debug, PartialEq, Eq, Structural)]
pub enum OpcodeResp {
    Error,
    Ready,
    Auth,
    Supported,
    Result,
    Exec,
    Event,
}

impl OpcodeResp {
    /// The wire code of a response opcode.
    pub open spec fn spec_code(self) -> u8 {
        match self {
            OpcodeResp::Error => 0x00,
            OpcodeResp::Ready => 0x02,
            OpcodeResp::Auth => 0x03,
            OpcodeResp::Supported => 0x06,
            OpcodeResp::Result => 0x08,
            OpcodeResp::Exec => 0x0A,
            OpcodeResp::Event => 0x0C,
        }
    }

    /// The wire code of this response opcode.
    pub fn code(&self) -> (c: u8)
        ensures
            c == self.spec_code(),
    {
        match self {
            OpcodeResp::Error => 0x00,
            OpcodeResp::Ready => 0x02,
            OpcodeResp::Auth => 0x03,
            OpcodeResp::Supported => 0x06,
            OpcodeResp::Result => 0x08,
            OpcodeResp::Exec => 0x0A,
            OpcodeResp::Event => 0x0C,
        }
    }
}

/// The response opcode that a byte names; bytes that name no response
/// opcode (request opcodes among them) are read as `Error`.
pub open spec fn opcode_of(val: u8) -> OpcodeResp {
    match val {
        0x00 => OpcodeResp::Error,
        0x02 => OpcodeResp::Ready,
        0x03 => OpcodeResp::Auth,
        0x06 => OpcodeResp::Supported,
        0x08 => OpcodeResp::Result,
        0x0A => OpcodeResp::Exec,
        0x0C => OpcodeResp::Event,
        _ => OpcodeResp::Error,
    }
}

/// Decodes a response opcode.
pub fn opcode(val: u8) -> (op: OpcodeResp)
    ensures
        op == opcode_of(val),
{
    match val {
        0x00 => OpcodeResp::Error,
        0x02 => OpcodeResp::Ready,
        0x03 => OpcodeResp::Auth,
        0x06 => OpcodeResp::Supported,
        0x08 => OpcodeResp::Result,
        0x0A => OpcodeResp::Exec,
        0x0C => OpcodeResp::Event,
        _ => OpcodeResp::Error,
    }
}

/// The protocol's opcodes: requests STARTUP 0x01, CREDENTIALS 0x04,
/// OPTIONS 0x05, QUERY 0x07, PREPARE 0x09, REGISTER 0x0B; responses ERROR
/// 0x00, READY 0x02, AUTHENTICATE 0x03, SUPPORTED 0x06, RESULT 0x08,
/// EXECUTE 0x0A, EVENT 0x0C. A byte that names no response opcode decodes as
/// `Error`.
pub proof fn lemma_opcode_codes(val: u8)
    ensures
        OpcodeReq::Startup.spec_code() == 0x01,
        OpcodeReq::Cred.spec_code() == 0x04,
        OpcodeReq::Opts.spec_code() == 0x05,
        OpcodeReq::Query.spec_code() == 0x07,
        OpcodeReq::Prepare.spec_code() == 0x09,
        OpcodeReq::Register.spec_code() == 0x0B,
        OpcodeResp::Error.spec_code() == 0x00 && opcode_of(0x00) == OpcodeResp::Error,
        OpcodeResp::Ready.spec_code() == 0x02 && opcode_of(0x02) == OpcodeResp::Ready,
        OpcodeResp::Auth.spec_code() == 0x03 && opcode_of(0x03) == OpcodeResp::Auth,
        OpcodeResp::Supported.spec_code() == 0x06 && opcode_of(0x06) == OpcodeResp::Supported,
        OpcodeResp::Result.spec_code() == 0x08 && opcode_of(0x08) == OpcodeResp::Result,
        OpcodeResp::Exec.spec_code() == 0x0A && opcode_of(0x0A) == OpcodeResp::Exec,
        OpcodeResp::Event.spec_code() == 0x0C && opcode_of(0x0C) == OpcodeResp::Event,
        (val == 0x01 || val == 0x04 || val == 0x05 || val == 0x07 || val == 0x09 || val == 0x0B || val > 0x0C)
            ==> opcode_of(val) == OpcodeResp::Error,
{
}

/// Every response opcode is decoded back from its code, and a byte that
/// decodes to an opcode other than `Error` is that opcode's code.
pub proof fn lemma_opcode_roundtrip(op: OpcodeResp, val: u8)
    ensures
        opcode_of(op.spec_code()) == op,
        opcode_of(val) != OpcodeResp::Error ==> opcode_of(val).spec_code() == val,
{
}

} // verus!
