//! The constant table: every MPI constant as a value that is resolved from
//! the indirection library when it is first asked for, and served from a memo
//! from then on.
//!
//! The bits of a handle or a sentinel depend on the installed vendor, so
//! none of them is known before the library is open. The table holds what has
//! been read so far. For a constant that it lacks it asks its caller to read
//! the value that the library exports under the constant's symbol; it keeps
//! the first value read for a constant and hands it out unchanged from then
//! on. An accessor answers `None` for a constant that has yet to be resolved.
//!
//! The code of success is no such constant. It is 0 under every vendor, so
//! `RSMPI_SUCCESS_fn` needs neither the table nor a library.

use crate::types::{
    MPI_Comm, MPI_Datatype, MPI_Errhandler, MPI_File, MPI_Group, MPI_Info, MPI_Message, MPI_Op,
    MPI_Request, MPI_Win, StatusAddress,
};
use vstd::prelude::*;

verus! {

/// Number of constants in the table.
pub const CONSTANT_COUNT: usize = 60;

/// What sort of value a constant is.
#[derive(Clone, Copy, Debug, PartialEq, Eq, Structural)]
pub enum ConstantKind {
    /// The handle of an MPI object.
    Handle,
    /// A C `int`.
    Int,
    /// The address of a status record.
    Address,
}

/// The value of a constant, as read from the library.
#[derive(Clone, Copy, Debug, PartialEq, Eq, Structural)]
pub enum ConstantValue {
    Handle(usize),
    Int(i32),
    Address(usize),
}

impl ConstantValue {
    /// The sort of the value.
    pub open spec fn spec_kind(self) -> ConstantKind {
        match self {
            ConstantValue::Handle(_) => ConstantKind::Handle,
            ConstantValue::Int(_) => ConstantKind::Int,
            ConstantValue::Address(_) => ConstantKind::Address,
        }
    }

    /// The sort of the value.
    #[verifier::when_used_as_spec(spec_kind)]
    pub fn kind(self) -> (kind: ConstantKind)
        ensures
            kind == self.spec_kind(),
    {
        match self {
            ConstantValue::Handle(_) => ConstantKind::Handle,
            ConstantValue::Int(_) => ConstantKind::Int,
            ConstantValue::Address(_) => ConstantKind::Address,
        }
    }
}

/// The constants of the ABI.
#[derive(Clone, Copy, Debug, PartialEq, Eq, Structural)]
pub enum Constant {
    /// The datatype of a C `bool`.
    CBool,
    /// The datatype of a single-precision float.
    Float,
    /// The datatype of a double-precision float.
    Double,
    /// The datatype of a signed 8-bit integer.
    Int8,
    /// The datatype of a signed 16-bit integer.
    Int16,
    /// The datatype of a signed 32-bit integer.
    Int32,
    /// The datatype of a signed 64-bit integer.
    Int64,
    /// The datatype of an unsigned 8-bit integer.
    Uint8,
    /// The datatype of an unsigned 16-bit integer.
    Uint16,
    /// The datatype of an unsigned 32-bit integer.
    Uint32,
    /// The datatype of an unsigned 64-bit integer.
    Uint64,
    /// The datatype of a single-precision complex number.
    FloatComplex,
    /// The datatype of a double-precision complex number.
    DoubleComplex,
    /// The null datatype.
    DatatypeNull,
    /// The communicator of all processes.
    CommWorld,
    /// The null communicator.
    CommNull,
    /// The communicator of the calling process alone.
    CommSelf,
    /// The split type for processes that share memory.
    CommTypeShared,
    /// The empty group.
    GroupEmpty,
    /// The null group.
    GroupNull,
    /// The value that stands for "undefined".
    Undefined,
    /// The rank of the null process.
    ProcNull,
    /// The rank that matches any sender.
    AnySource,
    /// The tag that matches any tag.
    AnyTag,
    /// The null message.
    MessageNull,
    /// The message matched from the null process.
    MessageNoProc,
    /// The null request.
    RequestNull,
    /// The address that tells a call to fill in no status.
    StatusIgnore,
    /// The address that tells a call to fill in no array of statuses.
    StatusesIgnore,
    /// The comparison result "identical".
    Ident,
    /// The comparison result "congruent".
    Congruent,
    /// The comparison result "similar".
    Similar,
    /// The comparison result "unequal".
    Unequal,
    /// The threading level "single".
    ThreadSingle,
    /// The threading level "funneled".
    ThreadFunneled,
    /// The threading level "serialized".
    ThreadSerialized,
    /// The threading level "multiple".
    ThreadMultiple,
    /// The topology code of a graph.
    Graph,
    /// The topology code of a Cartesian grid.
    Cart,
    /// The topology code of a distributed graph.
    DistGraph,
    /// The greatest length of the library version string.
    MaxLibraryVersionString,
    /// The greatest length of a processor name.
    MaxProcessorName,
    /// The operation "maximum".
    Max,
    /// The operation "minimum".
    Min,
    /// The operation "sum".
    Sum,
    /// The operation "product".
    Prod,
    /// The operation "logical and".
    Land,
    /// The operation "bitwise and".
    Band,
    /// The operation "logical or".
    Lor,
    /// The operation "bitwise or".
    Bor,
    /// The operation "logical exclusive or".
    Lxor,
    /// The operation "bitwise exclusive or".
    Bxor,
    /// The error handler that ends the program.
    ErrorsAreFatal,
    /// The error handler that returns the error code.
    ErrorsReturn,
    /// The null file.
    FileNull,
    /// The null info object.
    InfoNull,
    /// The null window.
    WinNull,
    /// The attribute key of the universe size.
    UniverseSize,
    /// The attribute key of the application number.
    Appnum,
    /// The greatest length of the name of an object.
    MaxObjectName,
}

impl Constant {
    /// The place of the constant in the table, below `CONSTANT_COUNT`.
    pub open spec fn spec_index(self) -> usize {
        match self {
            Constant::CBool => 0,
            Constant::Float => 1,
            Constant::Double => 2,
            Constant::Int8 => 3,
            Constant::Int16 => 4,
            Constant::Int32 => 5,
            Constant::Int64 => 6,
            Constant::Uint8 => 7,
            Constant::Uint16 => 8,
            Constant::Uint32 => 9,
            Constant::Uint64 => 10,
            Constant::FloatComplex => 11,
            Constant::DoubleComplex => 12,
            Constant::DatatypeNull => 13,
            Constant::CommWorld => 14,
            Constant::CommNull => 15,
            Constant::CommSelf => 16,
            Constant::CommTypeShared => 17,
            Constant::GroupEmpty => 18,
            Constant::GroupNull => 19,
            Constant::Undefined => 20,
            Constant::ProcNull => 21,
            Constant::AnySource => 22,
            Constant::AnyTag => 23,
            Constant::MessageNull => 24,
            Constant::MessageNoProc => 25,
            Constant::RequestNull => 26,
            Constant::StatusIgnore => 27,
            Constant::StatusesIgnore => 28,
            Constant::Ident => 29,
            Constant::Congruent => 30,
            Constant::Similar => 31,
            Constant::Unequal => 32,
            Constant::ThreadSingle => 33,
            Constant::ThreadFunneled => 34,
            Constant::ThreadSerialized => 35,
            Constant::ThreadMultiple => 36,
            Constant::Graph => 37,
            Constant::Cart => 38,
            Constant::DistGraph => 39,
            Constant::MaxLibraryVersionString => 40,
            Constant::MaxProcessorName => 41,
            Constant::Max => 42,
            Constant::Min => 43,
            Constant::Sum => 44,
            Constant::Prod => 45,
            Constant::Land => 46,
            Constant::Band => 47,
            Constant::Lor => 48,
            Constant::Bor => 49,
            Constant::Lxor => 50,
            Constant::Bxor => 51,
            Constant::ErrorsAreFatal => 52,
            Constant::ErrorsReturn => 53,
            Constant::FileNull => 54,
            Constant::InfoNull => 55,
            Constant::WinNull => 56,
            Constant::UniverseSize => 57,
            Constant::Appnum => 58,
            Constant::MaxObjectName => 59,
        }
    }

    /// The place of the constant in the table.
    #[verifier::when_used_as_spec(spec_index)]
    pub fn index(self) -> (index: usize)
        ensures
            index == self.spec_index(),
            index < CONSTANT_COUNT,
    {
        match self {
            Constant::CBool => 0,
            Constant::Float => 1,
            Constant::Double => 2,
            Constant::Int8 => 3,
            Constant::Int16 => 4,
            Constant::Int32 => 5,
            Constant::Int64 => 6,
            Constant::Uint8 => 7,
            Constant::Uint16 => 8,
            Constant::Uint32 => 9,
            Constant::Uint64 => 10,
            Constant::FloatComplex => 11,
            Constant::DoubleComplex => 12,
            Constant::DatatypeNull => 13,
            Constant::CommWorld => 14,
            Constant::CommNull => 15,
            Constant::CommSelf => 16,
            Constant::CommTypeShared => 17,
            Constant::GroupEmpty => 18,
            Constant::GroupNull => 19,
            Constant::Undefined => 20,
            Constant::ProcNull => 21,
            Constant::AnySource => 22,
            Constant::AnyTag => 23,
            Constant::MessageNull => 24,
            Constant::MessageNoProc => 25,
            Constant::RequestNull => 26,
            Constant::StatusIgnore => 27,
            Constant::StatusesIgnore => 28,
            Constant::Ident => 29,
            Constant::Congruent => 30,
            Constant::Similar => 31,
            Constant::Unequal => 32,
            Constant::ThreadSingle => 33,
            Constant::ThreadFunneled => 34,
            Constant::ThreadSerialized => 35,
            Constant::ThreadMultiple => 36,
            Constant::Graph => 37,
            Constant::Cart => 38,
            Constant::DistGraph => 39,
            Constant::MaxLibraryVersionString => 40,
            Constant::MaxProcessorName => 41,
            Constant::Max => 42,
            Constant::Min => 43,
            Constant::Sum => 44,
            Constant::Prod => 45,
            Constant::Land => 46,
            Constant::Band => 47,
            Constant::Lor => 48,
            Constant::Bor => 49,
            Constant::Lxor => 50,
            Constant::Bxor => 51,
            Constant::ErrorsAreFatal => 52,
            Constant::ErrorsReturn => 53,
            Constant::FileNull => 54,
            Constant::InfoNull => 55,
            Constant::WinNull => 56,
            Constant::UniverseSize => 57,
            Constant::Appnum => 58,
            Constant::MaxObjectName => 59,
        }
    }

    /// The sort of value that the constant has.
    pub open spec fn spec_kind(self) -> ConstantKind {
        match self {
            Constant::CommTypeShared
            | Constant::Undefined
            | Constant::ProcNull
            | Constant::AnySource
            | Constant::AnyTag
            | Constant::Ident
            | Constant::Congruent
            | Constant::Similar
            | Constant::Unequal
            | Constant::ThreadSingle
            | Constant::ThreadFunneled
            | Constant::ThreadSerialized
            | Constant::ThreadMultiple
            | Constant::Graph
            | Constant::Cart
            | Constant::DistGraph
            | Constant::MaxLibraryVersionString
            | Constant::MaxProcessorName
            | Constant::UniverseSize
            | Constant::Appnum
            | Constant::MaxObjectName => ConstantKind::Int,
            Constant::StatusIgnore
            | Constant::StatusesIgnore => ConstantKind::Address,
            _ => ConstantKind::Handle,
        }
    }

    /// The sort of value that the constant has: what to read at its symbol.
    #[verifier::when_used_as_spec(spec_kind)]
    pub fn kind(self) -> (kind: ConstantKind)
        ensures
            kind == self.spec_kind(),
    {
        match self {
            Constant::CommTypeShared
            | Constant::Undefined
            | Constant::ProcNull
            | Constant::AnySource
            | Constant::AnyTag
            | Constant::Ident
            | Constant::Congruent
            | Constant::Similar
            | Constant::Unequal
            | Constant::ThreadSingle
            | Constant::ThreadFunneled
            | Constant::ThreadSerialized
            | Constant::ThreadMultiple
            | Constant::Graph
            | Constant::Cart
            | Constant::DistGraph
            | Constant::MaxLibraryVersionString
            | Constant::MaxProcessorName
            | Constant::UniverseSize
            | Constant::Appnum
            | Constant::MaxObjectName => ConstantKind::Int,
            Constant::StatusIgnore
            | Constant::StatusesIgnore => ConstantKind::Address,
            _ => ConstantKind::Handle,
        }
    }

    /// The name of the symbol under which the library exports the constant.
    pub open spec fn symbol_name(self) -> Seq<char> {
        match self {
            Constant::CBool => "RSMPI_C_BOOL"@,
            Constant::Float => "RSMPI_FLOAT"@,
            Constant::Double => "RSMPI_DOUBLE"@,
            Constant::Int8 => "RSMPI_INT8_T"@,
            Constant::Int16 => "RSMPI_INT16_T"@,
            Constant::Int32 => "RSMPI_INT32_T"@,
            Constant::Int64 => "RSMPI_INT64_T"@,
            Constant::Uint8 => "RSMPI_UINT8_T"@,
            Constant::Uint16 => "RSMPI_UINT16_T"@,
            Constant::Uint32 => "RSMPI_UINT32_T"@,
            Constant::Uint64 => "RSMPI_UINT64_T"@,
            Constant::FloatComplex => "RSMPI_FLOAT_COMPLEX"@,
            Constant::DoubleComplex => "RSMPI_DOUBLE_COMPLEX"@,
            Constant::DatatypeNull => "RSMPI_DATATYPE_NULL"@,
            Constant::CommWorld => "RSMPI_COMM_WORLD"@,
            Constant::CommNull => "RSMPI_COMM_NULL"@,
            Constant::CommSelf => "RSMPI_COMM_SELF"@,
            Constant::CommTypeShared => "RSMPI_COMM_TYPE_SHARED"@,
            Constant::GroupEmpty => "RSMPI_GROUP_EMPTY"@,
            Constant::GroupNull => "RSMPI_GROUP_NULL"@,
            Constant::Undefined => "RSMPI_UNDEFINED"@,
            Constant::ProcNull => "RSMPI_PROC_NULL"@,
            Constant::AnySource => "RSMPI_ANY_SOURCE"@,
            Constant::AnyTag => "RSMPI_ANY_TAG"@,
            Constant::MessageNull => "RSMPI_MESSAGE_NULL"@,
            Constant::MessageNoProc => "RSMPI_MESSAGE_NO_PROC"@,
            Constant::RequestNull => "RSMPI_REQUEST_NULL"@,
            Constant::StatusIgnore => "RSMPI_STATUS_IGNORE"@,
            Constant::StatusesIgnore => "RSMPI_STATUSES_IGNORE"@,
            Constant::Ident => "RSMPI_IDENT"@,
            Constant::Congruent => "RSMPI_CONGRUENT"@,
            Constant::Similar => "RSMPI_SIMILAR"@,
            Constant::Unequal => "RSMPI_UNEQUAL"@,
            Constant::ThreadSingle => "RSMPI_THREAD_SINGLE"@,
            Constant::ThreadFunneled => "RSMPI_THREAD_FUNNELED"@,
            Constant::ThreadSerialized => "RSMPI_THREAD_SERIALIZED"@,
            Constant::ThreadMultiple => "RSMPI_THREAD_MULTIPLE"@,
            Constant::Graph => "RSMPI_GRAPH"@,
            Constant::Cart => "RSMPI_CART"@,
            Constant::DistGraph => "RSMPI_DIST_GRAPH"@,
            Constant::MaxLibraryVersionString => "RSMPI_MAX_LIBRARY_VERSION_STRING"@,
            Constant::MaxProcessorName => "RSMPI_MAX_PROCESSOR_NAME"@,
            Constant::Max => "RSMPI_MAX"@,
            Constant::Min => "RSMPI_MIN"@,
            Constant::Sum => "RSMPI_SUM"@,
            Constant::Prod => "RSMPI_PROD"@,
            Constant::Land => "RSMPI_LAND"@,
            Constant::Band => "RSMPI_BAND"@,
            Constant::Lor => "RSMPI_LOR"@,
            Constant::Bor => "RSMPI_BOR"@,
            Constant::Lxor => "RSMPI_LXOR"@,
            Constant::Bxor => "RSMPI_BXOR"@,
            Constant::ErrorsAreFatal => "RSMPI_ERRORS_ARE_FATAL"@,
            Constant::ErrorsReturn => "RSMPI_ERRORS_RETURN"@,
            Constant::FileNull => "RSMPI_FILE_NULL"@,
            Constant::InfoNull => "RSMPI_INFO_NULL"@,
            Constant::WinNull => "RSMPI_WIN_NULL"@,
            Constant::UniverseSize => "MPI_UNIVERSE_SIZE"@,
            Constant::Appnum => "MPI_APPNUM"@,
            Constant::MaxObjectName => "MPI_MAX_OBJECT_NAME"@,
        }
    }

    /// The name of the symbol under which the library exports the constant.
    pub fn symbol(self) -> (name: &'static str)
        ensures
            name@ == self.symbol_name(),
    {
        match self {
            Constant::CBool => "RSMPI_C_BOOL",
            Constant::Float => "RSMPI_FLOAT",
            Constant::Double => "RSMPI_DOUBLE",
            Constant::Int8 => "RSMPI_INT8_T",
            Constant::Int16 => "RSMPI_INT16_T",
            Constant::Int32 => "RSMPI_INT32_T",
            Constant::Int64 => "RSMPI_INT64_T",
            Constant::Uint8 => "RSMPI_UINT8_T",
            Constant::Uint16 => "RSMPI_UINT16_T",
            Constant::Uint32 => "RSMPI_UINT32_T",
            Constant::Uint64 => "RSMPI_UINT64_T",
            Constant::FloatComplex => "RSMPI_FLOAT_COMPLEX",
            Constant::DoubleComplex => "RSMPI_DOUBLE_COMPLEX",
            Constant::DatatypeNull => "RSMPI_DATATYPE_NULL",
            Constant::CommWorld => "RSMPI_COMM_WORLD",
            Constant::CommNull => "RSMPI_COMM_NULL",
            Constant::CommSelf => "RSMPI_COMM_SELF",
            Constant::CommTypeShared => "RSMPI_COMM_TYPE_SHARED",
            Constant::GroupEmpty => "RSMPI_GROUP_EMPTY",
            Constant::GroupNull => "RSMPI_GROUP_NULL",
            Constant::Undefined => "RSMPI_UNDEFINED",
            Constant::ProcNull => "RSMPI_PROC_NULL",
            Constant::AnySource => "RSMPI_ANY_SOURCE",
            Constant::AnyTag => "RSMPI_ANY_TAG",
            Constant::MessageNull => "RSMPI_MESSAGE_NULL",
            Constant::MessageNoProc => "RSMPI_MESSAGE_NO_PROC",
            Constant::RequestNull => "RSMPI_REQUEST_NULL",
            Constant::StatusIgnore => "RSMPI_STATUS_IGNORE",
            Constant::StatusesIgnore => "RSMPI_STATUSES_IGNORE",
            Constant::Ident => "RSMPI_IDENT",
            Constant::Congruent => "RSMPI_CONGRUENT",
            Constant::Similar => "RSMPI_SIMILAR",
            Constant::Unequal => "RSMPI_UNEQUAL",
            Constant::ThreadSingle => "RSMPI_THREAD_SINGLE",
            Constant::ThreadFunneled => "RSMPI_THREAD_FUNNELED",
            Constant::ThreadSerialized => "RSMPI_THREAD_SERIALIZED",
            Constant::ThreadMultiple => "RSMPI_THREAD_MULTIPLE",
            Constant::Graph => "RSMPI_GRAPH",
            Constant::Cart => "RSMPI_CART",
            Constant::DistGraph => "RSMPI_DIST_GRAPH",
            Constant::MaxLibraryVersionString => "RSMPI_MAX_LIBRARY_VERSION_STRING",
            Constant::MaxProcessorName => "RSMPI_MAX_PROCESSOR_NAME",
            Constant::Max => "RSMPI_MAX",
            Constant::Min => "RSMPI_MIN",
            Constant::Sum => "RSMPI_SUM",
            Constant::Prod => "RSMPI_PROD",
            Constant::Land => "RSMPI_LAND",
            Constant::Band => "RSMPI_BAND",
            Constant::Lor => "RSMPI_LOR",
            Constant::Bor => "RSMPI_BOR",
            Constant::Lxor => "RSMPI_LXOR",
            Constant::Bxor => "RSMPI_BXOR",
            Constant::ErrorsAreFatal => "RSMPI_ERRORS_ARE_FATAL",
            Constant::ErrorsReturn => "RSMPI_ERRORS_RETURN",
            Constant::FileNull => "RSMPI_FILE_NULL",
            Constant::InfoNull => "RSMPI_INFO_NULL",
            Constant::WinNull => "RSMPI_WIN_NULL",
            Constant::UniverseSize => "MPI_UNIVERSE_SIZE",
            Constant::Appnum => "MPI_APPNUM",
            Constant::MaxObjectName => "MPI_MAX_OBJECT_NAME",
        }
    }
}

/// No two constants share a place in the table.
pub proof fn lemma_index_is_one_to_one(a: Constant, b: Constant)
    requires
        a.index() == b.index(),
    ensures
        a == b,
{
}

/// No two constants share a symbol: a symbol's name tells which constant is
/// read there.
pub proof fn lemma_symbol_is_one_to_one(a: Constant, b: Constant)
    requires
        a.symbol_name() == b.symbol_name(),
    ensures
        a == b,
{
    let s = a.symbol_name();
    let t = b.symbol_name();
    reveal_strlit("RSMPI_C_BOOL");
    reveal_strlit("RSMPI_FLOAT");
    reveal_strlit("RSMPI_DOUBLE");
    reveal_strlit("RSMPI_INT8_T");
    reveal_strlit("RSMPI_INT16_T");
    reveal_strlit("RSMPI_INT32_T");
    reveal_strlit("RSMPI_INT64_T");
    reveal_strlit("RSMPI_UINT8_T");
    reveal_strlit("RSMPI_UINT16_T");
    reveal_strlit("RSMPI_UINT32_T");
    reveal_strlit("RSMPI_UINT64_T");
    reveal_strlit("RSMPI_FLOAT_COMPLEX");
    reveal_strlit("RSMPI_DOUBLE_COMPLEX");
    reveal_strlit("RSMPI_DATATYPE_NULL");
    reveal_strlit("RSMPI_COMM_WORLD");
    reveal_strlit("RSMPI_COMM_NULL");
    reveal_strlit("RSMPI_COMM_SELF");
    reveal_strlit("RSMPI_COMM_TYPE_SHARED");
    reveal_strlit("RSMPI_GROUP_EMPTY");
    reveal_strlit("RSMPI_GROUP_NULL");
    reveal_strlit("RSMPI_UNDEFINED");
    reveal_strlit("RSMPI_PROC_NULL");
    reveal_strlit("RSMPI_ANY_SOURCE");
    reveal_strlit("RSMPI_ANY_TAG");
    reveal_strlit("RSMPI_MESSAGE_NULL");
    reveal_strlit("RSMPI_MESSAGE_NO_PROC");
    reveal_strlit("RSMPI_REQUEST_NULL");
    reveal_strlit("RSMPI_STATUS_IGNORE");
    reveal_strlit("RSMPI_STATUSES_IGNORE");
    reveal_strlit("RSMPI_IDENT");
    reveal_strlit("RSMPI_CONGRUENT");
    reveal_strlit("RSMPI_SIMILAR");
    reveal_strlit("RSMPI_UNEQUAL");
    reveal_strlit("RSMPI_THREAD_SINGLE");
    reveal_strlit("RSMPI_THREAD_FUNNELED");
    reveal_strlit("RSMPI_THREAD_SERIALIZED");
    reveal_strlit("RSMPI_THREAD_MULTIPLE");
    reveal_strlit("RSMPI_GRAPH");
    reveal_strlit("RSMPI_CART");
    reveal_strlit("RSMPI_DIST_GRAPH");
    reveal_strlit("RSMPI_MAX_LIBRARY_VERSION_STRING");
    reveal_strlit("RSMPI_MAX_PROCESSOR_NAME");
    reveal_strlit("RSMPI_MAX");
    reveal_strlit("RSMPI_MIN");
    reveal_strlit("RSMPI_SUM");
    reveal_strlit("RSMPI_PROD");
    reveal_strlit("RSMPI_LAND");
    reveal_strlit("RSMPI_BAND");
    reveal_strlit("RSMPI_LOR");
    reveal_strlit("RSMPI_BOR");
    reveal_strlit("RSMPI_LXOR");
    reveal_strlit("RSMPI_BXOR");
    reveal_strlit("RSMPI_ERRORS_ARE_FATAL");
    reveal_strlit("RSMPI_ERRORS_RETURN");
    reveal_strlit("RSMPI_FILE_NULL");
    reveal_strlit("RSMPI_INFO_NULL");
    reveal_strlit("RSMPI_WIN_NULL");
    reveal_strlit("MPI_UNIVERSE_SIZE");
    reveal_strlit("MPI_APPNUM");
    reveal_strlit("MPI_MAX_OBJECT_NAME");
    assert(s.len() == t.len());
    assert(s[0] == t[0]);
    assert(s[1] == t[1]);
    assert(s[2] == t[2]);
    assert(s[3] == t[3]);
    assert(s[4] == t[4]);
    assert(s[5] == t[5]);
    assert(s[6] == t[6]);
    assert(s[7] == t[7]);
    assert(s[8] == t[8]);
    assert(s[9] == t[9]);
    assert(s[10] == t[10]);
    assert(s[11] == t[11]);
    assert(s[12] == t[12]);
    assert(s[13] == t[13]);
    assert(s[14] == t[14]);
    assert(s[15] == t[15]);
    assert(s[16] == t[16]);
    assert(s[17] == t[17]);
    assert(s[18] == t[18]);
    assert(s[19] == t[19]);
    assert(s[20] == t[20]);
    assert(s[21] == t[21]);
    assert(s[22] == t[22]);
    assert(s[23] == t[23]);
    assert(s[24] == t[24]);
    assert(s[25] == t[25]);
    assert(s[26] == t[26]);
    assert(s[27] == t[27]);
    assert(s[28] == t[28]);
    assert(s[29] == t[29]);
    assert(s[30] == t[30]);
    assert(s[31] == t[31]);
}

/// What has just happened, as far as one constant is concerned.
#[derive(Clone, Copy, Debug, PartialEq, Eq, Structural)]
pub enum ConstantEvent {
    /// A caller asks for the constant.
    Requested,
    /// This value was read at the constant's symbol.
    Read(ConstantValue),
}

/// What the caller has to do next to get a constant.
#[derive(Clone, Copy, Debug, PartialEq, Eq)]
pub enum ConstantAction {
    /// Use this value.
    Use(ConstantValue),
    /// Read a value of this sort at this symbol of the library.
    Read { symbol: &'static str, kind: ConstantKind },
}

/// A `ConstantAction` as plain values.
pub enum ConstantActionView {
    Use(ConstantValue),
    Read { symbol: Seq<char>, kind: ConstantKind },
}

impl View for ConstantAction {
    type V = ConstantActionView;

    open spec fn view(&self) -> ConstantActionView {
        match self {
            ConstantAction::Use(value) => ConstantActionView::Use(*value),
            ConstantAction::Read { symbol, kind } => ConstantActionView::Read {
                symbol: symbol@,
                kind: *kind,
            },
        }
    }
}

/// The request to read a constant: under its symbol, as a value of its sort.
pub open spec fn read_request(constant: Constant) -> ConstantActionView {
    ConstantActionView::Read { symbol: constant.symbol_name(), kind: constant.kind() }
}

/// What a step towards `constant` makes of a table, and what it asks for.
///
/// A constant that is in the table is answered from the table, whatever the
/// event says, and the table stays as it is. One that is not there takes the
/// value read for it, if that is of the constant's sort. Otherwise the table
/// stays as it is and the value is to be read.
pub open spec fn resolve_in(
    table: Map<Constant, ConstantValue>,
    constant: Constant,
    event: ConstantEvent,
) -> (Map<Constant, ConstantValue>, ConstantActionView) {
    if table.contains_key(constant) {
        (table, ConstantActionView::Use(table[constant]))
    } else {
        match event {
            ConstantEvent::Requested => (table, read_request(constant)),
            ConstantEvent::Read(value) => if value.kind() == constant.kind() {
                (table.insert(constant, value), ConstantActionView::Use(value))
            } else {
                (table, read_request(constant))
            },
        }
    }
}

/// The handle that a table has for a constant.
pub open spec fn handle_in(table: Map<Constant, ConstantValue>, constant: Constant) -> Option<
    usize,
> {
    if table.contains_key(constant) {
        match table[constant] {
            ConstantValue::Handle(handle) => Some(handle),
            _ => None,
        }
    } else {
        None
    }
}

/// The C `int` that a table has for a constant.
pub open spec fn integer_in(table: Map<Constant, ConstantValue>, constant: Constant) -> Option<
    i32,
> {
    if table.contains_key(constant) {
        match table[constant] {
            ConstantValue::Int(number) => Some(number),
            _ => None,
        }
    } else {
        None
    }
}

/// The address that a table has for a constant.
pub open spec fn address_in(table: Map<Constant, ConstantValue>, constant: Constant) -> Option<
    usize,
> {
    if table.contains_key(constant) {
        match table[constant] {
            ConstantValue::Address(address) => Some(address),
            _ => None,
        }
    } else {
        None
    }
}

/// The constants resolved so far, each with the value first read for it.
pub struct ConstantTable {
    slots: [Option<ConstantValue>; CONSTANT_COUNT],
}

impl View for ConstantTable {
    type V = Map<Constant, ConstantValue>;

    closed spec fn view(&self) -> Map<Constant, ConstantValue> {
        Map::new(
            |constant: Constant| self.slots@[constant.index() as int] is Some,
            |constant: Constant| self.slots@[constant.index() as int]->0,
        )
    }
}

impl ConstantTable {
    /// Every value in the table is of the sort of its constant.
    #[verifier::type_invariant]
    spec fn sorted(self) -> bool {
        forall|constant: Constant|
            #[trigger] self.slots@[constant.index() as int] matches Some(value) ==> value.kind()
                == constant.kind()
    }

    /// The table of a process that has resolved nothing.
    pub fn new() -> (table: ConstantTable)
        ensures
            table@ == Map::<Constant, ConstantValue>::empty(),
    {
        let table = ConstantTable { slots: [None;CONSTANT_COUNT] };
        assert(table@ =~= Map::<Constant, ConstantValue>::empty());
        table
    }

    /// The value of a constant, if it has been resolved. It is of the
    /// constant's sort.
    pub fn get(&self, constant: Constant) -> (value: Option<ConstantValue>)
        ensures
            value is Some <==> self@.contains_key(constant),
            value matches Some(v) ==> self@[constant] == v && v.kind() == constant.kind(),
    {
        proof {
            use_type_invariant(self);
        }
        self.slots[constant.index()]
    }

    /// Puts a value of the constant's sort in the constant's place, which is
    /// free.
    fn store(&mut self, constant: Constant, value: ConstantValue)
        requires
            !old(self)@.contains_key(constant),
            value.kind() == constant.kind(),
        ensures
            final(self)@ == old(self)@.insert(constant, value),
    {
        let index: usize = constant.index();
        proof {
            use_type_invariant(&*self);
            assert forall|other: Constant| other.index() == index implies other == constant by {
                lemma_index_is_one_to_one(other, constant);
            }
        }
        self.slots[index] = Some(value);
        assert(self@ =~= old(self)@.insert(constant, value));
    }

    /// The request to read a constant.
    fn ask(constant: Constant) -> (action: ConstantAction)
        ensures
            action@ == read_request(constant),
    {
        ConstantAction::Read { symbol: constant.symbol(), kind: constant.kind() }
    }

    /// One step towards the value of a constant: see `resolve_in`. The value
    /// is kept and handed on as it was read: nothing here looks at what it
    /// means.
    pub fn resolve(&mut self, constant: Constant, event: ConstantEvent) -> (action:
        ConstantAction)
        ensures
            (final(self)@, action@) == resolve_in(old(self)@, constant, event),
    {
        match self.get(constant) {
            Some(first) => ConstantAction::Use(first),
            None => match event {
                ConstantEvent::Requested => ConstantTable::ask(constant),
                ConstantEvent::Read(value) => {
                    if value.kind() == constant.kind() {
                        self.store(constant, value);
                        ConstantAction::Use(value)
                    } else {
                        ConstantTable::ask(constant)
                    }
                },
            },
        }
    }

    /// The value of a constant that is a handle: see `handle_in`. A constant
    /// of that sort has one as soon as it is resolved.
    pub fn handle(&self, constant: Constant) -> (handle: Option<usize>)
        ensures
            handle == handle_in(self@, constant),
            constant.kind() == ConstantKind::Handle ==> (handle is Some <==> self@.contains_key(
                constant,
            )),
    {
        proof {
            use_type_invariant(self);
        }
        match self.slots[constant.index()] {
            Some(ConstantValue::Handle(handle)) => Some(handle),
            _ => None,
        }
    }

    /// The value of a constant that is a C `int`: see `integer_in`. A
    /// constant of that sort has one as soon as it is resolved.
    pub fn integer(&self, constant: Constant) -> (number: Option<i32>)
        ensures
            number == integer_in(self@, constant),
            constant.kind() == ConstantKind::Int ==> (number is Some <==> self@.contains_key(
                constant,
            )),
    {
        proof {
            use_type_invariant(self);
        }
        match self.slots[constant.index()] {
            Some(ConstantValue::Int(number)) => Some(number),
            _ => None,
        }
    }

    /// The value of a constant that is an address: see `address_in`. A
    /// constant of that sort has one as soon as it is resolved.
    pub fn address(&self, constant: Constant) -> (address: Option<usize>)
        ensures
            address == address_in(self@, constant),
            constant.kind() == ConstantKind::Address ==> (address is Some
                <==> self@.contains_key(constant)),
    {
        proof {
            use_type_invariant(self);
        }
        match self.slots[constant.index()] {
            Some(ConstantValue::Address(address)) => Some(address),
            _ => None,
        }
    }
}

/// A constant is resolved at most once. After the step that took a value
/// for it, every further step for it gives that value and leaves the table as
/// it is, whatever has been read since: the table is not checked against the
/// library again.
pub proof fn lemma_first_value_stays(
    table: Map<Constant, ConstantValue>,
    constant: Constant,
    value: ConstantValue,
    later: ConstantEvent,
)
    ensures
        ({
            let (after, action) = resolve_in(table, constant, ConstantEvent::Read(value));
            &&& action is Use ==> resolve_in(after, constant, later) == (after, action)
            &&& !table.contains_key(constant) && value.kind() == constant.kind() ==> action
                == ConstantActionView::Use(value)
        }),
{
}

/// A value is used only if it is the one in the table or the one just read,
/// and then it is of the constant's sort.
pub proof fn lemma_value_comes_from_the_library(
    table: Map<Constant, ConstantValue>,
    constant: Constant,
    event: ConstantEvent,
)
    ensures
        resolve_in(table, constant, event).1 matches ConstantActionView::Use(value) ==> {
            if table.contains_key(constant) {
                table[constant] == value
            } else {
                event == ConstantEvent::Read(value) && value.kind() == constant.kind()
            }
        },
{
}

/// A step towards one constant leaves every other constant as it was.
pub proof fn lemma_resolution_spares_the_rest(
    table: Map<Constant, ConstantValue>,
    constant: Constant,
    event: ConstantEvent,
    other: Constant,
)
    requires
        other != constant,
    ensures
        ({
            let after = resolve_in(table, constant, event).0;
            &&& after.contains_key(other) == table.contains_key(other)
            &&& after[other] == table[other]
        }),
{
}

/// The handle of the datatype of a C `bool`, once it is resolved: `None` before that.
pub fn RSMPI_C_BOOL_fn(table: &ConstantTable) -> (value: Option<MPI_Datatype>)
    ensures
        value == handle_in(table@, Constant::CBool),
        value is Some <==> table@.contains_key(Constant::CBool),
{
    table.handle(Constant::CBool)
}

/// The handle of the datatype of a single-precision float, once it is resolved: `None` before that.
pub fn RSMPI_FLOAT_fn(table: &ConstantTable) -> (value: Option<MPI_Datatype>)
    ensures
        value == handle_in(table@, Constant::Float),
        value is Some <==> table@.contains_key(Constant::Float),
{
    table.handle(Constant::Float)
}

/// The handle of the datatype of a double-precision float, once it is resolved: `None` before that.
pub fn RSMPI_DOUBLE_fn(table: &ConstantTable) -> (value: Option<MPI_Datatype>)
    ensures
        value == handle_in(table@, Constant::Double),
        value is Some <==> table@.contains_key(Constant::Double),
{
    table.handle(Constant::Double)
}

/// The handle of the datatype of a signed 8-bit integer, once it is resolved: `None` before that.
pub fn RSMPI_INT8_T_fn(table: &ConstantTable) -> (value: Option<MPI_Datatype>)
    ensures
        value == handle_in(table@, Constant::Int8),
        value is Some <==> table@.contains_key(Constant::Int8),
{
    table.handle(Constant::Int8)
}

/// The handle of the datatype of a signed 16-bit integer, once it is resolved: `None` before that.
pub fn RSMPI_INT16_T_fn(table: &ConstantTable) -> (value: Option<MPI_Datatype>)
    ensures
        value == handle_in(table@, Constant::Int16),
        value is Some <==> table@.contains_key(Constant::Int16),
{
    table.handle(Constant::Int16)
}

/// The handle of the datatype of a signed 32-bit integer, once it is resolved: `None` before that.
pub fn RSMPI_INT32_T_fn(table: &ConstantTable) -> (value: Option<MPI_Datatype>)
    ensures
        value == handle_in(table@, Constant::Int32),
        value is Some <==> table@.contains_key(Constant::Int32),
{
    table.handle(Constant::Int32)
}

/// The handle of the datatype of a signed 64-bit integer, once it is resolved: `None` before that.
pub fn RSMPI_INT64_T_fn(table: &ConstantTable) -> (value: Option<MPI_Datatype>)
    ensures
        value == handle_in(table@, Constant::Int64),
        value is Some <==> table@.contains_key(Constant::Int64),
{
    table.handle(Constant::Int64)
}

/// The handle of the datatype of an unsigned 8-bit integer, once it is resolved: `None` before that.
pub fn RSMPI_UINT8_T_fn(table: &ConstantTable) -> (value: Option<MPI_Datatype>)
    ensures
        value == handle_in(table@, Constant::Uint8),
        value is Some <==> table@.contains_key(Constant::Uint8),
{
    table.handle(Constant::Uint8)
}

/// The handle of the datatype of an unsigned 16-bit integer, once it is resolved: `None` before that.
pub fn RSMPI_UINT16_T_fn(table: &ConstantTable) -> (value: Option<MPI_Datatype>)
    ensures
        value == handle_in(table@, Constant::Uint16),
        value is Some <==> table@.contains_key(Constant::Uint16),
{
    table.handle(Constant::Uint16)
}

/// The handle of the datatype of an unsigned 32-bit integer, once it is resolved: `None` before that.
pub fn RSMPI_UINT32_T_fn(table: &ConstantTable) -> (value: Option<MPI_Datatype>)
    ensures
        value == handle_in(table@, Constant::Uint32),
        value is Some <==> table@.contains_key(Constant::Uint32),
{
    table.handle(Constant::Uint32)
}

/// The handle of the datatype of an unsigned 64-bit integer, once it is resolved: `None` before that.
pub fn RSMPI_UINT64_T_fn(table: &ConstantTable) -> (value: Option<MPI_Datatype>)
    ensures
        value == handle_in(table@, Constant::Uint64),
        value is Some <==> table@.contains_key(Constant::Uint64),
{
    table.handle(Constant::Uint64)
}

/// The handle of the datatype of a single-precision complex number, once it is resolved: `None` before that.
pub fn RSMPI_FLOAT_COMPLEX_fn(table: &ConstantTable) -> (value: Option<MPI_Datatype>)
    ensures
        value == handle_in(table@, Constant::FloatComplex),
        value is Some <==> table@.contains_key(Constant::FloatComplex),
{
    table.handle(Constant::FloatComplex)
}

/// The handle of the datatype of a double-precision complex number, once it is resolved: `None` before that.
pub fn RSMPI_DOUBLE_COMPLEX_fn(table: &ConstantTable) -> (value: Option<MPI_Datatype>)
    ensures
        value == handle_in(table@, Constant::DoubleComplex),
        value is Some <==> table@.contains_key(Constant::DoubleComplex),
{
    table.handle(Constant::DoubleComplex)
}

/// The handle of the null datatype, once it is resolved: `None` before that.
pub fn RSMPI_DATATYPE_NULL_fn(table: &ConstantTable) -> (value: Option<MPI_Datatype>)
    ensures
        value == handle_in(table@, Constant::DatatypeNull),
        value is Some <==> table@.contains_key(Constant::DatatypeNull),
{
    table.handle(Constant::DatatypeNull)
}

/// The handle of the communicator of all processes, once it is resolved: `None` before that.
pub fn RSMPI_COMM_WORLD_fn(table: &ConstantTable) -> (value: Option<MPI_Comm>)
    ensures
        value == handle_in(table@, Constant::CommWorld),
        value is Some <==> table@.contains_key(Constant::CommWorld),
{
    table.handle(Constant::CommWorld)
}

/// The handle of the null communicator, once it is resolved: `None` before that.
pub fn RSMPI_COMM_NULL_fn(table: &ConstantTable) -> (value: Option<MPI_Comm>)
    ensures
        value == handle_in(table@, Constant::CommNull),
        value is Some <==> table@.contains_key(Constant::CommNull),
{
    table.handle(Constant::CommNull)
}

/// The handle of the communicator of the calling process alone, once it is resolved: `None` before that.
pub fn RSMPI_COMM_SELF_fn(table: &ConstantTable) -> (value: Option<MPI_Comm>)
    ensures
        value == handle_in(table@, Constant::CommSelf),
        value is Some <==> table@.contains_key(Constant::CommSelf),
{
    table.handle(Constant::CommSelf)
}

/// The split type for processes that share memory, once it is resolved: `None` before that.
pub fn RSMPI_COMM_TYPE_SHARED_fn(table: &ConstantTable) -> (value: Option<i32>)
    ensures
        value == integer_in(table@, Constant::CommTypeShared),
        value is Some <==> table@.contains_key(Constant::CommTypeShared),
{
    table.integer(Constant::CommTypeShared)
}

/// The handle of the empty group, once it is resolved: `None` before that.
pub fn RSMPI_GROUP_EMPTY_fn(table: &ConstantTable) -> (value: Option<MPI_Group>)
    ensures
        value == handle_in(table@, Constant::GroupEmpty),
        value is Some <==> table@.contains_key(Constant::GroupEmpty),
{
    table.handle(Constant::GroupEmpty)
}

/// The handle of the null group, once it is resolved: `None` before that.
pub fn RSMPI_GROUP_NULL_fn(table: &ConstantTable) -> (value: Option<MPI_Group>)
    ensures
        value == handle_in(table@, Constant::GroupNull),
        value is Some <==> table@.contains_key(Constant::GroupNull),
{
    table.handle(Constant::GroupNull)
}

/// The value that stands for "undefined", once it is resolved: `None` before that.
pub fn RSMPI_UNDEFINED_fn(table: &ConstantTable) -> (value: Option<i32>)
    ensures
        value == integer_in(table@, Constant::Undefined),
        value is Some <==> table@.contains_key(Constant::Undefined),
{
    table.integer(Constant::Undefined)
}

/// The rank of the null process, once it is resolved: `None` before that.
pub fn RSMPI_PROC_NULL_fn(table: &ConstantTable) -> (value: Option<i32>)
    ensures
        value == integer_in(table@, Constant::ProcNull),
        value is Some <==> table@.contains_key(Constant::ProcNull),
{
    table.integer(Constant::ProcNull)
}

/// The rank that matches any sender, once it is resolved: `None` before that.
pub fn RSMPI_ANY_SOURCE_fn(table: &ConstantTable) -> (value: Option<i32>)
    ensures
        value == integer_in(table@, Constant::AnySource),
        value is Some <==> table@.contains_key(Constant::AnySource),
{
    table.integer(Constant::AnySource)
}

/// The tag that matches any tag, once it is resolved: `None` before that.
pub fn RSMPI_ANY_TAG_fn(table: &ConstantTable) -> (value: Option<i32>)
    ensures
        value == integer_in(table@, Constant::AnyTag),
        value is Some <==> table@.contains_key(Constant::AnyTag),
{
    table.integer(Constant::AnyTag)
}

/// The handle of the null message, once it is resolved: `None` before that.
pub fn RSMPI_MESSAGE_NULL_fn(table: &ConstantTable) -> (value: Option<MPI_Message>)
    ensures
        value == handle_in(table@, Constant::MessageNull),
        value is Some <==> table@.contains_key(Constant::MessageNull),
{
    table.handle(Constant::MessageNull)
}

/// The handle of the message matched from the null process, once it is resolved: `None` before that.
pub fn RSMPI_MESSAGE_NO_PROC_fn(table: &ConstantTable) -> (value: Option<MPI_Message>)
    ensures
        value == handle_in(table@, Constant::MessageNoProc),
        value is Some <==> table@.contains_key(Constant::MessageNoProc),
{
    table.handle(Constant::MessageNoProc)
}

/// The handle of the null request, once it is resolved: `None` before that.
pub fn RSMPI_REQUEST_NULL_fn(table: &ConstantTable) -> (value: Option<MPI_Request>)
    ensures
        value == handle_in(table@, Constant::RequestNull),
        value is Some <==> table@.contains_key(Constant::RequestNull),
{
    table.handle(Constant::RequestNull)
}

/// The address that tells a call to fill in no status, once it is resolved: `None` before that.
pub fn RSMPI_STATUS_IGNORE_fn(table: &ConstantTable) -> (value: Option<StatusAddress>)
    ensures
        value == address_in(table@, Constant::StatusIgnore),
        value is Some <==> table@.contains_key(Constant::StatusIgnore),
{
    table.address(Constant::StatusIgnore)
}

/// The address that tells a call to fill in no array of statuses, once it is resolved: `None` before that.
pub fn RSMPI_STATUSES_IGNORE_fn(table: &ConstantTable) -> (value: Option<StatusAddress>)
    ensures
        value == address_in(table@, Constant::StatusesIgnore),
        value is Some <==> table@.contains_key(Constant::StatusesIgnore),
{
    table.address(Constant::StatusesIgnore)
}

/// The comparison result "identical", once it is resolved: `None` before that.
pub fn RSMPI_IDENT_fn(table: &ConstantTable) -> (value: Option<i32>)
    ensures
        value == integer_in(table@, Constant::Ident),
        value is Some <==> table@.contains_key(Constant::Ident),
{
    table.integer(Constant::Ident)
}

/// The comparison result "congruent", once it is resolved: `None` before that.
pub fn RSMPI_CONGRUENT_fn(table: &ConstantTable) -> (value: Option<i32>)
    ensures
        value == integer_in(table@, Constant::Congruent),
        value is Some <==> table@.contains_key(Constant::Congruent),
{
    table.integer(Constant::Congruent)
}

/// The comparison result "similar", once it is resolved: `None` before that.
pub fn RSMPI_SIMILAR_fn(table: &ConstantTable) -> (value: Option<i32>)
    ensures
        value == integer_in(table@, Constant::Similar),
        value is Some <==> table@.contains_key(Constant::Similar),
{
    table.integer(Constant::Similar)
}

/// The comparison result "unequal", once it is resolved: `None` before that.
pub fn RSMPI_UNEQUAL_fn(table: &ConstantTable) -> (value: Option<i32>)
    ensures
        value == integer_in(table@, Constant::Unequal),
        value is Some <==> table@.contains_key(Constant::Unequal),
{
    table.integer(Constant::Unequal)
}

/// The threading level "single", once it is resolved: `None` before that.
pub fn RSMPI_THREAD_SINGLE_fn(table: &ConstantTable) -> (value: Option<i32>)
    ensures
        value == integer_in(table@, Constant::ThreadSingle),
        value is Some <==> table@.contains_key(Constant::ThreadSingle),
{
    table.integer(Constant::ThreadSingle)
}

/// The threading level "funneled", once it is resolved: `None` before that.
pub fn RSMPI_THREAD_FUNNELED_fn(table: &ConstantTable) -> (value: Option<i32>)
    ensures
        value == integer_in(table@, Constant::ThreadFunneled),
        value is Some <==> table@.contains_key(Constant::ThreadFunneled),
{
    table.integer(Constant::ThreadFunneled)
}

/// The threading level "serialized", once it is resolved: `None` before that.
pub fn RSMPI_THREAD_SERIALIZED_fn(table: &ConstantTable) -> (value: Option<i32>)
    ensures
        value == integer_in(table@, Constant::ThreadSerialized),
        value is Some <==> table@.contains_key(Constant::ThreadSerialized),
{
    table.integer(Constant::ThreadSerialized)
}

/// The threading level "multiple", once it is resolved: `None` before that.
pub fn RSMPI_THREAD_MULTIPLE_fn(table: &ConstantTable) -> (value: Option<i32>)
    ensures
        value == integer_in(table@, Constant::ThreadMultiple),
        value is Some <==> table@.contains_key(Constant::ThreadMultiple),
{
    table.integer(Constant::ThreadMultiple)
}

/// The topology code of a graph, once it is resolved: `None` before that.
pub fn RSMPI_GRAPH_fn(table: &ConstantTable) -> (value: Option<i32>)
    ensures
        value == integer_in(table@, Constant::Graph),
        value is Some <==> table@.contains_key(Constant::Graph),
{
    table.integer(Constant::Graph)
}

/// The topology code of a Cartesian grid, once it is resolved: `None` before that.
pub fn RSMPI_CART_fn(table: &ConstantTable) -> (value: Option<i32>)
    ensures
        value == integer_in(table@, Constant::Cart),
        value is Some <==> table@.contains_key(Constant::Cart),
{
    table.integer(Constant::Cart)
}

/// The topology code of a distributed graph, once it is resolved: `None` before that.
pub fn RSMPI_DIST_GRAPH_fn(table: &ConstantTable) -> (value: Option<i32>)
    ensures
        value == integer_in(table@, Constant::DistGraph),
        value is Some <==> table@.contains_key(Constant::DistGraph),
{
    table.integer(Constant::DistGraph)
}

/// The greatest length of the library version string, once it is resolved: `None` before that.
pub fn RSMPI_MAX_LIBRARY_VERSION_STRING_fn(table: &ConstantTable) -> (value: Option<i32>)
    ensures
        value == integer_in(table@, Constant::MaxLibraryVersionString),
        value is Some <==> table@.contains_key(Constant::MaxLibraryVersionString),
{
    table.integer(Constant::MaxLibraryVersionString)
}

/// The greatest length of a processor name, once it is resolved: `None` before that.
pub fn RSMPI_MAX_PROCESSOR_NAME_fn(table: &ConstantTable) -> (value: Option<i32>)
    ensures
        value == integer_in(table@, Constant::MaxProcessorName),
        value is Some <==> table@.contains_key(Constant::MaxProcessorName),
{
    table.integer(Constant::MaxProcessorName)
}

/// The handle of the operation "maximum", once it is resolved: `None` before that.
pub fn RSMPI_MAX_fn(table: &ConstantTable) -> (value: Option<MPI_Op>)
    ensures
        value == handle_in(table@, Constant::Max),
        value is Some <==> table@.contains_key(Constant::Max),
{
    table.handle(Constant::Max)
}

/// The handle of the operation "minimum", once it is resolved: `None` before that.
pub fn RSMPI_MIN_fn(table: &ConstantTable) -> (value: Option<MPI_Op>)
    ensures
        value == handle_in(table@, Constant::Min),
        value is Some <==> table@.contains_key(Constant::Min),
{
    table.handle(Constant::Min)
}

/// The handle of the operation "sum", once it is resolved: `None` before that.
pub fn RSMPI_SUM_fn(table: &ConstantTable) -> (value: Option<MPI_Op>)
    ensures
        value == handle_in(table@, Constant::Sum),
        value is Some <==> table@.contains_key(Constant::Sum),
{
    table.handle(Constant::Sum)
}

/// The handle of the operation "product", once it is resolved: `None` before that.
pub fn RSMPI_PROD_fn(table: &ConstantTable) -> (value: Option<MPI_Op>)
    ensures
        value == handle_in(table@, Constant::Prod),
        value is Some <==> table@.contains_key(Constant::Prod),
{
    table.handle(Constant::Prod)
}

/// The handle of the operation "logical and", once it is resolved: `None` before that.
pub fn RSMPI_LAND_fn(table: &ConstantTable) -> (value: Option<MPI_Op>)
    ensures
        value == handle_in(table@, Constant::Land),
        value is Some <==> table@.contains_key(Constant::Land),
{
    table.handle(Constant::Land)
}

/// The handle of the operation "bitwise and", once it is resolved: `None` before that.
pub fn RSMPI_BAND_fn(table: &ConstantTable) -> (value: Option<MPI_Op>)
    ensures
        value == handle_in(table@, Constant::Band),
        value is Some <==> table@.contains_key(Constant::Band),
{
    table.handle(Constant::Band)
}

/// The handle of the operation "logical or", once it is resolved: `None` before that.
pub fn RSMPI_LOR_fn(table: &ConstantTable) -> (value: Option<MPI_Op>)
    ensures
        value == handle_in(table@, Constant::Lor),
        value is Some <==> table@.contains_key(Constant::Lor),
{
    table.handle(Constant::Lor)
}

/// The handle of the operation "bitwise or", once it is resolved: `None` before that.
pub fn RSMPI_BOR_fn(table: &ConstantTable) -> (value: Option<MPI_Op>)
    ensures
        value == handle_in(table@, Constant::Bor),
        value is Some <==> table@.contains_key(Constant::Bor),
{
    table.handle(Constant::Bor)
}

/// The handle of the operation "logical exclusive or", once it is resolved: `None` before that.
pub fn RSMPI_LXOR_fn(table: &ConstantTable) -> (value: Option<MPI_Op>)
    ensures
        value == handle_in(table@, Constant::Lxor),
        value is Some <==> table@.contains_key(Constant::Lxor),
{
    table.handle(Constant::Lxor)
}

/// The handle of the operation "bitwise exclusive or", once it is resolved: `None` before that.
pub fn RSMPI_BXOR_fn(table: &ConstantTable) -> (value: Option<MPI_Op>)
    ensures
        value == handle_in(table@, Constant::Bxor),
        value is Some <==> table@.contains_key(Constant::Bxor),
{
    table.handle(Constant::Bxor)
}

/// The handle of the error handler that ends the program, once it is resolved: `None` before that.
pub fn RSMPI_ERRORS_ARE_FATAL_fn(table: &ConstantTable) -> (value: Option<MPI_Errhandler>)
    ensures
        value == handle_in(table@, Constant::ErrorsAreFatal),
        value is Some <==> table@.contains_key(Constant::ErrorsAreFatal),
{
    table.handle(Constant::ErrorsAreFatal)
}

/// The handle of the error handler that returns the error code, once it is resolved: `None` before that.
pub fn RSMPI_ERRORS_RETURN_fn(table: &ConstantTable) -> (value: Option<MPI_Errhandler>)
    ensures
        value == handle_in(table@, Constant::ErrorsReturn),
        value is Some <==> table@.contains_key(Constant::ErrorsReturn),
{
    table.handle(Constant::ErrorsReturn)
}

/// The handle of the null file, once it is resolved: `None` before that.
pub fn RSMPI_FILE_NULL_fn(table: &ConstantTable) -> (value: Option<MPI_File>)
    ensures
        value == handle_in(table@, Constant::FileNull),
        value is Some <==> table@.contains_key(Constant::FileNull),
{
    table.handle(Constant::FileNull)
}

/// The handle of the null info object, once it is resolved: `None` before that.
pub fn RSMPI_INFO_NULL_fn(table: &ConstantTable) -> (value: Option<MPI_Info>)
    ensures
        value == handle_in(table@, Constant::InfoNull),
        value is Some <==> table@.contains_key(Constant::InfoNull),
{
    table.handle(Constant::InfoNull)
}

/// The handle of the null window, once it is resolved: `None` before that.
pub fn RSMPI_WIN_NULL_fn(table: &ConstantTable) -> (value: Option<MPI_Win>)
    ensures
        value == handle_in(table@, Constant::WinNull),
        value is Some <==> table@.contains_key(Constant::WinNull),
{
    table.handle(Constant::WinNull)
}

/// The error code of success, which is 0. It is fixed for every vendor: it
/// is known with no library open and does not depend on what a library
/// exports.
pub fn RSMPI_SUCCESS_fn() -> (code: i32)
    ensures
        code == 0,
{
    0
}

/// The attribute key of the universe size, once it is resolved: `None` before that.
pub fn RSMPI_UNIVERSE_SIZE_fn(table: &ConstantTable) -> (value: Option<i32>)
    ensures
        value == integer_in(table@, Constant::UniverseSize),
        value is Some <==> table@.contains_key(Constant::UniverseSize),
{
    table.integer(Constant::UniverseSize)
}

/// The attribute key of the application number, once it is resolved: `None` before that.
pub fn RSMPI_APPNUM_fn(table: &ConstantTable) -> (value: Option<i32>)
    ensures
        value == integer_in(table@, Constant::Appnum),
        value is Some <==> table@.contains_key(Constant::Appnum),
{
    table.integer(Constant::Appnum)
}

/// The greatest length of the name of an object, once it is resolved: `None` before that.
pub fn RSMPI_MAX_OBJECT_NAME_fn(table: &ConstantTable) -> (value: Option<i32>)
    ensures
        value == integer_in(table@, Constant::MaxObjectName),
        value is Some <==> table@.contains_key(Constant::MaxObjectName),
{
    table.integer(Constant::MaxObjectName)
}

} // verus!
