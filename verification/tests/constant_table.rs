use mpi_abi::constants::{
    Constant, ConstantAction, ConstantEvent, ConstantKind, ConstantTable, ConstantValue,
    CONSTANT_COUNT, RSMPI_SUCCESS_fn, RSMPI_C_BOOL_fn, RSMPI_FLOAT_fn, RSMPI_DOUBLE_fn,
    RSMPI_INT8_T_fn, RSMPI_INT16_T_fn, RSMPI_INT32_T_fn, RSMPI_INT64_T_fn, RSMPI_UINT8_T_fn,
    RSMPI_UINT16_T_fn, RSMPI_UINT32_T_fn, RSMPI_UINT64_T_fn, RSMPI_FLOAT_COMPLEX_fn,
    RSMPI_DOUBLE_COMPLEX_fn, RSMPI_DATATYPE_NULL_fn, RSMPI_COMM_WORLD_fn, RSMPI_COMM_NULL_fn,
    RSMPI_COMM_SELF_fn, RSMPI_COMM_TYPE_SHARED_fn, RSMPI_GROUP_EMPTY_fn, RSMPI_GROUP_NULL_fn,
    RSMPI_UNDEFINED_fn, RSMPI_PROC_NULL_fn, RSMPI_ANY_SOURCE_fn, RSMPI_ANY_TAG_fn,
    RSMPI_MESSAGE_NULL_fn, RSMPI_MESSAGE_NO_PROC_fn, RSMPI_REQUEST_NULL_fn,
    RSMPI_STATUS_IGNORE_fn, RSMPI_STATUSES_IGNORE_fn, RSMPI_IDENT_fn, RSMPI_CONGRUENT_fn,
    RSMPI_SIMILAR_fn, RSMPI_UNEQUAL_fn, RSMPI_THREAD_SINGLE_fn, RSMPI_THREAD_FUNNELED_fn,
    RSMPI_THREAD_SERIALIZED_fn, RSMPI_THREAD_MULTIPLE_fn, RSMPI_GRAPH_fn, RSMPI_CART_fn,
    RSMPI_DIST_GRAPH_fn, RSMPI_MAX_LIBRARY_VERSION_STRING_fn, RSMPI_MAX_PROCESSOR_NAME_fn,
    RSMPI_MAX_fn, RSMPI_MIN_fn, RSMPI_SUM_fn, RSMPI_PROD_fn, RSMPI_LAND_fn, RSMPI_BAND_fn,
    RSMPI_LOR_fn, RSMPI_BOR_fn, RSMPI_LXOR_fn, RSMPI_BXOR_fn, RSMPI_ERRORS_ARE_FATAL_fn,
    RSMPI_ERRORS_RETURN_fn, RSMPI_FILE_NULL_fn, RSMPI_INFO_NULL_fn, RSMPI_WIN_NULL_fn,
    RSMPI_UNIVERSE_SIZE_fn, RSMPI_APPNUM_fn, RSMPI_MAX_OBJECT_NAME_fn,
};
use mpi_abi::error::LoadError;
use mpi_abi::loader::{
    get_symbol, library, LibraryAction, LibraryEvent, Loader, SymbolAction, SymbolEvent,
};

const ALL: [Constant; CONSTANT_COUNT] = [
        Constant::CBool, Constant::Float, Constant::Double, Constant::Int8, Constant::Int16,
        Constant::Int32, Constant::Int64, Constant::Uint8, Constant::Uint16, Constant::Uint32,
        Constant::Uint64, Constant::FloatComplex, Constant::DoubleComplex,
        Constant::DatatypeNull, Constant::CommWorld, Constant::CommNull, Constant::CommSelf,
        Constant::CommTypeShared, Constant::GroupEmpty, Constant::GroupNull,
        Constant::Undefined, Constant::ProcNull, Constant::AnySource, Constant::AnyTag,
        Constant::MessageNull, Constant::MessageNoProc, Constant::RequestNull,
        Constant::StatusIgnore, Constant::StatusesIgnore, Constant::Ident, Constant::Congruent,
        Constant::Similar, Constant::Unequal, Constant::ThreadSingle, Constant::ThreadFunneled,
        Constant::ThreadSerialized, Constant::ThreadMultiple, Constant::Graph, Constant::Cart,
        Constant::DistGraph, Constant::MaxLibraryVersionString, Constant::MaxProcessorName,
        Constant::Max, Constant::Min, Constant::Sum, Constant::Prod, Constant::Land,
        Constant::Band, Constant::Lor, Constant::Bor, Constant::Lxor, Constant::Bxor,
        Constant::ErrorsAreFatal, Constant::ErrorsReturn, Constant::FileNull,
        Constant::InfoNull, Constant::WinNull, Constant::UniverseSize, Constant::Appnum,
        Constant::MaxObjectName,
];

fn sample(constant: Constant) -> ConstantValue {
    let i = constant.index();
    match constant.kind() {
        ConstantKind::Handle => ConstantValue::Handle(1000 + i),
        ConstantKind::Int => ConstantValue::Int(-(100 + i as i32)),
        ConstantKind::Address => ConstantValue::Address(0x7000 + i),
    }
}

fn read(table: &mut ConstantTable, constant: Constant, value: ConstantValue) -> ConstantAction {
    table.resolve(constant, ConstantEvent::Read(value))
}

fn full_table() -> ConstantTable {
    let mut table = ConstantTable::new();
    for constant in ALL {
        assert_eq!(
            read(&mut table, constant, sample(constant)),
            ConstantAction::Use(sample(constant))
        );
    }
    table
}

#[test]
fn every_constant_has_its_own_place() {
    assert_eq!(CONSTANT_COUNT, 60);
    for (place, constant) in ALL.iter().enumerate() {
        assert_eq!(constant.index(), place);
    }
}

#[test]
fn every_constant_has_its_symbol() {
    assert_eq!(Constant::CBool.symbol(), "RSMPI_C_BOOL");
    assert_eq!(Constant::Float.symbol(), "RSMPI_FLOAT");
    assert_eq!(Constant::Double.symbol(), "RSMPI_DOUBLE");
    assert_eq!(Constant::Int8.symbol(), "RSMPI_INT8_T");
    assert_eq!(Constant::Int16.symbol(), "RSMPI_INT16_T");
    assert_eq!(Constant::Int32.symbol(), "RSMPI_INT32_T");
    assert_eq!(Constant::Int64.symbol(), "RSMPI_INT64_T");
    assert_eq!(Constant::Uint8.symbol(), "RSMPI_UINT8_T");
    assert_eq!(Constant::Uint16.symbol(), "RSMPI_UINT16_T");
    assert_eq!(Constant::Uint32.symbol(), "RSMPI_UINT32_T");
    assert_eq!(Constant::Uint64.symbol(), "RSMPI_UINT64_T");
    assert_eq!(Constant::FloatComplex.symbol(), "RSMPI_FLOAT_COMPLEX");
    assert_eq!(Constant::DoubleComplex.symbol(), "RSMPI_DOUBLE_COMPLEX");
    assert_eq!(Constant::DatatypeNull.symbol(), "RSMPI_DATATYPE_NULL");
    assert_eq!(Constant::CommWorld.symbol(), "RSMPI_COMM_WORLD");
    assert_eq!(Constant::CommNull.symbol(), "RSMPI_COMM_NULL");
    assert_eq!(Constant::CommSelf.symbol(), "RSMPI_COMM_SELF");
    assert_eq!(Constant::CommTypeShared.symbol(), "RSMPI_COMM_TYPE_SHARED");
    assert_eq!(Constant::GroupEmpty.symbol(), "RSMPI_GROUP_EMPTY");
    assert_eq!(Constant::GroupNull.symbol(), "RSMPI_GROUP_NULL");
    assert_eq!(Constant::Undefined.symbol(), "RSMPI_UNDEFINED");
    assert_eq!(Constant::ProcNull.symbol(), "RSMPI_PROC_NULL");
    assert_eq!(Constant::AnySource.symbol(), "RSMPI_ANY_SOURCE");
    assert_eq!(Constant::AnyTag.symbol(), "RSMPI_ANY_TAG");
    assert_eq!(Constant::MessageNull.symbol(), "RSMPI_MESSAGE_NULL");
    assert_eq!(Constant::MessageNoProc.symbol(), "RSMPI_MESSAGE_NO_PROC");
    assert_eq!(Constant::RequestNull.symbol(), "RSMPI_REQUEST_NULL");
    assert_eq!(Constant::StatusIgnore.symbol(), "RSMPI_STATUS_IGNORE");
    assert_eq!(Constant::StatusesIgnore.symbol(), "RSMPI_STATUSES_IGNORE");
    assert_eq!(Constant::Ident.symbol(), "RSMPI_IDENT");
    assert_eq!(Constant::Congruent.symbol(), "RSMPI_CONGRUENT");
    assert_eq!(Constant::Similar.symbol(), "RSMPI_SIMILAR");
    assert_eq!(Constant::Unequal.symbol(), "RSMPI_UNEQUAL");
    assert_eq!(Constant::ThreadSingle.symbol(), "RSMPI_THREAD_SINGLE");
    assert_eq!(Constant::ThreadFunneled.symbol(), "RSMPI_THREAD_FUNNELED");
    assert_eq!(Constant::ThreadSerialized.symbol(), "RSMPI_THREAD_SERIALIZED");
    assert_eq!(Constant::ThreadMultiple.symbol(), "RSMPI_THREAD_MULTIPLE");
    assert_eq!(Constant::Graph.symbol(), "RSMPI_GRAPH");
    assert_eq!(Constant::Cart.symbol(), "RSMPI_CART");
    assert_eq!(Constant::DistGraph.symbol(), "RSMPI_DIST_GRAPH");
    assert_eq!(Constant::MaxLibraryVersionString.symbol(), "RSMPI_MAX_LIBRARY_VERSION_STRING");
    assert_eq!(Constant::MaxProcessorName.symbol(), "RSMPI_MAX_PROCESSOR_NAME");
    assert_eq!(Constant::Max.symbol(), "RSMPI_MAX");
    assert_eq!(Constant::Min.symbol(), "RSMPI_MIN");
    assert_eq!(Constant::Sum.symbol(), "RSMPI_SUM");
    assert_eq!(Constant::Prod.symbol(), "RSMPI_PROD");
    assert_eq!(Constant::Land.symbol(), "RSMPI_LAND");
    assert_eq!(Constant::Band.symbol(), "RSMPI_BAND");
    assert_eq!(Constant::Lor.symbol(), "RSMPI_LOR");
    assert_eq!(Constant::Bor.symbol(), "RSMPI_BOR");
    assert_eq!(Constant::Lxor.symbol(), "RSMPI_LXOR");
    assert_eq!(Constant::Bxor.symbol(), "RSMPI_BXOR");
    assert_eq!(Constant::ErrorsAreFatal.symbol(), "RSMPI_ERRORS_ARE_FATAL");
    assert_eq!(Constant::ErrorsReturn.symbol(), "RSMPI_ERRORS_RETURN");
    assert_eq!(Constant::FileNull.symbol(), "RSMPI_FILE_NULL");
    assert_eq!(Constant::InfoNull.symbol(), "RSMPI_INFO_NULL");
    assert_eq!(Constant::WinNull.symbol(), "RSMPI_WIN_NULL");
    assert_eq!(Constant::UniverseSize.symbol(), "MPI_UNIVERSE_SIZE");
    assert_eq!(Constant::Appnum.symbol(), "MPI_APPNUM");
    assert_eq!(Constant::MaxObjectName.symbol(), "MPI_MAX_OBJECT_NAME");
}

#[test]
fn symbols_are_distinct() {
    for a in ALL {
        for b in ALL {
            assert_eq!(a.symbol() == b.symbol(), a == b);
        }
    }
}

#[test]
fn every_constant_has_its_kind() {
    assert_eq!(Constant::CBool.kind(), ConstantKind::Handle);
    assert_eq!(Constant::Float.kind(), ConstantKind::Handle);
    assert_eq!(Constant::Double.kind(), ConstantKind::Handle);
    assert_eq!(Constant::Int8.kind(), ConstantKind::Handle);
    assert_eq!(Constant::Int16.kind(), ConstantKind::Handle);
    assert_eq!(Constant::Int32.kind(), ConstantKind::Handle);
    assert_eq!(Constant::Int64.kind(), ConstantKind::Handle);
    assert_eq!(Constant::Uint8.kind(), ConstantKind::Handle);
    assert_eq!(Constant::Uint16.kind(), ConstantKind::Handle);
    assert_eq!(Constant::Uint32.kind(), ConstantKind::Handle);
    assert_eq!(Constant::Uint64.kind(), ConstantKind::Handle);
    assert_eq!(Constant::FloatComplex.kind(), ConstantKind::Handle);
    assert_eq!(Constant::DoubleComplex.kind(), ConstantKind::Handle);
    assert_eq!(Constant::DatatypeNull.kind(), ConstantKind::Handle);
    assert_eq!(Constant::CommWorld.kind(), ConstantKind::Handle);
    assert_eq!(Constant::CommNull.kind(), ConstantKind::Handle);
    assert_eq!(Constant::CommSelf.kind(), ConstantKind::Handle);
    assert_eq!(Constant::CommTypeShared.kind(), ConstantKind::Int);
    assert_eq!(Constant::GroupEmpty.kind(), ConstantKind::Handle);
    assert_eq!(Constant::GroupNull.kind(), ConstantKind::Handle);
    assert_eq!(Constant::Undefined.kind(), ConstantKind::Int);
    assert_eq!(Constant::ProcNull.kind(), ConstantKind::Int);
    assert_eq!(Constant::AnySource.kind(), ConstantKind::Int);
    assert_eq!(Constant::AnyTag.kind(), ConstantKind::Int);
    assert_eq!(Constant::MessageNull.kind(), ConstantKind::Handle);
    assert_eq!(Constant::MessageNoProc.kind(), ConstantKind::Handle);
    assert_eq!(Constant::RequestNull.kind(), ConstantKind::Handle);
    assert_eq!(Constant::StatusIgnore.kind(), ConstantKind::Address);
    assert_eq!(Constant::StatusesIgnore.kind(), ConstantKind::Address);
    assert_eq!(Constant::Ident.kind(), ConstantKind::Int);
    assert_eq!(Constant::Congruent.kind(), ConstantKind::Int);
    assert_eq!(Constant::Similar.kind(), ConstantKind::Int);
    assert_eq!(Constant::Unequal.kind(), ConstantKind::Int);
    assert_eq!(Constant::ThreadSingle.kind(), ConstantKind::Int);
    assert_eq!(Constant::ThreadFunneled.kind(), ConstantKind::Int);
    assert_eq!(Constant::ThreadSerialized.kind(), ConstantKind::Int);
    assert_eq!(Constant::ThreadMultiple.kind(), ConstantKind::Int);
    assert_eq!(Constant::Graph.kind(), ConstantKind::Int);
    assert_eq!(Constant::Cart.kind(), ConstantKind::Int);
    assert_eq!(Constant::DistGraph.kind(), ConstantKind::Int);
    assert_eq!(Constant::MaxLibraryVersionString.kind(), ConstantKind::Int);
    assert_eq!(Constant::MaxProcessorName.kind(), ConstantKind::Int);
    assert_eq!(Constant::Max.kind(), ConstantKind::Handle);
    assert_eq!(Constant::Min.kind(), ConstantKind::Handle);
    assert_eq!(Constant::Sum.kind(), ConstantKind::Handle);
    assert_eq!(Constant::Prod.kind(), ConstantKind::Handle);
    assert_eq!(Constant::Land.kind(), ConstantKind::Handle);
    assert_eq!(Constant::Band.kind(), ConstantKind::Handle);
    assert_eq!(Constant::Lor.kind(), ConstantKind::Handle);
    assert_eq!(Constant::Bor.kind(), ConstantKind::Handle);
    assert_eq!(Constant::Lxor.kind(), ConstantKind::Handle);
    assert_eq!(Constant::Bxor.kind(), ConstantKind::Handle);
    assert_eq!(Constant::ErrorsAreFatal.kind(), ConstantKind::Handle);
    assert_eq!(Constant::ErrorsReturn.kind(), ConstantKind::Handle);
    assert_eq!(Constant::FileNull.kind(), ConstantKind::Handle);
    assert_eq!(Constant::InfoNull.kind(), ConstantKind::Handle);
    assert_eq!(Constant::WinNull.kind(), ConstantKind::Handle);
    assert_eq!(Constant::UniverseSize.kind(), ConstantKind::Int);
    assert_eq!(Constant::Appnum.kind(), ConstantKind::Int);
    assert_eq!(Constant::MaxObjectName.kind(), ConstantKind::Int);
}

#[test]
fn value_kinds() {
    assert_eq!(ConstantValue::Handle(0).kind(), ConstantKind::Handle);
    assert_eq!(ConstantValue::Int(-1).kind(), ConstantKind::Int);
    assert_eq!(ConstantValue::Address(8).kind(), ConstantKind::Address);
}

#[test]
fn new_table_has_resolved_nothing() {
    let table = ConstantTable::new();
    for constant in ALL {
        assert_eq!(table.get(constant), None);
        assert_eq!(table.handle(constant), None);
        assert_eq!(table.integer(constant), None);
        assert_eq!(table.address(constant), None);
    }
    assert_eq!(RSMPI_C_BOOL_fn(&table), None);
    assert_eq!(RSMPI_FLOAT_fn(&table), None);
    assert_eq!(RSMPI_DOUBLE_fn(&table), None);
    assert_eq!(RSMPI_INT8_T_fn(&table), None);
    assert_eq!(RSMPI_INT16_T_fn(&table), None);
    assert_eq!(RSMPI_INT32_T_fn(&table), None);
    assert_eq!(RSMPI_INT64_T_fn(&table), None);
    assert_eq!(RSMPI_UINT8_T_fn(&table), None);
    assert_eq!(RSMPI_UINT16_T_fn(&table), None);
    assert_eq!(RSMPI_UINT32_T_fn(&table), None);
    assert_eq!(RSMPI_UINT64_T_fn(&table), None);
    assert_eq!(RSMPI_FLOAT_COMPLEX_fn(&table), None);
    assert_eq!(RSMPI_DOUBLE_COMPLEX_fn(&table), None);
    assert_eq!(RSMPI_DATATYPE_NULL_fn(&table), None);
    assert_eq!(RSMPI_COMM_WORLD_fn(&table), None);
    assert_eq!(RSMPI_COMM_NULL_fn(&table), None);
    assert_eq!(RSMPI_COMM_SELF_fn(&table), None);
    assert_eq!(RSMPI_COMM_TYPE_SHARED_fn(&table), None);
    assert_eq!(RSMPI_GROUP_EMPTY_fn(&table), None);
    assert_eq!(RSMPI_GROUP_NULL_fn(&table), None);
    assert_eq!(RSMPI_UNDEFINED_fn(&table), None);
    assert_eq!(RSMPI_PROC_NULL_fn(&table), None);
    assert_eq!(RSMPI_ANY_SOURCE_fn(&table), None);
    assert_eq!(RSMPI_ANY_TAG_fn(&table), None);
    assert_eq!(RSMPI_MESSAGE_NULL_fn(&table), None);
    assert_eq!(RSMPI_MESSAGE_NO_PROC_fn(&table), None);
    assert_eq!(RSMPI_REQUEST_NULL_fn(&table), None);
    assert_eq!(RSMPI_STATUS_IGNORE_fn(&table), None);
    assert_eq!(RSMPI_STATUSES_IGNORE_fn(&table), None);
    assert_eq!(RSMPI_IDENT_fn(&table), None);
    assert_eq!(RSMPI_CONGRUENT_fn(&table), None);
    assert_eq!(RSMPI_SIMILAR_fn(&table), None);
    assert_eq!(RSMPI_UNEQUAL_fn(&table), None);
    assert_eq!(RSMPI_THREAD_SINGLE_fn(&table), None);
    assert_eq!(RSMPI_THREAD_FUNNELED_fn(&table), None);
    assert_eq!(RSMPI_THREAD_SERIALIZED_fn(&table), None);
    assert_eq!(RSMPI_THREAD_MULTIPLE_fn(&table), None);
    assert_eq!(RSMPI_GRAPH_fn(&table), None);
    assert_eq!(RSMPI_CART_fn(&table), None);
    assert_eq!(RSMPI_DIST_GRAPH_fn(&table), None);
    assert_eq!(RSMPI_MAX_LIBRARY_VERSION_STRING_fn(&table), None);
    assert_eq!(RSMPI_MAX_PROCESSOR_NAME_fn(&table), None);
    assert_eq!(RSMPI_MAX_fn(&table), None);
    assert_eq!(RSMPI_MIN_fn(&table), None);
    assert_eq!(RSMPI_SUM_fn(&table), None);
    assert_eq!(RSMPI_PROD_fn(&table), None);
    assert_eq!(RSMPI_LAND_fn(&table), None);
    assert_eq!(RSMPI_BAND_fn(&table), None);
    assert_eq!(RSMPI_LOR_fn(&table), None);
    assert_eq!(RSMPI_BOR_fn(&table), None);
    assert_eq!(RSMPI_LXOR_fn(&table), None);
    assert_eq!(RSMPI_BXOR_fn(&table), None);
    assert_eq!(RSMPI_ERRORS_ARE_FATAL_fn(&table), None);
    assert_eq!(RSMPI_ERRORS_RETURN_fn(&table), None);
    assert_eq!(RSMPI_FILE_NULL_fn(&table), None);
    assert_eq!(RSMPI_INFO_NULL_fn(&table), None);
    assert_eq!(RSMPI_WIN_NULL_fn(&table), None);
    assert_eq!(RSMPI_UNIVERSE_SIZE_fn(&table), None);
    assert_eq!(RSMPI_APPNUM_fn(&table), None);
    assert_eq!(RSMPI_MAX_OBJECT_NAME_fn(&table), None);
}

#[test]
fn every_accessor_reads_its_own_constant() {
    let table = full_table();
    for constant in ALL {
        assert_eq!(table.get(constant), Some(sample(constant)));
    }
    assert_eq!(RSMPI_C_BOOL_fn(&table), Some(1000));
    assert_eq!(RSMPI_FLOAT_fn(&table), Some(1001));
    assert_eq!(RSMPI_DOUBLE_fn(&table), Some(1002));
    assert_eq!(RSMPI_INT8_T_fn(&table), Some(1003));
    assert_eq!(RSMPI_INT16_T_fn(&table), Some(1004));
    assert_eq!(RSMPI_INT32_T_fn(&table), Some(1005));
    assert_eq!(RSMPI_INT64_T_fn(&table), Some(1006));
    assert_eq!(RSMPI_UINT8_T_fn(&table), Some(1007));
    assert_eq!(RSMPI_UINT16_T_fn(&table), Some(1008));
    assert_eq!(RSMPI_UINT32_T_fn(&table), Some(1009));
    assert_eq!(RSMPI_UINT64_T_fn(&table), Some(1010));
    assert_eq!(RSMPI_FLOAT_COMPLEX_fn(&table), Some(1011));
    assert_eq!(RSMPI_DOUBLE_COMPLEX_fn(&table), Some(1012));
    assert_eq!(RSMPI_DATATYPE_NULL_fn(&table), Some(1013));
    assert_eq!(RSMPI_COMM_WORLD_fn(&table), Some(1014));
    assert_eq!(RSMPI_COMM_NULL_fn(&table), Some(1015));
    assert_eq!(RSMPI_COMM_SELF_fn(&table), Some(1016));
    assert_eq!(RSMPI_COMM_TYPE_SHARED_fn(&table), Some(-117));
    assert_eq!(RSMPI_GROUP_EMPTY_fn(&table), Some(1018));
    assert_eq!(RSMPI_GROUP_NULL_fn(&table), Some(1019));
    assert_eq!(RSMPI_UNDEFINED_fn(&table), Some(-120));
    assert_eq!(RSMPI_PROC_NULL_fn(&table), Some(-121));
    assert_eq!(RSMPI_ANY_SOURCE_fn(&table), Some(-122));
    assert_eq!(RSMPI_ANY_TAG_fn(&table), Some(-123));
    assert_eq!(RSMPI_MESSAGE_NULL_fn(&table), Some(1024));
    assert_eq!(RSMPI_MESSAGE_NO_PROC_fn(&table), Some(1025));
    assert_eq!(RSMPI_REQUEST_NULL_fn(&table), Some(1026));
    assert_eq!(RSMPI_STATUS_IGNORE_fn(&table), Some(28699));
    assert_eq!(RSMPI_STATUSES_IGNORE_fn(&table), Some(28700));
    assert_eq!(RSMPI_IDENT_fn(&table), Some(-129));
    assert_eq!(RSMPI_CONGRUENT_fn(&table), Some(-130));
    assert_eq!(RSMPI_SIMILAR_fn(&table), Some(-131));
    assert_eq!(RSMPI_UNEQUAL_fn(&table), Some(-132));
    assert_eq!(RSMPI_THREAD_SINGLE_fn(&table), Some(-133));
    assert_eq!(RSMPI_THREAD_FUNNELED_fn(&table), Some(-134));
    assert_eq!(RSMPI_THREAD_SERIALIZED_fn(&table), Some(-135));
    assert_eq!(RSMPI_THREAD_MULTIPLE_fn(&table), Some(-136));
    assert_eq!(RSMPI_GRAPH_fn(&table), Some(-137));
    assert_eq!(RSMPI_CART_fn(&table), Some(-138));
    assert_eq!(RSMPI_DIST_GRAPH_fn(&table), Some(-139));
    assert_eq!(RSMPI_MAX_LIBRARY_VERSION_STRING_fn(&table), Some(-140));
    assert_eq!(RSMPI_MAX_PROCESSOR_NAME_fn(&table), Some(-141));
    assert_eq!(RSMPI_MAX_fn(&table), Some(1042));
    assert_eq!(RSMPI_MIN_fn(&table), Some(1043));
    assert_eq!(RSMPI_SUM_fn(&table), Some(1044));
    assert_eq!(RSMPI_PROD_fn(&table), Some(1045));
    assert_eq!(RSMPI_LAND_fn(&table), Some(1046));
    assert_eq!(RSMPI_BAND_fn(&table), Some(1047));
    assert_eq!(RSMPI_LOR_fn(&table), Some(1048));
    assert_eq!(RSMPI_BOR_fn(&table), Some(1049));
    assert_eq!(RSMPI_LXOR_fn(&table), Some(1050));
    assert_eq!(RSMPI_BXOR_fn(&table), Some(1051));
    assert_eq!(RSMPI_ERRORS_ARE_FATAL_fn(&table), Some(1052));
    assert_eq!(RSMPI_ERRORS_RETURN_fn(&table), Some(1053));
    assert_eq!(RSMPI_FILE_NULL_fn(&table), Some(1054));
    assert_eq!(RSMPI_INFO_NULL_fn(&table), Some(1055));
    assert_eq!(RSMPI_WIN_NULL_fn(&table), Some(1056));
    assert_eq!(RSMPI_UNIVERSE_SIZE_fn(&table), Some(-157));
    assert_eq!(RSMPI_APPNUM_fn(&table), Some(-158));
    assert_eq!(RSMPI_MAX_OBJECT_NAME_fn(&table), Some(-159));
}

#[test]
fn typed_getters_answer_only_for_their_kind() {
    let table = full_table();
    for constant in ALL {
        let i = constant.index();
        match constant.kind() {
            ConstantKind::Handle => {
                assert_eq!(table.handle(constant), Some(1000 + i));
                assert_eq!(table.integer(constant), None);
                assert_eq!(table.address(constant), None);
            }
            ConstantKind::Int => {
                assert_eq!(table.handle(constant), None);
                assert_eq!(table.integer(constant), Some(-(100 + i as i32)));
                assert_eq!(table.address(constant), None);
            }
            ConstantKind::Address => {
                assert_eq!(table.handle(constant), None);
                assert_eq!(table.integer(constant), None);
                assert_eq!(table.address(constant), Some(0x7000 + i));
            }
        }
    }
}

#[test]
fn unresolved_constant_is_to_be_read_at_its_symbol() {
    let mut table = ConstantTable::new();
    assert_eq!(
        table.resolve(Constant::CommWorld, ConstantEvent::Requested),
        ConstantAction::Read { symbol: "RSMPI_COMM_WORLD", kind: ConstantKind::Handle }
    );
    assert_eq!(
        table.resolve(Constant::AnyTag, ConstantEvent::Requested),
        ConstantAction::Read { symbol: "RSMPI_ANY_TAG", kind: ConstantKind::Int }
    );
    assert_eq!(
        table.resolve(Constant::StatusIgnore, ConstantEvent::Requested),
        ConstantAction::Read { symbol: "RSMPI_STATUS_IGNORE", kind: ConstantKind::Address }
    );
    assert_eq!(
        table.resolve(Constant::Appnum, ConstantEvent::Requested),
        ConstantAction::Read { symbol: "MPI_APPNUM", kind: ConstantKind::Int }
    );
    for constant in ALL {
        assert_eq!(
            table.resolve(constant, ConstantEvent::Requested),
            ConstantAction::Read { symbol: constant.symbol(), kind: constant.kind() }
        );
        assert_eq!(table.get(constant), None);
    }
}

#[test]
fn first_value_of_a_constant_stays() {
    let mut table = ConstantTable::new();
    assert_eq!(
        read(&mut table, Constant::CommWorld, ConstantValue::Handle(1)),
        ConstantAction::Use(ConstantValue::Handle(1))
    );
    assert_eq!(RSMPI_COMM_WORLD_fn(&table), Some(1));
    assert_eq!(
        read(&mut table, Constant::CommWorld, ConstantValue::Handle(2)),
        ConstantAction::Use(ConstantValue::Handle(1))
    );
    assert_eq!(RSMPI_COMM_WORLD_fn(&table), Some(1));
    assert_eq!(RSMPI_COMM_WORLD_fn(&table), RSMPI_COMM_WORLD_fn(&table));
    assert_eq!(
        read(&mut table, Constant::CommWorld, ConstantValue::Int(3)),
        ConstantAction::Use(ConstantValue::Handle(1))
    );
    assert_eq!(
        table.resolve(Constant::CommWorld, ConstantEvent::Requested),
        ConstantAction::Use(ConstantValue::Handle(1))
    );
    assert_eq!(table.get(Constant::CommWorld), Some(ConstantValue::Handle(1)));
}

#[test]
fn value_of_another_kind_is_not_taken() {
    let mut table = ConstantTable::new();
    let ask_world =
        ConstantAction::Read { symbol: "RSMPI_COMM_WORLD", kind: ConstantKind::Handle };
    assert_eq!(read(&mut table, Constant::CommWorld, ConstantValue::Int(1)), ask_world);
    assert_eq!(read(&mut table, Constant::CommWorld, ConstantValue::Address(1)), ask_world);
    assert_eq!(table.get(Constant::CommWorld), None);
    assert_eq!(RSMPI_COMM_WORLD_fn(&table), None);
    assert_eq!(
        read(&mut table, Constant::AnyTag, ConstantValue::Handle(1)),
        ConstantAction::Read { symbol: "RSMPI_ANY_TAG", kind: ConstantKind::Int }
    );
    assert_eq!(RSMPI_ANY_TAG_fn(&table), None);
    assert_eq!(
        read(&mut table, Constant::StatusIgnore, ConstantValue::Int(0)),
        ConstantAction::Read { symbol: "RSMPI_STATUS_IGNORE", kind: ConstantKind::Address }
    );
    assert_eq!(RSMPI_STATUS_IGNORE_fn(&table), None);
    assert_eq!(
        read(&mut table, Constant::CommWorld, ConstantValue::Handle(9)),
        ConstantAction::Use(ConstantValue::Handle(9))
    );
    assert_eq!(RSMPI_COMM_WORLD_fn(&table), Some(9));
}

#[test]
fn resolving_one_constant_leaves_the_others() {
    let mut table = ConstantTable::new();
    read(&mut table, Constant::Sum, ConstantValue::Handle(77));
    read(&mut table, Constant::Undefined, ConstantValue::Int(-32766));
    assert_eq!(RSMPI_SUM_fn(&table), Some(77));
    assert_eq!(RSMPI_UNDEFINED_fn(&table), Some(-32766));
    assert_eq!(RSMPI_PROD_fn(&table), None);
    read(&mut table, Constant::Prod, ConstantValue::Handle(78));
    assert_eq!(RSMPI_SUM_fn(&table), Some(77));
    assert_eq!(RSMPI_UNDEFINED_fn(&table), Some(-32766));
    assert_eq!(RSMPI_PROD_fn(&table), Some(78));
    assert_eq!(RSMPI_MAX_fn(&table), None);
}

#[test]
fn values_pass_through_unchanged() {
    let mut table = ConstantTable::new();
    read(&mut table, Constant::DatatypeNull, ConstantValue::Handle(usize::MAX));
    read(&mut table, Constant::CommNull, ConstantValue::Handle(0));
    read(&mut table, Constant::ProcNull, ConstantValue::Int(i32::MIN));
    read(&mut table, Constant::MaxProcessorName, ConstantValue::Int(i32::MAX));
    read(&mut table, Constant::Congruent, ConstantValue::Int(0));
    read(&mut table, Constant::StatusesIgnore, ConstantValue::Address(0));
    assert_eq!(RSMPI_DATATYPE_NULL_fn(&table), Some(usize::MAX));
    assert_eq!(RSMPI_COMM_NULL_fn(&table), Some(0));
    assert_eq!(RSMPI_PROC_NULL_fn(&table), Some(i32::MIN));
    assert_eq!(RSMPI_MAX_PROCESSOR_NAME_fn(&table), Some(i32::MAX));
    assert_eq!(RSMPI_CONGRUENT_fn(&table), Some(0));
    assert_eq!(RSMPI_STATUSES_IGNORE_fn(&table), Some(0));
}

#[test]
fn success_code_is_zero_with_no_library() {
    assert_eq!(RSMPI_SUCCESS_fn(), 0);
    let mut table = ConstantTable::new();
    assert_eq!(RSMPI_SUCCESS_fn(), 0);
    for constant in ALL {
        read(&mut table, constant, sample(constant));
        assert_ne!(constant.symbol(), "MPI_SUCCESS");
    }
    assert_eq!(RSMPI_SUCCESS_fn(), 0);
}

/// A library that exports a communicator constant and a barrier, standing
/// in for a shared object: addresses are places in its two tables.
struct StubLibrary {
    constants: Vec<(&'static str, usize)>,
    functions: Vec<(&'static str, fn(usize) -> i32)>,
}

const FUNCTION_BASE: usize = 0x4000;

const CONSTANT_BASE: usize = 0x8000;

impl StubLibrary {
    fn lookup(&self, name: &[u8]) -> Option<usize> {
        for (place, (symbol, _)) in self.constants.iter().enumerate() {
            if symbol.as_bytes() == name {
                return Some(CONSTANT_BASE + place);
            }
        }
        for (place, (symbol, _)) in self.functions.iter().enumerate() {
            if symbol.as_bytes() == name {
                return Some(FUNCTION_BASE + place);
            }
        }
        None
    }

    fn read(&self, address: usize) -> usize {
        self.constants[address - CONSTANT_BASE].1
    }

    fn call(&self, address: usize, comm: usize) -> i32 {
        (self.functions[address - FUNCTION_BASE].1)(comm)
    }
}

fn stub_barrier(_comm: usize) -> i32 {
    0
}

fn resolve(loader: &mut Loader, stub: &StubLibrary, name: &[u8]) -> Result<usize, LoadError> {
    let mut event = SymbolEvent::Requested;
    loop {
        match get_symbol(loader, name, event) {
            SymbolAction::Use(address) => return Ok(address),
            SymbolAction::Lookup => {
                event = match stub.lookup(name) {
                    Some(address) => SymbolEvent::Found(address),
                    None => SymbolEvent::Missing("undefined symbol".to_string()),
                }
            }
            SymbolAction::OpenLibrary => panic!("the library is open"),
            SymbolAction::Abort(error) => return Err(error),
        }
    }
}

#[test]
fn barrier_on_a_stub_library_succeeds_for_any_handle() {
    let stub = StubLibrary {
        constants: vec![("RSMPI_COMM_WORLD", 1)],
        functions: vec![("MPI_Barrier", stub_barrier)],
    };
    let mut loader = Loader::new();
    assert_eq!(library(&mut loader, LibraryEvent::Requested), LibraryAction::ReadVariable);
    assert_eq!(
        library(&mut loader, LibraryEvent::Variable(Some("libstub.so".to_string()))),
        LibraryAction::Open("libstub.so".to_string())
    );
    assert_eq!(library(&mut loader, LibraryEvent::Opened), LibraryAction::Ready);

    let mut table = ConstantTable::new();
    assert_eq!(RSMPI_COMM_WORLD_fn(&table), None);
    let mut event = ConstantEvent::Requested;
    let world = loop {
        match table.resolve(Constant::CommWorld, event) {
            ConstantAction::Use(ConstantValue::Handle(handle)) => break handle,
            ConstantAction::Use(other) => panic!("unexpected value {:?}", other),
            ConstantAction::Read { symbol, kind } => {
                assert_eq!(symbol, "RSMPI_COMM_WORLD");
                assert_eq!(kind, ConstantKind::Handle);
                let place = resolve(&mut loader, &stub, symbol.as_bytes()).unwrap();
                event = ConstantEvent::Read(ConstantValue::Handle(stub.read(place)));
            }
        }
    };
    assert_eq!(world, 1);
    assert_eq!(RSMPI_COMM_WORLD_fn(&table), Some(1));

    let barrier = resolve(&mut loader, &stub, b"MPI_Barrier").unwrap();
    assert_eq!(stub.call(barrier, world), 0);
    assert_eq!(stub.call(barrier, 999), 0);
    assert_eq!(stub.call(barrier, world), RSMPI_SUCCESS_fn());
    assert_eq!(stub.call(barrier, 999), RSMPI_SUCCESS_fn());
    assert_eq!(stub.lookup(b"MPI_SUCCESS"), None);
    assert_eq!(resolve(&mut loader, &stub, b"MPI_Barrier"), Ok(barrier));

    let missing = resolve(&mut loader, &stub, b"MPI_Bcast");
    assert_eq!(
        missing,
        Err(LoadError::SymbolNotFound {
            name: b"MPI_Bcast".to_vec(),
            cause: "undefined symbol".to_string(),
        })
    );
    assert_eq!(resolve(&mut loader, &stub, b"MPI_Barrier"), Ok(barrier));
    assert_eq!(RSMPI_COMM_WORLD_fn(&table), Some(1));
}
