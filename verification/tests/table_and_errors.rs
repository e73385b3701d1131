use saxaboom::error::IRError;
use saxaboom::error::IRErrorCode;
use saxaboom::calls::NativeCall;
use saxaboom::table::FunctionTable;
use saxaboom::table::LoadError;
use saxaboom::table::Symbol;
use saxaboom::table::SYMBOL_COUNT;

fn full_table() -> Vec<u64> {
    (0..SYMBOL_COUNT as u64).map(|i| 0x1000 + i).collect()
}

#[test]
fn load_accepts_a_complete_table() {
    let t = FunctionTable::load(full_table()).expect("complete table");
    assert_eq!(t.addr(Symbol::CompilerCreate), 0x1000);
    assert_eq!(t.addr(Symbol::ErrorDestroy), 0x1000 + SYMBOL_COUNT as u64 - 1);
}

#[test]
fn load_fails_atomically_on_wrong_count() {
    let r = FunctionTable::load(vec![1; SYMBOL_COUNT - 1]);
    match r {
        Err(LoadError::WrongCount { got }) => assert_eq!(got, SYMBOL_COUNT - 1),
        _ => panic!("expected a wrong-count failure"),
    }
}

#[test]
fn load_fails_atomically_on_missing_entry_point() {
    let mut resolved = full_table();
    resolved[17] = 0;
    match FunctionTable::load(resolved) {
        Err(LoadError::MissingEntryPoint { index }) => assert_eq!(index, 17),
        _ => panic!("expected a missing-entry-point failure"),
    }
}

#[test]
fn symbol_indices_roundtrip_and_names_are_distinct() {
    let mut names: Vec<&'static str> = Vec::new();
    for i in 0..SYMBOL_COUNT {
        let s = Symbol::of_index(i).expect("index in range");
        assert_eq!(s.index(), i);
        let name = s.name();
        assert!(name.starts_with("IR"));
        assert!(!names.contains(&name));
        names.push(name);
    }
    assert!(Symbol::of_index(SYMBOL_COUNT).is_none());
}

#[test]
fn error_codes_roundtrip_through_their_values() {
    let codes = [
        IRErrorCode::NoError,
        IRErrorCode::ShaderRequiresRootSignature,
        IRErrorCode::UnrecognizedRootSignatureDescriptor,
        IRErrorCode::UnrecognizedParameterTypeInRootSignature,
        IRErrorCode::ResourceNotReferencedByRootSignature,
        IRErrorCode::ShaderIncompatibleWithDualSourceBlending,
        IRErrorCode::UnsupportedWaveSize,
        IRErrorCode::UnsupportedInstruction,
        IRErrorCode::CompilationError,
        IRErrorCode::FailedToSynthesizeStageInFunction,
        IRErrorCode::FailedToSynthesizeStreamOutFunction,
        IRErrorCode::FailedToSynthesizeIndirectIntersectionFunction,
        IRErrorCode::UnableToVerifyModule,
        IRErrorCode::UnableToLinkModule,
        IRErrorCode::UnrecognizedDXILHeader,
        IRErrorCode::InvalidRaytracingAttribute,
        IRErrorCode::Unknown,
    ];
    for (i, c) in codes.iter().enumerate() {
        assert_eq!(c.value(), i as u32);
        assert_eq!(IRErrorCode::from_raw(i as u32), Some(*c));
    }
    assert_eq!(IRErrorCode::from_raw(17), None);
    assert_eq!(IRErrorCode::from_raw(0xFFFF_FFFF), None);
}

#[test]
fn unknown_raw_code_refuses_to_wrap() {
    assert!(IRError::wrap(0x50, 17, Vec::new()).is_none());
}

#[test]
fn wrapped_error_reads_payload_before_release() {
    assert_eq!(IRError::code_call(0x50), NativeCall::ErrorGetCode { error: 0x50 });
    assert_eq!(IRError::payload_call(0x50), NativeCall::ErrorGetPayload { error: 0x50 });
    let e = IRError::wrap(0x50, 8, b"bad shader".to_vec()).expect("known code");
    assert_eq!(e.code(), IRErrorCode::CompilationError);
    assert_eq!(e.payload().as_slice(), b"bad shader");
    assert_eq!(e.release(), NativeCall::ErrorDestroy { error: 0x50 });
}
