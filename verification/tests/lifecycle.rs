use saxaboom::audit::ReleaseLog;
use saxaboom::calls::NativeCall;
use saxaboom::handles::BinaryOutcome;
use saxaboom::handles::MetalIrConverter;
use saxaboom::handles::ReflectionOutcome;
use saxaboom::reflection::IRCSInfo;
use saxaboom::reflection::ReflectionStage;
use saxaboom::table::FunctionTable;
use saxaboom::table::SYMBOL_COUNT;

fn converter() -> MetalIrConverter {
    let resolved = (0..SYMBOL_COUNT as u64).map(|i| 0x1000 + i).collect();
    MetalIrConverter::new(FunctionTable::load(resolved).expect("complete table"))
}

/// Record one destroy call into the ledger, as a shim would, and fail on a
/// handle that was already destroyed.
fn record(log: &mut ReleaseLog, call: NativeCall) {
    let handle = match call {
        NativeCall::CompilerDestroy { compiler } => compiler,
        NativeCall::ObjectDestroy { object } => object,
        NativeCall::RootSignatureDestroy { root_signature } => root_signature,
        NativeCall::MetalLibBinaryDestroy { binary } => binary,
        NativeCall::ShaderReflectionDestroy { reflection } => reflection,
        NativeCall::ErrorDestroy { error } => error,
        NativeCall::ShaderReflectionReleaseStageInfo { info, .. } => info,
        other => panic!("not a destroy call: {other:?}"),
    };
    assert!(log.record_destroy(handle), "handle destroyed twice");
}

#[test]
fn every_handle_kind_is_released_exactly_once() {
    let conv = converter();
    let mut handles: Vec<NativeCall> = Vec::new();

    // Construct a few handles of every kind, with distinct raw values, the
    // way the shim would after each native call returned.
    let c1 = conv.create_compiler(0x11);
    let c2 = conv.create_compiler(0x12);
    let o1 = conv.create_object_from_dxil(0x21);
    let o2 = conv.create_object_from_dxil(0x22);
    let rs = match conv.create_root_signature_from_descriptor(0x31, None) {
        Ok(rs) => rs,
        Err(_) => panic!("no error was handed in"),
    };
    let b1 = match o1.metal_lib_binary(0x41, true) {
        BinaryOutcome::Filled(b) => b,
        BinaryOutcome::Dispose(_) => panic!("was filled"),
    };
    let r1 = match o1.reflection(0x51, true) {
        ReflectionOutcome::Filled(r) => r,
        ReflectionOutcome::Dispose(_) => panic!("was filled"),
    };
    let info = r1
        .compute_info(1, Some((IRCSInfo { threadgroupSize: [8, 8, 1] }, 0x61)))
        .expect("was copied");

    // Drop them in an arbitrary order.
    handles.push(o2.release());
    handles.push(c1.release());
    handles.push(info.release());
    handles.push(rs.release());
    handles.push(b1.release());
    handles.push(r1.release());
    handles.push(c2.release());
    handles.push(o1.release());

    let mut log = ReleaseLog::new();
    let n = handles.len();
    for call in handles {
        record(&mut log, call);
    }
    assert_eq!(log.len(), n);

    // A second destroy of an already-destroyed handle is refused.
    assert!(!log.record_destroy(0x11));
    assert_eq!(log.len(), n);
}

#[test]
fn release_names_the_handle_it_was_given() {
    let conv = converter();
    let c = conv.create_compiler(0x77);
    assert_eq!(c.release(), NativeCall::CompilerDestroy { compiler: 0x77 });
    let o = conv.create_object_from_dxil(0x78);
    assert_eq!(o.release(), NativeCall::ObjectDestroy { object: 0x78 });
}

#[test]
fn stage_info_release_pairs_with_its_accessor() {
    let conv = converter();
    let o = conv.create_object_from_dxil(0x21);
    let r = match o.reflection(0x51, true) {
        ReflectionOutcome::Filled(r) => r,
        ReflectionOutcome::Dispose(_) => panic!("was filled"),
    };

    let cs = r.compute_info(1, Some((IRCSInfo { threadgroupSize: [1, 2, 3] }, 0xA1)));
    assert_eq!(
        cs.expect("copied").release(),
        NativeCall::ShaderReflectionReleaseStageInfo { stage: ReflectionStage::Compute, info: 0xA1 }
    );
    let vs = r.vertex_info(1, Some((vec![1, 2], 0xA2)));
    assert_eq!(
        vs.expect("copied").release(),
        NativeCall::ShaderReflectionReleaseStageInfo { stage: ReflectionStage::Vertex, info: 0xA2 }
    );
    let fs = r.fragment_info(1, Some((vec![], 0xA3)));
    assert_eq!(
        fs.expect("copied").release(),
        NativeCall::ShaderReflectionReleaseStageInfo { stage: ReflectionStage::Fragment, info: 0xA3 }
    );
    let gs = r.geometry_info(1, Some((vec![], 0xA4)));
    assert_eq!(
        gs.expect("copied").release(),
        NativeCall::ShaderReflectionReleaseStageInfo { stage: ReflectionStage::Geometry, info: 0xA4 }
    );
    let hs = r.hull_info(1, Some((vec![], 0xA5)));
    assert_eq!(
        hs.expect("copied").release(),
        NativeCall::ShaderReflectionReleaseStageInfo { stage: ReflectionStage::Hull, info: 0xA5 }
    );
    let ds = r.domain_info(1, Some((vec![], 0xA6)));
    assert_eq!(
        ds.expect("copied").release(),
        NativeCall::ShaderReflectionReleaseStageInfo { stage: ReflectionStage::Domain, info: 0xA6 }
    );
    let ms = r.mesh_info(1, Some((vec![], 0xA7)));
    assert_eq!(
        ms.expect("copied").release(),
        NativeCall::ShaderReflectionReleaseStageInfo { stage: ReflectionStage::Mesh, info: 0xA7 }
    );
    let amp = r.amplification_info(1, Some((vec![], 0xA8)));
    assert_eq!(
        amp.expect("copied").release(),
        NativeCall::ShaderReflectionReleaseStageInfo {
            stage: ReflectionStage::Amplification,
            info: 0xA8,
        }
    );
    let rt = r.raytracing_info(1, Some((vec![], 0xA9)));
    assert_eq!(
        rt.expect("copied").release(),
        NativeCall::ShaderReflectionReleaseStageInfo { stage: ReflectionStage::Raytracing, info: 0xA9 }
    );
}

#[test]
fn failed_container_fill_still_owes_one_destroy() {
    let conv = converter();
    let o = conv.create_object_from_dxil(0x21);

    match o.metal_lib_binary(0x41, false) {
        BinaryOutcome::Dispose(c) => {
            assert_eq!(c, NativeCall::MetalLibBinaryDestroy { binary: 0x41 })
        }
        BinaryOutcome::Filled(_) => panic!("was not filled"),
    }
    match o.reflection(0x51, false) {
        ReflectionOutcome::Dispose(c) => {
            assert_eq!(c, NativeCall::ShaderReflectionDestroy { reflection: 0x51 })
        }
        ReflectionOutcome::Filled(_) => panic!("was not filled"),
    }
}
