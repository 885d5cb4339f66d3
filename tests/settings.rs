use fluvio_ex::admin::topic_request;
use fluvio_ex::consumer::{
    absolute_offset, consumer_settings, new_sm_ctx_data, new_sm_from_bytes, offset_from_atom,
    smartmodule_payload, OffsetAnchor, SmartModuleContext,
};
use fluvio_ex::error::{AdapterError, ErrorKind};
use fluvio_ex::producer::{
    compression_from_atom, producer_settings, CompressionChoice, ProducerSettings,
};
use std::io::Read;

fn gunzip(bytes: &[u8]) -> Vec<u8> {
    let mut out = Vec::new();
    flate2::read::GzDecoder::new(bytes).read_to_end(&mut out).unwrap();
    out
}

#[test]
fn recognized_compression_symbols() {
    assert_eq!(compression_from_atom("none").unwrap(), CompressionChoice::Uncompressed);
    assert_eq!(compression_from_atom("gzip").unwrap(), CompressionChoice::Gzip);
    assert_eq!(compression_from_atom("snappy").unwrap(), CompressionChoice::Snappy);
    assert_eq!(compression_from_atom("lz4").unwrap(), CompressionChoice::Lz4);
}

#[test]
fn invalid_compression_is_invalid_argument() {
    let err = producer_settings(None, None, Some("brotli"), None).unwrap_err();
    assert_eq!(err.kind(), ErrorKind::InvalidArgument);
    assert!(matches!(err, AdapterError::UnsupportedCompression(ref s) if s == "brotli"));
    assert!(compression_from_atom("GZIP").is_err());
    assert!(compression_from_atom("").is_err());
}

#[test]
fn producer_defaults() {
    let s = producer_settings(None, None, None, None).unwrap();
    assert_eq!(
        s,
        ProducerSettings {
            linger_ms: 100,
            batch_size_bytes: 16_384,
            compression: CompressionChoice::Uncompressed,
            timeout_ms: 1500,
        }
    );
}

#[test]
fn producer_given_values() {
    let s = producer_settings(Some(5), Some(1024), Some("lz4"), Some(9000)).unwrap();
    assert_eq!(s.linger_ms, 5);
    assert_eq!(s.batch_size_bytes, 1024);
    assert_eq!(s.compression, CompressionChoice::Lz4);
    assert_eq!(s.timeout_ms, 9000);
}

#[test]
fn recognized_offset_kinds() {
    assert_eq!(offset_from_atom("from_beginning", 3).unwrap(), OffsetAnchor::FromBeginning(3));
    assert_eq!(offset_from_atom("from_end", 7).unwrap(), OffsetAnchor::FromEnd(7));
    assert_eq!(offset_from_atom("absolute", 12).unwrap(), OffsetAnchor::Absolute(12));
}

#[test]
fn unknown_offset_kind_is_invalid_argument() {
    let err = offset_from_atom("latest", 0).unwrap_err();
    assert_eq!(err.kind(), ErrorKind::InvalidArgument);
    assert!(matches!(err, AdapterError::UnsupportedOffsetKind(ref s) if s == "latest"));
    let err = consumer_settings("latest", 0, None, Some(vec![1, 2]), None, None).unwrap_err();
    assert!(matches!(err, AdapterError::UnsupportedOffsetKind(_)));
}

#[test]
fn absolute_offset_largest_value_fits() {
    assert_eq!(
        offset_from_atom("absolute", u32::MAX).unwrap(),
        OffsetAnchor::Absolute(4_294_967_295)
    );
}

#[test]
fn negative_absolute_offset_is_invalid_argument() {
    let err = absolute_offset(-1).unwrap_err();
    assert_eq!(err.kind(), ErrorKind::InvalidArgument);
    assert!(matches!(err, AdapterError::NegativeOffset(-1)));
    assert_eq!(absolute_offset(0).unwrap(), OffsetAnchor::Absolute(0));
}

#[test]
fn context_from_symbols() {
    assert!(matches!(new_sm_ctx_data(None, None), SmartModuleContext::NoContext));
    assert!(matches!(new_sm_ctx_data(Some("none"), Some(vec![1])), SmartModuleContext::NoContext));
    match new_sm_ctx_data(Some("aggregate"), Some(vec![4, 5])) {
        SmartModuleContext::Aggregate(a) => assert_eq!(a, vec![4, 5]),
        _ => panic!("expected an aggregate context"),
    }
    match new_sm_ctx_data(Some("aggregate"), None) {
        SmartModuleContext::Aggregate(a) => assert!(a.is_empty()),
        _ => panic!("expected an aggregate context"),
    }
}

#[test]
fn smartmodule_bytes_are_gzipped() {
    let wasm = b"\0asm module bytes".to_vec();
    let p = new_sm_from_bytes(&wasm, SmartModuleContext::NoContext).unwrap();
    assert_ne!(p.wasm, wasm);
    assert_eq!(&p.wasm[..2], &[0x1f, 0x8b]);
    assert_eq!(gunzip(&p.wasm), wasm);
    let q = smartmodule_payload(vec![9, 8], SmartModuleContext::NoContext);
    assert_eq!(q.wasm, vec![9, 8]);
}

#[test]
fn smartmodule_aggregate_settings() {
    let wasm = vec![0u8, 97, 115, 109, 1, 0, 0, 0];
    let c = consumer_settings(
        "from_beginning",
        0,
        None,
        Some(wasm.clone()),
        Some("aggregate"),
        Some(vec![7, 7]),
    )
    .unwrap();
    assert_eq!(c.offset, OffsetAnchor::FromBeginning(0));
    let sm = c.smartmodule.unwrap();
    assert_eq!(gunzip(&sm.wasm), wasm);
    match sm.context {
        SmartModuleContext::Aggregate(a) => assert_eq!(a, vec![7, 7]),
        _ => panic!("expected an aggregate context"),
    }
}

#[test]
fn consumer_default_max_bytes() {
    let c = consumer_settings("from_end", 2, None, None, None, None).unwrap();
    assert_eq!(c.max_bytes, 1_048_588);
    assert_eq!(c.offset, OffsetAnchor::FromEnd(2));
    assert!(c.smartmodule.is_none());
    let c = consumer_settings("absolute", 5, Some(4096), None, None, None).unwrap();
    assert_eq!(c.max_bytes, 4096);
}

#[test]
fn topic_request_validation() {
    let t = topic_request("t1", 1, 1, None).unwrap();
    assert_eq!(t.name, "t1");
    assert_eq!((t.partitions, t.replication, t.ignore_rack), (1, 1, None));
    for (name, p, r) in [("", 1, 1), ("t1", 0, 1), ("t1", 1, 0), ("t1", -3, 2)] {
        let err = topic_request(name, p, r, Some(true)).unwrap_err();
        assert_eq!(err.kind(), ErrorKind::InvalidArgument);
    }
}
