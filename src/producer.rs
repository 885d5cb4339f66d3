use vstd::prelude::*;
use crate::atom::{symbol_eq, sym_gzip, sym_lz4, sym_none, sym_snappy};
use crate::error::{kind_of, AdapterError, ErrorKind};

verus! {

pub const DEFAULT_LINGER_MS: u64 = 100;

pub const DEFAULT_BATCH_SIZE_BYTES: usize = 16_384;

pub const DEFAULT_TIMEOUT_MS: u64 = 1500;

/// Codec applied to record batches by a producer.
#[derive(PartialEq, Eq, Structural, Clone, Copy, Debug)]
pub enum CompressionChoice {
    Uncompressed,
    Gzip,
    Snappy,
    Lz4,
}

/// The codec a compression symbol names, if it names one.
pub open spec fn compression_of(s: Seq<char>) -> Option<CompressionChoice> {
    if s == sym_none() {
        Some(CompressionChoice::Uncompressed)
    } else if s == sym_gzip() {
        Some(CompressionChoice::Gzip)
    } else if s == sym_snappy() {
        Some(CompressionChoice::Snappy)
    } else if s == sym_lz4() {
        Some(CompressionChoice::Lz4)
    } else {
        None
    }
}

/// Whether `r` is the rejection of the compression symbol `s`.
pub open spec fn rejects_compression(r: AdapterError, s: Seq<char>) -> bool {
    match r {
        AdapterError::UnsupportedCompression(t) => t@ == s,
        _ => false,
    }
}

/// Translates a compression symbol; anything but the four codecs is refused.
pub fn compression_from_atom(value: &str) -> (r: Result<CompressionChoice, AdapterError>)
    ensures
        compression_of(value@) is Some ==> r == Ok::<CompressionChoice, AdapterError>(
            compression_of(value@)->0,
        ),
        compression_of(value@) is None ==> (r is Err && rejects_compression(r->Err_0, value@)),
{
    proof {
        reveal_strlit("none");
        reveal_strlit("gzip");
        reveal_strlit("snappy");
        reveal_strlit("lz4");
        assert("none"@ =~= sym_none());
        assert("gzip"@ =~= sym_gzip());
        assert("snappy"@ =~= sym_snappy());
        assert("lz4"@ =~= sym_lz4());
    }
    if symbol_eq(value, "none") {
        Ok(CompressionChoice::Uncompressed)
    } else if symbol_eq(value, "gzip") {
        Ok(CompressionChoice::Gzip)
    } else if symbol_eq(value, "snappy") {
        Ok(CompressionChoice::Snappy)
    } else if symbol_eq(value, "lz4") {
        Ok(CompressionChoice::Lz4)
    } else {
        Err(AdapterError::UnsupportedCompression(value.to_owned()))
    }
}

/// Settings a producer is built with; fixed for its lifetime.
#[derive(PartialEq, Eq, Structural, Clone, Copy, Debug)]
pub struct ProducerSettings {
    pub linger_ms: u64,
    pub batch_size_bytes: usize,
    pub compression: CompressionChoice,
    pub timeout_ms: u64,
}

/// Resolves the optional producer settings against their defaults and
/// validates the compression symbol, before any connection is made.
pub fn producer_settings(
    linger_ms: Option<u64>,
    batch_size_bytes: Option<usize>,
    compression: Option<&str>,
    timeout_ms: Option<u64>,
) -> (r: Result<ProducerSettings, AdapterError>)
    ensures
        match compression {
            Some(c) => compression_of(c@) is None ==> (r is Err && rejects_compression(
                r->Err_0,
                c@,
            )),
            None => true,
        },
        r is Ok <==> (compression is None || compression_of(compression->0@) is Some),
        r is Ok ==> r->Ok_0 == (ProducerSettings {
            linger_ms: match linger_ms {
                Some(v) => v,
                None => DEFAULT_LINGER_MS,
            },
            batch_size_bytes: match batch_size_bytes {
                Some(v) => v,
                None => DEFAULT_BATCH_SIZE_BYTES,
            },
            compression: match compression {
                Some(c) => compression_of(c@)->0,
                None => CompressionChoice::Uncompressed,
            },
            timeout_ms: match timeout_ms {
                Some(v) => v,
                None => DEFAULT_TIMEOUT_MS,
            },
        }),
{
    let compression = match compression {
        Some(c) => match compression_from_atom(c) {
            Ok(choice) => choice,
            Err(e) => return Err(e),
        },
        None => CompressionChoice::Uncompressed,
    };
    let linger_ms = match linger_ms {
        Some(v) => v,
        None => DEFAULT_LINGER_MS,
    };
    let batch_size_bytes = match batch_size_bytes {
        Some(v) => v,
        None => DEFAULT_BATCH_SIZE_BYTES,
    };
    let timeout_ms = match timeout_ms {
        Some(v) => v,
        None => DEFAULT_TIMEOUT_MS,
    };
    Ok(ProducerSettings { linger_ms, batch_size_bytes, compression, timeout_ms })
}

/// Every recognized compression symbol yields a producer configuration, and
/// every other symbol is refused as an invalid argument.
pub proof fn lemma_compression_symbols(s: Seq<char>)
    ensures
        (s == sym_none() || s == sym_gzip() || s == sym_snappy() || s == sym_lz4())
            <==> compression_of(s) is Some,
        forall|e: AdapterError| #[trigger] rejects_compression(e, s) ==> kind_of(e)
            == ErrorKind::InvalidArgument,
{
}

} // verus!
