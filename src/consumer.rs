use vstd::prelude::*;
use crate::atom::{symbol_eq, sym_absolute, sym_aggregate, sym_from_beginning, sym_from_end};
use crate::error::{kind_of, AdapterError, ErrorKind};

verus! {

/// Where a consumer's stream starts.
#[derive(PartialEq, Eq, Structural, Clone, Copy, Debug)]
pub enum OffsetAnchor {
    /// `n` records after the earliest available one.
    FromBeginning(u32),
    /// `n` records before the tail.
    FromEnd(u32),
    /// The log position `n`, never negative.
    Absolute(i64),
}

/// The anchor an offset kind and value name, if the kind is recognized.
pub open spec fn offset_of(kind: Seq<char>, value: u32) -> Option<OffsetAnchor> {
    if kind == sym_from_beginning() {
        Some(OffsetAnchor::FromBeginning(value))
    } else if kind == sym_from_end() {
        Some(OffsetAnchor::FromEnd(value))
    } else if kind == sym_absolute() {
        Some(OffsetAnchor::Absolute(value as i64))
    } else {
        None
    }
}

/// Whether `r` is the rejection of the offset kind `s`.
pub open spec fn rejects_offset_kind(r: AdapterError, s: Seq<char>) -> bool {
    match r {
        AdapterError::UnsupportedOffsetKind(t) => t@ == s,
        _ => false,
    }
}

/// An absolute anchor at `index`; negative positions are refused.
pub fn absolute_offset(index: i64) -> (r: Result<OffsetAnchor, AdapterError>)
    ensures
        index >= 0 ==> r == Ok::<OffsetAnchor, AdapterError>(OffsetAnchor::Absolute(index)),
        index < 0 ==> r == Err::<OffsetAnchor, AdapterError>(AdapterError::NegativeOffset(index)),
{
    if index < 0 {
        Err(AdapterError::NegativeOffset(index))
    } else {
        Ok(OffsetAnchor::Absolute(index))
    }
}

/// Translates an offset kind and value into an anchor; an unknown kind is
/// refused before anything is opened.
pub fn offset_from_atom(offset_type: &str, offset_value: u32) -> (r: Result<
    OffsetAnchor,
    AdapterError,
>)
    ensures
        offset_of(offset_type@, offset_value) is Some ==> r == Ok::<OffsetAnchor, AdapterError>(
            offset_of(offset_type@, offset_value)->0,
        ),
        offset_of(offset_type@, offset_value) is None ==> (r is Err && rejects_offset_kind(
            r->Err_0,
            offset_type@,
        )),
{
    proof {
        reveal_strlit("from_beginning");
        reveal_strlit("from_end");
        reveal_strlit("absolute");
        assert("from_beginning"@ =~= sym_from_beginning());
        assert("from_end"@ =~= sym_from_end());
        assert("absolute"@ =~= sym_absolute());
    }
    if symbol_eq(offset_type, "from_beginning") {
        Ok(OffsetAnchor::FromBeginning(offset_value))
    } else if symbol_eq(offset_type, "from_end") {
        Ok(OffsetAnchor::FromEnd(offset_value))
    } else if symbol_eq(offset_type, "absolute") {
        absolute_offset(offset_value as i64)
    } else {
        Err(AdapterError::UnsupportedOffsetKind(offset_type.to_owned()))
    }
}

/// State handed to a smart module on the broker.
#[derive(Clone, Debug)]
pub enum SmartModuleContext {
    NoContext,
    Aggregate(Vec<u8>),
}

/// Whether `r` is the context that the symbol `atom` and accumulator `acc` ask for.
pub open spec fn is_context_for(r: SmartModuleContext, atom: Option<&str>, acc: Option<Vec<u8>>) -> bool {
    if atom is Some && atom->0@ == sym_aggregate() {
        r matches SmartModuleContext::Aggregate(a) && a@ == match acc {
            Some(v) => v@,
            None => Seq::<u8>::empty(),
        }
    } else {
        r is NoContext
    }
}

/// Derives the smart-module context from the host's symbol and accumulator:
/// `aggregate` carries the accumulator (empty when absent), anything else
/// carries nothing.
pub fn new_sm_ctx_data(atom: Option<&str>, acc: Option<Vec<u8>>) -> (r: SmartModuleContext)
    ensures
        is_context_for(r, atom, acc),
{
    proof {
        reveal_strlit("aggregate");
        assert("aggregate"@ =~= sym_aggregate());
    }
    let is_aggregate = match atom {
        Some(a) => symbol_eq(a, "aggregate"),
        None => false,
    };
    if is_aggregate {
        let accumulator = match acc {
            Some(v) => v,
            None => Vec::new(),
        };
        SmartModuleContext::Aggregate(accumulator)
    } else {
        SmartModuleContext::NoContext
    }
}

/// What the gzip encoder at its default level makes of a byte sequence.
pub uninterp spec fn gzip_of(b: Seq<u8>) -> Seq<u8>;

/// Relies on flate2::bufread::GzEncoder with flate2::Compression::default():
/// the header carries no time stamp, so the stream depends on the input alone,
/// and reading it from an in-memory slice does not fail.
#[verifier::external_body]
fn gzip_default(bytes: &[u8]) -> (r: Result<Vec<u8>, String>)
    ensures
        r is Ok,
        r->Ok_0@ == gzip_of(bytes@),
{
    let mut encoder = flate2::bufread::GzEncoder::new(bytes, flate2::Compression::default());
    let mut out = Vec::with_capacity(bytes.len());
    match std::io::Read::read_to_end(&mut encoder, &mut out) {
        Ok(_) => Ok(out),
        Err(err) => Err(err.to_string()),
    }
}

/// An ad-hoc smart module: its compressed bytes and the context it runs with.
#[derive(Clone, Debug)]
pub struct SmartModulePayload {
    pub wasm: Vec<u8>,
    pub context: SmartModuleContext,
}

/// Wraps an already compressed artifact as an ad-hoc invocation.
pub fn smartmodule_payload(compressed: Vec<u8>, context: SmartModuleContext) -> (r:
    SmartModulePayload)
    ensures
        r.wasm@ == compressed@,
        r.context == context,
{
    SmartModulePayload { wasm: compressed, context }
}

/// Compresses the artifact's bytes and wraps them with their context.
pub fn new_sm_from_bytes(buffer: &[u8], context: SmartModuleContext) -> (r: Result<
    SmartModulePayload,
    AdapterError,
>)
    ensures
        r is Ok,
        r->Ok_0.wasm@ == gzip_of(buffer@),
        r->Ok_0.context == context,
{
    match gzip_default(buffer) {
        Ok(compressed) => Ok(smartmodule_payload(compressed, context)),
        Err(msg) => Err(AdapterError::Compression(msg)),
    }
}

/// Relies on fluvio_types::defaults::FLUVIO_CLIENT_MAX_FETCH_BYTES, the
/// client's documented largest fetch size.
#[verifier::external_body]
fn client_max_fetch_bytes() -> (r: i32)
    ensures
        r == 1_048_588,
{
    fluvio_types::defaults::FLUVIO_CLIENT_MAX_FETCH_BYTES
}

/// Everything a consumer is built with, validated.
#[derive(Clone, Debug)]
pub struct ConsumerSettings {
    pub offset: OffsetAnchor,
    pub max_bytes: i32,
    pub smartmodule: Option<SmartModulePayload>,
}

/// Validates and translates the consumer's inputs in the order the host sees
/// failures: only an unknown offset kind is refused.
/// `sm_bytes` holds the artifact's contents when a path was given.
pub fn consumer_settings(
    offset_type: &str,
    offset_value: u32,
    max_bytes: Option<i32>,
    sm_bytes: Option<Vec<u8>>,
    sm_ctx_data: Option<&str>,
    sm_ctx_data_acc: Option<Vec<u8>>,
) -> (r: Result<ConsumerSettings, AdapterError>)
    ensures
        offset_of(offset_type@, offset_value) is None ==> (r is Err && rejects_offset_kind(
            r->Err_0,
            offset_type@,
        )),
        offset_of(offset_type@, offset_value) is Some ==> r is Ok,
        r is Ok ==> ({
            let c = r->Ok_0;
            &&& c.offset == offset_of(offset_type@, offset_value)->0
            &&& c.max_bytes == match max_bytes {
                Some(m) => m,
                None => 1_048_588,
            }
            &&& (c.smartmodule is Some <==> sm_bytes is Some)
            &&& sm_bytes is Some ==> c.smartmodule->0.wasm@ == gzip_of(sm_bytes->0@)
                && is_context_for(c.smartmodule->0.context, sm_ctx_data, sm_ctx_data_acc)
        }),
{
    let offset = match offset_from_atom(offset_type, offset_value) {
        Ok(o) => o,
        Err(e) => return Err(e),
    };
    let smartmodule = match sm_bytes {
        Some(bytes) => {
            let context = new_sm_ctx_data(sm_ctx_data, sm_ctx_data_acc);
            match new_sm_from_bytes(bytes.as_slice(), context) {
                Ok(p) => Some(p),
                Err(e) => return Err(e),
            }
        },
        None => None,
    };
    let max_bytes = match max_bytes {
        Some(m) => m,
        None => client_max_fetch_bytes(),
    };
    Ok(ConsumerSettings { offset, max_bytes, smartmodule })
}

/// Only the three recognized offset kinds yield an anchor; every other kind
/// is refused as an invalid argument, whatever the value.
pub proof fn lemma_offset_kinds(kind: Seq<char>, value: u32)
    ensures
        (kind == sym_from_beginning() || kind == sym_from_end() || kind == sym_absolute())
            <==> offset_of(kind, value) is Some,
        forall|e: AdapterError| #[trigger] rejects_offset_kind(e, kind) ==> kind_of(e)
            == ErrorKind::InvalidArgument,
{
}

} // verus!
