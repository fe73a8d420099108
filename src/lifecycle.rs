//! Loading of workflow bundles: what to compile, how to configure a fresh
//! instance, and which entry points belong to it.
use vstd::prelude::*;

verus! {

/// The data that decompressing the gzip stream `b` yields, or `None` where `b`
/// is not a well-formed gzip stream.
pub uninterp spec fn gzip_decoded(b: Seq<u8>) -> Option<Seq<u8>>;

/// Relies on libflate::non_blocking::gzip::Decoder: reading a stream to its
/// end yields the decompressed data, and fails on a malformed stream or a
/// checksum mismatch. Its DEFLATE reader walks the blocks in a loop, so no
/// number of blocks deepens the stack.
#[verifier::external_body]
fn gunzip(b: &[u8]) -> (r: Option<Vec<u8>>)
    ensures
        match r {
            Some(v) => gzip_decoded(b@) == Some(v@),
            None => gzip_decoded(b@) is None,
        },
{
    let mut decoder = libflate::non_blocking::gzip::Decoder::new(b);
    let mut out: Vec<u8> = Vec::new();
    match std::io::Read::read_to_end(&mut decoder, &mut out) {
        Ok(_) => Some(out),
        Err(_) => None,
    }
}

/// Why a bundle could not be turned into module bytes.
#[derive(Debug, Clone, Copy, PartialEq, Eq, Structural)]
pub enum BundleError {
    NotGzip,
}

/// What is found at the configured bundle location.
pub enum BundleSource {
    Missing,
    Present(Vec<u8>),
}

/// What the loader instantiates.
#[derive(Debug, PartialEq, Eq)]
pub enum ModulePlan {
    /// No bundle yet: an empty module under the default identifier.
    Unprovisioned,
    /// Compile these module bytes.
    Compile(Vec<u8>),
}

/// The module bytes of a bundle: the bundle itself, or its decompressed data
/// where bundles are configured as gzip-compressed.
pub fn module_bytes(raw: Vec<u8>, gzip: bool) -> (r: Result<Vec<u8>, BundleError>)
    ensures
        !gzip ==> (r matches Ok(v) && v@ == raw@),
        gzip ==> match r {
            Ok(v) => gzip_decoded(raw@) == Some(v@),
            Err(e) => e == BundleError::NotGzip && gzip_decoded(raw@) is None,
        },
{
    if !gzip {
        return Ok(raw);
    }
    match gunzip(raw.as_slice()) {
        Some(v) => Ok(v),
        None => Err(BundleError::NotGzip),
    }
}

/// Decides what to instantiate from what lies at the bundle location.
pub fn plan_load(source: BundleSource, gzip: bool) -> (r: Result<ModulePlan, BundleError>)
    ensures
        match source {
            BundleSource::Missing => r == Ok::<ModulePlan, BundleError>(ModulePlan::Unprovisioned),
            BundleSource::Present(raw) => if !gzip {
                (r matches Ok(ModulePlan::Compile(v)) && v@ == raw@)
            } else {
                match r {
                    Ok(ModulePlan::Compile(v)) => gzip_decoded(raw@) == Some(v@),
                    Ok(ModulePlan::Unprovisioned) => false,
                    Err(e) => e == BundleError::NotGzip && gzip_decoded(raw@) is None,
                }
            },
        },
{
    match source {
        BundleSource::Missing => Ok(ModulePlan::Unprovisioned),
        BundleSource::Present(raw) => match module_bytes(raw, gzip) {
            Ok(v) => Ok(ModulePlan::Compile(v)),
            Err(e) => Err(e),
        },
    }
}

/// A configuration export of the sandbox and the value it is called with.
#[derive(Debug, Clone, Copy, PartialEq, Eq, Structural)]
pub enum ConfigCall {
    SetTraceLevel(i32),
    SetStorageSize(i32),
    SetStorageInterval(i32),
}

/// The configuration calls that precede a fresh instance's `init`, in order.
pub fn configure_eea_wasm(trace_level: i32, storage_size: i32, storage_interval: i32) -> (r: Vec<ConfigCall>)
    ensures
        r@ == seq![
            ConfigCall::SetTraceLevel(trace_level),
            ConfigCall::SetStorageSize(storage_size),
            ConfigCall::SetStorageInterval(storage_interval),
        ],
{
    let r: Vec<ConfigCall> = vec![
        ConfigCall::SetTraceLevel(trace_level),
        ConfigCall::SetStorageSize(storage_size),
        ConfigCall::SetStorageInterval(storage_interval),
    ];
    assert(r@ =~= seq![
        ConfigCall::SetTraceLevel(trace_level),
        ConfigCall::SetStorageSize(storage_size),
        ConfigCall::SetStorageInterval(storage_interval),
    ]);
    r
}

/// Outcome of a fresh instance's `init` call: any status but 0 is fatal.
pub fn init_outcome(status: i32) -> (r: Result<(), i32>)
    ensures
        status == 0 <==> r is Ok,
        r matches Err(code) ==> code == status,
{
    if status == 0 {
        Ok(())
    } else {
        Err(status)
    }
}

/// The five entry points that every conforming sandbox exports.
#[derive(Debug, Clone, Copy, PartialEq, Eq, Structural)]
pub enum EntryPoint {
    Tick,
    Shutdown,
    SetConnectionStatus,
    MessageReceived,
    DirectTrigger,
}

/// An entry point of one particular instance; instances are numbered as they
/// are loaded.
#[derive(Debug, Clone, Copy, PartialEq, Eq, Structural)]
pub struct EntryRef {
    pub instance: u64,
    pub entry: EntryPoint,
}

/// The entry points resolved for one instance.
#[derive(Debug, Clone, Copy, PartialEq, Eq, Structural)]
pub struct EntryPoints {
    pub tick: EntryRef,
    pub shutdown: EntryRef,
    pub set_connection_status: EntryRef,
    pub message_received: EntryRef,
    pub direct_trigger: EntryRef,
}

/// The entry points of instance `instance`, each under its own name.
pub open spec fn entry_points_of(instance: u64) -> EntryPoints {
    EntryPoints {
        tick: EntryRef { instance, entry: EntryPoint::Tick },
        shutdown: EntryRef { instance, entry: EntryPoint::Shutdown },
        set_connection_status: EntryRef { instance, entry: EntryPoint::SetConnectionStatus },
        message_received: EntryRef { instance, entry: EntryPoint::MessageReceived },
        direct_trigger: EntryRef { instance, entry: EntryPoint::DirectTrigger },
    }
}

/// Resolves the five entry points afresh for `instance`.
pub fn get_exported_eea_apis(instance: u64) -> (r: EntryPoints)
    ensures
        r == entry_points_of(instance),
{
    EntryPoints {
        tick: EntryRef { instance, entry: EntryPoint::Tick },
        shutdown: EntryRef { instance, entry: EntryPoint::Shutdown },
        set_connection_status: EntryRef { instance, entry: EntryPoint::SetConnectionStatus },
        message_received: EntryRef { instance, entry: EntryPoint::MessageReceived },
        direct_trigger: EntryRef { instance, entry: EntryPoint::DirectTrigger },
    }
}

} // verus!
