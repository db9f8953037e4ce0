//! The telemetry exporter: the fixed configuration every span ships under,
//! and the exporter's once-only install / record / flush lifecycle.

use vstd::prelude::*;

verus! {

/// How exported spans are encoded on the wire.
#[derive(Clone, Copy, PartialEq, Eq, Structural, Debug)]
pub enum Encoding {
    Grpc,
    HttpBinary,
}

/// Everything the exporter is configured with: the collector endpoint, the
/// per-call timeout, the wire encoding, the one authentication header, and
/// the service name every span is tagged with.
pub struct ExporterSettings {
    pub endpoint: String,
    pub timeout_secs: u64,
    pub encoding: Encoding,
    pub header_name: String,
    pub header_value: String,
    pub service_name: String,
}

/// The collector endpoint spans are shipped to.
pub open spec fn collector_endpoint() -> Seq<char> {
    "https://api.honeycomb.io/v1/traces"@
}

/// The header that carries the credential.
pub open spec fn auth_header_name() -> Seq<char> {
    "x-honeycomb-team"@
}

/// The service name every span is tagged with.
pub open spec fn service_name() -> Seq<char> {
    "Pick List"@
}

/// `s` is the one configuration the service ever uses, built around the
/// credential `key`: the fixed HTTPS collector endpoint, a three-second
/// per-call timeout, binary HTTP encoding, the credential as the sole
/// authentication header, and the fixed service identity.
pub open spec fn settings_for(key: Seq<char>, s: ExporterSettings) -> bool {
    &&& s.endpoint@ == collector_endpoint()
    &&& s.timeout_secs == 3
    &&& s.encoding is HttpBinary
    &&& s.header_name@ == auth_header_name()
    &&& s.header_value@ == key
    &&& s.service_name@ == service_name()
}

/// Builds the exporter configuration from the credential. The credential is
/// non-empty by construction: finding it missing is fatal before this point.
pub fn exporter_settings(api_key: String) -> (s: ExporterSettings)
    requires
        api_key@.len() > 0,
    ensures
        settings_for(api_key@, s),
{
    ExporterSettings {
        endpoint: "https://api.honeycomb.io/v1/traces".to_owned(),
        timeout_secs: 3,
        encoding: Encoding::HttpBinary,
        header_name: "x-honeycomb-team".to_owned(),
        header_value: api_key,
        service_name: "Pick List".to_owned(),
    }
}

/// The exporter's lifecycle: not yet installed, installed and recording, or
/// stopped for good.
#[derive(Clone, Copy, PartialEq, Eq, Structural, Debug)]
pub enum TracerPhase {
    Uninstalled,
    Installed,
    Stopped,
}

/// The process-wide tracer, modelled with an explicit two-phase lifecycle:
/// installed exactly once before serving begins, stopped exactly once after
/// serving ends. `buffered` counts the spans recorded but not yet exported;
/// only the final flush empties it for certain.
pub struct TracerLifecycle {
    pub phase: TracerPhase,
    pub buffered: u64,
}

impl TracerLifecycle {
    /// Before anything is installed: nothing recorded, nothing buffered.
    pub fn new() -> (t: TracerLifecycle)
        ensures
            t.phase is Uninstalled,
            t.buffered == 0,
    {
        TracerLifecycle { phase: TracerPhase::Uninstalled, buffered: 0 }
    }

    /// Installs the tracer. It succeeds exactly once: a second install is
    /// rejected and changes nothing.
    pub fn install(&mut self) -> (ok: bool)
        ensures
            ok == (old(self).phase is Uninstalled),
            ok ==> final(self).phase is Installed,
            !ok ==> final(self).phase == old(self).phase,
            final(self).buffered == old(self).buffered,
    {
        if self.phase == TracerPhase::Uninstalled {
            self.phase = TracerPhase::Installed;
            true
        } else {
            false
        }
    }

    /// A span closes and joins the export buffer. Spans are recorded only
    /// while the tracer is installed: installation happens before serving
    /// begins, teardown after it ends.
    pub fn record_span(&mut self)
        requires
            old(self).phase is Installed,
            old(self).buffered < u64::MAX,
        ensures
            final(self).phase is Installed,
            final(self).buffered == old(self).buffered + 1,
    {
        self.buffered = self.buffered + 1;
    }

    /// The batch exporter ships some prefix of the buffer in the background;
    /// a request completing never guarantees its spans have been shipped.
    pub fn export_batch(&mut self, shipped: u64)
        requires
            old(self).phase is Installed,
            shipped <= old(self).buffered,
        ensures
            final(self).phase is Installed,
            final(self).buffered == old(self).buffered - shipped,
    {
        self.buffered = self.buffered - shipped;
    }

    /// The shutdown hook: if the tracer is installed, every buffered span is
    /// given its final transmission attempt and the tracer stops for good;
    /// the count flushed is returned. Anywhere else it changes nothing.
    pub fn shutdown(&mut self) -> (flushed: u64)
        ensures
            old(self).phase is Installed ==> final(self).phase is Stopped && flushed == old(
                self,
            ).buffered && final(self).buffered == 0,
            !(old(self).phase is Installed) ==> final(self).phase == old(self).phase && flushed
                == 0 && final(self).buffered == old(self).buffered,
    {
        if self.phase == TracerPhase::Installed {
            self.phase = TracerPhase::Stopped;
            let flushed = self.buffered;
            self.buffered = 0;
            flushed
        } else {
            0
        }
    }
}

} // verus!
