//! The transport settings the server runs with. The values are applied to the
//! QUIC stacks' own configuration types by the caller.
use vstd::prelude::*;

verus! {

/// Settings of the quiche-based QUIC endpoint and of its listener.
pub struct QuicheSettings {
    /// Name of the congestion controller.
    pub cc_algorithm: &'static str,
    /// Idle timeout, in milliseconds.
    pub max_idle_timeout_ms: u64,
    pub max_recv_udp_payload_size: usize,
    pub max_send_udp_payload_size: usize,
    pub initial_max_data: u64,
    pub initial_max_stream_data_bidi_local: u64,
    pub initial_max_stream_data_bidi_remote: u64,
    pub initial_max_stream_data_uni: u64,
    pub initial_max_streams_bidi: u64,
    pub initial_max_streams_uni: u64,
    pub disable_active_migration: bool,
    pub enable_early_data: bool,
    pub grease: bool,
    /// The WebTransport path that sessions are accepted on.
    pub uri_root: &'static str,
    /// Capacity of the channels that hand out new connections and new sessions.
    pub channel_capacity: usize,
    /// Size of the buffer that UDP datagrams are received into.
    pub datagram_buffer_size: usize,
}

/// The settings of the quiche-based server.
pub open spec fn spec_quiche_settings_hold(s: QuicheSettings) -> bool {
    &&& s.cc_algorithm@ == "cubic"@
    &&& s.max_idle_timeout_ms == 10_000
    &&& s.max_recv_udp_payload_size == 1200
    &&& s.max_send_udp_payload_size == 1200
    &&& s.initial_max_data == 1_000_000_000
    &&& s.initial_max_stream_data_bidi_local == 100_000_000
    &&& s.initial_max_stream_data_bidi_remote == 100_000_000
    &&& s.initial_max_stream_data_uni == 100_000_000
    &&& s.initial_max_streams_bidi == 1_000_000
    &&& s.initial_max_streams_uni == 1_000_000
    &&& s.disable_active_migration
    &&& s.enable_early_data
    &&& !s.grease
    &&& s.uri_root@ == "/"@
    &&& s.channel_capacity == 10
    &&& s.datagram_buffer_size == 65_000
}

/// The settings the quiche-based server runs with: CUBIC congestion control,
/// a 10 s idle timeout, 1200-byte UDP payloads, generous flow-control windows,
/// no active migration, early data on, no greasing; sessions on path `/`.
pub fn quiche_settings() -> (res: QuicheSettings)
    ensures
        spec_quiche_settings_hold(res),
{
    let res = QuicheSettings {
        cc_algorithm: "cubic",
        max_idle_timeout_ms: 10_000,
        max_recv_udp_payload_size: 1200,
        max_send_udp_payload_size: 1200,
        initial_max_data: 1_000_000_000,
        initial_max_stream_data_bidi_local: 100_000_000,
        initial_max_stream_data_bidi_remote: 100_000_000,
        initial_max_stream_data_uni: 100_000_000,
        initial_max_streams_bidi: 1_000_000,
        initial_max_streams_uni: 1_000_000,
        disable_active_migration: true,
        enable_early_data: true,
        grease: false,
        uri_root: "/",
        channel_capacity: 10,
        datagram_buffer_size: 65_000,
    };
    proof {
        assert(res.cc_algorithm@ == "cubic"@);
        assert(res.uri_root@ == "/"@);
    }
    res
}

/// Settings of the quinn-based QUIC endpoint.
#[derive(PartialEq, Eq, Structural, Clone, Copy, Debug)]
pub struct QuinnSettings {
    /// Interval of keep-alive packets, in seconds.
    pub keep_alive_interval_secs: u64,
    /// Whether congestion control is BBR (rather than quinn's default).
    pub bbr_congestion: bool,
}

/// The settings the quinn-based server runs with: a keep-alive every 2 s and
/// BBR congestion control.
pub fn quinn_settings() -> (res: QuinnSettings)
    ensures
        res == (QuinnSettings { keep_alive_interval_secs: 2, bbr_congestion: true }),
{
    QuinnSettings { keep_alive_interval_secs: 2, bbr_congestion: true }
}

} // verus!
