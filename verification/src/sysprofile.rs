//! Performance settings that follow what the host can carry.

use vstd::prelude::*;
use vstd::utf8::is_ascii_chars;

use crate::environment::Environment;
use crate::text::{
    after_prefix, ascii_lowercase, characters, decimal, find_line, is_blank, is_digit,
    is_white_space, law_decimal_reads_back, law_first_line, law_last_line,
    law_lower_case_of_ascii, law_lowered_and_trimmed_commute, law_only_digits_spell_a_number,
    law_padded_word_is_read_in_lower_case, law_tight_text_is_kept,
    law_trimmed_ignores_white_space_around, law_trimming_takes_white_space_off_the_ends_only,
    lines, lower_case, lowered, number, parse_number, push_decimal, spells, trim, trim_suffixes,
    trimmed, without_return, without_suffixes,
};

verus! {

/// Names the performance tier, in place of the one the hardware suggests.
pub const PERF_PROFILE: &'static str = "AETHER_PERF_PROFILE";

/// Receive buffer of a netstack TCP socket, in bytes.
pub const NETSTACK_TCP_RX: &'static str = "AETHER_NETSTACK_TCP_RX";

/// Send buffer of a netstack TCP socket, in bytes.
pub const NETSTACK_TCP_TX: &'static str = "AETHER_NETSTACK_TCP_TX";

/// QUIC connection-level flow-control window, in bytes.
pub const QUIC_CONN_WINDOW: &'static str = "AETHER_QUIC_CONN_WINDOW";

/// QUIC per-stream flow-control window, in bytes.
pub const QUIC_STREAM_WINDOW: &'static str = "AETHER_QUIC_STREAM_WINDOW";

/// Egress TCP receive buffer, in bytes.
pub const TCP_RECV_BUF: &'static str = "AETHER_TCP_RECV_BUF";

/// Egress TCP send buffer, in bytes.
pub const TCP_SEND_BUF: &'static str = "AETHER_TCP_SEND_BUF";

/// Switches the egress TCP tuning on or off.
pub const TCP_TUNING: &'static str = "AETHER_TCP_TUNING";

/// The smallest buffer that is of use on any socket, 16 KiB.
pub const MIN_BUFFER: usize = 16 * 1024;

/// The largest buffer that a socket can sensibly be given, 64 MiB.
pub const MAX_BUFFER: usize = 64 * 1024 * 1024;

/// The smallest flow-control window, 64 KiB.
pub const MIN_WINDOW: u64 = 64 * 1024;

/// The largest flow-control window, 1 GiB.
pub const MAX_WINDOW: u64 = 1024 * 1024 * 1024;

/// How much a host can carry.
#[derive(Debug, Clone, Copy, PartialEq, Eq, Structural)]
pub enum Tier {
    Low,
    Medium,
    High,
}

/// The settings of one run.
#[derive(Debug, Clone, Copy)]
pub struct Tuning {
    pub tier: Tier,
    pub cpus: usize,
    pub mem_mb: Option<u64>,
    pub scan_concurrency_cap: usize,
    pub udp_socket_buf: usize,
    pub netstack_tcp_rx_buf: usize,
    pub netstack_tcp_tx_buf: usize,
    pub netstack_udp_buf: usize,
    pub channel_capacity: usize,
    pub h2_stream_window: u32,
    pub h2_connection_window: u32,
    /// QUIC connection-level flow-control window, bytes (`set_initial_max_data`).
    pub quic_connection_window: u64,
    /// QUIC per-stream flow-control window, bytes.
    pub quic_stream_window: u64,
    /// Egress TCP receive buffer, bytes (`SO_RCVBUF`), also the ceiling on a
    /// download the core carries over TCP.
    pub tcp_egress_recv_buf: usize,
    /// Egress TCP send buffer, bytes (`SO_SNDBUF`).
    pub tcp_egress_send_buf: usize,
    /// Whether the egress TCP tuning module is active (`AETHER_TCP_TUNING`).
    pub tcp_tuning: bool,
}

/// What the host told about its memory, in the form in which it tells it.
pub enum Memory {
    /// The text of `/proc/meminfo`, or nothing if it could not be read.
    Meminfo(Option<String>),
    /// The physical memory in bytes, or nothing if the query failed.
    Bytes(Option<u64>),
    /// The host offers no way to ask.
    Unknown,
}

/// What the settings are made from.
pub struct Host {
    /// How many threads the host runs in parallel, if it could tell.
    pub parallelism: Option<usize>,
    pub memory: Memory,
    pub env: Environment,
}

/// The number of processors: one, where the host could not tell.
pub open spec fn processors(parallelism: Option<usize>) -> usize {
    match parallelism {
        Some(n) => n,
        None => 1,
    }
}

/// Counts the processors, one where the host could not tell.
pub fn detected_cpus(parallelism: Option<usize>) -> (cpus: usize)
    ensures
        cpus == processors(parallelism),
{
    match parallelism {
        Some(n) => n,
        None => 1,
    }
}

/// The mebibytes that the first `MemTotal:` line of a `/proc/meminfo` states in
/// kibibytes.
pub open spec fn meminfo_mb(text: Seq<char>) -> Option<u64> {
    match after_prefix(lines(text), "MemTotal:"@) {
        Some(rest) => match number(trimmed(without_suffixes(trimmed(rest), "kB"@))) {
            Some(kb) => if kb <= u64::MAX {
                Some((kb / 1024) as u64)
            } else {
                None
            },
            None => None,
        },
        None => None,
    }
}

/// The physical memory of the host in mebibytes, where it is known.
pub open spec fn memory_mb(memory: Memory) -> Option<u64> {
    match memory {
        Memory::Meminfo(Some(text)) => meminfo_mb(text@),
        Memory::Bytes(Some(bytes)) => Some((bytes as nat / (1024 * 1024)) as u64),
        _ => None,
    }
}

/// The physical memory of the host in mebibytes, where it is known.
pub fn total_mem_mb(memory: &Memory) -> (mem_mb: Option<u64>)
    ensures
        mem_mb == memory_mb(*memory),
{
    match memory {
        Memory::Meminfo(Some(text)) => {
            match find_line(text.as_str(), "MemTotal:") {
                Some(rest) => {
                    match parse_number(trim(trim_suffixes(trim(rest), "kB"))) {
                        Some(kb) => Some(kb / 1024),
                        None => None,
                    }
                },
                None => None,
            }
        },
        Memory::Bytes(Some(bytes)) => Some(*bytes / (1024 * 1024)),
        _ => None,
    }
}

/// The tier that a word in lower case names.
pub open spec fn profile_tier(word: Seq<char>) -> Option<Tier> {
    if word == "low"@ {
        Some(Tier::Low)
    } else if word == "medium"@ || word == "mid"@ {
        Some(Tier::Medium)
    } else if word == "high"@ {
        Some(Tier::High)
    } else {
        None
    }
}

/// The tier that a word in lower case names.
pub fn tier_by_name(word: &str) -> (tier: Option<Tier>)
    ensures
        tier == profile_tier(word@),
{
    let chars = characters(word);
    if spells(chars.as_slice(), "low") {
        Some(Tier::Low)
    } else if spells(chars.as_slice(), "medium") || spells(chars.as_slice(), "mid") {
        Some(Tier::Medium)
    } else if spells(chars.as_slice(), "high") {
        Some(Tier::High)
    } else {
        None
    }
}

/// The tier that processors and memory suggest. Memory that is not known holds
/// nothing back.
pub open spec fn hardware_tier(cpus: usize, mem_mb: Option<u64>) -> Tier {
    if cpus <= 2 || (mem_mb matches Some(mb) && mb <= 384) {
        Tier::Low
    } else if cpus <= 4 || (mem_mb matches Some(mb) && mb <= 1536) {
        Tier::Medium
    } else {
        Tier::High
    }
}

/// The tier that processors and memory suggest.
pub fn tier_by_hardware(cpus: usize, mem_mb: Option<u64>) -> (tier: Tier)
    ensures
        tier == hardware_tier(cpus, mem_mb),
{
    let mem_low = match mem_mb {
        Some(mb) => mb <= 384,
        None => false,
    };
    let mem_medium = match mem_mb {
        Some(mb) => mb <= 1536,
        None => false,
    };
    if cpus <= 2 || mem_low {
        Tier::Low
    } else if cpus <= 4 || mem_medium {
        Tier::Medium
    } else {
        Tier::High
    }
}

/// The tier of a host: the one that the profile names, whatever its case and
/// the white space around it, else the one that the hardware suggests.
pub open spec fn host_tier(profile: Option<Seq<char>>, cpus: usize, mem_mb: Option<u64>) -> Tier {
    match profile {
        Some(value) => match profile_tier(lower_case(trimmed(value))) {
            Some(tier) => tier,
            None => hardware_tier(cpus, mem_mb),
        },
        None => hardware_tier(cpus, mem_mb),
    }
}

/// Picks the tier of a host.
pub fn detect_tier(env: &Environment, cpus: usize, mem_mb: Option<u64>) -> (tier: Tier)
    ensures
        tier == host_tier(env.value(PERF_PROFILE@), cpus, mem_mb),
{
    match env.get(PERF_PROFILE) {
        Some(value) => {
            let word = trim(value).to_lowercase();
            match tier_by_name(word.as_str()) {
                Some(tier) => tier,
                None => tier_by_hardware(cpus, mem_mb),
            }
        },
        None => tier_by_hardware(cpus, mem_mb),
    }
}

/// The number that `value` spells between white space, where it lies between
/// `least` and `most`, else `fallback`.
pub open spec fn bounded(value: Seq<char>, least: nat, most: nat, fallback: nat) -> nat {
    match number(trimmed(value)) {
        Some(n) => if least <= n <= most {
            n
        } else {
            fallback
        },
        None => fallback,
    }
}

/// `bounded` of a value that may be missing, which stands for `fallback` too.
pub open spec fn overridden(
    value: Option<Seq<char>>,
    least: nat,
    most: nat,
    fallback: nat,
) -> nat {
    match value {
        Some(text) => bounded(text, least, most, fallback),
        None => fallback,
    }
}

/// Reads a buffer size in bytes from the environment, ignoring anything
/// outside what a TCP socket can sensibly be given.
pub fn buffer_override(env: &Environment, key: &str, fallback: usize) -> (bytes: usize)
    ensures
        bytes == overridden(
            env.value(key@),
            MIN_BUFFER as nat,
            MAX_BUFFER as nat,
            fallback as nat,
        ),
{
    match env.get(key) {
        Some(value) => buffer_value(value, fallback),
        None => fallback,
    }
}

/// Applies the [buffer_override] sanity bounds to a single value.
pub fn buffer_value(value: &str, fallback: usize) -> (bytes: usize)
    ensures
        bytes == bounded(value@, MIN_BUFFER as nat, MAX_BUFFER as nat, fallback as nat),
{
    match parse_number(trim(value)) {
        Some(n) => if MIN_BUFFER as u64 <= n && n <= MAX_BUFFER as u64 {
            n as usize
        } else {
            fallback
        },
        None => fallback,
    }
}

/// Same contract as [buffer_override] but for a flow-control window in bytes.
pub fn window_override(env: &Environment, key: &str, fallback: u64) -> (bytes: u64)
    ensures
        bytes == overridden(
            env.value(key@),
            MIN_WINDOW as nat,
            MAX_WINDOW as nat,
            fallback as nat,
        ),
{
    match env.get(key) {
        Some(value) => window_value(value, fallback),
        None => fallback,
    }
}

/// Applies the [window_override] sanity bounds to a single value.
pub fn window_value(value: &str, fallback: u64) -> (bytes: u64)
    ensures
        bytes == bounded(value@, MIN_WINDOW as nat, MAX_WINDOW as nat, fallback as nat),
{
    match parse_number(trim(value)) {
        Some(n) => if MIN_WINDOW <= n && n <= MAX_WINDOW {
            n
        } else {
            fallback
        },
        None => fallback,
    }
}

/// The words in lower case that switch a knob off.
pub open spec fn is_off(word: Seq<char>) -> bool {
    word == "off"@ || word == "0"@ || word == "false"@ || word == "no"@
}

/// The words in lower case that switch a knob on.
pub open spec fn is_on(word: Seq<char>) -> bool {
    word == "on"@ || word == "1"@ || word == "true"@ || word == "yes"@
}

/// Whether a word in lower case switches a knob off.
pub fn spells_off(word: &[char]) -> (off: bool)
    ensures
        off == is_off(word@),
{
    spells(word, "off") || spells(word, "0") || spells(word, "false") || spells(word, "no")
}

/// Whether a word in lower case switches a knob on.
pub fn spells_on(word: &[char]) -> (on: bool)
    ensures
        on == is_on(word@),
{
    spells(word, "on") || spells(word, "1") || spells(word, "true") || spells(word, "yes")
}

/// What `value` sets a knob to, whatever the case of its letters and the white
/// space around it; `default` where it says neither on nor off.
pub open spec fn switched(value: Seq<char>, default: bool) -> bool {
    let word = lowered(trimmed(value));
    if is_off(word) {
        false
    } else if is_on(word) {
        true
    } else {
        default
    }
}

/// `switched` of a value that may be missing, which stands for `default` too.
pub open spec fn knob(value: Option<Seq<char>>, default: bool) -> bool {
    match value {
        Some(text) => switched(text, default),
        None => default,
    }
}

/// Parses a YAML-style `on`/`off`/`0`/`1`/`true`/`false`/`yes`/`no` knob from
/// the environment, defaulting to `default` when unset or unrecognized.
pub fn env_flag(env: &Environment, key: &str, default: bool) -> (on: bool)
    ensures
        on == knob(env.value(key@), default),
{
    match env.get(key) {
        Some(value) => flag_value(value, default),
        None => default,
    }
}

/// Applies the [env_flag] grammar to a single value.
pub fn flag_value(value: &str, default: bool) -> (on: bool)
    ensures
        on == switched(value@, default),
{
    let word = ascii_lowercase(trim(value));
    if spells_off(word.as_slice()) {
        false
    } else if spells_on(word.as_slice()) {
        true
    } else {
        default
    }
}

/// One of three values, by the tier.
pub open spec fn by_tier<T>(tier: Tier, low: T, medium: T, high: T) -> T {
    match tier {
        Tier::Low => low,
        Tier::Medium => medium,
        Tier::High => high,
    }
}

/// `n` kibibytes in bytes.
pub open spec fn kib(n: int) -> int {
    1024 * n
}

/// `n` mebibytes in bytes.
pub open spec fn mib(n: int) -> int {
    1024 * 1024 * n
}

/// A buffer of `fallback` bytes, unless the variable `key` gives another size.
pub open spec fn buffer(env: Environment, key: Seq<char>, fallback: int) -> usize {
    overridden(
        env.value(key),
        MIN_BUFFER as nat,
        MAX_BUFFER as nat,
        fallback as nat,
    ) as usize
}

/// A window of `fallback` bytes, unless the variable `key` gives another size.
pub open spec fn window(env: Environment, key: Seq<char>, fallback: int) -> u64 {
    overridden(
        env.value(key),
        MIN_WINDOW as nat,
        MAX_WINDOW as nat,
        fallback as nat,
    ) as u64
}

/// The settings of a tier under an environment, on a host with these
/// processors and this memory.
pub open spec fn tier_tuning(
    tier: Tier,
    cpus: usize,
    mem_mb: Option<u64>,
    env: Environment,
) -> Tuning {
    Tuning {
        tier,
        cpus,
        mem_mb,
        scan_concurrency_cap: by_tier(tier, 4, 10, usize::MAX),
        udp_socket_buf: by_tier(tier, kib(256), mib(2), mib(7)) as usize,
        netstack_tcp_rx_buf: buffer(
            env,
            NETSTACK_TCP_RX@,
            by_tier(tier, kib(256), mib(1), mib(2)),
        ),
        netstack_tcp_tx_buf: buffer(
            env,
            NETSTACK_TCP_TX@,
            by_tier(tier, kib(128), kib(256), kib(512)),
        ),
        netstack_udp_buf: by_tier(tier, kib(32), kib(64), kib(128)) as usize,
        channel_capacity: by_tier(tier, 128, 512, 1024),
        h2_stream_window: by_tier(tier, mib(2), mib(8), mib(16)) as u32,
        h2_connection_window: by_tier(tier, mib(4), mib(16), mib(32)) as u32,
        quic_connection_window: window(
            env,
            QUIC_CONN_WINDOW@,
            by_tier(tier, 10_000_000, 24_000_000, 48_000_000),
        ),
        quic_stream_window: window(
            env,
            QUIC_STREAM_WINDOW@,
            by_tier(tier, 2_000_000, 8_000_000, 16_000_000),
        ),
        tcp_egress_recv_buf: buffer(
            env,
            TCP_RECV_BUF@,
            by_tier(tier, kib(256), kib(512), mib(1)),
        ),
        tcp_egress_send_buf: buffer(
            env,
            TCP_SEND_BUF@,
            by_tier(tier, kib(128), kib(256), kib(512)),
        ),
        tcp_tuning: knob(env.value(TCP_TUNING@), true),
    }
}

/// The settings of a host.
pub open spec fn host_tuning(host: Host) -> Tuning {
    let cpus = processors(host.parallelism);
    let mem_mb = memory_mb(host.memory);
    let tier = host_tier(host.env.value(PERF_PROFILE@), cpus, mem_mb);
    tier_tuning(tier, cpus, mem_mb, host.env)
}

/// Works the settings of a host out.
pub fn build_tuning(host: &Host) -> (tuning: Tuning)
    ensures
        tuning == host_tuning(*host),
{
    let cpus = detected_cpus(host.parallelism);
    let mem_mb = total_mem_mb(&host.memory);
    let env = &host.env;
    let tier = detect_tier(env, cpus, mem_mb);

    let (scan_concurrency_cap, udp_socket_buf, netstack_udp_buf, channel_capacity): (
        usize,
        usize,
        usize,
        usize,
    ) = match tier {
        Tier::Low => (4, 256 * 1024, 32 * 1024, 128),
        Tier::Medium => (10, 2 * 1024 * 1024, 64 * 1024, 512),
        Tier::High => (usize::MAX, 7 * 1024 * 1024, 128 * 1024, 1024),
    };

    // The netstack advertises whatever room is left in a socket's receive buffer
    // as that connection's TCP window, so this buffer is the second ceiling on a
    // download, at window / round-trip-time: 256 KiB over a 110 ms round trip is
    // about 2.3 MB/s. Both halves are paid for up front on every connection, so
    // the receive side, which is where the traffic is, gets the room and the send
    // side stays modest.
    let (rx_default, tx_default): (usize, usize) = match tier {
        Tier::Low => (256 * 1024, 128 * 1024),
        Tier::Medium => (1024 * 1024, 256 * 1024),
        Tier::High => (2 * 1024 * 1024, 512 * 1024),
    };
    let netstack_tcp_rx_buf = buffer_override(env, NETSTACK_TCP_RX, rx_default);
    let netstack_tcp_tx_buf = buffer_override(env, NETSTACK_TCP_TX, tx_default);

    // How much unacknowledged data the HTTP/2 edge may have on its way to us. It
    // is a promise rather than a reservation, but it bounds how much arrives
    // before we have drained it, so it follows the tier like the rest.
    let (h2_stream_window, h2_connection_window): (u32, u32) = match tier {
        Tier::Low => (2 * 1024 * 1024, 4 * 1024 * 1024),
        Tier::Medium => (8 * 1024 * 1024, 16 * 1024 * 1024),
        Tier::High => (16 * 1024 * 1024, 32 * 1024 * 1024),
    };

    // QUIC flow control is the ceiling on a single stream as window /
    // round-trip-time: 2 MB over 200 ms is 10 MB/s no matter how much bandwidth
    // the path offers.
    let (connection_default, stream_default): (u64, u64) = match tier {
        Tier::Low => (10_000_000, 2_000_000),
        Tier::Medium => (24_000_000, 8_000_000),
        Tier::High => (48_000_000, 16_000_000),
    };
    let quic_connection_window = window_override(env, QUIC_CONN_WINDOW, connection_default);
    let quic_stream_window = window_override(env, QUIC_STREAM_WINDOW, stream_default);

    // Egress TCP buffers follow the tier for the same reason as the QUIC windows:
    // the ~64 KiB kernel default caps a 150 ms path at well under 0.5 MB/s.
    let (recv_default, send_default): (usize, usize) = match tier {
        Tier::Low => (256 * 1024, 128 * 1024),
        Tier::Medium => (512 * 1024, 256 * 1024),
        Tier::High => (1024 * 1024, 512 * 1024),
    };
    let tcp_egress_recv_buf = buffer_override(env, TCP_RECV_BUF, recv_default);
    let tcp_egress_send_buf = buffer_override(env, TCP_SEND_BUF, send_default);
    let tcp_tuning = env_flag(env, TCP_TUNING, true);

    Tuning {
        tier,
        cpus,
        mem_mb,
        scan_concurrency_cap,
        udp_socket_buf,
        netstack_tcp_rx_buf,
        netstack_tcp_tx_buf,
        netstack_udp_buf,
        channel_capacity,
        h2_stream_window,
        h2_connection_window,
        quic_connection_window,
        quic_stream_window,
        tcp_egress_recv_buf,
        tcp_egress_send_buf,
        tcp_tuning,
    }
}

/// The settings of this run. The first call asks `read` for the host and keeps
/// what comes of it in `slot`; every later call gives back what is kept there and
/// does not ask again.
pub fn tuning<F: FnOnce() -> Host>(slot: &mut Option<Tuning>, read: F) -> (tuning: Tuning)
    requires
        *old(slot) is None ==> call_requires(read, ()),
    ensures
        *final(slot) == Some(tuning),
        *old(slot) is Some ==> *final(slot) == *old(slot),
        *old(slot) is None ==> exists|host: Host|
            call_ensures(read, (), host) && tuning == #[trigger] host_tuning(host),
{
    match *slot {
        Some(kept) => kept,
        None => {
            let host = read();
            let fresh = build_tuning(&host);
            *slot = Some(fresh);
            fresh
        },
    }
}

/// The lines that tell which settings a run has.
pub struct Summary {
    pub profile: String,
    pub egress: String,
}

/// The name of a tier.
pub open spec fn tier_name(tier: Tier) -> Seq<char> {
    by_tier(tier, "Low"@, "Medium"@, "High"@)
}

/// How a summary words the memory.
pub open spec fn mem_words(mem_mb: Option<u64>) -> Seq<char> {
    match mem_mb {
        Some(mb) => decimal(mb as nat) + "MB"@,
        None => "unknown"@,
    }
}

/// How a summary words the limit on concurrent scans.
pub open spec fn cap_words(cap: usize) -> Seq<char> {
    if cap == usize::MAX {
        "unlimited"@
    } else {
        decimal(cap as nat)
    }
}

/// The whole kibibytes in `bytes`, in decimal.
pub open spec fn kib_words(bytes: nat) -> Seq<char> {
    decimal(bytes / 1024)
}

/// The line on the profile of a run.
pub open spec fn profile_line(t: Tuning) -> Seq<char> {
    "[*] performance profile: "@ + tier_name(t.tier) + " (cpus="@ + decimal(t.cpus as nat)
        + " mem="@ + mem_words(t.mem_mb) + "); scan concurrency cap="@ + cap_words(
        t.scan_concurrency_cap,
    ) + ", udp socket buffer="@ + kib_words(t.udp_socket_buf as nat)
        + "KB, netstack tcp buffers="@ + kib_words(t.netstack_tcp_rx_buf as nat) + "KB rx/"@
        + kib_words(t.netstack_tcp_tx_buf as nat) + "KB tx, netstack udp buffer="@ + kib_words(
        t.netstack_udp_buf as nat,
    ) + "KB, channel capacity="@ + decimal(t.channel_capacity as nat) + ", h2 windows="@
        + kib_words(t.h2_stream_window as nat) + "KB/"@ + kib_words(
        t.h2_connection_window as nat,
    ) + "KB"@
}

/// The line on the egress TCP tuning of a run.
pub open spec fn egress_line(t: Tuning) -> Seq<char> {
    "[*] egress TCP tuning: "@ + (if t.tcp_tuning {
        "on"@
    } else {
        "off"@
    }) + " (buffers="@ + kib_words(t.tcp_egress_recv_buf as nat) + "KB rx/"@ + kib_words(
        t.tcp_egress_send_buf as nat,
    ) + "KB tx)"@
}

fn push_mem(out: &mut String, mem_mb: Option<u64>)
    ensures
        final(out)@ == old(out)@ + mem_words(mem_mb),
{
    match mem_mb {
        Some(mb) => {
            push_decimal(out, mb);
            out.append("MB");
            assert(out@ == old(out)@ + (decimal(mb as nat) + "MB"@));
        },
        None => {
            out.append("unknown");
        },
    }
}

fn push_cap(out: &mut String, cap: usize)
    ensures
        final(out)@ == old(out)@ + cap_words(cap),
{
    if cap == usize::MAX {
        out.append("unlimited");
    } else {
        push_decimal(out, cap as u64);
    }
}

/// Words the settings of a run for its log.
pub fn log_summary(tuning: &Tuning) -> (summary: Summary)
    ensures
        summary.profile@ == profile_line(*tuning),
        summary.egress@ == egress_line(*tuning),
{
    let t = tuning;
    let mut profile = "[*] performance profile: ".to_string();
    match t.tier {
        Tier::Low => profile.append("Low"),
        Tier::Medium => profile.append("Medium"),
        Tier::High => profile.append("High"),
    }
    profile.append(" (cpus=");
    push_decimal(&mut profile, t.cpus as u64);
    profile.append(" mem=");
    push_mem(&mut profile, t.mem_mb);
    profile.append("); scan concurrency cap=");
    push_cap(&mut profile, t.scan_concurrency_cap);
    profile.append(", udp socket buffer=");
    push_decimal(&mut profile, t.udp_socket_buf as u64 / 1024);
    profile.append("KB, netstack tcp buffers=");
    push_decimal(&mut profile, t.netstack_tcp_rx_buf as u64 / 1024);
    profile.append("KB rx/");
    push_decimal(&mut profile, t.netstack_tcp_tx_buf as u64 / 1024);
    profile.append("KB tx, netstack udp buffer=");
    push_decimal(&mut profile, t.netstack_udp_buf as u64 / 1024);
    profile.append("KB, channel capacity=");
    push_decimal(&mut profile, t.channel_capacity as u64);
    profile.append(", h2 windows=");
    push_decimal(&mut profile, t.h2_stream_window as u64 / 1024);
    profile.append("KB/");
    push_decimal(&mut profile, t.h2_connection_window as u64 / 1024);
    profile.append("KB");

    let mut egress = "[*] egress TCP tuning: ".to_string();
    if t.tcp_tuning {
        egress.append("on");
    } else {
        egress.append("off");
    }
    egress.append(" (buffers=");
    push_decimal(&mut egress, t.tcp_egress_recv_buf as u64 / 1024);
    egress.append("KB rx/");
    push_decimal(&mut egress, t.tcp_egress_send_buf as u64 / 1024);
    egress.append("KB tx)");

    Summary { profile, egress }
}

/// Holds a wish for concurrent scans to what the settings allow.
pub fn cap_concurrency(tuning: &Tuning, requested: usize) -> (granted: usize)
    ensures
        granted <= requested,
        granted <= tuning.scan_concurrency_cap,
        granted == requested || granted == tuning.scan_concurrency_cap,
{
    if requested <= tuning.scan_concurrency_cap {
        requested
    } else {
        tuning.scan_concurrency_cap
    }
}

/// The socket buffer of a UDP socket, in bytes.
pub fn udp_socket_buf_bytes(tuning: &Tuning) -> (bytes: usize)
    ensures
        bytes == tuning.udp_socket_buf,
{
    tuning.udp_socket_buf
}

/// The receive buffer of a netstack TCP socket, which is also the window that
/// connection advertises, and so the ceiling on what it can pull down.
pub fn netstack_tcp_rx_buf_bytes(tuning: &Tuning) -> (bytes: usize)
    ensures
        bytes == tuning.netstack_tcp_rx_buf,
{
    tuning.netstack_tcp_rx_buf
}

/// The send buffer of a netstack TCP socket, in bytes.
pub fn netstack_tcp_tx_buf_bytes(tuning: &Tuning) -> (bytes: usize)
    ensures
        bytes == tuning.netstack_tcp_tx_buf,
{
    tuning.netstack_tcp_tx_buf
}

/// The buffer of a netstack UDP socket, in bytes.
pub fn netstack_udp_buf_bytes(tuning: &Tuning) -> (bytes: usize)
    ensures
        bytes == tuning.netstack_udp_buf,
{
    tuning.netstack_udp_buf
}

/// How many messages a channel holds.
pub fn channel_capacity(tuning: &Tuning) -> (capacity: usize)
    ensures
        capacity == tuning.channel_capacity,
{
    tuning.channel_capacity
}

/// The flow-control window of an HTTP/2 stream, in bytes.
pub fn h2_stream_window_bytes(tuning: &Tuning) -> (bytes: u32)
    ensures
        bytes == tuning.h2_stream_window,
{
    tuning.h2_stream_window
}

/// The flow-control window of an HTTP/2 connection, in bytes.
pub fn h2_connection_window_bytes(tuning: &Tuning) -> (bytes: u32)
    ensures
        bytes == tuning.h2_connection_window,
{
    tuning.h2_connection_window
}

/// The flow-control window of a QUIC connection, in bytes.
pub fn quic_connection_window_bytes(tuning: &Tuning) -> (bytes: u64)
    ensures
        bytes == tuning.quic_connection_window,
{
    tuning.quic_connection_window
}

/// The flow-control window of a QUIC stream, in bytes.
pub fn quic_stream_window_bytes(tuning: &Tuning) -> (bytes: u64)
    ensures
        bytes == tuning.quic_stream_window,
{
    tuning.quic_stream_window
}

/// Egress TCP receive buffer for `SO_RCVBUF`, in bytes.
pub fn tcp_egress_recv_buf_bytes(tuning: &Tuning) -> (bytes: usize)
    ensures
        bytes == tuning.tcp_egress_recv_buf,
{
    tuning.tcp_egress_recv_buf
}

/// Egress TCP send buffer for `SO_SNDBUF`, in bytes.
pub fn tcp_egress_send_buf_bytes(tuning: &Tuning) -> (bytes: usize)
    ensures
        bytes == tuning.tcp_egress_send_buf,
{
    tuning.tcp_egress_send_buf
}

/// Whether egress TCP tuning is enabled (`AETHER_TCP_TUNING`).
pub fn tcp_tuning_enabled(tuning: &Tuning) -> (enabled: bool)
    ensures
        enabled == tuning.tcp_tuning,
{
    tuning.tcp_tuning
}

/// Whatever the host and its environment, the settings that can be overridden
/// stay within their bounds.
pub proof fn law_settings_stay_in_bounds(host: Host)
    ensures
        MIN_BUFFER <= host_tuning(host).netstack_tcp_rx_buf <= MAX_BUFFER,
        MIN_BUFFER <= host_tuning(host).netstack_tcp_tx_buf <= MAX_BUFFER,
        MIN_BUFFER <= host_tuning(host).tcp_egress_recv_buf <= MAX_BUFFER,
        MIN_BUFFER <= host_tuning(host).tcp_egress_send_buf <= MAX_BUFFER,
        MIN_WINDOW <= host_tuning(host).quic_connection_window <= MAX_WINDOW,
        MIN_WINDOW <= host_tuning(host).quic_stream_window <= MAX_WINDOW,
{
}

/// A size written in plain digits, whatever the white space around it, is taken
/// as it is within the bounds and ignored outside them.
pub proof fn law_written_size_is_taken_within_bounds(
    before: Seq<char>,
    n: nat,
    after: Seq<char>,
    least: nat,
    most: nat,
    fallback: nat,
)
    requires
        is_blank(before),
        is_blank(after),
    ensures
        bounded(before + decimal(n) + after, least, most, fallback) == if least <= n <= most {
            n
        } else {
            fallback
        },
{
    law_trimmed_ignores_white_space_around(before, decimal(n), after);
    law_decimal_reads_back(n);
}

/// A size that is no number counts as if it were not set.
pub proof fn law_unreadable_size_counts_as_unset(
    value: Seq<char>,
    least: nat,
    most: nat,
    fallback: nat,
)
    requires
        number(trimmed(value)) is None,
    ensures
        overridden(Some(value), least, most, fallback) == overridden(None, least, most, fallback),
{
}

/// A knob does not care about the case of its value.
pub proof fn law_knob_ignores_case(a: Seq<char>, b: Seq<char>, default: bool)
    requires
        lowered(a) == lowered(b),
    ensures
        switched(a, default) == switched(b, default),
{
    law_lowered_and_trimmed_commute(a);
    law_lowered_and_trimmed_commute(b);
}

/// A knob does not care about white space around its value.
pub proof fn law_knob_ignores_white_space_around(
    before: Seq<char>,
    value: Seq<char>,
    after: Seq<char>,
    default: bool,
)
    requires
        is_blank(before),
        is_blank(after),
    ensures
        switched(before + value + after, default) == switched(value, default),
{
    law_trimmed_ignores_white_space_around(before, value, after);
}

/// A value that says neither on nor off counts as if it were not set, and any
/// other decides, whatever the default.
pub proof fn law_knob_decides_or_counts_as_unset(value: Seq<char>, default: bool)
    ensures
        is_off(lowered(trimmed(value))) ==> !knob(Some(value), default),
        is_on(lowered(trimmed(value))) ==> knob(Some(value), default),
        !is_off(lowered(trimmed(value))) && !is_on(lowered(trimmed(value))) ==> knob(
            Some(value),
            default,
        ) == knob(None, default),
{
    reveal_strlit("off");
    reveal_strlit("0");
    reveal_strlit("false");
    reveal_strlit("no");
    reveal_strlit("on");
    reveal_strlit("1");
    reveal_strlit("true");
    reveal_strlit("yes");
    let word = lowered(trimmed(value));
    if is_off(word) && is_on(word) {
        assert(word[0] == 'o' || word[0] == '0' || word[0] == 'f' || word[0] == 'n');
        assert(word == "off"@ ==> word[1] == 'f');
    }
}

/// A profile that names a tier settles it, whatever the hardware; one that names
/// none counts as if it were not set.
pub proof fn law_profile_decides_or_counts_as_unset(
    value: Seq<char>,
    cpus: usize,
    mem_mb: Option<u64>,
)
    ensures
        match profile_tier(lower_case(trimmed(value))) {
            Some(tier) => host_tier(Some(value), cpus, mem_mb) == tier,
            None => host_tier(Some(value), cpus, mem_mb) == host_tier(None, cpus, mem_mb),
        },
{
}

/// A profile in ASCII does not care about the case of its letters or about
/// white space around it.
pub proof fn law_profile_ignores_case_and_white_space_around(
    a: Seq<char>,
    before: Seq<char>,
    b: Seq<char>,
    after: Seq<char>,
    cpus: usize,
    mem_mb: Option<u64>,
)
    requires
        is_ascii_chars(trimmed(a)),
        is_ascii_chars(trimmed(b)),
        lowered(a) == lowered(b),
        is_blank(before),
        is_blank(after),
    ensures
        host_tier(Some(a), cpus, mem_mb) == host_tier(Some(before + b + after), cpus, mem_mb),
{
    law_lowered_and_trimmed_commute(a);
    law_lowered_and_trimmed_commute(b);
    law_trimmed_ignores_white_space_around(before, b, after);
}

/// How high a tier stands.
pub open spec fn rank(tier: Tier) -> int {
    by_tier(tier, 0, 1, 2)
}

/// Whether the memory `b` holds nothing back that the memory `a` would not.
pub open spec fn no_more_memory(a: Option<u64>, b: Option<u64>) -> bool {
    match (a, b) {
        (_, None) => true,
        (None, Some(_)) => false,
        (Some(x), Some(y)) => x <= y,
    }
}

/// More processors and more memory never lower the tier.
pub proof fn law_more_hardware_never_lowers_the_tier(
    cpus: usize,
    more_cpus: usize,
    mem_mb: Option<u64>,
    more_mem_mb: Option<u64>,
)
    requires
        cpus <= more_cpus,
        no_more_memory(mem_mb, more_mem_mb),
    ensures
        rank(hardware_tier(cpus, mem_mb)) <= rank(hardware_tier(more_cpus, more_mem_mb)),
{
}

/// Under one environment no setting shrinks as the tier rises.
pub proof fn law_settings_follow_the_tier(
    lower: Tier,
    higher: Tier,
    cpus: usize,
    mem_mb: Option<u64>,
    env: Environment,
)
    requires
        rank(lower) <= rank(higher),
    ensures
        ({
            let a = tier_tuning(lower, cpus, mem_mb, env);
            let b = tier_tuning(higher, cpus, mem_mb, env);
            &&& a.scan_concurrency_cap <= b.scan_concurrency_cap
            &&& a.udp_socket_buf <= b.udp_socket_buf
            &&& a.netstack_tcp_rx_buf <= b.netstack_tcp_rx_buf
            &&& a.netstack_tcp_tx_buf <= b.netstack_tcp_tx_buf
            &&& a.netstack_udp_buf <= b.netstack_udp_buf
            &&& a.channel_capacity <= b.channel_capacity
            &&& a.h2_stream_window <= b.h2_stream_window
            &&& a.h2_connection_window <= b.h2_connection_window
            &&& a.quic_connection_window <= b.quic_connection_window
            &&& a.quic_stream_window <= b.quic_stream_window
            &&& a.tcp_egress_recv_buf <= b.tcp_egress_recv_buf
            &&& a.tcp_egress_send_buf <= b.tcp_egress_send_buf
            &&& a.tcp_tuning == b.tcp_tuning
        }),
{
}

/// Where the environment sets no sizes, the receive side gets the room and no
/// stream may take more than its connection.
pub proof fn law_receive_side_gets_the_room(
    tier: Tier,
    cpus: usize,
    mem_mb: Option<u64>,
    env: Environment,
)
    requires
        env.value(NETSTACK_TCP_RX@) is None,
        env.value(NETSTACK_TCP_TX@) is None,
        env.value(QUIC_CONN_WINDOW@) is None,
        env.value(QUIC_STREAM_WINDOW@) is None,
        env.value(TCP_RECV_BUF@) is None,
        env.value(TCP_SEND_BUF@) is None,
    ensures
        ({
            let t = tier_tuning(tier, cpus, mem_mb, env);
            &&& t.netstack_tcp_tx_buf < t.netstack_tcp_rx_buf
            &&& t.tcp_egress_send_buf < t.tcp_egress_recv_buf
            &&& t.h2_stream_window < t.h2_connection_window
            &&& t.quic_stream_window < t.quic_connection_window
        }),
{
}

/// The scans of a host are limited exactly below the highest tier.
pub proof fn law_highest_tier_alone_is_not_capped(host: Host)
    ensures
        host_tuning(host).scan_concurrency_cap == usize::MAX <==> host_tuning(host).tier
            == Tier::High,
{
}

/// A `/proc/meminfo` that opens with its `MemTotal:` line, as the kernel writes
/// it, is read for what that line states.
pub proof fn law_meminfo_states_the_memory(padding: Seq<char>, kb: nat, rest: Seq<char>)
    requires
        is_blank(padding),
        !padding.contains('\n'),
        kb <= u64::MAX,
    ensures
        meminfo_mb(
            ("MemTotal:"@ + padding + decimal(kb) + " kB"@).push('\n') + rest,
        ) == Some((kb / 1024) as u64),
{
    reveal_strlit("MemTotal:");
    reveal_strlit(" kB");
    reveal_strlit("kB");
    law_decimal_reads_back(kb);
    let digits = decimal(kb);
    let line = "MemTotal:"@ + padding + digits + " kB"@;
    let tail = padding + digits + " kB"@;
    assert(!line.contains('\n')) by {
        if line.contains('\n') {
            let i = choose|i: int| 0 <= i < line.len() && line[i] == '\n';
            if 9 <= i < 9 + padding.len() {
                assert(padding[i - 9] == '\n');
            } else if 9 + padding.len() <= i < 9 + padding.len() + digits.len() {
                assert(is_digit(digits[i - 9 - padding.len()]));
            }
        }
    }
    law_first_line(line, rest);
    assert(without_return(line) == line);
    assert("MemTotal:"@ == line.subrange(0, 9));
    assert(line.skip(9) == tail);
    assert(after_prefix(lines(line.push('\n') + rest), "MemTotal:"@) == Some(tail));
    assert(trimmed(tail) == digits + " kB"@) by {
        let inner = digits + " kB"@;
        law_trimmed_ignores_white_space_around(padding, inner, Seq::empty());
        assert(padding + inner + Seq::<char>::empty() == tail);
        assert(is_digit(digits[0]));
    }
    assert(without_suffixes(digits + " kB"@, "kB"@) == digits.push(' ')) by {
        let inner = digits + " kB"@;
        assert("kB"@ == inner.subrange(inner.len() - 2, inner.len() as int));
        assert(inner.take(inner.len() - 2) == digits.push(' '));
        let shorter = digits.push(' ');
        assert(shorter.subrange(shorter.len() - 2, shorter.len() as int)[1] == ' ');
        assert(without_suffixes(shorter, "kB"@) == shorter);
    }
    assert(trimmed(digits.push(' ')) == digits) by {
        law_trimmed_ignores_white_space_around(Seq::empty(), digits, seq![' ']);
        assert(Seq::<char>::empty() + digits + seq![' '] == digits.push(' '));
    }
}

/// Hardware is as good as its weaker half: the tier is the lower of what the
/// processors alone and what the memory alone suggest. It is the lowest with two
/// processors or fewer or with memory known to be 384 MiB or less, and the highest
/// with more than four processors and memory that is not known to be 1536 MiB or
/// less.
pub proof fn law_tier_is_the_lower_of_processors_and_memory(cpus: usize, mem_mb: Option<u64>)
    ensures
        ({
            let by_cpus = rank(hardware_tier(cpus, None));
            let by_memory = rank(hardware_tier(usize::MAX, mem_mb));
            rank(hardware_tier(cpus, mem_mb)) == if by_cpus <= by_memory {
                by_cpus
            } else {
                by_memory
            }
        }),
        hardware_tier(cpus, mem_mb) == Tier::Low <==> (cpus <= 2 || (mem_mb matches Some(mb) && mb
            <= 384)),
        hardware_tier(cpus, mem_mb) == Tier::High <==> (cpus > 4 && (mem_mb matches Some(mb) ==> mb
            > 1536)),
{
}

/// A host that names no profile has the tier of its processors and memory; so has
/// one whose profile is no name of a tier.
pub proof fn law_host_without_a_profile_has_the_tier_of_its_hardware(host: Host)
    requires
        host.env.value("AETHER_PERF_PROFILE"@) matches Some(value) ==> {
            let word = lower_case(trimmed(value));
            word != "low"@ && word != "medium"@ && word != "mid"@ && word != "high"@
        },
    ensures
        ({
            let t = host_tuning(host);
            &&& t.tier == Tier::Low <==> (t.cpus <= 2 || (t.mem_mb matches Some(mb) && mb <= 384))
            &&& t.tier == Tier::High <==> (t.cpus > 4 && (t.mem_mb matches Some(mb) ==> mb > 1536))
        }),
{
}

/// A host that names a profile has the tier of that name, in any case and with any
/// white space around it, whatever its hardware.
pub proof fn law_host_has_the_tier_it_names(
    host: Host,
    before: Seq<char>,
    word: Seq<char>,
    after: Seq<char>,
)
    requires
        is_blank(before),
        is_blank(after),
        host.env.value("AETHER_PERF_PROFILE"@) == Some(before + word + after),
    ensures
        lowered(word) == "low"@ ==> host_tuning(host).tier == Tier::Low,
        lowered(word) == "medium"@ ==> host_tuning(host).tier == Tier::Medium,
        lowered(word) == "mid"@ ==> host_tuning(host).tier == Tier::Medium,
        lowered(word) == "high"@ ==> host_tuning(host).tier == Tier::High,
{
    reveal_strlit("low");
    reveal_strlit("medium");
    reveal_strlit("mid");
    reveal_strlit("high");
    let name = lowered(word);
    if name == "low"@ || name == "medium"@ || name == "mid"@ || name == "high"@ {
        law_padded_word_is_read_in_lower_case(before, word, after);
        law_lower_case_of_ascii(trimmed(before + word + after));
        assert("low"@[0] == 'l' && "medium"@[0] == 'm' && "mid"@[0] == 'm' && "high"@[0] == 'h');
    }
}

/// The settings report the processors that the host counted, one where it could
/// not, and its memory in whole mebibytes, where it is known.
pub proof fn law_host_is_reported(host: Host)
    ensures
        host.parallelism matches Some(n) ==> host_tuning(host).cpus == n,
        host.parallelism is None ==> host_tuning(host).cpus == 1,
        host.memory matches Memory::Bytes(Some(bytes)) ==> (host_tuning(host).mem_mb matches Some(
            mb,
        ) && mb * 1048576 <= bytes && bytes < (mb + 1) * 1048576),
        host.memory matches Memory::Meminfo(Some(text)) ==> host_tuning(host).mem_mb == meminfo_mb(
            text@,
        ),
        host.memory == Memory::Bytes(None) ==> host_tuning(host).mem_mb is None,
        host.memory == Memory::Meminfo(None) ==> host_tuning(host).mem_mb is None,
        host.memory == Memory::Unknown ==> host_tuning(host).mem_mb is None,
{
}

/// A size that is set in plain digits within the bounds, whatever the white space
/// around it, is taken whatever it would be otherwise.
pub proof fn law_size_that_is_set_is_taken(
    before: Seq<char>,
    n: nat,
    after: Seq<char>,
    least: nat,
    most: nat,
    fallback: nat,
)
    requires
        is_blank(before),
        is_blank(after),
        least <= n <= most,
    ensures
        overridden(Some(before + decimal(n) + after), least, most, fallback) == n,
{
    law_written_size_is_taken_within_bounds(before, n, after, least, most, fallback);
}

/// Whether `value` gives no size between `least` and `most`: it is missing, no
/// number, or out of the bounds.
pub open spec fn gives_no_size(value: Option<Seq<char>>, least: nat, most: nat) -> bool {
    match value {
        Some(text) => match number(trimmed(text)) {
            Some(n) => n < least || n > most,
            None => true,
        },
        None => true,
    }
}

/// Where no size is given within the bounds, what it would be otherwise stands.
pub proof fn law_size_that_is_not_given_falls_back(
    value: Option<Seq<char>>,
    least: nat,
    most: nat,
    fallback: nat,
)
    requires
        gives_no_size(value, least, most),
    ensures
        overridden(value, least, most, fallback) == fallback,
{
}

/// Whatever its tier, a host takes each size that its environment gives it within
/// the bounds: 16 KiB to 64 MiB for a buffer, 64 KiB to 1 GiB for a window.
pub proof fn law_host_takes_the_sizes_it_is_given(
    host: Host,
    before: Seq<char>,
    n: nat,
    after: Seq<char>,
)
    requires
        is_blank(before),
        is_blank(after),
    ensures
        ({
            let t = host_tuning(host);
            let given = Some(before + decimal(n) + after);
            let buffer_fits = 16384 <= n <= 67108864;
            let window_fits = 65536 <= n <= 1073741824;
            &&& host.env.value("AETHER_NETSTACK_TCP_RX"@) == given && buffer_fits
                ==> t.netstack_tcp_rx_buf == n
            &&& host.env.value("AETHER_NETSTACK_TCP_TX"@) == given && buffer_fits
                ==> t.netstack_tcp_tx_buf == n
            &&& host.env.value("AETHER_TCP_RECV_BUF"@) == given && buffer_fits
                ==> t.tcp_egress_recv_buf == n
            &&& host.env.value("AETHER_TCP_SEND_BUF"@) == given && buffer_fits
                ==> t.tcp_egress_send_buf == n
            &&& host.env.value("AETHER_QUIC_CONN_WINDOW"@) == given && window_fits
                ==> t.quic_connection_window == n
            &&& host.env.value("AETHER_QUIC_STREAM_WINDOW"@) == given && window_fits
                ==> t.quic_stream_window == n
        }),
{
    law_trimmed_ignores_white_space_around(before, decimal(n), after);
    law_decimal_reads_back(n);
}

/// A host whose environment gives no size for a setting has that of its tier,
/// whatever else it is and whatever its other variables say.
pub proof fn law_host_without_a_size_has_that_of_its_tier(host: Host)
    ensures
        ({
            let t = host_tuning(host);
            &&& gives_no_size(host.env.value("AETHER_NETSTACK_TCP_RX"@), 16384, 67108864)
                ==> t.netstack_tcp_rx_buf == match t.tier {
                Tier::Low => 262144int,
                Tier::Medium => 1048576,
                Tier::High => 2097152,
            }
            &&& gives_no_size(host.env.value("AETHER_NETSTACK_TCP_TX"@), 16384, 67108864)
                ==> t.netstack_tcp_tx_buf == match t.tier {
                Tier::Low => 131072int,
                Tier::Medium => 262144,
                Tier::High => 524288,
            }
            &&& gives_no_size(host.env.value("AETHER_TCP_RECV_BUF"@), 16384, 67108864)
                ==> t.tcp_egress_recv_buf == match t.tier {
                Tier::Low => 262144int,
                Tier::Medium => 524288,
                Tier::High => 1048576,
            }
            &&& gives_no_size(host.env.value("AETHER_TCP_SEND_BUF"@), 16384, 67108864)
                ==> t.tcp_egress_send_buf == match t.tier {
                Tier::Low => 131072int,
                Tier::Medium => 262144,
                Tier::High => 524288,
            }
            &&& gives_no_size(host.env.value("AETHER_QUIC_CONN_WINDOW"@), 65536, 1073741824)
                ==> t.quic_connection_window == match t.tier {
                Tier::Low => 10_000_000int,
                Tier::Medium => 24_000_000,
                Tier::High => 48_000_000,
            }
            &&& gives_no_size(host.env.value("AETHER_QUIC_STREAM_WINDOW"@), 65536, 1073741824)
                ==> t.quic_stream_window == match t.tier {
                Tier::Low => 2_000_000int,
                Tier::Medium => 8_000_000,
                Tier::High => 16_000_000,
            }
        }),
{
}

/// The settings that no variable overrides follow from the tier alone.
pub proof fn law_other_settings_follow_from_the_tier_alone(host: Host)
    ensures
        ({
            let t = host_tuning(host);
            match t.tier {
                Tier::Low => {
                    &&& t.scan_concurrency_cap == 4
                    &&& t.udp_socket_buf == 262144
                    &&& t.netstack_udp_buf == 32768
                    &&& t.channel_capacity == 128
                    &&& t.h2_stream_window == 2097152
                    &&& t.h2_connection_window == 4194304
                },
                Tier::Medium => {
                    &&& t.scan_concurrency_cap == 10
                    &&& t.udp_socket_buf == 2097152
                    &&& t.netstack_udp_buf == 65536
                    &&& t.channel_capacity == 512
                    &&& t.h2_stream_window == 8388608
                    &&& t.h2_connection_window == 16777216
                },
                Tier::High => {
                    &&& t.scan_concurrency_cap == usize::MAX
                    &&& t.udp_socket_buf == 7340032
                    &&& t.netstack_udp_buf == 131072
                    &&& t.channel_capacity == 1024
                    &&& t.h2_stream_window == 16777216
                    &&& t.h2_connection_window == 33554432
                },
            }
        }),
{
}

/// Two hosts of one tier with one environment differ in nothing but the processors
/// and the memory that they report.
pub proof fn law_tier_and_environment_settle_the_rest(a: Host, b: Host)
    requires
        host_tuning(a).tier == host_tuning(b).tier,
        a.env@ == b.env@,
    ensures
        host_tuning(a) == (Tuning {
            cpus: host_tuning(a).cpus,
            mem_mb: host_tuning(a).mem_mb,
            ..host_tuning(b)
        }),
{
    assert(a.env.value(TCP_TUNING@) == b.env.value(TCP_TUNING@));
    assert(a.env.value(NETSTACK_TCP_RX@) == b.env.value(NETSTACK_TCP_RX@));
    assert(a.env.value(NETSTACK_TCP_TX@) == b.env.value(NETSTACK_TCP_TX@));
    assert(a.env.value(QUIC_CONN_WINDOW@) == b.env.value(QUIC_CONN_WINDOW@));
    assert(a.env.value(QUIC_STREAM_WINDOW@) == b.env.value(QUIC_STREAM_WINDOW@));
    assert(a.env.value(TCP_RECV_BUF@) == b.env.value(TCP_RECV_BUF@));
    assert(a.env.value(TCP_SEND_BUF@) == b.env.value(TCP_SEND_BUF@));
}

/// The four spellings of off and the four of on set a knob, in any case, with any
/// white space around them and whatever the default.
pub proof fn law_spellings_set_a_knob(
    before: Seq<char>,
    word: Seq<char>,
    after: Seq<char>,
    default: bool,
)
    requires
        is_blank(before),
        is_blank(after),
    ensures
        ({
            let said = lowered(word);
            let value = before + word + after;
            &&& said == "off"@ || said == "0"@ || said == "false"@ || said == "no"@ ==> !switched(
                value,
                default,
            )
            &&& said == "on"@ || said == "1"@ || said == "true"@ || said == "yes"@ ==> switched(
                value,
                default,
            )
        }),
{
    reveal_strlit("off");
    reveal_strlit("0");
    reveal_strlit("false");
    reveal_strlit("no");
    reveal_strlit("on");
    reveal_strlit("1");
    reveal_strlit("true");
    reveal_strlit("yes");
    let said = lowered(word);
    let value = before + word + after;
    if said == "off"@ || said == "0"@ || said == "false"@ || said == "no"@ || said == "on"@ || said
        == "1"@ || said == "true"@ || said == "yes"@ {
        law_padded_word_is_read_in_lower_case(before, word, after);
        law_knob_decides_or_counts_as_unset(value, default);
    }
}

/// Any other value leaves a knob at its default, and so does none.
pub proof fn law_nothing_else_sets_a_knob(value: Seq<char>, default: bool)
    requires
        ({
            let said = lowered(trimmed(value));
            &&& said != "off"@ && said != "0"@ && said != "false"@ && said != "no"@
            &&& said != "on"@ && said != "1"@ && said != "true"@ && said != "yes"@
        }),
    ensures
        switched(value, default) == default,
        knob(Some(value), default) == default,
        knob(None, default) == default,
{
}

/// The egress tuning of a host is off exactly where its variable spells off.
pub proof fn law_host_is_tuned_unless_told_otherwise(host: Host)
    ensures
        !host_tuning(host).tcp_tuning <==> (host.env.value("AETHER_TCP_TUNING"@) matches Some(value)
            && {
            let said = lowered(trimmed(value));
            said == "off"@ || said == "0"@ || said == "false"@ || said == "no"@
        }),
{
}

/// The mebibytes that the rest of a `MemTotal:` line states.
spec fn stated_mb(rest: Seq<char>) -> Option<u64> {
    match number(trimmed(without_suffixes(trimmed(rest), "kB"@))) {
        Some(kb) => if kb <= u64::MAX {
            Some((kb / 1024) as u64)
        } else {
            None
        },
        None => None,
    }
}

proof fn lemma_trimmed_without_return(s: Seq<char>)
    ensures
        trimmed(without_return(s)) == trimmed(s),
{
    if s.len() > 0 && s.last() == '\r' {
        let after = seq!['\r'];
        law_trimmed_ignores_white_space_around(Seq::empty(), s.drop_last(), after);
        assert(Seq::<char>::empty() + s.drop_last() + after == s);
    }
}

proof fn lemma_memory_line(rest: Seq<char>, more: Seq<char>)
    requires
        !rest.contains('\n'),
    ensures
        meminfo_mb(("MemTotal:"@ + rest).push('\n') + more) == stated_mb(rest),
        meminfo_mb("MemTotal:"@ + rest) == stated_mb(rest),
{
    reveal_strlit("MemTotal:");
    let line = "MemTotal:"@ + rest;
    assert(!line.contains('\n')) by {
        if line.contains('\n') {
            let i = choose|i: int| 0 <= i < line.len() && line[i] == '\n';
            if i >= 9 {
                assert(rest[i - 9] == '\n');
            }
        }
    }
    law_first_line(line, more);
    let first = without_return(line);
    assert(first == "MemTotal:"@ + without_return(rest)) by {
        if rest.len() == 0 {
            assert(line == "MemTotal:"@);
        } else {
            assert(line.last() == rest.last());
            assert(line.drop_last() == "MemTotal:"@ + rest.drop_last());
        }
    }
    assert("MemTotal:"@ == first.subrange(0, 9));
    assert(first.skip(9) == without_return(rest));
    lemma_trimmed_without_return(rest);
    law_last_line(line);
    assert("MemTotal:"@ == line.subrange(0, 9));
    assert(line.skip(9) == rest);
}

/// A line of `/proc/meminfo` that does not begin with `MemTotal:` is passed over.
pub proof fn law_other_lines_of_meminfo_are_passed_over(line: Seq<char>, more: Seq<char>)
    requires
        !line.contains('\n'),
        line.len() < 9 || line.take(9) != "MemTotal:"@,
    ensures
        meminfo_mb(line.push('\n') + more) == meminfo_mb(more),
        meminfo_mb(line) is None,
{
    reveal_strlit("MemTotal:");
    law_first_line(line, more);
    let first = without_return(line);
    let rows = lines(line.push('\n') + more);
    assert(rows.drop_first() == lines(more));
    if "MemTotal:"@.is_prefix_of(first) {
        assert(first.subrange(0, 9) == line.take(9));
    }
    if line.len() > 0 {
        law_last_line(line);
        if "MemTotal:"@.is_prefix_of(line) {
            assert(line.subrange(0, 9) == line.take(9));
        }
        assert(lines(line).drop_first() == Seq::<Seq<char>>::empty());
        assert(after_prefix(Seq::empty(), "MemTotal:"@) is None);
    }
}

/// The first `MemTotal:` line of a `/proc/meminfo` settles the memory, whatever
/// follows it and whether it has its ending or not.
pub proof fn law_first_memory_line_settles_the_memory(
    rest: Seq<char>,
    more: Seq<char>,
    other: Seq<char>,
)
    requires
        !rest.contains('\n'),
    ensures
        meminfo_mb(("MemTotal:"@ + rest).push('\n') + more) == meminfo_mb(
            ("MemTotal:"@ + rest).push('\n') + other,
        ),
        meminfo_mb(("MemTotal:"@ + rest).push('\n') + more) == meminfo_mb("MemTotal:"@ + rest),
{
    lemma_memory_line(rest, more);
    lemma_memory_line(rest, other);
}

/// A `MemTotal:` line that holds a number of kibibytes, with its unit or without
/// and with any white space between, is read for the whole mebibytes in it, and for
/// nothing where the number is too large for 64 bits. `digits` is any spelling of
/// the number.
pub proof fn law_memory_line_is_read_for_its_number(
    padding: Seq<char>,
    digits: Seq<char>,
    kb: nat,
    gap: Seq<char>,
    unit: Seq<char>,
    tail: Seq<char>,
    more: Seq<char>,
)
    requires
        is_blank(padding),
        number(digits) == Some(kb),
        is_blank(gap),
        is_blank(tail),
        unit == "kB"@ || unit == Seq::<char>::empty(),
        !(padding + digits + gap + unit + tail).contains('\n'),
    ensures
        ({
            let line = "MemTotal:"@ + (padding + digits + gap + unit + tail);
            let mb = meminfo_mb(line.push('\n') + more);
            &&& kb <= u64::MAX ==> (mb matches Some(n) && 1024 * n <= kb && kb < 1024 * (n + 1))
            &&& kb > u64::MAX ==> mb is None
        }),
{
    reveal_strlit("kB");
    let rest = padding + digits + gap + unit + tail;
    lemma_memory_line(rest, more);
    law_only_digits_spell_a_number(digits);
    assert('0' <= digits[0] <= '9' || digits[0] == '+');
    assert('0' <= digits[digits.len() - 1] <= '9');
    let body = digits + gap;
    assert(trimmed(body) == digits) by {
        law_tight_text_is_kept(Seq::empty(), digits, gap);
        assert(Seq::<char>::empty() + digits + gap == body);
    }
    assert(trimmed(without_suffixes(trimmed(rest), "kB"@)) == digits) by {
        if unit == "kB"@ {
            let inner = body + unit;
            law_tight_text_is_kept(padding, inner, tail);
            assert(padding + inner + tail == rest);
            assert("kB"@ == inner.subrange(inner.len() - 2, inner.len() as int));
            assert(inner.take(inner.len() - 2) == body);
            assert(body.last() != 'B') by {
                if gap.len() > 0 {
                    assert(is_white_space(gap[gap.len() - 1]));
                    assert(body.last() == gap[gap.len() - 1]);
                }
            }
            lemma_no_suffix(body);
        } else {
            let after = gap + tail;
            assert(is_blank(after)) by {
                assert forall|i: int| 0 <= i < after.len() implies is_white_space(
                    #[trigger] after[i],
                ) by {
                    if i < gap.len() {
                        assert(after[i] == gap[i]);
                    } else {
                        assert(after[i] == tail[i - gap.len()]);
                    }
                }
            }
            law_tight_text_is_kept(padding, digits, after);
            assert(padding + digits + after == rest);
            lemma_no_suffix(digits);
        }
    }
}

proof fn lemma_no_suffix(s: Seq<char>)
    requires
        s.len() > 0,
        s.last() != 'B',
    ensures
        without_suffixes(s, "kB"@) == s,
{
    reveal_strlit("kB");
    if "kB"@.is_suffix_of(s) {
        assert(s.subrange(s.len() - 2, s.len() as int)[1] == s.last());
    }
}

/// A `MemTotal:` line with a character in it that belongs to no number of kibibytes
/// gives no memory, whatever follows.
pub proof fn law_memory_line_that_is_no_number_gives_no_memory(
    rest: Seq<char>,
    more: Seq<char>,
    stray: char,
)
    requires
        !rest.contains('\n'),
        rest.contains(stray),
        !('0' <= stray <= '9'),
        !is_white_space(stray),
        stray != '+',
        stray != 'k',
        stray != 'B',
    ensures
        meminfo_mb(("MemTotal:"@ + rest).push('\n') + more) is None,
{
    lemma_memory_line(rest, more);
    lemma_trimmed_keeps(rest, stray);
    lemma_without_suffixes_keeps(trimmed(rest), stray);
    let body = without_suffixes(trimmed(rest), "kB"@);
    lemma_trimmed_keeps(body, stray);
    let text = trimmed(body);
    let i = choose|i: int| 0 <= i < text.len() && text[i] == stray;
    law_only_digits_spell_a_number(text);
    assert(text[i] == stray);
}

proof fn lemma_trimmed_keeps(s: Seq<char>, c: char)
    requires
        s.contains(c),
        !is_white_space(c),
    ensures
        trimmed(s).contains(c),
{
    law_trimming_takes_white_space_off_the_ends_only(s);
    let (before, after) = choose|before: Seq<char>, after: Seq<char>|
        is_blank(before) && is_blank(after) && s == #[trigger] (before + trimmed(s) + after);
    let middle = trimmed(s);
    let i = choose|i: int| 0 <= i < s.len() && s[i] == c;
    if i < before.len() {
        assert(is_white_space(before[i]));
    } else if i < before.len() + middle.len() {
        assert(middle[i - before.len()] == c);
    } else {
        assert(is_white_space(after[i - before.len() - middle.len()]));
    }
}

proof fn lemma_without_suffixes_keeps(s: Seq<char>, c: char)
    requires
        s.contains(c),
        c != 'k',
        c != 'B',
    ensures
        without_suffixes(s, "kB"@).contains(c),
    decreases s.len(),
{
    reveal_strlit("kB");
    if "kB"@.is_suffix_of(s) {
        let left = s.take(s.len() - 2);
        let i = choose|i: int| 0 <= i < s.len() && s[i] == c;
        if i >= s.len() - 2 {
            assert(s.subrange(s.len() - 2, s.len() as int)[i - (s.len() - 2)] == c);
        } else {
            assert(left[i] == c);
        }
        lemma_without_suffixes_keeps(left, c);
    }
}

/// The summary names every setting in its place, sizes in whole kibibytes: `udp`,
/// `rx`, `tx`, `netstack_udp`, `stream` and `connection` are those in the buffers
/// and windows of `t`.
pub proof fn law_profile_line_names_every_setting(
    t: Tuning,
    udp: nat,
    rx: nat,
    tx: nat,
    netstack_udp: nat,
    stream: nat,
    connection: nat,
)
    requires
        1024 * udp <= t.udp_socket_buf < 1024 * (udp + 1),
        1024 * rx <= t.netstack_tcp_rx_buf < 1024 * (rx + 1),
        1024 * tx <= t.netstack_tcp_tx_buf < 1024 * (tx + 1),
        1024 * netstack_udp <= t.netstack_udp_buf < 1024 * (netstack_udp + 1),
        1024 * stream <= t.h2_stream_window < 1024 * (stream + 1),
        1024 * connection <= t.h2_connection_window < 1024 * (connection + 1),
    ensures
        ({
            let tier = match t.tier {
                Tier::Low => "Low"@,
                Tier::Medium => "Medium"@,
                Tier::High => "High"@,
            };
            let mem = match t.mem_mb {
                Some(mb) => decimal(mb as nat) + "MB"@,
                None => "unknown"@,
            };
            let cap = if t.scan_concurrency_cap < usize::MAX {
                decimal(t.scan_concurrency_cap as nat)
            } else {
                "unlimited"@
            };
            profile_line(t) == "[*] performance profile: "@ + tier + " (cpus="@ + decimal(
                t.cpus as nat,
            ) + " mem="@ + mem + "); scan concurrency cap="@ + cap + ", udp socket buffer="@
                + decimal(udp) + "KB, netstack tcp buffers="@ + decimal(rx) + "KB rx/"@ + decimal(
                tx,
            ) + "KB tx, netstack udp buffer="@ + decimal(netstack_udp)
                + "KB, channel capacity="@ + decimal(t.channel_capacity as nat)
                + ", h2 windows="@ + decimal(stream) + "KB/"@ + decimal(connection) + "KB"@
        }),
{
    assert(t.udp_socket_buf as nat / 1024 == udp);
    assert(t.netstack_tcp_rx_buf as nat / 1024 == rx);
    assert(t.netstack_tcp_tx_buf as nat / 1024 == tx);
    assert(t.netstack_udp_buf as nat / 1024 == netstack_udp);
    assert(t.h2_stream_window as nat / 1024 == stream);
    assert(t.h2_connection_window as nat / 1024 == connection);
}

/// The line on the egress tuning says whether it is on and names both buffers, of
/// `recv` and `send` whole kibibytes.
pub proof fn law_egress_line_names_both_buffers(t: Tuning, recv: nat, send: nat)
    requires
        1024 * recv <= t.tcp_egress_recv_buf < 1024 * (recv + 1),
        1024 * send <= t.tcp_egress_send_buf < 1024 * (send + 1),
    ensures
        t.tcp_tuning ==> egress_line(t) == "[*] egress TCP tuning: "@ + "on"@ + " (buffers="@
            + decimal(recv) + "KB rx/"@ + decimal(send) + "KB tx)"@,
        !t.tcp_tuning ==> egress_line(t) == "[*] egress TCP tuning: "@ + "off"@ + " (buffers="@
            + decimal(recv) + "KB rx/"@ + decimal(send) + "KB tx)"@,
{
    assert(t.tcp_egress_recv_buf as nat / 1024 == recv);
    assert(t.tcp_egress_send_buf as nat / 1024 == send);
}

/// A wish within the limit is granted as it is, a greater one up to the limit: of
/// two wishes the greater is never granted less.
pub proof fn law_wishes_are_granted_up_to_the_limit(
    tuning: Tuning,
    wish: usize,
    granted: usize,
    greater: usize,
    granted_then: usize,
)
    requires
        call_ensures(cap_concurrency, (&tuning, wish), granted),
        call_ensures(cap_concurrency, (&tuning, greater), granted_then),
        wish <= greater,
    ensures
        wish <= tuning.scan_concurrency_cap ==> granted == wish,
        wish > tuning.scan_concurrency_cap ==> granted == tuning.scan_concurrency_cap,
        granted <= granted_then,
{
}

/// Two processor counts on one side of both limits, two and four, and two memories
/// on one side of both, 384 and 1536, call for one tier.
pub proof fn law_only_the_limits_tell_hardware_apart(
    cpus: usize,
    other_cpus: usize,
    mem_mb: u64,
    other_mem_mb: u64,
    tier: Tier,
    other_tier: Tier,
)
    requires
        call_ensures(tier_by_hardware, (cpus, Some(mem_mb)), tier),
        call_ensures(tier_by_hardware, (other_cpus, Some(other_mem_mb)), other_tier),
        cpus <= 2 <==> other_cpus <= 2,
        cpus <= 4 <==> other_cpus <= 4,
        mem_mb <= 384 <==> other_mem_mb <= 384,
        mem_mb <= 1536 <==> other_mem_mb <= 1536,
    ensures
        tier == other_tier,
        tier == Tier::Low <==> (cpus <= 2 || mem_mb <= 384),
        tier == Tier::High <==> (cpus > 4 && mem_mb > 1536),
{
}

/// A buffer whose variable spells a size within the bounds has that size, whatever
/// it would be otherwise; one that spells none has what it would be otherwise.
pub proof fn law_buffer_call_gives_what_is_set(
    env: Environment,
    key: &str,
    before: Seq<char>,
    n: nat,
    after: Seq<char>,
    fallback: usize,
    bytes: usize,
)
    requires
        call_ensures(buffer_override, (&env, key, fallback), bytes),
        is_blank(before),
        is_blank(after),
    ensures
        env.value(key@) == Some(before + decimal(n) + after) && 16384 <= n <= 67108864 ==> bytes
            == n,
        env.value(key@) == Some(before + decimal(n) + after) && !(16384 <= n <= 67108864) ==> bytes
            == fallback,
        env.value(key@) is None ==> bytes == fallback,
{
    law_trimmed_ignores_white_space_around(before, decimal(n), after);
    law_decimal_reads_back(n);
}

/// A window whose variable spells a size within the bounds has that size, whatever
/// it would be otherwise; one that spells none has what it would be otherwise.
pub proof fn law_window_call_gives_what_is_set(
    env: Environment,
    key: &str,
    before: Seq<char>,
    n: nat,
    after: Seq<char>,
    fallback: u64,
    bytes: u64,
)
    requires
        call_ensures(window_override, (&env, key, fallback), bytes),
        is_blank(before),
        is_blank(after),
    ensures
        env.value(key@) == Some(before + decimal(n) + after) && 65536 <= n <= 1073741824 ==> bytes
            == n,
        env.value(key@) == Some(before + decimal(n) + after) && !(65536 <= n <= 1073741824)
            ==> bytes == fallback,
        env.value(key@) is None ==> bytes == fallback,
{
    law_trimmed_ignores_white_space_around(before, decimal(n), after);
    law_decimal_reads_back(n);
}

/// Two fallbacks give one size where a value gives one, and each gives itself
/// where it gives none: of two readings of a value, both or neither fall back.
pub proof fn law_readings_of_a_value_agree(
    value: &str,
    fallback: usize,
    other: usize,
    bytes: usize,
    other_bytes: usize,
)
    requires
        call_ensures(buffer_value, (value, fallback), bytes),
        call_ensures(buffer_value, (value, other), other_bytes),
    ensures
        (bytes == other_bytes && 16384 <= bytes <= 67108864) || (bytes == fallback && other_bytes
            == other),
        bytes == fallback || 16384 <= bytes <= 67108864,
{
}

/// Two spellings of one number give one size.
pub proof fn law_spellings_of_a_number_give_one_size(
    a: Seq<char>,
    b: Seq<char>,
    least: nat,
    most: nat,
    fallback: nat,
)
    requires
        number(trimmed(a)) == number(trimmed(b)),
    ensures
        bounded(a, least, most, fallback) == bounded(b, least, most, fallback),
        overridden(Some(a), least, most, fallback) == overridden(Some(b), least, most, fallback),
{
}

/// Whatever its tier and however the number is spelled, a host takes each size that
/// its environment gives it within the bounds.
pub proof fn law_host_takes_sizes_however_they_are_spelled(host: Host, value: Seq<char>, n: nat)
    requires
        number(trimmed(value)) == Some(n),
    ensures
        ({
            let t = host_tuning(host);
            let given = Some(value);
            let buffer_fits = 16384 <= n <= 67108864;
            let window_fits = 65536 <= n <= 1073741824;
            &&& host.env.value("AETHER_NETSTACK_TCP_RX"@) == given && buffer_fits
                ==> t.netstack_tcp_rx_buf == n
            &&& host.env.value("AETHER_NETSTACK_TCP_TX"@) == given && buffer_fits
                ==> t.netstack_tcp_tx_buf == n
            &&& host.env.value("AETHER_TCP_RECV_BUF"@) == given && buffer_fits
                ==> t.tcp_egress_recv_buf == n
            &&& host.env.value("AETHER_TCP_SEND_BUF"@) == given && buffer_fits
                ==> t.tcp_egress_send_buf == n
            &&& host.env.value("AETHER_QUIC_CONN_WINDOW"@) == given && window_fits
                ==> t.quic_connection_window == n
            &&& host.env.value("AETHER_QUIC_STREAM_WINDOW"@) == given && window_fits
                ==> t.quic_stream_window == n
        }),
{
}

} // verus!
