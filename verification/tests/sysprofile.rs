use aether::environment::Environment;
use aether::sysprofile::{
    buffer_override, buffer_value, build_tuning, cap_concurrency, channel_capacity, detect_tier,
    detected_cpus, env_flag, flag_value, h2_connection_window_bytes, h2_stream_window_bytes,
    log_summary, netstack_tcp_rx_buf_bytes, netstack_tcp_tx_buf_bytes, netstack_udp_buf_bytes,
    quic_connection_window_bytes, quic_stream_window_bytes, tcp_egress_recv_buf_bytes,
    tcp_egress_send_buf_bytes, tcp_tuning_enabled, tier_by_hardware, tier_by_name, total_mem_mb,
    tuning, udp_socket_buf_bytes, window_override, window_value, Host, Memory, Tier,
};

fn environment(pairs: &[(&str, &str)]) -> Environment {
    let mut env = Environment::new();
    for (key, value) in pairs {
        env.set(key.to_string(), value.to_string());
    }
    env
}

fn host(cpus: usize, mem_mb: u64, pairs: &[(&str, &str)]) -> Host {
    Host {
        parallelism: Some(cpus),
        memory: Memory::Bytes(Some(mem_mb * 1024 * 1024)),
        env: environment(pairs),
    }
}

#[test]
fn flag_value_accepts_the_full_grammar_case_insensitively() {
    assert!(flag_value("on", true));
    assert!(flag_value("1", false));
    assert!(flag_value("YES", false));
    assert!(flag_value(" True ", false));
    assert!(!flag_value("off", true));
    assert!(!flag_value("0", true));
    assert!(!flag_value("no", true));
    assert!(!flag_value("FALSE", true));
}

#[test]
fn flag_value_falls_back_on_garbage() {
    assert!(flag_value("maybe", true));
    assert!(!flag_value("maybe", false));
    assert!(flag_value("", true));
}

#[test]
fn buffer_value_clamps_outside_the_socket_range() {
    let fallback = 128 * 1024usize;
    assert_eq!(buffer_value("65536", fallback), 65536);
    assert_eq!(buffer_value("4194304", fallback), 4 * 1024 * 1024);
    // Too small to be useful on any socket.
    assert_eq!(buffer_value("4096", fallback), fallback);
    // Beyond the 64 MiB sanity ceiling.
    assert_eq!(buffer_value("1073741824", fallback), fallback);
    // Not a number at all.
    assert_eq!(buffer_value("not a number", fallback), fallback);
    assert_eq!(buffer_value("", fallback), fallback);
}

#[test]
fn window_value_clamps_outside_the_flow_control_range() {
    let fallback = 8 * 1024 * 1024u64;
    assert_eq!(window_value("16777216", fallback), 16 * 1024 * 1024);
    // Below the 64 KiB floor.
    assert_eq!(window_value("8192", fallback), fallback);
    // Above the 1 GiB ceiling.
    assert_eq!(window_value("4294967296", fallback), fallback);
    assert_eq!(window_value("junk", fallback), fallback);
}

#[test]
fn bounds_are_inclusive() {
    assert_eq!(buffer_value("16384", 1), 16384);
    assert_eq!(buffer_value("16383", 1), 1);
    assert_eq!(buffer_value("67108864", 1), 67108864);
    assert_eq!(buffer_value("67108865", 1), 1);
    assert_eq!(window_value("65536", 1), 65536);
    assert_eq!(window_value("65535", 1), 1);
    assert_eq!(window_value("1073741824", 1), 1073741824);
    assert_eq!(window_value("1073741825", 1), 1);
}

#[test]
fn sizes_take_a_plus_sign_and_white_space_but_nothing_else() {
    assert_eq!(buffer_value(" \t+0065536\n", 1), 65536);
    assert_eq!(buffer_value("-65536", 1), 1);
    assert_eq!(buffer_value("65_536", 1), 1);
    assert_eq!(buffer_value("65536 bytes", 1), 1);
    assert_eq!(buffer_value("+", 1), 1);
    assert_eq!(window_value("18446744073709551616", 7), 7);
    assert_eq!(window_value("18446744073709617152", 7), 7);
}

#[test]
fn overrides_fall_back_when_unset() {
    let env = environment(&[("A", "65536"), ("B", "tiny")]);
    assert_eq!(buffer_override(&env, "A", 5), 65536);
    assert_eq!(buffer_override(&env, "B", 5), 5);
    assert_eq!(buffer_override(&env, "C", 5), 5);
    assert_eq!(window_override(&env, "A", 5), 65536);
    assert_eq!(window_override(&env, "B", 5), 5);
    assert_eq!(window_override(&env, "C", 5), 5);
}

#[test]
fn a_knob_that_is_unset_has_its_default() {
    let env = environment(&[("ON", "yes"), ("OFF", "No"), ("ODD", "2")]);
    assert!(env_flag(&env, "ON", false));
    assert!(!env_flag(&env, "OFF", true));
    assert!(env_flag(&env, "ODD", true));
    assert!(!env_flag(&env, "ODD", false));
    assert!(env_flag(&env, "NONE", true));
    assert!(!env_flag(&env, "NONE", false));
}

#[test]
fn the_last_value_of_a_variable_counts() {
    let env = environment(&[("A", "1"), ("B", "x"), ("A", "2")]);
    assert_eq!(env.get("A"), Some("2"));
    assert_eq!(env.get("B"), Some("x"));
    assert_eq!(env.get("a"), None);
    assert_eq!(Environment::new().get("A"), None);
}

#[test]
fn hardware_suggests_the_tier() {
    assert_eq!(tier_by_hardware(2, None), Tier::Low);
    assert_eq!(tier_by_hardware(3, None), Tier::Medium);
    assert_eq!(tier_by_hardware(4, Some(8192)), Tier::Medium);
    assert_eq!(tier_by_hardware(5, None), Tier::High);
    assert_eq!(tier_by_hardware(64, Some(384)), Tier::Low);
    assert_eq!(tier_by_hardware(64, Some(385)), Tier::Medium);
    assert_eq!(tier_by_hardware(64, Some(1536)), Tier::Medium);
    assert_eq!(tier_by_hardware(64, Some(1537)), Tier::High);
}

#[test]
fn more_hardware_never_lowers_the_tier() {
    let rank = |tier: Tier| match tier {
        Tier::Low => 0,
        Tier::Medium => 1,
        Tier::High => 2,
    };
    let mems = [Some(0), Some(384), Some(385), Some(1536), Some(1537), None];
    for cpus in 1..8usize {
        for i in 0..mems.len() {
            for j in i..mems.len() {
                assert!(
                    rank(tier_by_hardware(cpus, mems[i]))
                        <= rank(tier_by_hardware(cpus + 1, mems[j]))
                );
            }
        }
    }
}

#[test]
fn a_named_profile_beats_the_hardware() {
    assert_eq!(tier_by_name("low"), Some(Tier::Low));
    assert_eq!(tier_by_name("medium"), Some(Tier::Medium));
    assert_eq!(tier_by_name("mid"), Some(Tier::Medium));
    assert_eq!(tier_by_name("high"), Some(Tier::High));
    assert_eq!(tier_by_name("High"), None);
    let named = |name: &str| detect_tier(&environment(&[("AETHER_PERF_PROFILE", name)]), 3, None);
    assert_eq!(named(" HIGH\n"), Tier::High);
    assert_eq!(named("Low"), Tier::Low);
    assert_eq!(named("MiD"), Tier::Medium);
    assert_eq!(named("turbo"), Tier::Medium);
    assert_eq!(detect_tier(&Environment::new(), 3, None), Tier::Medium);
    let on_one = environment(&[("AETHER_PERF_PROFILE", "mEdIuM")]);
    assert_eq!(detect_tier(&on_one, 1, Some(100)), Tier::Medium);
}

#[test]
fn a_profile_outside_ascii_names_no_tier() {
    let named = |name: &str| detect_tier(&environment(&[("AETHER_PERF_PROFILE", name)]), 8, None);
    assert_eq!(named("M\u{130}D"), Tier::High);
    assert_eq!(named("\u{a0}Low\u{3000}"), Tier::Low);
}

#[test]
fn a_host_that_cannot_count_has_one_processor() {
    assert_eq!(detected_cpus(None), 1);
    assert_eq!(detected_cpus(Some(12)), 12);
}

#[test]
fn memory_is_read_in_each_form() {
    let meminfo = |text: &str| total_mem_mb(&Memory::Meminfo(Some(text.to_string())));
    assert_eq!(
        meminfo("MemTotal:       16303428 kB\nMemFree:          871136 kB\n"),
        Some(15921)
    );
    assert_eq!(meminfo("Foo: 1 kB\r\nMemTotal: 2048 kB\r\n"), Some(2));
    assert_eq!(meminfo("MemTotal:4096"), Some(4));
    assert_eq!(meminfo("MemTotal: 4096 kBkB"), Some(4));
    assert_eq!(meminfo("MemTotal: 1023 kB"), Some(0));
    assert_eq!(meminfo("MemTotal: many kB\nMemTotal: 4096 kB\n"), None);
    assert_eq!(meminfo("MemTotal: 4096 MB\n"), None);
    assert_eq!(meminfo(" MemTotal: 4096 kB\n"), None);
    assert_eq!(meminfo("MemFree: 4096 kB\n"), None);
    assert_eq!(meminfo(""), None);
    assert_eq!(total_mem_mb(&Memory::Meminfo(None)), None);
    assert_eq!(total_mem_mb(&Memory::Bytes(Some(3 * 1024 * 1024 + 5))), Some(3));
    assert_eq!(total_mem_mb(&Memory::Bytes(None)), None);
    assert_eq!(total_mem_mb(&Memory::Unknown), None);
}

#[test]
fn the_lowest_tier_has_its_settings() {
    let t = build_tuning(&host(2, 4096, &[]));
    assert_eq!(t.tier, Tier::Low);
    assert_eq!(t.cpus, 2);
    assert_eq!(t.mem_mb, Some(4096));
    assert_eq!(t.scan_concurrency_cap, 4);
    assert_eq!(udp_socket_buf_bytes(&t), 262144);
    assert_eq!(netstack_tcp_rx_buf_bytes(&t), 262144);
    assert_eq!(netstack_tcp_tx_buf_bytes(&t), 131072);
    assert_eq!(netstack_udp_buf_bytes(&t), 32768);
    assert_eq!(channel_capacity(&t), 128);
    assert_eq!(h2_stream_window_bytes(&t), 2097152);
    assert_eq!(h2_connection_window_bytes(&t), 4194304);
    assert_eq!(quic_connection_window_bytes(&t), 10_000_000);
    assert_eq!(quic_stream_window_bytes(&t), 2_000_000);
    assert_eq!(tcp_egress_recv_buf_bytes(&t), 262144);
    assert_eq!(tcp_egress_send_buf_bytes(&t), 131072);
    assert!(tcp_tuning_enabled(&t));
}

#[test]
fn the_middle_tier_has_its_settings() {
    let t = build_tuning(&host(4, 4096, &[]));
    assert_eq!(t.tier, Tier::Medium);
    assert_eq!(t.scan_concurrency_cap, 10);
    assert_eq!(udp_socket_buf_bytes(&t), 2097152);
    assert_eq!(netstack_tcp_rx_buf_bytes(&t), 1048576);
    assert_eq!(netstack_tcp_tx_buf_bytes(&t), 262144);
    assert_eq!(netstack_udp_buf_bytes(&t), 65536);
    assert_eq!(channel_capacity(&t), 512);
    assert_eq!(h2_stream_window_bytes(&t), 8388608);
    assert_eq!(h2_connection_window_bytes(&t), 16777216);
    assert_eq!(quic_connection_window_bytes(&t), 24_000_000);
    assert_eq!(quic_stream_window_bytes(&t), 8_000_000);
    assert_eq!(tcp_egress_recv_buf_bytes(&t), 524288);
    assert_eq!(tcp_egress_send_buf_bytes(&t), 262144);
}

#[test]
fn the_highest_tier_has_its_settings() {
    let t = build_tuning(&host(8, 4096, &[]));
    assert_eq!(t.tier, Tier::High);
    assert_eq!(t.scan_concurrency_cap, usize::MAX);
    assert_eq!(udp_socket_buf_bytes(&t), 7340032);
    assert_eq!(netstack_tcp_rx_buf_bytes(&t), 2097152);
    assert_eq!(netstack_tcp_tx_buf_bytes(&t), 524288);
    assert_eq!(netstack_udp_buf_bytes(&t), 131072);
    assert_eq!(channel_capacity(&t), 1024);
    assert_eq!(h2_stream_window_bytes(&t), 16777216);
    assert_eq!(h2_connection_window_bytes(&t), 33554432);
    assert_eq!(quic_connection_window_bytes(&t), 48_000_000);
    assert_eq!(quic_stream_window_bytes(&t), 16_000_000);
    assert_eq!(tcp_egress_recv_buf_bytes(&t), 1048576);
    assert_eq!(tcp_egress_send_buf_bytes(&t), 524288);
}

#[test]
fn the_environment_overrides_each_setting() {
    let t = build_tuning(&host(
        8,
        4096,
        &[
            ("AETHER_PERF_PROFILE", "low"),
            ("AETHER_NETSTACK_TCP_RX", "100001"),
            ("AETHER_NETSTACK_TCP_TX", "100002"),
            ("AETHER_QUIC_CONN_WINDOW", "100003"),
            ("AETHER_QUIC_STREAM_WINDOW", "100004"),
            ("AETHER_TCP_RECV_BUF", "100005"),
            ("AETHER_TCP_SEND_BUF", "100006"),
            ("AETHER_TCP_TUNING", "off"),
        ],
    ));
    assert_eq!(t.tier, Tier::Low);
    assert_eq!(t.netstack_tcp_rx_buf, 100001);
    assert_eq!(t.netstack_tcp_tx_buf, 100002);
    assert_eq!(t.quic_connection_window, 100003);
    assert_eq!(t.quic_stream_window, 100004);
    assert_eq!(t.tcp_egress_recv_buf, 100005);
    assert_eq!(t.tcp_egress_send_buf, 100006);
    assert!(!t.tcp_tuning);
}

#[test]
fn the_host_is_read_once() {
    let mut slot = None;
    let first = tuning(&mut slot, || host(8, 4096, &[]));
    assert_eq!(first.tier, Tier::High);
    let second = tuning(&mut slot, || panic!("the settings are there"));
    assert_eq!(second.tier, Tier::High);
    assert_eq!(slot.map(|t| t.cpus), Some(8));
}

#[test]
fn concurrency_is_capped_below_the_highest_tier() {
    let low = build_tuning(&host(1, 4096, &[]));
    assert_eq!(cap_concurrency(&low, 3), 3);
    assert_eq!(cap_concurrency(&low, 4), 4);
    assert_eq!(cap_concurrency(&low, 100), 4);
    let high = build_tuning(&host(8, 4096, &[]));
    assert_eq!(cap_concurrency(&high, 100_000), 100_000);
}

#[test]
fn the_summary_names_every_setting() {
    let low = log_summary(&build_tuning(&host(2, 512, &[])));
    assert_eq!(
        low.profile,
        "[*] performance profile: Low (cpus=2 mem=512MB); scan concurrency cap=4, udp socket buffer=256KB, netstack tcp buffers=256KB rx/128KB tx, netstack udp buffer=32KB, channel capacity=128, h2 windows=2048KB/4096KB"
    );
    assert_eq!(low.egress, "[*] egress TCP tuning: on (buffers=256KB rx/128KB tx)");
    let unknown = log_summary(&build_tuning(&Host {
        parallelism: Some(16),
        memory: Memory::Unknown,
        env: environment(&[("AETHER_TCP_TUNING", "0"), ("AETHER_TCP_SEND_BUF", "20479")]),
    }));
    assert_eq!(
        unknown.profile,
        "[*] performance profile: High (cpus=16 mem=unknown); scan concurrency cap=unlimited, udp socket buffer=7168KB, netstack tcp buffers=2048KB rx/512KB tx, netstack udp buffer=128KB, channel capacity=1024, h2 windows=16384KB/32768KB"
    );
    assert_eq!(unknown.egress, "[*] egress TCP tuning: off (buffers=1024KB rx/19KB tx)");
    let mid = log_summary(&build_tuning(&host(3, 2048, &[])));
    assert!(mid.profile.contains("Medium (cpus=3 mem=2048MB); scan concurrency cap=10,"));
}

#[test]
fn settings_grow_with_the_tier_and_favour_receiving() {
    let tiers = [2usize, 4, 8].map(|cpus| build_tuning(&host(cpus, 4096, &[])));
    for t in &tiers {
        assert!(t.netstack_tcp_tx_buf < t.netstack_tcp_rx_buf);
        assert!(t.tcp_egress_send_buf < t.tcp_egress_recv_buf);
        assert!(t.h2_stream_window < t.h2_connection_window);
        assert!(t.quic_stream_window < t.quic_connection_window);
    }
    for pair in tiers.windows(2) {
        assert!(pair[0].udp_socket_buf < pair[1].udp_socket_buf);
        assert!(pair[0].netstack_tcp_rx_buf < pair[1].netstack_tcp_rx_buf);
        assert!(pair[0].quic_connection_window < pair[1].quic_connection_window);
    }
}

#[test]
fn sizes_out_of_bounds_leave_the_tier_as_it_is() {
    let t = build_tuning(&host(
        2,
        4096,
        &[
            ("AETHER_NETSTACK_TCP_RX", "1"),
            ("AETHER_NETSTACK_TCP_TX", "99999999999999999999999"),
            ("AETHER_QUIC_CONN_WINDOW", "0"),
            ("AETHER_QUIC_STREAM_WINDOW", "1073741825"),
            ("AETHER_TCP_RECV_BUF", "-1"),
            ("AETHER_TCP_SEND_BUF", "67108865"),
            ("AETHER_TCP_TUNING", "perhaps"),
        ],
    ));
    assert_eq!(t.netstack_tcp_rx_buf, 262144);
    assert_eq!(t.netstack_tcp_tx_buf, 131072);
    assert_eq!(t.quic_connection_window, 10_000_000);
    assert_eq!(t.quic_stream_window, 2_000_000);
    assert_eq!(t.tcp_egress_recv_buf, 262144);
    assert_eq!(t.tcp_egress_send_buf, 131072);
    assert!(t.tcp_tuning);
}
