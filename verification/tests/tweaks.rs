use nettune_core::get_all_tweaks;
use nettune_core::tweaks::linux::{
    sysctl_file_value, InterruptCoalescingTweak, NetdevMaxBacklogTweak, TcpCongestionControlTweak,
    TcpLowLatencyTweak,
};
use nettune_core::tweaks::macos::{
    sysctl_assignment, sysctl_read_args, sysctl_write_args, DelayedAckTweak, TcpWindowSizeTweak,
};
use nettune_core::tweaks::windows::{
    InterfaceValues, InterruptModerationTweak, NagleAlgorithmTweak, NetworkThrottlingTweak,
};
use nettune_core::tweaks::{command_value, NetworkTweak, OsPlatform, SettingWrite, Tweak};

fn pairs(ws: Vec<SettingWrite>) -> Vec<(String, String)> {
    ws.into_iter().map(|w| (w.key, w.value)).collect()
}

fn p(k: &str, v: &str) -> (String, String) {
    (k.to_string(), v.to_string())
}

#[test]
fn tweaks_per_platform() {
    let ids = |p: Option<OsPlatform>| -> Vec<&'static str> {
        get_all_tweaks(p).iter().map(|t| t.id()).collect()
    };
    assert_eq!(
        ids(Some(OsPlatform::Windows)),
        vec!["win_network_throttling", "win_nagle_algorithm", "win_interrupt_moderation"]
    );
    assert_eq!(
        ids(Some(OsPlatform::Linux)),
        vec![
            "linux_tcp_bbr",
            "linux_netdev_max_backlog",
            "linux_tcp_low_latency",
            "linux_interrupt_coalescing"
        ]
    );
    assert_eq!(ids(Some(OsPlatform::MacOS)), vec!["macos_delayed_ack", "macos_tcp_window_size"]);
    assert!(ids(None).is_empty());
    for p in [OsPlatform::Windows, OsPlatform::Linux, OsPlatform::MacOS] {
        for t in get_all_tweaks(Some(p)) {
            assert!(t.supported_os().contains(&p));
        }
    }
}

#[test]
fn tweak_ids_are_unique() {
    let mut all: Vec<&str> = Vec::new();
    for p in [OsPlatform::Windows, OsPlatform::Linux, OsPlatform::MacOS] {
        for t in get_all_tweaks(Some(p)) {
            all.push(t.id());
        }
    }
    let n = all.len();
    all.sort();
    all.dedup();
    assert_eq!(all.len(), n);
}

#[test]
fn only_nagle_requires_reboot() {
    for p in [OsPlatform::Windows, OsPlatform::Linux, OsPlatform::MacOS] {
        for t in get_all_tweaks(Some(p)) {
            assert_eq!(t.requires_reboot(), t == NetworkTweak::NagleAlgorithm);
        }
    }
    assert_eq!(NetworkTweak::TcpLowLatency.name(), "TCP Low Latency");
    assert_eq!(NetworkTweak::NagleAlgorithm.name(), NagleAlgorithmTweak.name());
    assert_eq!(NetworkTweak::DelayedAck.description(), DelayedAckTweak.description());
}

#[test]
fn linux_sysctl_writes() {
    assert_eq!(sysctl_file_value("cubic\n"), "cubic");
    let cc = TcpCongestionControlTweak;
    assert_eq!(cc.value_path(), "/proc/sys/net/ipv4/tcp_congestion_control");
    assert_eq!(
        pairs(cc.apply_writes(None)),
        vec![
            p("/proc/sys/net/core/default_qdisc", "fq"),
            p("/proc/sys/net/ipv4/tcp_congestion_control", "bbr")
        ]
    );
    assert_eq!(cc.qdisc_path(), "/proc/sys/net/core/default_qdisc");
    assert_eq!(
        pairs(cc.revert_writes("cubic")),
        vec![p("/proc/sys/net/ipv4/tcp_congestion_control", "cubic")]
    );
    let read = cc.read_value(Some("fq_codel".into()), Some("cubic".into()));
    assert_eq!(read, Some("fq_codel:cubic".to_string()));
    assert_eq!(
        pairs(cc.revert_writes(&read.unwrap())),
        vec![
            p("/proc/sys/net/core/default_qdisc", "fq_codel"),
            p("/proc/sys/net/ipv4/tcp_congestion_control", "cubic")
        ]
    );
    let no_qdisc = cc.read_value(None, Some("cubic".into())).unwrap();
    assert_eq!(no_qdisc, ":cubic");
    assert_eq!(
        pairs(cc.revert_writes(&no_qdisc)),
        vec![p("/proc/sys/net/ipv4/tcp_congestion_control", "cubic")]
    );
    assert_eq!(cc.read_value(Some("fq".into()), None), None);
    let nb = NetdevMaxBacklogTweak;
    assert_eq!(pairs(nb.apply_writes(None)), vec![p("/proc/sys/net/core/netdev_max_backlog", "5000")]);
    assert_eq!(
        pairs(nb.apply_writes(Some("8000"))),
        vec![p("/proc/sys/net/core/netdev_max_backlog", "8000")]
    );
    assert_eq!(
        pairs(nb.revert_writes("1000")),
        vec![p("/proc/sys/net/core/netdev_max_backlog", "1000")]
    );
    let ll = TcpLowLatencyTweak;
    assert_eq!(pairs(ll.apply_writes(Some("7"))), vec![p("/proc/sys/net/ipv4/tcp_low_latency", "1")]);
    assert_eq!(pairs(ll.revert_writes("0")), vec![p("/proc/sys/net/ipv4/tcp_low_latency", "0")]);
}

#[test]
fn linux_default_interface() {
    let t = InterruptCoalescingTweak;
    assert_eq!(t.route_program(), "ip");
    assert_eq!(t.route_args(), vec!["route", "show", "default"]);
    let out = "default via 192.168.1.1 dev eth0 proto dhcp metric 100\n";
    assert_eq!(t.default_interface(true, out), "eth0");
    assert_eq!(t.default_interface(false, out), "");
    assert_eq!(t.default_interface(true, "default via 10.0.0.1 dev"), "");
    assert_eq!(t.default_interface(true, "nothing here"), "");
    assert_eq!(t.default_interface(true, "  dev   wlan0  dev x"), "wlan0");
}

#[test]
fn linux_coalescing_value() {
    let t = InterruptCoalescingTweak;
    let out = "Coalesce parameters for eth0:\nAdaptive RX: off  TX: off\nrx-usecs: 3\nrx-frames: 0\n";
    assert_eq!(t.coalescing_value(true, out), Some("3".to_string()));
    assert_eq!(t.coalescing_value(false, out), None);
    assert_eq!(t.coalescing_value(true, "rx-frames: 0\n"), None);
    assert_eq!(
        t.coalescing_value(true, "  rx-usecs: 1:2\n\trx-usecs:  50 \r\n"),
        Some("50".to_string())
    );
    assert_eq!(t.query_args("eth0"), Some(vec!["-c".to_string(), "eth0".to_string()]));
    assert_eq!(t.query_args(""), None);
    assert_eq!(t.ethtool_program(), "ethtool");
    assert_eq!(
        t.apply_args("eth0"),
        Some(vec!["-C".to_string(), "eth0".into(), "rx-usecs".into(), "0".into()])
    );
    assert_eq!(t.apply_args(""), None);
    assert_eq!(
        t.revert_args("eth0", "3"),
        Some(vec!["-C".to_string(), "eth0".into(), "rx-usecs".into(), "3".into()])
    );
    assert_eq!(t.revert_args("", "3"), None);
}

#[test]
fn command_values() {
    assert_eq!(command_value(true, " 1\n"), Some("1".to_string()));
    assert_eq!(command_value(true, " \n"), None);
    assert_eq!(command_value(false, "1"), None);
}

#[test]
fn macos_sysctl() {
    assert_eq!(sysctl_read_args("net.inet.tcp.delayed_ack"), vec!["-n", "net.inet.tcp.delayed_ack"]);
    assert_eq!(sysctl_assignment("k", "v"), "k=v");
    assert_eq!(sysctl_write_args("k", "0"), vec!["-w", "k=0"]);
    let d = DelayedAckTweak;
    assert_eq!(d.key(), "net.inet.tcp.delayed_ack");
    assert_eq!(pairs(d.apply_writes(None)), vec![p("net.inet.tcp.delayed_ack", "0")]);
    assert_eq!(pairs(d.revert_writes("3")), vec![p("net.inet.tcp.delayed_ack", "3")]);
}

#[test]
fn macos_window_size() {
    let w = TcpWindowSizeTweak;
    assert_eq!(w.window_value(Some("131072".into()), None), Some("131072:0".to_string()));
    assert_eq!(w.window_value(None, Some("65536".into())), Some("0:65536".to_string()));
    assert_eq!(w.window_value(None, None), None);
    assert_eq!(
        pairs(w.apply_writes(None)),
        vec![p("net.inet.tcp.sendspace", "524288"), p("net.inet.tcp.recvspace", "524288")]
    );
    let v = w.window_value(Some("131072".into()), Some("65536".into())).unwrap();
    assert_eq!(
        pairs(w.revert_writes(&v)),
        vec![p("net.inet.tcp.sendspace", "131072"), p("net.inet.tcp.recvspace", "65536")]
    );
    assert!(w.revert_writes("131072").is_empty());
    assert!(w.revert_writes("1:2:3").is_empty());
}

#[test]
fn windows_throttling() {
    let t = NetworkThrottlingTweak;
    assert_eq!(t.value_name(), "NetworkThrottlingIndex");
    assert!(t.registry_key().ends_with("Multimedia\\SystemProfile"));
    assert_eq!(t.read_value(Some(10)), Some("10".to_string()));
    assert_eq!(t.read_value(None), None);
    assert_eq!(t.apply_value(), 0xFFFF_FFFF);
    assert_eq!(t.revert_value("10"), Some(10));
    assert_eq!(t.revert_value("x"), None);
    assert_eq!(t.revert_value(&t.read_value(Some(u32::MAX)).unwrap()), Some(u32::MAX));
}

#[test]
fn windows_nagle() {
    let t = NagleAlgorithmTweak;
    let iv = |name: &str, a: Option<u32>, n: Option<u32>| InterfaceValues {
        interface: name.to_string(),
        ack_frequency: a,
        no_delay: n,
    };
    let view = |v: Vec<InterfaceValues>| -> Vec<(String, Option<u32>, Option<u32>)> {
        v.into_iter().map(|e| (e.interface, e.ack_frequency, e.no_delay)).collect()
    };
    assert_eq!(t.read_value(&vec![]), None);
    let read = t.read_value(&vec![iv("{A}", Some(2), Some(0)), iv("{B}", None, None)]).unwrap();
    assert_eq!(read, "{A}=2:0;{B}=:");
    assert_eq!(
        view(t.revert_values(&read)),
        vec![("{A}".to_string(), Some(2), Some(0)), ("{B}".to_string(), None, None)]
    );
    assert_eq!(view(t.revert_values("{C}=x:7;junk;{D}=1")), vec![("{C}".to_string(), Some(0), Some(7))]);
    assert!(t.revert_values("").is_empty());
    assert_eq!(t.apply_values(), (1, 1));
    assert!(t.has_address(false, true));
    assert!(!t.has_address(false, false));
    assert_eq!(t.ack_frequency_name(), "TcpAckFrequency");
    assert_eq!(t.no_delay_name(), "TCPNoDelay");
    assert_eq!(t.dhcp_address_name(), "DhcpIPAddress");
    assert_eq!(t.static_address_name(), "IPAddress");
    assert!(t.interfaces_key().ends_with("Parameters\\Interfaces"));
}

#[test]
fn windows_interrupt_moderation() {
    let t = InterruptModerationTweak;
    assert_eq!(t.program(), "powershell");
    assert_eq!(
        t.apply_args()[2],
        "Set-NetAdapterAdvancedProperty -DisplayName 'Interrupt Moderation' -DisplayValue 'Disabled' -NoRestart"
    );
    assert_eq!(
        t.revert_args("Enabled")[2],
        "Set-NetAdapterAdvancedProperty -DisplayName 'Interrupt Moderation' -DisplayValue 'Enabled' -NoRestart"
    );
    assert_eq!(t.query_args()[0], "-NoProfile");
    assert_eq!(t.query_args()[1], "-Command");
}
