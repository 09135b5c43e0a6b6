use rover::config::{
    BinOptions, Config, DebugProbeSelector, Flashing, Format, Gdb, General, Logging, Probe, Reset,
    WireProtocol,
};
use rover::selection::{only_probe, parse_hex_u16, probe_request, ProbeError, ProbeRequest};

fn general() -> General {
    General {
        chip: None,
        chip_descriptions: vec![],
        log_level: log::Level::Warn,
        derives: None,
        connect_under_reset: false,
        file: None,
        format: Format::Elf,
        format_base_address: None,
        format_skip: None,
        work_dir: None,
    }
}

fn probe() -> Probe {
    Probe { selector: None, usb_vid: None, usb_pid: None, serial: None, protocol: None, speed: None }
}

fn config(probe: Probe, dry_run: bool) -> Config {
    Config {
        general: general(),
        flashing: Flashing {
            enabled: Some(true),
            restore_unwritten_bytes: None,
            flash_layout_output_path: None,
            do_chip_erase: None,
        },
        reset: Reset { enabled: Some(false), halt_afterwards: None },
        probe,
        gdb: Gdb { enabled: None, socket: None },
        logging: Logging { enabled: None, channels: vec![] },
        version: false,
        list_chips: false,
        list_probes: false,
        disable_progressbars: false,
        dry_run,
        bin: None,
        example: None,
        package: None,
        release: false,
        target: None,
        manifest_path: None,
        no_default_features: false,
        all_features: false,
        features: vec![],
    }
}

#[test]
fn dry_run_uses_a_simulated_probe() {
    let mut p = probe();
    p.usb_vid = Some("zz".to_string());
    assert!(matches!(probe_request(&config(p, true)), Ok(ProbeRequest::Fake)));
}

#[test]
fn selector_wins() {
    let mut p = probe();
    p.selector = Some(DebugProbeSelector { vendor_id: 0x1366, product_id: 0x0101, serial_number: Some("42".to_string()) });
    p.usb_vid = Some("ffff".to_string());
    p.usb_pid = Some("ffff".to_string());
    match probe_request(&config(p, false)) {
        Ok(ProbeRequest::Selected(s)) => {
            assert_eq!(s.vendor_id, 0x1366);
            assert_eq!(s.product_id, 0x0101);
            assert_eq!(s.serial_number, Some("42".to_string()));
        }
        _ => panic!("expected the configured selector"),
    }
}

#[test]
fn usb_ids_are_hexadecimal() {
    let mut p = probe();
    p.usb_vid = Some("0d28".to_string());
    p.usb_pid = Some("+204F".to_string());
    p.serial = Some("abc".to_string());
    match probe_request(&config(p, false)) {
        Ok(ProbeRequest::Selected(s)) => {
            assert_eq!(s.vendor_id, 0x0d28);
            assert_eq!(s.product_id, 0x204f);
            assert_eq!(s.serial_number, Some("abc".to_string()));
        }
        _ => panic!("expected a selector from the USB ids"),
    }
}

#[test]
fn bad_usb_ids_are_refused() {
    for (vid, pid) in [("xyz", "0001"), ("0001", ""), ("10000", "1"), ("-1", "1"), ("+", "1")] {
        let mut p = probe();
        p.usb_vid = Some(vid.to_string());
        p.usb_pid = Some(pid.to_string());
        assert!(
            matches!(probe_request(&config(p, false)), Err(ProbeError::FailedToParseCredentials)),
            "{} {}",
            vid,
            pid
        );
    }
}

#[test]
fn one_usb_id_alone_is_ignored() {
    let mut p = probe();
    p.usb_vid = Some("1366".to_string());
    assert!(matches!(probe_request(&config(p, false)), Ok(ProbeRequest::OnlyConnected)));
    assert!(matches!(probe_request(&config(probe(), false)), Ok(ProbeRequest::OnlyConnected)));
}

#[test]
fn exactly_one_connected_probe() {
    assert_eq!(only_probe(0), Err(ProbeError::NoProbesFound));
    assert_eq!(only_probe(1), Ok(()));
    assert_eq!(only_probe(3), Err(ProbeError::MultipleProbesFound(3)));
}

#[test]
fn protocol_defaults_to_swd() {
    assert_eq!(probe().protocol(), WireProtocol::Swd);
    let mut p = probe();
    p.protocol = Some(WireProtocol::Jtag);
    p.speed = Some(4000);
    assert_eq!(p.protocol(), WireProtocol::Jtag);
    assert_eq!(p.speed(), Some(4000));
}

#[test]
fn image_format_of_a_given_binary() {
    let mut g = general();
    assert_eq!(g.image_format(), Format::Elf);
    g.file = Some("fw.bin".to_string());
    g.format = Format::Bin(BinOptions { base_address: None, skip: 0 });
    g.format_base_address = Some(0x0800_0000);
    assert_eq!(g.image_format(), Format::Bin(BinOptions { base_address: Some(0x0800_0000), skip: 0 }));
    g.format_skip = Some(16);
    assert_eq!(g.image_format(), Format::Bin(BinOptions { base_address: Some(0x0800_0000), skip: 16 }));
    g.format = Format::Hex;
    assert_eq!(g.image_format(), Format::Hex);
}

#[test]
fn build_artifacts_are_elf() {
    let mut g = general();
    g.format = Format::Hex;
    assert_eq!(g.image_format(), Format::Elf);
}

#[test]
fn config_getters() {
    let c = config(probe(), false);
    assert!(c.flashing().enabled());
    assert!(!c.reset().enabled());
    assert!(!c.gdb().enabled());
    assert!(!c.logging().enabled());
    assert!(!c.version() && !c.list_chips() && !c.list_probes() && !c.disable_progressbars() && !c.dry_run());
    assert_eq!(c.general().log_level(), log::Level::Warn);
    assert_eq!(c.general().format(), Format::Elf);
    assert!(c.general().chip().is_none());
    assert!(c.general().chip_descriptions().is_empty());
    assert!(!c.general().connect_under_reset());
    assert!(c.general().file().is_none() && c.general().work_dir().is_none());
    assert!(c.general().format_base_address().is_none() && c.general().format_skip().is_none());
    assert!(c.probe().usb_vid().is_none() && c.probe().usb_pid().is_none() && c.probe().serial().is_none());
    assert!(c.probe().selector().is_none());
}

#[test]
fn hexadecimal_u16() {
    assert_eq!(parse_hex_u16("0"), Some(0));
    assert_eq!(parse_hex_u16("ffff"), Some(0xffff));
    assert_eq!(parse_hex_u16("FfFf"), Some(0xffff));
    assert_eq!(parse_hex_u16("+1a"), Some(0x1a));
    assert_eq!(parse_hex_u16("0000000000001"), Some(1));
    assert_eq!(parse_hex_u16("10000"), None);
    assert_eq!(parse_hex_u16("fffff0"), None);
    assert_eq!(parse_hex_u16(""), None);
    assert_eq!(parse_hex_u16("+"), None);
    assert_eq!(parse_hex_u16("++1"), None);
    assert_eq!(parse_hex_u16("-5"), None);
    assert_eq!(parse_hex_u16("12g"), None);
    assert_eq!(parse_hex_u16("１"), None);
    for s in ["0", "ffff", "+1a", "10000", "", "+", "-5", "12g", "00fff", "abcd"] {
        assert_eq!(parse_hex_u16(s), u16::from_str_radix(s, 16).ok(), "{}", s);
    }
}
