use iperf3_tui::config::MeasurementConfig;
use iperf3_tui::line::{classify_line, LineKind};
use iperf3_tui::render::{left_pad, overlay_label, replace_at_start, ViewportSize};
use iperf3_tui::scale::{scale, Unit};
use iperf3_tui::servers::parse_server_list;
use iperf3_tui::session::{
    checking_message, no_server_message, validation_outcome, Between, ControlState, Poll, Session,
};
use iperf3_tui::window::{window_capacity, SampleWindow};

/// Megabits per second, in the library's millionths.
fn mbits(x: u64) -> u64 {
    x * 1_000_000
}

fn as_f64(values: &[u128]) -> Vec<f64> {
    values.iter().map(|v| *v as f64 / 1_000_000.0).collect()
}

fn sample_of(line: &str) -> Option<(u64, String)> {
    match classify_line(line) {
        LineKind::Sample { rate, unit } => Some((rate, unit)),
        _ => None,
    }
}

#[test]
fn it_works() {
    let padded = left_pad("hello".to_string(), 9);
    assert_eq!(padded, "    hello");
}

#[test]
fn left_pad_keeps_longer_text() {
    assert_eq!(left_pad("Mbits".to_string(), 6), " Mbits");
    assert_eq!(left_pad("abcdefg".to_string(), 6), "abcdefg");
    assert_eq!(left_pad(String::new(), 3), "   ");
}

#[test]
fn scale_gigabits_example() {
    let (unit, values) = scale(&vec![mbits(2000), mbits(2000)]);
    assert_eq!(unit, Unit::Gbits);
    assert_eq!(unit.label(), "Gbits");
    assert_eq!(as_f64(&values), vec![2.0, 2.0]);
}

#[test]
fn scale_kilobits_example() {
    // 0.0005 megabits per second.
    let (unit, values) = scale(&vec![500]);
    assert_eq!(unit, Unit::Kbits);
    assert_eq!(unit.label(), "Kbits");
    assert_eq!(as_f64(&values), vec![0.5]);
}

#[test]
fn scale_other_tiers() {
    let (unit, values) = scale(&vec![mbits(420), mbits(380)]);
    assert_eq!(unit, Unit::Mbits);
    assert_eq!(values, vec![420_000_000, 380_000_000]);

    let (unit, values) = scale(&vec![mbits(3_000_000)]);
    assert_eq!(unit, Unit::Tbits);
    assert_eq!(as_f64(&values), vec![3.0]);

    let (unit, values) = scale(&vec![mbits(5_000_000_000)]);
    assert_eq!(unit, Unit::Pbits);
    assert_eq!(unit.label(), "Pbits");
    assert_eq!(as_f64(&values), vec![5.0]);

    let (unit, values) = scale(&vec![0, 1, 0]);
    assert_eq!(unit, Unit::Bits);
    assert_eq!(unit.label(), "bits");
    assert_eq!(values, vec![0, 1_000_000, 0]);
}

#[test]
fn scale_thresholds_are_strict_above_and_below() {
    // A mean of exactly 1000 megabits stays in megabits.
    let (unit, _) = scale(&vec![mbits(1000)]);
    assert_eq!(unit, Unit::Mbits);
    // A mean of exactly 0.001 megabits stays in megabits.
    let (unit, _) = scale(&vec![1000]);
    assert_eq!(unit, Unit::Mbits);
    // A mean of exactly 0.000001 megabits is kilobits.
    let (unit, _) = scale(&vec![1]);
    assert_eq!(unit, Unit::Kbits);
}

#[test]
fn scale_empty_window() {
    let (unit, values) = scale(&vec![]);
    assert_eq!(unit, Unit::Mbits);
    assert!(values.is_empty());
}

#[test]
fn scale_applies_to_whole_window() {
    // The mean crosses 1000: every sample is shown in gigabits, old ones too.
    let (unit, values) = scale(&vec![mbits(10), mbits(2990)]);
    assert_eq!(unit, Unit::Gbits);
    assert_eq!(as_f64(&values), vec![0.01, 2.99]);
}

#[test]
fn replace_at_start_counts_characters() {
    assert_eq!(replace_at_start("ééééxyz", "ab"), "abééxyz");
    assert_eq!(replace_at_start("abcdef", "µµ"), "µµcdef");
    assert_eq!(replace_at_start("ab", "wxyz"), "wxyz");
    assert_eq!(replace_at_start("日本語テキスト", "  X"), "  Xテキスト");
}

#[test]
fn overlay_label_pads_to_six() {
    let plot = "  1.00 ┤╭──\n  0.00 ┼╯";
    assert_eq!(overlay_label(plot, Unit::Mbits), " Mbits ┤╭──\n  0.00 ┼╯");
    assert_eq!(overlay_label(plot, Unit::Bits), "  bits ┤╭──\n  0.00 ┼╯");
}

#[test]
fn window_keeps_most_recent() {
    let mut w = SampleWindow::new();
    for x in 1..=10u64 {
        w.push(x, 4);
    }
    assert_eq!(w.samples(), &vec![7, 8, 9, 10]);
    assert_eq!(w.len(), 4);
}

#[test]
fn window_below_capacity_keeps_all() {
    let mut w = SampleWindow::new();
    for x in 1..=3u64 {
        w.push(x, 5);
    }
    assert_eq!(w.samples(), &vec![1, 2, 3]);
}

#[test]
fn window_shrinks_on_next_push() {
    let mut w = SampleWindow::new();
    for x in 1..=6u64 {
        w.push_for_width(x, 80);
    }
    assert_eq!(w.len(), 6);
    w.push_for_width(7, 12);
    assert_eq!(w.samples(), &vec![6, 7]);
    w.push_for_width(8, 5);
    assert!(w.samples().is_empty());
}

#[test]
fn window_capacity_from_width() {
    assert_eq!(window_capacity(80), 70);
    assert_eq!(window_capacity(10), 0);
    assert_eq!(window_capacity(3), 0);
}

#[test]
fn classify_sample_line() {
    assert_eq!(
        sample_of("[ 5] 0.00-1.00 sec 50.0 MBytes 420 Mbits/sec"),
        Some((mbits(420), "Mbits".to_string()))
    );
    assert_eq!(
        sample_of("[  5]   1.00-2.00   sec  11.2 MBytes  94.1 Mbits/sec    0    356 KBytes"),
        Some((94_100_000, "Mbits".to_string()))
    );
}

#[test]
fn classify_summary_header_and_noise() {
    assert!(matches!(
        classify_line("- - - - - - - - - - - - - - - - - - - - - - - - -"),
        LineKind::Summary
    ));
    assert!(matches!(
        classify_line("[ ID] Interval           Transfer     Bitrate"),
        LineKind::Header
    ));
    assert!(matches!(
        classify_line("Connecting to host example.net, port 5201"),
        LineKind::Unmatched
    ));
    assert!(matches!(classify_line(""), LineKind::Unmatched));
    assert!(matches!(classify_line("iperf Done."), LineKind::Unmatched));
}

#[test]
fn classify_line_without_tag() {
    assert_eq!(sample_of("12.5 Kbits/sec"), Some((12_500_000, "Kbits".to_string())));
}

#[test]
fn classify_numbers() {
    assert_eq!(sample_of("[ 5] 5. Mbits/sec"), Some((mbits(5), "Mbits".to_string())));
    assert_eq!(sample_of("[ 5] .5 Gbits/sec"), Some((500_000, "Gbits".to_string())));
    assert_eq!(sample_of("[ 5] 0.1234567 Mbits/sec"), Some((123_456, "Mbits".to_string())));
    assert_eq!(sample_of("[ 5] 1.2.3 Mbits/sec"), None);
    assert_eq!(sample_of("[ 5] . Mbits/sec"), None);
    assert_eq!(sample_of("[ 5] 99999999999999999999 Mbits/sec"), None);
    assert_eq!(sample_of("[ 5] 420 Mbits/s"), None);
}

#[test]
fn session_streams_samples() {
    let mut s = Session::start(4242);
    assert_eq!(s.pid(), Some(4242));
    let vp = ViewportSize::from_reported(None);
    let mut frames = Vec::new();
    for b in b"[ 5] 0.00-1.00 sec 50.0 MBytes 420 Mbits/sec\n[ ID] Interval\n[ 5] 1.00-2.00 sec 250 MBytes 2000 Mbits/sec\n" {
        assert_eq!(s.poll(ControlState::Normal), Poll::Read);
        if let Some(f) = s.on_byte(*b, vp) {
            frames.push(f);
        }
    }
    assert_eq!(frames.len(), 2);
    assert_eq!(frames[0].unit, Unit::Mbits);
    assert_eq!(frames[0].values, vec![420_000_000]);
    assert_eq!(frames[1].unit, Unit::Gbits);
    assert_eq!(as_f64(&frames[1].values), vec![0.42, 2.0]);
    assert_eq!(s.samples(), &vec![mbits(420), mbits(2000)]);
}

#[test]
fn session_decodes_invalid_bytes() {
    let mut s = Session::start(7);
    let vp = ViewportSize::from_reported(Some((100, 40)));
    let mut last = None;
    for b in b"[ 5] \xff\xfe 0.00-1.00 sec 12.5 Kbits/sec\n" {
        last = s.on_byte(*b, vp);
    }
    let f = last.expect("a frame");
    assert_eq!(f.unit, Unit::Mbits);
    assert_eq!(s.samples(), &vec![12_500_000]);
}

#[test]
fn reload_stops_reading_and_clears_pid() {
    let mut s = Session::start(99);
    let vp = ViewportSize::from_reported(None);
    for b in b"[ 5] 0.00-1.00 sec 1 MBytes 8" {
        s.on_byte(*b, vp);
    }
    assert_eq!(s.poll(ControlState::ReloadRequested), Poll::Stop(Some(99)));
    assert_eq!(s.pid(), None);
    assert_eq!(s.poll(ControlState::Normal), Poll::Stop(None));
    assert!(s.samples().is_empty());
}

#[test]
fn stream_end_hands_over_pid() {
    let mut s = Session::start(5);
    assert_eq!(s.finish(), Poll::Stop(Some(5)));
    assert_eq!(s.pid(), None);
    let big = Session::start(u32::MAX);
    assert_eq!(big.pid(), None);
}

#[test]
fn control_state_transitions() {
    assert_eq!(ControlState::ReloadRequested.begin_session(), ControlState::Normal);
    assert_eq!(ControlState::Quit.begin_session(), ControlState::Quit);
    assert_eq!(ControlState::Normal.request_reload(), ControlState::ReloadRequested);
    assert_eq!(ControlState::Quit.request_reload(), ControlState::Quit);
    assert_eq!(ControlState::Normal.between_sessions(), Between::Wait);
    assert_eq!(ControlState::ReloadRequested.between_sessions(), Between::Start);
    assert_eq!(ControlState::Quit.between_sessions(), Between::Exit);
}

#[test]
fn viewport_defaults_and_graph_size() {
    let d = ViewportSize::from_reported(None);
    assert_eq!((d.width, d.height), (80, 24));
    assert_eq!(d.graph_size(), (70, 16));
    let z = ViewportSize::from_reported(Some((0, 50)));
    assert_eq!((z.width, z.height), (80, 50));
    let small = ViewportSize::from_reported(Some((5, 3)));
    assert_eq!(small.graph_size(), (0, 0));
}

#[test]
fn validation_messages() {
    assert_eq!(
        validation_outcome("", "ping.example.net"),
        Ok("No immediate error from ping.example.net ...".to_string())
    );
    assert_eq!(
        validation_outcome("  iperf3: error - unable to connect to server\n", "x"),
        Err("iperf3: error - unable to connect to server\nYou can quit or select another server".to_string())
    );
    assert_eq!(checking_message("h"), "Checking connection to h ...");
    assert!(no_server_message().starts_with("Server is not selected."));
}

fn config_with(server: Option<&str>) -> MeasurementConfig {
    let mut c = MeasurementConfig::new();
    c.server_in_cmd = server.map(|s| s.to_string());
    c
}

#[test]
fn command_args_order() {
    let mut c = config_with(Some("bouygues.iperf.fr"));
    assert_eq!(
        c.command_args().unwrap(),
        vec!["--forceflush", "--interval", "1", "--time", "0", "--format", "m", "--client", "bouygues.iperf.fr"]
    );
    c.udp = true;
    c.reverse = true;
    c.ipv6 = true;
    c.ports = Some("5201-5209".to_string());
    assert_eq!(
        c.command_args().unwrap(),
        vec![
            "--forceflush", "--interval", "1", "--time", "0", "--format", "m", "-6", "-p",
            "5201-5209", "-R", "-u", "--client", "bouygues.iperf.fr"
        ]
    );
    assert_eq!(config_with(None).command_args(), None);
}

#[test]
fn config_server_and_friendly() {
    let mut c = config_with(Some("cmd.example"));
    c.server_in_option = Some("opt.example".to_string());
    assert_eq!(c.get_server(), Some("opt.example".to_string()));
    c.ports = Some("5201".to_string());
    c.udp = true;
    assert_eq!(c.friendly(), "opt.example ports 5201 udp");
    assert_eq!(config_with(None).friendly(), "(server not specified)");
    assert_eq!(config_with(None).get_server_as_string(), "");
    c.select_server("new.example".to_string());
    assert_eq!(c.friendly(), "new.example");
    assert_eq!(c.get_ports(), "");
    c.clear();
    assert_eq!(c.get_server(), None);
}

#[test]
fn server_list_records() {
    let text = "CMD,OPTIONS,GB/S,COUNTRY,SITE,PROVIDER,CONTINENT,STATUS\n\
iperf3 -c speedtest.example.net,\"-p 5201-5210,-R\",10,FR,Paris,Example,Europe,OK\n\
short,row\n\
iperf3 -c other.example.org,,,DE,Berlin,Other,Europe,OK\n";
    let list = parse_server_list(text).unwrap();
    assert_eq!(list.len(), 2);
    assert_eq!(list[0].cmd, "iperf3 -c speedtest.example.net");
    assert_eq!(list[0].options, "-p 5201-5210,-R");
    assert_eq!(list[0].command_line(), "iperf3 -c speedtest.example.net -p 5201-5210 -R");
    assert_eq!(list[0].friendly(), "Europe FR Paris Example 10 GB/s");
    assert_eq!(list[1].friendly(), "Europe DE Berlin Other");
    assert_eq!(list[1].status, "OK");
    assert!(parse_server_list("a,b\n1,2\n").is_none());
}

#[test]
fn validation_trims_unicode_space() {
    assert_eq!(
        validation_outcome("\u{3000}refused\u{a0}\t", "h"),
        Err("refused\nYou can quit or select another server".to_string())
    );
    assert_eq!(
        validation_outcome(" \n", "h"),
        Err("\nYou can quit or select another server".to_string())
    );
}
