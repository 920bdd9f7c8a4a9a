//! Games over the network: the form, and what is said.

use nes_core::netplay::{
    cancel_label, dialog_title, go_label, list, net_label, parse_port, result_advice, result_title,
    NetDialog, NetEndKind, NetForm, NetPhase, NetRequest, NetResult, NetStats, DEFAULT_NET_PORT,
    MAX_INPUT_DELAY,
};

#[test]
fn a_port_is_a_number_that_fits() {
    for (text, port) in [
        ("7000", Some(7000)),
        ("0", Some(0)),
        ("65535", Some(65535)),
        ("  7000\t", Some(7000)),
        ("\u{3000}7000\u{a0}", Some(7000)),
        ("+7000", Some(7000)),
        ("000000007000", Some(7000)),
        ("65536", None),
        ("99999999999999999999999", None),
        ("", None),
        ("   ", None),
        ("+", None),
        ("-1", None),
        ("++1", None),
        ("7 000", None),
        ("7000a", None),
        ("99999999999999999999999a", None),
        ("\u{ff17}", None),
    ] {
        assert_eq!(parse_port(text), port, "{text:?}");
        assert_eq!(parse_port(text), text.trim().parse::<u16>().ok(), "{text:?}");
    }
}

#[test]
fn a_written_port_is_read_again() {
    for port in 0..=u16::MAX {
        if port % 97 == 0 || port > 65500 {
            assert_eq!(parse_port(&format!("{port}")), Some(port));
        }
    }
}

#[test]
fn white_space_is_that_of_unicode() {
    for v in 0..=0x3100u32 {
        if let Some(c) = char::from_u32(v) {
            let text = format!("{c}7{c}");
            assert_eq!(parse_port(&text), text.trim().parse::<u16>().ok(), "{v:x}");
        }
    }
}

#[test]
fn a_room_is_opened_at_the_port_in_the_form() {
    let mut form = NetForm::new(2);
    assert_eq!(form.port_text(), DEFAULT_NET_PORT);
    assert_eq!(form.submit(true), None);
    form.open(NetDialog::Host);
    form.set_port_text("x".to_string());
    assert_eq!(form.submit(true), None);
    assert_eq!(form.error(), Some("port 必須是 0–65535 的整數（例如 7000）"));
    assert_eq!(form.dialog(), Some(NetDialog::Host));
    assert_eq!(form.port_text(), "x");
    form.set_port_text(" 7001 ".to_string());
    form.set_input_delay(20);
    assert_eq!(form.input_delay(), MAX_INPUT_DELAY);
    form.set_input_delay(3);
    assert_eq!(form.submit(false), Some(NetRequest::Host { port: 7001, input_delay: 3 }));
    assert_eq!(form.dialog(), None);
}

#[test]
fn a_room_is_joined_at_an_address() {
    let mut form = NetForm::new(2);
    form.open(NetDialog::Join);
    form.set_addr_text("192.168.1.10".to_string());
    assert_eq!(form.addr_text(), "192.168.1.10");
    assert_eq!(form.submit(false), None);
    assert_eq!(
        form.error(),
        Some("格式必須是「IP:port」，例如 192.168.1.10:7000（要包含 port）")
    );
    form.set_addr_text("192.168.1.10:7000".to_string());
    assert_eq!(form.submit(true), Some(NetRequest::Join));
    assert_eq!(form.dialog(), None);
    form.open(NetDialog::Host);
    assert_eq!(form.error(), None);
    form.cancel();
    assert_eq!(form.dialog(), None);
}

#[test]
fn a_bad_end_is_told() {
    let mut form = NetForm::new(2);
    form.open(NetDialog::Host);
    form.end(NetEndKind::Normal, "再見".to_string(), Vec::new());
    assert!(form.result().is_none() && form.dialog().is_none());
    form.end(NetEndKind::Desync, "不同步".to_string(), vec!["a.state".to_string()]);
    let result = form.result().unwrap();
    assert_eq!(result_title(result.kind), "Netplay：偵測到不同步（desync）");
    assert_eq!(result.message, "不同步");
    assert!(result_advice(result).starts_with("分析：用 nes-test replay verify"));
    let bare = NetResult { files: Vec::new(), ..result.clone() };
    assert_eq!(result_advice(&bare), "");
    let error = NetResult { kind: NetEndKind::Error, ..result.clone() };
    assert_eq!(result_advice(&error), "");
    assert_eq!(result_title(NetEndKind::Error), "Netplay 已結束");
    form.dismiss_result();
    assert!(form.result().is_none());
}

#[test]
fn the_line_follows_the_phase() {
    let stats = NetStats { stalls: 4, send_bytes_per_sec: 1200, recv_bytes_per_sec: 900 };
    let line = |phase: NetPhase, ping: Option<&str>| net_label(phase, "1.2.3.4:5", ping, "0.5", stats);
    assert_eq!(line(NetPhase::Idle, None), "");
    assert_eq!(
        line(NetPhase::Waiting { port: 7000 }, None),
        "[Netplay] 等待對手連線（UDP port 7000）…"
    );
    assert_eq!(line(NetPhase::Connecting, None), "[Netplay] 正在連線到 1.2.3.4:5…");
    assert_eq!(line(NetPhase::Closing, None), "[Netplay] 中斷連線中…");
    let connected = NetPhase::Connected { player: 1, input_delay: 2 };
    assert_eq!(
        line(connected, Some("33")),
        "[Netplay] 已連線｜你是玩家 2｜ping 33 ms｜input delay 2｜stall 4 次（0.5 秒）｜↑1200 ↓900 B/s"
    );
    assert_eq!(
        line(connected, None),
        "[Netplay] 已連線｜你是玩家 2｜ping —｜input delay 2｜stall 4 次（0.5 秒）｜↑1200 ↓900 B/s"
    );
    assert_eq!(cancel_label(NetPhase::Connecting), "取消");
    assert_eq!(cancel_label(connected), "中斷連線");
    assert_eq!(dialog_title(NetDialog::Join), "Netplay：加入房間");
    assert_eq!(go_label(NetDialog::Host), "建立房間");
}

#[test]
fn names_are_listed() {
    let names = |n: usize| (0..n).map(|i| format!("f{i}")).collect::<Vec<String>>();
    assert_eq!(list(&names(0)), "");
    assert_eq!(list(&names(1)), "f0");
    assert_eq!(list(&names(3)), "f0、f1、f2");
}
