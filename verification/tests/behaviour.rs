// Behaviour of the single operations on chosen values: the texts at the
// boundary, the addresses, the steps of the receive loop and the sender.

use rsip_wrapper::address::{endpoint, ephemeral_endpoint, listen_endpoint};
use rsip_wrapper::listener::{error_payload, RECEIVE_BUFFER_LEN, RETRY_PAUSE_MILLIS};
use rsip_wrapper::text::{contains_nul, to_event_text, to_payload_text};
use rsip_wrapper::{
    bind_request, call_callback, listener_step, receive_buffer, rsip_clear_event_callback,
    rsip_init, rsip_send_udp, rsip_set_event_callback, rsip_shutdown, rsip_start_udp_listener,
    rsip_version, send_status, signal_stop, CallbackRegistry, Context, Reception,
};

#[test]
fn only_the_first_start_succeeds() {
    let mut ctx: Context<u32, u8> = Context::new();
    assert!(!rsip_start_udp_listener(&mut ctx, None));
    assert!(!ctx.is_running());
    assert!(rsip_start_udp_listener(&mut ctx, Some(10)));
    for token in 11..20 {
        assert_eq!(bind_request(&ctx, 15060), None);
        assert!(!rsip_start_udp_listener(&mut ctx, Some(token)));
        assert!(!rsip_start_udp_listener(&mut ctx, None));
        assert!(ctx.is_running());
    }
    assert_eq!(rsip_shutdown(&mut ctx), Some(10));
}

#[test]
fn failed_bind_changes_nothing() {
    let mut ctx: Context<u32, u8> = Context::new();
    rsip_set_event_callback(&mut ctx, 4);
    assert!(bind_request(&ctx, 5060).is_some());
    assert!(!rsip_start_udp_listener(&mut ctx, None));
    assert!(!ctx.is_running());
    assert!(!ctx.has_listener());
    assert!(ctx.has_callback());
}

#[test]
fn restart_on_another_port_after_shutdown() {
    let mut ctx: Context<u32, u8> = Context::new();
    assert_eq!(bind_request(&ctx, 15060), Some(String::from("0.0.0.0:15060")));
    assert!(rsip_start_udp_listener(&mut ctx, Some(1)));
    assert_eq!(rsip_shutdown(&mut ctx), Some(1));
    assert_eq!(bind_request(&ctx, 15061), Some(String::from("0.0.0.0:15061")));
    assert!(rsip_start_udp_listener(&mut ctx, Some(2)));
    assert!(ctx.is_running());
    assert_eq!(rsip_shutdown(&mut ctx), Some(2));
}

#[test]
fn shutdown_converges_from_every_state() {
    let mut idle: Context<u32, u8> = Context::new();
    assert_eq!(rsip_shutdown(&mut idle), None);

    let mut registered: Context<u32, u8> = Context::new();
    rsip_set_event_callback(&mut registered, 1);
    assert_eq!(rsip_shutdown(&mut registered), None);

    let mut running: Context<u32, u8> = Context::new();
    rsip_set_event_callback(&mut running, 1);
    assert!(rsip_start_udp_listener(&mut running, Some(5)));
    assert_eq!(rsip_shutdown(&mut running), Some(5));
    assert_eq!(rsip_shutdown(&mut running), None);

    for ctx in [&idle, &registered, &running] {
        assert!(!ctx.is_running());
        assert!(!ctx.has_listener());
        assert!(!ctx.has_callback());
    }
}

#[test]
fn reset_keeps_the_token_of_a_running_loop() {
    let mut ctx: Context<u32, u8> = Context::new();
    rsip_set_event_callback(&mut ctx, 1);
    assert!(rsip_start_udp_listener(&mut ctx, Some(5)));
    assert!(rsip_init(&mut ctx));
    assert!(!ctx.is_running());
    assert!(!ctx.has_callback());
    assert!(ctx.has_listener());
    assert_eq!(rsip_shutdown(&mut ctx), Some(5));
    assert!(!ctx.has_listener());
}

#[test]
fn registering_replaces_the_callback() {
    let mut ctx: Context<u32, u8> = Context::new();
    rsip_set_event_callback(&mut ctx, 1);
    rsip_set_event_callback(&mut ctx, 2);
    let call = call_callback(&ctx, "sip_rx", "x").expect("a callback is registered");
    assert_eq!(call.callback, 2);
    rsip_clear_event_callback(&mut ctx);
    rsip_clear_event_callback(&mut ctx);
    assert!(call_callback(&ctx, "sip_rx", "x").is_none());
}

#[test]
fn registry_dispatch_without_callback_is_silent() {
    let mut registry: CallbackRegistry<u8> = CallbackRegistry::new();
    assert!(!registry.is_registered());
    assert!(registry.dispatch("sip_rx", "hello").is_none());
    registry.set(9);
    assert!(registry.is_registered());
    let call = registry.dispatch("sip_rx", "hello").expect("registered");
    assert_eq!(call.callback, 9);
    assert_eq!(call.event, "sip_rx");
    assert_eq!(call.payload, "hello");
    registry.clear();
    assert!(registry.dispatch("sip_rx", "hello").is_none());
}

#[test]
fn texts_with_nul_fall_back() {
    assert!(contains_nul("a\0b"));
    assert!(contains_nul("\0"));
    assert!(!contains_nul(""));
    assert!(!contains_nul("sip_rx"));
    assert!(!contains_nul("gr\u{fc}\u{df}e \u{20ac} \u{1f600}"));
    assert_eq!(to_event_text("sip\0rx"), "err");
    assert_eq!(to_event_text("sip_rx"), "sip_rx");
    assert_eq!(to_payload_text("INVITE\0"), "");
    assert_eq!(to_payload_text("INVITE"), "INVITE");

    let mut ctx: Context<u32, u8> = Context::new();
    rsip_set_event_callback(&mut ctx, 3);
    let call = call_callback(&ctx, "bad\0kind", "bad\0payload").expect("registered");
    assert_eq!(call.callback, 3);
    assert_eq!(call.event, "err");
    assert_eq!(call.payload, "");
}

#[test]
fn datagram_text_round_trip() {
    let mut ctx: Context<u32, u8> = Context::new();
    rsip_set_event_callback(&mut ctx, 1);
    assert!(rsip_start_udp_listener(&mut ctx, Some(1)));
    let step = listener_step(&ctx, Reception::Datagram(b"INVITE sip:test@localhost SIP/2.0"));
    assert_eq!(step.pause_millis, 0);
    let call = step.invocation.expect("exactly one event");
    assert_eq!(call.callback, 1);
    assert_eq!(call.event, "sip_rx");
    assert_eq!(call.payload, "INVITE sip:test@localhost SIP/2.0");
}

#[test]
fn empty_datagram_is_ignored() {
    let mut ctx: Context<u32, u8> = Context::new();
    rsip_set_event_callback(&mut ctx, 1);
    assert!(rsip_start_udp_listener(&mut ctx, Some(1)));
    let step = listener_step(&ctx, Reception::Datagram(b""));
    assert!(step.invocation.is_none());
    assert_eq!(step.pause_millis, 0);
}

#[test]
fn datagram_without_callback_is_dropped() {
    let ctx: Context<u32, u8> = Context::new();
    let step = listener_step(&ctx, Reception::Datagram(b"OPTIONS"));
    assert!(step.invocation.is_none());
    assert_eq!(step.pause_millis, 0);
}

#[test]
fn invalid_bytes_are_replaced_not_rejected() {
    let mut ctx: Context<u32, u8> = Context::new();
    rsip_set_event_callback(&mut ctx, 1);
    let step = listener_step(&ctx, Reception::Datagram(b"SIP\xff/2.0"));
    let call = step.invocation.expect("the datagram is forwarded");
    assert_eq!(call.event, "sip_rx");
    assert_eq!(call.payload, "SIP\u{fffd}/2.0");
}

#[test]
fn datagram_with_nul_has_empty_payload() {
    let mut ctx: Context<u32, u8> = Context::new();
    rsip_set_event_callback(&mut ctx, 1);
    let step = listener_step(&ctx, Reception::Datagram(b"a\0b"));
    let call = step.invocation.expect("the datagram is forwarded");
    assert_eq!(call.event, "sip_rx");
    assert_eq!(call.payload, "");
}

#[test]
fn receive_failure_is_reported_and_paused() {
    let mut ctx: Context<u32, u8> = Context::new();
    rsip_set_event_callback(&mut ctx, 1);
    let step = listener_step(&ctx, Reception::Failure("connection reset"));
    assert_eq!(step.pause_millis, 50);
    assert_eq!(step.pause_millis, RETRY_PAUSE_MILLIS);
    let call = step.invocation.expect("the failure is reported");
    assert_eq!(call.event, "error");
    assert_eq!(call.payload, "recv_err:connection reset");

    rsip_clear_event_callback(&mut ctx);
    let step = listener_step(&ctx, Reception::Failure("connection reset"));
    assert!(step.invocation.is_none());
    assert_eq!(step.pause_millis, 50);
}

#[test]
fn error_payload_has_its_prefix() {
    assert_eq!(error_payload(""), "recv_err:");
    assert_eq!(error_payload("timed out"), "recv_err:timed out");
}

#[test]
fn receive_buffer_holds_the_largest_datagram() {
    let buffer = receive_buffer();
    assert_eq!(RECEIVE_BUFFER_LEN, 65535);
    assert_eq!(buffer.len(), 65535);
    assert!(buffer.iter().all(|b| *b == 0));
}

#[test]
fn ports_are_written_in_decimal() {
    assert_eq!(listen_endpoint(0), "0.0.0.0:0");
    assert_eq!(listen_endpoint(9), "0.0.0.0:9");
    assert_eq!(listen_endpoint(10), "0.0.0.0:10");
    assert_eq!(listen_endpoint(5060), "0.0.0.0:5060");
    assert_eq!(listen_endpoint(10000), "0.0.0.0:10000");
    assert_eq!(listen_endpoint(65535), "0.0.0.0:65535");
    assert_eq!(ephemeral_endpoint(), "0.0.0.0:0");
    assert_eq!(endpoint("example.com", 443), "example.com:443");
    assert_eq!(endpoint("", 1), ":1");
    for port in [0u16, 1, 99, 100, 101, 1234, 40404, 65534] {
        assert_eq!(endpoint("h", port), format!("h:{}", port));
    }
}

#[test]
fn send_needs_host_and_payload() {
    assert!(rsip_send_udp(None, 5060, None).is_none());
    assert!(rsip_send_udp(None, 5060, Some(b"x")).is_none());
    assert!(rsip_send_udp(Some(b"127.0.0.1"), 5060, None).is_none());
    assert!(rsip_send_udp(Some(b"\xff\xfe"), 5060, Some(b"x")).is_none());
    assert!(rsip_send_udp(Some(b"\xc3"), 5060, Some(b"x")).is_none());
    assert!(rsip_send_udp(Some(b"127.0.0.1"), 5060, Some(b"")).is_some());
}

#[test]
fn send_result_is_the_bind_result() {
    let request = rsip_send_udp(Some(b"127.0.0.1"), 5060, Some(b"\x00\xffraw"));
    let outbound = request.as_ref().expect("attempted");
    assert_eq!(outbound.local, "0.0.0.0:0");
    assert_eq!(outbound.destination, "127.0.0.1:5060");
    assert_eq!(outbound.payload, b"\x00\xffraw".to_vec());
    assert!(send_status(&request, true));
    assert!(!send_status(&request, false));
    let refused = rsip_send_udp(None, 5060, Some(b"x"));
    assert!(!send_status(&refused, true));
    assert!(!send_status(&refused, false));
}

#[test]
fn send_host_is_decoded_as_text() {
    let request = rsip_send_udp(Some("b\u{fc}cher.example".as_bytes()), 7, Some(b"x"));
    let outbound = request.expect("attempted");
    assert_eq!(outbound.destination, "b\u{fc}cher.example:7");
}

#[test]
fn send_does_not_depend_on_the_listener() {
    let mut ctx: Context<u32, u8> = Context::new();
    let before = rsip_send_udp(Some(b"127.0.0.1"), 5060, Some(b"x")).expect("attempted");
    assert!(rsip_start_udp_listener(&mut ctx, Some(1)));
    let during = rsip_send_udp(Some(b"127.0.0.1"), 5060, Some(b"x")).expect("attempted");
    rsip_shutdown(&mut ctx);
    let after = rsip_send_udp(Some(b"127.0.0.1"), 5060, Some(b"x")).expect("attempted");
    assert_eq!(before.destination, during.destination);
    assert_eq!(during.destination, after.destination);
    assert_eq!(before.payload, after.payload);
}

#[test]
fn version_is_stable() {
    let first = rsip_version();
    let second = rsip_version();
    assert!(!first.is_empty());
    assert_eq!(first, second);
    assert_eq!(first.len(), 18);
    assert!(!first.contains('\0'));
}

#[test]
fn reset_and_shutdown_cycles_stay_quiescent() {
    let mut ctx: Context<u32, u8> = Context::new();
    rsip_set_event_callback(&mut ctx, 1);
    assert!(rsip_start_udp_listener(&mut ctx, Some(7)));
    let mut tokens = Vec::new();
    for _ in 0..3 {
        assert!(rsip_init(&mut ctx));
        tokens.push(rsip_shutdown(&mut ctx));
        assert!(!ctx.is_running());
        assert!(!ctx.has_listener());
        assert!(!ctx.has_callback());
    }
    assert_eq!(tokens, vec![Some(7), None, None]);
}

#[test]
fn stop_signal_keeps_the_callback_until_shutdown() {
    let mut ctx: Context<u32, u8> = Context::new();
    rsip_set_event_callback(&mut ctx, 6);
    assert!(rsip_start_udp_listener(&mut ctx, Some(3)));
    assert_eq!(signal_stop(&mut ctx), Some(3));
    assert!(!ctx.is_running());
    assert!(!ctx.has_listener());
    let step = listener_step(&ctx, Reception::Datagram(b"BYE"));
    let call = step.invocation.expect("still registered while the loop ends");
    assert_eq!(call.callback, 6);
    assert_eq!(call.payload, "BYE");
    assert_eq!(signal_stop(&mut ctx), None);
    assert_eq!(rsip_shutdown(&mut ctx), None);
    assert!(!ctx.has_callback());
}
