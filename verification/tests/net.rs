use krun_whpx::devices::net::backend::{ConnectError, NetBackend, ReadError, WriteError};
use krun_whpx::devices::net::channel::Refused;
use krun_whpx::devices::net::header::write_virtio_net_hdr;
use krun_whpx::devices::net::slirp_backend::{
    deliver_frame, frame_to_send, write_outcome, SlirpBackend,
};
use krun_whpx::devices::net::slirp_loop::{
    clock_ns, now_in_milliseconds, slirp_settings, LoopAction, LoopEvent, PacketSent, SlirpLoop,
    POLLERR, POLLHUP, POLLRDBAND, POLLRDNORM, POLLWRNORM, SLIRP_POLL_ERR, SLIRP_POLL_HUP,
    SLIRP_POLL_IN, SLIRP_POLL_OUT, SLIRP_POLL_PRI,
};
use windows_sys::Win32::Networking::WinSock;

fn network() -> (SlirpBackend, SlirpLoop<u32>) {
    SlirpBackend::new(0x44, None).unwrap()
}

#[test]
fn backend_needs_an_event() {
    assert!(matches!(
        SlirpBackend::new::<u32>(0, Some(8)),
        Err(ConnectError::CreateSocket(8))
    ));
    assert!(matches!(
        SlirpBackend::new::<u32>(0, None),
        Err(ConnectError::CreateSocket(-1))
    ));
    let (backend, _net) = network();
    assert_eq!(backend.raw_socket_fd(), 0x44);
    assert!(!backend.has_unfinished_write());
    assert_eq!(backend.write_retry_delay_us(), 0);
}

#[test]
fn header_is_blank() {
    let mut buf = [0xFFu8; 14];
    assert_eq!(write_virtio_net_hdr(&mut buf), 12);
    assert_eq!(buf, [0, 0, 0, 0, 0, 0, 0, 0, 0, 0, 0, 0, 0xFF, 0xFF]);
}

#[test]
fn frames_travel_to_the_network_and_back() {
    let (mut backend, mut net) = network();
    let mut buf = vec![1u8; 12];
    buf.extend_from_slice(&[10, 20, 30]);
    assert!(backend.write_frame(12, &mut buf).is_ok());
    match net.step(LoopEvent::Done) {
        LoopAction::Input(frame) => assert_eq!(frame, vec![10, 20, 30]),
        _ => panic!("expected a frame"),
    }
    assert!(matches!(net.step(LoopEvent::Done), LoopAction::ReadClock));

    assert_eq!(
        net.send_packet(vec![7, 8]),
        PacketSent { signal: Some(0x44), ret: 2 }
    );
    let mut room = [0xFFu8; 20];
    assert_eq!(backend.read_frame(&mut room).unwrap(), 14);
    assert_eq!(&room[..14], &[0, 0, 0, 0, 0, 0, 0, 0, 0, 0, 0, 0, 7, 8]);
    assert_eq!(room[14], 0xFF);
    assert!(matches!(backend.read_frame(&mut room), Err(ReadError::NothingRead)));
}

#[test]
fn waiting_frames_are_fed_in_order() {
    let (mut backend, mut net) = network();
    for i in 0..3u8 {
        let mut buf = [0u8; 13];
        buf[12] = i;
        assert!(backend.write_frame(12, &mut buf).is_ok());
    }
    for i in 0..3u8 {
        assert!(matches!(net.step(LoopEvent::Done), LoopAction::Input(f) if f == vec![i]));
    }
    assert!(matches!(net.step(LoopEvent::Done), LoopAction::ReadClock));
}

#[test]
fn what_follows_a_look_for_a_frame() {
    let (_backend, mut net) = network();
    assert!(matches!(net.drained(Some(vec![9])), LoopAction::Input(f) if f == vec![9]));
    assert!(matches!(net.drained(None), LoopAction::ReadClock));
}

#[test]
fn frames_keep_their_order() {
    let (mut backend, mut net) = network();
    for i in 0..5u8 {
        assert_eq!(net.send_packet(vec![i]).ret, 1);
    }
    let mut room = [0u8; 13];
    for i in 0..5u8 {
        assert_eq!(backend.read_frame(&mut room).unwrap(), 13);
        assert_eq!(room[12], i);
    }
}

#[test]
fn oversized_frames_are_dropped() {
    let (mut backend, mut net) = network();
    net.send_packet(vec![1, 2, 3]);
    net.send_packet(vec![4]);
    let mut room = [0xFFu8; 13];
    assert!(matches!(backend.read_frame(&mut room), Err(ReadError::NothingRead)));
    assert_eq!(room[11], 0);
    assert_eq!(room[12], 0xFF);
    assert_eq!(backend.read_frame(&mut room).unwrap(), 13);
    assert_eq!(room[12], 4);
}

#[test]
fn delivery_of_a_given_frame() {
    let mut room = [9u8; 16];
    assert!(matches!(deliver_frame(None, &mut room), Err(ReadError::NothingRead)));
    assert_eq!(room, [9; 16]);
    assert_eq!(deliver_frame(Some(vec![1, 2]), &mut room).unwrap(), 14);
    assert_eq!(&room[10..], &[0, 0, 1, 2, 9, 9]);
    assert_eq!(frame_to_send(12, &room[..14]), Some(vec![1, 2]));
    assert_eq!(frame_to_send(14, &room[..14]), None);
    assert_eq!(frame_to_send(usize::MAX, &room[..14]), None);
}

#[test]
fn full_and_closed_channels_are_told_apart() {
    let (mut backend, mut net) = network();
    let mut buf = [0u8; 13];
    for _ in 0..256 {
        assert!(backend.write_frame(12, &mut buf).is_ok());
        assert_eq!(net.send_packet(vec![1]).ret, 1);
    }
    assert!(matches!(backend.write_frame(12, &mut buf), Err(WriteError::NothingWritten)));
    assert_eq!(net.send_packet(vec![1]), PacketSent { signal: None, ret: -1 });
    // Nothing behind the header is no frame.
    assert!(backend.write_frame(13, &mut buf).is_ok());
    drop(net);
    assert!(matches!(backend.write_frame(12, &mut buf), Err(WriteError::ProcessNotRunning)));
    assert!(backend.try_finish_write(12, &buf).is_ok());
    let mut frames = 0;
    while backend.read_frame(&mut buf).is_ok() {
        frames += 1;
    }
    assert_eq!(frames, 256);
}

#[test]
fn write_outcomes() {
    assert!(write_outcome(Ok(())).is_ok());
    assert!(matches!(
        write_outcome(Err(Refused::Full(vec![1]))),
        Err(WriteError::NothingWritten)
    ));
    assert!(matches!(
        write_outcome(Err(Refused::Disconnected(vec![1]))),
        Err(WriteError::ProcessNotRunning)
    ));
}

#[test]
fn packets_without_reader_are_dropped() {
    let (backend, mut net) = network();
    drop(backend);
    assert_eq!(net.send_packet(vec![1, 2]), PacketSent { signal: None, ret: -1 });
    assert_eq!(net.packet_sent(true, 9), PacketSent { signal: Some(0x44), ret: 9 });
}

#[test]
fn one_round_of_the_loop() {
    let (_backend, mut net) = network();
    let a = net.timer_new(100);
    let b = net.timer_new(200);
    let c = net.timer_new(300);
    assert_eq!((a, b, c), (1, 2, 3));
    net.timer_mod(a, 50);
    net.timer_mod(b, 51);
    net.timer_mod(9, 1);
    assert!(matches!(net.step(LoopEvent::Done), LoopAction::ReadClock));
    match net.step(LoopEvent::Clock { ns: 50_999_999 }) {
        LoopAction::Call(callbacks) => assert_eq!(callbacks, vec![100]),
        _ => panic!("expected the timers"),
    }
    // A timer that is set to the same moment while it fires is disarmed.
    net.timer_mod(a, 50);
    assert!(matches!(net.step(LoopEvent::Done), LoopAction::FillPoll { default_ms: 50 }));
    assert_eq!(net.add_poll(3, SLIRP_POLL_IN | SLIRP_POLL_OUT), 0);
    assert_eq!(net.add_poll(5, SLIRP_POLL_PRI | SLIRP_POLL_HUP), 1);
    assert_eq!(net.poll_count(), 2);
    assert_eq!(net.poll_fd(0).events, POLLRDNORM | POLLWRNORM);
    assert_eq!(net.poll_fd(1).events, POLLRDBAND);
    assert_eq!(net.poll_fd(1).fd, 5);
    match net.step(LoopEvent::Filled { timeout_ms: 20 }) {
        LoopAction::Poll { timeout_ms } => assert_eq!(timeout_ms, 20),
        _ => panic!("expected a poll"),
    }
    net.set_revents(0, POLLRDNORM | POLLHUP);
    net.set_revents(1, POLLERR | POLLRDBAND | POLLWRNORM);
    assert!(matches!(net.step(LoopEvent::Done), LoopAction::ReportPoll));
    assert_eq!(net.get_revents(0), SLIRP_POLL_IN | SLIRP_POLL_HUP);
    assert_eq!(net.get_revents(1), SLIRP_POLL_ERR | SLIRP_POLL_PRI | SLIRP_POLL_OUT);
    assert_eq!(net.get_revents(2), 0);
    assert_eq!(net.get_revents(-1), 0);
    // The second round: the other timer, and no sockets.
    assert!(matches!(net.step(LoopEvent::Done), LoopAction::ReadClock));
    net.timer_free(c);
    match net.step(LoopEvent::Clock { ns: 60_000_000 }) {
        LoopAction::Call(callbacks) => assert_eq!(callbacks, vec![200]),
        _ => panic!("expected the timers"),
    }
    assert!(matches!(net.step(LoopEvent::Done), LoopAction::FillPoll { .. }));
    assert_eq!(net.poll_count(), 0);
    match net.step(LoopEvent::Filled { timeout_ms: 50 }) {
        LoopAction::Sleep { ms } => assert_eq!(ms, 50),
        _ => panic!("expected a sleep"),
    }
}

#[test]
fn freed_timers_do_not_fire_and_numbers_are_not_reused() {
    let (_backend, mut net) = network();
    let a = net.timer_new(100);
    let b = net.timer_new(200);
    net.timer_mod(a, 0);
    net.timer_mod(b, 0);
    net.timer_free(a);
    assert_eq!(net.timer_new(300), 3);
    net.step(LoopEvent::Done);
    match net.step(LoopEvent::Clock { ns: 0 }) {
        LoopAction::Call(callbacks) => assert_eq!(callbacks, vec![200]),
        _ => panic!("expected the timers"),
    }
}

#[test]
fn clock_readings() {
    assert_eq!(clock_ns(5), 5);
    assert_eq!(clock_ns(1u128 << 63), i64::MIN);
    assert_eq!(now_in_milliseconds(1_999_999), 1);
    assert_eq!(now_in_milliseconds(-1_999_999), -1);
    assert_eq!(now_in_milliseconds(i64::MIN), i64::MIN / 1_000_000);
}

#[test]
fn settings_describe_the_virtual_network() {
    let s = slirp_settings();
    let addr = |a: u32| a.to_be_bytes();
    assert_eq!(addr(s.vnetwork), [10, 0, 2, 0]);
    assert_eq!(addr(s.vnetmask), [255, 255, 255, 0]);
    assert_eq!(addr(s.vhost), [10, 0, 2, 2]);
    assert_eq!(addr(s.vdhcp_start), [10, 0, 2, 15]);
    assert_eq!(addr(s.vnameserver), [10, 0, 2, 3]);
    assert_eq!(s.version, 4);
    assert!(s.in_enabled && !s.in6_enabled);
}

#[test]
fn poll_flags_are_those_of_the_host() {
    assert_eq!(POLLERR, WinSock::POLLERR);
    assert_eq!(POLLHUP, WinSock::POLLHUP);
    assert_eq!(POLLRDNORM, WinSock::POLLRDNORM);
    assert_eq!(POLLWRNORM, WinSock::POLLWRNORM);
    assert_eq!(POLLRDBAND, WinSock::POLLRDBAND);
}
