use rawlink::bpf;
use rawlink::config::ChannelConfig;
use rawlink::records::{parse_record_header, RecordHeader};
use rawlink::recv::{Receiver, RecvError};
use rawlink::send::Sender;
use rawlink::winpcap;

// Default-constructed configurations: both buffers 4096 bytes, timeouts
// unset, a thousand device-open attempts.
#[test]
fn default_channel_config() {
    let c = ChannelConfig::default();
    assert_eq!(c.write_buffer_size, 4096);
    assert_eq!(c.read_buffer_size, 4096);
    assert_eq!(c.read_timeout_micros, None);
    assert_eq!(c.write_timeout_micros, None);
    assert_eq!(c.device_open_attempts, 1000);
}

#[test]
fn default_bpf_config() {
    let c = bpf::Config::default();
    assert_eq!(c.write_buffer_size, 4096);
    assert_eq!(c.read_buffer_size, 4096);
    assert_eq!(c.read_timeout_micros, None);
    assert_eq!(c.write_timeout_micros, None);
    assert_eq!(c.bpf_fd_attempts, 1000);
}

#[test]
fn default_winpcap_config() {
    let c = winpcap::Config::default();
    assert_eq!(c.write_buffer_size, 4096);
    assert_eq!(c.read_buffer_size, 4096);
    assert_eq!(c.read_timeout_micros, None);
}

#[test]
fn config_conversion_carries_fields() {
    let mut base = ChannelConfig::default();
    base.write_buffer_size = 1024;
    base.read_buffer_size = 2048;
    base.read_timeout_micros = Some(1_500_000);
    base.device_open_attempts = 7;
    let b = bpf::Config::from(&base);
    assert_eq!(b.write_buffer_size, 1024);
    assert_eq!(b.read_buffer_size, 2048);
    assert_eq!(b.read_timeout_micros, Some(1_500_000));
    assert_eq!(b.bpf_fd_attempts, 7);
    let w = winpcap::Config::from(&base);
    assert_eq!(w.write_buffer_size, 1024);
    assert_eq!(w.read_buffer_size, 2048);
    assert_eq!(w.read_timeout_micros, Some(1_500_000));
}

// A batch whose total size reaches the write buffer's size is a local
// capacity error: no plan, no device I/O, buffer untouched.
#[test]
fn capacity_error_on_exact_fill() {
    let mut s = Sender::new(4096, false, None);
    let frames: Vec<Vec<u8>> = (0..4).map(|_| vec![0xAAu8; 1024]).collect();
    assert!(s.build_and_send(4, 1024, &frames).is_none());
    assert!(s.write_buffer.iter().all(|&b| b == 0));
}

#[test]
fn capacity_error_on_overflowing_request() {
    let s = Sender::new(4096, false, None);
    assert!(s.prepare_batch(usize::MAX, 2).is_none());
    assert!(s.prepare_batch(4096, 1).is_none());
    assert!(s.prepare_batch(1, 4096).is_none());
}

#[test]
fn batch_just_under_capacity_is_accepted() {
    let s = Sender::new(4096, false, None);
    let p = s.prepare_batch(2, 2047).expect("4094 bytes fit a 4096-byte buffer");
    assert_eq!(p.num_packets, 2);
    assert_eq!(p.packet_size, 2047);
}

// Non-loopback round trip to the device: the bytes handed to the write
// primitive are exactly the frame the builder wrote, unmodified.
#[test]
fn non_loopback_send_passes_frame_unmodified() {
    let mut s = Sender::new(128, false, None);
    let frame: Vec<u8> = (0..10u8).collect();
    let frames = vec![frame.clone()];
    let plan = s.build_and_send(1, 10, &frames).expect("fits");
    let (start, len) = s.write_range(&plan, 0);
    assert_eq!((start, len), (0, 10));
    assert_eq!(&s.write_buffer[start..start + len], frame.as_slice());
}

#[test]
fn batch_slots_are_written_in_order() {
    let mut s = Sender::new(64, false, None);
    let frames = vec![vec![1u8; 4], vec![2u8; 4], vec![3u8; 4]];
    let plan = s.build_and_send(3, 4, &frames).expect("fits");
    for i in 0..3 {
        let (start, len) = s.write_range(&plan, i);
        assert_eq!((start, len), (i * 4, 4));
        assert_eq!(&s.write_buffer[start..start + len], frames[i].as_slice());
    }
}

// Loopback sends strip the link-layer header: the OS supplies its own
// framing there.
#[test]
fn loopback_send_strips_header() {
    let mut s = Sender::new(128, true, None);
    let frame: Vec<u8> = (0..20u8).collect();
    let plan = s.send_to(&frame).expect("fits");
    assert_eq!(plan.num_packets, 1);
    assert_eq!(plan.packet_size, 20);
    let (start, len) = s.write_range(&plan, 0);
    assert_eq!((start, len), (14, 6));
    assert_eq!(&s.write_buffer[start..start + len], &frame[14..]);
}

fn put_u32_le(buf: &mut [u8], pos: usize, v: u32) {
    buf[pos] = v as u8;
    buf[pos + 1] = (v >> 8) as u8;
    buf[pos + 2] = (v >> 16) as u8;
    buf[pos + 3] = (v >> 24) as u8;
}

fn put_u16_le(buf: &mut [u8], pos: usize, v: u16) {
    buf[pos] = v as u8;
    buf[pos + 1] = (v >> 8) as u8;
}

// Write one capture record (26-byte header, then the captured bytes)
// into `buf` at `pos`; returns the record's unaligned extent.
fn put_record(buf: &mut [u8], pos: usize, payload: &[u8]) -> usize {
    put_u32_le(buf, pos + 16, payload.len() as u32);
    put_u32_le(buf, pos + 20, payload.len() as u32);
    put_u16_le(buf, pos + 24, 26);
    buf[pos + 26..pos + 26 + payload.len()].copy_from_slice(payload);
    26 + payload.len()
}

#[test]
fn parse_record_header_reads_fixed_offsets() {
    let mut bytes = vec![0u8; 32];
    put_u32_le(&mut bytes, 16, 0x01020304);
    put_u32_le(&mut bytes, 20, 0x05060708);
    put_u16_le(&mut bytes, 24, 0x1A1B);
    let h = parse_record_header(&bytes, 0).expect("full header present");
    assert_eq!(
        h,
        RecordHeader { caplen: 0x01020304, datalen: 0x05060708, hdrlen: 0x1A1B }
    );
    assert!(parse_record_header(&bytes, 10).is_none());
}

// Loopback round trip: send_to's stripped bytes come back as one record
// tagged with an address family; the delivered frame is a zero-filled
// synthesized header followed by the payload, its reported length equal
// to the original frame's length.
#[test]
fn loopback_round_trip_synthesizes_header() {
    let frame: Vec<u8> = (100..120u8).collect(); // 20 bytes: 14 header + 6 payload

    // The send side strips the 14 header bytes.
    let mut s = Sender::new(128, true, None);
    let plan = s.send_to(&frame).expect("fits");
    let (wstart, wlen) = s.write_range(&plan, 0);
    let sent = s.write_buffer[wstart..wstart + wlen].to_vec();
    assert_eq!(sent.as_slice(), &frame[14..]);

    // The OS feeds the sent bytes back, a 4-byte tag in front.
    let mut r = Receiver::new(256, true);
    assert_eq!(r.read_buffer.len(), 256 + 14);
    let mut captured = vec![2u8, 0, 0, 0]; // address-family tag
    captured.extend_from_slice(&sent);
    let mut target = vec![0u8; 64];
    let nread = put_record(&mut target, 0, &captured);
    assert_eq!(nread, 36);
    r.read_buffer[14..14 + 64].copy_from_slice(&target);

    r.begin_iteration();
    assert!(r.process_read(nread).is_ok());
    assert_eq!(r.pending(), 1);
    let f = r.next_frame().expect("one record queued");
    assert_eq!(f.len, frame.len());
    assert_eq!(f.start, 30); // header length 26 plus the 4-byte tag
    assert!(r.read_buffer[f.start..f.start + 14].iter().all(|&b| b == 0));
    assert_eq!(&r.read_buffer[f.start + 14..f.start + f.len], &frame[14..]);
    assert!(r.next_frame().is_none());
}

// One read, three records: three deliveries in the same physical order.
#[test]
fn fifo_three_records_in_capture_order() {
    let mut r = Receiver::new(256, false);
    let mut target = vec![0u8; 128];
    let p1 = [0x11u8; 4];
    let p2 = [0x22u8; 4];
    let p3 = [0x33u8; 4];
    // extent 30 each, aligned to 32
    put_record(&mut target, 0, &p1);
    put_record(&mut target, 32, &p2);
    let last = put_record(&mut target, 64, &p3);
    let nread = 64 + last;
    r.read_buffer[..128].copy_from_slice(&target);

    r.begin_iteration();
    assert!(r.process_read(nread).is_ok());
    assert_eq!(r.pending(), 3);
    let f1 = r.next_frame().expect("first");
    let f2 = r.next_frame().expect("second");
    let f3 = r.next_frame().expect("third");
    assert_eq!((f1.start, f1.len), (26, 4));
    assert_eq!((f2.start, f2.len), (32 + 26, 4));
    assert_eq!((f3.start, f3.len), (64 + 26, 4));
    assert_eq!(&r.read_buffer[f1.start..f1.start + 4], &p1);
    assert_eq!(&r.read_buffer[f2.start..f2.start + 4], &p2);
    assert_eq!(&r.read_buffer[f3.start..f3.start + 4], &p3);
}

// Alignment padding would place the cursor past the reported byte count;
// scanning clamps at the count instead of over-scanning.
#[test]
fn scan_never_passes_reported_bytes() {
    let mut r = Receiver::new(128, false);
    let mut target = vec![0u8; 64];
    let nread = put_record(&mut target, 0, &[0x7Fu8]); // extent 27, aligned 28
    assert_eq!(nread, 27);
    r.read_buffer[..64].copy_from_slice(&target);
    assert!(r.process_read(nread).is_ok());
    assert_eq!(r.pending(), 1);
    let f = r.next_frame().expect("one record");
    assert_eq!((f.start, f.len), (26, 1));
}

// A record whose declared capture length runs past the bytes actually
// read is refused rather than trusted.
#[test]
fn malformed_record_is_refused() {
    let mut r = Receiver::new(128, false);
    let mut target = vec![0u8; 64];
    put_u32_le(&mut target, 16, 100); // caplen far past nread
    put_u16_le(&mut target, 24, 26);
    r.read_buffer[..64].copy_from_slice(&target);
    assert_eq!(r.process_read(36), Err(RecvError::MalformedRecord));
    assert_eq!(r.pending(), 0);
}

#[test]
fn truncated_header_is_refused() {
    let mut r = Receiver::new(128, false);
    assert_eq!(r.process_read(10), Err(RecvError::MalformedRecord));
}

#[test]
fn empty_read_scans_to_nothing() {
    let mut r = Receiver::new(128, false);
    assert!(r.process_read(0).is_ok());
    assert_eq!(r.pending(), 0);
    assert!(r.next_frame().is_none());
}

#[test]
fn interface_name_is_padded_or_refused() {
    let name = b"en0".to_vec();
    let field = bpf::interface_name_field(&name).expect("short name fits");
    assert_eq!(field.len(), 16);
    assert_eq!(&field[..3], b"en0");
    assert!(field[3..].iter().all(|&b| b == 0));
    let long = vec![b'x'; 16];
    assert!(bpf::interface_name_field(&long).is_none());
}

// Opening a channel on a nonexistent interface: the open fails, the
// error is surfaced, and there is no device handle left to close.
#[test]
fn bpf_open_failure_leaves_nothing_open() {
    let cfg = bpf::Config::default();
    let (st, action) = bpf::setup_start(&cfg);
    assert_eq!(action, bpf::SetupAction::OpenDevice { attempts: 1000 });
    let (st, action) = bpf::setup_step(&st, &bpf::SetupEvent::OpenFailed);
    assert_eq!(st.phase, bpf::SetupPhase::Failed);
    assert_eq!(action, bpf::SetupAction::FailWithoutClose);
}

// Any failure after the open closes the opened device before surfacing
// the error.
#[test]
fn bpf_later_failure_closes_device() {
    let cfg = bpf::Config::default();
    let (st, _) = bpf::setup_start(&cfg);
    let (st, action) = bpf::setup_step(&st, &bpf::SetupEvent::Opened);
    assert_eq!(action, bpf::SetupAction::SetBufferLength { bytes: 4096 });
    let (st, action) = bpf::setup_step(&st, &bpf::SetupEvent::ControlFailed);
    assert_eq!(st.phase, bpf::SetupPhase::Failed);
    assert_eq!(action, bpf::SetupAction::CloseAndFail);
}

// The full successful setup sequence on a non-loopback interface, with a
// one-second read timeout split into seconds and microseconds.
#[test]
fn bpf_setup_sequence_non_loopback() {
    let mut cfg = bpf::Config::default();
    cfg.read_timeout_micros = Some(1_000_000);
    let (st, _) = bpf::setup_start(&cfg);
    let (st, a) = bpf::setup_step(&st, &bpf::SetupEvent::Opened);
    assert_eq!(a, bpf::SetupAction::SetBufferLength { bytes: 4096 });
    let (st, a) = bpf::setup_step(&st, &bpf::SetupEvent::ControlOk);
    assert_eq!(a, bpf::SetupAction::BindInterface);
    let (st, a) = bpf::setup_step(&st, &bpf::SetupEvent::ControlOk);
    assert_eq!(a, bpf::SetupAction::EnableImmediate);
    let (st, a) = bpf::setup_step(&st, &bpf::SetupEvent::ControlOk);
    assert_eq!(a, bpf::SetupAction::QueryLinkType);
    let (st, a) = bpf::setup_step(&st, &bpf::SetupEvent::LinkType { dlt: 1 });
    assert!(!st.loopback);
    assert_eq!(a, bpf::SetupAction::SetHeaderComplete);
    let (st, a) = bpf::setup_step(&st, &bpf::SetupEvent::ControlOk);
    assert_eq!(
        a,
        bpf::SetupAction::SetReadTimeout { seconds: 1, microseconds: 0 }
    );
    let (st, a) = bpf::setup_step(&st, &bpf::SetupEvent::ControlOk);
    assert_eq!(st.phase, bpf::SetupPhase::Ready);
    assert_eq!(a, bpf::SetupAction::Finish { loopback: false });
}

// The loopback link-layer type switches the channel into loopback mode
// and enables feedback so self-transmitted frames are readable.
#[test]
fn bpf_setup_detects_loopback() {
    let cfg = bpf::Config::default();
    let (st, _) = bpf::setup_start(&cfg);
    let (st, _) = bpf::setup_step(&st, &bpf::SetupEvent::Opened);
    let (st, _) = bpf::setup_step(&st, &bpf::SetupEvent::ControlOk);
    let (st, _) = bpf::setup_step(&st, &bpf::SetupEvent::ControlOk);
    let (st, _) = bpf::setup_step(&st, &bpf::SetupEvent::ControlOk);
    let (st, a) = bpf::setup_step(&st, &bpf::SetupEvent::LinkType { dlt: 0 });
    assert!(st.loopback);
    assert_eq!(a, bpf::SetupAction::EnableFeedback);
    let (st, a) = bpf::setup_step(&st, &bpf::SetupEvent::ControlOk);
    assert_eq!(st.phase, bpf::SetupPhase::Ready);
    assert_eq!(a, bpf::SetupAction::Finish { loopback: true });
}

// A loopback receiver's buffer carries one extra header's worth of bytes
// for the synthesized header.
#[test]
fn loopback_read_buffer_is_enlarged() {
    let r = Receiver::new(4096, true);
    assert_eq!(r.read_buffer.len(), 4096 + 14);
    let r = Receiver::new(4096, false);
    assert_eq!(r.read_buffer.len(), 4096);
}

#[test]
fn winpcap_setup_sequence() {
    let mut cfg = winpcap::Config::default();
    cfg.read_timeout_micros = Some(1_000_000);
    let (st, a) = winpcap::setup_start(&cfg);
    assert_eq!(a, winpcap::SetupAction::OpenAdapter);
    let (st, a) = winpcap::setup_step(&st, &winpcap::SetupEvent::Opened);
    assert_eq!(a, winpcap::SetupAction::SetHwFilter);
    let (st, a) = winpcap::setup_step(&st, &winpcap::SetupEvent::ControlOk);
    assert_eq!(a, winpcap::SetupAction::SetKernelBufferSize { bytes: 4096 });
    let (st, a) = winpcap::setup_step(&st, &winpcap::SetupEvent::ControlOk);
    assert_eq!(a, winpcap::SetupAction::SetReadTimeout { milliseconds: 1000 });
    let (st, a) = winpcap::setup_step(&st, &winpcap::SetupEvent::ControlOk);
    assert_eq!(a, winpcap::SetupAction::SetMinToCopy { bytes: 1 });
    let (st, a) = winpcap::setup_step(&st, &winpcap::SetupEvent::ControlOk);
    assert_eq!(a, winpcap::SetupAction::AllocateReadPacket { bytes: 4096 });
    let (st, a) = winpcap::setup_step(&st, &winpcap::SetupEvent::AllocOk);
    assert_eq!(a, winpcap::SetupAction::AllocateWritePacket { bytes: 4096 });
    let (st, a) = winpcap::setup_step(&st, &winpcap::SetupEvent::AllocOk);
    assert_eq!(st.phase, winpcap::SetupPhase::Ready);
    assert_eq!(a, winpcap::SetupAction::Finish);
}

#[test]
fn winpcap_failures_release_what_was_acquired() {
    let cfg = winpcap::Config::default();
    let (st, _) = winpcap::setup_start(&cfg);
    let (failed, a) = winpcap::setup_step(&st, &winpcap::SetupEvent::OpenFailed);
    assert_eq!(failed.phase, winpcap::SetupPhase::Failed);
    assert_eq!(
        a,
        winpcap::SetupAction::Fail { close_adapter: false, free_read_packet: false }
    );
    let (st, _) = winpcap::setup_step(&st, &winpcap::SetupEvent::Opened);
    let (_, a) = winpcap::setup_step(&st, &winpcap::SetupEvent::ControlFailed);
    assert_eq!(
        a,
        winpcap::SetupAction::Fail { close_adapter: true, free_read_packet: false }
    );
    // drive to the write-packet allocation, where the read packet exists
    let (st, _) = winpcap::setup_step(&st, &winpcap::SetupEvent::ControlOk);
    let (st, _) = winpcap::setup_step(&st, &winpcap::SetupEvent::ControlOk);
    let (st, _) = winpcap::setup_step(&st, &winpcap::SetupEvent::ControlOk);
    let (st, _) = winpcap::setup_step(&st, &winpcap::SetupEvent::ControlOk);
    let (st, _) = winpcap::setup_step(&st, &winpcap::SetupEvent::AllocOk);
    let (_, a) = winpcap::setup_step(&st, &winpcap::SetupEvent::AllocFailed);
    assert_eq!(
        a,
        winpcap::SetupAction::Fail { close_adapter: true, free_read_packet: true }
    );
}
