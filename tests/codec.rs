use sds011::{
    check_reply, cmd_begin, decode_reading, finish_cmd, query_command, report_mode_command,
    work_period_command, Error, Reading, Reply, SDS011,
};

fn reply_frame(payload: [u8; 6]) -> [u8; 10] {
    let sum: u32 = payload.iter().map(|b| *b as u32).sum();
    [
        0xaa,
        0xc0,
        payload[0],
        payload[1],
        payload[2],
        payload[3],
        payload[4],
        payload[5],
        (sum % 256) as u8,
        0xab,
    ]
}

fn passive_session() -> SDS011 {
    let (mut s, _) = SDS011::new();
    let r = s.reply(Ok(reply_frame([2, 1, 1, 0, 0xa1, 0x60])), 0);
    assert_eq!(r, Ok(Reply::Confirmed));
    s
}

#[test]
fn header_bytes() {
    assert_eq!(cmd_begin(), vec![0xaa, 0xb4]);
}

#[test]
fn finish_appends_ids_checksum_and_tail() {
    let mut cmd = vec![0xaa, 0xb4, 0x10, 0x20];
    finish_cmd(&mut cmd);
    // 0x10 + 0x20 + 0xff + 0xff = 0x22e
    assert_eq!(cmd, vec![0xaa, 0xb4, 0x10, 0x20, 0xff, 0xff, 0x2e, 0xab]);
}

#[test]
fn work_period_checksum_for_every_allowed_period() {
    for m in 0u8..=30 {
        let frame = work_period_command(m).unwrap();
        assert_eq!(frame.len(), 19);
        let expected = (0x08u32 + 0x01 + m as u32 + 10 * 0 + 0xff + 0xff) % 256;
        assert_eq!(frame[17] as u32, expected);
        assert_eq!(&frame[0..5], &[0xaa, 0xb4, 0x08, 0x01, m]);
        assert_eq!(&frame[5..15], &[0u8; 10]);
        assert_eq!(&frame[15..17], &[0xff, 0xff]);
        assert_eq!(frame[18], 0xab);
    }
}

#[test]
fn work_period_of_five_minutes_exact_frame() {
    let frame = work_period_command(5).unwrap();
    assert_eq!(
        frame,
        vec![
            0xaa, 0xb4, 0x08, 0x01, 0x05, 0, 0, 0, 0, 0, 0, 0, 0, 0, 0, 0xff, 0xff, 0x0c, 0xab
        ]
    );
}

#[test]
fn work_period_over_thirty_sends_nothing() {
    for m in [31u8, 100, 255] {
        assert_eq!(work_period_command(m), Err(Error::TooLongWorkTime));
        let mut s = passive_session();
        assert_eq!(s.set_work_period(m), Err(Error::TooLongWorkTime));
        assert!(!s.awaiting_reply());
        assert!(s.is_passive());
    }
}

#[test]
fn query_frame_layout() {
    let frame = query_command();
    let mut expected = vec![0xaa, 0xb4, 0x04];
    expected.extend_from_slice(&[0u8; 12]);
    expected.extend_from_slice(&[0xff, 0xff, 0x02, 0xab]);
    assert_eq!(frame, expected);
    let mut s = passive_session();
    assert_eq!(s.query(), expected);
    assert!(s.awaiting_reply());
}

#[test]
fn report_mode_frame_is_write_passive() {
    let mut expected = vec![0xaa, 0xb4, 0x02, 0x01, 0x01];
    expected.extend_from_slice(&[0u8; 10]);
    expected.extend_from_slice(&[0xff, 0xff, 0x02, 0xab]);
    assert_eq!(report_mode_command(), expected);
    let (s, cmd) = SDS011::new();
    assert_eq!(cmd, expected);
    assert!(s.awaiting_reply());
    assert!(!s.is_passive());
}

#[test]
fn session_becomes_passive_on_confirmed_report_mode() {
    let s = passive_session();
    assert!(s.is_passive());
    assert!(!s.awaiting_reply());
}

#[test]
fn report_mode_with_bad_checksum_leaves_session_active() {
    let (mut s, _) = SDS011::new();
    let mut buf = reply_frame([2, 1, 1, 0, 0xa1, 0x60]);
    buf[8] = buf[8].wrapping_add(1);
    assert_eq!(s.reply(Ok(buf), 0), Err(Error::BadChecksum));
    assert!(!s.is_passive());
    assert!(!s.awaiting_reply());
}

#[test]
fn query_round_trip_decodes_concentrations() {
    let mut s = passive_session();
    s.query();
    let buf = reply_frame([0x64, 0x00, 0xc8, 0x00, 0xa1, 0x60]);
    match s.reply(Ok(buf), 1_600_000_000) {
        Ok(Reply::Measured(m)) => {
            assert_eq!(m.pm25, 100);
            assert_eq!(m.pm10, 200);
            assert_eq!(m.pm25 as f32 / 10.0, 10.0);
            assert_eq!(m.pm10 as f32 / 10.0, 20.0);
            assert_eq!(m.timestamp, 1_600_000_000);
        }
        other => panic!("unexpected reply {:?}", other),
    }
}

#[test]
fn decode_is_little_endian() {
    let buf = reply_frame([0x34, 0x12, 0xff, 0xff, 0, 0]);
    assert_eq!(
        decode_reading(&buf, 9),
        Reading { timestamp: 9, pm25: 0x1234, pm10: 0xffff }
    );
}

#[test]
fn check_reply_accepts_matching_checksum() {
    let buf = reply_frame([0x64, 0x00, 0xc8, 0x00, 0x01, 0x02]);
    assert_eq!(buf[8], 47);
    assert_eq!(check_reply(&buf), Ok(buf));
}

#[test]
fn altered_checksum_fails_query_and_work_period() {
    let good = reply_frame([0x64, 0x00, 0xc8, 0x00, 0xa1, 0x60]);
    for delta in [1u8, 7, 128, 255] {
        let mut bad = good;
        bad[8] = bad[8].wrapping_add(delta);
        assert_eq!(check_reply(&bad), Err(Error::BadChecksum));

        let mut s = passive_session();
        s.query();
        assert_eq!(s.reply(Ok(bad), 5), Err(Error::BadChecksum));

        s.set_work_period(3).unwrap();
        assert_eq!(s.reply(Ok(bad), 5), Err(Error::BadChecksum));
        assert!(!s.awaiting_reply());
    }
}

#[test]
fn work_period_confirmed() {
    let mut s = passive_session();
    let cmd = s.set_work_period(30).unwrap();
    assert_eq!(cmd[4], 30);
    let buf = reply_frame([8, 1, 30, 0, 0xa1, 0x60]);
    assert_eq!(s.reply(Ok(buf), 0), Ok(Reply::Confirmed));
    assert!(s.is_passive());
}

#[test]
fn repeated_queries_agree() {
    let mut s = passive_session();
    let buf = reply_frame([0x2a, 0x01, 0x90, 0x02, 0xa1, 0x60]);
    s.query();
    let first = s.reply(Ok(buf), 1000);
    s.query();
    let second = s.reply(Ok(buf), 1005);
    match (first, second) {
        (Ok(Reply::Measured(a)), Ok(Reply::Measured(b))) => {
            assert_eq!(a.pm25, 298);
            assert_eq!(a.pm10, 656);
            assert_eq!(a.pm25, b.pm25);
            assert_eq!(a.pm10, b.pm10);
            assert_eq!(a.timestamp, 1000);
            assert_eq!(b.timestamp, 1005);
        }
        other => panic!("unexpected replies {:?}", other),
    }
}

#[test]
fn transport_timeout_is_read_error() {
    let mut s = passive_session();
    s.query();
    let r = s.reply(Err("Operation timed out".to_string()), 0);
    assert_eq!(r, Err(Error::ReadError("Operation timed out".to_string())));
    assert!(!s.awaiting_reply());
    // the session stays usable for the next exchange
    s.query();
    let buf = reply_frame([1, 0, 2, 0, 0, 0]);
    assert_eq!(
        s.reply(Ok(buf), 3),
        Ok(Reply::Measured(Reading { timestamp: 3, pm25: 1, pm10: 2 }))
    );
}

#[test]
fn write_failure_is_read_error_for_settings() {
    let (mut s, _) = SDS011::new();
    assert_eq!(
        s.reply(Err("broken pipe".to_string()), 0),
        Err(Error::ReadError("broken pipe".to_string()))
    );
    assert!(!s.is_passive());
}
