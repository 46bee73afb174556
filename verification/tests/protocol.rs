use robotrs::protocol::{
    byte_to_hex, decode_ahrspos_tsraw_update, decode_ahrspos_tsupdate, decode_ahrspos_update,
    decode_ahrsupdate, decode_board_idget_response, decode_data_set_response, decode_i16,
    decode_integration_control_response, decode_mag_cal_data_get_response,
    decode_quaternion_update, decode_stream_command, decode_stream_response,
    decode_tuning_var_get_response, decode_u16, decode_u16_hex, decode_u32, decode_u8_hex,
    decode_yprupdate, encode_data_get_request, encode_i16, encode_integration_control_cmd,
    encode_mag_cal_data_set_request, encode_stream_command, encode_termination,
    encode_tuning_var_set_request, encode_u16, encode_u32, verify_checksum, AHRSPosTSRawUpdate,
    AHRSPosTSUpdate, AHRSPosUpdate, AHRSUpdate, AHRSUpdateBase, BoardID, DataSetResponse,
    IntegrationControl, MagCalData, ProtocolFloat, QuaternionUpdate, StreamCommand,
    StreamResponse, TuningVar, YPRUpdate,
};

fn hex(n: u8) -> u8 {
    if n < 10 {
        b'0' + n
    } else {
        b'A' + n - 10
    }
}

fn checksum(body: &[u8]) -> u8 {
    body.iter().fold(0u8, |a, b| a.wrapping_add(*b))
}

/// A complete message for `body`: checksum as two hex characters, then CR LF.
fn frame(body: &[u8]) -> Vec<u8> {
    let c = checksum(body);
    let mut v = body.to_vec();
    v.push(hex(c >> 4));
    v.push(hex(c & 15));
    v.push(b'\r');
    v.push(b'\n');
    v
}

#[test]
fn u16_codec_roundtrip() {
    let mut buf = [0u8; 6];
    encode_u16(0xBEEF, &mut buf, 2);
    assert_eq!(buf, [0, 0, 0xEF, 0xBE, 0, 0]);
    assert_eq!(decode_u16(&buf, 2), 0xBEEF);
}

#[test]
fn u32_codec_roundtrip() {
    let mut buf = [0u8; 5];
    encode_u32(0x1234_5678, &mut buf, 1);
    assert_eq!(buf, [0, 0x78, 0x56, 0x34, 0x12]);
    assert_eq!(decode_u32(&buf, 1), 0x1234_5678);
}

#[test]
fn i16_codec_roundtrip() {
    let mut buf = [0u8; 2];
    encode_i16(-2, &mut buf, 0);
    assert_eq!(buf, [0xFE, 0xFF]);
    assert_eq!(decode_i16(&buf, 0), -2);
    encode_i16(i16::MIN, &mut buf, 0);
    assert_eq!(decode_i16(&buf, 0), i16::MIN);
    encode_i16(300, &mut buf, 0);
    assert_eq!(buf, [0x2C, 0x01]);
    assert_eq!(decode_i16(&buf, 0), 300);
}

#[test]
fn hex_encoding_is_upper_case() {
    let mut buf = [0u8; 4];
    byte_to_hex(0xA7, &mut buf, 1);
    assert_eq!(buf, [0, b'A', b'7', 0]);
    byte_to_hex(0x0F, &mut buf, 0);
    assert_eq!(&buf[0..2], b"0F");
}

#[test]
fn hex_u16_roundtrip() {
    let mut buf = [0u8; 4];
    byte_to_hex(0x12, &mut buf, 0);
    byte_to_hex(0xAB, &mut buf, 2);
    assert_eq!(decode_u16_hex(&buf, 0), 0x12AB);
    assert_eq!(decode_u16_hex(b"FFFF", 0), 0xFFFF);
    assert_eq!(decode_u16_hex(b"x0001", 1), 1);
}

#[test]
fn hex_digits_outside_the_alphabet_wrap() {
    // 'G' reads as 16 and '/' as 255, modulo 2^16 overall.
    assert_eq!(decode_u16_hex(b"000G", 0), 16);
    assert_eq!(decode_u16_hex(b"000/", 0), 255);
}

#[test]
fn checksum_reader_reads_two_digits() {
    assert_eq!(decode_u8_hex(b"77", 0), 0x77);
    assert_eq!(decode_u8_hex(b"3A", 0), 0x3A);
    assert_eq!(decode_u8_hex(b"A0", 0), 0xA0);
    assert_eq!(decode_u8_hex(b"x3C", 1), 0x3C);
    let mut hexed = [0u8; 2];
    for b in 0..=255u8 {
        byte_to_hex(b, &mut hexed, 0);
        assert_eq!(decode_u8_hex(&hexed, 0), b);
    }
}

#[test]
fn verify_checksum_accepts_framed_bodies() {
    let ok = frame(b"!\x11\x11"); // sum 0x43 -> "43"
    assert!(verify_checksum(&ok, 0, 3));
    assert!(verify_checksum(&[0x01, b'0', b'1'], 0, 1));
    let mut tampered = ok.clone();
    tampered[1] = tampered[1].wrapping_add(1);
    assert!(!verify_checksum(&tampered, 0, 3));
}

#[test]
fn termination_appends_checksum_and_crlf() {
    let mut buf = [b'!', b'S', 0x01, b'3', b'2', 0, 0, 0, 0, 0xAA];
    encode_termination(&mut buf, 9, 5);
    let sum = (b'!' as u32 + b'S' as u32 + 1 + b'3' as u32 + b'2' as u32) % 256;
    assert_eq!(buf[5], hex((sum >> 4) as u8));
    assert_eq!(buf[6], hex((sum & 15) as u8));
    assert_eq!(&buf[7..9], b"\r\n");
    assert_eq!(buf[9], 0xAA);
}

#[test]
fn termination_without_room_changes_nothing() {
    let mut buf = [1u8, 2, 3, 4, 5, 6];
    encode_termination(&mut buf, 3, 0);
    assert_eq!(buf, [1, 2, 3, 4, 5, 6]);
    encode_termination(&mut buf, 6, 3);
    assert_eq!(buf, [1, 2, 3, 4, 5, 6]);
}

#[test]
fn stream_command_bytes() {
    let mut buf = [0u8; 12];
    assert_eq!(encode_stream_command(&mut buf, b'y', 50), 9);
    assert_eq!(&buf[..9], &frame(&[b'!', b'S', b'y', b'3', b'2'])[..]);
    assert_eq!(&buf[9..], &[0, 0, 0]);
}

#[test]
fn stream_command_roundtrip() {
    for rate in 0..=255u8 {
        let mut buf = [0u8; 9];
        encode_stream_command(&mut buf, b'q', rate);
        let mut c = StreamCommand::default();
        assert_eq!(decode_stream_command(&buf, 0, 9, &mut c), 9);
        assert_eq!(c.stream_type, b'q');
    }
    let mut buf = [0u8; 9];
    encode_stream_command(&mut buf, b'y', 50);
    let mut c = StreamCommand::default();
    assert_eq!(decode_stream_command(&buf, 0, 9, &mut c), 9);
    assert_eq!(c.stream_type, b'y');
}

#[test]
fn stream_command_rejects_short_or_foreign() {
    let mut buf = [0u8; 9];
    encode_stream_command(&mut buf, b'g', 4);
    let mut c = StreamCommand { stream_type: 7 };
    assert_eq!(decode_stream_command(&buf, 0, 8, &mut c), 0);
    buf[1] = b'T';
    assert_eq!(decode_stream_command(&buf, 0, 9, &mut c), 0);
    assert_eq!(c.stream_type, 7);
    let mut other = [b'?'; 1];
    assert_eq!(decode_stream_command(&mut other, 0, 9, &mut c), 0);
}

#[test]
fn data_get_request_bytes() {
    let mut buf = [0u8; 10];
    assert_eq!(encode_data_get_request(&mut buf, 2, 4), 10);
    assert_eq!(&buf[..], &frame(&[b'!', b'#', 8, b'D', 2, 4])[..]);
}

#[test]
fn integration_control_bytes() {
    let mut buf = [0u8; 13];
    let cmd = IntegrationControl { action: 0x80, parameter: 0x0102_0304 };
    assert_eq!(encode_integration_control_cmd(&mut buf, &cmd), 13);
    assert_eq!(&buf[..], &frame(&[b'!', b'#', 11, b'I', 0x80, 4, 3, 2, 1])[..]);
}

#[test]
fn integration_control_response_decodes() {
    let mut body = vec![b'!', b'#', 11, b'j', 0x07, 0x10, 0x20, 0x30, 0x00];
    let msg = frame(&body);
    let mut u = IntegrationControl::default();
    assert_eq!(decode_integration_control_response(&msg, 0, msg.len(), &mut u), 13);
    assert_eq!(u.action, 7);
    assert_eq!(u.parameter, u32::from_le_bytes([0x10, 0x20, 0x30, body[8]]));
    // The command id is not a response.
    let mut cmd = msg.clone();
    cmd[3] = b'I';
    let mut v = IntegrationControl::default();
    assert_eq!(decode_integration_control_response(&cmd, 0, cmd.len(), &mut v), 0);
    assert_eq!(v, IntegrationControl::default());
}

#[test]
fn data_set_response_decodes_at_offset() {
    let mut body = vec![b'!', b'#', 9, b'v', 1, 3, 0];
    let mut msg = vec![0xEE, 0xEE];
    msg.extend(frame(&body));
    let mut d = DataSetResponse::default();
    assert_eq!(decode_data_set_response(&msg, 2, msg.len() - 2, &mut d), 11);
    assert_eq!(d, DataSetResponse { data_type: 1, var_id: 3, status: body[6] });
    assert_eq!(decode_data_set_response(&msg, 2, 10, &mut d), 0);
}

#[test]
fn board_id_decodes() {
    let mut body = vec![b'!', b'#', 24, b'i', 50, 33, 3, 1, 0x34, 0x12];
    body.extend(1..=12u8);
    let msg = frame(&body);
    let mut id = BoardID::default();
    assert_eq!(decode_board_idget_response(&msg, 0, msg.len(), &mut id), 26);
    assert_eq!(id.ty, 50);
    assert_eq!(id.hw_rev, 33);
    assert_eq!(id.fw_ver_major, 3);
    assert_eq!(id.fw_ver_minor, 1);
    assert_eq!(id.fw_revision, 0x1234);
    assert_eq!(&id.unique_id[..11], &[1, 2, 3, 4, 5, 6, 7, 8, 9, 10, 11]);
    assert_eq!(id.unique_id[11], body[21]);
}

#[test]
fn board_id_bad_checksum_is_rejected() {
    let mut body = vec![b'!', b'#', 24, b'i', 50, 33, 3, 1, 0x34, 0x12];
    body.extend(1..=12u8);
    let mut msg = frame(&body);
    msg[5] ^= 1;
    let mut id = BoardID::default();
    assert_eq!(decode_board_idget_response(&msg, 0, msg.len(), &mut id), 0);
    assert_eq!(id, BoardID::default());
}

#[test]
fn tuning_var_roundtrip() {
    let mut buf = [0u8; 14];
    for value in 0..=255u32 {
        let r = TuningVar { action: 1, var_id: 2, value: 0x0001_0000 + value };
        assert_eq!(encode_tuning_var_set_request(&mut buf, &r), 14);
        let mut back = TuningVar::default();
        assert_eq!(decode_tuning_var_get_response(&buf, 0, 14, &mut back), 14);
        assert_eq!(back, r);
    }
}

#[test]
fn mag_cal_entries_are_four_bytes_apart() {
    let mut buf = [0u8; 55];
    let d = MagCalData {
        action: 1,
        mag_bias: [-1, 2, 3],
        mag_xform: [[0x11111111, 0x22222222, 0x33333333], [0x44444444, 0x55555555, 0x66666666], [
            0x77777777, 0x88888888, 0x99999999,
        ]],
        earth_mag_field_norm: 0xAABBCCDD,
    };
    assert_eq!(encode_mag_cal_data_set_request(&mut buf, &d), 55);
    assert_eq!(&buf[..5], &[b'!', b'#', 53, b'M', 1]);
    assert_eq!(&buf[5..7], &[0xFF, 0xFF]);
    assert_eq!(&buf[11..15], &[0x11; 4]);
    assert_eq!(&buf[15..19], &[0x22; 4]);
    assert_eq!(&buf[43..47], &[0x99; 4]);
    assert_eq!(&buf[47..51], &[0xDD, 0xCC, 0xBB, 0xAA]);
    assert_eq!(&buf[53..55], b"\r\n");
    let mut back = MagCalData::default();
    assert_eq!(decode_mag_cal_data_get_response(&buf, 0, 55, &mut back), 55);
    assert_eq!(back, d);
}

#[test]
fn mag_cal_response_decodes_entries() {
    let mut body = vec![b'!', b'#', 53, b'M', 9];
    body.extend((5..51).map(|i| i as u8));
    let msg = frame(&body);
    let mut d = MagCalData::default();
    assert_eq!(decode_mag_cal_data_get_response(&msg, 0, msg.len(), &mut d), 55);
    assert_eq!(d.action, 9);
    assert_eq!(d.mag_bias[0], i16::from_le_bytes([5, 6]));
    assert_eq!(d.mag_xform[0][1], u32::from_le_bytes([15, 16, 17, 18]));
    assert_eq!(d.mag_xform[2][2], u32::from_le_bytes([43, 44, 45, 46]));
    assert_eq!(d.earth_mag_field_norm, u32::from_le_bytes([47, 48, 49, 50]));
}

fn binary_message(len: u8, id: u8, fill_to: usize) -> Vec<u8> {
    let mut body = vec![b'!', b'#', len - 2, id];
    body.extend((4..fill_to).map(|i| i as u8));
    frame(&body)
}

#[test]
fn ahrs_update_decodes_with_swapped_pitch_and_roll() {
    let msg = binary_message(66, b'a', 62);
    let mut u = AHRSUpdate::default();
    assert_eq!(decode_ahrsupdate(&msg, 0, msg.len(), &mut u), 66);
    assert_eq!(u.base.yaw, ProtocolFloat::SignedHundredths(i16::from_le_bytes([4, 5])));
    assert_eq!(u.base.pitch, ProtocolFloat::SignedHundredths(i16::from_le_bytes([8, 9])));
    assert_eq!(u.base.roll, ProtocolFloat::SignedHundredths(i16::from_le_bytes([6, 7])));
    assert_eq!(u.base.compass_heading, ProtocolFloat::UnsignedHundredths(u16::from_le_bytes([10, 11])));
    assert_eq!(u.base.altitude, ProtocolFloat::Fixed1616(u32::from_le_bytes([12, 13, 14, 15])));
    assert_eq!(u.base.linear_accel_x, ProtocolFloat::Thousandths(u16::from_le_bytes([18, 19])));
    assert_eq!(u.cal_mag_x, i16::from_le_bytes([24, 25]));
    assert_eq!(u.base.quat_z, ProtocolFloat::QuaternionI16(i16::from_le_bytes([50, 51])));
    assert_eq!(u.base.op_status, 58);
    assert_eq!(u.base.selftest_status, msg[61]);
}

#[test]
fn ahrspos_update_keeps_pressure() {
    let msg = binary_message(66, b'p', 62);
    let mut u = AHRSPosUpdate::default();
    let mut base = AHRSUpdateBase::default();
    base.barometric_pressure = ProtocolFloat::Fixed1616(77);
    assert_eq!(decode_ahrspos_update(&msg, 0, msg.len(), &mut u, &mut base), 66);
    assert_eq!(base.barometric_pressure, ProtocolFloat::Fixed1616(77));
    assert_eq!(base.compass_heading, ProtocolFloat::UnsignedHundredths(u16::from_le_bytes([10, 11])));
    assert_eq!(u.vel_y, ProtocolFloat::Fixed1616(u32::from_le_bytes([28, 29, 30, 31])));
    assert_eq!(base.quat_w, ProtocolFloat::QuaternionI16(i16::from_le_bytes([48, 49])));
    assert_eq!(base.mpu_temp, ProtocolFloat::SignedHundredths(i16::from_le_bytes([56, 57])));
}

#[test]
fn ahrspos_ts_update_decodes_timestamp() {
    let msg = binary_message(94, b't', 90);
    let mut u = AHRSPosTSUpdate::default();
    let mut base = AHRSUpdateBase::default();
    assert_eq!(decode_ahrspos_tsupdate(&msg, 0, msg.len(), &mut u, &mut base), 94);
    assert_eq!(u.timestamp, u32::from_le_bytes([86, 87, 88, msg[89]]));
    assert_eq!(base.pitch, ProtocolFloat::Fixed1616(u32::from_le_bytes([12, 13, 14, 15])));
    assert_eq!(base.roll, ProtocolFloat::Fixed1616(u32::from_le_bytes([8, 9, 10, 11])));
    assert_eq!(base.quat_x, ProtocolFloat::QuaternionFixed1616(u32::from_le_bytes([68, 69, 70, 71])));
    assert_eq!(u.pos.disp_z, ProtocolFloat::Fixed1616(u32::from_le_bytes([60, 61, 62, 63])));
}

#[test]
fn ahrspos_ts_raw_update_decodes_raw_fields() {
    let msg = binary_message(114, b'u', 110);
    let mut u = AHRSPosTSRawUpdate::default();
    let mut base = AHRSUpdateBase::default();
    assert_eq!(decode_ahrspos_tsraw_update(&msg, 0, msg.len(), &mut u, &mut base), 114);
    assert_eq!(base.pitch, ProtocolFloat::Fixed1616(u32::from_le_bytes([8, 9, 10, 11])));
    assert_eq!(base.roll, ProtocolFloat::Fixed1616(u32::from_le_bytes([12, 13, 14, 15])));
    assert_eq!(u.raw_gyro_x, i16::from_le_bytes([90, 91]));
    assert_eq!(u.accel_z, i16::from_le_bytes([100, 101]));
    assert_eq!(u.delta_t_sec, ProtocolFloat::Fixed1616(u32::from_le_bytes([104, 105, 106, 107])));
    assert!(u.gyro_bias_updated);
    assert_eq!(u.pos.timestamp, u32::from_le_bytes([86, 87, 88, 89]));
}

#[test]
fn ahrs_update_wrong_length_byte_is_rejected() {
    let mut msg = binary_message(66, b'a', 62);
    msg[2] = 65;
    let mut u = AHRSUpdate::default();
    assert_eq!(decode_ahrsupdate(&msg, 0, msg.len(), &mut u), 0);
    assert_eq!(u, AHRSUpdate::default());
}

fn ascii_message(id: u8, fill: &[u8], ck: usize, adjust: usize) -> Vec<u8> {
    let mut body = vec![b'!', id];
    body.extend_from_slice(fill);
    assert_eq!(body.len(), ck);
    frame(&body)
}

#[test]
fn ypr_update_keeps_text() {
    let text = b" 012.34-005.00 180.00 090.00";
    let msg = ascii_message(b'y', text, 30, 2);
    let mut u = YPRUpdate::default();
    assert_eq!(decode_yprupdate(&msg, 0, msg.len(), &mut u), 34);
    match u.pitch {
        ProtocolFloat::Text(t) => assert_eq!(&t, &msg[9..16]),
        _ => panic!("expected text"),
    }
    match u.compass_heading {
        ProtocolFloat::Text(t) => assert_eq!(&t, &msg[23..30]),
        _ => panic!("expected text"),
    }
}

#[test]
fn quaternion_update_decodes_hex_fields() {
    let mut fill = b"00010002000300040005000600070008000900 ".to_vec();
    fill.extend_from_slice(b"25.00");
    fill.truncate(47);
    while fill.len() < 47 {
        fill.push(b'0');
    }
    let msg = ascii_message(b'q', &fill, 49, 47);
    let mut u = QuaternionUpdate::default();
    assert_eq!(decode_quaternion_update(&msg, 0, msg.len(), &mut u), 53);
    assert_eq!(u.q1, 1);
    assert_eq!(u.q4, 4);
    assert_eq!(u.mag_y, 9);
}

#[test]
fn stream_response_decodes() {
    let mut fill = Vec::new();
    fill.push(b'y');
    fill.extend_from_slice(b"07D0"); // gyro 2000
    fill.extend_from_slice(b"0002");
    fill.extend_from_slice(b"0032");
    fill.extend_from_slice(b"0000.00");
    fill.extend_from_slice(b"0001000200030004");
    fill.extend_from_slice(b"0140");
    let msg = ascii_message(b's', &fill, 42, 41);
    let mut r = StreamResponse::default();
    assert_eq!(decode_stream_response(&msg, 0, msg.len(), &mut r), 46);
    assert_eq!(r.stream_type, b'y');
    assert_eq!(r.gyro_fsr_dps, 2000);
    assert_eq!(r.accel_fsr_g, 2);
    assert_eq!(r.update_rate_hz, 50);
    assert_eq!(r.q3_offset, 3);
}
