use digimesh::{
    decode_frame, encode_frame, local_command, parse_remote_device, remaining_after_header, ApiError, AtCommand,
    AtCommandFrame, AtCommandResponse, DigiMeshDevice, Error, FrameId, IdentityField, ModeStep, Response,
    ResponseKind, ScheduledScan, DEFAULT_TIMEOUT_MS,
};

fn at_reply(command: &[u8; 2], data: &[u8]) -> Response {
    Response::AtCommand(AtCommandResponse {
        frame_id: 1,
        command: *command,
        status: 0,
        command_data: if data.is_empty() { None } else { Some(data.to_vec()) },
    })
}

fn reply_frame(command: &[u8; 2], data: &[u8]) -> Vec<u8> {
    let mut body = vec![0x88, 0x01, command[0], command[1], 0x00];
    body.extend_from_slice(data);
    encode_frame(&body)
}

fn discovery_payload(addr: u64, name: &[u8]) -> Vec<u8> {
    let mut p = vec![0xFF, 0xFE];
    p.extend_from_slice(&addr.to_be_bytes());
    p.extend_from_slice(name);
    p.push(0);
    p
}

fn response_with(data: Vec<u8>) -> AtCommandResponse {
    AtCommandResponse { frame_id: 1, command: *b"ND", status: 0, command_data: Some(data) }
}

#[test]
fn encodes_node_id_request() {
    let frame = local_command(b'N', b'I').gen().unwrap();
    assert_eq!(frame, vec![0x7E, 0x00, 0x04, 0x08, 0x01, 0x4E, 0x49, 0x5F]);
}

#[test]
fn encodes_parameter() {
    let f = AtCommandFrame { command: *b"NI", parameter: Some(vec![0x41]) };
    let frame = f.gen().unwrap();
    assert_eq!(frame, vec![0x7E, 0x00, 0x05, 0x08, 0x01, 0x4E, 0x49, 0x41, 0x1E]);
}

#[test]
fn rejects_oversized_request() {
    let f = AtCommandFrame { command: *b"NI", parameter: Some(vec![0; 70000]) };
    assert_eq!(f.gen().unwrap_err(), ApiError::TooLong);
}

#[test]
fn decodes_what_it_encodes() {
    let data = vec![0x88, 0x01, b'V', b'R', 0x00, 0x10, 0x0A];
    let raw = encode_frame(&data);
    assert_eq!(decode_frame(&raw).unwrap(), data);
    assert_eq!(remaining_after_header(&raw[..3]), Some(data.len() + 1));
    assert_eq!(remaining_after_header(&[0x00, 0x00, 0x01]), None);
}

#[test]
fn frame_errors() {
    assert_eq!(decode_frame(&vec![0x7D, 0, 0, 0xFF]).unwrap_err(), ApiError::BadDelimiter);
    assert_eq!(decode_frame(&vec![0x7E, 0, 5, 0xFF]).unwrap_err(), ApiError::BadLength);
    assert_eq!(decode_frame(&vec![0x7E, 0, 1, 0x08, 0x00]).unwrap_err(), ApiError::BadChecksum);
    assert_eq!(decode_frame(&vec![0x7E, 0, 1, 0x08, 0xF7]).unwrap(), vec![0x08]);
}

#[test]
fn address_is_high_then_low() {
    let mut dev = DigiMeshDevice::new();
    let sh = at_reply(b"SH", &[0x00, 0x13, 0xA2, 0x00]);
    let sl = at_reply(b"SL", &[0x41, 0x5A, 0x2B, 0x3C]);
    assert_eq!(dev.resolve_64bit_addr(&sh, &sl).unwrap(), 0x0013A200415A2B3C);
    assert_eq!(dev.get_64bit_addr(), Some(0x0013A200415A2B3C));
}

#[test]
fn address_half_of_wrong_width() {
    let mut dev = DigiMeshDevice::new();
    let sh = at_reply(b"SH", &[0x00, 0x13, 0xA2]);
    let sl = at_reply(b"SL", &[0x41, 0x5A, 0x2B, 0x3C]);
    assert_eq!(dev.resolve_64bit_addr(&sh, &sl).unwrap_err(), Error::DecodeError);
    assert_eq!(dev.get_64bit_addr(), None);
}

#[test]
fn identity_is_fetched_once() {
    let mut dev = DigiMeshDevice::new();
    let needed = dev.identity_requests(IdentityField::FirmwareVersion);
    assert_eq!(needed.len(), 1);
    assert_eq!(needed[0].command, *b"VR");
    let v = dev.resolve_firmware_version(&at_reply(b"VR", &[0x30, 0x0A])).unwrap();
    assert_eq!(v, 0x300A);
    assert!(dev.identity_requests(IdentityField::FirmwareVersion).is_empty());
    let again = dev.resolve_firmware_version(&Response::Null).unwrap();
    assert_eq!(again, v);
    assert_eq!(dev.get_firmware_version(), Some(0x300A));
}

#[test]
fn address_needs_two_commands() {
    let dev = DigiMeshDevice::new();
    let needed = dev.identity_requests(IdentityField::Address);
    assert_eq!(needed.len(), 2);
    assert_eq!(needed[0].command, *b"SH");
    assert_eq!(needed[1].command, *b"SL");
    assert_eq!(dev.identity_requests(IdentityField::HardwareVersion)[0].command, *b"HV");
    assert_eq!(dev.identity_requests(IdentityField::NodeId)[0].command, *b"NI");
}

#[test]
fn hardware_version_shape_errors() {
    let mut dev = DigiMeshDevice::new();
    assert_eq!(dev.resolve_hardware_version(&Response::Null).unwrap_err(), Error::ApiError(ApiError::DerefError));
    assert_eq!(dev.resolve_hardware_version(&at_reply(b"HV", &[])).unwrap_err(), Error::DecodeError);
    assert_eq!(dev.resolve_hardware_version(&at_reply(b"HV", &[1, 2, 3])).unwrap_err(), Error::DecodeError);
    assert_eq!(dev.get_hardware_version(), None);
    assert_eq!(dev.resolve_hardware_version(&at_reply(b"HV", &[0x1E, 0x46])).unwrap(), 0x1E46);
}

#[test]
fn node_name_is_utf8() {
    let mut dev = DigiMeshDevice::new();
    assert_eq!(dev.resolve_node_id(&at_reply(b"NI", &[0xC3, 0x28])).unwrap_err(), Error::DecodeError);
    assert_eq!(dev.get_node_id(), None);
    assert_eq!(dev.resolve_node_id(&at_reply(b"NI", b"Gateway")).unwrap(), "Gateway");
    assert_eq!(dev.resolve_node_id(&Response::Null).unwrap(), "Gateway");
    assert_eq!(dev.get_node_id(), Some("Gateway".to_string()));
}

#[test]
fn parser_rejects_short_payload() {
    assert!(parse_remote_device(&response_with(vec![0; 9])).is_none());
    let none = AtCommandResponse { frame_id: 1, command: *b"ND", status: 0, command_data: None };
    assert!(parse_remote_device(&none).is_none());
}

#[test]
fn parser_rejects_bad_utf8() {
    let p = discovery_payload(0x0013A20041AABBCC, &[0xFF, 0xFE, 0x41]);
    assert!(parse_remote_device(&response_with(p)).is_none());
}

#[test]
fn parser_round_trip() {
    let p = discovery_payload(0x0013A20041AABBCC, b"Node1");
    let d = parse_remote_device(&response_with(p)).unwrap();
    assert_eq!(d.addr_64bit, 0x0013A20041AABBCC);
    assert_eq!(d.node_id, "Node1");
    assert_eq!(d.firmware_version, None);
    assert_eq!(d.hardware_version, None);
    assert!(d.durations.is_empty());
}

#[test]
fn parser_name_to_end_and_empty() {
    let mut p = vec![0, 0];
    p.extend_from_slice(&7u64.to_be_bytes());
    p.extend_from_slice(b"AB");
    assert_eq!(parse_remote_device(&response_with(p)).unwrap().node_id, "AB");
    let mut q = vec![0, 0];
    q.extend_from_slice(&7u64.to_be_bytes());
    let d = parse_remote_device(&response_with(q)).unwrap();
    assert_eq!(d.addr_64bit, 7);
    assert_eq!(d.node_id, "");
}

fn nd_frame(addr: u64, name: &[u8]) -> Vec<u8> {
    reply_frame(b"ND", &discovery_payload(addr, name))
}

#[test]
fn scheduled_merge() {
    let mut dev = DigiMeshDevice::new();
    let mut scan: ScheduledScan = dev.scheduled_discover_nodes(0, 20_000);
    assert!(scan.cycle_due(0));
    scan.begin_cycle(&mut dev, 100);
    assert_eq!(dev.timeout_ms, 5000);
    assert!(scan.on_frame(Ok(nd_frame(0xA1, b"one")), 300));
    assert!(scan.on_frame(Ok(nd_frame(0xB2, b"two")), 400));
    assert!(!scan.on_frame(Err(Error::IOError("timed out".to_string())), 5400));
    scan.begin_cycle(&mut dev, 6400);
    assert!(scan.on_frame(Ok(nd_frame(0xA1, b"one")), 6500));
    assert!(!scan.on_frame(Ok(vec![0x7E, 0, 0]), 6600));
    assert!(scan.cycle_due(19_999));
    assert!(!scan.cycle_due(20_000));
    let nodes = scan.finish().unwrap();
    assert_eq!(nodes.len(), 2);
    assert_eq!(nodes[0].addr_64bit, 0xA1);
    assert_eq!(nodes[0].durations, vec![(100, 300), (6400, 6500)]);
    assert_eq!(nodes[1].addr_64bit, 0xB2);
    assert_eq!(nodes[1].node_id, "two");
    assert_eq!(nodes[1].durations, vec![(100, 400)]);
}

#[test]
fn scheduled_exhaustion() {
    let mut dev = DigiMeshDevice::new();
    let mut scan = dev.scheduled_discover_nodes(1000, 3000);
    let mut now = 1000;
    while scan.cycle_due(now) {
        scan.begin_cycle(&mut dev, now);
        assert!(scan.on_frame(Ok(reply_frame(b"ND", &[1, 2, 3])), now + 10));
        assert!(!scan.on_frame(Err(Error::IOError("timed out".to_string())), now + 5000));
        now += 6000;
    }
    assert!(scan.nodes.is_empty());
    assert_eq!(scan.finish().unwrap_err(), Error::DiscoveryError);
}

#[test]
fn one_shot_keeps_duplicates() {
    let mut dev = DigiMeshDevice::new();
    let mut d = dev.discover_nodes(None);
    assert_eq!(dev.timeout_ms, 15000);
    assert!(d.on_frame(Ok(nd_frame(5, b"x"))));
    assert!(d.on_frame(Ok(nd_frame(5, b"x"))));
    assert!(!d.on_frame(Err(Error::IOError("timed out".to_string()))));
    let nodes = dev.finish_discovery(d);
    assert_eq!(nodes.len(), 2);
    assert_eq!(dev.timeout_ms, DEFAULT_TIMEOUT_MS);
    let d2 = dev.discover_nodes(Some(5000));
    assert_eq!(dev.timeout_ms, 5000);
    assert_eq!(d2.packet, vec![0x7E, 0x00, 0x04, 0x08, 0x01, 0x4E, 0x44, 0x64]);
    dev.finish_discovery(d2);
    assert_eq!(dev.timeout_ms, DEFAULT_TIMEOUT_MS);
}

#[test]
fn exchange_restores_timeout() {
    for id in [FrameId::AtCommand, FrameId::RemoteAtCommand, FrameId::TransmitRequest, FrameId::Other] {
        let mut dev = DigiMeshDevice::new();
        dev.timeout_ms = 7777;
        let p = dev.begin_exchange(id, vec![1, 2, 3]);
        let during = match id {
            FrameId::AtCommand => 100,
            FrameId::RemoteAtCommand => 3000,
            _ => 7777,
        };
        assert_eq!(dev.timeout_ms, during);
        let r = dev.finish_exchange(p, Err(Error::IOError("timed out".to_string())));
        assert!(r.is_err());
        assert_eq!(dev.timeout_ms, 7777);
        let p = dev.begin_exchange(id, vec![1, 2, 3]);
        let _ = dev.finish_exchange(p, Ok(reply_frame(b"VR", &[0x10, 0x0A])));
        assert_eq!(dev.timeout_ms, 7777);
    }
}

#[test]
fn send_frame_round_trip() {
    let mut dev = DigiMeshDevice::new();
    let p = dev.send_frame(&local_command(b'V', b'R')).unwrap();
    assert_eq!(p.expect, ResponseKind::AtCommandResponse);
    assert_eq!(p.packet, vec![0x7E, 0x00, 0x04, 0x08, 0x01, 0x56, 0x52, 0x4E]);
    assert_eq!(dev.timeout_ms, 100);
    let resp = dev.finish_exchange(p, Ok(reply_frame(b"VR", &[0x10, 0x0A]))).unwrap();
    assert_eq!(dev.timeout_ms, DEFAULT_TIMEOUT_MS);
    assert_eq!(dev.resolve_firmware_version(&resp).unwrap(), 0x100A);
}

#[test]
fn finish_exchange_shape_mismatch() {
    let mut dev = DigiMeshDevice::new();
    let p = dev.begin_exchange(FrameId::RemoteAtCommand, vec![]);
    let r = dev.finish_exchange(p, Ok(reply_frame(b"VR", &[1])));
    assert_eq!(r.unwrap_err(), Error::ApiError(ApiError::DerefError));
    let p = dev.begin_exchange(FrameId::TransmitRequest, vec![]);
    let r = dev.finish_exchange(p, Ok(encode_frame(&vec![0x8B, 1, 0xFF, 0xFE, 0, 0, 0])));
    assert!(matches!(r, Ok(Response::TransmitStatus(_))));
    let p = dev.begin_exchange(FrameId::Other, vec![]);
    let r = dev.finish_exchange(p, Ok(vec![0x7E, 0, 0, 0x11]));
    assert_eq!(r.unwrap_err(), Error::ApiError(ApiError::BadChecksum));
}

#[test]
fn text_command_bytes() {
    let mut dev = DigiMeshDevice::new();
    let cmd = AtCommand { command: b"NI".to_vec(), parameter: Some(b"X".to_vec()), rcr_len: 2 };
    assert_eq!(dev.atcmd(&cmd), b"ATNIX\r".to_vec());
    assert!(!dev.atcmd_done());
    for b in b"OK\rAB" {
        dev.atcmd_receive(*b);
        assert!(!dev.atcmd_done());
    }
    dev.atcmd_receive(b'\r');
    assert!(dev.atcmd_done());
    assert_eq!(dev.atcmd_finish().unwrap(), b"OK\rAB\r".to_vec());
    assert_eq!(dev.atcmd(&AtCommand::escape()), b"+++".to_vec());
    assert!(matches!(dev.atcmd_finish(), Err(Error::IOError(_))));
    assert_eq!(dev.atcmd(&AtCommand::exit_command_mode()), b"ATCN\r".to_vec());
}

#[test]
fn mode_entry_timing() {
    let dev = DigiMeshDevice::new();
    let steps = dev.command_mode(true);
    assert_eq!(steps.len(), 3);
    assert!(matches!(steps[0], ModeStep::Pause(t) if t >= 1000));
    match &steps[1] {
        ModeStep::Command(c) => assert_eq!(c.command, b"+++".to_vec()),
        _ => panic!("expected the escape sequence"),
    }
    assert!(matches!(steps[2], ModeStep::Pause(t) if t >= 1000));
    let leave = dev.command_mode(false);
    assert_eq!(leave.len(), 1);
    match &leave[0] {
        ModeStep::Command(c) => assert_eq!(c.command, b"CN".to_vec()),
        _ => panic!("expected the exit command"),
    }
}

#[test]
fn error_messages() {
    assert_eq!(Error::DiscoveryError.message(), "Could not complete discovery mode");
    assert_eq!(Error::ApiError(ApiError::DerefError).message(), "unexpected response frame type");
}
