use rustation_ng::debugger::gdb::{
    ascii_hex, decode_hex_string, decode_request, examine_word, frame_reply, next_packet, parse_addr_len,
    parse_breakpoint, parse_hex, read_plan, FrameState, GdbRequest, MemoryRead, PacketParser,
    PacketResult, WordSource, WriteOutcome,
};

fn reply_of(r: Result<GdbRequest, ()>) -> Vec<u8> {
    match r {
        Ok(GdbRequest::Reply(v)) => v,
        _ => panic!("not a plain reply"),
    }
}

#[test]
fn hex_digits_and_numbers() {
    assert_eq!(ascii_hex(b'0'), Some(0));
    assert_eq!(ascii_hex(b'9'), Some(9));
    assert_eq!(ascii_hex(b'a'), Some(10));
    assert_eq!(ascii_hex(b'f'), Some(15));
    assert_eq!(ascii_hex(b'g'), None);
    assert_eq!(ascii_hex(b'A'), None);
    assert_eq!(ascii_hex(b'F'), None);
    assert_eq!(parse_hex(b"80010000"), Ok(0x80010000));
    assert_eq!(parse_hex(b""), Ok(0));
    assert_eq!(parse_hex(b"123456789"), Ok(0x23456789));
    assert_eq!(parse_hex(b"12x4"), Err(()));
}

#[test]
fn address_length_and_breakpoint_fields() {
    assert_eq!(parse_addr_len(b"80010000,10"), Ok((0x80010000, 0x10)));
    assert_eq!(parse_addr_len(b"8001,"), Err(()));
    assert_eq!(parse_addr_len(b",4"), Err(()));
    assert_eq!(parse_addr_len(b"1,2,3"), Err(()));
    assert_eq!(parse_addr_len(b"12"), Err(()));
    assert_eq!(parse_breakpoint(b"0,80010000,4"), Ok((b'0', 0x80010000, b'4')));
    assert_eq!(parse_breakpoint(b"00,1,4"), Err(()));
    assert_eq!(parse_breakpoint(b"0,1,44"), Err(()));
    assert_eq!(parse_breakpoint(b"0,1"), Err(()));
}

#[test]
fn packets_are_framed_and_checksummed() {
    // "g" has checksum 0x67.
    let (r, used) = next_packet(b"+$g#67rest");
    assert!(matches!(r, PacketResult::Received(ref p) if p == b"g"));
    assert_eq!(used, 6);
    let (r, used) = next_packet(b"$g#68");
    assert!(matches!(r, PacketResult::BadChecksum(ref p) if p == b"g"));
    assert_eq!(used, 5);
    let (r, _) = next_packet(b"$m0,4#x0");
    assert!(matches!(r, PacketResult::BadChecksum(_)));
    let (r, used) = next_packet(b"$m0,4");
    assert!(matches!(r, PacketResult::EndOfStream));
    assert_eq!(used, 5);
    let mut parser = PacketParser::new();
    assert!(parser.feed(b'x').is_none());
    assert_eq!(parser.state, FrameState::WaitForStart);
    assert!(parser.feed(b'$').is_none());
    assert_eq!(parser.state, FrameState::InPacket);
}

#[test]
fn requests_decode_to_actions() {
    assert_eq!(reply_of(decode_request(b"?")), b"S00");
    assert!(matches!(decode_request(b"m80010000,8"), Ok(GdbRequest::ReadMemory { addr: 0x80010000, len: 8 })));
    assert!(matches!(decode_request(b"m80010000,0"), Ok(GdbRequest::Error)));
    assert!(decode_request(b"m80010000").is_err());
    assert!(matches!(decode_request(b"g"), Ok(GdbRequest::ReadRegisters)));
    assert!(matches!(decode_request(b"c"), Ok(GdbRequest::Resume { addr: None })));
    assert!(matches!(decode_request(b"c80010000"), Ok(GdbRequest::Resume { addr: Some(0x80010000) })));
    assert!(decode_request(b"cxyz").is_err());
    assert!(matches!(decode_request(b"s"), Ok(GdbRequest::Step { addr: None })));
    assert!(matches!(decode_request(b"sxyz"), Ok(GdbRequest::StepWithBadAddress)));
    assert!(matches!(decode_request(b"Z0,80010000,4"), Ok(GdbRequest::AddBreakpoint { btype: b'0', addr: 0x80010000 })));
    assert!(matches!(decode_request(b"Z0,80010000,2"), Ok(GdbRequest::Error)));
    assert!(matches!(decode_request(b"Z0,80010000,4;cmd"), Ok(GdbRequest::Error)));
    assert_eq!(reply_of(decode_request(b"Z1,80010000,4")), b"");
    assert!(matches!(decode_request(b"z3,10,4"), Ok(GdbRequest::DelBreakpoint { btype: b'3', addr: 0x10 })));
    assert!(matches!(decode_request(b"P1f=deadbeef"), Ok(GdbRequest::WriteRegister { reg: 31, value: 0xdeadbeef })));
    assert_eq!(reply_of(decode_request(b"P0=1")), b"OK");
    assert!(matches!(decode_request(b"P26=1"), Ok(GdbRequest::Error)));
    assert!(decode_request(b"P1").is_err());
    assert!(matches!(decode_request(b"D"), Ok(GdbRequest::Detach)));
    assert_eq!(reply_of(decode_request(b"k")), b"OK");
    assert_eq!(reply_of(decode_request(b"Hg0")), b"OK");
    assert_eq!(reply_of(decode_request(b"X")), b"");
}

#[test]
fn queries_and_v_packets() {
    assert!(reply_of(decode_request(b"qSupported:xmlRegisters=i386")).starts_with(b"PacketSize=1000;"));
    assert_eq!(reply_of(decode_request(b"qAttached")), b"1");
    assert_eq!(reply_of(decode_request(b"qfThreadInfo")), b"m1");
    assert_eq!(reply_of(decode_request(b"qsThreadInfo")), b"l");
    assert_eq!(reply_of(decode_request(b"qThreadExtraInfo,1")), b"PSX Main CPU");
    assert_eq!(reply_of(decode_request(b"qOffsets")), b"Text=0;Data=0;Bss=0");
    assert_eq!(reply_of(decode_request(b"qSymbol::")), b"OK");
    assert_eq!(reply_of(decode_request(b"qSymbol:1234:6d61696e")), b"OK");
    assert!(decode_request(b"qSymbol:1234:6d6").is_err());
    assert!(decode_request(b"qSymbol:1234:ff").is_err());
    assert_eq!(reply_of(decode_request(b"qC")), b"");
    assert_eq!(reply_of(decode_request(b"QStartNoAckMode")), b"OK");
    assert_eq!(reply_of(decode_request(b"vCont?")), b"vCont;c;s;C;S");
    assert!(matches!(decode_request(b"vCont;c"), Ok(GdbRequest::Resume { addr: None })));
    assert!(matches!(decode_request(b"vCont;s:1"), Ok(GdbRequest::Step { addr: None })));
    assert!(matches!(decode_request(b"vCont;t"), Ok(GdbRequest::Error)));
    assert_eq!(reply_of(decode_request(b"vKill;1")), b"OK");
    assert_eq!(decode_hex_string(b"6869").unwrap(), "hi");
    assert!(decode_hex_string(b"686").is_err());
}

#[test]
fn memory_and_register_writes() {
    match decode_request(b"M80010000,3:0a0b0c").unwrap() {
        GdbRequest::WriteMemory { addr, data, outcome } => {
            assert_eq!(addr, 0x80010000);
            assert_eq!(data, vec![0x0a, 0x0b, 0x0c]);
            assert_eq!(outcome, WriteOutcome::Complete);
        }
        _ => panic!(),
    }
    match decode_request(b"M0,3:0a0b").unwrap() {
        GdbRequest::WriteMemory { data, outcome, .. } => {
            assert_eq!(data, vec![0x0a, 0x0b]);
            assert_eq!(outcome, WriteOutcome::Short);
        }
        _ => panic!(),
    }
    match decode_request(b"M0,3:0azz0c").unwrap() {
        GdbRequest::WriteMemory { data, outcome, .. } => {
            assert_eq!(data, vec![0x0a]);
            assert_eq!(outcome, WriteOutcome::BadHex);
        }
        _ => panic!(),
    }
    assert!(decode_request(b"M0,3").is_err());
    let mut regs = String::new();
    for i in 0..38u32 {
        regs.push_str(&format!("{:08x}", i));
    }
    match decode_request(format!("G{}", regs).as_bytes()).unwrap() {
        GdbRequest::WriteRegisters { gprs, special } => {
            assert_eq!(gprs.len(), 31);
            assert_eq!(gprs[0], 1);
            assert_eq!(gprs[30], 31);
            assert_eq!(special, Some(vec![32, 33, 34, 35, 36, 37]));
        }
        _ => panic!(),
    }
    let mut bad = regs.clone().into_bytes();
    bad[8 * 3] = b'x';
    match decode_request(&[b"G".as_slice(), bad.as_slice()].concat()).unwrap() {
        GdbRequest::WriteRegisters { gprs, special } => {
            assert_eq!(gprs, vec![1, 2]);
            assert_eq!(special, None);
        }
        _ => panic!(),
    }
    assert!(matches!(decode_request(b"G0000"), Ok(GdbRequest::Error)));
}

#[test]
fn read_plans_align_to_words() {
    assert_eq!(read_plan(0x1000, 8), vec![MemoryRead::Word(0x1000), MemoryRead::Word(0x1004)]);
    assert_eq!(read_plan(0x1001, 8), vec![MemoryRead::Byte(0x1001), MemoryRead::Byte(0x1002), MemoryRead::Byte(0x1003), MemoryRead::Word(0x1004), MemoryRead::Byte(0x1008)]);
    assert_eq!(read_plan(0x1002, 1), vec![MemoryRead::Byte(0x1002)]);
    assert_eq!(read_plan(0x1002, 4), vec![MemoryRead::Half(0x1002), MemoryRead::Half(0x1004)]);
    assert_eq!(read_plan(0x1003, 2), vec![MemoryRead::Byte(0x1003), MemoryRead::Byte(0x1004)]);
    assert_eq!(read_plan(0x1000, 7), vec![MemoryRead::Word(0x1000), MemoryRead::Byte(0x1004), MemoryRead::Byte(0x1005), MemoryRead::Byte(0x1006)]);
    assert_eq!(examine_word(0xbad00004), WordSource::Cop0(1));
    assert_eq!(examine_word(0xbad00080), WordSource::Constant(0x0bad0bad));
    assert_eq!(examine_word(0x80000000), WordSource::Memory(0x80000000));
}

#[test]
fn framed_replies_parse_back() {
    assert_eq!(frame_reply(b"OK"), b"$OK#9a".to_vec());
    assert_eq!(frame_reply(b""), b"$#00".to_vec());
    assert_eq!(frame_reply(b"S05"), b"$S05#b8".to_vec());
    for payload in [&b"qSupported"[..], b"m80010000,4", b"12345678"] {
        let framed = frame_reply(payload);
        match next_packet(&framed) {
            (PacketResult::Received(p), n) => {
                assert_eq!(p, payload.to_vec());
                assert_eq!(n, framed.len());
            }
            _ => panic!("a framed reply must parse back"),
        }
    }
}

#[test]
fn supported_query_with_uppercase_features() {
    let p = b"qSupported:multiprocess+;swbreak+;hwbreak+;qRelocInsn+;fork-events+;vfork-events+;exec-events+;vContSupported+;QThreadEvents+;no-resumed+";
    assert_eq!(
        reply_of(decode_request(p)),
        b"PacketSize=1000;qXfer:features:read+;qXfer:threads:read+;QStartNoAckMode+;multiprocess+;swbreak+;hwbreak+".to_vec()
    );
    assert_eq!(reply_of(decode_request(b"qC")), Vec::<u8>::new());
}

#[test]
fn packets_with_uppercase_letters_in_the_payload() {
    let (r, used) = next_packet(b"$D#44");
    assert!(matches!(r, PacketResult::Received(ref p) if p == b"D"));
    assert_eq!(used, 5);
    let (r, used) = next_packet(b"$qAttached#8f+");
    assert!(matches!(r, PacketResult::Received(ref p) if p == b"qAttached"));
    assert_eq!(used, 13);
    let (r, _) = next_packet(b"$vCont?#49");
    assert!(matches!(r, PacketResult::Received(ref p) if p == b"vCont?"));
}

#[test]
fn uppercase_hex_is_not_a_digit() {
    // An uppercase checksum digit is a bad checksum, not a crash.
    let (r, used) = next_packet(b"$g#6A");
    assert!(matches!(r, PacketResult::BadChecksum(ref p) if p == b"g"));
    assert_eq!(used, 5);
    assert!(parse_addr_len(b"1F,4").is_err());
    assert!(decode_hex_string(b"4A").is_err());
}
