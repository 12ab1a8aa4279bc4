use platform2::format::{
    validate_input_formats, validate_output_formats, Capabilities, Error as FormatError,
    FramePlane, InputFormat, PixelFormat, Profile, RawInputFormat, VdaImplType,
};
use platform2::token::Token;
use platform2::trace_events::{Label, Point, Scope};
use platform2::util::{
    dev_commands_included, set_dev_commands_included, set_usb_commands_included,
    usb_commands_included, CommandSets,
};
use platform2::vmc::{trim_routine, VmFeatures};
use platform2::vsock::{
    AddrParseError, SocketAddr, ToSocketAddr, VMADDR_CID_ANY, VMADDR_PORT_ANY,
};

#[test]
fn vsock_address_parses() {
    assert_eq!(
        SocketAddr::parse("vsock:3:5000"),
        Ok(SocketAddr { cid: 3, port: 5000 })
    );
    assert_eq!(
        SocketAddr::parse("vsock:4294967295:0"),
        Ok(SocketAddr {
            cid: 4294967295,
            port: 0
        })
    );
    assert_eq!(
        SocketAddr::parse("vsock:+7:007"),
        Ok(SocketAddr { cid: 7, port: 7 })
    );
    assert_eq!(
        "vsock:3:5000".to_socket_addr(),
        Ok(SocketAddr { cid: 3, port: 5000 })
    );
    let addr = SocketAddr { cid: 1, port: 2 };
    assert_eq!(addr.to_socket_addr(), Ok(addr));
}

#[test]
fn vsock_address_rejects() {
    for text in [
        "",
        "vsock",
        "vsock:",
        "vsock::",
        "vsock:1",
        "vsock:1:",
        "vsock::1",
        "vsock:1:2:3",
        "tcp:1:2",
        "Vsock:1:2",
        "vsock:4294967296:1",
        "vsock:1:99999999999999999999",
        "vsock:-1:2",
        "vsock:1: 2",
        "vsock:+:2",
        "vsock:1:2 ",
        "1:2",
        "vsock:\u{661}:2",
    ] {
        assert_eq!(SocketAddr::parse(text), Err(AddrParseError), "{}", text);
    }
    assert_eq!(
        AddrParseError.message(),
        "failed to parse vsock address"
    );
}

#[test]
fn vsock_address_text_roundtrip() {
    assert_eq!(VMADDR_CID_ANY, u32::MAX);
    assert_eq!(VMADDR_PORT_ANY, u32::MAX);
    for addr in [
        SocketAddr { cid: 0, port: 0 },
        SocketAddr { cid: 3, port: 5000 },
        SocketAddr {
            cid: 1234567890,
            port: 10,
        },
        SocketAddr {
            cid: VMADDR_CID_ANY,
            port: VMADDR_PORT_ANY,
        },
    ] {
        let text = addr.to_text();
        assert_eq!(SocketAddr::parse(&text), Ok(addr));
        assert_eq!(text.parse::<SocketAddr>(), Ok(addr));
        assert_eq!(text, format!("vsock:{}:{}", addr.cid, addr.port));
    }
    assert_eq!(SocketAddr { cid: 3, port: 5000 }.to_text(), "vsock:3:5000");
    assert_eq!(
        SocketAddr {
            cid: 4294967295,
            port: 100
        }
        .to_text(),
        "vsock:4294967295:100"
    );
}

#[test]
fn tokens_pack_and_unpack() {
    assert_eq!(Token::UpdatePorts.as_raw_token(), 0);
    assert_eq!(Token::Ipv4Listener(8080).as_raw_token(), 8080 * 8 + 1);
    assert_eq!(Token::Ipv6Listener(8080).as_raw_token(), 8080 * 8 + 2);
    assert_eq!(Token::LocalSocket(5).as_raw_token(), 43);
    assert_eq!(Token::RemoteSocket(5).as_raw_token(), 44);
    for token in [
        Token::UpdatePorts,
        Token::Ipv4Listener(0),
        Token::Ipv4Listener(65535),
        Token::Ipv6Listener(1024),
        Token::LocalSocket(0),
        Token::LocalSocket(u32::MAX),
        Token::RemoteSocket(77),
    ] {
        assert_eq!(Token::from_raw_token(token.as_raw_token()), Some(token));
    }
}

#[test]
fn raw_words_that_are_no_token() {
    assert_eq!(Token::from_raw_token(8), None);
    assert_eq!(Token::from_raw_token(5), None);
    assert_eq!(Token::from_raw_token(7), None);
    assert_eq!(Token::from_raw_token(65536 * 8 + 1), None);
    assert_eq!(Token::from_raw_token((1u64 << 32) * 8 + 3), None);
    assert_eq!(Token::from_raw_token(u64::MAX), None);
}

#[test]
fn profiles_and_pixel_formats() {
    assert_eq!(Profile::VP8.to_raw_profile(), 11);
    assert_eq!(Profile::VP9Profile0.to_raw_profile(), 12);
    assert_eq!(Profile::H264.to_raw_profile(), 1);
    assert_eq!(Profile::n(11), Some(Profile::VP8));
    assert_eq!(Profile::n(12), Some(Profile::VP9Profile0));
    assert_eq!(Profile::n(1), Some(Profile::H264));
    assert_eq!(Profile::n(0), None);
    assert_eq!(Profile::n(-1), None);
    assert_eq!(PixelFormat::YV12.to_raw_pixel_format(), 0);
    assert_eq!(PixelFormat::NV12.to_raw_pixel_format(), 1);
    assert_eq!(PixelFormat::new(1).unwrap(), PixelFormat::NV12);
    match PixelFormat::new(2) {
        Err(FormatError::UnknownPixelFormat(2)) => {}
        other => panic!("unexpected: {:?}", other),
    }
}

fn raw(profile: i32) -> RawInputFormat {
    RawInputFormat {
        profile,
        min_width: 16,
        min_height: 16,
        max_width: 1920,
        max_height: 1080,
    }
}

#[test]
fn input_format_from_raw() {
    assert_eq!(
        InputFormat::new(&raw(11)).unwrap(),
        InputFormat {
            profile: Profile::VP8,
            min_width: 16,
            min_height: 16,
            max_width: 1920,
            max_height: 1080,
        }
    );
    match InputFormat::new(&raw(99)) {
        Err(FormatError::UnknownProfile(99)) => {}
        other => panic!("unexpected: {:?}", other),
    }
}

#[test]
fn capabilities_are_validated() {
    match validate_input_formats(&Vec::new()) {
        Err(FormatError::InvalidCapabilities(reason)) => assert_eq!(reason, "num must not be 0"),
        other => panic!("unexpected: {:?}", other),
    }
    match validate_output_formats(&Vec::new()) {
        Err(FormatError::InvalidCapabilities(reason)) => assert_eq!(reason, "num must not be 0"),
        other => panic!("unexpected: {:?}", other),
    }
    match validate_input_formats(&vec![raw(1), raw(5), raw(6)]) {
        Err(FormatError::UnknownProfile(5)) => {}
        other => panic!("unexpected: {:?}", other),
    }
    match validate_output_formats(&vec![0, 1, 9, 8]) {
        Err(FormatError::UnknownPixelFormat(9)) => {}
        other => panic!("unexpected: {:?}", other),
    }
    let caps = Capabilities {
        input_formats: validate_input_formats(&vec![raw(1), raw(12)]).unwrap(),
        output_formats: validate_output_formats(&vec![1, 0]).unwrap(),
    };
    assert_eq!(caps.input_formats.len(), 2);
    assert_eq!(caps.input_formats[0].profile, Profile::H264);
    assert_eq!(caps.input_formats[1].profile, Profile::VP9Profile0);
    assert_eq!(caps.output_formats, vec![PixelFormat::NV12, PixelFormat::YV12]);
    let plane = FramePlane {
        offset: 0,
        stride: 640,
    };
    assert_eq!(plane.stride, 640);
    assert_ne!(VdaImplType::Fake, VdaImplType::Gavda);
}

#[test]
fn labels_points_and_scopes() {
    let l = Label::new("gpu", "composite");
    assert_eq!(l.category, "gpu");
    assert_eq!(l.name, "composite");
    let owned = l.to_owned_label();
    assert_eq!(owned.category, "gpu");
    assert_eq!(owned.name, "composite");

    let begin = Point::from_timestamp(100, 7, 8);
    assert_eq!(
        begin,
        Point {
            ts: 100,
            thread_ts: None,
            pid: 7,
            tid: 8
        }
    );
    assert_eq!(Point::now(100, 7, 8), begin);
    assert_eq!(begin.end_of(23), Point::from_timestamp(123, 7, 8));
    assert_eq!(
        Point::from_timestamp(u64::MAX - 1, 7, 8).end_of(5).ts,
        u64::MAX
    );
    let end = Point::from_timestamp(150, 7, 8);
    assert_eq!(end.begin_of(100), (begin, 50));
    assert_eq!(end.begin_of(200), (Point::from_timestamp(200, 7, 8), 0));
    assert_eq!(Point::default().ts, 0);
    assert_eq!(Scope::default(), Scope::Thread);
    assert_eq!(Scope::Global.letter(), 'g');
    assert_eq!(Scope::Process.letter(), 'p');
    assert_eq!(Scope::Thread.letter(), 't');
}

#[test]
fn command_sets() {
    let mut sets = CommandSets::default();
    assert!(!dev_commands_included(&sets));
    assert!(!usb_commands_included(&sets));
    set_dev_commands_included(&mut sets, true);
    assert!(dev_commands_included(&sets));
    assert!(!usb_commands_included(&sets));
    set_usb_commands_included(&mut sets, true);
    set_dev_commands_included(&mut sets, false);
    assert!(!dev_commands_included(&sets));
    assert!(usb_commands_included(&sets));
}

#[test]
fn vsock_address_from_str() {
    assert_eq!(
        "vsock:3:5000".parse::<SocketAddr>(),
        Ok(SocketAddr { cid: 3, port: 5000 })
    );
    assert_eq!("vsock:3".parse::<SocketAddr>(), Err(AddrParseError));
    assert_eq!("3:5000".parse::<SocketAddr>(), Err(AddrParseError));
    for text in ["vsock:0:0", "vsock:+1:2", "vsock:1:2:3", "", "vsock:4294967296:1"] {
        assert_eq!(text.parse::<SocketAddr>(), SocketAddr::parse(text));
    }
}

#[test]
fn vm_features_default_to_off() {
    assert_eq!(
        VmFeatures::default(),
        VmFeatures {
            gpu: false,
            software_tpm: false
        }
    );
}

#[test]
fn routines_are_trimmed() {
    assert_eq!(
        trim_routine("self.backend.vm_start(name, user_id_hash, features)"),
        "vm_start(name,user_id_hash,features)"
    );
    assert_eq!(
        trim_routine("self.backend.self.backend.disk_list( hash )"),
        "disk_list(hash)"
    );
    assert_eq!(trim_routine(" self.backend.x"), "self.backend.x");
    assert_eq!(trim_routine("self.backend"), "self.backend");
    assert_eq!(trim_routine("self.backend."), "");
    assert_eq!(trim_routine(""), "");
    assert_eq!(trim_routine(" \t\n\u{a0}\u{3000}"), "");
    assert_eq!(trim_routine("a\u{200b}b c"), "a\u{200b}bc");
    for text in [
        "self.backend.vm_stop(vm_name, user_id_hash)",
        "self.backend.self.backend. a",
        "other.self.backend.f( )",
        "self.backend",
        "",
    ] {
        assert_eq!(
            trim_routine(text),
            text.trim_start_matches("self.backend.")
                .replace(char::is_whitespace, "")
        );
    }
}
