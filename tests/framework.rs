use spandsp::callback::{frame_event, payload_len, text_event, CallbackSlot, Engine, Release};
use spandsp::dtmf::{digits_request, dtmf_status, DtmfStatus};
use spandsp::echo::EchoCanFlags;
use spandsp::error::{check_code, check_init, check_text, SpanDspError, T30Error};
use spandsp::g711::{alaw_to_linear, linear_to_alaw, linear_to_ulaw, ulaw_to_linear, G711Mode};
use spandsp::g722::{G722Options, G722Rate};
use spandsp::g726::{G726Encoding, G726Packing, G726Rate};
use spandsp::handle::{NativeHandle, ReleaseLog};
use spandsp::logging::{level_of, level_with_flags, log_message, LogLevel, LogShowFlags};
use spandsp::streaming::{bit_step, native_len, BitStep};
use spandsp::t30::{T30ModemSupport, T30State};
use spandsp::t38_core::{
    T38DataRateManagement, T38DataType, T38FieldType, T38Indicator, T38PacketCategory,
    T38TerminalOptions, T38Version,
};
use spandsp::t4::{decode_status, page_format_change, produced_count, row_write_status, T4DecodeStatus};
use spandsp::tone_generate::{ToneCadence, ToneFreq};

#[test]
fn borrowed_child_never_releases() {
    let mut log = ReleaseLog::new();
    let parent = NativeHandle::acquire(0x1000).unwrap();
    let child = parent.child(0x1040).unwrap();
    assert!(parent.is_owned());
    assert!(!child.is_owned());
    log.teardown(parent);
    log.teardown(child);
    assert_eq!(log.freed(), &vec![0x1000usize]);
    assert_eq!(log.count(0x1000), 1);
    assert_eq!(log.count(0x1040), 0);
}

#[test]
fn null_state_is_init_failure() {
    assert!(matches!(NativeHandle::acquire(0), Err(SpanDspError::InitFailed)));
    assert!(matches!(NativeHandle::borrow(0), Err(SpanDspError::InitFailed)));
    assert!(matches!(T30State::from_raw(0, false), Err(SpanDspError::InitFailed)));
    let h = NativeHandle::borrow(0x20).unwrap();
    assert_eq!(h.addr(), 0x20);
    assert_eq!(h.release(), None);
    let h = NativeHandle::acquire(0x30).unwrap();
    assert_eq!(h.release(), Some(0x30));
    let t30 = T30State::from_raw(0x40, true).unwrap();
    assert_eq!(t30.handle().addr(), 0x40);
    assert_eq!(t30.release(), Some(0x40));
}

#[test]
fn replacement_waits_for_outstanding_call() {
    let mut slot = CallbackSlot::registered(7);
    assert_eq!(slot.enter(), Some(7));
    assert_eq!(slot.outstanding(), 1);
    assert!(matches!(slot.replace(8), Err(SpanDspError::InvalidInput(_))));
    assert_eq!(slot.current(), Some(7));
    slot.leave();
    assert_eq!(slot.replace(8).unwrap(), Some(7));
    assert_eq!(slot.current(), Some(8));
    let mut empty = CallbackSlot::empty();
    assert_eq!(empty.enter(), None);
    empty.leave();
    assert_eq!(empty.replace(3).unwrap(), None);
}

#[test]
fn teardown_releases_native_state_before_closure() {
    let engine = Engine::new(NativeHandle::acquire(0x500).unwrap(), Some(9));
    assert_eq!(engine.teardown(), vec![Release::Native(0x500), Release::Closure(9)]);
    let borrowed = Engine::new(NativeHandle::borrow(0x600).unwrap(), Some(4));
    assert_eq!(borrowed.teardown(), vec![Release::Closure(4)]);
    let mut plain = Engine::new(NativeHandle::acquire(0x700).unwrap(), None);
    assert_eq!(plain.callbacks_mut().replace(5).unwrap(), None);
    assert_eq!(plain.callbacks().current(), Some(5));
    assert_eq!(plain.handle().addr(), 0x700);
    assert_eq!(plain.teardown(), vec![Release::Native(0x700), Release::Closure(5)]);
}

#[test]
fn text_events_are_checked() {
    assert_eq!(text_event(false, b"123"), None);
    assert_eq!(text_event(true, b""), None);
    assert_eq!(text_event(true, &[0xFF, 0xFE]), None);
    assert_eq!(text_event(true, b"123#").as_deref(), Some("123#"));
    assert_eq!(payload_len(false, 10), 0);
    assert_eq!(payload_len(true, -2), 0);
    assert_eq!(payload_len(true, 0), 0);
    assert_eq!(payload_len(true, 12), 12);
}

#[test]
fn native_codes_are_classified() {
    assert!(check_code(0).is_ok());
    assert!(matches!(check_code(-3), Err(SpanDspError::ErrorCode(-3))));
    assert!(check_init(true).is_ok());
    assert!(matches!(check_init(false), Err(SpanDspError::InitFailed)));
    assert!(matches!(SpanDspError::from(5), SpanDspError::ErrorCode(5)));
    assert!(matches!(SpanDspError::from(T30Error(3)), SpanDspError::T30(T30Error(3))));
    assert!(check_text("fax.tif", "file path contains NUL").is_ok());
    match check_text("fax\0.tif", "file path contains NUL") {
        Err(SpanDspError::InvalidInput(m)) => assert_eq!(m, "file path contains NUL"),
        other => panic!("unexpected {other:?}"),
    }
}

#[test]
fn t30_completion_codes() {
    let ok = T30State::completion_code(0).unwrap();
    assert!(ok.is_ok());
    assert_eq!(ok, T30Error::ok_code());
    assert_eq!(ok.description(), "OK");
    assert_eq!(T30State::completion_code(47).unwrap().description(), "out of memory");
    assert_eq!(T30State::completion_code(13).unwrap().description(), "unexpected message received");
    let last = T30State::completion_code(61).unwrap();
    assert_eq!(last.raw(), 61);
    assert!(!last.is_ok());
    assert_eq!(last.description(), "unknown T.30 error");
    assert_eq!(T30State::completion_code(62), None);
    assert_eq!(T30State::completion_code(-1), None);
}

#[test]
fn g711_exact_codes() {
    assert_eq!(linear_to_ulaw(0), 0xFF);
    assert_eq!(linear_to_ulaw(i16::MAX), 0x80);
    assert_eq!(linear_to_ulaw(i16::MIN), 0x00);
    assert_eq!(ulaw_to_linear(0x80), 32124);
    assert_eq!(ulaw_to_linear(0x00), -32124);
    assert_eq!(ulaw_to_linear(0x7F), 0);
    assert_eq!(linear_to_alaw(0), 0xD5);
    assert_eq!(linear_to_alaw(i16::MIN), 0x2A);
    assert_eq!(alaw_to_linear(0xD5), 8);
    assert_eq!(alaw_to_linear(0x55), -8);
    assert_eq!(alaw_to_linear(0xAA), 32256);
    assert_eq!(G711Mode::ALaw.as_raw(), 0);
    assert_eq!(G711Mode::ULaw.as_raw(), 1);
    assert_eq!(G711Mode::ULaw.name(), "u-law");
}

#[test]
fn g711_error_bound_over_all_samples() {
    for x in i16::MIN..=i16::MAX {
        let u = (ulaw_to_linear(linear_to_ulaw(x)) as i32 - x as i32).abs();
        let a = (alaw_to_linear(linear_to_alaw(x)) as i32 - x as i32).abs();
        assert!(u <= 1024 && a <= 1024, "sample {x}");
    }
}

#[test]
fn codec_parameters() {
    assert_eq!(G722Rate::Rate56000.bps(), 56000);
    assert_eq!(G722Rate::from_bps(48000), Some(G722Rate::Rate48000));
    assert_eq!(G722Rate::from_bps(8000), None);
    assert_eq!(G722Rate::Rate64000.name(), "64 kbit/s");
    assert_eq!(G722Options::default().bits(), 0);
    assert_eq!((G722Options::sample_rate_8000() | G722Options::packed()).bits(), 3);
    assert_eq!(G726Rate::Rate40000.bits_per_sample(), 5);
    assert_eq!(G726Rate::Rate24000.bps(), 24000);
    assert_eq!(G726Rate::try_from(32000u32).unwrap(), G726Rate::Rate32000);
    assert!(G726Rate::try_from(33000u32).is_err());
    assert_eq!(G726Encoding::ALaw.as_raw(), 2);
    assert_eq!(G726Packing::default(), G726Packing::Unpacked);
    assert_eq!(G726Packing::Right.as_raw(), 2);
}

#[test]
fn log_levels() {
    assert_eq!(LogLevel::try_from(8).unwrap(), LogLevel::Debug);
    assert!(LogLevel::try_from(11).is_err());
    assert_eq!(level_of(3), LogLevel::ProtocolError);
    assert_eq!(level_of(99), LogLevel::Off);
    assert_eq!(LogLevel::Debug3.as_raw(), 10);
    let flags = LogShowFlags::severity() | LogShowFlags::tag();
    assert_eq!(level_with_flags(LogLevel::Flow, flags), 5 | 0x400 | 0x2000);
}

#[test]
fn statuses_and_counts() {
    assert_eq!(decode_status(-5), T4DecodeStatus::InvalidData);
    assert_eq!(decode_status(-3), T4DecodeStatus::Aborted);
    assert_eq!(decode_status(42), T4DecodeStatus::InvalidData);
    assert_eq!(i32::from(T4DecodeStatus::NoMem), -4);
    assert_eq!(produced_count(-7), 0);
    assert_eq!(produced_count(64), 64);
    assert_eq!(page_format_change(0), Some(false));
    assert_eq!(page_format_change(1), Some(true));
    assert_eq!(page_format_change(-1), None);
    assert_eq!(row_write_status(true), 0);
    assert_eq!(row_write_status(false), -1);
    assert_eq!(native_len(160), 160);
    assert_eq!(native_len(usize::MAX), i32::MAX);
    assert_eq!(bit_step(-7), BitStep::End(-7));
    assert_eq!(bit_step(0), BitStep::Bit(false));
    assert_eq!(bit_step(1), BitStep::Bit(true));
}

#[test]
fn dtmf_decisions() {
    assert_eq!(digits_request(32), 32);
    assert_eq!(digits_request(500), 128);
    assert_eq!(dtmf_status(0), DtmfStatus::Idle);
    assert_eq!(dtmf_status('x' as i32), DtmfStatus::Maybe);
    assert_eq!(dtmf_status('5' as i32), DtmfStatus::Digit(b'5'));
}

#[test]
fn t38_vocabulary() {
    assert_eq!(T38Indicator::cng().name(), "CNG");
    assert_eq!(T38Indicator(22).name(), "V.33-14400-training");
    assert_eq!(T38DataType(-1).name(), "none");
    assert_eq!(T38DataType::v17_14400().raw(), 8);
    assert_eq!(T38FieldType::hdlc_fcs_ok().name(), "HDLC-FCS-OK");
    assert_eq!(T38FieldType::t4_non_ecm_sig_end().raw(), 7);
    assert_eq!(T38PacketCategory::ImageDataEnd.as_raw(), 4);
    assert_eq!(T38Version::V3.as_raw(), 3);
    assert_eq!(T38DataRateManagement::TransferredTcf.as_raw(), 2);
    assert!(T38TerminalOptions::default().is_empty());
}

#[test]
fn defaults_and_tones() {
    assert_eq!(EchoCanFlags::default().bits(), 0x03);
    assert!(EchoCanFlags::default().contains(EchoCanFlags::nlp()));
    assert_eq!(T30ModemSupport::default().bits(), 0x07);
    assert_eq!(ToneFreq::new(440, -10), ToneFreq { frequency: 440, level: -10 });
    assert_eq!(ToneFreq::default(), ToneFreq::none());
    assert_eq!(ToneCadence::simple(500, 250), ToneCadence::new(500, 250, 0, 0));
    assert_eq!(ToneCadence::continuous(1000).on1, 1000);
    assert!(ToneCadence::continuous(1000).is_two_segment());
    assert!(!ToneCadence::new(1, 2, 3, 4).is_two_segment());
}

#[test]
fn level_names() {
    assert_eq!(LogLevel::Off.name(), "none");
    assert_eq!(LogLevel::ProtocolWarning.name(), "protocol-warning");
    assert_eq!(LogLevel::Debug2.name(), "debug-2");
    assert_eq!(i32::from(LogLevel::Flow3), 7);
}

#[test]
fn log_messages_are_checked() {
    assert_eq!(log_message(true, 3, Some(b"hello")), Some((LogLevel::ProtocolError, "hello".to_string())));
    assert_eq!(log_message(true, 42, Some(b"")), Some((LogLevel::Off, String::new())));
    assert_eq!(log_message(false, 3, Some(b"hello")), None);
    assert_eq!(log_message(true, 3, None), None);
    assert_eq!(log_message(true, 3, Some(&[0xC3, 0x28])), None);
}

#[test]
fn frame_events_skip_empty_payloads() {
    let frame = [0x7Eu8, 0x01, 0x02];
    assert_eq!(frame_event(false, &frame), None);
    assert_eq!(frame_event(true, &[]), None);
    assert_eq!(frame_event(true, &frame), Some(&frame[..]));
}

#[test]
fn conversions_refuse_unknown_values() {
    for (bps, rate) in [(16000u32, G726Rate::Rate16000), (24000, G726Rate::Rate24000), (40000, G726Rate::Rate40000)] {
        assert_eq!(G726Rate::try_from(bps).unwrap(), rate);
        assert_eq!(G726Rate::try_from(rate.bps()).unwrap(), rate);
    }
    assert!(matches!(G722Rate::try_from(0u32), Err(SpanDspError::InvalidInput(_))));
    assert!(matches!(G726Rate::try_from(8000u32), Err(SpanDspError::InvalidInput(_))));
    assert!(matches!(LogLevel::try_from(-1), Err(SpanDspError::InvalidInput(_))));
    assert!(matches!(T4DecodeStatus::try_from(-6), Err(SpanDspError::InvalidInput(_))));
    assert_eq!(T4DecodeStatus::try_from(-4).unwrap(), T4DecodeStatus::NoMem);
    assert!(matches!(T30State::from_raw(0, true), Err(SpanDspError::InitFailed)));
}
