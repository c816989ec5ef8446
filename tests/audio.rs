use usb_device::UsbError;
use usbd_audio::{
    AudioClass, AudioClassBuilder, ByteCursor, ControlRequest, Descriptor, Error, Format, Rates,
    Recipient, RequestType, StreamConfig, TerminalType,
};

fn mic() -> StreamConfig {
    StreamConfig::new_discrete(Format::S16le, 1, &[48000], TerminalType::InMicrophone).unwrap()
}

fn speaker() -> StreamConfig {
    StreamConfig::new_discrete(
        Format::S24le,
        2,
        &[44100, 48000, 96000],
        TerminalType::OutSpeaker,
    )
    .unwrap()
}

fn both() -> AudioClass<(), ()> {
    AudioClassBuilder::new()
        .input(mic())
        .output(speaker())
        .build(0, Some((1, ())), Some((2, ())))
}

fn request(request_type: RequestType, request: u8, value: u16, index: u16, length: u16) -> ControlRequest {
    ControlRequest {
        request_type,
        recipient: Recipient::Interface,
        request,
        value,
        index,
        length,
    }
}

fn set_interface(index: u16, value: u16) -> ControlRequest {
    request(RequestType::Standard, 11, value, index, 0)
}

fn get_interface(index: u16) -> ControlRequest {
    request(RequestType::Standard, 10, 0, index, 1)
}

fn body(d: &Descriptor) -> Vec<u8> {
    match d {
        Descriptor::ClassSpecific { body, .. } => body.clone(),
        _ => panic!("not a class-specific descriptor: {:?}", d),
    }
}

#[test]
fn packet_size_mono_16bit_48k() {
    let c = mic();
    assert_eq!(c.ep_size(), 96);
}

#[test]
fn packet_size_stereo_24bit_96k() {
    let c = speaker();
    assert_eq!(c.ep_size(), 576);
    let c = StreamConfig::new_continuous(Format::S24le, 2, 8000, 96000, TerminalType::OutSpeaker)
        .unwrap();
    assert_eq!(c.ep_size(), 576);
}

#[test]
fn bandwidth_exceeded_at_192k_stereo_24bit() {
    let r = StreamConfig::new_discrete(Format::S24le, 2, &[192000], TerminalType::InMicrophone);
    assert!(matches!(r, Err(Error::BandwidthExceeded)));
    let r = StreamConfig::new_continuous(Format::S24le, 2, 48000, 192000, TerminalType::InMicrophone);
    assert!(matches!(r, Err(Error::BandwidthExceeded)));
}

#[test]
fn continuous_range_must_be_increasing() {
    let r = StreamConfig::new_continuous(Format::S16le, 1, 48000, 48000, TerminalType::InMicrophone);
    assert!(matches!(r, Err(Error::InvalidValue)));
    let r = StreamConfig::new_continuous(Format::S16le, 1, 50000, 40000, TerminalType::InMicrophone);
    assert!(matches!(r, Err(Error::InvalidValue)));
}

#[test]
fn invalid_range_reported_before_bandwidth() {
    let r = StreamConfig::new_continuous(Format::S24le, 2, 200000, 192000, TerminalType::InMicrophone);
    assert!(matches!(r, Err(Error::InvalidValue)));
}

#[test]
fn packet_size_at_the_ceiling() {
    // 2 channels * 3 bytes * 170500 / 1000 = 1023
    let c = StreamConfig::new_discrete(Format::S24le, 2, &[170500], TerminalType::InMicrophone)
        .unwrap();
    assert_eq!(c.ep_size(), 1023);
    // 6 * 170667 / 1000 = 1024
    let r = StreamConfig::new_discrete(Format::S24le, 2, &[170667], TerminalType::InMicrophone);
    assert!(matches!(r, Err(Error::BandwidthExceeded)));
    // 255 * 2 * 2000 / 1000 = 1020
    let c = StreamConfig::new_continuous(Format::S16le, 255, 1000, 2000, TerminalType::InMicrophone)
        .unwrap();
    assert_eq!(c.ep_size(), 1020);
}

#[test]
fn packet_size_rounds_down() {
    // 1 * 2 * 44100 / 1000 = 88.2
    let c = StreamConfig::new_discrete(Format::S16le, 1, &[44100], TerminalType::InMicrophone)
        .unwrap();
    assert_eq!(c.ep_size(), 88);
}

#[test]
fn packet_size_from_largest_discrete_rate() {
    let c = StreamConfig::new_discrete(
        Format::S16le,
        2,
        &[96000, 8000, 44100],
        TerminalType::InMicrophone,
    )
    .unwrap();
    assert_eq!(c.ep_size(), 384);
    assert!(matches!(c.rates(), Rates::Discrete(v) if v == &vec![96000, 8000, 44100]));
    assert_eq!(c.channels(), 2);
    assert_eq!(c.format(), Format::S16le);
    assert_eq!(c.terminal_type(), TerminalType::InMicrophone);
}

#[test]
fn huge_rate_does_not_overflow() {
    let r = StreamConfig::new_discrete(Format::S24le, 255, &[u32::MAX], TerminalType::InMicrophone);
    assert!(matches!(r, Err(Error::BandwidthExceeded)));
}

#[test]
fn no_streams_read_write_fail() {
    let ac: AudioClass<(), ()> = AudioClassBuilder::new().build(0, None, None);
    assert!(matches!(ac.read(|_| Ok(1)), Err(Error::StreamNotInitialized)));
    assert!(matches!(ac.write(|_| Ok(1)), Err(Error::StreamNotInitialized)));
    assert!(matches!(ac.input_alt_setting(), Err(Error::StreamNotInitialized)));
    assert!(matches!(ac.output_alt_setting(), Err(Error::StreamNotInitialized)));
}

#[test]
fn read_and_write_go_to_their_streams() {
    let ac: AudioClass<u8, u16> = AudioClassBuilder::new()
        .input(mic())
        .output(speaker())
        .build(0, Some((1, 7u8)), Some((2, 9u16)));
    assert!(matches!(ac.write(|ep| Ok(*ep as usize)), Ok(7)));
    assert!(matches!(ac.read(|ep| Ok(*ep as usize)), Ok(9)));
    assert!(matches!(
        ac.read(|_| Err(UsbError::WouldBlock)),
        Err(Error::UsbError(UsbError::WouldBlock))
    ));
    assert!(matches!(
        ac.write(|_| Err(UsbError::BufferOverflow)),
        Err(Error::UsbError(UsbError::BufferOverflow))
    ));
}

#[test]
fn input_only_cannot_read() {
    let ac: AudioClass<(), ()> = AudioClassBuilder::new().input(mic()).build(0, Some((1, ())), None);
    assert!(matches!(ac.read(|_| Ok(1)), Err(Error::StreamNotInitialized)));
    assert!(matches!(ac.write(|_| Ok(3)), Ok(3)));
    assert!(matches!(ac.input_alt_setting(), Ok(0)));
    assert!(matches!(ac.output_alt_setting(), Err(Error::StreamNotInitialized)));
}

#[test]
fn end_to_end_descriptors() {
    let ac = both();
    assert_eq!(ac.input_ep_size(), Some(96));
    assert_eq!(ac.output_ep_size(), Some(576));
    assert_eq!(ac.control_iface(), 0);
    let d = ac.get_configuration_descriptors().unwrap();
    assert_eq!(d.len(), 2 + 2 + 2 + 6 + 6);
    assert_eq!(
        d[0],
        Descriptor::Interface { number: 0, alt_setting: 0, class: 1, sub_class: 1, protocol: 0 }
    );
    // AC header: total length 8 + (1 + 21) * 2 = 52, two interfaces 1 and 2
    assert_eq!(body(&d[1]), vec![0x01, 0x00, 0x01, 52, 0, 2, 1, 2]);
    // input terminals: microphone -> USB streaming, IDs 1 and 2
    assert_eq!(body(&d[2]), vec![0x02, 1, 0x01, 0x02, 0, 1, 0x03, 0, 0, 0]);
    assert_eq!(body(&d[3]), vec![0x03, 2, 0x01, 0x01, 0, 1, 0]);
    // output terminals: USB streaming -> speaker, IDs 5 and 6
    assert_eq!(body(&d[4]), vec![0x02, 5, 0x01, 0x01, 0, 2, 0x03, 0, 0, 0]);
    assert_eq!(body(&d[5]), vec![0x03, 6, 0x01, 0x03, 0, 5, 0]);
    // input streaming interface
    assert_eq!(
        d[6],
        Descriptor::Interface { number: 1, alt_setting: 0, class: 1, sub_class: 2, protocol: 0 }
    );
    assert_eq!(
        d[7],
        Descriptor::Interface { number: 1, alt_setting: 1, class: 1, sub_class: 2, protocol: 0 }
    );
    assert_eq!(body(&d[8]), vec![0x01, 2, 0x01, 0x01, 0x00]);
    assert_eq!(body(&d[9]), vec![0x02, 0x01, 1, 2, 16, 1, 0x80, 0xBB, 0x00]);
    assert_eq!(d[10], Descriptor::Endpoint { input: true });
    assert_eq!(
        d[11],
        Descriptor::ClassSpecific { descriptor_type: 0x25, body: vec![0x01, 0, 0, 0, 0] }
    );
    // output streaming interface
    assert_eq!(
        d[12],
        Descriptor::Interface { number: 2, alt_setting: 0, class: 1, sub_class: 2, protocol: 0 }
    );
    assert_eq!(body(&d[14]), vec![0x01, 5, 0x01, 0x01, 0x00]);
    assert_eq!(
        body(&d[15]),
        vec![0x02, 0x01, 2, 3, 24, 3, 0x44, 0xAC, 0x00, 0x80, 0xBB, 0x00, 0x00, 0x77, 0x01]
    );
    assert_eq!(d[16], Descriptor::Endpoint { input: false });
}

#[test]
fn header_length_with_one_stream() {
    let ac: AudioClass<(), ()> =
        AudioClassBuilder::new().output(speaker()).build(3, None, Some((4, ())));
    let d = ac.get_configuration_descriptors().unwrap();
    assert_eq!(d.len(), 2 + 2 + 6);
    assert_eq!(body(&d[1]), vec![0x01, 0x00, 0x01, 30, 0, 1, 4]);
    assert_eq!(body(&d[2])[1], 5);
}

#[test]
fn header_length_with_no_stream() {
    let ac: AudioClass<(), ()> = AudioClassBuilder::new().build(0, None, None);
    let d = ac.get_configuration_descriptors().unwrap();
    assert_eq!(d.len(), 2);
    assert_eq!(body(&d[1]), vec![0x01, 0x00, 0x01, 8, 0, 0]);
}

#[test]
fn continuous_rates_format_descriptor() {
    let c = StreamConfig::new_continuous(Format::S16le, 1, 8000, 48000, TerminalType::InMicrophone)
        .unwrap();
    let ac: AudioClass<(), ()> = AudioClassBuilder::new().input(c).build(0, Some((1, ())), None);
    let d = ac.get_configuration_descriptors().unwrap();
    assert_eq!(body(&d[7]), vec![0x02, 0x01, 1, 2, 16, 0, 0x40, 0x1F, 0x00, 0x80, 0xBB, 0x00]);
}

#[test]
fn too_many_rates_overflow_descriptor_buffer() {
    let rates: Vec<u32> = (0..41).map(|i| 8000 + i).collect();
    let c = StreamConfig::new_discrete(Format::S16le, 1, &rates, TerminalType::InMicrophone)
        .unwrap();
    let ac: AudioClass<(), ()> = AudioClassBuilder::new().input(c).build(0, Some((1, ())), None);
    assert!(matches!(ac.get_configuration_descriptors(), Err(UsbError::BufferOverflow)));
}

#[test]
fn forty_rates_fit_descriptor_buffer() {
    let rates: Vec<u32> = (0..40).map(|i| 8000 + i).collect();
    let c = StreamConfig::new_discrete(Format::S16le, 1, &rates, TerminalType::InMicrophone)
        .unwrap();
    let ac: AudioClass<(), ()> = AudioClassBuilder::new().input(c).build(0, Some((1, ())), None);
    let d = ac.get_configuration_descriptors().unwrap();
    let f = body(&d[7]);
    assert_eq!(f.len(), 6 + 3 * 40);
    assert_eq!(f[5], 40);
    assert_eq!(&f[123..126], &[0x67, 0x1F, 0x00]);
}

#[test]
fn set_then_get_interface() {
    let mut ac = both();
    assert!(ac.control_out(&set_interface(1, 1)));
    assert_eq!(ac.control_in(&get_interface(1)), Some(1));
    assert!(matches!(ac.input_alt_setting(), Ok(1)));
    assert!(matches!(ac.output_alt_setting(), Ok(0)));
    assert!(ac.control_out(&set_interface(1, 0)));
    assert_eq!(ac.control_in(&get_interface(1)), Some(0));
    assert!(matches!(ac.input_alt_setting(), Ok(0)));
}

#[test]
fn set_interface_on_output_stream() {
    let mut ac = both();
    assert!(ac.control_out(&set_interface(2, 1)));
    assert_eq!(ac.control_in(&get_interface(2)), Some(1));
    assert_eq!(ac.control_in(&get_interface(1)), Some(0));
    assert!(matches!(ac.output_alt_setting(), Ok(1)));
}

#[test]
fn set_interface_keeps_low_bytes() {
    let mut ac = both();
    assert!(ac.control_out(&set_interface(0x0101, 0x0203)));
    assert_eq!(ac.control_in(&get_interface(1)), Some(3));
    assert!(ac.control_out(&set_interface(1, 255)));
    assert!(matches!(ac.input_alt_setting(), Ok(255)));
}

#[test]
fn unhandled_requests() {
    let mut ac = both();
    // unknown interface
    assert!(!ac.control_out(&set_interface(3, 1)));
    assert_eq!(ac.control_in(&get_interface(0)), None);
    // class request
    assert!(!ac.control_out(&request(RequestType::Class, 11, 1, 1, 0)));
    assert_eq!(ac.control_in(&request(RequestType::Class, 10, 0, 1, 1)), None);
    // wrong length
    assert_eq!(ac.control_in(&request(RequestType::Standard, 10, 0, 1, 2)), None);
    // other recipient
    let mut r = set_interface(1, 1);
    r.recipient = Recipient::Endpoint;
    assert!(!ac.control_out(&r));
    // GET_INTERFACE is not an OUT request
    assert!(!ac.control_out(&get_interface(1)));
    assert!(matches!(ac.input_alt_setting(), Ok(0)));
    assert!(matches!(ac.output_alt_setting(), Ok(0)));
}

#[test]
fn emission_is_idempotent() {
    let mut ac = both();
    ac.control_out(&set_interface(1, 1));
    let a = ac.get_configuration_descriptors().unwrap();
    let b = ac.get_configuration_descriptors().unwrap();
    assert_eq!(a, b);
}

#[test]
fn builder_keeps_last_config() {
    let first = mic();
    let second =
        StreamConfig::new_discrete(Format::S24le, 2, &[48000], TerminalType::InMicrophone).unwrap();
    let b = AudioClassBuilder::new().input(first).input(second);
    assert_eq!(b.input_config().map(|c| c.ep_size()), Some(288));
    assert!(b.output_config().is_none());
}

#[test]
fn terminal_type_codes() {
    assert_eq!(TerminalType::UsbStreaming.code(), 0x0101);
    assert_eq!(TerminalType::InMicrophone.code(), 0x0201);
    assert_eq!(TerminalType::OutSpeaker.code(), 0x0301);
    assert_eq!(TerminalType::OutHeadphones.code(), 0x0302);
    assert_eq!(u16::from(TerminalType::EmbSynthesizer), 0x0713);
}

#[test]
fn usb_errors_convert() {
    assert!(matches!(Error::from(UsbError::WouldBlock), Error::UsbError(UsbError::WouldBlock)));
}

#[test]
fn byte_cursor_refuses_overflow() {
    let mut c = ByteCursor::new(4);
    assert!(c.push(1).is_ok());
    assert!(c.push_u24le(0x00ABCDEF).is_ok());
    assert_eq!(c.len(), 4);
    assert!(matches!(c.push(5), Err(UsbError::BufferOverflow)));
    assert!(matches!(c.push_u24le(1), Err(UsbError::BufferOverflow)));
    assert_eq!(c.into_bytes(), vec![1, 0xEF, 0xCD, 0xAB]);
}
