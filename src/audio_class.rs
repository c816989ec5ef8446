//! The audio class: its builder, descriptor emission, the alternate-setting
//! protocol and the data plane.
use vstd::prelude::*;

use crate::class_codes::{
    AUDIO, AUDIOCONTROL, AUDIOSTREAMING, CS_ENDPOINT, CS_INTERFACE, DEFAULT_ALTERNATE_SETTING,
    GET_INTERFACE, SET_INTERFACE, AS_GENERAL, EP_GENERAL, HEADER, INPUT_TERMINAL, OUTPUT_TERMINAL,
    PCM,
};
use crate::descriptor::{
    ac_header_body, as_general_body, cs_endpoint_body, emit, format_type_body,
    format_type_descriptor, format_type_fits, input_terminal_body, output_terminal_body, views,
    Descriptor, DescriptorSpec,
};
use crate::error::Error;
use crate::stream_config::StreamConfig;
use crate::terminal_type::TerminalType;
use usb_device::UsbError;

verus! {

/// Terminal ID of the input terminal of the input direction.
pub const ID_INPUT_TERMINAL: u8 = 0x01;

/// Terminal ID of the output terminal of the input direction.
pub const ID_OUTPUT_TERMINAL: u8 = 0x02;

/// What the terminal IDs of the output direction add to those of the input
/// direction, so that both directions can be present.
pub const OUTPUT_ID_OFFSET: u8 = 4;

/// Type of a control request.
#[derive(Clone, Copy, Debug, PartialEq, Eq, Structural)]
pub enum RequestType {
    Standard,
    Class,
    Vendor,
    Reserved,
}

/// Recipient of a control request.
#[derive(Clone, Copy, Debug, PartialEq, Eq, Structural)]
pub enum Recipient {
    Device,
    Interface,
    Endpoint,
    Other,
    Reserved,
}

/// The setup data of a control request.
#[derive(Clone, Copy, Debug, PartialEq, Eq, Structural)]
pub struct ControlRequest {
    pub request_type: RequestType,
    pub recipient: Recipient,
    pub request: u8,
    pub value: u16,
    pub index: u16,
    pub length: u16,
}

/// A standard, interface-recipient GET_INTERFACE request of length 1.
pub open spec fn is_get_interface(req: ControlRequest) -> bool {
    &&& req.request_type == RequestType::Standard
    &&& req.recipient == Recipient::Interface
    &&& req.request == GET_INTERFACE
    &&& req.length == 1
}

/// A standard, interface-recipient SET_INTERFACE request.
pub open spec fn is_set_interface(req: ControlRequest) -> bool {
    &&& req.request_type == RequestType::Standard
    &&& req.recipient == Recipient::Interface
    &&& req.request == SET_INTERFACE
}

/// The interface number a request addresses: the low byte of its index.
pub open spec fn request_interface(req: ControlRequest) -> u8 {
    (req.index % 256) as u8
}

/// The state of the stream of one direction: its configuration, its
/// streaming interface, its isochronous endpoint and its alternate setting.
pub struct AudioStream<E> {
    pub stream_config: StreamConfig,
    pub interface: u8,
    pub endpoint: E,
    pub alt_setting: u8,
}

/// What the terminal IDs of a direction add to the base IDs.
pub open spec fn id_offset(is_input: bool) -> u8 {
    if is_input {
        0
    } else {
        OUTPUT_ID_OFFSET
    }
}

/// The terminal the streaming interface of a direction links to: the output
/// terminal of the input direction, the input terminal of the output one.
pub open spec fn terminal_link(is_input: bool) -> u8 {
    if is_input {
        ID_OUTPUT_TERMINAL
    } else {
        (ID_INPUT_TERMINAL + OUTPUT_ID_OFFSET) as u8
    }
}

/// `s` with its alternate setting replaced by `v`.
pub open spec fn with_alt_setting<E>(s: AudioStream<E>, v: u8) -> AudioStream<E> {
    AudioStream { alt_setting: v, ..s }
}

impl<E> AudioStream<E> {
    /// The stream's Input Terminal and Output Terminal descriptors. The
    /// stream's own terminal type goes to the input terminal of an input
    /// stream and to the output terminal of an output stream; the other
    /// terminal is a USB streaming terminal.
    pub open spec fn spec_ac_descriptors(&self, is_input: bool) -> Seq<DescriptorSpec> {
        let off = id_offset(is_input);
        let own = self.stream_config.spec_terminal_type().spec_code();
        let usb = TerminalType::UsbStreaming.spec_code();
        seq![
            DescriptorSpec::ClassSpecific {
                descriptor_type: CS_INTERFACE,
                body: input_terminal_body(
                    (ID_INPUT_TERMINAL + off) as u8,
                    if is_input { own } else { usb },
                    self.stream_config.spec_channels(),
                ),
            },
            DescriptorSpec::ClassSpecific {
                descriptor_type: CS_INTERFACE,
                body: output_terminal_body(
                    (ID_OUTPUT_TERMINAL + off) as u8,
                    if is_input { usb } else { own },
                    (ID_INPUT_TERMINAL + off) as u8,
                ),
            },
        ]
    }

    /// The stream's interface descriptors (alternate settings 0 and 1), AS
    /// general, format type and endpoint descriptors.
    pub open spec fn spec_as_descriptors(&self, is_input: bool) -> Seq<DescriptorSpec> {
        seq![
            DescriptorSpec::Interface {
                number: self.interface,
                alt_setting: 0,
                class: AUDIO,
                sub_class: AUDIOSTREAMING,
                protocol: 0,
            },
            DescriptorSpec::Interface {
                number: self.interface,
                alt_setting: 1,
                class: AUDIO,
                sub_class: AUDIOSTREAMING,
                protocol: 0,
            },
            DescriptorSpec::ClassSpecific {
                descriptor_type: CS_INTERFACE,
                body: as_general_body(terminal_link(is_input)),
            },
            DescriptorSpec::ClassSpecific {
                descriptor_type: CS_INTERFACE,
                body: format_type_body(
                    self.stream_config.spec_format(),
                    self.stream_config.spec_channels(),
                    self.stream_config.spec_rates(),
                ),
            },
            DescriptorSpec::Endpoint { input: is_input },
            DescriptorSpec::ClassSpecific { descriptor_type: CS_ENDPOINT, body: cs_endpoint_body() },
        ]
    }

    /// The stream's format type descriptor fits its buffer.
    pub open spec fn format_fits(&self) -> bool {
        format_type_fits(
            self.stream_config.spec_format(),
            self.stream_config.spec_channels(),
            self.stream_config.spec_rates(),
        )
    }

    /// Appends the stream's terminal descriptors to `out`.
    fn write_ac_descriptors(&self, is_input: bool, out: &mut Vec<Descriptor>)
        ensures
            views(final(out)@) == views(old(out)@) + self.spec_ac_descriptors(is_input),
    {
        let own: u16 = self.stream_config.terminal_type().code();
        let usb: u16 = TerminalType::UsbStreaming.code();
        let off: u8 = if is_input {
            0
        } else {
            OUTPUT_ID_OFFSET
        };
        let channels = self.stream_config.channels();
        let tt = if is_input {
            own
        } else {
            usb
        };
        let input_terminal = vec![
            INPUT_TERMINAL,
            ID_INPUT_TERMINAL + off,
            (tt % 256) as u8,
            (tt / 256) as u8,
            0x00,
            channels,
            0x03,
            0x00,
            0x00,
            0x00,
        ];
        let tt = if is_input {
            usb
        } else {
            own
        };
        let output_terminal = vec![
            OUTPUT_TERMINAL,
            ID_OUTPUT_TERMINAL + off,
            (tt % 256) as u8,
            (tt / 256) as u8,
            0x00,
            ID_INPUT_TERMINAL + off,
            0x00,
        ];
        let ghost spec = self.spec_ac_descriptors(is_input);
        assert(input_terminal@ =~= spec[0]->ClassSpecific_body);
        assert(output_terminal@ =~= spec[1]->ClassSpecific_body);
        emit(out, Descriptor::ClassSpecific { descriptor_type: CS_INTERFACE, body: input_terminal });
        emit(out, Descriptor::ClassSpecific { descriptor_type: CS_INTERFACE, body: output_terminal });
        assert(views(out@) =~= views(old(out)@) + spec);
    }

    /// Appends the stream's streaming-interface, format and endpoint
    /// descriptors to `out`; fails with `BufferOverflow` where the format type
    /// descriptor does not fit.
    fn write_as_and_ep_descriptors(&self, is_input: bool, out: &mut Vec<Descriptor>) -> (r: Result<
        (),
        UsbError,
    >)
        ensures
            r is Ok <==> self.format_fits(),
            r is Ok ==> views(final(out)@) == views(old(out)@) + self.spec_as_descriptors(is_input),
            r is Err ==> r->Err_0 is BufferOverflow,
    {
        let ghost spec = self.spec_as_descriptors(is_input);
        let format_desc = match format_type_descriptor(
            self.stream_config.format(),
            self.stream_config.channels(),
            self.stream_config.rates(),
        ) {
            Ok(d) => d,
            Err(e) => return Err(e),
        };
        emit(
            out,
            Descriptor::Interface {
                number: self.interface,
                alt_setting: DEFAULT_ALTERNATE_SETTING,
                class: AUDIO,
                sub_class: AUDIOSTREAMING,
                protocol: 0x00,
            },
        );
        emit(
            out,
            Descriptor::Interface {
                number: self.interface,
                alt_setting: 0x01,
                class: AUDIO,
                sub_class: AUDIOSTREAMING,
                protocol: 0x00,
            },
        );
        let link: u8 = if is_input {
            ID_OUTPUT_TERMINAL
        } else {
            ID_INPUT_TERMINAL + OUTPUT_ID_OFFSET
        };
        let as_general = vec![AS_GENERAL, link, 0x01, (PCM % 256) as u8, (PCM / 256) as u8];
        assert(as_general@ =~= spec[2]->ClassSpecific_body);
        emit(out, Descriptor::ClassSpecific { descriptor_type: CS_INTERFACE, body: as_general });
        emit(out, Descriptor::ClassSpecific { descriptor_type: CS_INTERFACE, body: format_desc });
        emit(out, Descriptor::Endpoint { input: is_input });
        let cs_endpoint = vec![EP_GENERAL, 0x00, 0x00, 0x00, 0x00];
        assert(cs_endpoint@ =~= cs_endpoint_body());
        emit(out, Descriptor::ClassSpecific { descriptor_type: CS_ENDPOINT, body: cs_endpoint });
        assert(views(out@) =~= views(old(out)@) + spec);
        Ok(())
    }
}

/// Collects the configuration of an input stream and of an output stream,
/// at most one of each, before the class is built.
pub struct AudioClassBuilder {
    input: Option<StreamConfig>,
    output: Option<StreamConfig>,
}

impl AudioClassBuilder {
    pub closed spec fn spec_input(&self) -> Option<StreamConfig> {
        self.input
    }

    pub closed spec fn spec_output(&self) -> Option<StreamConfig> {
        self.output
    }

    /// A builder with no stream configured.
    pub fn new() -> (r: AudioClassBuilder)
        ensures
            r.spec_input() is None,
            r.spec_output() is None,
    {
        AudioClassBuilder { input: None, output: None }
    }

    /// Configures the input stream; a later call replaces an earlier one.
    pub fn input(self, input: StreamConfig) -> (r: AudioClassBuilder)
        ensures
            r.spec_input() == Some(input),
            r.spec_output() == self.spec_output(),
    {
        AudioClassBuilder { input: Some(input), output: self.output }
    }

    /// Configures the output stream; a later call replaces an earlier one.
    pub fn output(self, output: StreamConfig) -> (r: AudioClassBuilder)
        ensures
            r.spec_input() == self.spec_input(),
            r.spec_output() == Some(output),
    {
        AudioClassBuilder { input: self.input, output: Some(output) }
    }

    /// The configuration of the input stream, if any.
    pub fn input_config(&self) -> (r: Option<&StreamConfig>)
        ensures
            r matches Some(c) ==> self.spec_input() == Some(*c),
            r is None ==> self.spec_input() is None,
    {
        self.input.as_ref()
    }

    /// The configuration of the output stream, if any.
    pub fn output_config(&self) -> (r: Option<&StreamConfig>)
        ensures
            r matches Some(c) ==> self.spec_output() == Some(*c),
            r is None ==> self.spec_output() is None,
    {
        self.output.as_ref()
    }

    /// Creates the class from the resources allocated for it: the control
    /// interface, and for each configured direction its streaming interface
    /// and isochronous endpoint. Every stream starts in alternate setting 0.
    pub fn build<I, O>(self, control_iface: u8, input: Option<(u8, I)>, output: Option<(u8, O)>) -> (r:
        AudioClass<I, O>)
        requires
            self.spec_input() is Some <==> input is Some,
            self.spec_output() is Some <==> output is Some,
        ensures
            r.spec_control_iface() == control_iface,
            input matches Some(res) ==> r.spec_input() == Some(
                AudioStream {
                    stream_config: self.spec_input()->Some_0,
                    interface: res.0,
                    endpoint: res.1,
                    alt_setting: DEFAULT_ALTERNATE_SETTING,
                },
            ),
            input is None ==> r.spec_input() is None,
            output matches Some(res) ==> r.spec_output() == Some(
                AudioStream {
                    stream_config: self.spec_output()->Some_0,
                    interface: res.0,
                    endpoint: res.1,
                    alt_setting: DEFAULT_ALTERNATE_SETTING,
                },
            ),
            output is None ==> r.spec_output() is None,
    {
        let mut ac = AudioClass { control_iface, input: None, output: None };
        if let Some(stream_config) = self.input {
            if let Some((interface, endpoint)) = input {
                ac.input = Some(
                    AudioStream {
                        stream_config,
                        interface,
                        endpoint,
                        alt_setting: DEFAULT_ALTERNATE_SETTING,
                    },
                );
            }
        }
        if let Some(stream_config) = self.output {
            if let Some((interface, endpoint)) = output {
                ac.output = Some(
                    AudioStream {
                        stream_config,
                        interface,
                        endpoint,
                        alt_setting: DEFAULT_ALTERNATE_SETTING,
                    },
                );
            }
        }
        ac
    }
}

/// USB audio class with up to one input stream (endpoint handle `I`, data
/// to the host) and one output stream (endpoint handle `O`, data from the
/// host).
pub struct AudioClass<I, O> {
    control_iface: u8,
    input: Option<AudioStream<I>>,
    output: Option<AudioStream<O>>,
}

/// The result of a transfer on an endpoint, with the USB stack's error
/// wrapped.
pub open spec fn wrap_transfer(t: Result<usize, UsbError>) -> Result<usize, Error> {
    match t {
        Ok(n) => Ok(n),
        Err(e) => Err(Error::UsbError(e)),
    }
}

impl<I, O> AudioClass<I, O> {
    pub closed spec fn spec_control_iface(&self) -> u8 {
        self.control_iface
    }

    pub closed spec fn spec_input(&self) -> Option<AudioStream<I>> {
        self.input
    }

    pub closed spec fn spec_output(&self) -> Option<AudioStream<O>> {
        self.output
    }

    /// The interface numbers of the configured streams, input first.
    pub open spec fn spec_stream_interfaces(&self) -> Seq<u8> {
        (if self.spec_input() is Some {
            seq![self.spec_input()->Some_0.interface]
        } else {
            seq![]
        }) + (if self.spec_output() is Some {
            seq![self.spec_output()->Some_0.interface]
        } else {
            seq![]
        })
    }

    /// The format type descriptors of all configured streams fit.
    pub open spec fn formats_fit(&self) -> bool {
        &&& (self.spec_input() is Some ==> self.spec_input()->Some_0.format_fits())
        &&& (self.spec_output() is Some ==> self.spec_output()->Some_0.format_fits())
    }

    /// The configuration descriptors: the audio-control interface, the AC
    /// header, the terminals of each stream, then the streaming descriptors of
    /// each stream, input before output.
    pub open spec fn spec_descriptors(&self) -> Seq<DescriptorSpec> {
        let ac = seq![
            DescriptorSpec::Interface {
                number: self.spec_control_iface(),
                alt_setting: 0,
                class: AUDIO,
                sub_class: AUDIOCONTROL,
                protocol: 0,
            },
            DescriptorSpec::ClassSpecific {
                descriptor_type: CS_INTERFACE,
                body: ac_header_body(self.spec_stream_interfaces()),
            },
        ];
        let in_ac = if self.spec_input() is Some {
            self.spec_input()->Some_0.spec_ac_descriptors(true)
        } else {
            seq![]
        };
        let out_ac = if self.spec_output() is Some {
            self.spec_output()->Some_0.spec_ac_descriptors(false)
        } else {
            seq![]
        };
        let in_as = if self.spec_input() is Some {
            self.spec_input()->Some_0.spec_as_descriptors(true)
        } else {
            seq![]
        };
        let out_as = if self.spec_output() is Some {
            self.spec_output()->Some_0.spec_as_descriptors(false)
        } else {
            seq![]
        };
        ac + in_ac + out_ac + in_as + out_as
    }

    /// What a descriptor emission from this state returns.
    pub open spec fn emits(&self, r: Result<Vec<Descriptor>, UsbError>) -> bool {
        &&& (r is Ok <==> self.formats_fit())
        &&& (r is Ok ==> views(r->Ok_0@) == self.spec_descriptors())
        &&& (r is Err ==> r->Err_0 is BufferOverflow)
    }

    /// The configuration descriptors of the class, in the order the host
    /// reads them.
    pub fn get_configuration_descriptors(&self) -> (r: Result<Vec<Descriptor>, UsbError>)
        ensures
            self.emits(r),
    {
        let mut out: Vec<Descriptor> = Vec::new();
        emit(
            &mut out,
            Descriptor::Interface {
                number: self.control_iface,
                alt_setting: DEFAULT_ALTERNATE_SETTING,
                class: AUDIO,
                sub_class: AUDIOCONTROL,
                protocol: 0x00,
            },
        );
        let mut interfaces: Vec<u8> = Vec::new();
        if let Some(s) = &self.input {
            interfaces.push(s.interface);
        }
        if let Some(s) = &self.output {
            interfaces.push(s.interface);
        }
        assert(interfaces@ =~= self.spec_stream_interfaces());
        let in_collection: u8 = interfaces.len() as u8;
        let total_length: u16 = 8 + (1 + 21) * in_collection as u16;
        let mut header: Vec<u8> = vec![
            HEADER,
            0x00,
            0x01,
            (total_length % 256) as u8,
            (total_length / 256) as u8,
            in_collection,
        ];
        header.append(&mut interfaces);
        assert(header@ =~= ac_header_body(self.spec_stream_interfaces()));
        emit(&mut out, Descriptor::ClassSpecific { descriptor_type: CS_INTERFACE, body: header });
        if let Some(s) = &self.input {
            s.write_ac_descriptors(true, &mut out);
        }
        if let Some(s) = &self.output {
            s.write_ac_descriptors(false, &mut out);
        }
        if let Some(s) = &self.input {
            if let Err(e) = s.write_as_and_ep_descriptors(true, &mut out) {
                return Err(e);
            }
        }
        if let Some(s) = &self.output {
            if let Err(e) = s.write_as_and_ep_descriptors(false, &mut out) {
                return Err(e);
            }
        }
        assert(views(out@) =~= self.spec_descriptors());
        Ok(out)
    }

    /// Interface `iface` is the input stream's.
    pub open spec fn addresses_input(&self, iface: u8) -> bool {
        self.spec_input() is Some && self.spec_input()->Some_0.interface == iface
    }

    /// Interface `iface` is the output stream's and not the input stream's.
    pub open spec fn addresses_output(&self, iface: u8) -> bool {
        !self.addresses_input(iface) && self.spec_output() is Some
            && self.spec_output()->Some_0.interface == iface
    }

    /// The byte the class answers a control-IN request with, if it handles
    /// the request: the alternate setting of the addressed stream on a
    /// GET_INTERFACE request.
    pub open spec fn spec_control_in(&self, req: ControlRequest) -> Option<u8> {
        let iface = request_interface(req);
        if !is_get_interface(req) {
            None
        } else if self.addresses_input(iface) {
            Some(self.spec_input()->Some_0.alt_setting)
        } else if self.addresses_output(iface) {
            Some(self.spec_output()->Some_0.alt_setting)
        } else {
            None
        }
    }

    /// `after` is `before` once a control-OUT request `req` has been
    /// handled, and `accepted` says whether the class handled it: a
    /// SET_INTERFACE request to a stream's interface stores the low byte of
    /// its value as that stream's alternate setting; nothing else changes.
    pub open spec fn control_out_step(
        before: Self,
        after: Self,
        req: ControlRequest,
        accepted: bool,
    ) -> bool {
        let iface = request_interface(req);
        let v = (req.value % 256) as u8;
        &&& accepted == (is_set_interface(req) && (before.addresses_input(iface)
            || before.addresses_output(iface)))
        &&& after.spec_control_iface() == before.spec_control_iface()
        &&& after.spec_input() == if accepted && before.addresses_input(iface) {
            Some(with_alt_setting(before.spec_input()->Some_0, v))
        } else {
            before.spec_input()
        }
        &&& after.spec_output() == if accepted && before.addresses_output(iface) {
            Some(with_alt_setting(before.spec_output()->Some_0, v))
        } else {
            before.spec_output()
        }
    }

    /// Handles a control-IN request: returns the byte to answer with, or
    /// `None` where the request is not this class's to answer.
    pub fn control_in(&self, req: &ControlRequest) -> (r: Option<u8>)
        ensures
            r == self.spec_control_in(*req),
    {
        if req.request_type == RequestType::Standard && req.recipient == Recipient::Interface
            && req.request == GET_INTERFACE && req.length == 1 {
            let iface = (req.index % 256) as u8;
            if let Some(info) = &self.input {
                if iface == info.interface {
                    return Some(info.alt_setting);
                }
            }
            if let Some(info) = &self.output {
                if iface == info.interface {
                    return Some(info.alt_setting);
                }
            }
        }
        None
    }

    /// Handles a control-OUT request: returns whether the class accepted it.
    pub fn control_out(&mut self, req: &ControlRequest) -> (r: bool)
        ensures
            Self::control_out_step(*old(self), *final(self), *req, r),
    {
        if req.request_type == RequestType::Standard && req.recipient == Recipient::Interface
            && req.request == SET_INTERFACE {
            let iface = (req.index % 256) as u8;
            let alt_setting = (req.value % 256) as u8;
            if let Some(info) = &mut self.input {
                if iface == info.interface {
                    info.alt_setting = alt_setting;
                    return true;
                }
            }
            if let Some(info) = &mut self.output {
                if iface == info.interface {
                    info.alt_setting = alt_setting;
                    return true;
                }
            }
        }
        false
    }

    /// Reads audio data sent by the host: performs `transfer` on the output
    /// stream's endpoint, or fails with `StreamNotInitialized` where no output
    /// stream is configured.
    pub fn read<F>(&self, transfer: F) -> (r: Result<usize, Error>) where
        F: FnOnce(&O) -> Result<usize, UsbError>,

        requires
            self.spec_output() is Some ==> transfer.requires(
                (&self.spec_output()->Some_0.endpoint,),
            ),
        ensures
            self.spec_output() is None ==> r is Err && r->Err_0 is StreamNotInitialized,
            self.spec_output() is Some ==> exists|t: Result<usize, UsbError>|
                transfer.ensures((&self.spec_output()->Some_0.endpoint,), t) && r == wrap_transfer(
                    t,
                ),
    {
        match &self.output {
            Some(info) => {
                let t = transfer(&info.endpoint);
                let r = match t {
                    Ok(n) => Ok(n),
                    Err(e) => Err(Error::UsbError(e)),
                };
                assert(transfer.ensures((&info.endpoint,), t) && r == wrap_transfer(t));
                r
            },
            None => Err(Error::StreamNotInitialized),
        }
    }

    /// Writes audio data for the host: performs `transfer` on the input
    /// stream's endpoint, or fails with `StreamNotInitialized` where no input
    /// stream is configured.
    pub fn write<F>(&self, transfer: F) -> (r: Result<usize, Error>) where
        F: FnOnce(&I) -> Result<usize, UsbError>,

        requires
            self.spec_input() is Some ==> transfer.requires(
                (&self.spec_input()->Some_0.endpoint,),
            ),
        ensures
            self.spec_input() is None ==> r is Err && r->Err_0 is StreamNotInitialized,
            self.spec_input() is Some ==> exists|t: Result<usize, UsbError>|
                transfer.ensures((&self.spec_input()->Some_0.endpoint,), t) && r == wrap_transfer(
                    t,
                ),
    {
        match &self.input {
            Some(info) => {
                let t = transfer(&info.endpoint);
                let r = match t {
                    Ok(n) => Ok(n),
                    Err(e) => Err(Error::UsbError(e)),
                };
                assert(transfer.ensures((&info.endpoint,), t) && r == wrap_transfer(t));
                r
            },
            None => Err(Error::StreamNotInitialized),
        }
    }

    /// The current alternate setting of the input stream.
    pub fn input_alt_setting(&self) -> (r: Result<u8, Error>)
        ensures
            self.spec_input() is None ==> r is Err && r->Err_0 is StreamNotInitialized,
            self.spec_input() is Some ==> r == Ok::<u8, Error>(
                self.spec_input()->Some_0.alt_setting,
            ),
    {
        match &self.input {
            Some(info) => Ok(info.alt_setting),
            None => Err(Error::StreamNotInitialized),
        }
    }

    /// The current alternate setting of the output stream.
    pub fn output_alt_setting(&self) -> (r: Result<u8, Error>)
        ensures
            self.spec_output() is None ==> r is Err && r->Err_0 is StreamNotInitialized,
            self.spec_output() is Some ==> r == Ok::<u8, Error>(
                self.spec_output()->Some_0.alt_setting,
            ),
    {
        match &self.output {
            Some(info) => Ok(info.alt_setting),
            None => Err(Error::StreamNotInitialized),
        }
    }

    /// The number of the audio-control interface.
    pub fn control_iface(&self) -> (r: u8)
        ensures
            r == self.spec_control_iface(),
    {
        self.control_iface
    }

    /// The input stream's endpoint handle, if an input stream is configured.
    pub fn input_endpoint(&self) -> (r: Option<&I>)
        ensures
            r matches Some(e) ==> self.spec_input() is Some && *e
                == self.spec_input()->Some_0.endpoint,
            r is None ==> self.spec_input() is None,
    {
        match &self.input {
            Some(info) => Some(&info.endpoint),
            None => None,
        }
    }

    /// The output stream's endpoint handle, if an output stream is configured.
    pub fn output_endpoint(&self) -> (r: Option<&O>)
        ensures
            r matches Some(e) ==> self.spec_output() is Some && *e
                == self.spec_output()->Some_0.endpoint,
            r is None ==> self.spec_output() is None,
    {
        match &self.output {
            Some(info) => Some(&info.endpoint),
            None => None,
        }
    }

    /// The input stream's packet size in octets, if an input stream is
    /// configured.
    pub fn input_ep_size(&self) -> (r: Option<u16>)
        ensures
            r matches Some(n) ==> self.spec_input() is Some && n
                == self.spec_input()->Some_0.stream_config.spec_ep_size(),
            r is None ==> self.spec_input() is None,
    {
        match &self.input {
            Some(info) => Some(info.stream_config.ep_size()),
            None => None,
        }
    }

    /// The output stream's packet size in octets, if an output stream is
    /// configured.
    pub fn output_ep_size(&self) -> (r: Option<u16>)
        ensures
            r matches Some(n) ==> self.spec_output() is Some && n
                == self.spec_output()->Some_0.stream_config.spec_ep_size(),
            r is None ==> self.spec_output() is None,
    {
        match &self.output {
            Some(info) => Some(info.stream_config.ep_size()),
            None => None,
        }
    }
}

/// A SET_INTERFACE request to the interface of a configured stream is
/// accepted, and a GET_INTERFACE request to the same interface afterwards
/// answers the low byte of the value that was set.
pub proof fn lemma_set_then_get_interface<I, O>(
    before: AudioClass<I, O>,
    after: AudioClass<I, O>,
    set: ControlRequest,
    accepted: bool,
    get: ControlRequest,
)
    requires
        is_set_interface(set),
        is_get_interface(get),
        request_interface(get) == request_interface(set),
        before.addresses_input(request_interface(set)) || before.addresses_output(
            request_interface(set),
        ),
        AudioClass::control_out_step(before, after, set, accepted),
    ensures
        accepted,
        after.spec_control_in(get) == Some((set.value % 256) as u8),
{
}

/// Descriptor emission is a function of the class's state: two emissions
/// from the same state agree on success and return the same descriptors,
/// byte for byte.
pub proof fn lemma_emission_idempotent<I, O>(
    c: AudioClass<I, O>,
    first: Result<Vec<Descriptor>, UsbError>,
    second: Result<Vec<Descriptor>, UsbError>,
)
    requires
        c.emits(first),
        c.emits(second),
    ensures
        first is Ok <==> second is Ok,
        first is Ok ==> views(first->Ok_0@) == views(second->Ok_0@),
{
}

} // verus!
