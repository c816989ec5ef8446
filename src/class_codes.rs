//! Class, subclass and descriptor codes of the USB Audio Device Class.
use vstd::prelude::*;

verus! {

/// Interface class: audio.
pub const AUDIO: u8 = 0x01;

/// Interface subclass: audio control.
pub const AUDIOCONTROL: u8 = 0x01;

/// Interface subclass: audio streaming.
pub const AUDIOSTREAMING: u8 = 0x02;

/// Descriptor type: class-specific interface.
pub const CS_INTERFACE: u8 = 0x24;

/// Descriptor type: class-specific endpoint.
pub const CS_ENDPOINT: u8 = 0x25;

/// Audio-control interface subtype: header.
pub const HEADER: u8 = 0x01;

/// Audio-control interface subtype: input terminal.
pub const INPUT_TERMINAL: u8 = 0x02;

/// Audio-control interface subtype: output terminal.
pub const OUTPUT_TERMINAL: u8 = 0x03;

/// Audio-streaming interface subtype: general.
pub const AS_GENERAL: u8 = 0x01;

/// Audio-streaming interface subtype: format type.
pub const FORMAT_TYPE: u8 = 0x02;

/// Class-specific endpoint subtype: general.
pub const EP_GENERAL: u8 = 0x01;

/// Format type I.
pub const FORMAT_TYPE_I: u8 = 0x01;

/// Format tag of type I PCM.
pub const PCM: u16 = 0x0001;

/// Standard request code GET_INTERFACE.
pub const GET_INTERFACE: u8 = 10;

/// Standard request code SET_INTERFACE.
pub const SET_INTERFACE: u8 = 11;

/// The alternate setting every streaming interface starts in (inactive).
pub const DEFAULT_ALTERNATE_SETTING: u8 = 0;

} // verus!
