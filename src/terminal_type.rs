//! Terminal types of the USB Audio terminal-types definition.
use vstd::prelude::*;

verus! {

/// The role of a terminal: a USB streaming terminal, an input (source of
/// sound) or an output (sink of sound), and the like.
#[derive(Clone, Copy, Debug, PartialEq, Eq, Structural)]
pub enum TerminalType {
    UsbUndefined,
    UsbStreaming,
    UsbVendorSpecific,
    InUndefined,
    InMicrophone,
    InDesktopMicrophone,
    InPersonalMicrophone,
    InOmniDirectionalMicrophone,
    InMicrophoneArray,
    InProcessingMicrophoneArray,
    OutUndefined,
    OutSpeaker,
    OutHeadphones,
    OutHeadMountedDisplayAudio,
    OutDesktopSpeaker,
    OutRoomSpeaker,
    OutCommunicationSpeaker,
    OutLowFrequencyEffectsSpeaker,
    BidiUndefined,
    BidiHandset,
    BidiHeadset,
    BidiSpeakerphone,
    BidiEchoSuppressingSpeakerphone,
    BidiEchoCancelingSpeakerphone,
    TelUndefined,
    TelPhoneLine,
    TelTelephone,
    TelDownLinePhone,
    ExtUndefined,
    ExtAnalogConnector,
    ExtDigitalAudioInterface,
    ExtLineConnector,
    ExtLegacyAudioConnector,
    ExtSpdifInterface,
    ExtDa1394Stream,
    ExtDv1394StreamSoundtrack,
    EmbUndefined,
    EmbLevelCalibrationNoiseSource,
    EmbEqualizationNoise,
    EmbCdPlayer,
    EmbDat,
    EmbDcc,
    EmbMiniDisk,
    EmbAnalogTape,
    EmbPhonograph,
    EmbVcrAudio,
    EmbVideoDiscAudio,
    EmbDvdAudio,
    EmbTvTunerAudio,
    EmbSatelliteReceiverAudio,
    EmbCableTunerAudio,
    EmbDssAudio,
    EmbRadioReceiver,
    EmbRadioTransmitter,
    EmbMultiTrackRecorder,
    EmbSynthesizer,
}

impl TerminalType {
    /// The 16-bit code of the terminal type (wTerminalType).
    pub open spec fn spec_code(self) -> u16 {
        match self {
            TerminalType::UsbUndefined => 0x0100,
            TerminalType::UsbStreaming => 0x0101,
            TerminalType::UsbVendorSpecific => 0x01FF,
            TerminalType::InUndefined => 0x0200,
            TerminalType::InMicrophone => 0x0201,
            TerminalType::InDesktopMicrophone => 0x0202,
            TerminalType::InPersonalMicrophone => 0x0203,
            TerminalType::InOmniDirectionalMicrophone => 0x0204,
            TerminalType::InMicrophoneArray => 0x0205,
            TerminalType::InProcessingMicrophoneArray => 0x0206,
            TerminalType::OutUndefined => 0x0300,
            TerminalType::OutSpeaker => 0x0301,
            TerminalType::OutHeadphones => 0x0302,
            TerminalType::OutHeadMountedDisplayAudio => 0x0303,
            TerminalType::OutDesktopSpeaker => 0x0304,
            TerminalType::OutRoomSpeaker => 0x0305,
            TerminalType::OutCommunicationSpeaker => 0x0306,
            TerminalType::OutLowFrequencyEffectsSpeaker => 0x0307,
            TerminalType::BidiUndefined => 0x0400,
            TerminalType::BidiHandset => 0x0401,
            TerminalType::BidiHeadset => 0x0402,
            TerminalType::BidiSpeakerphone => 0x0403,
            TerminalType::BidiEchoSuppressingSpeakerphone => 0x0404,
            TerminalType::BidiEchoCancelingSpeakerphone => 0x0405,
            TerminalType::TelUndefined => 0x0500,
            TerminalType::TelPhoneLine => 0x0501,
            TerminalType::TelTelephone => 0x0502,
            TerminalType::TelDownLinePhone => 0x0503,
            TerminalType::ExtUndefined => 0x0600,
            TerminalType::ExtAnalogConnector => 0x0601,
            TerminalType::ExtDigitalAudioInterface => 0x0602,
            TerminalType::ExtLineConnector => 0x0603,
            TerminalType::ExtLegacyAudioConnector => 0x0604,
            TerminalType::ExtSpdifInterface => 0x0605,
            TerminalType::ExtDa1394Stream => 0x0606,
            TerminalType::ExtDv1394StreamSoundtrack => 0x0607,
            TerminalType::EmbUndefined => 0x0700,
            TerminalType::EmbLevelCalibrationNoiseSource => 0x0701,
            TerminalType::EmbEqualizationNoise => 0x0702,
            TerminalType::EmbCdPlayer => 0x0703,
            TerminalType::EmbDat => 0x0704,
            TerminalType::EmbDcc => 0x0705,
            TerminalType::EmbMiniDisk => 0x0706,
            TerminalType::EmbAnalogTape => 0x0707,
            TerminalType::EmbPhonograph => 0x0708,
            TerminalType::EmbVcrAudio => 0x0709,
            TerminalType::EmbVideoDiscAudio => 0x070A,
            TerminalType::EmbDvdAudio => 0x070B,
            TerminalType::EmbTvTunerAudio => 0x070C,
            TerminalType::EmbSatelliteReceiverAudio => 0x070D,
            TerminalType::EmbCableTunerAudio => 0x070E,
            TerminalType::EmbDssAudio => 0x070F,
            TerminalType::EmbRadioReceiver => 0x0710,
            TerminalType::EmbRadioTransmitter => 0x0711,
            TerminalType::EmbMultiTrackRecorder => 0x0712,
            TerminalType::EmbSynthesizer => 0x0713,
        }
    }

    /// The 16-bit code of the terminal type (wTerminalType).
    #[verifier::when_used_as_spec(spec_code)]
    pub fn code(self) -> (r: u16)
        ensures
            r == self.spec_code(),
    {
        match self {
            TerminalType::UsbUndefined => 0x0100,
            TerminalType::UsbStreaming => 0x0101,
            TerminalType::UsbVendorSpecific => 0x01FF,
            TerminalType::InUndefined => 0x0200,
            TerminalType::InMicrophone => 0x0201,
            TerminalType::InDesktopMicrophone => 0x0202,
            TerminalType::InPersonalMicrophone => 0x0203,
            TerminalType::InOmniDirectionalMicrophone => 0x0204,
            TerminalType::InMicrophoneArray => 0x0205,
            TerminalType::InProcessingMicrophoneArray => 0x0206,
            TerminalType::OutUndefined => 0x0300,
            TerminalType::OutSpeaker => 0x0301,
            TerminalType::OutHeadphones => 0x0302,
            TerminalType::OutHeadMountedDisplayAudio => 0x0303,
            TerminalType::OutDesktopSpeaker => 0x0304,
            TerminalType::OutRoomSpeaker => 0x0305,
            TerminalType::OutCommunicationSpeaker => 0x0306,
            TerminalType::OutLowFrequencyEffectsSpeaker => 0x0307,
            TerminalType::BidiUndefined => 0x0400,
            TerminalType::BidiHandset => 0x0401,
            TerminalType::BidiHeadset => 0x0402,
            TerminalType::BidiSpeakerphone => 0x0403,
            TerminalType::BidiEchoSuppressingSpeakerphone => 0x0404,
            TerminalType::BidiEchoCancelingSpeakerphone => 0x0405,
            TerminalType::TelUndefined => 0x0500,
            TerminalType::TelPhoneLine => 0x0501,
            TerminalType::TelTelephone => 0x0502,
            TerminalType::TelDownLinePhone => 0x0503,
            TerminalType::ExtUndefined => 0x0600,
            TerminalType::ExtAnalogConnector => 0x0601,
            TerminalType::ExtDigitalAudioInterface => 0x0602,
            TerminalType::ExtLineConnector => 0x0603,
            TerminalType::ExtLegacyAudioConnector => 0x0604,
            TerminalType::ExtSpdifInterface => 0x0605,
            TerminalType::ExtDa1394Stream => 0x0606,
            TerminalType::ExtDv1394StreamSoundtrack => 0x0607,
            TerminalType::EmbUndefined => 0x0700,
            TerminalType::EmbLevelCalibrationNoiseSource => 0x0701,
            TerminalType::EmbEqualizationNoise => 0x0702,
            TerminalType::EmbCdPlayer => 0x0703,
            TerminalType::EmbDat => 0x0704,
            TerminalType::EmbDcc => 0x0705,
            TerminalType::EmbMiniDisk => 0x0706,
            TerminalType::EmbAnalogTape => 0x0707,
            TerminalType::EmbPhonograph => 0x0708,
            TerminalType::EmbVcrAudio => 0x0709,
            TerminalType::EmbVideoDiscAudio => 0x070A,
            TerminalType::EmbDvdAudio => 0x070B,
            TerminalType::EmbTvTunerAudio => 0x070C,
            TerminalType::EmbSatelliteReceiverAudio => 0x070D,
            TerminalType::EmbCableTunerAudio => 0x070E,
            TerminalType::EmbDssAudio => 0x070F,
            TerminalType::EmbRadioReceiver => 0x0710,
            TerminalType::EmbRadioTransmitter => 0x0711,
            TerminalType::EmbMultiTrackRecorder => 0x0712,
            TerminalType::EmbSynthesizer => 0x0713,
        }
    }
}

impl From<TerminalType> for u16 {
    fn from(t: TerminalType) -> (r: u16) {
        t.code()
    }
}

impl vstd::std_specs::convert::FromSpecImpl<TerminalType> for u16 {
    open spec fn obeys_from_spec() -> bool {
        true
    }

    open spec fn from_spec(t: TerminalType) -> u16 {
        t.spec_code()
    }
}

} // verus!
