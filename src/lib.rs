//! USB Audio Device Class (release 1.0): stream configuration, class-specific
//! descriptors and the alternate-setting protocol of up to one input stream
//! and one output stream.
pub mod audio_class;
pub mod class_codes;
pub mod descriptor;
pub mod error;
pub mod stream_config;
pub mod terminal_type;

pub use audio_class::{
    AudioClass, AudioClassBuilder, AudioStream, ControlRequest, Recipient, RequestType,
};
pub use descriptor::{ByteCursor, Descriptor, DescriptorSpec};
pub use error::Error;
pub use stream_config::{Format, Rates, StreamConfig};
pub use terminal_type::TerminalType;
