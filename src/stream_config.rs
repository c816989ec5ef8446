//! Validated parameters of one audio stream.
use vstd::prelude::*;

use crate::error::Error;
use crate::terminal_type::TerminalType;

verus! {

/// The largest payload of a full-speed isochronous packet, in octets.
pub const MAX_ISO_EP_SIZE: u64 = 1023;

/// Sample encodings.
#[derive(Clone, Copy, Debug, PartialEq, Eq, Structural)]
pub enum Format {
    /// Signed, 16 bits per subframe, little endian
    S16le,
    /// Signed, 24 bits per subframe, little endian
    S24le,
}

impl Format {
    pub open spec fn spec_bytes_per_sample(self) -> u8 {
        match self {
            Format::S16le => 2,
            Format::S24le => 3,
        }
    }

    /// Octets in one subframe (bSubFrameSize).
    #[verifier::when_used_as_spec(spec_bytes_per_sample)]
    pub fn bytes_per_sample(self) -> (r: u8)
        ensures
            r == self.spec_bytes_per_sample(),
    {
        match self {
            Format::S16le => 2,
            Format::S24le => 3,
        }
    }

    pub open spec fn spec_bit_resolution(self) -> u8 {
        match self {
            Format::S16le => 16,
            Format::S24le => 24,
        }
    }

    /// Significant bits in one subframe (bBitResolution).
    #[verifier::when_used_as_spec(spec_bit_resolution)]
    pub fn bit_resolution(self) -> (r: u8)
        ensures
            r == self.spec_bit_resolution(),
    {
        match self {
            Format::S16le => 16,
            Format::S24le => 24,
        }
    }
}

/// Sampling rates that a streaming endpoint supports.
#[derive(Debug)]
pub enum Rates {
    /// A continuous range of rates in samples/second: minimum, maximum. The
    /// maximum is greater than the minimum.
    Continuous(u32, u32),
    /// A set of discrete rates in samples/second.
    Discrete(Vec<u32>),
}

/// The largest rate of `s`; 0 for an empty sequence.
pub open spec fn max_rate(s: Seq<u32>) -> u32
    decreases s.len(),
{
    if s.len() == 0 {
        0
    } else {
        let m = max_rate(s.drop_last());
        if s.last() > m {
            s.last()
        } else {
            m
        }
    }
}

/// Octets per isochronous packet (one per millisecond frame) that a stream of
/// `channels` channels in `format` needs at `rate` samples/second.
pub open spec fn spec_packet_size(format: Format, channels: u8, rate: u32) -> int {
    (channels as int * format.spec_bytes_per_sample() as int * rate as int) / 1000
}

/// The packet size at `rate` fits in one full-speed isochronous packet.
pub open spec fn fits_bandwidth(format: Format, channels: u8, rate: u32) -> bool {
    spec_packet_size(format, channels, rate) <= MAX_ISO_EP_SIZE
}

/// Computes the isochronous packet size for the given parameters.
pub fn packet_size(format: Format, channels: u8, max_rate: u32) -> (r: Result<u16, Error>)
    ensures
        fits_bandwidth(format, channels, max_rate) <==> r is Ok,
        r is Ok ==> r->Ok_0 == spec_packet_size(format, channels, max_rate),
        r is Err ==> r->Err_0 is BandwidthExceeded,
{
    let bps: u8 = format.bytes_per_sample();
    assert(channels as u64 * bps as u64 <= 765) by (nonlinear_arith)
        requires
            bps <= 3,
    ;
    let octets_per_frame: u64 = channels as u64 * bps as u64;
    assert(octets_per_frame * max_rate as u64 <= 765 * 0xffff_ffffu64) by (nonlinear_arith)
        requires
            octets_per_frame <= 765,
    ;
    let ep_size: u64 = octets_per_frame * max_rate as u64 / 1000;
    if ep_size > MAX_ISO_EP_SIZE {
        return Err(Error::BandwidthExceeded);
    }
    Ok(ep_size as u16)
}

/// A validated stream configuration.
#[derive(Debug)]
pub struct StreamConfig {
    format: Format,
    channels: u8,
    rates: Rates,
    terminal_type: TerminalType,
    ep_size: u16,
}

/// The largest rate of a rate set.
pub open spec fn rates_max(rates: Rates) -> u32 {
    match rates {
        Rates::Continuous(_, max) => max,
        Rates::Discrete(v) => max_rate(v@),
    }
}

impl StreamConfig {
    pub closed spec fn spec_format(&self) -> Format {
        self.format
    }

    pub closed spec fn spec_channels(&self) -> u8 {
        self.channels
    }

    pub closed spec fn spec_rates(&self) -> Rates {
        self.rates
    }

    pub closed spec fn spec_terminal_type(&self) -> TerminalType {
        self.terminal_type
    }

    pub closed spec fn spec_ep_size(&self) -> u16 {
        self.ep_size
    }

    /// The packet size is the one the format, channels and largest rate
    /// need, and fits in an isochronous packet; a discrete rate set is not
    /// empty, a continuous range is not empty.
    pub open spec fn wf(&self) -> bool {
        &&& self.spec_ep_size() == spec_packet_size(
            self.spec_format(),
            self.spec_channels(),
            rates_max(self.spec_rates()),
        )
        &&& self.spec_ep_size() <= MAX_ISO_EP_SIZE
        &&& match self.spec_rates() {
            Rates::Continuous(min, max) => min < max,
            Rates::Discrete(v) => v@.len() > 0,
        }
    }

    /// Creates a configuration with one or more discrete sampling rates in
    /// samples/second. The packet size follows from the largest rate.
    pub fn new_discrete(
        format: Format,
        channels: u8,
        rates: &[u32],
        terminal_type: TerminalType,
    ) -> (r: Result<StreamConfig, Error>)
        requires
            rates@.len() > 0,
        ensures
            r is Ok <==> fits_bandwidth(format, channels, max_rate(rates@)),
            r is Err ==> r->Err_0 is BandwidthExceeded,
            r is Ok ==> {
                let c = r->Ok_0;
                &&& c.wf()
                &&& c.spec_format() == format
                &&& c.spec_channels() == channels
                &&& c.spec_terminal_type() == terminal_type
                &&& c.spec_rates() is Discrete
                &&& c.spec_rates()->Discrete_0@ == rates@
                &&& c.spec_ep_size() == spec_packet_size(format, channels, max_rate(rates@))
            },
    {
        let mut max: u32 = 0;
        let mut i: usize = 0;
        while i < rates.len()
            invariant
                i <= rates@.len(),
                max == max_rate(rates@.subrange(0, i as int)),
            decreases rates@.len() - i,
        {
            assert(rates@.subrange(0, i as int + 1).drop_last() == rates@.subrange(0, i as int));
            if rates[i] > max {
                max = rates[i];
            }
            i += 1;
        }
        assert(rates@.subrange(0, rates@.len() as int) == rates@);
        let ep_size = match packet_size(format, channels, max) {
            Ok(s) => s,
            Err(e) => return Err(e),
        };
        let mut v: Vec<u32> = Vec::new();
        let mut j: usize = 0;
        while j < rates.len()
            invariant
                j <= rates@.len(),
                v@ == rates@.subrange(0, j as int),
            decreases rates@.len() - j,
        {
            v.push(rates[j]);
            j += 1;
        }
        Ok(StreamConfig { format, channels, rates: Rates::Discrete(v), terminal_type, ep_size })
    }

    /// Creates a configuration with a continuous range of sampling rates in
    /// samples/second. The packet size follows from the maximum.
    pub fn new_continuous(
        format: Format,
        channels: u8,
        min_rate: u32,
        max_rate: u32,
        terminal_type: TerminalType,
    ) -> (r: Result<StreamConfig, Error>)
        ensures
            r is Ok <==> min_rate < max_rate && fits_bandwidth(format, channels, max_rate),
            min_rate >= max_rate ==> r is Err && r->Err_0 is InvalidValue,
            min_rate < max_rate && !fits_bandwidth(format, channels, max_rate) ==> r is Err
                && r->Err_0 is BandwidthExceeded,
            r is Ok ==> {
                let c = r->Ok_0;
                &&& c.wf()
                &&& c.spec_format() == format
                &&& c.spec_channels() == channels
                &&& c.spec_terminal_type() == terminal_type
                &&& c.spec_rates() == Rates::Continuous(min_rate, max_rate)
                &&& c.spec_ep_size() == spec_packet_size(format, channels, max_rate)
            },
    {
        if min_rate >= max_rate {
            return Err(Error::InvalidValue);
        }
        let ep_size = match packet_size(format, channels, max_rate) {
            Ok(s) => s,
            Err(e) => return Err(e),
        };
        Ok(
            StreamConfig {
                format,
                channels,
                rates: Rates::Continuous(min_rate, max_rate),
                terminal_type,
                ep_size,
            },
        )
    }

    /// The sample encoding.
    pub fn format(&self) -> (r: Format)
        ensures
            r == self.spec_format(),
    {
        self.format
    }

    /// The number of channels.
    pub fn channels(&self) -> (r: u8)
        ensures
            r == self.spec_channels(),
    {
        self.channels
    }

    /// The supported sampling rates.
    pub fn rates(&self) -> (r: &Rates)
        ensures
            *r == self.spec_rates(),
    {
        &self.rates
    }

    /// The terminal type of the stream's own terminal.
    pub fn terminal_type(&self) -> (r: TerminalType)
        ensures
            r == self.spec_terminal_type(),
    {
        self.terminal_type
    }

    /// The isochronous packet size, in octets.
    pub fn ep_size(&self) -> (r: u16)
        ensures
            r == self.spec_ep_size(),
    {
        self.ep_size
    }
}

} // verus!
