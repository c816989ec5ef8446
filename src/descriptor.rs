//! Descriptor records and the byte layouts of the class-specific ones.
use vstd::prelude::*;

use crate::class_codes::{
    AS_GENERAL, EP_GENERAL, FORMAT_TYPE, FORMAT_TYPE_I, HEADER, INPUT_TERMINAL, OUTPUT_TERMINAL,
    PCM,
};
use crate::stream_config::{Format, Rates};
use usb_device::UsbError;

verus! {

/// One descriptor of the configuration, in the order the host reads them.
/// Standard interface and endpoint descriptors are written by the USB stack,
/// which knows the endpoint's address; class-specific ones carry their body
/// (everything after the length and type bytes).
#[derive(Debug, PartialEq, Eq)]
pub enum Descriptor {
    /// A standard interface descriptor.
    Interface { number: u8, alt_setting: u8, class: u8, sub_class: u8, protocol: u8 },
    /// A class-specific descriptor: its type and body.
    ClassSpecific { descriptor_type: u8, body: Vec<u8> },
    /// The standard endpoint descriptor of the input (`true`) or output
    /// stream's endpoint.
    Endpoint { input: bool },
}

/// What a `Descriptor` stands for, with the body as a sequence.
pub enum DescriptorSpec {
    Interface { number: u8, alt_setting: u8, class: u8, sub_class: u8, protocol: u8 },
    ClassSpecific { descriptor_type: u8, body: Seq<u8> },
    Endpoint { input: bool },
}

impl View for Descriptor {
    type V = DescriptorSpec;

    open spec fn view(&self) -> DescriptorSpec {
        match self {
            Descriptor::Interface { number, alt_setting, class, sub_class, protocol } =>
                DescriptorSpec::Interface {
                number: *number,
                alt_setting: *alt_setting,
                class: *class,
                sub_class: *sub_class,
                protocol: *protocol,
            },
            Descriptor::ClassSpecific { descriptor_type, body } => DescriptorSpec::ClassSpecific {
                descriptor_type: *descriptor_type,
                body: body@,
            },
            Descriptor::Endpoint { input } => DescriptorSpec::Endpoint { input: *input },
        }
    }
}

/// The views of a sequence of descriptors.
pub open spec fn views(s: Seq<Descriptor>) -> Seq<DescriptorSpec> {
    s.map_values(|d: Descriptor| d@)
}

/// Appends `d` to `out`.
pub fn emit(out: &mut Vec<Descriptor>, d: Descriptor)
    ensures
        views(final(out)@) == views(old(out)@).push(d@),
{
    let ghost v = d@;
    out.push(d);
    assert(views(out@) =~= views(old(out)@).push(v));
}

/// A 16-bit value as two little-endian bytes.
pub open spec fn u16le(v: u16) -> Seq<u8> {
    seq![(v % 256) as u8, (v / 256) as u8]
}

/// A rate as three little-endian bytes.
pub open spec fn u24le(v: u32) -> Seq<u8> {
    seq![(v % 256) as u8, ((v / 256) % 256) as u8, ((v / 65536) % 256) as u8]
}

/// Each rate of `s` as three little-endian bytes, in order.
pub open spec fn u24le_all(s: Seq<u32>) -> Seq<u8>
    decreases s.len(),
{
    if s.len() == 0 {
        seq![]
    } else {
        u24le_all(s.drop_last()) + u24le(s.last())
    }
}

/// Body of an Input Terminal descriptor (12 bytes with length and type).
pub open spec fn input_terminal_body(id: u8, terminal_type: u16, channels: u8) -> Seq<u8> {
    seq![INPUT_TERMINAL, id] + u16le(terminal_type) + seq![0x00, channels, 0x03, 0x00, 0x00, 0x00]
}

/// Body of an Output Terminal descriptor (9 bytes with length and type).
pub open spec fn output_terminal_body(id: u8, terminal_type: u16, source: u8) -> Seq<u8> {
    seq![OUTPUT_TERMINAL, id] + u16le(terminal_type) + seq![0x00, source, 0x00]
}

/// The total length of the class-specific audio-control descriptors with
/// `n` streams: the header and, per stream, a byte of the interface list and
/// the two terminal descriptors.
pub open spec fn ac_total_length(n: nat) -> int {
    8 + 22 * (n as int)
}

/// Body of the class-specific AC interface header listing `interfaces`.
pub open spec fn ac_header_body(interfaces: Seq<u8>) -> Seq<u8> {
    seq![HEADER, 0x00, 0x01] + u16le(ac_total_length(interfaces.len()) as u16) + seq![
        (interfaces.len() % 256) as u8,
    ] + interfaces
}

/// Body of the class-specific AS general descriptor linked to terminal `link`.
pub open spec fn as_general_body(link: u8) -> Seq<u8> {
    seq![AS_GENERAL, link, 0x01] + u16le(PCM)
}

/// The sampling-frequency part of a Format Type I descriptor.
pub open spec fn rates_body(rates: Rates) -> Seq<u8> {
    match rates {
        Rates::Continuous(min, max) => seq![0x00u8] + u24le(min) + u24le(max),
        Rates::Discrete(v) => seq![(v@.len() % 256) as u8] + u24le_all(v@),
    }
}

/// Body of a Format Type I descriptor.
pub open spec fn format_type_body(format: Format, channels: u8, rates: Rates) -> Seq<u8> {
    seq![
        FORMAT_TYPE,
        FORMAT_TYPE_I,
        channels,
        format.spec_bytes_per_sample(),
        format.spec_bit_resolution(),
    ] + rates_body(rates)
}

/// Body of the class-specific isochronous audio data endpoint descriptor.
pub open spec fn cs_endpoint_body() -> Seq<u8> {
    seq![EP_GENERAL, 0x00, 0x00, 0x00, 0x00]
}

/// An append-only byte buffer of fixed capacity that refuses to grow past it.
pub struct ByteCursor {
    bytes: Vec<u8>,
    capacity: usize,
}

impl View for ByteCursor {
    type V = Seq<u8>;

    closed spec fn view(&self) -> Seq<u8> {
        self.bytes@
    }
}

impl ByteCursor {
    pub closed spec fn spec_capacity(&self) -> nat {
        self.capacity as nat
    }

    pub closed spec fn wf(&self) -> bool {
        self.bytes@.len() <= self.capacity
    }

    /// An empty buffer that holds up to `capacity` bytes.
    pub fn new(capacity: usize) -> (r: ByteCursor)
        ensures
            r.wf(),
            r@ == Seq::<u8>::empty(),
            r.spec_capacity() == capacity,
    {
        ByteCursor { bytes: Vec::new(), capacity }
    }

    /// The number of bytes written.
    pub fn len(&self) -> (r: usize)
        ensures
            r == self@.len(),
    {
        self.bytes.len()
    }

    /// Appends `b`, or fails with `BufferOverflow` when the buffer is full.
    pub fn push(&mut self, b: u8) -> (r: Result<(), UsbError>)
        requires
            old(self).wf(),
        ensures
            final(self).wf(),
            final(self).spec_capacity() == old(self).spec_capacity(),
            old(self)@.len() < old(self).spec_capacity() ==> r is Ok && final(self)@ == old(
                self,
            )@.push(b),
            old(self)@.len() >= old(self).spec_capacity() ==> r is Err && r->Err_0 is BufferOverflow
                && final(self)@ == old(self)@,
    {
        if self.bytes.len() >= self.capacity {
            return Err(UsbError::BufferOverflow);
        }
        self.bytes.push(b);
        Ok(())
    }

    /// Appends the three little-endian low bytes of `v`, or fails with
    /// `BufferOverflow` when they do not fit.
    pub fn push_u24le(&mut self, v: u32) -> (r: Result<(), UsbError>)
        requires
            old(self).wf(),
        ensures
            final(self).wf(),
            final(self).spec_capacity() == old(self).spec_capacity(),
            old(self)@.len() + 3 <= old(self).spec_capacity() ==> r is Ok && final(self)@ == old(
                self,
            )@ + u24le(v),
            old(self)@.len() + 3 > old(self).spec_capacity() ==> r is Err && r->Err_0 is BufferOverflow
                && final(self)@ == old(self)@,
    {
        if self.bytes.len() > self.capacity || self.capacity - self.bytes.len() < 3 {
            return Err(UsbError::BufferOverflow);
        }
        self.bytes.push((v % 256) as u8);
        self.bytes.push(((v / 256) % 256) as u8);
        self.bytes.push(((v / 65536) % 256) as u8);
        assert(self.bytes@ =~= old(self)@ + u24le(v));
        Ok(())
    }

    /// The bytes written.
    pub fn into_bytes(self) -> (r: Vec<u8>)
        ensures
            r@ == self@,
    {
        self.bytes
    }
}

/// The Format Type I descriptor body fits in `FORMAT_TYPE_CAPACITY` bytes.
pub open spec fn format_type_fits(format: Format, channels: u8, rates: Rates) -> bool {
    format_type_body(format, channels, rates).len() <= FORMAT_TYPE_CAPACITY
}

/// The room for a Format Type I descriptor body.
pub const FORMAT_TYPE_CAPACITY: usize = 128;

/// Builds the body of a Format Type I descriptor; fails with
/// `BufferOverflow` where the rates do not fit.
pub fn format_type_descriptor(format: Format, channels: u8, rates: &Rates) -> (r: Result<
    Vec<u8>,
    UsbError,
>)
    ensures
        r is Ok <==> format_type_fits(format, channels, *rates),
        r is Ok ==> r->Ok_0@ == format_type_body(format, channels, *rates),
        r is Err ==> r->Err_0 is BufferOverflow,
{
    let mut cur = ByteCursor::new(FORMAT_TYPE_CAPACITY);
    let head: [u8; 5] = [
        FORMAT_TYPE,
        FORMAT_TYPE_I,
        channels,
        format.bytes_per_sample(),
        format.bit_resolution(),
    ];
    let mut k: usize = 0;
    while k < 5
        invariant
            k <= 5,
            cur.wf(),
            cur.spec_capacity() == FORMAT_TYPE_CAPACITY,
            cur@ == head@.subrange(0, k as int),
        decreases 5 - k,
    {
        let _ = cur.push(head[k]);
        assert(head@.subrange(0, k as int + 1) =~= head@.subrange(0, k as int).push(head@[k as int]));
        k += 1;
    }
    assert(head@ =~= seq![
        FORMAT_TYPE,
        FORMAT_TYPE_I,
        channels,
        format.spec_bytes_per_sample(),
        format.spec_bit_resolution(),
    ]);
    match rates {
        Rates::Continuous(min, max) => {
            let _ = cur.push(0x00);
            let _ = cur.push_u24le(*min);
            let _ = cur.push_u24le(*max);
            assert(cur@ =~= format_type_body(format, channels, *rates));
        },
        Rates::Discrete(v) => {
            let _ = cur.push((v.len() % 256) as u8);
            let ghost start = cur@;
            let mut i: usize = 0;
            while i < v.len()
                invariant
                    i <= v@.len(),
                    *rates is Discrete,
                    rates->Discrete_0@ == v@,
                    cur.wf(),
                    cur.spec_capacity() == FORMAT_TYPE_CAPACITY,
                    start.len() == 6,
                    cur@ == start + u24le_all(v@.subrange(0, i as int)),
                decreases v@.len() - i,
            {
                proof {
                    lemma_u24le_all_len(v@.subrange(0, i as int));
                    assert(v@.subrange(0, i as int + 1).drop_last() =~= v@.subrange(0, i as int));
                }
                if let Err(e) = cur.push_u24le(v[i]) {
                    proof {
                        lemma_u24le_all_len(v@);
                        assert(cur@.len() == 6 + 3 * i);
                        assert(6 + 3 * v@.len() > FORMAT_TYPE_CAPACITY);
                        assert(format_type_body(format, channels, *rates).len() == 6 + 3 * v@.len());
                    }
                    return Err(e);
                }
                i += 1;
            }
            assert(v@.subrange(0, v@.len() as int) =~= v@);
            assert(cur@ =~= format_type_body(format, channels, *rates));
        },
    }
    proof {
        lemma_format_type_len(format, channels, *rates);
    }
    Ok(cur.into_bytes())
}

/// Three bytes per rate.
pub proof fn lemma_u24le_all_len(s: Seq<u32>)
    ensures
        u24le_all(s).len() == 3 * s.len(),
    decreases s.len(),
{
    if s.len() > 0 {
        lemma_u24le_all_len(s.drop_last());
    }
}

/// A Format Type I body is six bytes and three per discrete rate, or twelve
/// bytes for a continuous range.
pub proof fn lemma_format_type_len(format: Format, channels: u8, rates: Rates)
    ensures
        format_type_body(format, channels, rates).len() == match rates {
            Rates::Continuous(_, _) => 12,
            Rates::Discrete(v) => 6 + 3 * v@.len(),
        },
{
    if let Rates::Discrete(v) = rates {
        lemma_u24le_all_len(v@);
    }
}

} // verus!
