//! Descriptors: the tagged, length-prefixed records inside a table, and the dispatch of each tag
//! to its decoder.
use vstd::prelude::*;
use crate::sdt::ServiceDescriptor;

verus! {

/// A descriptor, or a descriptor loop, that cannot be read.
#[derive(Debug, Clone, Copy, PartialEq, Eq, Structural)]
pub enum DescriptorError {
    /// The payload is shorter than its decoder needs, or than the length that the loop declares.
    NotEnoughData { tag: u8, actual: usize, expected: usize },
    /// The declared payload length runs past the end of the buffer.
    TagTooLongForBuffer { taglen: usize, buflen: usize },
    /// Fewer than the two bytes of tag and length remain.
    BufferTooShort { buflen: usize },
}

/// A descriptor that this crate does not decode: its tag and its raw payload.
pub struct UnknownDescriptor<'buf> {
    pub tag: u8,
    pub payload: &'buf [u8],
}

impl<'buf> UnknownDescriptor<'buf> {
    pub fn new(tag: u8, payload: &'buf [u8]) -> (r: UnknownDescriptor<'buf>)
        ensures
            r.tag == tag,
            r.payload@ == payload@,
    {
        UnknownDescriptor { tag, payload }
    }
}

/// All descriptors that a table of this standard may carry, by tag. The service descriptor is
/// decoded; every other tag keeps its raw payload.
pub enum En300_468Descriptors<'buf> {
    Reserved(UnknownDescriptor<'buf>),
    VideoStream(UnknownDescriptor<'buf>),
    AudioStream(UnknownDescriptor<'buf>),
    Hierarchy(UnknownDescriptor<'buf>),
    Registration(UnknownDescriptor<'buf>),
    DataStreamAlignment(UnknownDescriptor<'buf>),
    TargetBackgroundGrid(UnknownDescriptor<'buf>),
    VideoWindow(UnknownDescriptor<'buf>),
    CA(UnknownDescriptor<'buf>),
    ISO639Language(UnknownDescriptor<'buf>),
    SystemClock(UnknownDescriptor<'buf>),
    MultiplexBufferUtilization(UnknownDescriptor<'buf>),
    Copyright(UnknownDescriptor<'buf>),
    MaximumBitrate(UnknownDescriptor<'buf>),
    PrivateDataIndicator(UnknownDescriptor<'buf>),
    SmoothingBuffer(UnknownDescriptor<'buf>),
    STD(UnknownDescriptor<'buf>),
    IBP(UnknownDescriptor<'buf>),
    /// ISO IEC 13818-6
    IsoIec13818dash6(UnknownDescriptor<'buf>),
    MPEG4Video(UnknownDescriptor<'buf>),
    MPEG4Audio(UnknownDescriptor<'buf>),
    IOD(UnknownDescriptor<'buf>),
    SL(UnknownDescriptor<'buf>),
    FMC(UnknownDescriptor<'buf>),
    ExternalESID(UnknownDescriptor<'buf>),
    MuxCode(UnknownDescriptor<'buf>),
    FmxBufferSize(UnknownDescriptor<'buf>),
    MultiplexBuffer(UnknownDescriptor<'buf>),
    UserPrivate(UnknownDescriptor<'buf>),
    NetworkName(UnknownDescriptor<'buf>),
    ServiceList(UnknownDescriptor<'buf>),
    Stuffing(UnknownDescriptor<'buf>),
    SatelliteDeliverySystem(UnknownDescriptor<'buf>),
    CableDeliverySystem(UnknownDescriptor<'buf>),
    BouquetName(UnknownDescriptor<'buf>),
    Service(ServiceDescriptor<'buf>),
    CountryAvailability(UnknownDescriptor<'buf>),
    Linkage(UnknownDescriptor<'buf>),
    NvodReference(UnknownDescriptor<'buf>),
    TimeShiftedService(UnknownDescriptor<'buf>),
    ShortEvent(UnknownDescriptor<'buf>),
    ExtendedEvent(UnknownDescriptor<'buf>),
    TimeShiftedEvent(UnknownDescriptor<'buf>),
    Component(UnknownDescriptor<'buf>),
    Mosaic(UnknownDescriptor<'buf>),
    StreamIdentifier(UnknownDescriptor<'buf>),
    CaIdentifier(UnknownDescriptor<'buf>),
    Content(UnknownDescriptor<'buf>),
    ParentalRating(UnknownDescriptor<'buf>),
    Teletext(UnknownDescriptor<'buf>),
    Telephone(UnknownDescriptor<'buf>),
    LocalTimeOffset(UnknownDescriptor<'buf>),
    Subtitling(UnknownDescriptor<'buf>),
    TerrestrialDeliverySystem(UnknownDescriptor<'buf>),
    MultilingualNetworkName(UnknownDescriptor<'buf>),
    MultilingualBouquetName(UnknownDescriptor<'buf>),
    MultilingualServiceName(UnknownDescriptor<'buf>),
    MultilingualComponent(UnknownDescriptor<'buf>),
    PrivateDataSpecifier(UnknownDescriptor<'buf>),
    ServiceMove(UnknownDescriptor<'buf>),
    ShortSmoothingBuffer(UnknownDescriptor<'buf>),
    FrequencyList(UnknownDescriptor<'buf>),
    PartialTransportStream(UnknownDescriptor<'buf>),
    DataBroadcast(UnknownDescriptor<'buf>),
    CaSystem(UnknownDescriptor<'buf>),
    DataBroadcastId(UnknownDescriptor<'buf>),
    Forbidden(UnknownDescriptor<'buf>),
}

/// Whether `u` holds the tag `tag` and the payload `payload`.
pub open spec fn unknown_holds(u: UnknownDescriptor, tag: u8, payload: Seq<u8>) -> bool {
    u.tag == tag && u.payload@ == payload
}

/// Whether `d` is the variant that the registry gives for `tag`, and holds `payload`.
pub open spec fn describes(d: En300_468Descriptors, tag: u8, payload: Seq<u8>) -> bool {
    match d {
        En300_468Descriptors::Reserved(u) => (tag <= 1 || (36 <= tag <= 63)) && unknown_holds(u, tag, payload),
        En300_468Descriptors::VideoStream(u) => (tag == 2) && unknown_holds(u, tag, payload),
        En300_468Descriptors::AudioStream(u) => (tag == 3) && unknown_holds(u, tag, payload),
        En300_468Descriptors::Hierarchy(u) => (tag == 4) && unknown_holds(u, tag, payload),
        En300_468Descriptors::Registration(u) => (tag == 5) && unknown_holds(u, tag, payload),
        En300_468Descriptors::DataStreamAlignment(u) => (tag == 6) && unknown_holds(u, tag, payload),
        En300_468Descriptors::TargetBackgroundGrid(u) => (tag == 7) && unknown_holds(u, tag, payload),
        En300_468Descriptors::VideoWindow(u) => (tag == 8) && unknown_holds(u, tag, payload),
        En300_468Descriptors::CA(u) => (tag == 9) && unknown_holds(u, tag, payload),
        En300_468Descriptors::ISO639Language(u) => (tag == 10) && unknown_holds(u, tag, payload),
        En300_468Descriptors::SystemClock(u) => (tag == 11) && unknown_holds(u, tag, payload),
        En300_468Descriptors::MultiplexBufferUtilization(u) => (tag == 12) && unknown_holds(u, tag, payload),
        En300_468Descriptors::Copyright(u) => (tag == 13) && unknown_holds(u, tag, payload),
        En300_468Descriptors::MaximumBitrate(u) => (tag == 14) && unknown_holds(u, tag, payload),
        En300_468Descriptors::PrivateDataIndicator(u) => (tag == 15) && unknown_holds(u, tag, payload),
        En300_468Descriptors::SmoothingBuffer(u) => (tag == 16) && unknown_holds(u, tag, payload),
        En300_468Descriptors::STD(u) => (tag == 17) && unknown_holds(u, tag, payload),
        En300_468Descriptors::IBP(u) => (tag == 18) && unknown_holds(u, tag, payload),
        En300_468Descriptors::IsoIec13818dash6(u) => (19 <= tag <= 26) && unknown_holds(u, tag, payload),
        En300_468Descriptors::MPEG4Video(u) => (tag == 27) && unknown_holds(u, tag, payload),
        En300_468Descriptors::MPEG4Audio(u) => (tag == 28) && unknown_holds(u, tag, payload),
        En300_468Descriptors::IOD(u) => (tag == 29) && unknown_holds(u, tag, payload),
        En300_468Descriptors::SL(u) => (tag == 30) && unknown_holds(u, tag, payload),
        En300_468Descriptors::FMC(u) => (tag == 31) && unknown_holds(u, tag, payload),
        En300_468Descriptors::ExternalESID(u) => (tag == 32) && unknown_holds(u, tag, payload),
        En300_468Descriptors::MuxCode(u) => (tag == 33) && unknown_holds(u, tag, payload),
        En300_468Descriptors::FmxBufferSize(u) => (tag == 34) && unknown_holds(u, tag, payload),
        En300_468Descriptors::MultiplexBuffer(u) => (tag == 35) && unknown_holds(u, tag, payload),
        En300_468Descriptors::UserPrivate(u) => ((69 <= tag <= 70) || (103 <= tag <= 254)) && unknown_holds(u, tag, payload),
        En300_468Descriptors::NetworkName(u) => (tag == 0x40) && unknown_holds(u, tag, payload),
        En300_468Descriptors::ServiceList(u) => (tag == 0x41) && unknown_holds(u, tag, payload),
        En300_468Descriptors::Stuffing(u) => (tag == 0x42) && unknown_holds(u, tag, payload),
        En300_468Descriptors::SatelliteDeliverySystem(u) => (tag == 0x43) && unknown_holds(u, tag, payload),
        En300_468Descriptors::CableDeliverySystem(u) => (tag == 0x44) && unknown_holds(u, tag, payload),
        En300_468Descriptors::BouquetName(u) => (tag == 0x47) && unknown_holds(u, tag, payload),
        En300_468Descriptors::Service(s) => tag == 0x48 && s@ == payload,
        En300_468Descriptors::CountryAvailability(u) => (tag == 0x49) && unknown_holds(u, tag, payload),
        En300_468Descriptors::Linkage(u) => (tag == 0x4A) && unknown_holds(u, tag, payload),
        En300_468Descriptors::NvodReference(u) => (tag == 0x4B) && unknown_holds(u, tag, payload),
        En300_468Descriptors::TimeShiftedService(u) => (tag == 0x4C) && unknown_holds(u, tag, payload),
        En300_468Descriptors::ShortEvent(u) => (tag == 0x4D) && unknown_holds(u, tag, payload),
        En300_468Descriptors::ExtendedEvent(u) => (tag == 0x4E) && unknown_holds(u, tag, payload),
        En300_468Descriptors::TimeShiftedEvent(u) => (tag == 0x4F) && unknown_holds(u, tag, payload),
        En300_468Descriptors::Component(u) => (tag == 0x50) && unknown_holds(u, tag, payload),
        En300_468Descriptors::Mosaic(u) => (tag == 0x51) && unknown_holds(u, tag, payload),
        En300_468Descriptors::StreamIdentifier(u) => (tag == 0x52) && unknown_holds(u, tag, payload),
        En300_468Descriptors::CaIdentifier(u) => (tag == 0x53) && unknown_holds(u, tag, payload),
        En300_468Descriptors::Content(u) => (tag == 0x54) && unknown_holds(u, tag, payload),
        En300_468Descriptors::ParentalRating(u) => (tag == 0x55) && unknown_holds(u, tag, payload),
        En300_468Descriptors::Teletext(u) => (tag == 0x56) && unknown_holds(u, tag, payload),
        En300_468Descriptors::Telephone(u) => (tag == 0x57) && unknown_holds(u, tag, payload),
        En300_468Descriptors::LocalTimeOffset(u) => (tag == 0x58) && unknown_holds(u, tag, payload),
        En300_468Descriptors::Subtitling(u) => (tag == 0x59) && unknown_holds(u, tag, payload),
        En300_468Descriptors::TerrestrialDeliverySystem(u) => (tag == 0x5A) && unknown_holds(u, tag, payload),
        En300_468Descriptors::MultilingualNetworkName(u) => (tag == 0x5B) && unknown_holds(u, tag, payload),
        En300_468Descriptors::MultilingualBouquetName(u) => (tag == 0x5C) && unknown_holds(u, tag, payload),
        En300_468Descriptors::MultilingualServiceName(u) => (tag == 0x5D) && unknown_holds(u, tag, payload),
        En300_468Descriptors::MultilingualComponent(u) => (tag == 0x5E) && unknown_holds(u, tag, payload),
        En300_468Descriptors::PrivateDataSpecifier(u) => (tag == 0x5F) && unknown_holds(u, tag, payload),
        En300_468Descriptors::ServiceMove(u) => (tag == 0x60) && unknown_holds(u, tag, payload),
        En300_468Descriptors::ShortSmoothingBuffer(u) => (tag == 0x61) && unknown_holds(u, tag, payload),
        En300_468Descriptors::FrequencyList(u) => (tag == 0x62) && unknown_holds(u, tag, payload),
        En300_468Descriptors::PartialTransportStream(u) => (tag == 0x63) && unknown_holds(u, tag, payload),
        En300_468Descriptors::DataBroadcast(u) => (tag == 0x64) && unknown_holds(u, tag, payload),
        En300_468Descriptors::CaSystem(u) => (tag == 0x65) && unknown_holds(u, tag, payload),
        En300_468Descriptors::DataBroadcastId(u) => (tag == 0x66) && unknown_holds(u, tag, payload),
        En300_468Descriptors::Forbidden(u) => (tag == 0xFF) && unknown_holds(u, tag, payload),
    }
}

/// The payload of the descriptor that starts `buf`, as its length byte declares it.
pub open spec fn payload_of(buf: Seq<u8>) -> Seq<u8> {
    buf.subrange(2, buf[1] + 2)
}

/// Why the descriptor that `buf` holds cannot be decoded, if it cannot.
pub open spec fn descriptor_error(buf: Seq<u8>) -> Option<DescriptorError> {
    if buf.len() < 2 {
        Some(DescriptorError::BufferTooShort { buflen: buf.len() as usize })
    } else if buf[1] + 2 > buf.len() {
        Some(DescriptorError::TagTooLongForBuffer { taglen: buf[1] as usize, buflen: buf.len() as usize })
    } else if buf[0] == 0x48 && buf[1] == 0 {
        Some(DescriptorError::NotEnoughData { tag: 0x48, actual: 0, expected: 1 })
    } else {
        None
    }
}

/// Whether `r` is what decoding the descriptor that `buf` holds gives.
pub open spec fn decodes_to(buf: Seq<u8>, r: Result<En300_468Descriptors, DescriptorError>) -> bool {
    match descriptor_error(buf) {
        Some(e) => r == Err::<En300_468Descriptors, _>(e),
        None => r matches Ok(d) && describes(d, buf[0], payload_of(buf)),
    }
}

impl<'buf> En300_468Descriptors<'buf> {
    /// Decodes the descriptor that `buf` holds: tag, length byte and payload, dispatched on the
    /// tag.
    pub fn from_bytes(buf: &'buf [u8]) -> (r: Result<En300_468Descriptors<'buf>, DescriptorError>)
        ensures
            decodes_to(buf@, r),
    {
        if buf.len() < 2 {
            return Err(DescriptorError::BufferTooShort { buflen: buf.len() });
        }
        let tag = buf[0];
        let len = buf[1] as usize;
        let tag_end = len + 2;
        if tag_end > buf.len() {
            return Err(DescriptorError::TagTooLongForBuffer { taglen: len, buflen: buf.len() });
        }
        let payload = vstd::slice::slice_subrange(buf, 2, tag_end);
        match tag {
            0 | 1 | 36..=63 => Ok(En300_468Descriptors::Reserved(UnknownDescriptor::new(tag, payload))),
            2 => Ok(En300_468Descriptors::VideoStream(UnknownDescriptor::new(tag, payload))),
            3 => Ok(En300_468Descriptors::AudioStream(UnknownDescriptor::new(tag, payload))),
            4 => Ok(En300_468Descriptors::Hierarchy(UnknownDescriptor::new(tag, payload))),
            5 => Ok(En300_468Descriptors::Registration(UnknownDescriptor::new(tag, payload))),
            6 => Ok(En300_468Descriptors::DataStreamAlignment(UnknownDescriptor::new(tag, payload))),
            7 => Ok(En300_468Descriptors::TargetBackgroundGrid(UnknownDescriptor::new(tag, payload))),
            8 => Ok(En300_468Descriptors::VideoWindow(UnknownDescriptor::new(tag, payload))),
            9 => Ok(En300_468Descriptors::CA(UnknownDescriptor::new(tag, payload))),
            10 => Ok(En300_468Descriptors::ISO639Language(UnknownDescriptor::new(tag, payload))),
            11 => Ok(En300_468Descriptors::SystemClock(UnknownDescriptor::new(tag, payload))),
            12 => Ok(En300_468Descriptors::MultiplexBufferUtilization(UnknownDescriptor::new(tag, payload))),
            13 => Ok(En300_468Descriptors::Copyright(UnknownDescriptor::new(tag, payload))),
            14 => Ok(En300_468Descriptors::MaximumBitrate(UnknownDescriptor::new(tag, payload))),
            15 => Ok(En300_468Descriptors::PrivateDataIndicator(UnknownDescriptor::new(tag, payload))),
            16 => Ok(En300_468Descriptors::SmoothingBuffer(UnknownDescriptor::new(tag, payload))),
            17 => Ok(En300_468Descriptors::STD(UnknownDescriptor::new(tag, payload))),
            18 => Ok(En300_468Descriptors::IBP(UnknownDescriptor::new(tag, payload))),
            19..=26 => Ok(En300_468Descriptors::IsoIec13818dash6(UnknownDescriptor::new(tag, payload))),
            27 => Ok(En300_468Descriptors::MPEG4Video(UnknownDescriptor::new(tag, payload))),
            28 => Ok(En300_468Descriptors::MPEG4Audio(UnknownDescriptor::new(tag, payload))),
            29 => Ok(En300_468Descriptors::IOD(UnknownDescriptor::new(tag, payload))),
            30 => Ok(En300_468Descriptors::SL(UnknownDescriptor::new(tag, payload))),
            31 => Ok(En300_468Descriptors::FMC(UnknownDescriptor::new(tag, payload))),
            32 => Ok(En300_468Descriptors::ExternalESID(UnknownDescriptor::new(tag, payload))),
            33 => Ok(En300_468Descriptors::MuxCode(UnknownDescriptor::new(tag, payload))),
            34 => Ok(En300_468Descriptors::FmxBufferSize(UnknownDescriptor::new(tag, payload))),
            35 => Ok(En300_468Descriptors::MultiplexBuffer(UnknownDescriptor::new(tag, payload))),
            69..=70 | 103..=254 => Ok(En300_468Descriptors::UserPrivate(UnknownDescriptor::new(tag, payload))),
            0x40 => Ok(En300_468Descriptors::NetworkName(UnknownDescriptor::new(tag, payload))),
            0x41 => Ok(En300_468Descriptors::ServiceList(UnknownDescriptor::new(tag, payload))),
            0x42 => Ok(En300_468Descriptors::Stuffing(UnknownDescriptor::new(tag, payload))),
            0x43 => Ok(En300_468Descriptors::SatelliteDeliverySystem(UnknownDescriptor::new(tag, payload))),
            0x44 => Ok(En300_468Descriptors::CableDeliverySystem(UnknownDescriptor::new(tag, payload))),
            0x47 => Ok(En300_468Descriptors::BouquetName(UnknownDescriptor::new(tag, payload))),
            0x48 => match ServiceDescriptor::new(tag, payload) {
                Ok(d) => Ok(En300_468Descriptors::Service(d)),
                Err(e) => Err(e),
            },
            0x49 => Ok(En300_468Descriptors::CountryAvailability(UnknownDescriptor::new(tag, payload))),
            0x4A => Ok(En300_468Descriptors::Linkage(UnknownDescriptor::new(tag, payload))),
            0x4B => Ok(En300_468Descriptors::NvodReference(UnknownDescriptor::new(tag, payload))),
            0x4C => Ok(En300_468Descriptors::TimeShiftedService(UnknownDescriptor::new(tag, payload))),
            0x4D => Ok(En300_468Descriptors::ShortEvent(UnknownDescriptor::new(tag, payload))),
            0x4E => Ok(En300_468Descriptors::ExtendedEvent(UnknownDescriptor::new(tag, payload))),
            0x4F => Ok(En300_468Descriptors::TimeShiftedEvent(UnknownDescriptor::new(tag, payload))),
            0x50 => Ok(En300_468Descriptors::Component(UnknownDescriptor::new(tag, payload))),
            0x51 => Ok(En300_468Descriptors::Mosaic(UnknownDescriptor::new(tag, payload))),
            0x52 => Ok(En300_468Descriptors::StreamIdentifier(UnknownDescriptor::new(tag, payload))),
            0x53 => Ok(En300_468Descriptors::CaIdentifier(UnknownDescriptor::new(tag, payload))),
            0x54 => Ok(En300_468Descriptors::Content(UnknownDescriptor::new(tag, payload))),
            0x55 => Ok(En300_468Descriptors::ParentalRating(UnknownDescriptor::new(tag, payload))),
            0x56 => Ok(En300_468Descriptors::Teletext(UnknownDescriptor::new(tag, payload))),
            0x57 => Ok(En300_468Descriptors::Telephone(UnknownDescriptor::new(tag, payload))),
            0x58 => Ok(En300_468Descriptors::LocalTimeOffset(UnknownDescriptor::new(tag, payload))),
            0x59 => Ok(En300_468Descriptors::Subtitling(UnknownDescriptor::new(tag, payload))),
            0x5A => Ok(En300_468Descriptors::TerrestrialDeliverySystem(UnknownDescriptor::new(tag, payload))),
            0x5B => Ok(En300_468Descriptors::MultilingualNetworkName(UnknownDescriptor::new(tag, payload))),
            0x5C => Ok(En300_468Descriptors::MultilingualBouquetName(UnknownDescriptor::new(tag, payload))),
            0x5D => Ok(En300_468Descriptors::MultilingualServiceName(UnknownDescriptor::new(tag, payload))),
            0x5E => Ok(En300_468Descriptors::MultilingualComponent(UnknownDescriptor::new(tag, payload))),
            0x5F => Ok(En300_468Descriptors::PrivateDataSpecifier(UnknownDescriptor::new(tag, payload))),
            0x60 => Ok(En300_468Descriptors::ServiceMove(UnknownDescriptor::new(tag, payload))),
            0x61 => Ok(En300_468Descriptors::ShortSmoothingBuffer(UnknownDescriptor::new(tag, payload))),
            0x62 => Ok(En300_468Descriptors::FrequencyList(UnknownDescriptor::new(tag, payload))),
            0x63 => Ok(En300_468Descriptors::PartialTransportStream(UnknownDescriptor::new(tag, payload))),
            0x64 => Ok(En300_468Descriptors::DataBroadcast(UnknownDescriptor::new(tag, payload))),
            0x65 => Ok(En300_468Descriptors::CaSystem(UnknownDescriptor::new(tag, payload))),
            0x66 => Ok(En300_468Descriptors::DataBroadcastId(UnknownDescriptor::new(tag, payload))),
            0xFF => Ok(En300_468Descriptors::Forbidden(UnknownDescriptor::new(tag, payload))),
        }
    }
}

/// Walks the descriptors of a descriptor loop, one at a time.
pub struct DescriptorIter<'buf> {
    buf: &'buf [u8],
}

impl<'buf> View for DescriptorIter<'buf> {
    type V = Seq<u8>;

    closed spec fn view(&self) -> Seq<u8> {
        self.buf@
    }
}

/// Why the descriptor loop `d` (not empty) cannot give its first descriptor, if it cannot.
pub open spec fn loop_error(d: Seq<u8>) -> Option<DescriptorError> {
    if d.len() < 2 {
        Some(DescriptorError::BufferTooShort { buflen: d.len() as usize })
    } else if d[1] > d.len() - 2 {
        Some(
            DescriptorError::NotEnoughData {
                tag: d[0],
                actual: (d.len() - 2) as usize,
                expected: d[1] as usize,
            },
        )
    } else {
        None
    }
}

impl<'buf> DescriptorIter<'buf> {
    pub fn new(buf: &'buf [u8]) -> (r: DescriptorIter<'buf>)
        ensures
            r@ == buf@,
    {
        DescriptorIter { buf }
    }

    /// The next descriptor, or `None` once no bytes remain. A descriptor whose declared length
    /// runs past the end gives an error, after which nothing remains.
    pub fn next(&mut self) -> (r: Option<Result<En300_468Descriptors<'buf>, DescriptorError>>)
        ensures
            old(self)@.len() == 0 ==> r is None && final(self)@ == old(self)@,
            old(self)@.len() > 0 ==> match loop_error(old(self)@) {
                Some(e) => r == Some(Err::<En300_468Descriptors, _>(e)) && final(self)@.len() == 0,
                None => (r matches Some(x) && decodes_to(old(self)@.take(old(self)@[1] + 2), x))
                    && final(self)@ == old(self)@.skip(old(self)@[1] + 2),
            },
    {
        let buflen = self.buf.len();
        if buflen == 0 {
            return None;
        }
        if buflen < 2 {
            self.buf = vstd::slice::slice_subrange(self.buf, 0, 0);
            return Some(Err(DescriptorError::BufferTooShort { buflen }));
        }
        let tag = self.buf[0];
        let len = self.buf[1] as usize;
        let remaining_size = buflen - 2;
        if len > remaining_size {
            self.buf = vstd::slice::slice_subrange(self.buf, 0, 0);
            return Some(
                Err(DescriptorError::NotEnoughData { tag, actual: remaining_size, expected: len }),
            );
        }
        let (desc, rest) = self.buf.split_at(len + 2);
        self.buf = rest;
        proof {
            assert(desc@.subrange(2, desc@[1] + 2) =~= old(self)@.take(len + 2).subrange(2, len + 2));
        }
        Some(En300_468Descriptors::from_bytes(desc))
    }
}

/// Dispatch fails only where the descriptor's framing is broken, or where a service descriptor
/// lacks its service category: every other tag, known or not, decodes.
pub proof fn dispatch_fails_only_on_framing(buf: Seq<u8>)
    requires
        buf.len() >= 2,
        buf[1] + 2 <= buf.len(),
        buf[0] != 0x48 || buf[1] > 0,
    ensures
        descriptor_error(buf) is None,
{
}

} // verus!
