//! _Service Description Table_ section data
use vstd::prelude::*;
use crate::descriptor::{DescriptorError, DescriptorIter};
use crate::{ActualOther, Text, TextError};

verus! {

/// The category of a service, as a service descriptor gives it.
#[derive(Debug, Clone, Copy, PartialEq, Eq, Structural)]
pub enum ServiceType {
    Reserved(u8),
    DigitalTelevision,
    DigitalRadioSound,
    Teletext,
    NvodReference,
    NvodTimeShifted,
    Mosaic,
    FmRadio,
    DvbSrm,
    AdvancedCodecDigitalRadioSound,
    H264AvcMosaic,
    DataBroadcast,
    RcsMap,
    RcsFls,
    DvbMhp,
    Mpeg2HdDigitalTelevision,
    H264AvcSdDigitalTelevision,
    H264AvcSdNvodTimeShifted,
    H264AvcSdNvodReference,
    H264AvcHdDigitalTelevision,
    H264AvcHdNvodTimeShifted,
    H264AvcHdNvodReference,
    H264AvcFrameCompatiblePlanoStereoscopicHdDigitalTelevision,
    H264AvcFrameCompatiblePlanoStereoscopicHdNvodTimeShifted,
    H264AvcFrameCompatiblePlanoStereoscopicHdNvodReference,
    HevcDigitalTelevision,
    UserDefined(u8),
}

/// The service category that the code `id` stands for.
pub open spec fn service_type_of(id: u8) -> ServiceType {
    if id == 0x01 {
        ServiceType::DigitalTelevision
    } else if id == 0x02 {
        ServiceType::DigitalRadioSound
    } else if id == 0x03 {
        ServiceType::Teletext
    } else if id == 0x04 {
        ServiceType::NvodReference
    } else if id == 0x05 {
        ServiceType::NvodTimeShifted
    } else if id == 0x06 {
        ServiceType::Mosaic
    } else if id == 0x07 {
        ServiceType::FmRadio
    } else if id == 0x08 {
        ServiceType::DvbSrm
    } else if id == 0x0a {
        ServiceType::AdvancedCodecDigitalRadioSound
    } else if id == 0x0b {
        ServiceType::H264AvcMosaic
    } else if id == 0x0c {
        ServiceType::DataBroadcast
    } else if id == 0x0e {
        ServiceType::RcsMap
    } else if id == 0x0f {
        ServiceType::RcsFls
    } else if id == 0x10 {
        ServiceType::DvbMhp
    } else if id == 0x11 {
        ServiceType::Mpeg2HdDigitalTelevision
    } else if id == 0x16 {
        ServiceType::H264AvcSdDigitalTelevision
    } else if id == 0x17 {
        ServiceType::H264AvcSdNvodTimeShifted
    } else if id == 0x18 {
        ServiceType::H264AvcSdNvodReference
    } else if id == 0x19 {
        ServiceType::H264AvcHdDigitalTelevision
    } else if id == 0x1a {
        ServiceType::H264AvcHdNvodTimeShifted
    } else if id == 0x1b {
        ServiceType::H264AvcHdNvodReference
    } else if id == 0x1c {
        ServiceType::H264AvcFrameCompatiblePlanoStereoscopicHdDigitalTelevision
    } else if id == 0x1d {
        ServiceType::H264AvcFrameCompatiblePlanoStereoscopicHdNvodTimeShifted
    } else if id == 0x1e {
        ServiceType::H264AvcFrameCompatiblePlanoStereoscopicHdNvodReference
    } else if id == 0x1f {
        ServiceType::HevcDigitalTelevision
    } else if 0x80 <= id <= 0xfe {
        ServiceType::UserDefined(id)
    } else {
        ServiceType::Reserved(id)
    }
}

impl ServiceType {
    pub fn from_id(id: u8) -> (r: ServiceType)
        ensures
            r == service_type_of(id),
    {
        match id {
            0x01 => ServiceType::DigitalTelevision,
            0x02 => ServiceType::DigitalRadioSound,
            0x03 => ServiceType::Teletext,
            0x04 => ServiceType::NvodReference,
            0x05 => ServiceType::NvodTimeShifted,
            0x06 => ServiceType::Mosaic,
            0x07 => ServiceType::FmRadio,
            0x08 => ServiceType::DvbSrm,
            0x0a => ServiceType::AdvancedCodecDigitalRadioSound,
            0x0b => ServiceType::H264AvcMosaic,
            0x0c => ServiceType::DataBroadcast,
            0x0e => ServiceType::RcsMap,
            0x0f => ServiceType::RcsFls,
            0x10 => ServiceType::DvbMhp,
            0x11 => ServiceType::Mpeg2HdDigitalTelevision,
            0x16 => ServiceType::H264AvcSdDigitalTelevision,
            0x17 => ServiceType::H264AvcSdNvodTimeShifted,
            0x18 => ServiceType::H264AvcSdNvodReference,
            0x19 => ServiceType::H264AvcHdDigitalTelevision,
            0x1a => ServiceType::H264AvcHdNvodTimeShifted,
            0x1b => ServiceType::H264AvcHdNvodReference,
            0x1c => ServiceType::H264AvcFrameCompatiblePlanoStereoscopicHdDigitalTelevision,
            0x1d => ServiceType::H264AvcFrameCompatiblePlanoStereoscopicHdNvodTimeShifted,
            0x1e => ServiceType::H264AvcFrameCompatiblePlanoStereoscopicHdNvodReference,
            0x1f => ServiceType::HevcDigitalTelevision,
            0x80..=0xfe => ServiceType::UserDefined(id),
            _ => ServiceType::Reserved(id),
        }
    }
}

/// Where the field of `n` bytes announced by the length byte at `len_at` in `data` lies, as the
/// bytes it holds, or the error if `data` ends too early.
pub open spec fn length_prefixed(data: Seq<u8>, len_at: int) -> Result<Seq<u8>, TextError> {
    if data.len() <= len_at {
        Err(TextError::NotEnoughData { expected: (len_at + 1) as usize, available: data.len() as usize })
    } else {
        let end = len_at + 1 + data[len_at];
        if end > data.len() {
            Err(TextError::NotEnoughData { expected: end as usize, available: data.len() as usize })
        } else if data[len_at] == 0 {
            Err(TextError::NotEnoughData { expected: 1, available: 0 })
        } else {
            Ok(data.subrange(len_at + 1, end))
        }
    }
}

/// The bytes of a text field that was read, or the error that reading it gave.
pub open spec fn text_field(r: Result<Text, TextError>) -> Result<Seq<u8>, TextError> {
    match r {
        Ok(t) => Ok(t@),
        Err(e) => Err(e),
    }
}

/// The payload of a _service descriptor_ (tag `0x48`): service category, provider name and
/// service name.
pub struct ServiceDescriptor<'buf> {
    data: &'buf [u8],
}

impl<'buf> View for ServiceDescriptor<'buf> {
    type V = Seq<u8>;

    closed spec fn view(&self) -> Seq<u8> {
        self.data@
    }
}

impl<'buf> ServiceDescriptor<'buf> {
    pub const TAG: u8 = 0x48;

    #[verifier::type_invariant]
    closed spec fn inv(self) -> bool {
        self.data@.len() >= 1
    }

    /// Reads the payload of a descriptor with tag `0x48`; it must hold at least the service
    /// category.
    pub fn new(tag: u8, data: &'buf [u8]) -> (r: Result<ServiceDescriptor<'buf>, DescriptorError>)
        requires
            tag == 0x48,
        ensures
            data@.len() == 0 ==> r == Err::<ServiceDescriptor, _>(
                DescriptorError::NotEnoughData { tag, actual: 0, expected: 1 },
            ),
            data@.len() > 0 ==> (r matches Ok(d) && d@ == data@),
    {
        if data.len() == 0 {
            Err(DescriptorError::NotEnoughData { tag, actual: 0, expected: 1 })
        } else {
            Ok(ServiceDescriptor { data })
        }
    }

    pub fn service_type(&self) -> (r: ServiceType)
        ensures
            r == service_type_of(self@[0]),
    {
        proof {
            use_type_invariant(self);
        }
        ServiceType::from_id(self.data[0])
    }

    /// The provider name: as many bytes as the length byte at offset 1 gives, after it.
    pub fn service_provider_name(&self) -> (r: Result<Text<'buf>, TextError>)
        ensures
            text_field(r) == length_prefixed(self@, 1),
    {
        self.text_at(1)
    }

    /// The service name: as many bytes as the length byte just after the provider name gives,
    /// after it.
    pub fn service_name(&self) -> (r: Result<Text<'buf>, TextError>)
        ensures
            self@.len() < 2 ==> text_field(r) == length_prefixed(self@, 1),
            self@.len() >= 2 ==> text_field(r) == length_prefixed(self@, 2 + self@[1]),
    {
        if self.data.len() < 2 {
            return self.text_at(1);
        }
        let service_provider_name_length = self.data[1] as usize;
        self.text_at(2 + service_provider_name_length)
    }

    /// The text field announced by the length byte at `len_at`.
    fn text_at(&self, len_at: usize) -> (r: Result<Text<'buf>, TextError>)
        requires
            len_at <= 257,
        ensures
            text_field(r) == length_prefixed(self@, len_at as int),
    {
        if self.data.len() <= len_at {
            return Err(TextError::NotEnoughData { expected: len_at + 1, available: self.data.len() });
        }
        let end = len_at + 1 + self.data[len_at] as usize;
        if end > self.data.len() {
            Err(TextError::NotEnoughData { expected: end, available: self.data.len() })
        } else {
            Text::new(vstd::slice::slice_subrange(self.data, len_at + 1, end))
        }
    }
}

/// The broadcast state of a service.
#[derive(Debug, Clone, Copy, PartialEq, Eq, Structural)]
pub enum RunningStatus {
    Undefined,
    NotRunning,
    StartsInAFewSeconds,
    Pausing,
    Running,
    ServiceOffAir,
    Reserved(u8),
}

/// The running status that the code `id` stands for; codes from 6 up are reserved.
pub open spec fn running_status_of(id: u8) -> RunningStatus {
    if id == 0 {
        RunningStatus::Undefined
    } else if id == 1 {
        RunningStatus::NotRunning
    } else if id == 2 {
        RunningStatus::StartsInAFewSeconds
    } else if id == 3 {
        RunningStatus::Pausing
    } else if id == 4 {
        RunningStatus::Running
    } else if id == 5 {
        RunningStatus::ServiceOffAir
    } else {
        RunningStatus::Reserved(id)
    }
}

impl RunningStatus {
    /// The running status of a 3-bit code; a larger code, which the 3-bit field cannot hold, is
    /// kept as reserved too.
    pub fn from_id(id: u8) -> (r: RunningStatus)
        ensures
            r == running_status_of(id),
    {
        match id {
            0 => RunningStatus::Undefined,
            1 => RunningStatus::NotRunning,
            2 => RunningStatus::StartsInAFewSeconds,
            3 => RunningStatus::Pausing,
            4 => RunningStatus::Running,
            5 => RunningStatus::ServiceOffAir,
            _ => RunningStatus::Reserved(id),
        }
    }
}

/// A 16-bit big-endian field at offset `at` of `d`.
pub open spec fn be16(d: Seq<u8>, at: int) -> int {
    d[at] * 256 + d[at + 1]
}

/// The bit of weight `weight` (1, 2, 4, ...) in the byte `b`.
pub open spec fn flag(b: u8, weight: int) -> bool {
    (b as int / weight) % 2 == 1
}

/// The 12-bit descriptor loop length of the service record that starts `d`.
pub open spec fn loop_len(d: Seq<u8>) -> int {
    (d[3] % 16) * 256 + d[4]
}

/// The size in bytes of the service record that starts `d`: its 5 fixed bytes and its descriptor
/// loop.
pub open spec fn record_len(d: Seq<u8>) -> int {
    5 + loop_len(d)
}

/// Whether `r` is one whole service record.
pub open spec fn well_formed_record(r: Seq<u8>) -> bool {
    r.len() >= 5 && r.len() == record_len(r)
}

/// One entry of the service loop of a section.
pub struct Service<'buf> {
    data: &'buf [u8],
}

impl<'buf> View for Service<'buf> {
    type V = Seq<u8>;

    closed spec fn view(&self) -> Seq<u8> {
        self.data@
    }
}

impl<'buf> Service<'buf> {
    #[verifier::type_invariant]
    closed spec fn inv(self) -> bool {
        well_formed_record(self.data@)
    }

    fn new(data: &'buf [u8]) -> (r: Service<'buf>)
        requires
            well_formed_record(data@),
        ensures
            r@ == data@,
    {
        Service { data }
    }

    /// The record's bytes, which form one whole service record.
    pub fn bytes(&self) -> (r: &'buf [u8])
        ensures
            r@ == self@,
            well_formed_record(r@),
    {
        proof {
            use_type_invariant(self);
        }
        self.data
    }

    pub fn service_id(&self) -> (r: u16)
        ensures
            r == be16(self@, 0),
    {
        proof {
            use_type_invariant(self);
        }
        self.data[0] as u16 * 256 + self.data[1] as u16
    }

    /// Event Information Table is present in the transport stream?
    pub fn eit_schedule_flag(&self) -> (r: bool)
        ensures
            r == flag(self@[2], 2),
    {
        proof {
            use_type_invariant(self);
        }
        let b = self.data[2];
        proof {
            assert((b & 0b10 != 0) == ((b / 2) % 2 == 1)) by (bit_vector);
        }
        b & 0b10 != 0
    }

    /// Event Information Table present/following is present in the transport stream?
    pub fn eit_present_following_flag(&self) -> (r: bool)
        ensures
            r == flag(self@[2], 1),
    {
        proof {
            use_type_invariant(self);
        }
        let b = self.data[2];
        proof {
            assert((b & 0b1 != 0) == (b % 2 == 1)) by (bit_vector);
        }
        b & 0b1 != 0
    }

    /// The running status held in the top three bits of the fourth byte.
    pub fn running_status(&self) -> (r: RunningStatus)
        ensures
            r == running_status_of(self@[3] / 32),
    {
        proof {
            use_type_invariant(self);
        }
        let b = self.data[3];
        proof {
            assert(b >> 5 == b / 32) by (bit_vector);
        }
        RunningStatus::from_id(b >> 5)
    }

    pub fn free_ca_mode(&self) -> (r: bool)
        ensures
            r == flag(self@[3], 16),
    {
        proof {
            use_type_invariant(self);
        }
        let b = self.data[3];
        proof {
            assert((b >> 4 & 0b1 != 0) == ((b / 16) % 2 == 1)) by (bit_vector);
        }
        b >> 4 & 0b1 != 0
    }

    fn descriptors_loop_length(&self) -> (r: usize)
        ensures
            r == loop_len(self@),
    {
        proof {
            use_type_invariant(self);
        }
        let b = self.data[3];
        proof {
            assert(b & 0b1111 == b % 16) by (bit_vector);
        }
        ((b & 0b1111) as usize) * 256 + self.data[4] as usize
    }

    /// The record's descriptor loop: the bytes that follow the fixed fields, as many as the loop
    /// length gives.
    pub fn descriptors(&self) -> (r: DescriptorIter<'buf>)
        ensures
            r@ == self@.subrange(5, 5 + loop_len(self@)),
            r@ == self@.skip(5),
    {
        proof {
            use_type_invariant(self);
        }
        let start: usize = 5;
        let end = start + self.descriptors_loop_length();
        DescriptorIter::new(vstd::slice::slice_subrange(self.data, start, end))
    }
}

/// A problem in the framing of a section's service loop.
#[derive(Debug, Clone, Copy, PartialEq, Eq, Structural)]
pub enum SectionError {
    /// A service record needs `expected` bytes where `available` remain.
    NotEnoughData { expected: usize, available: usize },
}

/// Why the service loop `d` (not empty) cannot give its first record, if it cannot.
pub open spec fn record_error(d: Seq<u8>) -> Option<SectionError> {
    if d.len() < 5 {
        Some(SectionError::NotEnoughData { expected: 5, available: d.len() as usize })
    } else if record_len(d) > d.len() {
        Some(
            SectionError::NotEnoughData {
                expected: record_len(d) as usize,
                available: d.len() as usize,
            },
        )
    } else {
        None
    }
}

/// The service records that the service loop `d` splits into, one after the other, or the first
/// framing error.
pub open spec fn split_records(d: Seq<u8>) -> Result<Seq<Seq<u8>>, SectionError>
    decreases d.len(),
{
    if d.len() == 0 {
        Ok(seq![])
    } else {
        match record_error(d) {
            Some(e) => Err(e),
            None => match split_records(d.skip(record_len(d))) {
                Ok(rest) => Ok(seq![d.take(record_len(d))] + rest),
                Err(e) => Err(e),
            },
        }
    }
}

/// The bytes of the records `rs`, one after the other.
pub open spec fn concat(rs: Seq<Seq<u8>>) -> Seq<u8>
    decreases rs.len(),
{
    if rs.len() == 0 {
        seq![]
    } else {
        rs[0] + concat(rs.drop_first())
    }
}

/// Walks the service records of a section's service loop, one at a time.
pub struct ServiceIterator<'buf> {
    remaining_data: &'buf [u8],
}

impl<'buf> View for ServiceIterator<'buf> {
    type V = Seq<u8>;

    closed spec fn view(&self) -> Seq<u8> {
        self.remaining_data@
    }
}

impl<'buf> ServiceIterator<'buf> {
    pub fn new(data: &'buf [u8]) -> (r: ServiceIterator<'buf>)
        ensures
            r@ == data@,
    {
        ServiceIterator { remaining_data: data }
    }

    /// The next record, or `None` once no bytes remain. A record whose declared length runs past
    /// the end gives an error, after which nothing remains.
    pub fn next(&mut self) -> (r: Option<Result<Service<'buf>, SectionError>>)
        ensures
            old(self)@.len() == 0 ==> r is None && final(self)@ == old(self)@,
            old(self)@.len() > 0 ==> match record_error(old(self)@) {
                Some(e) => r == Some(Err::<Service, _>(e)) && final(self)@.len() == 0,
                None => (r matches Some(Ok(s)) && s@ == old(self)@.take(record_len(old(self)@)))
                    && final(self)@ == old(self)@.skip(record_len(old(self)@)),
            },
    {
        let len = self.remaining_data.len();
        if len == 0 {
            return None;
        }
        if len < 5 {
            self.remaining_data = vstd::slice::slice_subrange(self.remaining_data, 0, 0);
            return Some(Err(SectionError::NotEnoughData { expected: 5, available: len }));
        }
        let b = self.remaining_data[3];
        proof {
            assert(b & 0b1111 == b % 16) by (bit_vector);
        }
        let size = 5 + ((b & 0b1111) as usize) * 256 + self.remaining_data[4] as usize;
        if size > len {
            self.remaining_data = vstd::slice::slice_subrange(self.remaining_data, 0, 0);
            return Some(Err(SectionError::NotEnoughData { expected: size, available: len }));
        }
        let (head, tail) = self.remaining_data.split_at(size);
        self.remaining_data = tail;
        Some(Ok(Service::new(head)))
    }
}

/// One complete, already verified _Service Description Table_ section body.
pub struct SdtSection<'buf> {
    data: &'buf [u8],
}

impl<'buf> View for SdtSection<'buf> {
    type V = Seq<u8>;

    closed spec fn view(&self) -> Seq<u8> {
        self.data@
    }
}

impl<'buf> SdtSection<'buf> {
    #[verifier::type_invariant]
    closed spec fn inv(self) -> bool {
        self.data@.len() > 3
    }

    /// Views `data`, which holds more than the three bytes that precede the service loop.
    pub fn new(data: &'buf [u8]) -> (r: SdtSection<'buf>)
        requires
            data@.len() > 3,
        ensures
            r@ == data@,
    {
        SdtSection { data }
    }

    /// Borrow a reference to the underlying buffer holding SDT section data
    pub fn buffer(&self) -> (r: &[u8])
        ensures
            r@ == self@,
            r@.len() > 3,
    {
        proof {
            use_type_invariant(self);
        }
        self.data
    }

    pub fn original_network_id(&self) -> (r: u16)
        ensures
            r == be16(self@, 0),
    {
        proof {
            use_type_invariant(self);
        }
        self.data[0] as u16 * 256 + self.data[1] as u16
    }

    /// The service loop, which follows the network id and one reserved byte.
    pub fn services(&self) -> (r: ServiceIterator<'buf>)
        ensures
            r@ == self@.skip(3),
    {
        proof {
            use_type_invariant(self);
        }
        ServiceIterator::new(vstd::slice::slice_subrange(self.data, 3, self.data.len()))
    }

    /// All the records of the service loop, or the first framing error in it.
    pub fn service_list(&self) -> (r: Result<Vec<Service<'buf>>, SectionError>)
        ensures
            match r {
                Ok(v) => split_records(self@.skip(3)) == Ok::<_, SectionError>(record_views(v@)),
                Err(e) => split_records(self@.skip(3)) == Err::<Seq<Seq<u8>>, _>(e),
            },
    {
        let mut it = self.services();
        let mut out: Vec<Service<'buf>> = Vec::new();
        loop
            invariant
                split_records(self@.skip(3)) == after(record_views(out@), split_records(it@)),
            decreases it@.len(),
        {
            let ghost before = it@;
            match it.next() {
                None => {
                    assert(after(record_views(out@), split_records(it@)) == Ok::<_, SectionError>(
                        record_views(out@),
                    )) by {
                        assert(record_views(out@) + seq![] =~= record_views(out@));
                    }
                    return Ok(out);
                },
                Some(Err(e)) => {
                    return Err(e);
                },
                Some(Ok(svc)) => {
                    let ghost done = record_views(out@);
                    out.push(svc);
                    proof {
                        assert(record_views(out@) =~= done.push(svc@));
                        if let Ok(rest) = split_records(it@) {
                            assert(done + (seq![svc@] + rest) =~= done.push(svc@) + rest);
                        }
                    }
                },
            }
        }
    }
}

/// The bytes of each of the records `v`.
pub open spec fn record_views(v: Seq<Service>) -> Seq<Seq<u8>> {
    v.map_values(|s: Service| s@)
}

/// The records `done`, followed by those of `rest` if it holds any rather than an error.
spec fn after(done: Seq<Seq<u8>>, rest: Result<Seq<Seq<u8>>, SectionError>) -> Result<
    Seq<Seq<u8>>,
    SectionError,
> {
    match rest {
        Ok(r) => Ok(done + r),
        Err(e) => Err(e),
    }
}

/// A service loop with no bytes holds no records.
pub proof fn empty_service_loop()
    ensures
        split_records(Seq::<u8>::empty()) == Ok::<_, SectionError>(Seq::<Seq<u8>>::empty()),
{
}

/// Whole service records, one after the other, split back into exactly those records.
pub proof fn split_concatenated_records(rs: Seq<Seq<u8>>)
    requires
        forall|i: int| 0 <= i < rs.len() ==> well_formed_record(#[trigger] rs[i]),
    ensures
        split_records(concat(rs)) == Ok::<_, SectionError>(rs),
    decreases rs.len(),
{
    next_of_joined_records(rs);
    if rs.len() > 0 {
        split_concatenated_records(rs.drop_first());
        assert(seq![rs[0]] + rs.drop_first() =~= rs);
    } else {
        assert(rs =~= seq![]);
    }
}

/// The records that a service loop splits into are whole records, and together they are the
/// loop's bytes.
pub proof fn split_records_concatenate(d: Seq<u8>)
    ensures
        split_records(d) matches Ok(rs) ==> concat(rs) == d && forall|i: int|
            0 <= i < rs.len() ==> well_formed_record(#[trigger] rs[i]),
    decreases d.len(),
{
    if d.len() > 0 && record_error(d) is None {
        let n = record_len(d);
        split_records_concatenate(d.skip(n));
        if let Ok(rest) = split_records(d.skip(n)) {
            let rs = seq![d.take(n)] + rest;
            assert(rs.drop_first() =~= rest);
            assert(d.take(n) + d.skip(n) =~= d);
            assert forall|i: int| 0 <= i < rs.len() implies well_formed_record(#[trigger] rs[i]) by {
                if i > 0 {
                    assert(rs[i] == rest[i - 1]);
                }
            }
        }
    }
}

/// The table id of a section about the transport stream that carries it.
pub const ACTUAL_TABLE_ID: u8 = 0x42;

/// The table id of a section about some other transport stream.
pub const OTHER_TABLE_ID: u8 = 0x46;

/// Classifies a section body by its table id: `Actual` for `0x42`, `Other` for `0x46`, and
/// `None` for any other id, whose section is not one to process.
pub fn route<'buf>(table_id: u8, body: &'buf [u8]) -> (r: Option<ActualOther<SdtSection<'buf>>>)
    requires
        body@.len() > 3,
    ensures
        table_id == ACTUAL_TABLE_ID ==> (r matches Some(ActualOther::Actual(s)) && s@ == body@),
        table_id == OTHER_TABLE_ID ==> (r matches Some(ActualOther::Other(s)) && s@ == body@),
        table_id != ACTUAL_TABLE_ID && table_id != OTHER_TABLE_ID ==> r is None,
{
    if table_id == ACTUAL_TABLE_ID {
        Some(ActualOther::Actual(SdtSection::new(body)))
    } else if table_id == OTHER_TABLE_ID {
        Some(ActualOther::Other(SdtSection::new(body)))
    } else {
        None
    }
}

/// Receives each section that [`deliver`] accepts.
pub trait SdtConsumer {
    fn consume(&mut self, sect: ActualOther<&SdtSection<'_>>);
}

/// Hands the section body `body` with table id `table_id` to `consumer`, exactly as [`route`]
/// classifies it. Returns whether it was handed over: a section with another table id is
/// dropped.
pub fn deliver<C: SdtConsumer>(consumer: &mut C, table_id: u8, body: &[u8]) -> (r: bool)
    requires
        body@.len() > 3,
    ensures
        r == (table_id == ACTUAL_TABLE_ID || table_id == OTHER_TABLE_ID),
{
    match route(table_id, body) {
        Some(sect) => {
            consumer.consume(sect.as_ref());
            true
        },
        None => false,
    }
}

/// The first step over service records joined end to end: the loop is empty exactly when there
/// are no records, and otherwise its first record is the first of them and what remains is the
/// rest joined end to end. Each call of [`ServiceIterator::next`] takes one such step.
pub proof fn next_of_joined_records(rs: Seq<Seq<u8>>)
    requires
        forall|i: int| 0 <= i < rs.len() ==> well_formed_record(#[trigger] rs[i]),
    ensures
        (concat(rs).len() == 0) == (rs.len() == 0),
        rs.len() > 0 ==> record_error(concat(rs)) is None,
        rs.len() > 0 ==> concat(rs).take(record_len(concat(rs))) == rs[0],
        rs.len() > 0 ==> concat(rs).skip(record_len(concat(rs))) == concat(rs.drop_first()),
        rs.len() > 0 ==> forall|i: int|
            0 <= i < rs.drop_first().len() ==> well_formed_record(#[trigger] rs.drop_first()[i]),
{
    if rs.len() > 0 {
        let d = concat(rs);
        let first = rs[0];
        assert(well_formed_record(rs[0]));
        assert(d =~= first + concat(rs.drop_first()));
        assert(d[3] == first[3] && d[4] == first[4]);
        assert(d.take(record_len(d)) =~= first);
        assert(d.skip(record_len(d)) =~= concat(rs.drop_first()));
        assert forall|i: int| 0 <= i < rs.drop_first().len() implies well_formed_record(
            #[trigger] rs.drop_first()[i],
        ) by {
            assert(rs.drop_first()[i] == rs[i + 1]);
        }
    }
}

} // verus!
