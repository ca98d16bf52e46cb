use dvb_si::descriptor::{DescriptorError, DescriptorIter, En300_468Descriptors};
use dvb_si::sdt::{
    deliver, route, RunningStatus, SdtConsumer, SdtSection, SectionError, ServiceDescriptor,
    ServiceIterator, ServiceType,
};
use dvb_si::{ActualOther, TextError};

/// A section as the demultiplexer hands it over: header, body and CRC.
fn bbc_section() -> Vec<u8> {
    vec![
            // common header
            0x42, 0x03, 0x6d, // table syntax header
            0x0D, 0x00, 0b00000001, 0xC1, 0x00,
            // Table data (spread over several TS packets in the stream)
            0x23, 0x3A, 0xFF, 0x10, 0x43, 0xFF, 0x80, 0x20, 0x48, 0x10, 0x01, 0x00, 0x0D, 0x42,
            0x42, 0x43, 0x20, 0x4F, 0x4E, 0x45, 0x20, 0x53, 0x6F, 0x75, 0x74, 0x68, 0x73, 0x0C,
            0x66, 0x70, 0x2E, 0x62, 0x62, 0x63, 0x2E, 0x63, 0x6F, 0x2E, 0x75, 0x6B, 0x10, 0xBF,
            0xFF, 0x80, 0x1A, 0x48, 0x0A, 0x01, 0x00, 0x07, 0x42, 0x42, 0x43, 0x20, 0x54, 0x57,
            0x4F, 0x73, 0x0C, 0x66, 0x70, 0x2E, 0x62, 0x62, 0x63, 0x2E, 0x63, 0x6F, 0x2E, 0x75,
            0x6B, 0x11, 0xC0, 0xFF, 0x80, 0x1B, 0x48, 0x0B, 0x01, 0x00, 0x08, 0x42, 0x42, 0x43,
            0x20, 0x46, 0x4F, 0x55, 0x52, 0x73, 0x0C, 0x66, 0x70, 0x2E, 0x62, 0x62, 0x63, 0x2E,
            0x63, 0x6F, 0x2E, 0x75, 0x6B, 0x12, 0x00, 0xFF, 0x80, 0x17, 0x48, 0x07, 0x01, 0x00,
            0x04, 0x43, 0x42, 0x42, 0x43, 0x73, 0x0C, 0x66, 0x70, 0x2E, 0x62, 0x62, 0x63, 0x2E,
            0x63, 0x6F, 0x2E, 0x75, 0x6B, 0x12, 0x40, 0xFF, 0x80, 0x1B, 0x48, 0x0B, 0x01, 0x00,
            0x08, 0x43, 0x42, 0x65, 0x65, 0x62, 0x69, 0x65, 0x73, 0x73, 0x0C, 0x66, 0x70, 0x2E,
            0x62, 0x62, 0x63, 0x2E, 0x63, 0x6F, 0x2E, 0x75, 0x6B, 0x11, 0x00, 0xFF, 0x80, 0x1B,
            0x48, 0x0B, 0x01, 0x00, 0x08, 0x42, 0x42, 0x43, 0x20, 0x4E, 0x45, 0x57, 0x53, 0x73,
            0x0C, 0x66, 0x70, 0x2E, 0x62, 0x62, 0x63, 0x2E, 0x63, 0x6F, 0x2E, 0x75, 0x6B, 0x12,
            0x80, 0xFF, 0x80, 0x21, 0x48, 0x11, 0x01, 0x00, 0x0E, 0x42, 0x42, 0x43, 0x20, 0x50,
            0x61, 0x72, 0x6C, 0x69, 0x61, 0x6D, 0x65, 0x6E, 0x74, 0x73, 0x0C, 0x66, 0x70, 0x2E,
            0x62, 0x62, 0x63, 0x2E, 0x63, 0x6F, 0x2E, 0x75, 0x6B, 0x11, 0x40, 0xFD, 0x80, 0x21,
            0x48, 0x11, 0x01, 0x00, 0x0E, 0x42, 0x42, 0x43, 0x20, 0x52, 0x65, 0x64, 0x20, 0x42,
            0x75, 0x74, 0x74, 0x6F, 0x6E, 0x73, 0x0C, 0x66, 0x70, 0x2E, 0x62, 0x62, 0x63, 0x2E,
            0x63, 0x6F, 0x2E, 0x75, 0x6B, 0x1A, 0x40, 0xFF, 0x80, 0x1E, 0x48, 0x0E, 0x02, 0x00,
            0x0B, 0x42, 0x42, 0x43, 0x20, 0x52, 0x61, 0x64, 0x69, 0x6F, 0x20, 0x31, 0x73, 0x0C,
            0x66, 0x70, 0x2E, 0x62, 0x62, 0x63, 0x2E, 0x63, 0x6F, 0x2E, 0x75, 0x6B, 0x17, 0x00,
            0xFF, 0x80, 0x1A, 0x48, 0x0A, 0x02, 0x00, 0x07, 0x42, 0x42, 0x43, 0x20, 0x52, 0x31,
            0x58, 0x73, 0x0C, 0x66, 0x70, 0x2E, 0x62, 0x62, 0x63, 0x2E, 0x63, 0x6F, 0x2E, 0x75,
            0x6B, 0x1A, 0x80, 0xFF, 0x80, 0x1E, 0x48, 0x0E, 0x02, 0x00, 0x0B, 0x42, 0x42, 0x43,
            0x20, 0x52, 0x61, 0x64, 0x69, 0x6F, 0x20, 0x32, 0x73, 0x0C, 0x66, 0x70, 0x2E, 0x62,
            0x62, 0x63, 0x2E, 0x63, 0x6F, 0x2E, 0x75, 0x6B, 0x1A, 0xC0, 0xFF, 0x80, 0x1E, 0x48,
            0x0E, 0x02, 0x00, 0x0B, 0x42, 0x42, 0x43, 0x20, 0x52, 0x61, 0x64, 0x69, 0x6F, 0x20,
            0x33, 0x73, 0x0C, 0x66, 0x70, 0x2E, 0x62, 0x62, 0x63, 0x2E, 0x63, 0x6F, 0x2E, 0x75,
            0x6B, 0x1B, 0x00, 0xFF, 0x80, 0x1E, 0x48, 0x0E, 0x02, 0x00, 0x0B, 0x42, 0x42, 0x43,
            0x20, 0x52, 0x61, 0x64, 0x69, 0x6F, 0x20, 0x34, 0x73, 0x0C, 0x66, 0x70, 0x2E, 0x62,
            0x62, 0x63, 0x2E, 0x63, 0x6F, 0x2E, 0x75, 0x6B, 0x16, 0x00, 0xFF, 0x80, 0x1A, 0x48,
            0x0A, 0x02, 0x00, 0x07, 0x42, 0x42, 0x43, 0x20, 0x52, 0x35, 0x4C, 0x73, 0x0C, 0x66,
            0x70, 0x2E, 0x62, 0x62, 0x63, 0x2E, 0x63, 0x6F, 0x2E, 0x75, 0x6B, 0x16, 0x40, 0xFF,
            0x80, 0x1B, 0x48, 0x0B, 0x02, 0x00, 0x08, 0x42, 0x42, 0x43, 0x20, 0x52, 0x35, 0x53,
            0x58, 0x73, 0x0C, 0x66, 0x70, 0x2E, 0x62, 0x62, 0x63, 0x2E, 0x63, 0x6F, 0x2E, 0x75,
            0x6B, 0x16, 0x80, 0xFF, 0x80, 0x1E, 0x48, 0x0E, 0x02, 0x00, 0x0B, 0x42, 0x42, 0x43,
            0x20, 0x36, 0x20, 0x4D, 0x75, 0x73, 0x69, 0x63, 0x73, 0x0C, 0x66, 0x70, 0x2E, 0x62,
            0x62, 0x63, 0x2E, 0x63, 0x6F, 0x2E, 0x75, 0x6B, 0x16, 0xC0, 0xFF, 0x80, 0x21, 0x48,
            0x11, 0x02, 0x00, 0x0E, 0x42, 0x42, 0x43, 0x20, 0x52, 0x61, 0x64, 0x69, 0x6F, 0x20,
            0x34, 0x20, 0x45, 0x78, 0x73, 0x0C, 0x66, 0x70, 0x2E, 0x62, 0x62, 0x63, 0x2E, 0x63,
            0x6F, 0x2E, 0x75, 0x6B, 0x17, 0x40, 0xFF, 0x80, 0x21, 0x48, 0x11, 0x02, 0x00, 0x0E,
            0x42, 0x42, 0x43, 0x20, 0x41, 0x73, 0x69, 0x61, 0x6E, 0x20, 0x4E, 0x65, 0x74, 0x2E,
            0x73, 0x0C, 0x66, 0x70, 0x2E, 0x62, 0x62, 0x63, 0x2E, 0x63, 0x6F, 0x2E, 0x75, 0x6B,
            0x17, 0x80, 0xFF, 0x80, 0x20, 0x48, 0x10, 0x02, 0x00, 0x0D, 0x42, 0x42, 0x43, 0x20,
            0x57, 0x6F, 0x72, 0x6C, 0x64, 0x20, 0x53, 0x76, 0x2E, 0x73, 0x0C, 0x66, 0x70, 0x2E,
            0x62, 0x62, 0x63, 0x2E, 0x63, 0x6F, 0x2E, 0x75, 0x6B, 0x1C, 0x00, 0xFF, 0x80, 0x1B,
            0x48, 0x0B, 0x01, 0x00, 0x08, 0x42, 0x42, 0x43, 0x20, 0x52, 0x42, 0x20, 0x31, 0x73,
            0x0C, 0x66, 0x70, 0x2E, 0x62, 0x62, 0x63, 0x2E, 0x63, 0x6F, 0x2E, 0x75, 0x6B, 0x18,
            0x03, 0xFF, 0x80, 0x1D, 0x48, 0x0D, 0x02, 0x00, 0x0A, 0x42, 0x42, 0x43, 0x20, 0x53,
            0x6F, 0x6C, 0x65, 0x6E, 0x74, 0x73, 0x0C, 0x66, 0x70, 0x2E, 0x62, 0x62, 0x63, 0x2E,
            0x63, 0x6F, 0x2E, 0x75, 0x6B, 0x18, 0x4C, 0xFF, 0x80, 0x1D, 0x48, 0x0D, 0x02, 0x00,
            0x0A, 0x42, 0x42, 0x43, 0x20, 0x53, 0x75, 0x73, 0x73, 0x65, 0x78, 0x73, 0x0C, 0x66,
            0x70, 0x2E, 0x62, 0x62, 0x63, 0x2E, 0x63, 0x6F, 0x2E, 0x75, 0x6B, 0x18, 0x83, 0xFF,
            0x80, 0x20, 0x48, 0x10, 0x02, 0x00, 0x0D, 0x42, 0x42, 0x43, 0x20, 0x42, 0x65, 0x72,
            0x6B, 0x73, 0x68, 0x69, 0x72, 0x65, 0x73, 0x0C, 0x66, 0x70, 0x2E, 0x62, 0x62, 0x63,
            0x2E, 0x63, 0x6F, 0x2E, 0x75, 0x6B, 0x18, 0x43, 0xFF, 0x80, 0x24, 0x48, 0x14, 0x02,
            0x00, 0x11, 0x42, 0x42, 0x43, 0x20, 0x53, 0x6F, 0x6C, 0x65, 0x6E, 0x74, 0x20, 0x44,
            0x6F, 0x72, 0x73, 0x65, 0x74, 0x73, 0x0C, 0x66, 0x70, 0x2E, 0x62, 0x62, 0x63, 0x2E,
            0x63, 0x6F, 0x2E, 0x75, 0x6B, 0x18, 0x81, 0xFF, 0x80, 0x20, 0x48, 0x10, 0x02, 0x00,
            0x0D, 0x42, 0x42, 0x43, 0x20, 0x57, 0x69, 0x6C, 0x74, 0x73, 0x68, 0x69, 0x72, 0x65,
            0x73, 0x0C, 0x66, 0x70, 0x2E, 0x62, 0x62, 0x63, 0x2E, 0x63, 0x6F, 0x2E, 0x75, 0x6B,
            0x65, 0x34, 0x57, 0x55, // CRC
        ]
}

/// The body of a section: what follows the common and table syntax headers, without the CRC.
fn body_of(section: &[u8]) -> &[u8] {
    &section[8..section.len() - 4]
}

fn service_descriptor_bytes() -> Vec<u8> {
    vec![0x48, 8, 0x01, 3, b'A', b'B', b'C', 2, b'X', b'Y']
}

/// One service record: id, the byte holding the EIT flags, the byte holding running status,
/// free/CA mode and the top of the loop length, and the descriptor loop.
fn record(id: u16, flags: u8, status_byte: u8, descriptors: &[u8]) -> Vec<u8> {
    let len = descriptors.len();
    let mut r = vec![
        (id >> 8) as u8,
        id as u8,
        flags,
        status_byte | ((len >> 8) as u8 & 0x0f),
        len as u8,
    ];
    r.extend_from_slice(descriptors);
    r
}

struct AssertConsumer;
impl SdtConsumer for AssertConsumer {
    fn consume(&mut self, sdt: ActualOther<&SdtSection<'_>>) {
        let sdt = sdt.actual().unwrap();
        assert_eq!(9018, sdt.original_network_id());
        let mut i = sdt.services();
        let a = i.next().unwrap().unwrap();
        assert!(a.eit_schedule_flag());
        assert!(a.eit_present_following_flag());
        assert_eq!(RunningStatus::Running, a.running_status());
        assert_eq!(25, sdt.service_list().unwrap().len());
    }
}

#[test]
fn it_works() {
    let section = bbc_section();
    let mut consumer = AssertConsumer;
    assert!(deliver(&mut consumer, section[0], body_of(&section)));
}

#[test]
fn bbc_section_services() {
    let section = bbc_section();
    let sdt = SdtSection::new(body_of(&section));
    let services = sdt.service_list().unwrap();
    assert_eq!(services.len(), 25);
    assert_eq!(services[0].service_id(), 0x1043);
    let mut descriptors = services[0].descriptors();
    match descriptors.next() {
        Some(Ok(En300_468Descriptors::Service(sd))) => {
            assert_eq!(sd.service_type(), ServiceType::DigitalTelevision);
            assert_eq!(
                sd.service_provider_name().err(),
                Some(TextError::NotEnoughData {
                    expected: 1,
                    available: 0
                })
            );
            assert_eq!(sd.service_name().unwrap().to_string().unwrap(), "BBC ONE South");
        }
        _ => panic!("expected a service descriptor"),
    }
    assert!(matches!(
        descriptors.next(),
        Some(Ok(En300_468Descriptors::UserPrivate(_)))
    ));
    assert!(descriptors.next().is_none());
}

#[test]
fn routing_by_table_id() {
    let body = [0x23u8, 0x3a, 0xff, 0x00];
    assert!(matches!(route(0x42, &body), Some(ActualOther::Actual(_))));
    assert!(matches!(route(0x46, &body), Some(ActualOther::Other(_))));
    assert!(route(0x4a, &body).is_none());
    let mut consumer = CountingConsumer::default();
    assert!(deliver(&mut consumer, 0x46, &body));
    assert!(!deliver(&mut consumer, 0x00, &body));
    assert_eq!((consumer.actual, consumer.other), (0, 1));
    assert!(deliver(&mut consumer, 0x42, &body));
    assert_eq!((consumer.actual, consumer.other), (1, 1));
}

#[derive(Default)]
struct CountingConsumer {
    actual: usize,
    other: usize,
}
impl SdtConsumer for CountingConsumer {
    fn consume(&mut self, sect: ActualOther<&SdtSection<'_>>) {
        match sect {
            ActualOther::Actual(_) => self.actual += 1,
            ActualOther::Other(_) => self.other += 1,
        }
    }
}

#[test]
fn empty_service_loop_yields_nothing() {
    let mut it = ServiceIterator::new(&[]);
    assert!(it.next().is_none());
    assert!(it.next().is_none());
    let sdt = SdtSection::new(&[0x23, 0x3a, 0xff, 0x00]);
    assert!(sdt.service_list().is_err());
    let sdt = SdtSection::new(&[0x23, 0x3a, 0xff, 0x00, 0x01, 0xff, 0x80, 0x00]);
    assert_eq!(sdt.service_list().unwrap().len(), 1);
}

#[test]
fn concatenated_records_split_back() {
    let records = vec![
        record(1, 0xff, 0x80, &service_descriptor_bytes()),
        record(2, 0xfc, 0x20, &[]),
        record(3, 0xfd, 0x90, &[0x40, 1, b'n', 0x5f, 0]),
    ];
    let loop_bytes: Vec<u8> = records.concat();
    let mut it = ServiceIterator::new(&loop_bytes);
    let mut rebuilt = Vec::new();
    let mut n = 0;
    while let Some(s) = it.next() {
        rebuilt.extend_from_slice(s.unwrap().bytes());
        n += 1;
    }
    assert_eq!(n, records.len());
    assert_eq!(rebuilt, loop_bytes);
}

#[test]
fn overlong_service_record_is_an_error() {
    let mut it = ServiceIterator::new(&[0x00, 0x01, 0xff, 0x80, 0x05, 0x48]);
    assert_eq!(
        it.next().map(|r| r.err()),
        Some(Some(SectionError::NotEnoughData {
            expected: 10,
            available: 6
        }))
    );
    assert!(it.next().is_none());
    let mut it = ServiceIterator::new(&[0x00, 0x01, 0xff]);
    assert_eq!(
        it.next().map(|r| r.err()),
        Some(Some(SectionError::NotEnoughData {
            expected: 5,
            available: 3
        }))
    );
    assert!(it.next().is_none());
}

#[test]
fn service_descriptor_dispatch() {
    let bytes = service_descriptor_bytes();
    match En300_468Descriptors::from_bytes(&bytes) {
        Ok(En300_468Descriptors::Service(sd)) => {
            assert_eq!(sd.service_type(), ServiceType::DigitalTelevision);
            let provider = sd.service_provider_name().unwrap();
            assert_eq!(provider.to_string().unwrap(), "ABC");
            assert_eq!(sd.service_name().unwrap().to_string().unwrap(), "XY");
        }
        _ => panic!("expected a service descriptor"),
    }
}

#[test]
fn unknown_tags_keep_their_payload() {
    for (tag, expect_reserved) in [(0u8, true), (37, true), (2, false), (0xff, false)] {
        let bytes = [tag, 2, 0xaa, 0xbb];
        let d = En300_468Descriptors::from_bytes(&bytes).unwrap();
        let u = match d {
            En300_468Descriptors::Reserved(u) => {
                assert!(expect_reserved);
                u
            }
            En300_468Descriptors::VideoStream(u) => {
                assert_eq!(tag, 2);
                u
            }
            En300_468Descriptors::Forbidden(u) => {
                assert_eq!(tag, 0xff);
                u
            }
            _ => panic!("unexpected variant"),
        };
        assert_eq!(u.tag, tag);
        assert_eq!(u.payload, &[0xaa, 0xbb]);
    }
    assert!(matches!(
        En300_468Descriptors::from_bytes(&[0x45, 0]),
        Ok(En300_468Descriptors::UserPrivate(_))
    ));
    assert!(matches!(
        En300_468Descriptors::from_bytes(&[0x4d, 0]),
        Ok(En300_468Descriptors::ShortEvent(_))
    ));
}

#[test]
fn descriptor_errors() {
    assert_eq!(
        En300_468Descriptors::from_bytes(&[0x48]).err(),
        Some(DescriptorError::BufferTooShort { buflen: 1 })
    );
    assert_eq!(
        En300_468Descriptors::from_bytes(&[0x48, 3, 1]).err(),
        Some(DescriptorError::TagTooLongForBuffer { taglen: 3, buflen: 3 })
    );
    assert_eq!(
        En300_468Descriptors::from_bytes(&[0x48, 0]).err(),
        Some(DescriptorError::NotEnoughData {
            tag: 0x48,
            actual: 0,
            expected: 1
        })
    );
    let mut it = DescriptorIter::new(&[0x40, 4, 1]);
    assert_eq!(
        it.next().map(|r| r.err()),
        Some(Some(DescriptorError::NotEnoughData {
            tag: 0x40,
            actual: 1,
            expected: 4
        }))
    );
    assert!(it.next().is_none());
    let mut it = DescriptorIter::new(&[0x40]);
    assert_eq!(
        it.next().map(|r| r.err()),
        Some(Some(DescriptorError::BufferTooShort { buflen: 1 }))
    );
}

#[test]
fn service_descriptor_name_errors() {
    assert_eq!(
        ServiceDescriptor::new(0x48, &[]).err(),
        Some(DescriptorError::NotEnoughData {
            tag: 0x48,
            actual: 0,
            expected: 1
        })
    );
    let sd = ServiceDescriptor::new(0x48, &[0x01]).unwrap();
    let e = TextError::NotEnoughData {
        expected: 2,
        available: 1,
    };
    assert_eq!(sd.service_provider_name().err(), Some(e));
    assert_eq!(sd.service_name().err(), Some(e));
    let sd = ServiceDescriptor::new(0x48, &[0x01, 5, b'A']).unwrap();
    assert_eq!(
        sd.service_provider_name().err(),
        Some(TextError::NotEnoughData {
            expected: 7,
            available: 3
        })
    );
    let sd = ServiceDescriptor::new(0x48, &[0x01, 1, b'A']).unwrap();
    assert_eq!(
        sd.service_name().err(),
        Some(TextError::NotEnoughData {
            expected: 4,
            available: 3
        })
    );
    let sd = ServiceDescriptor::new(0x48, &[0x01, 1, b'A', 4, b'X']).unwrap();
    assert_eq!(
        sd.service_name().err(),
        Some(TextError::NotEnoughData {
            expected: 8,
            available: 5
        })
    );
    let sd = ServiceDescriptor::new(0x48, &[0x01, 0, 1, b'X']).unwrap();
    assert_eq!(
        sd.service_provider_name().err(),
        Some(TextError::NotEnoughData {
            expected: 1,
            available: 0
        })
    );
    assert_eq!(sd.service_name().unwrap().bytes(), b"X");
}

#[test]
fn service_types() {
    assert_eq!(ServiceType::from_id(0x00), ServiceType::Reserved(0x00));
    assert_eq!(ServiceType::from_id(0x01), ServiceType::DigitalTelevision);
    assert_eq!(ServiceType::from_id(0x02), ServiceType::DigitalRadioSound);
    assert_eq!(ServiceType::from_id(0x09), ServiceType::Reserved(0x09));
    assert_eq!(ServiceType::from_id(0x13), ServiceType::Reserved(0x13));
    assert_eq!(ServiceType::from_id(0x19), ServiceType::H264AvcHdDigitalTelevision);
    assert_eq!(ServiceType::from_id(0x1f), ServiceType::HevcDigitalTelevision);
    assert_eq!(ServiceType::from_id(0x20), ServiceType::Reserved(0x20));
    assert_eq!(ServiceType::from_id(0x80), ServiceType::UserDefined(0x80));
    assert_eq!(ServiceType::from_id(0xfe), ServiceType::UserDefined(0xfe));
    assert_eq!(ServiceType::from_id(0xff), ServiceType::Reserved(0xff));
}

#[test]
fn end_to_end_section() {
    let mut body = vec![0x23u8, 0x3a, 0xff];
    body.extend(record(0x1043, 0xff, 0x80, &service_descriptor_bytes()));
    let sdt = SdtSection::new(&body);
    assert_eq!(sdt.original_network_id(), 9018);
    assert_eq!(sdt.buffer(), &body[..]);
    let services = sdt.service_list().unwrap();
    assert_eq!(services.len(), 1);
    let s = &services[0];
    assert_eq!(s.service_id(), 0x1043);
    assert!(s.eit_schedule_flag());
    assert!(s.eit_present_following_flag());
    assert_eq!(s.running_status(), RunningStatus::Running);
    assert!(!s.free_ca_mode());
    let mut ds = s.descriptors();
    assert!(matches!(ds.next(), Some(Ok(En300_468Descriptors::Service(_)))));
    assert!(ds.next().is_none());
}

#[test]
fn service_flags_are_read_separately() {
    let r = record(7, 0b10, 0x10, &[]);
    let sdt_body = [&[0u8, 1, 0xff][..], &r[..]].concat();
    let sdt = SdtSection::new(&sdt_body);
    let s = &sdt.service_list().unwrap()[0];
    assert!(s.eit_schedule_flag());
    assert!(!s.eit_present_following_flag());
    assert!(s.free_ca_mode());
    assert_eq!(s.running_status(), RunningStatus::Undefined);
}

#[test]
fn running_status_from_three_bits() {
    let status_of = |bits: u8| {
        let r = record(1, 0, bits << 5, &[]);
        let mut it = ServiceIterator::new(&r);
        it.next().unwrap().unwrap().running_status()
    };
    assert_eq!(status_of(0b100), RunningStatus::Running);
    assert_eq!(status_of(0b110), RunningStatus::Reserved(6));
    assert_eq!(status_of(0b111), RunningStatus::Reserved(7));
    assert_eq!(status_of(0b001), RunningStatus::NotRunning);
    assert_eq!(status_of(0b101), RunningStatus::ServiceOffAir);
    assert_eq!(RunningStatus::from_id(2), RunningStatus::StartsInAFewSeconds);
    assert_eq!(RunningStatus::from_id(3), RunningStatus::Pausing);
    assert_eq!(RunningStatus::from_id(9), RunningStatus::Reserved(9));
}
