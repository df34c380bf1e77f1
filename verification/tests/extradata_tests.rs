use mslnk::ExtraData;

fn block(sig: u32, payload: &[u8]) -> Vec<u8> {
    let size = (payload.len() + 8) as u32;
    let mut data = size.to_le_bytes().to_vec();
    data.extend_from_slice(&sig.to_le_bytes());
    data.extend_from_slice(payload);
    data
}

/// Blocks are classified by the signature at offset 4; the payload is
/// everything after the 8 header bytes.
#[test]
fn test_classify_environment_block() {
    let data = block(0xa0000001, &[9, 8, 7]);
    match ExtraData::from(&data[..]) {
        ExtraData::EnvironmentProps(payload) => assert_eq!(payload, vec![9, 8, 7]),
        other => panic!("wrong classification: {:?}", other),
    }
}

#[test]
fn test_classify_each_signature() {
    let cases: Vec<(u32, fn(&ExtraData) -> bool)> = vec![
        (0xa0000001, |e| matches!(e, ExtraData::EnvironmentProps(_))),
        (0xa0000002, |e| matches!(e, ExtraData::ConsoleProps(_))),
        (0xa0000003, |e| matches!(e, ExtraData::TrackerProps(_))),
        (0xa0000004, |e| matches!(e, ExtraData::ConsoleFeProps(_))),
        (0xa0000005, |e| matches!(e, ExtraData::SpecialFolderProps(_))),
        (0xa0000006, |e| matches!(e, ExtraData::DarwinProps(_))),
        (0xa0000007, |e| matches!(e, ExtraData::IconEnvironmentProps(_))),
        (0xa0000008, |e| matches!(e, ExtraData::ShimProps(_))),
        (0xa0000009, |e| matches!(e, ExtraData::PropertyStoreProps(_))),
        (0xa000000a, |e| matches!(e, ExtraData::VistaAndAboveIdListProps(_))),
        (0xa000000b, |e| matches!(e, ExtraData::KnownFolderProps(_))),
    ];
    for (sig, check) in cases {
        let data = block(sig, &[1]);
        let parsed = ExtraData::from(&data[..]);
        assert!(check(&parsed), "signature {:08x} misclassified", sig);
    }
}

/// An empty payload stays empty.
#[test]
fn test_empty_payload() {
    let data = block(0xa0000005, &[]);
    match ExtraData::from(&data[..]) {
        ExtraData::SpecialFolderProps(payload) => assert!(payload.is_empty()),
        other => panic!("wrong classification: {:?}", other),
    }
}
