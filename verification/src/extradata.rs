//! The trailing extra-data section: opaque tagged blobs classified by a
//! 32-bit signature. Blocks are only read and carried, never written.

use vstd::prelude::*;

use crate::encode::{le32_at, read_le32};

verus! {

/// One extra-data block, classified by its signature; each variant holds
/// the block's payload after the 8 header bytes.
#[derive(Clone, Debug)]
pub enum ExtraData {
    ConsoleProps(Vec<u8>),
    ConsoleFeProps(Vec<u8>),
    DarwinProps(Vec<u8>),
    EnvironmentProps(Vec<u8>),
    IconEnvironmentProps(Vec<u8>),
    KnownFolderProps(Vec<u8>),
    PropertyStoreProps(Vec<u8>),
    ShimProps(Vec<u8>),
    SpecialFolderProps(Vec<u8>),
    TrackerProps(Vec<u8>),
    VistaAndAboveIdListProps(Vec<u8>),
}

/// True for the eleven signature values that classify a block.
pub open spec fn known_extra_sig(sig: u32) -> bool {
    ||| sig == 0xa0000001
    ||| sig == 0xa0000002
    ||| sig == 0xa0000003
    ||| sig == 0xa0000004
    ||| sig == 0xa0000005
    ||| sig == 0xa0000006
    ||| sig == 0xa0000007
    ||| sig == 0xa0000008
    ||| sig == 0xa0000009
    ||| sig == 0xa000000a
    ||| sig == 0xa000000b
}

impl ExtraData {
    /// The signature value that classifies this block.
    pub open spec fn spec_signature(self) -> u32 {
        match self {
            ExtraData::ConsoleProps(_) => 0xa0000002,
            ExtraData::ConsoleFeProps(_) => 0xa0000004,
            ExtraData::DarwinProps(_) => 0xa0000006,
            ExtraData::EnvironmentProps(_) => 0xa0000001,
            ExtraData::IconEnvironmentProps(_) => 0xa0000007,
            ExtraData::KnownFolderProps(_) => 0xa000000b,
            ExtraData::PropertyStoreProps(_) => 0xa0000009,
            ExtraData::ShimProps(_) => 0xa0000008,
            ExtraData::SpecialFolderProps(_) => 0xa0000005,
            ExtraData::TrackerProps(_) => 0xa0000003,
            ExtraData::VistaAndAboveIdListProps(_) => 0xa000000a,
        }
    }

    /// The payload carried by this block.
    pub open spec fn spec_payload(self) -> Seq<u8> {
        match self {
            ExtraData::ConsoleProps(d) => d@,
            ExtraData::ConsoleFeProps(d) => d@,
            ExtraData::DarwinProps(d) => d@,
            ExtraData::EnvironmentProps(d) => d@,
            ExtraData::IconEnvironmentProps(d) => d@,
            ExtraData::KnownFolderProps(d) => d@,
            ExtraData::PropertyStoreProps(d) => d@,
            ExtraData::ShimProps(d) => d@,
            ExtraData::SpecialFolderProps(d) => d@,
            ExtraData::TrackerProps(d) => d@,
            ExtraData::VistaAndAboveIdListProps(d) => d@,
        }
    }

    /// Classifies one serialized block by the signature stored
    /// little-endian at offset 4; everything after the 8 header bytes is
    /// the payload.
    pub fn from(data: &[u8]) -> (r: ExtraData)
        requires
            data@.len() >= 8,
            known_extra_sig(le32_at(data@, 4)),
        ensures
            r.spec_signature() == le32_at(data@, 4),
            r.spec_payload() == data@.skip(8),
    {
        let sig = read_le32(data, 4);
        let n: usize = data.len();
        let payload = vstd::slice::slice_to_vec(vstd::slice::slice_subrange(data, 8, n));
        assert(payload@ =~= data@.skip(8));
        if sig == 0xa0000002 {
            ExtraData::ConsoleProps(payload)
        } else if sig == 0xa0000004 {
            ExtraData::ConsoleFeProps(payload)
        } else if sig == 0xa0000006 {
            ExtraData::DarwinProps(payload)
        } else if sig == 0xa0000001 {
            ExtraData::EnvironmentProps(payload)
        } else if sig == 0xa0000007 {
            ExtraData::IconEnvironmentProps(payload)
        } else if sig == 0xa000000b {
            ExtraData::KnownFolderProps(payload)
        } else if sig == 0xa0000009 {
            ExtraData::PropertyStoreProps(payload)
        } else if sig == 0xa0000008 {
            ExtraData::ShimProps(payload)
        } else if sig == 0xa0000005 {
            ExtraData::SpecialFolderProps(payload)
        } else if sig == 0xa0000003 {
            ExtraData::TrackerProps(payload)
        } else {
            ExtraData::VistaAndAboveIdListProps(payload)
        }
    }
}

} // verus!
