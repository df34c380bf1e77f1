//! Link-resolution information: where to look for the target when it is
//! not at its original location. The model carries the fields; serializing
//! this section is an explicit non-goal and always reports an error.

use vstd::prelude::*;
use vstd::string::StringExecFns;

use crate::error::MSLinkError;

verus! {

/// The volume-identifier and local-base-path fields are present.
pub const VOLUME_ID_AND_LOCAL_BASE_PATH: u32 = 0x00000001;

/// The common-network-relative-link field is present.
pub const COMMON_NETWORK_RELATIVE_LINK_AND_PATH_SUFFIX: u32 = 0x00000002;

/// Bit set saying which optional link-resolution fields are present.
#[derive(Clone, Copy, Debug, PartialEq, Eq, Structural)]
pub struct LinkInfoFlags {
    pub bits: u32,
}

impl LinkInfoFlags {
    /// No field present.
    pub fn empty() -> (r: LinkInfoFlags)
        ensures
            r.bits == 0,
    {
        LinkInfoFlags { bits: 0 }
    }

    /// True when every bit of `mask` is set.
    pub fn contains(&self, mask: u32) -> (r: bool)
        ensures
            r == (self.bits & mask == mask),
    {
        self.bits & mask == mask
    }
}

/// The device-name field holds a device.
pub const VALID_DEVICE: u32 = 0x00000001;

/// The network-provider-type field holds a provider type.
pub const VALID_NET_TYPE: u32 = 0x00000002;

/// Bit set over the network-relative-link fields above.
#[derive(Clone, Copy, Debug, PartialEq, Eq, Structural)]
pub struct CommonNetworkRelativeLinkFlags {
    pub bits: u32,
}

impl CommonNetworkRelativeLinkFlags {
    /// No field set.
    pub fn empty() -> (r: CommonNetworkRelativeLinkFlags)
        ensures
            r.bits == 0,
    {
        CommonNetworkRelativeLinkFlags { bits: 0 }
    }

    /// True when every bit of `mask` is set.
    pub fn contains(&self, mask: u32) -> (r: bool)
        ensures
            r == (self.bits & mask == mask),
    {
        self.bits & mask == mask
    }
}

/// The known network providers a link target may sit behind.
#[derive(Clone, Copy, Debug, PartialEq, Eq, Structural)]
pub enum NetworkProviderType {
    Avid,
    Docuspace,
    Mangosoft,
    Sernet,
    Riverfront1,
    Riverfront2,
    Decorb,
    Protstor,
    FjRedir,
    Distinct,
    Twins,
    Rdr2Sample,
    CSC,
    ThreeInOne,
    ExtendNet,
    Stac,
    Foxbat,
    Yahoo,
    Exifs,
    Dav,
    Knoware,
    ObjectDire,
    Masfax,
    HobNfs,
    Shiva,
    Ibmal,
    Lock,
    Termsrv,
    Srt,
    Quincy,
    Openafs,
    Avid1,
    Dfs,
    Kwnp,
    Zenworks,
    Driveonweb,
    Vmware,
    Rsfx,
    Mfiles,
    MsNfs,
    Google,
}

/// The 32-bit provider code of each network provider.
pub open spec fn network_provider_code(t: NetworkProviderType) -> u32 {
    match t {
        NetworkProviderType::Avid => 0x1a0000,
        NetworkProviderType::Docuspace => 0x1b0000,
        NetworkProviderType::Mangosoft => 0x1c0000,
        NetworkProviderType::Sernet => 0x1d0000,
        NetworkProviderType::Riverfront1 => 0x1e0000,
        NetworkProviderType::Riverfront2 => 0x1f0000,
        NetworkProviderType::Decorb => 0x200000,
        NetworkProviderType::Protstor => 0x210000,
        NetworkProviderType::FjRedir => 0x220000,
        NetworkProviderType::Distinct => 0x230000,
        NetworkProviderType::Twins => 0x240000,
        NetworkProviderType::Rdr2Sample => 0x250000,
        NetworkProviderType::CSC => 0x260000,
        NetworkProviderType::ThreeInOne => 0x270000,
        NetworkProviderType::ExtendNet => 0x290000,
        NetworkProviderType::Stac => 0x2a0000,
        NetworkProviderType::Foxbat => 0x2b0000,
        NetworkProviderType::Yahoo => 0x2c0000,
        NetworkProviderType::Exifs => 0x2d0000,
        NetworkProviderType::Dav => 0x2e0000,
        NetworkProviderType::Knoware => 0x2f0000,
        NetworkProviderType::ObjectDire => 0x300000,
        NetworkProviderType::Masfax => 0x310000,
        NetworkProviderType::HobNfs => 0x320000,
        NetworkProviderType::Shiva => 0x330000,
        NetworkProviderType::Ibmal => 0x340000,
        NetworkProviderType::Lock => 0x350000,
        NetworkProviderType::Termsrv => 0x360000,
        NetworkProviderType::Srt => 0x370000,
        NetworkProviderType::Quincy => 0x380000,
        NetworkProviderType::Openafs => 0x390000,
        NetworkProviderType::Avid1 => 0x3a0000,
        NetworkProviderType::Dfs => 0x3b0000,
        NetworkProviderType::Kwnp => 0x3c0000,
        NetworkProviderType::Zenworks => 0x3d0000,
        NetworkProviderType::Driveonweb => 0x3e0000,
        NetworkProviderType::Vmware => 0x3f0000,
        NetworkProviderType::Rsfx => 0x400000,
        NetworkProviderType::Mfiles => 0x410000,
        NetworkProviderType::MsNfs => 0x420000,
        NetworkProviderType::Google => 0x430000,
    }
}

impl NetworkProviderType {
    /// The provider code as stored in the binary format.
    pub fn value(&self) -> (r: u32)
        ensures
            r == network_provider_code(*self),
    {
        match self {
            NetworkProviderType::Avid => 0x1a0000,
            NetworkProviderType::Docuspace => 0x1b0000,
            NetworkProviderType::Mangosoft => 0x1c0000,
            NetworkProviderType::Sernet => 0x1d0000,
            NetworkProviderType::Riverfront1 => 0x1e0000,
            NetworkProviderType::Riverfront2 => 0x1f0000,
            NetworkProviderType::Decorb => 0x200000,
            NetworkProviderType::Protstor => 0x210000,
            NetworkProviderType::FjRedir => 0x220000,
            NetworkProviderType::Distinct => 0x230000,
            NetworkProviderType::Twins => 0x240000,
            NetworkProviderType::Rdr2Sample => 0x250000,
            NetworkProviderType::CSC => 0x260000,
            NetworkProviderType::ThreeInOne => 0x270000,
            NetworkProviderType::ExtendNet => 0x290000,
            NetworkProviderType::Stac => 0x2a0000,
            NetworkProviderType::Foxbat => 0x2b0000,
            NetworkProviderType::Yahoo => 0x2c0000,
            NetworkProviderType::Exifs => 0x2d0000,
            NetworkProviderType::Dav => 0x2e0000,
            NetworkProviderType::Knoware => 0x2f0000,
            NetworkProviderType::ObjectDire => 0x300000,
            NetworkProviderType::Masfax => 0x310000,
            NetworkProviderType::HobNfs => 0x320000,
            NetworkProviderType::Shiva => 0x330000,
            NetworkProviderType::Ibmal => 0x340000,
            NetworkProviderType::Lock => 0x350000,
            NetworkProviderType::Termsrv => 0x360000,
            NetworkProviderType::Srt => 0x370000,
            NetworkProviderType::Quincy => 0x380000,
            NetworkProviderType::Openafs => 0x390000,
            NetworkProviderType::Avid1 => 0x3a0000,
            NetworkProviderType::Dfs => 0x3b0000,
            NetworkProviderType::Kwnp => 0x3c0000,
            NetworkProviderType::Zenworks => 0x3d0000,
            NetworkProviderType::Driveonweb => 0x3e0000,
            NetworkProviderType::Vmware => 0x3f0000,
            NetworkProviderType::Rsfx => 0x400000,
            NetworkProviderType::Mfiles => 0x410000,
            NetworkProviderType::MsNfs => 0x420000,
            NetworkProviderType::Google => 0x430000,
        }
    }
}

/// Where the target is stored on a network: a server share path, a device,
/// the provider type, and optional wide duplicates of the names.
#[derive(Clone, Debug)]
pub struct CommonNetworkRelativeLink {
    pub flags: CommonNetworkRelativeLinkFlags,
    pub network_provider_type: Option<NetworkProviderType>,
    pub net_name: String,
    pub device_name: String,
    pub net_name_unicode: Option<String>,
    pub device_name_unicode: Option<String>,
}

impl Default for CommonNetworkRelativeLink {
    /// A blank network-relative link.
    fn default() -> (r: CommonNetworkRelativeLink)
        ensures
            r.flags.bits == 0,
            r.network_provider_type is None,
            r.net_name@ == Seq::<char>::empty(),
            r.device_name@ == Seq::<char>::empty(),
            r.net_name_unicode is None,
            r.device_name_unicode is None,
    {
        CommonNetworkRelativeLink {
            flags: CommonNetworkRelativeLinkFlags { bits: 0 },
            network_provider_type: None,
            net_name: String::new(),
            device_name: String::new(),
            net_name_unicode: None,
            device_name_unicode: None,
        }
    }
}

impl CommonNetworkRelativeLink {
    /// Serializing this section is not implemented; the call reports it.
    pub fn to_data(&self) -> (r: Result<Vec<u8>, MSLinkError>)
        ensures
            r is Err,
            r->Err_0.kind@ == "unimplemented"@,
    {
        Err(
            MSLinkError::unimplemented_error(
                String::from_str("network-relative link cannot be serialized"),
            ),
        )
    }
}

/// The link-resolution section: the paths and network location used to
/// find a target that moved.
#[derive(Clone, Debug)]
pub struct LinkInfo {
    /// The parsed size of the whole section.
    pub size: u32,
    pub link_info_flags: LinkInfoFlags,
    pub local_base_path: Option<String>,
    pub common_network_relative_link: Option<CommonNetworkRelativeLink>,
    pub common_path_suffix: String,
    pub local_base_path_unicode: Option<String>,
    pub common_path_suffix_unicode: Option<String>,
}

impl Default for LinkInfo {
    /// A blank link-resolution section.
    fn default() -> (r: LinkInfo)
        ensures
            r.size == 0,
            r.link_info_flags.bits == 0,
            r.local_base_path is None,
            r.common_network_relative_link is None,
            r.common_path_suffix@ == Seq::<char>::empty(),
            r.local_base_path_unicode is None,
            r.common_path_suffix_unicode is None,
    {
        LinkInfo {
            size: 0,
            link_info_flags: LinkInfoFlags { bits: 0 },
            local_base_path: None,
            common_network_relative_link: None,
            common_path_suffix: String::new(),
            local_base_path_unicode: None,
            common_path_suffix_unicode: None,
        }
    }
}

impl LinkInfo {
    /// Serializing this section is not implemented; the call reports it.
    pub fn to_data(&self) -> (r: Result<Vec<u8>, MSLinkError>)
        ensures
            r is Err,
            r->Err_0.kind@ == "unimplemented"@,
    {
        Err(
            MSLinkError::unimplemented_error(
                String::from_str("link-resolution section cannot be serialized"),
            ),
        )
    }
}

} // verus!
