//! The smallest plugin: Basic capability only, with its identity and
//! version.

use vstd::prelude::*;
use crate::error::CubeMelonPluginErrorCode;
use crate::interfaces::PluginBase;
use crate::types::{CubeMelonLanguage, CubeMelonUUID, CubeMelonVersion};

verus! {

#[derive(Debug)]
pub struct SimplePlugin {}

impl SimplePlugin {
    pub fn new() -> (r: Self) {
        SimplePlugin {}
    }

    /// ac02f3d9-0354-4012-91d3-d8f5bddd5b23
    pub fn get_uuid() -> (r: CubeMelonUUID)
        ensures
            r.bytes@ == seq![
                0xacu8, 0x02, 0xf3, 0xd9, 0x03, 0x54, 0x40, 0x12,
                0x91, 0xd3, 0xd8, 0xf5, 0xbd, 0xdd, 0x5b, 0x23,
            ],
    {
        let r = CubeMelonUUID {
            bytes: [
                0xac, 0x02, 0xf3, 0xd9, 0x03, 0x54, 0x40, 0x12,
                0x91, 0xd3, 0xd8, 0xf5, 0xbd, 0xdd, 0x5b, 0x23,
            ],
        };
        assert(r.bytes@ =~= seq![
            0xacu8, 0x02, 0xf3, 0xd9, 0x03, 0x54, 0x40, 0x12,
            0x91, 0xd3, 0xd8, 0xf5, 0xbd, 0xdd, 0x5b, 0x23,
        ]);
        r
    }

    pub fn get_version() -> (r: CubeMelonVersion)
        ensures
            r.major == 1 && r.minor == 0 && r.patch == 0,
    {
        CubeMelonVersion::new(1, 0, 0)
    }

    /// Basic only: the empty mask.
    pub fn get_supported_types() -> (r: u64)
        ensures
            r == 0,
    {
        0
    }
}

impl PluginBase for SimplePlugin {
    open spec fn spec_supported_types() -> u64 {
        0
    }

    fn get_uuid() -> CubeMelonUUID {
        SimplePlugin::get_uuid()
    }

    fn get_version() -> CubeMelonVersion {
        SimplePlugin::get_version()
    }

    fn get_supported_types() -> (r: u64) {
        SimplePlugin::get_supported_types()
    }

    fn is_thread_safe() -> bool {
        true
    }

    fn get_thread_requirements() -> u32 {
        0
    }

    fn get_name(&self, _language: CubeMelonLanguage) -> &'static str {
        "Unnamed Plugin"
    }

    fn get_description(&self, _language: CubeMelonLanguage) -> &'static str {
        "No description"
    }

    fn initialize(&mut self) -> Result<(), CubeMelonPluginErrorCode> {
        Ok(())
    }

    fn uninitialize(&mut self) -> Result<(), CubeMelonPluginErrorCode> {
        Ok(())
    }
}

} // verus!
