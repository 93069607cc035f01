//! Capability negotiation: a caller asks for one capability at one interface
//! version and gets the matching table, or a failure with no table at all.

use vstd::prelude::*;
use crate::error::CubeMelonPluginErrorCode;

verus! {

/// The interface version every capability table currently has.
pub const INTERFACE_VERSION: u32 = 1;

/// The capability tables a plugin can hand out.
#[derive(Debug, Clone, Copy, PartialEq, Eq, Structural)]
pub enum CapabilityTable {
    Basic,
    SingleTask,
    AsyncTask,
    Resident,
    State,
    Manager,
}

/// The table a request mask names: the empty mask names Basic and each
/// table-bearing capability is a single bit. Any other mask names nothing.
pub open spec fn table_for_request(requested: u64) -> Option<CapabilityTable> {
    if requested == 0 {
        Some(CapabilityTable::Basic)
    } else if requested == 0x1 {
        Some(CapabilityTable::SingleTask)
    } else if requested == 0x2 {
        Some(CapabilityTable::AsyncTask)
    } else if requested == 0x4 {
        Some(CapabilityTable::Resident)
    } else if requested == 0x8 {
        Some(CapabilityTable::State)
    } else if requested == 0x10 {
        Some(CapabilityTable::Manager)
    } else {
        None
    }
}

/// Outcome of a negotiation: the version is checked first, then whether
/// the advertised mask holds the requested capability (Basic always does).
pub open spec fn spec_negotiate(advertised: u64, requested: u64, version: u32) -> (
    CubeMelonPluginErrorCode,
    Option<CapabilityTable>,
) {
    if version != INTERFACE_VERSION {
        (CubeMelonPluginErrorCode::VersionMismatch, None)
    } else {
        match table_for_request(requested) {
            Some(t) => if requested == 0 || advertised & requested != 0 {
                (CubeMelonPluginErrorCode::Success, Some(t))
            } else {
                (CubeMelonPluginErrorCode::InterfaceNotSupported, None)
            },
            None => (CubeMelonPluginErrorCode::InterfaceNotSupported, None),
        }
    }
}

fn table_for_request_exec(requested: u64) -> (r: Option<CapabilityTable>)
    ensures
        r == table_for_request(requested),
{
    if requested == 0 {
        Some(CapabilityTable::Basic)
    } else if requested == 0x1 {
        Some(CapabilityTable::SingleTask)
    } else if requested == 0x2 {
        Some(CapabilityTable::AsyncTask)
    } else if requested == 0x4 {
        Some(CapabilityTable::Resident)
    } else if requested == 0x8 {
        Some(CapabilityTable::State)
    } else if requested == 0x10 {
        Some(CapabilityTable::Manager)
    } else {
        None
    }
}

/// Negotiates one capability for a plugin advertising `advertised`. The
/// out-table is cleared before any check, so a caller that ignores the code
/// still sees no table on failure.
pub fn negotiate(
    advertised: u64,
    requested: u64,
    version: u32,
    out_table: &mut Option<CapabilityTable>,
) -> (r: CubeMelonPluginErrorCode)
    ensures
        (r, *final(out_table)) == spec_negotiate(advertised, requested, version),
{
    *out_table = None;
    if version != INTERFACE_VERSION {
        return CubeMelonPluginErrorCode::VersionMismatch;
    }
    match table_for_request_exec(requested) {
        Some(t) => {
            if requested == 0 || advertised & requested != 0 {
                *out_table = Some(t);
                CubeMelonPluginErrorCode::Success
            } else {
                CubeMelonPluginErrorCode::InterfaceNotSupported
            }
        },
        None => CubeMelonPluginErrorCode::InterfaceNotSupported,
    }
}

/// Negotiation correctness: at the current version, a request for Basic or
/// for one table-bearing capability bit succeeds with a table exactly when
/// the request is Basic or the advertised mask holds the bit; otherwise it
/// fails with `InterfaceNotSupported` and no table.
pub proof fn lemma_negotiation_correct(advertised: u64, requested: u64)
    requires
        table_for_request(requested) is Some,
    ensures
        spec_negotiate(advertised, requested, INTERFACE_VERSION).0
            == CubeMelonPluginErrorCode::Success <==> (requested == 0 || advertised & requested
            != 0),
        spec_negotiate(advertised, requested, INTERFACE_VERSION).0
            == CubeMelonPluginErrorCode::Success ==> spec_negotiate(
            advertised,
            requested,
            INTERFACE_VERSION,
        ).1 == table_for_request(requested),
        !(requested == 0 || advertised & requested != 0) ==> spec_negotiate(
            advertised,
            requested,
            INTERFACE_VERSION,
        ) == (CubeMelonPluginErrorCode::InterfaceNotSupported, None::<CapabilityTable>),
{
}

/// Version fail-closed: any version other than the current one yields
/// `VersionMismatch` and no table, whatever is requested or advertised.
pub proof fn lemma_version_fail_closed(advertised: u64, requested: u64, version: u32)
    requires
        version != INTERFACE_VERSION,
    ensures
        spec_negotiate(advertised, requested, version) == (
            CubeMelonPluginErrorCode::VersionMismatch,
            None::<CapabilityTable>,
        ),
{
}

} // verus!
