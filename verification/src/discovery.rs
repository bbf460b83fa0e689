//! Board discovery: recognising a board from its USB identifiers.
//!
//! Enumerating serial ports and opening them is the embedding program's
//! work; the decision of whether a port's USB identifiers belong to a board
//! worth a handshake is made here.

use vstd::prelude::*;

verus! {

/// The USB vendor identifier of the boards' manufacturer.
pub const BOARD_VENDOR_ID: u16 = 9025;

/// The USB product identifier of the one board model recognised by name.
pub const MEGA2560_PRODUCT_ID: u16 = 66;

/// The board types recognised at discovery.
#[derive(Debug, Clone, Copy, PartialEq, Eq, Structural)]
pub enum ArduinoBoardType {
    Unknown,
    Mega2560,
}

/// Classifies a USB port by its vendor and product identifiers: ports of
/// other vendors are no board at all, and among the vendor's ports only the
/// one known product identifier names a model.
pub fn get_board_type(vid: u16, pid: u16) -> (r: Option<ArduinoBoardType>)
    ensures
        vid != BOARD_VENDOR_ID ==> r is None,
        vid == BOARD_VENDOR_ID && pid == MEGA2560_PRODUCT_ID ==> r == Some(
            ArduinoBoardType::Mega2560,
        ),
        vid == BOARD_VENDOR_ID && pid != MEGA2560_PRODUCT_ID ==> r == Some(
            ArduinoBoardType::Unknown,
        ),
{
    if vid != BOARD_VENDOR_ID {
        return None;
    }
    if pid == MEGA2560_PRODUCT_ID {
        Some(ArduinoBoardType::Mega2560)
    } else {
        Some(ArduinoBoardType::Unknown)
    }
}

} // verus!
