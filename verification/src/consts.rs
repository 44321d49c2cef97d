use vstd::prelude::*;

verus! {

/// USB vendor id shared by every board of the family.
pub const VENDOR_ID: u16 = 0x1d50;

/// Number of bulk transfers kept in flight in each direction.
pub const TRANSFER_COUNT: usize = 4;

/// Target size, in bytes, of every bulk transfer.
pub const TRANSFER_SIZE: usize = 262_144;

/// Address of the bulk endpoint that delivers received samples.
pub const ENDPOINT_IN: u8 = 0x81;

/// Address of the bulk endpoint that takes samples to transmit.
pub const ENDPOINT_OUT: u8 = 0x02;

} // verus!
