//! Decisions taken on what a USB device describes of itself: whether it is a
//! known display, which interface speaks the vendor protocol, and which
//! endpoints carry it.
use vstd::prelude::*;
use crate::session::DeviceError;

verus! {

pub const VID_SAITEK: u16 = 0x06a3;

pub const PID_SAITEK_FIP: u16 = 0xa2ae;

/// Interface class code of a vendor-specific interface.
pub const VENDOR_CLASS: u8 = 0xff;

/// The display types this driver knows.
#[derive(Clone, Copy, Debug, PartialEq, Eq, Structural)]
pub enum DeviceKind {
    SaitekFipLcd,
}

/// The known display type with these vendor and product IDs; `None` for any
/// other device.
pub fn device_kind(vendor_id: u16, product_id: u16) -> (r: Option<DeviceKind>)
    ensures
        r == (if vendor_id == VID_SAITEK && product_id == PID_SAITEK_FIP {
            Some(DeviceKind::SaitekFipLcd)
        } else {
            None::<DeviceKind>
        }),
{
    if vendor_id == VID_SAITEK && product_id == PID_SAITEK_FIP {
        Some(DeviceKind::SaitekFipLcd)
    } else {
        None
    }
}

/// The first interface whose first descriptor reports the vendor-specific
/// class. `first_class_codes[i]` is that class code for interface `i`, or
/// `None` where the interface has no descriptor.
pub fn find_vendor_interface(first_class_codes: &Vec<Option<u8>>) -> (r: Option<usize>)
    ensures
        match r {
            Some(i) => {
                &&& i < first_class_codes@.len()
                &&& first_class_codes@[i as int] == Some(VENDOR_CLASS)
                &&& forall|j: int| 0 <= j < i ==> first_class_codes@[j] != Some(VENDOR_CLASS)
            },
            None => forall|j: int|
                0 <= j < first_class_codes@.len() ==> first_class_codes@[j] != Some(VENDOR_CLASS),
        },
{
    let mut i: usize = 0;
    while i < first_class_codes.len()
        invariant
            i <= first_class_codes@.len(),
            forall|j: int| 0 <= j < i ==> first_class_codes@[j] != Some(VENDOR_CLASS),
        decreases first_class_codes@.len() - i,
    {
        match first_class_codes[i] {
            Some(code) => {
                if code == VENDOR_CLASS {
                    return Some(i);
                }
            },
            None => {},
        }
        i += 1;
    }
    None
}

#[derive(Clone, Copy, Debug, PartialEq, Eq, Structural)]
pub enum Direction {
    In,
    Out,
}

/// The bulk endpoints of the vendor interface.
#[derive(Clone, Copy, Debug, PartialEq, Eq, Structural)]
pub struct Endpoints {
    pub read: u8,
    pub write: u8,
}

/// The one IN and the one OUT endpoint among the interface's endpoints,
/// given as address and direction. Any other make-up (a direction missing
/// or found twice) is an initialization error.
pub fn resolve_endpoints(endpoints: &Vec<(u8, Direction)>) -> (r: Result<Endpoints, DeviceError>)
    ensures
        endpoints@.len() == 2 && endpoints@[0].1 == Direction::In && endpoints@[1].1
            == Direction::Out ==> r == Ok::<Endpoints, DeviceError>(
            Endpoints { read: endpoints@[0].0, write: endpoints@[1].0 },
        ),
        endpoints@.len() == 2 && endpoints@[0].1 == Direction::Out && endpoints@[1].1
            == Direction::In ==> r == Ok::<Endpoints, DeviceError>(
            Endpoints { read: endpoints@[1].0, write: endpoints@[0].0 },
        ),
        !(endpoints@.len() == 2 && endpoints@[0].1 != endpoints@[1].1) ==> r == Err::<
            Endpoints,
            DeviceError,
        >(DeviceError::Initialization),
{
    if endpoints.len() != 2 {
        return Err(DeviceError::Initialization);
    }
    let (a, da) = endpoints[0];
    let (b, db) = endpoints[1];
    match (da, db) {
        (Direction::In, Direction::Out) => Ok(Endpoints { read: a, write: b }),
        (Direction::Out, Direction::In) => Ok(Endpoints { read: b, write: a }),
        _ => Err(DeviceError::Initialization),
    }
}

} // verus!
