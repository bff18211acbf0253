//! What callers of the vendor-style API see: numeric device handles derived
//! from USB addresses, result codes and the plain records handed out.
use vstd::prelude::*;
use crate::registry::{Registry, UsbDeviceAddress};

verus! {

/// Opaque device handle handed to API callers.
pub type DevicePtr = u64;

/// Result code in the vendor's error-code space.
pub type HResult = i64;

pub const S_OK: HResult = 0x00000000;

pub const E_HANDLE: HResult = 0x80070006;

pub const E_INVALIDARG: HResult = 0x80070057;

pub const E_OUTOFMEMORY: HResult = 0x80007000e;

pub const E_NOTIMPL: HResult = 0x80004001;

pub const E_BUFFERTOOSMALL: HResult = 0xff04006f;

pub const E_PAGENOTACTIVE: HResult = 0xff040001;

/// A 128-bit identifier laid out as the vendor API expects.
#[derive(Clone, Copy, Debug, PartialEq, Eq)]
pub struct GUID {
    pub data1: u32,
    pub data2: u16,
    pub data3: u16,
    pub data4: [u8; 8],
}

/// Status words of a response, as the vendor API reports them.
#[allow(non_snake_case)]
#[derive(Clone, Copy, Debug, PartialEq, Eq)]
pub struct PSRequestStatus {
    pub dwHeaderError: i32,
    pub dwHeaderInfo: i32,
    pub dwRequestError: i32,
    pub dwRequestInfo: i32,
}

/// The handles that stand for an address: not 0, below 0xffff.
pub open spec fn handle_in_range(device_ptr: DevicePtr) -> bool {
    0 < device_ptr < 0xffff
}

/// The address a handle stands for: bus in the high byte, device in the low.
pub open spec fn addr_of(device_ptr: DevicePtr) -> UsbDeviceAddress {
    ((device_ptr / 256) as u8, (device_ptr % 256) as u8)
}

pub open spec fn spec_embed_addr(device_addr: UsbDeviceAddress) -> DevicePtr {
    (device_addr.0 as int * 256 + device_addr.1 as int) as u64
}

/// The address behind a handle; `E_HANDLE` for 0 and for handles of 0xffff
/// and above.
pub fn extract_addr(device_ptr: DevicePtr) -> (r: Result<UsbDeviceAddress, HResult>)
    ensures
        handle_in_range(device_ptr) ==> r == Ok::<UsbDeviceAddress, HResult>(addr_of(device_ptr)),
        !handle_in_range(device_ptr) ==> r == Err::<UsbDeviceAddress, HResult>(E_HANDLE),
{
    if device_ptr as u16 == 0 || device_ptr >= 0xffff {
        return Err(E_HANDLE);
    }
    let casted: u16 = device_ptr as u16;
    let bus = (casted >> 8u16) as u8;
    let dev = (casted & 0xff) as u8;
    assert(bus == device_ptr / 256 && dev == device_ptr % 256) by (bit_vector)
        requires
            casted == device_ptr as u16,
            device_ptr < 0xffff,
            bus == (casted >> 8u16) as u8,
            dev == (casted & 0xff) as u8,
    ;
    Ok((bus, dev))
}

/// The handle that stands for an address.
pub fn embed_addr(device_addr: UsbDeviceAddress) -> (r: DevicePtr)
    ensures
        r == spec_embed_addr(device_addr),
{
    let hi = device_addr.0 as u16;
    let lo = device_addr.1 as u16;
    let v = (hi << 8u16) | lo;
    assert(v == hi * 256 + lo) by (bit_vector)
        requires
            hi < 256,
            lo < 256,
            v == (hi << 8u16) | lo,
    ;
    v as DevicePtr
}

/// A handle read back gives the address it was made from, for every address
/// but (0, 0) and (255, 255), whose handles are out of range.
pub proof fn lemma_extract_embed(device_addr: UsbDeviceAddress)
    requires
        device_addr != (0u8, 0u8),
        device_addr != (255u8, 255u8),
    ensures
        handle_in_range(spec_embed_addr(device_addr)),
        addr_of(spec_embed_addr(device_addr)) == device_addr,
{
}

/// A handle that is in range is the handle of the address it stands for.
pub proof fn lemma_embed_extract(device_ptr: DevicePtr)
    requires
        handle_in_range(device_ptr),
    ensures
        spec_embed_addr(addr_of(device_ptr)) == device_ptr,
{
}

/// The display behind a handle, when the handle is in range, a display is
/// registered at its address and `is_ready` reports that display ready;
/// `E_HANDLE` otherwise.
pub fn get_display<'a, H, F: Fn(&H) -> bool>(
    registry: &'a Registry<H>,
    device_ptr: DevicePtr,
    is_ready: F,
) -> (r: Result<&'a H, HResult>)
    requires
        forall|h: &H| is_ready.requires((h,)),
    ensures
        match r {
            Ok(h) => {
                &&& handle_in_range(device_ptr)
                &&& registry@.contains_key(addr_of(device_ptr))
                &&& *h == registry@[addr_of(device_ptr)]
                &&& is_ready.ensures((h,), true)
            },
            Err(e) => {
                &&& e == E_HANDLE
                &&& (!handle_in_range(device_ptr) || !registry@.contains_key(addr_of(device_ptr))
                    || is_ready.ensures((&registry@[addr_of(device_ptr)],), false))
            },
        },
{
    let addr = match extract_addr(device_ptr) {
        Ok(addr) => addr,
        Err(_) => return Err(E_HANDLE),
    };
    let display = match registry.display_by_addr(&addr) {
        Some(display) => display,
        None => return Err(E_HANDLE),
    };
    if !is_ready(display) {
        return Err(E_HANDLE);
    }
    Ok(display)
}

} // verus!
