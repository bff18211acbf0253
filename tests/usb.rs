use saitek_fip::session::DeviceError;
use saitek_fip::usb::{device_kind, find_vendor_interface, resolve_endpoints, DeviceKind, Direction, Endpoints};

#[test]
fn only_the_fip_is_recognised() {
    assert_eq!(device_kind(0x06a3, 0xa2ae), Some(DeviceKind::SaitekFipLcd));
    assert_eq!(device_kind(0x06a3, 0x0001), None);
    assert_eq!(device_kind(0x046d, 0xa2ae), None);
}

#[test]
fn first_vendor_interface_wins() {
    assert_eq!(find_vendor_interface(&vec![Some(3), None, Some(0xff), Some(0xff)]), Some(2));
    assert_eq!(find_vendor_interface(&vec![Some(3), None]), None);
    assert_eq!(find_vendor_interface(&vec![]), None);
}

#[test]
fn endpoints_need_one_in_and_one_out() {
    assert_eq!(
        resolve_endpoints(&vec![(0x81, Direction::In), (0x02, Direction::Out)]),
        Ok(Endpoints { read: 0x81, write: 0x02 })
    );
    assert_eq!(
        resolve_endpoints(&vec![(0x02, Direction::Out), (0x81, Direction::In)]),
        Ok(Endpoints { read: 0x81, write: 0x02 })
    );
    assert_eq!(
        resolve_endpoints(&vec![(0x81, Direction::In), (0x82, Direction::In)]),
        Err(DeviceError::Initialization)
    );
    assert_eq!(
        resolve_endpoints(&vec![(0x81, Direction::In), (0x02, Direction::Out), (0x83, Direction::In)]),
        Err(DeviceError::Initialization)
    );
    assert_eq!(resolve_endpoints(&vec![(0x81, Direction::In)]), Err(DeviceError::Initialization));
}
