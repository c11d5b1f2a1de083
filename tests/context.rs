use usb_async::{Attribute, Context, Device, DeviceNode, Error, Id};

fn usb_device(locator: &str, vendor: &str, product: &str) -> Device {
    Device {
        locator: locator.to_string(),
        ancestry: vec![
            DeviceNode {
                attributes: vec![
                    Attribute { name: "idVendor".to_string(), value: Some(vendor.to_string()) },
                    Attribute { name: "idProduct".to_string(), value: Some(product.to_string()) },
                ],
            },
            DeviceNode {
                attributes: vec![
                    Attribute { name: "manufacturer".to_string(), value: Some("Acme".to_string()) },
                    Attribute { name: "product".to_string(), value: Some("Widget".to_string()) },
                ],
            },
        ],
    }
}

fn interface(locator: &str) -> Device {
    let mut parent = usb_device("/sys/parent", "1234", "5678");
    parent.ancestry.insert(
        0,
        DeviceNode {
            attributes: vec![Attribute { name: "bInterfaceNumber".to_string(), value: Some("00".to_string()) }],
        },
    );
    Device { locator: locator.to_string(), ancestry: parent.ancestry }
}

#[test]
fn startup_scan_skips_interfaces() {
    let ctx = Context::new(vec![
        Some(usb_device("/sys/a", "1d6b", "0002")),
        Some(interface("/sys/a/a:1.0")),
        Some(usb_device("/sys/b", "046d", "c52b")),
    ]);
    assert_eq!(ctx.len(), 2);
    assert_eq!(ctx.devices(), vec![Id(0), Id(1)]);
    assert_eq!(ctx.connected_devices(), vec![Id(0), Id(1)]);
    assert_eq!(ctx.vendor_id(Id(1)), Some(0x046d));
}

#[test]
fn startup_scan_skips_unreadable_devices() {
    let ctx = Context::new(vec![None, Some(usb_device("/sys/a", "1d6b", "0002"))]);
    assert_eq!(ctx.devices(), vec![Id(0)]);
}

#[test]
fn ids_are_issued_densely() {
    let mut ctx = Context::new(vec![]);
    assert_eq!(ctx.devices(), Vec::<Id>::new());
    for k in 0..5u32 {
        let before = ctx.len();
        let id = ctx.add_device(Some(usb_device(&format!("/sys/d{}", k), "1d6b", "0001")));
        assert_eq!(id, Some(Id(before as u32)));
        assert_eq!(id, Some(Id(k)));
    }
    assert_eq!(ctx.add_device(None), None);
    assert_eq!(ctx.add_device(Some(interface("/sys/x"))), None);
    assert_eq!(ctx.len(), 5);
}

#[test]
fn vendor_id_round_trip() {
    let mut ctx = Context::new(vec![]);
    let id = ctx.add_device(Some(usb_device("/sys/a", "1d6b", "0003"))).unwrap();
    assert_eq!(ctx.vendor_id(id), Some(0x1d6b));
    assert_eq!(ctx.vendor_id(id), Some(7531));
    assert_eq!(ctx.product_id(id), Some(3));
    assert_eq!(ctx.vendor_id(Id(9)), None);
    assert_eq!(ctx.product_id(Id(9)), None);
}

#[test]
fn malformed_product_id_is_cached_as_none() {
    let mut ctx = Context::new(vec![]);
    let id = ctx.add_device(Some(usb_device("/sys/a", "1d6b", "xyz"))).unwrap();
    assert_eq!(ctx.product_id(id), None);
    assert_eq!(ctx.vendor_id(id), Some(0x1d6b));
}

#[test]
fn remove_unknown_locator_is_noop() {
    let mut ctx = Context::new(vec![Some(usb_device("/sys/a", "1d6b", "0002"))]);
    assert_eq!(ctx.remove_device_by_locator(&"/sys/zzz".to_string()), None);
    assert!(ctx.is_connected(Id(0)));
    assert_eq!(ctx.len(), 1);
}

#[test]
fn remove_twice() {
    let mut ctx = Context::new(vec![
        Some(usb_device("/sys/a", "1d6b", "0002")),
        Some(usb_device("/sys/b", "1d6b", "0003")),
    ]);
    assert_eq!(ctx.remove_device_by_locator(&"/sys/b".to_string()), Some(Id(1)));
    assert!(!ctx.is_connected(Id(1)));
    assert!(ctx.is_connected(Id(0)));
    assert_eq!(ctx.remove_device_by_locator(&"/sys/b".to_string()), None);
    assert_eq!(ctx.devices(), vec![Id(0), Id(1)]);
    assert_eq!(ctx.connected_devices(), vec![Id(0)]);
    assert_eq!(ctx.vendor_id(Id(1)), Some(0x1d6b));
}

#[test]
fn replugged_device_gets_new_id() {
    let mut ctx = Context::new(vec![Some(usb_device("/sys/a", "1d6b", "0002"))]);
    assert_eq!(ctx.remove_device_by_locator(&"/sys/a".to_string()), Some(Id(0)));
    assert_eq!(ctx.add_device(Some(usb_device("/sys/a", "1d6b", "0002"))), Some(Id(1)));
    assert_eq!(ctx.resolve_locator(&"/sys/a".to_string()), Some(Id(1)));
    assert_eq!(ctx.resolve_locator(&"/sys/b".to_string()), None);
}

#[test]
fn is_connected_out_of_range() {
    let ctx = Context::new(vec![Some(usb_device("/sys/a", "1d6b", "0002"))]);
    assert!(ctx.is_connected(Id(0)));
    assert!(!ctx.is_connected(Id(1)));
    assert!(!ctx.is_connected(Id(u32::MAX)));
}

#[test]
fn locator_of_devices() {
    let mut ctx = Context::new(vec![Some(usb_device("/sys/a", "1d6b", "0002"))]);
    assert_eq!(ctx.locator(Id(0)), Ok("/sys/a".to_string()));
    assert_eq!(ctx.locator(Id(3)), Err(Error::InvalidId));
    ctx.remove_device_by_locator(&"/sys/a".to_string());
    assert_eq!(ctx.locator(Id(0)), Err(Error::NotConnected));
}

#[test]
fn strings_are_read_live() {
    let mut ctx = Context::new(vec![Some(usb_device("/sys/a", "1d6b", "0002"))]);
    let fresh = usb_device("/sys/a", "1d6b", "0002");
    assert_eq!(ctx.manufacturer_string(Id(0), Some(fresh.clone())), Ok("Acme".to_string()));
    assert_eq!(ctx.product_string(Id(0), Some(fresh)), Ok("Widget".to_string()));
    assert!(ctx.is_connected(Id(0)));
}

#[test]
fn string_of_tombstoned_id_is_not_connected() {
    let mut ctx = Context::new(vec![Some(usb_device("/sys/a", "1d6b", "0002"))]);
    ctx.remove_device_by_locator(&"/sys/a".to_string());
    let stale = usb_device("/sys/a", "1d6b", "0002");
    assert_eq!(ctx.manufacturer_string(Id(0), Some(stale.clone())), Err(Error::NotConnected));
    assert_eq!(ctx.product_string(Id(0), Some(stale)), Err(Error::NotConnected));
}

#[test]
fn string_of_unissued_id_is_invalid() {
    let mut ctx = Context::new(vec![]);
    assert_eq!(ctx.manufacturer_string(Id(0), None), Err(Error::InvalidId));
    assert_eq!(ctx.product_string(Id(2), None), Err(Error::InvalidId));
}

#[test]
fn unreadable_device_is_tombstoned_by_string_lookup() {
    let mut ctx = Context::new(vec![Some(usb_device("/sys/a", "1d6b", "0002"))]);
    assert_eq!(ctx.manufacturer_string(Id(0), None), Err(Error::NotConnected));
    assert!(!ctx.is_connected(Id(0)));
    assert_eq!(ctx.vendor_id(Id(0)), Some(0x1d6b));
}

#[test]
fn missing_string_attribute_tombstones() {
    let mut ctx = Context::new(vec![Some(usb_device("/sys/a", "1d6b", "0002"))]);
    let bare = Device {
        locator: "/sys/a".to_string(),
        ancestry: vec![DeviceNode { attributes: vec![] }],
    };
    assert_eq!(ctx.product_string(Id(0), Some(bare)), Err(Error::NotConnected));
    assert!(!ctx.is_connected(Id(0)));
    assert_eq!(ctx.connected_devices(), Vec::<Id>::new());
}
