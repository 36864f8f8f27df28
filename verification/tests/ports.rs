use sercom::filter_port_names;
use sercom::DeviceDescriptor;
use sercom::PortClass;

#[test]
fn test_list_ports() {
    let result = serialport::available_ports();
    assert!(result.is_ok());
    let devices: Vec<DeviceDescriptor> = result
        .unwrap()
        .into_iter()
        .map(|info| DeviceDescriptor {
            name: info.port_name,
            class: match info.port_type {
                serialport::SerialPortType::UsbPort(_) => PortClass::Usb,
                serialport::SerialPortType::PciPort => PortClass::Pci,
                serialport::SerialPortType::BluetoothPort => PortClass::Bluetooth,
                serialport::SerialPortType::Unknown => PortClass::Unknown,
            },
        })
        .collect();
    let names = filter_port_names(&devices);
    assert!(names.len() <= devices.len());
}

#[test]
fn filter_keeps_usb_and_unknown_in_order() {
    let devices = vec![
        DeviceDescriptor { name: "/dev/ttyUSB0".to_string(), class: PortClass::Usb },
        DeviceDescriptor { name: "/dev/rfcomm0".to_string(), class: PortClass::Bluetooth },
        DeviceDescriptor { name: "/dev/ttyS0".to_string(), class: PortClass::Pci },
        DeviceDescriptor { name: "/dev/ttyACM0".to_string(), class: PortClass::Unknown },
    ];
    let names = filter_port_names(&devices);
    assert_eq!(names, vec!["/dev/ttyUSB0".to_string(), "/dev/ttyACM0".to_string()]);
}

#[test]
fn filter_of_empty_is_empty() {
    let devices: Vec<DeviceDescriptor> = Vec::new();
    assert!(filter_port_names(&devices).is_empty());
}

#[test]
fn filter_excludes_every_excluded_class() {
    let devices = vec![
        DeviceDescriptor { name: "a".to_string(), class: PortClass::Pci },
        DeviceDescriptor { name: "b".to_string(), class: PortClass::Bluetooth },
    ];
    assert!(filter_port_names(&devices).is_empty());
}
