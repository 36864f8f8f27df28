use vstd::prelude::*;

verus! {

/// The coarse class of an enumerated device, as the host reports it.
#[derive(Debug, Clone, Copy, PartialEq, Eq, Structural)]
pub enum PortClass {
    /// The device is attached over USB.
    Usb,
    /// The device is attached over PCI.
    Pci,
    /// The device is attached over Bluetooth.
    Bluetooth,
    /// The host cannot tell how the device is attached.
    Unknown,
}

/// One enumerated device: its platform identifier and its coarse class.
/// Produced fresh by every enumeration call and not persisted.
#[derive(Debug)]
pub struct DeviceDescriptor {
    pub name: String,
    pub class: PortClass,
}

/// The classes whose devices enumeration keeps: USB-attached devices and
/// devices the host cannot classify.  Every other known class is excluded.
pub open spec fn included_class(class: PortClass) -> bool {
    class is Usb || class is Unknown
}

/// The identifiers filtering keeps: those of the included devices, in the
/// order the host reported them.
pub open spec fn accepted_names(devices: Seq<DeviceDescriptor>) -> Seq<Seq<char>>
    decreases devices.len(),
{
    if devices.len() == 0 {
        Seq::empty()
    } else {
        let earlier = accepted_names(devices.drop_last());
        if included_class(devices.last().class) {
            earlier.push(devices.last().name@)
        } else {
            earlier
        }
    }
}

/// Keeps exactly the identifiers of the USB-attached and unclassified
/// devices, in the order given.
pub fn filter_port_names(devices: &Vec<DeviceDescriptor>) -> (r: Vec<String>)
    ensures
        r.deep_view() == accepted_names(devices@),
{
    let mut names: Vec<String> = Vec::new();
    let mut i: usize = 0;
    while i < devices.len()
        invariant
            i <= devices.len(),
            names.deep_view() == accepted_names(devices@.take(i as int)),
        decreases devices.len() - i,
    {
        let d = &devices[i];
        let keep = match d.class {
            PortClass::Usb => true,
            PortClass::Unknown => true,
            PortClass::Pci => false,
            PortClass::Bluetooth => false,
        };
        if keep {
            names.push(d.name.as_str().to_owned());
        }
        proof {
            let taken = devices@.take(i as int + 1);
            assert(taken.drop_last() =~= devices@.take(i as int));
            assert(taken.last() == devices@[i as int]);
            assert(names.deep_view() =~= accepted_names(taken));
        }
        i += 1;
    }
    proof {
        assert(devices@.take(devices@.len() as int) =~= devices@);
    }
    names
}

/// Enumeration never keeps a device of an excluded class: every identifier
/// among the accepted names is the identifier of some listed device whose
/// class is USB-attached or unclassified.
pub proof fn lemma_accepted_names_only_included(devices: Seq<DeviceDescriptor>)
    ensures
        forall|i: int|
            0 <= i < accepted_names(devices).len() ==> exists|j: int|
                0 <= j < devices.len() && included_class(devices[j].class) && devices[j].name@
                    == #[trigger] accepted_names(devices)[i],
    decreases devices.len(),
{
    if devices.len() == 0 {
    } else {
        let rest = devices.drop_last();
        lemma_accepted_names_only_included(rest);
        let prev = accepted_names(rest);
        let cur = accepted_names(devices);
        assert forall|i: int| 0 <= i < cur.len() implies exists|j: int|
            0 <= j < devices.len() && included_class(devices[j].class) && devices[j].name@
                == #[trigger] cur[i] by {
            if i < prev.len() {
                let j = choose|j: int|
                    0 <= j < rest.len() && included_class(rest[j].class) && rest[j].name@
                        == prev[i];
                assert(devices[j] == rest[j]);
                assert(cur[i] == prev[i]);
                assert(included_class(devices[j].class) && devices[j].name@ == cur[i]);
            } else {
                let j = devices.len() - 1;
                assert(included_class(devices[j].class) && devices[j].name@ == cur[i]);
            }
        }
    }
}

} // verus!
