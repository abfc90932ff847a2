//! Finding the radio among the serial ports, by its USB identifiers.

use vstd::prelude::*;

use crate::dongle::text_view;

verus! {

/// The USB vendor of a radio.
pub const USB_VID: u16 = 0x1209;

/// The USB product of a radio.
pub const USB_PID: u16 = 0x5741;

/// How long USB settles after a device has appeared, in milliseconds.
pub const USB_SETTLE_MS: u64 = 300;

/// How often ports are looked at while waiting, in milliseconds.
pub const POLL_INTERVAL_MS: u64 = 500;

/// A serial port of the host.
#[derive(Debug, Clone, PartialEq, Eq)]
pub struct SerialPort {
    pub port_name: String,
    /// Vendor and product, where the port is a USB device.
    pub usb: Option<(u16, u16)>,
}

/// A serial port, its name as a sequence.
pub struct PortView {
    pub name: Seq<char>,
    pub usb: Option<(u16, u16)>,
}

impl View for SerialPort {
    type V = PortView;

    open spec fn view(&self) -> PortView {
        PortView { name: self.port_name@, usb: self.usb }
    }
}

impl PortView {
    /// The port is a radio with its own USB identifiers.
    pub open spec fn native(self) -> bool {
        self.usb == Some((USB_VID, USB_PID))
    }

    /// The port is a USB-UART bridge of a kind that some boards carry:
    /// CP2102, CH9102, CH340K, CH340 or FT232R.
    pub open spec fn bridge(self) -> bool {
        ||| self.usb == Some((0x10C4u16, 0xEA60u16))
        ||| self.usb == Some((0x1A86u16, 0x55D4u16))
        ||| self.usb == Some((0x1A86u16, 0x7522u16))
        ||| self.usb == Some((0x1A86u16, 0x7523u16))
        ||| self.usb == Some((0x0403u16, 0x6001u16))
    }
}

/// Port `i` is the first radio with its own USB identifiers.
pub open spec fn first_native(ports: Seq<SerialPort>, i: int) -> bool {
    &&& 0 <= i < ports.len()
    &&& ports[i]@.native()
    &&& forall|j: int| 0 <= j < i ==> !(#[trigger] ports[j])@.native()
}

/// Port `i` is the first bridge.
pub open spec fn first_bridge(ports: Seq<SerialPort>, i: int) -> bool {
    &&& 0 <= i < ports.len()
    &&& ports[i]@.bridge()
    &&& forall|j: int| 0 <= j < i ==> !(#[trigger] ports[j])@.bridge()
}

/// No port is a radio with its own USB identifiers.
pub open spec fn no_native(ports: Seq<SerialPort>) -> bool {
    forall|j: int| 0 <= j < ports.len() ==> !(#[trigger] ports[j])@.native()
}

/// No port is a bridge.
pub open spec fn no_bridge(ports: Seq<SerialPort>) -> bool {
    forall|j: int| 0 <= j < ports.len() ==> !(#[trigger] ports[j])@.bridge()
}

/// What is found: the first radio with its own USB identifiers; where there
/// is none, the first bridge; where there is none either, nothing.
pub open spec fn finds(ports: Seq<SerialPort>, found: Option<Seq<char>>) -> bool {
    match found {
        Some(name) => exists|i: int|
            (first_native(ports, i) || (no_native(ports) && first_bridge(ports, i))) && name == (
            #[trigger] ports[i])@.name,
        None => no_native(ports) && no_bridge(ports),
    }
}

fn is_native(usb: Option<(u16, u16)>) -> (r: bool)
    ensures
        r == (PortView { name: Seq::empty(), usb }).native(),
{
    match usb {
        Some((vid, pid)) => vid == USB_VID && pid == USB_PID,
        None => false,
    }
}

fn is_bridge(usb: Option<(u16, u16)>) -> (r: bool)
    ensures
        r == (PortView { name: Seq::empty(), usb }).bridge(),
{
    match usb {
        Some((vid, pid)) => (vid == 0x10C4 && pid == 0xEA60) || (vid == 0x1A86 && (pid == 0x55D4 || pid == 0x7522 || pid
            == 0x7523)) || (vid == 0x0403 && pid == 0x6001),
        None => false,
    }
}

/// The port of the first radio. One with its own USB identifiers is preferred
/// to one behind a bridge, wherever they stand.
pub fn find_port(ports: &Vec<SerialPort>) -> (r: Option<String>)
    ensures
        finds(ports@, text_view(r)),
{
    let mut i: usize = 0;
    while i < ports.len()
        invariant
            i <= ports.len(),
            forall|j: int| 0 <= j < i ==> !(#[trigger] ports@[j])@.native(),
        decreases ports.len() - i,
    {
        if is_native(ports[i].usb) {
            assert(first_native(ports@, i as int));
            return Some(ports[i].port_name.clone());
        }
        i = i + 1;
    }
    let mut k: usize = 0;
    while k < ports.len()
        invariant
            k <= ports.len(),
            no_native(ports@),
            forall|j: int| 0 <= j < k ==> !(#[trigger] ports@[j])@.bridge(),
        decreases ports.len() - k,
    {
        if is_bridge(ports[k].usb) {
            assert(first_bridge(ports@, k as int));
            return Some(ports[k].port_name.clone());
        }
        k = k + 1;
    }
    None
}

/// What waiting for a device does after a look at the ports.
#[derive(Debug, PartialEq, Eq)]
pub enum WaitStep {
    /// Sleep until USB has settled, then use the port.
    Settle { port: String, ms: u64 },
    /// Sleep, then look again.
    Poll { ms: u64 },
}

/// Waits for a device: takes what [`find_port`] found.
pub fn wait_for_device(found: Option<String>) -> (r: WaitStep)
    ensures
        match found {
            Some(port) => r == (WaitStep::Settle { port, ms: USB_SETTLE_MS }),
            None => r == (WaitStep::Poll { ms: POLL_INTERVAL_MS }),
        },
{
    match found {
        Some(port) => WaitStep::Settle { port, ms: USB_SETTLE_MS },
        None => WaitStep::Poll { ms: POLL_INTERVAL_MS },
    }
}

/// A radio with its own USB identifiers is never passed over for a bridge,
/// wherever the two stand.
pub proof fn native_is_preferred(ports: Seq<SerialPort>, k: int, name: Seq<char>)
    requires
        0 <= k < ports.len(),
        ports[k]@.native(),
        finds(ports, Some(name)),
    ensures
        exists|i: int| #![trigger ports[i]] first_native(ports, i) && name == ports[i]@.name,
{
}

/// The ports determine what is found.
pub proof fn finding_is_determined(ports: Seq<SerialPort>, a: Option<Seq<char>>, b: Option<Seq<char>>)
    requires
        finds(ports, a),
        finds(ports, b),
    ensures
        a == b,
{
}

/// Which port is found: the first with the USB identifiers of a radio,
/// `1209:5741`; where there is none, the first with those of a bridge that
/// boards carry; and nothing exactly where there is neither.
pub proof fn usb_identifiers_decide(ports: Seq<SerialPort>, found: Option<Seq<char>>, k: int)
    requires
        finds(ports, found),
        0 <= k < ports.len(),
    ensures
        ({
            let radio = |p: SerialPort| p.usb == Some((0x1209u16, 0x5741u16));
            let bridge = |p: SerialPort|
                p.usb == Some((0x10C4u16, 0xEA60u16)) || p.usb == Some((0x1A86u16, 0x55D4u16)) || p.usb == Some(
                    (0x1A86u16, 0x7522u16),
                ) || p.usb == Some((0x1A86u16, 0x7523u16)) || p.usb == Some((0x0403u16, 0x6001u16));
            &&& radio(ports[k]) && (forall|j: int| 0 <= j < k ==> !radio(#[trigger] ports[j])) ==> found == Some(
                ports[k].port_name@,
            )
            &&& bridge(ports[k]) && (forall|j: int| 0 <= j < k ==> !bridge(#[trigger] ports[j])) && (forall|j: int|
                0 <= j < ports.len() ==> !radio(#[trigger] ports[j])) ==> found == Some(ports[k].port_name@)
            &&& found is None ==> !radio(ports[k]) && !bridge(ports[k])
        }),
{
    let radio = |p: SerialPort| p.usb == Some((0x1209u16, 0x5741u16));
    let bridge = |p: SerialPort|
        p.usb == Some((0x10C4u16, 0xEA60u16)) || p.usb == Some((0x1A86u16, 0x55D4u16)) || p.usb == Some(
            (0x1A86u16, 0x7522u16),
        ) || p.usb == Some((0x1A86u16, 0x7523u16)) || p.usb == Some((0x0403u16, 0x6001u16));
    assert forall|p: SerialPort| #![auto] p@.native() == radio(p) && p@.bridge() == bridge(p) by {}
    if radio(ports[k]) && (forall|j: int| 0 <= j < k ==> !radio(#[trigger] ports[j])) {
        assert(first_native(ports, k));
        finding_is_determined(ports, found, Some(ports[k]@.name));
    }
    if bridge(ports[k]) && (forall|j: int| 0 <= j < k ==> !bridge(#[trigger] ports[j])) && (forall|j: int|
        0 <= j < ports.len() ==> !radio(#[trigger] ports[j])) {
        assert(first_bridge(ports, k));
        assert(no_native(ports));
        finding_is_determined(ports, found, Some(ports[k]@.name));
    }
}

/// Nothing is found that is no radio: what is found is the name of a port with
/// the identifiers of a radio or of a bridge.
pub proof fn found_port_is_a_radio(ports: Seq<SerialPort>, name: Seq<char>)
    requires
        finds(ports, Some(name)),
    ensures
        exists|i: int|
            0 <= i < ports.len() && name == (#[trigger] ports[i]).port_name@ && (ports[i].usb == Some(
                (0x1209u16, 0x5741u16),
            ) || ports[i].usb == Some((0x10C4u16, 0xEA60u16)) || ports[i].usb == Some((0x1A86u16, 0x55D4u16))
                || ports[i].usb == Some((0x1A86u16, 0x7522u16)) || ports[i].usb == Some((0x1A86u16, 0x7523u16))
                || ports[i].usb == Some((0x0403u16, 0x6001u16))),
{
}

} // verus!
