//! Finding the device: which of the connected USB devices to open, which of
//! its interfaces to claim, which endpoints to talk to, and what to do while
//! waiting for a device to be plugged in.
//!
//! Nothing here touches the bus. The caller enumerates devices, reads
//! descriptors and opens handles, and hands over what it found as plain
//! values.

use vstd::prelude::*;
use vstd::utf8::encode_utf8;
use crate::codec::PACKET_SIZE;
use crate::config::USB_PID;
use crate::config::USB_VID;
use crate::error::Error;
use crate::error::ErrorView;
use crate::text::parse_unsigned;
use crate::text::str_eq;
use crate::text::unsigned;

verus! {

/// Class code of the vendor interface.
pub const INTERFACE_CLASS: u8 = 0xFF;
/// Subclass code of the vendor interface.
pub const INTERFACE_SUBCLASS: u8 = 0x0D;
/// Protocol code of the vendor interface.
pub const INTERFACE_PROTOCOL: u8 = 0x0A;
/// Largest bus number that is compared as a number.
pub const MAX_BUS_NUMBER: u64 = 0xFFFF_FFFF;

/// The bus number that the bus identifier `id` spells, if it spells one.
pub open spec fn bus_number(id: Seq<char>) -> Option<nat> {
    unsigned(encode_utf8(id), MAX_BUS_NUMBER as nat)
}

/// Whether two bus identifiers name the same bus: they are the same text, or
/// both spell the same number, as `"3"` and `"03"` do.
pub open spec fn same_bus(a: Seq<char>, b: Seq<char>) -> bool {
    a == b || (bus_number(a) is Some && bus_number(a) == bus_number(b))
}

/// Compares two bus identifiers, first as text, then as numbers.
pub fn bus_id_matches(device_bus_id: &str, filter_bus_id: &str) -> (same: bool)
    ensures
        same == same_bus(device_bus_id@, filter_bus_id@),
{
    if str_eq(device_bus_id, filter_bus_id) {
        return true;
    }
    match (
        parse_unsigned(device_bus_id.as_bytes(), MAX_BUS_NUMBER),
        parse_unsigned(filter_bus_id.as_bytes(), MAX_BUS_NUMBER),
    ) {
        (Some(a), Some(b)) => a == b,
        _ => false,
    }
}

/// What identifies a connected USB device.
#[derive(Clone, Debug, PartialEq, Eq)]
pub struct DeviceIdentity {
    pub vendor_id: u16,
    pub product_id: u16,
    pub bus_id: String,
    pub device_address: u8,
}

/// The devices that a caller is looking for. A filter that is `None` accepts
/// every device.
#[derive(Clone, Debug, PartialEq, Eq)]
pub struct DeviceFilter {
    pub vid: Option<u16>,
    pub pid: Option<u16>,
    pub bus: Option<String>,
    pub address: Option<u8>,
}

impl DeviceFilter {
    /// Whether the device passes every filter that is set.
    pub open spec fn accepts(&self, device: &DeviceIdentity) -> bool {
        &&& self.vid matches Some(vid) ==> device.vendor_id == vid
        &&& self.pid matches Some(pid) ==> device.product_id == pid
        &&& self.bus matches Some(bus) ==> same_bus(device.bus_id@, bus@)
        &&& self.address matches Some(address) ==> device.device_address == address
    }

    /// Tells whether the device passes every filter that is set.
    pub fn matches(&self, device: &DeviceIdentity) -> (ok: bool)
        ensures
            ok == self.accepts(device),
    {
        match self.vid {
            Some(vid) => {
                if device.vendor_id != vid {
                    return false;
                }
            },
            None => {},
        }
        match self.pid {
            Some(pid) => {
                if device.product_id != pid {
                    return false;
                }
            },
            None => {},
        }
        match &self.bus {
            Some(bus) => {
                if !bus_id_matches(device.bus_id.as_str(), bus.as_str()) {
                    return false;
                }
            },
            None => {},
        }
        match self.address {
            Some(address) => {
                if device.device_address != address {
                    return false;
                }
            },
            None => {},
        }
        true
    }

    /// The filter by which devices are listed.
    pub open spec fn listing_of(vid: Option<u16>, pid: Option<u16>) -> DeviceFilter {
        DeviceFilter {
            vid: Some(
                match vid {
                    Some(v) => v,
                    None => USB_VID,
                },
            ),
            pid: Some(
                match pid {
                    Some(p) => p,
                    None => USB_PID,
                },
            ),
            bus: None,
            address: None,
        }
    }

    /// The filter by which devices are listed: vendor and product must match,
    /// and where the caller names none, the firmware's own identifiers are
    /// taken.
    pub fn listing(vid: Option<u16>, pid: Option<u16>) -> (filter: DeviceFilter)
        ensures
            filter == DeviceFilter::listing_of(vid, pid),
    {
        let vid: u16 = match vid {
            Some(v) => v,
            None => USB_VID,
        };
        let pid: u16 = match pid {
            Some(p) => p,
            None => USB_PID,
        };
        DeviceFilter { vid: Some(vid), pid: Some(pid), bus: None, address: None }
    }

    /// The positions in `devices` of the devices that the filter accepts, in
    /// ascending order.
    pub open spec fn accepted(&self, devices: Seq<DeviceIdentity>) -> Seq<int> {
        Seq::new(devices.len(), |i: int| i).filter(|i: int| self.accepts(&devices[i]))
    }

    /// Picks the devices to try, in the order in which they were enumerated.
    pub fn candidates(&self, devices: &Vec<DeviceIdentity>) -> (picked: Vec<usize>)
        ensures
            picked@.map_values(|i: usize| i as int) == self.accepted(devices@),
            forall|k: int| 0 <= k < picked@.len() ==> (#[trigger] picked@[k]) < devices@.len(),
    {
        let ghost positions = Seq::new(devices@.len(), |i: int| i);
        let ghost pred = |i: int| self.accepts(&devices@[i]);
        let mut picked: Vec<usize> = Vec::new();
        let mut i: usize = 0;
        proof {
            reveal(Seq::filter);
            assert(positions.take(0) =~= Seq::<int>::empty());
            assert(picked@.map_values(|i: usize| i as int) =~= Seq::<int>::empty());
        }
        while i < devices.len()
            invariant
                i <= devices@.len(),
                positions == Seq::new(devices@.len(), |i: int| i),
                pred == (|i: int| self.accepts(&devices@[i])),
                picked@.map_values(|i: usize| i as int) == positions.take(i as int).filter(pred),
                forall|k: int| 0 <= k < picked@.len() ==> (#[trigger] picked@[k]) < devices@.len(),
            decreases devices@.len() - i,
        {
            let ghost before = picked@;
            proof {
                reveal(Seq::filter);
                let next = positions.take(i + 1);
                assert(next.drop_last() == positions.take(i as int));
                assert(next.last() == i);
            }
            if self.matches(&devices[i]) {
                picked.push(i);
                assert(picked@.map_values(|i: usize| i as int) =~= before.map_values(
                    |i: usize| i as int,
                ).push(i as int));
            }
            i = i + 1;
        }
        assert(positions.take(i as int) == positions);
        picked
    }
}

/// Lists the devices with the given vendor and product identifiers, each as
/// its bus identifier and device address, in the order of the enumeration.
/// Where the caller names no identifier, the firmware's own is taken.
pub fn list_devices(devices: &Vec<DeviceIdentity>, vid: Option<u16>, pid: Option<u16>) -> (listed:
    Vec<(String, u8)>)
    ensures
        listed@.len() == DeviceFilter::listing_of(vid, pid).accepted(devices@).len(),
        forall|k: int|
            0 <= k < listed@.len() ==> {
                let at = #[trigger] DeviceFilter::listing_of(vid, pid).accepted(devices@)[k];
                &&& 0 <= at < devices@.len()
                &&& listed@[k].0@ == devices@[at].bus_id@
                &&& listed@[k].1 == devices@[at].device_address
            },
{
    let filter = DeviceFilter::listing(vid, pid);
    let picked = filter.candidates(devices);
    let ghost accepted = filter.accepted(devices@);
    let mut listed: Vec<(String, u8)> = Vec::new();
    let mut k: usize = 0;
    while k < picked.len()
        invariant
            k <= picked@.len(),
            listed@.len() == k,
            picked@.map_values(|i: usize| i as int) == accepted,
            forall|j: int| 0 <= j < picked@.len() ==> (#[trigger] picked@[j]) < devices@.len(),
            forall|j: int|
                0 <= j < k ==> {
                    let at = #[trigger] accepted[j];
                    &&& 0 <= at < devices@.len()
                    &&& listed@[j].0@ == devices@[at].bus_id@
                    &&& listed@[j].1 == devices@[at].device_address
                },
        decreases picked@.len() - k,
    {
        let at: usize = picked[k];
        assert(accepted[k as int] == picked@[k as int] as int);
        let device = &devices[at];
        listed.push((device.bus_id.clone(), device.device_address));
        k = k + 1;
    }
    assert(picked@.len() == accepted.len());
    listed
}

/// An interface alternate setting as its descriptor gives it.
#[derive(Clone, Copy, Debug, PartialEq, Eq)]
pub struct InterfaceSetting {
    pub interface_number: u8,
    pub class: u8,
    pub subclass: u8,
    pub protocol: u8,
}

impl InterfaceSetting {
    /// Whether this is the vendor interface of the KVM firmware.
    pub open spec fn is_vendor_interface(&self) -> bool {
        self.class == INTERFACE_CLASS && self.subclass == INTERFACE_SUBCLASS && self.protocol
            == INTERFACE_PROTOCOL
    }
}

/// Finds the interface to claim: the first alternate setting with the
/// firmware's class, subclass and protocol. A device without one is not a
/// KVM device.
pub fn find_vendor_interface(settings: &Vec<InterfaceSetting>) -> (r: Result<u8, Error>)
    ensures
        r is Ok <==> exists|i: int|
            0 <= i < settings@.len() && (#[trigger] settings@[i]).is_vendor_interface(),
        r matches Ok(number) ==> exists|i: int|
            {
                &&& 0 <= i < settings@.len()
                &&& (#[trigger] settings@[i]).is_vendor_interface()
                &&& settings@[i].interface_number == number
                &&& forall|j: int| 0 <= j < i ==> !(#[trigger] settings@[j]).is_vendor_interface()
            },
        r matches Err(e) ==> e@ == ErrorView::UnknownDevice,
{
    let mut i: usize = 0;
    while i < settings.len()
        invariant
            i <= settings@.len(),
            forall|j: int| 0 <= j < i ==> !(#[trigger] settings@[j]).is_vendor_interface(),
        decreases settings@.len() - i,
    {
        let s = &settings[i];
        if s.class == INTERFACE_CLASS && s.subclass == INTERFACE_SUBCLASS && s.protocol
            == INTERFACE_PROTOCOL {
            return Ok(s.interface_number);
        }
        i = i + 1;
    }
    Err(Error::UnknownDevice)
}

/// The error for a claim that the operating system turned down: lacking
/// permission is reported as such, everything else means that another
/// process holds the interface.
pub fn claim_error(permission_denied: bool) -> (e: Error)
    ensures
        e@ == (if permission_denied {
            ErrorView::PermissionDenied
        } else {
            ErrorView::DeviceBusy
        }),
{
    if permission_denied {
        Error::PermissionDenied
    } else {
        Error::DeviceBusy
    }
}

/// Direction of an endpoint, seen from the host.
#[derive(Clone, Copy, Debug, PartialEq, Eq, Structural)]
pub enum Direction {
    In,
    Out,
}

/// An endpoint as its descriptor gives it.
#[derive(Clone, Copy, Debug, PartialEq, Eq)]
pub struct EndpointInfo {
    pub address: u8,
    pub direction: Direction,
    pub max_packet_size: usize,
}

/// Position of the first endpoint of direction `direction`; the length of
/// `endpoints` if there is none.
pub open spec fn first_endpoint(endpoints: Seq<EndpointInfo>, direction: Direction) -> int
    decreases endpoints.len(),
{
    if endpoints.len() == 0 {
        0
    } else if endpoints.first().direction == direction {
        0
    } else {
        1 + first_endpoint(endpoints.drop_first(), direction)
    }
}

/// The addresses of the endpoints to open, IN first: the first endpoint of
/// either direction, provided both exist and carry 64-byte packets.
pub open spec fn selected_endpoints(endpoints: Seq<EndpointInfo>) -> Option<(u8, u8)> {
    let i = first_endpoint(endpoints, Direction::In);
    let o = first_endpoint(endpoints, Direction::Out);
    if i < endpoints.len() && o < endpoints.len() && endpoints[i].max_packet_size == PACKET_SIZE
        && endpoints[o].max_packet_size == PACKET_SIZE {
        Some((endpoints[i].address, endpoints[o].address))
    } else {
        None
    }
}

/// Finds the first endpoint of direction `direction`.
fn find_endpoint(endpoints: &Vec<EndpointInfo>, direction: Direction) -> (at: usize)
    ensures
        at == first_endpoint(endpoints@, direction),
        at <= endpoints@.len(),
        at < endpoints@.len() ==> endpoints@[at as int].direction == direction,
{
    let mut i: usize = 0;
    assert(endpoints@.skip(0) == endpoints@);
    while i < endpoints.len() && endpoints[i].direction != direction
        invariant
            i <= endpoints@.len(),
            first_endpoint(endpoints@, direction) == i + first_endpoint(
                endpoints@.skip(i as int),
                direction,
            ),
        decreases endpoints@.len() - i,
    {
        proof {
            let rest = endpoints@.skip(i as int);
            assert(rest.first() == endpoints@[i as int]);
            assert(rest.drop_first() == endpoints@.skip(i + 1));
        }
        i = i + 1;
    }
    proof {
        let rest = endpoints@.skip(i as int);
        if i < endpoints@.len() {
            assert(rest.first() == endpoints@[i as int]);
        }
    }
    i
}

/// Picks the bulk endpoints of the claimed interface: the first IN and the
/// first OUT endpoint. A device that lacks one of them, or whose endpoints
/// do not carry 64-byte packets, is refused.
pub fn select_endpoints(endpoints: &Vec<EndpointInfo>) -> (r: Result<(u8, u8), Error>)
    ensures
        match selected_endpoints(endpoints@) {
            Some(pair) => r == Ok::<(u8, u8), Error>(pair),
            None => r matches Err(e) && e@ == ErrorView::UnknownDevice,
        },
{
    let i = find_endpoint(endpoints, Direction::In);
    let o = find_endpoint(endpoints, Direction::Out);
    if i >= endpoints.len() || o >= endpoints.len() {
        return Err(Error::UnknownDevice);
    }
    if endpoints[i].max_packet_size != PACKET_SIZE || endpoints[o].max_packet_size != PACKET_SIZE {
        return Err(Error::UnknownDevice);
    }
    Ok((endpoints[i].address, endpoints[o].address))
}

} // verus!
