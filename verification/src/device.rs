//! Selection of the HID interfaces that speak the brightness protocol:
//! the monitor exposes several interfaces, and only the one with the fixed
//! vendor id, product id and interface number is kept. An optional serial
//! number narrows the selection further to one physical monitor.

use vstd::prelude::*;

verus! {

/// Vendor id of the supported monitor model.
pub const SD_VENDOR_ID: u16 = 0x05ac;

/// Product id of the supported monitor model.
pub const SD_PRODUCT_ID: u16 = 0x1114;

/// Number of the one logical HID interface that carries brightness reports.
pub const SD_INTERFACE_NR: i32 = 7;

/// What the matcher reads of one connected HID interface, as plain values:
/// the three identifying numbers, the serial number if the device reports
/// one, and the opaque platform path used to open a handle.
pub struct DeviceDescriptor {
    pub vendor_id: u16,
    pub product_id: u16,
    pub interface_number: i32,
    pub serial_number: Option<String>,
    pub path: Vec<u8>,
}

impl DeviceDescriptor {
    /// Whether this interface belongs to the supported monitor model and is
    /// the one that speaks the brightness protocol.
    pub open spec fn is_target(self) -> bool {
        self.vendor_id == SD_VENDOR_ID && self.product_id == SD_PRODUCT_ID
            && self.interface_number == SD_INTERFACE_NR
    }

    /// Whether this device survives an optional serial-number filter: with
    /// no filter every device passes; with one, a device is excluded only
    /// when it reports a serial number and that serial differs.
    pub open spec fn passes_serial(self, filter: Option<String>) -> bool {
        match filter {
            Option::None => true,
            Option::Some(f) => match self.serial_number {
                Option::None => true,
                Option::Some(s) => s@ == f@,
            },
        }
    }
}

/// The subsequence of `devices` that belongs to the supported monitor, in
/// enumeration order.
pub open spec fn matched_devices(devices: Seq<DeviceDescriptor>) -> Seq<DeviceDescriptor> {
    devices.filter(|d: DeviceDescriptor| d.is_target())
}

/// The subsequence of `devices` that an optional serial-number filter
/// keeps, in enumeration order.
pub open spec fn serial_filtered(devices: Seq<DeviceDescriptor>, filter: Option<String>) -> Seq<
    DeviceDescriptor,
> {
    devices.filter(|d: DeviceDescriptor| d.passes_serial(filter))
}

proof fn lemma_matched_empty()
    ensures
        matched_devices(Seq::<DeviceDescriptor>::empty()) == Seq::<DeviceDescriptor>::empty(),
{
    reveal(Seq::filter);
}

proof fn lemma_matched_step(s: Seq<DeviceDescriptor>, i: int)
    requires
        0 <= i < s.len(),
    ensures
        matched_devices(s.subrange(0, i + 1)) == if s[i].is_target() {
            matched_devices(s.subrange(0, i)).push(s[i])
        } else {
            matched_devices(s.subrange(0, i))
        },
{
    reveal(Seq::filter);
    let pre1 = s.subrange(0, i + 1);
    assert(pre1.drop_last() =~= s.subrange(0, i));
    assert(pre1.last() == s[i]);
}

proof fn lemma_serial_empty(filter: Option<String>)
    ensures
        serial_filtered(Seq::<DeviceDescriptor>::empty(), filter) == Seq::<
            DeviceDescriptor,
        >::empty(),
{
    reveal(Seq::filter);
}

proof fn lemma_serial_step(s: Seq<DeviceDescriptor>, filter: Option<String>, i: int)
    requires
        0 <= i < s.len(),
    ensures
        serial_filtered(s.subrange(0, i + 1), filter) == if s[i].passes_serial(filter) {
            serial_filtered(s.subrange(0, i), filter).push(s[i])
        } else {
            serial_filtered(s.subrange(0, i), filter)
        },
{
    reveal(Seq::filter);
    let pre1 = s.subrange(0, i + 1);
    assert(pre1.drop_last() =~= s.subrange(0, i));
    assert(pre1.last() == s[i]);
}

/// Whether one interface descriptor is a matched device.
pub fn is_target_device(d: &DeviceDescriptor) -> (r: bool)
    ensures
        r == d.is_target(),
{
    d.vendor_id == SD_VENDOR_ID && d.product_id == SD_PRODUCT_ID && d.interface_number
        == SD_INTERFACE_NR
}

/// Filters a system-wide enumeration of HID interfaces down to the matched
/// devices, keeping enumeration order. An empty result is not an error
/// here: the caller decides whether "no device" is fatal.
pub fn find_target_devices(devices: Vec<DeviceDescriptor>) -> (r: Vec<DeviceDescriptor>)
    ensures
        r@ == matched_devices(devices@),
{
    let ghost orig = devices@;
    let mut rest = devices;
    let mut out: Vec<DeviceDescriptor> = Vec::new();
    proof {
        lemma_matched_empty();
        assert(orig.subrange(0, 0) =~= Seq::<DeviceDescriptor>::empty());
    }
    while rest.len() > 0
        invariant
            rest@.len() <= orig.len(),
            rest@ == orig.subrange(orig.len() - rest@.len(), orig.len() as int),
            out@ == matched_devices(orig.subrange(0, orig.len() - rest@.len())),
        decreases rest@.len(),
    {
        let ghost i = orig.len() - rest@.len();
        let d = rest.remove(0);
        proof {
            assert(d == orig[i]);
            assert(rest@ =~= orig.subrange(i + 1, orig.len() as int));
            lemma_matched_step(orig, i as int);
        }
        if is_target_device(&d) {
            out.push(d);
        }
    }
    proof {
        assert(orig.subrange(0, orig.len() as int) =~= orig);
    }
    out
}

/// Applies the optional serial-number filter to a list of devices, keeping
/// order. With a filter given, a device is dropped only when it reports a
/// serial number different from the requested one; a device that reports
/// none stays. When no surviving device is left, that means "no device for
/// this operation" to the caller, not a protocol failure.
pub fn filter_by_serial(devices: Vec<DeviceDescriptor>, filter: &Option<String>) -> (r: Vec<
    DeviceDescriptor,
>)
    ensures
        r@ == serial_filtered(devices@, *filter),
{
    let ghost orig = devices@;
    let mut rest = devices;
    let mut out: Vec<DeviceDescriptor> = Vec::new();
    proof {
        lemma_serial_empty(*filter);
        assert(orig.subrange(0, 0) =~= Seq::<DeviceDescriptor>::empty());
    }
    while rest.len() > 0
        invariant
            rest@.len() <= orig.len(),
            rest@ == orig.subrange(orig.len() - rest@.len(), orig.len() as int),
            out@ == serial_filtered(orig.subrange(0, orig.len() - rest@.len()), *filter),
        decreases rest@.len(),
    {
        let ghost i = orig.len() - rest@.len();
        let d = rest.remove(0);
        proof {
            assert(d == orig[i]);
            assert(rest@ =~= orig.subrange(i + 1, orig.len() as int));
            lemma_serial_step(orig, *filter, i as int);
        }
        let keep = match (filter, &d.serial_number) {
            (Option::Some(f), Option::Some(s)) => s.eq(f),
            _ => true,
        };
        assert(keep == d.passes_serial(*filter));
        if keep {
            out.push(d);
        }
    }
    proof {
        assert(orig.subrange(0, orig.len() as int) =~= orig);
    }
    out
}

} // verus!
