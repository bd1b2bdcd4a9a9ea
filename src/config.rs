use vstd::prelude::*;
use crate::descriptor::{build_descriptor_set, concat, views, DescriptorBuffer, DescriptorOverflow};

verus! {

pub const USB_CLASS_CDC: u8 = 0x02;
pub const CDC_SUBCLASS_ACM: u8 = 0x02;
pub const USB_CLASS_CDC_DATA: u8 = 0x0a;
pub const DESC_DEVICE: u8 = 1;
pub const DESC_CONFIGURATION: u8 = 2;
pub const DESC_STRING: u8 = 3;
pub const DESC_INTERFACE: u8 = 4;
pub const DESC_ENDPOINT: u8 = 5;
pub const DESC_IAD: u8 = 0x0b;
pub const CS_INTERFACE: u8 = 0x24;
/// Length of the whole configuration descriptor set of the CDC-ACM function.
pub const CONFIG_TOTAL_LEN: u16 = 68;
/// Value of the one configuration.
pub const CONFIGURATION_VALUE: u8 = 1;
pub const LANG_ID_EN_US: u16 = 0x0409;

/// Device identity and limits, fixed at startup.
/// Strings are held as UTF-16 code units, as they go on the wire.
#[derive(Debug)]
pub struct DeviceConfig {
    pub vendor_id: u16,
    pub product_id: u16,
    pub manufacturer: Option<Vec<u16>>,
    pub product: Option<Vec<u16>>,
    pub serial_number: Option<Vec<u16>>,
    /// Maximum bus power, in units of 2 mA.
    pub max_power: u8,
    pub max_packet_size_0: u8,
}

impl DeviceConfig {
    /// A configuration with the given IDs, no strings, a `bMaxPower` of 100
    /// and 64-byte packets on endpoint 0.
    pub fn new(vendor_id: u16, product_id: u16) -> (r: DeviceConfig)
        ensures
            r.vendor_id == vendor_id,
            r.product_id == product_id,
            r.manufacturer.is_none(),
            r.product.is_none(),
            r.serial_number.is_none(),
            r.max_power == 100,
            r.max_packet_size_0 == 64,
    {
        DeviceConfig {
            vendor_id,
            product_id,
            manufacturer: None,
            product: None,
            serial_number: None,
            max_power: 100,
            max_packet_size_0: 64,
        }
    }
}

pub open spec fn lo(x: u16) -> u8 {
    (x % 256) as u8
}

pub open spec fn hi(x: u16) -> u8 {
    (x / 256) as u8
}

pub open spec fn string_index(present: bool, i: u8) -> u8 {
    if present { i } else { 0 }
}

/// The 18-byte device descriptor.
pub open spec fn device_descriptor_bytes(c: DeviceConfig) -> Seq<u8> {
    seq![
        18u8, DESC_DEVICE, 0x00u8, 0x02u8,
        USB_CLASS_CDC, 0x00u8, 0x00u8, c.max_packet_size_0,
        lo(c.vendor_id), hi(c.vendor_id), lo(c.product_id), hi(c.product_id),
        0x00u8, 0x01u8,
        string_index(c.manufacturer.is_some(), 1),
        string_index(c.product.is_some(), 2),
        string_index(c.serial_number.is_some(), 3),
        1u8,
    ]
}

/// The descriptors of the configuration, in order: configuration, interface
/// association, communications interface with its header, call management,
/// ACM and union functional descriptors, data interface, bulk OUT and bulk IN
/// endpoints.
pub open spec fn configuration_parts(max_power: u8, max_packet: u16) -> Seq<Seq<u8>> {
    seq![
        seq![9u8, DESC_CONFIGURATION, lo(CONFIG_TOTAL_LEN), hi(CONFIG_TOTAL_LEN), 2u8, CONFIGURATION_VALUE, 0u8, 0x80u8, max_power],
        seq![8u8, DESC_IAD, 0u8, 2u8, USB_CLASS_CDC, CDC_SUBCLASS_ACM, 0u8, 0u8],
        seq![9u8, DESC_INTERFACE, 0u8, 0u8, 0u8, USB_CLASS_CDC, CDC_SUBCLASS_ACM, 0u8, 0u8],
        seq![5u8, CS_INTERFACE, 0x00u8, 0x10u8, 0x01u8],
        seq![5u8, CS_INTERFACE, 0x01u8, 0x00u8, 1u8],
        seq![4u8, CS_INTERFACE, 0x02u8, 0x02u8],
        seq![5u8, CS_INTERFACE, 0x06u8, 0u8, 1u8],
        seq![9u8, DESC_INTERFACE, 1u8, 0u8, 2u8, USB_CLASS_CDC_DATA, 0u8, 0u8, 0u8],
        seq![7u8, DESC_ENDPOINT, 0x01u8, 0x02u8, lo(max_packet), hi(max_packet), 0u8],
        seq![7u8, DESC_ENDPOINT, 0x81u8, 0x02u8, lo(max_packet), hi(max_packet), 0u8],
    ]
}

pub open spec fn configuration_bytes(max_power: u8, max_packet: u16) -> Seq<u8> {
    concat(configuration_parts(max_power, max_packet))
}

pub fn device_descriptor(c: &DeviceConfig) -> (r: Vec<u8>)
    ensures
        r@ == device_descriptor_bytes(*c),
{
    let r = vec![
        18u8, DESC_DEVICE, 0x00u8, 0x02u8,
        USB_CLASS_CDC, 0x00u8, 0x00u8, c.max_packet_size_0,
        (c.vendor_id % 256) as u8, (c.vendor_id / 256) as u8,
        (c.product_id % 256) as u8, (c.product_id / 256) as u8,
        0x00u8, 0x01u8,
        if c.manufacturer.is_some() { 1u8 } else { 0u8 },
        if c.product.is_some() { 2u8 } else { 0u8 },
        if c.serial_number.is_some() { 3u8 } else { 0u8 },
        1u8,
    ];
    assert(r@ =~= device_descriptor_bytes(*c));
    r
}

pub fn configuration_descriptor_parts(max_power: u8, max_packet: u16) -> (r: Vec<Vec<u8>>)
    ensures
        views(r@) == configuration_parts(max_power, max_packet),
{
    let pl = (max_packet % 256) as u8;
    let ph = (max_packet / 256) as u8;
    let r = vec![
        vec![9u8, DESC_CONFIGURATION, 68u8, 0u8, 2u8, CONFIGURATION_VALUE, 0u8, 0x80u8, max_power],
        vec![8u8, DESC_IAD, 0u8, 2u8, USB_CLASS_CDC, CDC_SUBCLASS_ACM, 0u8, 0u8],
        vec![9u8, DESC_INTERFACE, 0u8, 0u8, 0u8, USB_CLASS_CDC, CDC_SUBCLASS_ACM, 0u8, 0u8],
        vec![5u8, CS_INTERFACE, 0x00u8, 0x10u8, 0x01u8],
        vec![5u8, CS_INTERFACE, 0x01u8, 0x00u8, 1u8],
        vec![4u8, CS_INTERFACE, 0x02u8, 0x02u8],
        vec![5u8, CS_INTERFACE, 0x06u8, 0u8, 1u8],
        vec![9u8, DESC_INTERFACE, 1u8, 0u8, 2u8, USB_CLASS_CDC_DATA, 0u8, 0u8, 0u8],
        vec![7u8, DESC_ENDPOINT, 0x01u8, 0x02u8, pl, ph, 0u8],
        vec![7u8, DESC_ENDPOINT, 0x81u8, 0x02u8, pl, ph, 0u8],
    ];
    assert(views(r@) =~= configuration_parts(max_power, max_packet));
    r
}

/// Each descriptor of the configuration starts with its own length, and the
/// set is as long as its configuration descriptor says.
pub proof fn lemma_configuration_well_formed(max_power: u8, max_packet: u16)
    ensures
        forall|k: int| 0 <= k < 10 ==> {
            let d = #[trigger] configuration_parts(max_power, max_packet)[k];
            d.len() > 0 && d[0] as int == d.len()
        },
        configuration_parts(max_power, max_packet).len() == 10,
        configuration_bytes(max_power, max_packet).len() == CONFIG_TOTAL_LEN,
{
    let p = configuration_parts(max_power, max_packet);
    reveal_with_fuel(concat, 11);
    assert(p.len() == 10);
}

/// The descriptors built at startup.
pub struct Descriptors {
    pub device: Vec<u8>,
    pub configuration: DescriptorBuffer,
}

/// Builds the device descriptor and, into a buffer of `capacity` bytes, the
/// configuration descriptor set. Fails when the set does not fit.
pub fn build(c: &DeviceConfig, max_packet: u16, capacity: usize) -> (r: Result<Descriptors, DescriptorOverflow>)
    ensures
        r.is_ok() == (CONFIG_TOTAL_LEN <= capacity),
        r matches Ok(d) ==> d.device@ == device_descriptor_bytes(*c)
            && d.configuration.wf()
            && d.configuration.spec_capacity() == capacity
            && d.configuration.written() == configuration_bytes(c.max_power, max_packet),
{
    proof {
        lemma_configuration_well_formed(c.max_power, max_packet);
    }
    let parts = configuration_descriptor_parts(c.max_power, max_packet);
    match build_descriptor_set(&parts, capacity) {
        Ok(b) => Ok(Descriptors { device: device_descriptor(c), configuration: b }),
        Err(e) => Err(e),
    }
}

/// A string descriptor holding `units`, or `None` when it would be longer
/// than a descriptor can say.
pub fn string_descriptor(units: &[u16]) -> (r: Option<Vec<u8>>)
    ensures
        units@.len() > 126 ==> r.is_none(),
        units@.len() <= 126 ==> (r matches Some(v) && v@ == string_bytes(units@)),
{
    if units.len() > 126 {
        return None;
    }
    let n = units.len();
    let mut v: Vec<u8> = Vec::new();
    v.push((2 + 2 * n) as u8);
    v.push(DESC_STRING);
    let mut i: usize = 0;
    assert(units@.take(0) =~= Seq::<u16>::empty());
    assert(v@ =~= seq![(2 + 2 * n) as u8, DESC_STRING] + units_bytes(units@.take(0)));
    while i < n
        invariant
            n == units@.len() <= 126,
            0 <= i <= n,
            v@ == seq![(2 + 2 * n) as u8, DESC_STRING] + units_bytes(units@.take(i as int)),
        decreases n - i,
    {
        let u = units[i];
        v.push((u % 256) as u8);
        v.push((u / 256) as u8);
        proof {
            lemma_units_bytes_step(units@, i as int);
        }
        i = i + 1;
        assert(v@ =~= seq![(2 + 2 * n) as u8, DESC_STRING] + units_bytes(units@.take(i as int)));
    }
    assert(units@.take(n as int) =~= units@);
    Some(v)
}

/// Little-endian bytes of UTF-16 code units.
pub open spec fn units_bytes(u: Seq<u16>) -> Seq<u8>
    decreases u.len(),
{
    if u.len() == 0 {
        Seq::empty()
    } else {
        units_bytes(u.drop_last()) + seq![lo(u.last()), hi(u.last())]
    }
}

pub open spec fn string_bytes(u: Seq<u16>) -> Seq<u8> {
    seq![(2 + 2 * u.len()) as u8, DESC_STRING] + units_bytes(u)
}

proof fn lemma_units_bytes_step(u: Seq<u16>, i: int)
    requires
        0 <= i < u.len(),
    ensures
        units_bytes(u.take(i + 1)) == units_bytes(u.take(i)) + seq![lo(u[i]), hi(u[i])],
{
    assert(u.take(i + 1).drop_last() =~= u.take(i));
}

} // verus!
