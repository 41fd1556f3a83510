//! The USB gadget: what is written under configfs to present the keyboard,
//! the two mice and the mass-storage device to the host, in which order,
//! and the choice of the USB device controller.
use vstd::prelude::*;
use crate::mqtt::topic_of;
use crate::discovery::texts;
use crate::text::{chars_of, ends_with, ends_with_chars, owned, same_text, starts_with, starts_with_chars};

verus! {

/// Where gadgets live in configfs.
pub const GADGET_ROOT: &'static str = "/sys/kernel/config/usb_gadget";

/// The identity the gadget presents to the host.
pub struct GadgetConfig {
    pub vendor_id: String,
    pub product_id: String,
    pub serial_number: String,
    pub manufacturer: String,
    pub product: String,
    pub strict_mode: bool,
}

impl Default for GadgetConfig {
    fn default() -> (r: Self)
        ensures
            r.vendor_id@ == "0x1d6b"@,
            r.product_id@ == "0x0104"@,
            r.serial_number@.len() == 0,
            r.manufacturer@ == "RustKVM"@,
            r.product@ == "RustKVM USB Emulation Device"@,
            !r.strict_mode,
    {
        GadgetConfig {
            vendor_id: owned("0x1d6b"),
            product_id: owned("0x0104"),
            serial_number: String::new(),
            manufacturer: owned("RustKVM"),
            product: owned("RustKVM USB Emulation Device"),
            strict_mode: false,
        }
    }
}

/// Which of the emulated devices are presented.
#[derive(Debug, Clone, Copy, PartialEq, Eq, Structural)]
pub struct DeviceConfig {
    pub absolute_mouse: bool,
    pub relative_mouse: bool,
    pub keyboard: bool,
    pub mass_storage: bool,
}

impl Default for DeviceConfig {
    fn default() -> (r: Self)
        ensures
            r.absolute_mouse && r.relative_mouse && r.keyboard && r.mass_storage,
    {
        DeviceConfig { absolute_mouse: true, relative_mouse: true, keyboard: true, mass_storage: true }
    }
}

/// The HID report descriptor a function is given.
#[derive(Debug, Clone, Copy, PartialEq, Eq, Structural)]
pub enum ReportDesc {
    Keyboard,
    AbsoluteMouse,
    RelativeMouse,
}

/// A name and a value.
pub type Attr = (String, String);

/// The texts of a list of attributes.
pub open spec fn attr_texts(a: Seq<Attr>) -> Seq<(Seq<char>, Seq<char>)> {
    a.map_values(|p: Attr| (p.0@, p.1@))
}

/// One part of the gadget's configuration: the directory under the gadget
/// (`path`), its attributes, and its place under the configuration `c.1`
/// (`config_path`): a symbolic link to the directory, or, when it has
/// configuration attributes, a directory of its own.
pub struct GadgetConfigItem {
    pub key: String,
    pub order: u32,
    pub path: Vec<String>,
    pub attrs: Vec<Attr>,
    pub config_attrs: Vec<Attr>,
    pub config_path: Option<Vec<String>>,
    pub report_desc: Option<ReportDesc>,
}

/// What a configuration item says.
pub struct ItemView {
    pub key: Seq<char>,
    pub order: u32,
    pub path: Seq<Seq<char>>,
    pub attrs: Seq<(Seq<char>, Seq<char>)>,
    pub config_attrs: Seq<(Seq<char>, Seq<char>)>,
    pub config_path: Option<Seq<Seq<char>>>,
    pub report_desc: Option<ReportDesc>,
}

impl View for GadgetConfigItem {
    type V = ItemView;

    open spec fn view(&self) -> ItemView {
        ItemView {
            key: self.key@,
            order: self.order,
            path: texts(self.path@),
            attrs: attr_texts(self.attrs@),
            config_attrs: attr_texts(self.config_attrs@),
            config_path: match self.config_path {
                Some(p) => Some(texts(p@)),
                None => None,
            },
            report_desc: self.report_desc,
        }
    }
}

/// What a list of configuration items says.
pub open spec fn items_view(v: Seq<GadgetConfigItem>) -> Seq<ItemView> {
    v.map_values(|i: GadgetConfigItem| i@)
}

/// The configuration items for a vendor id, product id, serial number,
/// manufacturer and product name, in the order they are written.
pub open spec fn items_with(vendor: Seq<char>, product_id: Seq<char>, serial: Seq<char>, manufacturer: Seq<char>, product: Seq<char>) -> Seq<ItemView> {
    seq![
        ItemView {
            key: "base"@,
            order: 0,
            path: seq![],
            attrs: seq![
                ("bcdUSB"@, "0x0320"@),
                ("idVendor"@, vendor),
                ("idProduct"@, product_id),
                ("bcdDevice"@, "0x0100"@),
            ],
            config_attrs: seq![],
            config_path: None,
            report_desc: None,
        },
        ItemView {
            key: "base_info"@,
            order: 1,
            path: seq!["strings"@, "0x409"@],
            attrs: seq![
                ("serialnumber"@, serial),
                ("manufacturer"@, manufacturer),
                ("product"@, product),
            ],
            config_attrs: seq![("configuration"@, "Config 1: HID"@)],
            config_path: Some(seq!["strings"@, "0x409"@]),
            report_desc: None,
        },
        ItemView {
            key: "config_c1"@,
            order: 2,
            path: seq![],
            attrs: seq![],
            config_attrs: seq![("MaxPower"@, "900"@)],
            config_path: Some(seq![]),
            report_desc: None,
        },
        ItemView {
            key: "keyboard"@,
            order: 1000,
            path: seq!["functions"@, "hid.usb0"@],
            attrs: seq![
                ("protocol"@, "1"@),
                ("subclass"@, "1"@),
                ("report_length"@, "8"@),
                ("no_out_endpoint"@, "0"@),
            ],
            config_attrs: seq![],
            config_path: Some(seq!["hid.usb0"@]),
            report_desc: Some(ReportDesc::Keyboard),
        },
        ItemView {
            key: "absolute_mouse"@,
            order: 1001,
            path: seq!["functions"@, "hid.usb1"@],
            attrs: seq![
                ("protocol"@, "2"@),
                ("subclass"@, "0"@),
                ("report_length"@, "6"@),
                ("no_out_endpoint"@, "1"@),
            ],
            config_attrs: seq![],
            config_path: Some(seq!["hid.usb1"@]),
            report_desc: Some(ReportDesc::AbsoluteMouse),
        },
        ItemView {
            key: "relative_mouse"@,
            order: 1002,
            path: seq!["functions"@, "hid.usb2"@],
            attrs: seq![
                ("protocol"@, "2"@),
                ("subclass"@, "1"@),
                ("report_length"@, "4"@),
                ("no_out_endpoint"@, "1"@),
            ],
            config_attrs: seq![],
            config_path: Some(seq!["hid.usb2"@]),
            report_desc: Some(ReportDesc::RelativeMouse),
        },
        ItemView {
            key: "mass_storage_base"@,
            order: 3000,
            path: seq!["functions"@, "mass_storage.usb0"@],
            attrs: seq![("stall"@, "1"@)],
            config_attrs: seq![],
            config_path: Some(seq!["mass_storage.usb0"@]),
            report_desc: None,
        },
        ItemView {
            key: "mass_storage_lun0"@,
            order: 3001,
            path: seq!["functions"@, "mass_storage.usb0"@, "lun.0"@],
            attrs: seq![
                ("cdrom"@, "1"@),
                ("ro"@, "1"@),
                ("removable"@, "1"@),
                ("file"@, "\n"@),
                ("inquiry_string"@, "RustKVM  Virtual Media"@),
            ],
            config_attrs: seq![],
            config_path: None,
            report_desc: None,
        },
    ]
}

/// The configuration items before the identity is applied.
pub open spec fn default_items() -> Seq<ItemView> {
    items_with("0x1d6b"@, "0x0104"@, Seq::empty(), "RustKVM"@, "RustKVM USB Emulation Device"@)
}

fn attr(k: &str, v: &str) -> (r: Attr)
    ensures
        r.0@ == k@,
        r.1@ == v@,
{
    (owned(k), owned(v))
}

fn strs(a: &[&str]) -> (r: Vec<String>)
    ensures
        texts(r@) == a@.map_values(|s: &str| s@),
{
    let mut r: Vec<String> = Vec::new();
    let mut i: usize = 0;
    while i < a.len()
        invariant
            i <= a@.len(),
            texts(r@) == a@.subrange(0, i as int).map_values(|s: &str| s@),
        decreases a@.len() - i,
    {
        r.push(owned(a[i]));
        proof {
            assert(a@.subrange(0, i + 1).map_values(|s: &str| s@) =~= a@.subrange(0, i as int).map_values(
                |s: &str| s@,
            ).push(a@[i as int]@));
        }
        i = i + 1;
    }
    assert(a@.subrange(0, a@.len() as int) =~= a@);
    r
}

/// The configuration items before the identity is applied, in the order
/// they are written.
pub fn create_default_config_map() -> (r: Vec<GadgetConfigItem>)
    ensures
        items_view(r@) == default_items(),
{
    let mut r: Vec<GadgetConfigItem> = Vec::new();
    let it = GadgetConfigItem {
        key: owned("base"),
        order: 0,
        path: Vec::new(),
        attrs: vec![attr("bcdUSB", "0x0320"), attr("idVendor", "0x1d6b"), attr("idProduct", "0x0104"), attr("bcdDevice", "0x0100")],
        config_attrs: Vec::new(),
        config_path: None,
        report_desc: None,
    };
    proof {
        assert(attr_texts(it.attrs@) =~= items_with("0x1d6b"@, "0x0104"@, Seq::empty(), "RustKVM"@, "RustKVM USB Emulation Device"@)[0].attrs);
        assert(attr_texts(it.config_attrs@) =~= default_items()[0].config_attrs);
        assert(texts(it.path@) =~= default_items()[0].path);
    }
    proof {
        assert(it.config_path is Some ==> texts(it.config_path.unwrap()@) =~= default_items()[0].config_path.unwrap());
        assert(it@ == default_items()[0]);
    }
    r.push(it);
    assert(items_view(r@) =~= default_items().subrange(0, 1));
    let it = GadgetConfigItem {
        key: owned("base_info"),
        order: 1,
        path: strs(vec!["strings", "0x409"].as_slice()),
        attrs: vec![(owned("serialnumber"), String::new()), attr("manufacturer", "RustKVM"), attr("product", "RustKVM USB Emulation Device")],
        config_attrs: vec![attr("configuration", "Config 1: HID")],
        config_path: Some(strs(vec!["strings", "0x409"].as_slice())),
        report_desc: None,
    };
    proof {
        assert(attr_texts(it.attrs@) =~= items_with("0x1d6b"@, "0x0104"@, Seq::empty(), "RustKVM"@, "RustKVM USB Emulation Device"@)[1].attrs);
        assert(attr_texts(it.config_attrs@) =~= default_items()[1].config_attrs);
        assert(texts(it.path@) =~= default_items()[1].path);
    }
    proof {
        assert(it.config_path is Some ==> texts(it.config_path.unwrap()@) =~= default_items()[1].config_path.unwrap());
        assert(it@ == default_items()[1]);
    }
    r.push(it);
    assert(items_view(r@) =~= default_items().subrange(0, 2));
    let it = GadgetConfigItem {
        key: owned("config_c1"),
        order: 2,
        path: Vec::new(),
        attrs: Vec::new(),
        config_attrs: vec![attr("MaxPower", "900")],
        config_path: Some(Vec::new()),
        report_desc: None,
    };
    proof {
        assert(attr_texts(it.attrs@) =~= items_with("0x1d6b"@, "0x0104"@, Seq::empty(), "RustKVM"@, "RustKVM USB Emulation Device"@)[2].attrs);
        assert(attr_texts(it.config_attrs@) =~= default_items()[2].config_attrs);
        assert(texts(it.path@) =~= default_items()[2].path);
    }
    proof {
        assert(it.config_path is Some ==> texts(it.config_path.unwrap()@) =~= default_items()[2].config_path.unwrap());
        assert(it@ == default_items()[2]);
    }
    r.push(it);
    assert(items_view(r@) =~= default_items().subrange(0, 3));
    let it = GadgetConfigItem {
        key: owned("keyboard"),
        order: 1000,
        path: strs(vec!["functions", "hid.usb0"].as_slice()),
        attrs: vec![attr("protocol", "1"), attr("subclass", "1"), attr("report_length", "8"), attr("no_out_endpoint", "0")],
        config_attrs: Vec::new(),
        config_path: Some(strs(vec!["hid.usb0"].as_slice())),
        report_desc: Some(ReportDesc::Keyboard),
    };
    proof {
        assert(attr_texts(it.attrs@) =~= items_with("0x1d6b"@, "0x0104"@, Seq::empty(), "RustKVM"@, "RustKVM USB Emulation Device"@)[3].attrs);
        assert(attr_texts(it.config_attrs@) =~= default_items()[3].config_attrs);
        assert(texts(it.path@) =~= default_items()[3].path);
    }
    proof {
        assert(it.config_path is Some ==> texts(it.config_path.unwrap()@) =~= default_items()[3].config_path.unwrap());
        assert(it@ == default_items()[3]);
    }
    r.push(it);
    assert(items_view(r@) =~= default_items().subrange(0, 4));
    let it = GadgetConfigItem {
        key: owned("absolute_mouse"),
        order: 1001,
        path: strs(vec!["functions", "hid.usb1"].as_slice()),
        attrs: vec![attr("protocol", "2"), attr("subclass", "0"), attr("report_length", "6"), attr("no_out_endpoint", "1")],
        config_attrs: Vec::new(),
        config_path: Some(strs(vec!["hid.usb1"].as_slice())),
        report_desc: Some(ReportDesc::AbsoluteMouse),
    };
    proof {
        assert(attr_texts(it.attrs@) =~= items_with("0x1d6b"@, "0x0104"@, Seq::empty(), "RustKVM"@, "RustKVM USB Emulation Device"@)[4].attrs);
        assert(attr_texts(it.config_attrs@) =~= default_items()[4].config_attrs);
        assert(texts(it.path@) =~= default_items()[4].path);
    }
    proof {
        assert(it.config_path is Some ==> texts(it.config_path.unwrap()@) =~= default_items()[4].config_path.unwrap());
        assert(it@ == default_items()[4]);
    }
    r.push(it);
    assert(items_view(r@) =~= default_items().subrange(0, 5));
    let it = GadgetConfigItem {
        key: owned("relative_mouse"),
        order: 1002,
        path: strs(vec!["functions", "hid.usb2"].as_slice()),
        attrs: vec![attr("protocol", "2"), attr("subclass", "1"), attr("report_length", "4"), attr("no_out_endpoint", "1")],
        config_attrs: Vec::new(),
        config_path: Some(strs(vec!["hid.usb2"].as_slice())),
        report_desc: Some(ReportDesc::RelativeMouse),
    };
    proof {
        assert(attr_texts(it.attrs@) =~= items_with("0x1d6b"@, "0x0104"@, Seq::empty(), "RustKVM"@, "RustKVM USB Emulation Device"@)[5].attrs);
        assert(attr_texts(it.config_attrs@) =~= default_items()[5].config_attrs);
        assert(texts(it.path@) =~= default_items()[5].path);
    }
    proof {
        assert(it.config_path is Some ==> texts(it.config_path.unwrap()@) =~= default_items()[5].config_path.unwrap());
        assert(it@ == default_items()[5]);
    }
    r.push(it);
    assert(items_view(r@) =~= default_items().subrange(0, 6));
    let it = GadgetConfigItem {
        key: owned("mass_storage_base"),
        order: 3000,
        path: strs(vec!["functions", "mass_storage.usb0"].as_slice()),
        attrs: vec![attr("stall", "1")],
        config_attrs: Vec::new(),
        config_path: Some(strs(vec!["mass_storage.usb0"].as_slice())),
        report_desc: None,
    };
    proof {
        assert(attr_texts(it.attrs@) =~= items_with("0x1d6b"@, "0x0104"@, Seq::empty(), "RustKVM"@, "RustKVM USB Emulation Device"@)[6].attrs);
        assert(attr_texts(it.config_attrs@) =~= default_items()[6].config_attrs);
        assert(texts(it.path@) =~= default_items()[6].path);
    }
    proof {
        assert(it.config_path is Some ==> texts(it.config_path.unwrap()@) =~= default_items()[6].config_path.unwrap());
        assert(it@ == default_items()[6]);
    }
    r.push(it);
    assert(items_view(r@) =~= default_items().subrange(0, 7));
    let it = GadgetConfigItem {
        key: owned("mass_storage_lun0"),
        order: 3001,
        path: strs(vec!["functions", "mass_storage.usb0", "lun.0"].as_slice()),
        attrs: vec![attr("cdrom", "1"), attr("ro", "1"), attr("removable", "1"), attr("file", "\n"), attr("inquiry_string", "RustKVM  Virtual Media")],
        config_attrs: Vec::new(),
        config_path: None,
        report_desc: None,
    };
    proof {
        assert(attr_texts(it.attrs@) =~= items_with("0x1d6b"@, "0x0104"@, Seq::empty(), "RustKVM"@, "RustKVM USB Emulation Device"@)[7].attrs);
        assert(attr_texts(it.config_attrs@) =~= default_items()[7].config_attrs);
        assert(texts(it.path@) =~= default_items()[7].path);
    }
    proof {
        assert(it.config_path is Some ==> texts(it.config_path.unwrap()@) =~= default_items()[7].config_path.unwrap());
        assert(it@ == default_items()[7]);
    }
    r.push(it);
    assert(items_view(r@) =~= default_items().subrange(0, 8));
    assert(default_items().subrange(0, 8) =~= default_items());
    r
}


// ---------------------------------------------------------------------------
// Attributes
// ---------------------------------------------------------------------------
/// The value of the first attribute named `k`.
pub open spec fn attr_lookup(a: Seq<(Seq<char>, Seq<char>)>, k: Seq<char>) -> Option<Seq<char>>
    decreases a.len(),
{
    if a.len() == 0 {
        None
    } else if a[0].0 == k {
        Some(a[0].1)
    } else {
        attr_lookup(a.drop_first(), k)
    }
}

/// Setting attribute `k` to `v`: the first attribute of that name takes the
/// new value in its place; without one, the attribute is added at the end.
pub open spec fn attr_insert(a: Seq<(Seq<char>, Seq<char>)>, k: Seq<char>, v: Seq<char>) -> Seq<(Seq<char>, Seq<char>)>
    decreases a.len(),
{
    if a.len() == 0 {
        seq![(k, v)]
    } else if a[0].0 == k {
        seq![(k, v)] + a.drop_first()
    } else {
        seq![a[0]] + attr_insert(a.drop_first(), k, v)
    }
}

/// The value of the first attribute named `k`.
pub fn attr_get(a: &Vec<Attr>, k: &str) -> (r: Option<String>)
    ensures
        crate::discovery::opt_text(r) == attr_lookup(attr_texts(a@), k@),
{
    let mut i: usize = 0;
    assert(attr_texts(a@).subrange(0, a@.len() as int) =~= attr_texts(a@));
    while i < a.len()
        invariant
            i <= a@.len(),
            attr_lookup(attr_texts(a@), k@) == attr_lookup(attr_texts(a@).subrange(i as int, a@.len() as int), k@),
        decreases a@.len() - i,
    {
        let ghost rest = attr_texts(a@).subrange(i as int, a@.len() as int);
        assert(rest.drop_first() =~= attr_texts(a@).subrange(i + 1, a@.len() as int));
        if same_text(a[i].0.as_str(), k) {
            return Some(owned(a[i].1.as_str()));
        }
        i = i + 1;
    }
    None
}

/// Sets attribute `k` to `v`.
pub fn attr_set(a: &mut Vec<Attr>, k: &str, v: &str)
    ensures
        attr_texts(final(a)@) == attr_insert(attr_texts(old(a)@), k@, v@),
{
    let ghost a0 = attr_texts(a@);
    let mut i: usize = 0;
    assert(a0.subrange(0, a0.len() as int) =~= a0);
    assert(a0.subrange(0, 0) + a0 =~= a0);
    while i < a.len()
        invariant
            i <= a@.len(),
            a0 == attr_texts(a@),
            a0 == attr_texts(old(a)@),
            attr_insert(a0, k@, v@) == a0.subrange(0, i as int) + attr_insert(a0.subrange(i as int, a0.len() as int), k@, v@),
        decreases a@.len() - i,
    {
        let ghost rest = a0.subrange(i as int, a0.len() as int);
        assert(rest.drop_first() =~= a0.subrange(i + 1, a0.len() as int));
        if same_text(a[i].0.as_str(), k) {
            a.set(i, (owned(k), owned(v)));
            assert(attr_insert(rest, k@, v@) == seq![(k@, v@)] + rest.drop_first());
            assert(attr_texts(a@) =~= a0.subrange(0, i as int) + (seq![(k@, v@)] + rest.drop_first()));
            return;
        }
        assert(a0.subrange(0, i + 1) =~= a0.subrange(0, i as int).push(a0[i as int]));
        assert(a0.subrange(0, i as int) + attr_insert(rest, k@, v@) =~= a0.subrange(0, i + 1)
            + attr_insert(a0.subrange(i + 1, a0.len() as int), k@, v@));
        i = i + 1;
    }
    a.push((owned(k), owned(v)));
    assert(a0.subrange(0, a0.len() as int) =~= a0);
    assert(a0.subrange(a0.len() as int, a0.len() as int) =~= Seq::<(Seq<char>, Seq<char>)>::empty());
    assert(attr_texts(a@) =~= attr_insert(a0, k@, v@));
}

/// What the identity changes in one item: the vendor and product ids of
/// `base`, and the serial number, manufacturer and product name of
/// `base_info`.
pub open spec fn with_identity(it: ItemView, c: GadgetConfig) -> ItemView {
    if it.key == "base"@ {
        ItemView {
            attrs: attr_insert(attr_insert(it.attrs, "idVendor"@, c.vendor_id@), "idProduct"@, c.product_id@),
            ..it
        }
    } else if it.key == "base_info"@ {
        ItemView {
            attrs: attr_insert(
                attr_insert(attr_insert(it.attrs, "serialnumber"@, c.serial_number@), "manufacturer"@, c.manufacturer@),
                "product"@,
                c.product@,
            ),
            ..it
        }
    } else {
        it
    }
}

/// The items with the identity applied (nothing changes in strict mode).
pub open spec fn apply_identity(items: Seq<ItemView>, c: GadgetConfig) -> Seq<ItemView> {
    if c.strict_mode {
        items
    } else {
        items.map_values(|it: ItemView| with_identity(it, c))
    }
}

/// Which items are written: each device's items follow its switch; the
/// others are always written.
pub open spec fn item_enabled(d: DeviceConfig, key: Seq<char>) -> bool {
    if key == "absolute_mouse"@ {
        d.absolute_mouse
    } else if key == "relative_mouse"@ {
        d.relative_mouse
    } else if key == "keyboard"@ {
        d.keyboard
    } else if key == "mass_storage_base"@ || key == "mass_storage_lun0"@ {
        d.mass_storage
    } else {
        true
    }
}

/// Whether the item of this key is written for these devices.
pub fn is_gadget_config_item_enabled(d: &DeviceConfig, key: &str) -> (r: bool)
    ensures
        r == item_enabled(*d, key@),
{
    if same_text(key, "absolute_mouse") {
        d.absolute_mouse
    } else if same_text(key, "relative_mouse") {
        d.relative_mouse
    } else if same_text(key, "keyboard") {
        d.keyboard
    } else if same_text(key, "mass_storage_base") || same_text(key, "mass_storage_lun0") {
        d.mass_storage
    } else {
        true
    }
}

/// The items are in strictly increasing order.
pub open spec fn items_ordered(items: Seq<ItemView>) -> bool {
    forall|i: int, j: int| 0 <= i < j < items.len() ==> items[i].order < items[j].order
}

proof fn lemma_base_identity(c: GadgetConfig)
    ensures
        attr_insert(attr_insert(default_items()[0].attrs, "idVendor"@, c.vendor_id@), "idProduct"@, c.product_id@)
            == seq![("bcdUSB"@, "0x0320"@), ("idVendor"@, c.vendor_id@), ("idProduct"@, c.product_id@), ("bcdDevice"@, "0x0100"@)],
{
    reveal_strlit("bcdUSB");
    reveal_strlit("idVendor");
    reveal_strlit("idProduct");
    let b0 = default_items()[0].attrs;
    assert(b0 == seq![("bcdUSB"@, "0x0320"@), ("idVendor"@, "0x1d6b"@), ("idProduct"@, "0x0104"@), ("bcdDevice"@, "0x0100"@)]);
    assert("bcdUSB"@[0] != "idVendor"@[0]);
    assert("bcdUSB"@[0] != "idProduct"@[0]);
    assert("idVendor"@[2] != "idProduct"@[2]);
    assert(b0.drop_first() =~= seq![("idVendor"@, "0x1d6b"@), ("idProduct"@, "0x0104"@), ("bcdDevice"@, "0x0100"@)]);
    let s1 = attr_insert(b0, "idVendor"@, c.vendor_id@);
    assert(attr_insert(b0.drop_first(), "idVendor"@, c.vendor_id@) == seq![("idVendor"@, c.vendor_id@)]
        + b0.drop_first().drop_first());
    assert(s1 =~= seq![("bcdUSB"@, "0x0320"@), ("idVendor"@, c.vendor_id@), ("idProduct"@, "0x0104"@), ("bcdDevice"@, "0x0100"@)]);
    assert(s1.drop_first() =~= seq![("idVendor"@, c.vendor_id@), ("idProduct"@, "0x0104"@), ("bcdDevice"@, "0x0100"@)]);
    assert(s1.drop_first().drop_first() =~= seq![("idProduct"@, "0x0104"@), ("bcdDevice"@, "0x0100"@)]);
    let s2 = attr_insert(s1, "idProduct"@, c.product_id@);
    assert(attr_insert(s1.drop_first().drop_first(), "idProduct"@, c.product_id@) == seq![("idProduct"@, c.product_id@)]
        + s1.drop_first().drop_first().drop_first());
    assert(attr_insert(s1.drop_first(), "idProduct"@, c.product_id@) == seq![s1[1]] + attr_insert(
        s1.drop_first().drop_first(),
        "idProduct"@,
        c.product_id@,
    ));
    assert(s2 == seq![s1[0]] + attr_insert(s1.drop_first(), "idProduct"@, c.product_id@));
    assert(s1.drop_first().drop_first().drop_first() =~= seq![("bcdDevice"@, "0x0100"@)]);
    assert(s2 =~= seq![("bcdUSB"@, "0x0320"@), ("idVendor"@, c.vendor_id@), ("idProduct"@, c.product_id@), ("bcdDevice"@, "0x0100"@)]);
}

proof fn lemma_info_identity(c: GadgetConfig)
    ensures
        attr_insert(
            attr_insert(attr_insert(default_items()[1].attrs, "serialnumber"@, c.serial_number@), "manufacturer"@, c.manufacturer@),
            "product"@,
            c.product@,
        ) == seq![("serialnumber"@, c.serial_number@), ("manufacturer"@, c.manufacturer@), ("product"@, c.product@)],
{
    reveal_strlit("serialnumber");
    reveal_strlit("manufacturer");
    reveal_strlit("product");
    let b1 = default_items()[1].attrs;
    assert("serialnumber"@[0] != "manufacturer"@[0]);
    assert("manufacturer"@[0] != "product"@[0]);
    assert("serialnumber"@[0] != "product"@[0]);
    let t1 = attr_insert(b1, "serialnumber"@, c.serial_number@);
    assert(t1 =~= seq![("serialnumber"@, c.serial_number@), ("manufacturer"@, "RustKVM"@), ("product"@, "RustKVM USB Emulation Device"@)]);
    assert(t1.drop_first() =~= seq![("manufacturer"@, "RustKVM"@), ("product"@, "RustKVM USB Emulation Device"@)]);
    let t2 = attr_insert(t1, "manufacturer"@, c.manufacturer@);
    assert(attr_insert(t1.drop_first(), "manufacturer"@, c.manufacturer@) == seq![("manufacturer"@, c.manufacturer@)]
        + t1.drop_first().drop_first());
    assert(t2 =~= seq![("serialnumber"@, c.serial_number@), ("manufacturer"@, c.manufacturer@), ("product"@, "RustKVM USB Emulation Device"@)]);
    assert(t2.drop_first() =~= seq![("manufacturer"@, c.manufacturer@), ("product"@, "RustKVM USB Emulation Device"@)]);
    assert(t2.drop_first().drop_first() =~= seq![("product"@, "RustKVM USB Emulation Device"@)]);
    let t3 = attr_insert(t2, "product"@, c.product@);
    assert(attr_insert(t2.drop_first().drop_first(), "product"@, c.product@) == seq![("product"@, c.product@)]
        + t2.drop_first().drop_first().drop_first());
    assert(attr_insert(t2.drop_first(), "product"@, c.product@) == seq![t2[1]] + attr_insert(
        t2.drop_first().drop_first(),
        "product"@,
        c.product@,
    ));
    assert(t3 == seq![t2[0]] + attr_insert(t2.drop_first(), "product"@, c.product@));
    assert(t3 =~= seq![("serialnumber"@, c.serial_number@), ("manufacturer"@, c.manufacturer@), ("product"@, c.product@)]);
}

/// Applying the identity to the default items sets exactly the five values
/// in place, and keeps the items in order.
pub proof fn lemma_identity_of_defaults(c: GadgetConfig)
    requires
        !c.strict_mode,
    ensures
        apply_identity(default_items(), c) == items_with(
            c.vendor_id@,
            c.product_id@,
            c.serial_number@,
            c.manufacturer@,
            c.product@,
        ),
        items_ordered(apply_identity(default_items(), c)),
{
    reveal_strlit("base");
    reveal_strlit("base_info");
    reveal_strlit("config_c1");
    reveal_strlit("keyboard");
    reveal_strlit("absolute_mouse");
    reveal_strlit("relative_mouse");
    reveal_strlit("mass_storage_base");
    reveal_strlit("mass_storage_lun0");
    lemma_base_identity(c);
    lemma_info_identity(c);
    let d = default_items();
    let w = items_with(c.vendor_id@, c.product_id@, c.serial_number@, c.manufacturer@, c.product@);
    let a = apply_identity(d, c);
    assert(a[0] == with_identity(d[0], c));
    assert("base_info"@.len() != "base"@.len());
    assert(a[1] == with_identity(d[1], c));
    assert(a[0].attrs =~= w[0].attrs);
    assert forall|k: int| 2 <= k < 8 implies a[k] == w[k] by {
        assert(d[k].key[0] != 'b');
        assert(d[k].key != "base"@ && d[k].key != "base_info"@);
    }
    assert(a[1].attrs =~= w[1].attrs);
    assert(a =~= w);
}


// ---------------------------------------------------------------------------
// Operations
// ---------------------------------------------------------------------------
/// One step of writing the gadget under configfs. A step fails the whole
/// write when it fails, except `ClearUdc`.
pub enum GadgetOp {
    /// Mount configfs at `/sys/kernel/config` unless it is mounted.
    MountConfigfs,
    /// Create a directory and its parents.
    CreateDir(String),
    /// Write an empty line to a `UDC` file; a failure is ignored.
    ClearUdc(String),
    /// Write a text to a file.
    WriteFile(String, String),
    /// Write a report descriptor to a file.
    WriteReportDesc(String, ReportDesc),
    /// Remove the link, file or directory at a path, if there is one.
    RemoveEntry(String),
    /// Remove the file or directory a path leads to, if there is one.
    DisableEntry(String),
    /// Create a symbolic link: `link` pointing at `target`.
    Symlink { target: String, link: String },
    /// Remove every symbolic link directly in a directory.
    ClearSymlinks(String),
    /// Detach every other gadget bound to this controller.
    ForceUnbindOthers { udc: String, name: String },
}

/// What a step does.
pub enum OpView {
    MountConfigfs,
    CreateDir(Seq<char>),
    ClearUdc(Seq<char>),
    WriteFile(Seq<char>, Seq<char>),
    WriteReportDesc(Seq<char>, ReportDesc),
    RemoveEntry(Seq<char>),
    DisableEntry(Seq<char>),
    Symlink(Seq<char>, Seq<char>),
    ClearSymlinks(Seq<char>),
    ForceUnbindOthers(Seq<char>, Seq<char>),
}

impl View for GadgetOp {
    type V = OpView;

    open spec fn view(&self) -> OpView {
        match self {
            GadgetOp::MountConfigfs => OpView::MountConfigfs,
            GadgetOp::CreateDir(p) => OpView::CreateDir(p@),
            GadgetOp::ClearUdc(p) => OpView::ClearUdc(p@),
            GadgetOp::WriteFile(p, t) => OpView::WriteFile(p@, t@),
            GadgetOp::WriteReportDesc(p, d) => OpView::WriteReportDesc(p@, *d),
            GadgetOp::RemoveEntry(p) => OpView::RemoveEntry(p@),
            GadgetOp::DisableEntry(p) => OpView::DisableEntry(p@),
            GadgetOp::Symlink { target, link } => OpView::Symlink(target@, link@),
            GadgetOp::ClearSymlinks(p) => OpView::ClearSymlinks(p@),
            GadgetOp::ForceUnbindOthers { udc, name } => OpView::ForceUnbindOthers(udc@, name@),
        }
    }
}

/// What a list of steps does.
pub open spec fn ops_view(v: Seq<GadgetOp>) -> Seq<OpView> {
    v.map_values(|o: GadgetOp| o@)
}

fn push_op(v: &mut Vec<GadgetOp>, o: GadgetOp)
    ensures
        ops_view(final(v)@) == ops_view(old(v)@).push(o@),
{
    let ghost ov = o@;
    v.push(o);
    assert(ops_view(final(v)@) =~= ops_view(old(v)@).push(ov));
}

/// A path: `base` followed by `/component` for each component.
pub open spec fn join_path(base: Seq<char>, comps: Seq<Seq<char>>) -> Seq<char> {
    topic_of(base, comps)
}

/// The path of `comps` under `base`.
pub fn build_path_from_components(base: &str, comps: &Vec<String>) -> (r: String)
    ensures
        r@ == join_path(base@, texts(comps@)),
{
    let mut r = owned(base);
    let mut i: usize = 0;
    while i < comps.len()
        invariant
            i <= comps@.len(),
            r@ == join_path(base@, texts(comps@.subrange(0, i as int))),
        decreases comps@.len() - i,
    {
        crate::text::push_char(&mut r, '/');
        r.append(comps[i].as_str());
        proof {
            let t = texts(comps@.subrange(0, i + 1));
            assert(t.drop_last() =~= texts(comps@.subrange(0, i as int)));
            assert(t.last() == comps@[i as int]@);
        }
        i = i + 1;
    }
    assert(comps@.subrange(0, comps@.len() as int) =~= comps@);
    r
}

fn child(dir: &str, name: &str) -> (r: String)
    ensures
        r@ == dir@ + "/"@ + name@,
{
    let mut s = owned(dir);
    s.append("/");
    s.append(name);
    s
}

/// The names of the attributes a HID function writes first, in this order.
pub open spec fn hid_key(k: Seq<char>) -> bool {
    k == "subclass"@ || k == "protocol"@ || k == "report_length"@
}

/// Writing each attribute into `dir`, in order; with `skip_hid`, the three
/// HID attributes are left out.
pub open spec fn attr_writes(dir: Seq<char>, a: Seq<(Seq<char>, Seq<char>)>, skip_hid: bool) -> Seq<OpView>
    decreases a.len(),
{
    if a.len() == 0 {
        seq![]
    } else {
        attr_writes(dir, a.drop_last(), skip_hid) + if skip_hid && hid_key(a.last().0) {
            seq![]
        } else {
            seq![OpView::WriteFile(dir + "/"@ + a.last().0, a.last().1)]
        }
    }
}

/// Writing attribute `k` into `dir` when it is set.
pub open spec fn lookup_write(dir: Seq<char>, a: Seq<(Seq<char>, Seq<char>)>, k: Seq<char>) -> Seq<OpView> {
    match attr_lookup(a, k) {
        Some(v) => seq![OpView::WriteFile(dir + "/"@ + k, v)],
        None => seq![],
    }
}

/// Writing the report descriptor into `dir` when there is one.
pub open spec fn desc_write(dir: Seq<char>, d: Option<ReportDesc>) -> Seq<OpView> {
    match d {
        Some(r) => seq![OpView::WriteReportDesc(dir + "/"@ + "report_desc"@, r)],
        None => seq![],
    }
}

/// Whether an item is a HID function: its directory is named `hid.usb..`.
pub open spec fn is_hid_item(it: ItemView) -> bool {
    it.path.len() > 0 && starts_with(it.path.last(), "hid.usb"@)
}

/// Writing the attributes and descriptor of an item into its directory: a
/// HID function writes subclass, protocol, report length and descriptor
/// before its other attributes; anything else writes its attributes and
/// then its descriptor.
pub open spec fn body_ops(dir: Seq<char>, it: ItemView) -> Seq<OpView> {
    if is_hid_item(it) {
        lookup_write(dir, it.attrs, "subclass"@) + lookup_write(dir, it.attrs, "protocol"@)
            + lookup_write(dir, it.attrs, "report_length"@) + desc_write(dir, it.report_desc)
            + attr_writes(dir, it.attrs, true)
    } else {
        attr_writes(dir, it.attrs, false) + desc_write(dir, it.report_desc)
    }
}

/// The item's place under the configuration directory `c`: its
/// configuration attributes in a directory of its own, or, without any, a
/// link to the item's directory `dir`.
pub open spec fn config_ops(dir: Seq<char>, c: Seq<char>, it: ItemView) -> Seq<OpView> {
    match it.config_path {
        Some(cp) => if it.config_attrs.len() > 0 {
            (if cp.len() > 0 {
                seq![OpView::CreateDir(join_path(c, cp))]
            } else {
                seq![]
            }) + attr_writes(join_path(c, cp), it.config_attrs, false)
        } else {
            seq![OpView::Symlink(dir, join_path(c, cp))]
        },
        None => seq![],
    }
}

/// Writing one item, for the gadget directory `g` and the configuration
/// directory `c`: the old link of a linked item is removed first; the
/// item's directory is created (unless it is the gadget's own); its
/// attributes and descriptor are written; then its place under `c`.
pub open spec fn item_ops(g: Seq<char>, c: Seq<char>, it: ItemView) -> Seq<OpView> {
    let dir = join_path(g, it.path);
    let unlink = match it.config_path {
        Some(cp) => if it.config_attrs.len() == 0 {
            seq![OpView::RemoveEntry(join_path(c, cp))]
        } else {
            seq![]
        },
        None => seq![],
    };
    let mk = if it.path.len() > 0 {
        seq![OpView::CreateDir(dir)]
    } else {
        seq![]
    };
    unlink + mk + body_ops(dir, it) + config_ops(dir, c, it)
}

fn push_attr_writes(v: &mut Vec<GadgetOp>, dir: &str, a: &Vec<Attr>, skip_hid: bool)
    ensures
        ops_view(final(v)@) == ops_view(old(v)@) + attr_writes(dir@, attr_texts(a@), skip_hid),
{
    let ghost at = attr_texts(a@);
    let mut i: usize = 0;
    while i < a.len()
        invariant
            i <= a@.len(),
            at == attr_texts(a@),
            ops_view(v@) == ops_view(old(v)@) + attr_writes(dir@, at.subrange(0, i as int), skip_hid),
        decreases a@.len() - i,
    {
        let k = a[i].0.as_str();
        let skip = skip_hid && (same_text(k, "subclass") || same_text(k, "protocol") || same_text(
            k,
            "report_length",
        ));
        proof {
            assert(at.subrange(0, i + 1).drop_last() =~= at.subrange(0, i as int));
            assert(at.subrange(0, i + 1).last() == (k@, a@[i as int].1@));
        }
        if !skip {
            push_op(v, GadgetOp::WriteFile(child(dir, k), owned(a[i].1.as_str())));
        }
        i = i + 1;
    }
    assert(at.subrange(0, at.len() as int) =~= at);
}

fn push_lookup_write(v: &mut Vec<GadgetOp>, dir: &str, a: &Vec<Attr>, k: &str)
    ensures
        ops_view(final(v)@) == ops_view(old(v)@) + lookup_write(dir@, attr_texts(a@), k@),
{
    match attr_get(a, k) {
        Some(val) => {
            push_op(v, GadgetOp::WriteFile(child(dir, k), val));
        },
        None => {
            assert(ops_view(v@) =~= ops_view(v@) + Seq::<OpView>::empty());
        },
    }
}

fn push_desc_write(v: &mut Vec<GadgetOp>, dir: &str, d: Option<ReportDesc>)
    ensures
        ops_view(final(v)@) == ops_view(old(v)@) + desc_write(dir@, d),
{
    match d {
        Some(r) => {
            push_op(v, GadgetOp::WriteReportDesc(child(dir, "report_desc"), r));
        },
        None => {
            assert(ops_view(v@) =~= ops_view(v@) + Seq::<OpView>::empty());
        },
    }
}

fn push_body_ops(v: &mut Vec<GadgetOp>, dir: &str, it: &GadgetConfigItem)
    ensures
        ops_view(final(v)@) == ops_view(old(v)@) + body_ops(dir@, it@),
{
    let is_hid = it.path.len() > 0 && {
        let last = chars_of(it.path[it.path.len() - 1].as_str());
        let pre = chars_of("hid.usb");
        starts_with_chars(last.as_slice(), pre.as_slice())
    };
    proof {
        if it.path@.len() > 0 {
            assert(texts(it.path@).last() == it.path@.last()@);
        }
    }
    let ghost v0 = ops_view(v@);
    if is_hid {
        push_lookup_write(v, dir, &it.attrs, "subclass");
        let ghost a = ops_view(v@);
        push_lookup_write(v, dir, &it.attrs, "protocol");
        let ghost b = ops_view(v@);
        push_lookup_write(v, dir, &it.attrs, "report_length");
        let ghost c = ops_view(v@);
        push_desc_write(v, dir, it.report_desc);
        let ghost d = ops_view(v@);
        push_attr_writes(v, dir, &it.attrs, true);
        assert(ops_view(v@) =~= v0 + body_ops(dir@, it@));
    } else {
        push_attr_writes(v, dir, &it.attrs, false);
        push_desc_write(v, dir, it.report_desc);
        assert(ops_view(v@) =~= v0 + body_ops(dir@, it@));
    }
}

fn push_config_ops(v: &mut Vec<GadgetOp>, dir: &str, c: &str, it: &GadgetConfigItem)
    ensures
        ops_view(final(v)@) == ops_view(old(v)@) + config_ops(dir@, c@, it@),
{
    let ghost v0 = ops_view(v@);
    match &it.config_path {
        Some(cp) => {
            let cdir = build_path_from_components(c, cp);
            if it.config_attrs.len() > 0 {
                if cp.len() > 0 {
                    push_op(v, GadgetOp::CreateDir(owned(cdir.as_str())));
                }
                let ghost v1 = ops_view(v@);
                push_attr_writes(v, cdir.as_str(), &it.config_attrs, false);
            } else {
                push_op(v, GadgetOp::Symlink { target: owned(dir), link: cdir });
            }
            assert(ops_view(v@) =~= v0 + config_ops(dir@, c@, it@));
        },
        None => {
            assert(ops_view(v@) =~= v0 + config_ops(dir@, c@, it@));
        },
    }
}

/// The steps that write one item.
pub fn write_gadget_item_config(g: &str, c: &str, it: &GadgetConfigItem) -> (r: Vec<GadgetOp>)
    ensures
        ops_view(r@) == item_ops(g@, c@, it@),
{
    let mut v: Vec<GadgetOp> = Vec::new();
    let dir = build_path_from_components(g, &it.path);
    if let Some(cp) = &it.config_path {
        if it.config_attrs.len() == 0 {
            push_op(&mut v, GadgetOp::RemoveEntry(build_path_from_components(c, cp)));
        }
    }
    let ghost s1 = ops_view(v@);
    if it.path.len() > 0 {
        push_op(&mut v, GadgetOp::CreateDir(owned(dir.as_str())));
    }
    let ghost s2 = ops_view(v@);
    push_body_ops(&mut v, dir.as_str(), it);
    let ghost s3 = ops_view(v@);
    push_config_ops(&mut v, dir.as_str(), c, it);
    proof {
        let unlink = match it@.config_path {
            Some(cp) => if it@.config_attrs.len() == 0 {
                seq![OpView::RemoveEntry(join_path(c@, cp))]
            } else {
                seq![]
            },
            None => seq![],
        };
        assert(s1 =~= unlink);
        assert(ops_view(v@) =~= item_ops(g@, c@, it@));
    }
    v
}


// ---------------------------------------------------------------------------
// The whole gadget
// ---------------------------------------------------------------------------
/// Releasing an item: its entry under the configuration directory is
/// removed.
pub open spec fn disable_ops(c: Seq<char>, it: ItemView) -> Seq<OpView> {
    match it.config_path {
        Some(cp) => seq![OpView::DisableEntry(join_path(c, cp))],
        None => seq![],
    }
}

/// The items of order 0 and 1 (the device identity), written before the
/// configuration directory exists.
pub open spec fn early_ops(g: Seq<char>, c: Seq<char>, items: Seq<ItemView>) -> Seq<OpView>
    decreases items.len(),
{
    if items.len() == 0 {
        seq![]
    } else {
        early_ops(g, c, items.drop_last()) + if items.last().order <= 1 {
            item_ops(g, c, items.last())
        } else {
            seq![]
        }
    }
}

/// Every item written, or released when its device is off.
pub open spec fn main_ops(g: Seq<char>, c: Seq<char>, d: DeviceConfig, items: Seq<ItemView>) -> Seq<OpView>
    decreases items.len(),
{
    if items.len() == 0 {
        seq![]
    } else {
        main_ops(g, c, d, items.drop_last()) + if item_enabled(d, items.last().key) {
            item_ops(g, c, items.last())
        } else {
            disable_ops(c, items.last())
        }
    }
}

/// The links of the written items, in item order.
pub open spec fn link_ops(g: Seq<char>, c: Seq<char>, d: DeviceConfig, items: Seq<ItemView>) -> Seq<OpView>
    decreases items.len(),
{
    if items.len() == 0 {
        seq![]
    } else {
        let it = items.last();
        link_ops(g, c, d, items.drop_last()) + match it.config_path {
            Some(cp) => if item_enabled(d, it.key) && it.config_attrs.len() == 0 {
                seq![OpView::Symlink(join_path(g, it.path), join_path(c, cp))]
            } else {
                seq![]
            },
            None => seq![],
        }
    }
}

/// Writing the whole gadget: its directory, with the controller detached;
/// the identity items; the configuration directory; every item (or its
/// release); the links again, in item order, after every old link is
/// removed; and last the controller bound, after other gadgets are
/// detached from it.
pub open spec fn gadget_ops(g: Seq<char>, c: Seq<char>, udc: Seq<char>, name: Seq<char>, d: DeviceConfig, items: Seq<ItemView>) -> Seq<OpView> {
    seq![OpView::CreateDir(g), OpView::ClearUdc(g + "/UDC"@)] + early_ops(g, c, items) + seq![
        OpView::CreateDir(c),
    ] + main_ops(g, c, d, items) + seq![OpView::ClearSymlinks(c)] + link_ops(g, c, d, items)
        + seq![OpView::ForceUnbindOthers(udc, name), OpView::WriteFile(g + "/UDC"@, udc)]
}

/// Why the gadget cannot be set up.
#[derive(Debug, Clone, Copy, PartialEq, Eq, Structural)]
pub enum GadgetError {
    /// No USB device controller was found when the gadget was made.
    NoUdc,
    /// No USB device controller is present when the gadget is set up.
    NoUdcAtInit,
}

/// The USB gadget: its name, the controller it binds to, its directories,
/// its configuration items in the order they are written, its identity and
/// the devices it presents. The items are a list rather than a map by key:
/// they are always walked in write order, each key occurs once (the `wf`
/// order makes that an invariant), and lookups by a text key in a map
/// would leave nothing about them that Verus can prove.
pub struct UsbGadget {
    pub name: String,
    pub udc: String,
    pub kvm_gadget_path: String,
    pub config_c1_path: String,
    pub config_map: Vec<GadgetConfigItem>,
    pub custom_config: GadgetConfig,
    pub enabled_devices: DeviceConfig,
}

impl UsbGadget {
    /// The gadget's directories follow from its name, and its items are in
    /// strictly increasing order.
    pub open spec fn wf(&self) -> bool {
        &&& self.kvm_gadget_path@ == GADGET_ROOT@ + "/"@ + self.name@
        &&& self.config_c1_path@ == self.kvm_gadget_path@ + "/configs/c.1"@
        &&& items_ordered(items_view(self.config_map@))
    }

    /// The gadget named `name` for the controllers found (`udcs`): bound to
    /// the first of them, with the default items and, unless in strict
    /// mode, the identity of `config` applied to them.
    pub fn new(name: String, enabled_devices: DeviceConfig, config: GadgetConfig, udcs: &Vec<String>) -> (r: Result<UsbGadget, GadgetError>)
        ensures
            udcs@.len() == 0 ==> r == Err::<UsbGadget, GadgetError>(GadgetError::NoUdc),
            udcs@.len() > 0 ==> (r matches Ok(g) && g.wf() && g.name@ == name@ && g.udc@ == udcs@[0]@
                && g.enabled_devices == enabled_devices && items_view(g.config_map@) == apply_identity(
                default_items(),
                config,
            ) && g.custom_config == config),
    {
        if udcs.len() == 0 {
            return Err(GadgetError::NoUdc);
        }
        let udc = owned(udcs[0].as_str());
        let mut kvm = owned(GADGET_ROOT);
        kvm.append("/");
        kvm.append(name.as_str());
        let mut c1 = owned(kvm.as_str());
        c1.append("/configs/c.1");
        let mut g = UsbGadget {
            name,
            udc,
            kvm_gadget_path: kvm,
            config_c1_path: c1,
            config_map: create_default_config_map(),
            custom_config: config,
            enabled_devices,
        };
        proof {
            assert(items_ordered(default_items()));
        }
        g.load_gadget_config();
        Ok(g)
    }

    /// Applies the identity to the items, unless in strict mode.
    pub fn load_gadget_config(&mut self)
        requires
            old(self).wf(),
        ensures
            final(self).wf(),
            items_view(final(self).config_map@) == apply_identity(items_view(old(self).config_map@), old(self).custom_config),
            final(self).name == old(self).name,
            final(self).udc == old(self).udc,
            final(self).kvm_gadget_path == old(self).kvm_gadget_path,
            final(self).config_c1_path == old(self).config_c1_path,
            final(self).custom_config == old(self).custom_config,
            final(self).enabled_devices == old(self).enabled_devices,
    {
        if self.custom_config.strict_mode {
            return;
        }
        let ghost before = items_view(self.config_map@);
        let mut out: Vec<GadgetConfigItem> = Vec::new();
        let mut i: usize = 0;
        while i < self.config_map.len()
            invariant
                i <= self.config_map@.len(),
                before == items_view(self.config_map@),
                !self.custom_config.strict_mode,
                items_view(out@) == before.subrange(0, i as int).map_values(
                    |it: ItemView| with_identity(it, self.custom_config),
                ),
            decreases self.config_map@.len() - i,
        {
            let it = with_identity_exec(&self.config_map[i], &self.custom_config);
            let ghost prev = items_view(out@);
            let ghost iv = it@;
            out.push(it);
            proof {
                assert(items_view(out@) =~= prev.push(iv));
                assert(before.subrange(0, i + 1).map_values(|it: ItemView| with_identity(it, self.custom_config))
                    =~= before.subrange(0, i as int).map_values(
                    |it: ItemView| with_identity(it, self.custom_config),
                ).push(with_identity(before[i as int], self.custom_config)));
            }
            i = i + 1;
        }
        proof {
            assert(before.subrange(0, before.len() as int) =~= before);
            assert(items_view(out@) =~= apply_identity(before, self.custom_config));
        }
        self.config_map = out;
    }

    /// The controller the gadget binds to.
    pub fn get_udc_name(&self) -> (r: &str)
        ensures
            r@ == self.udc@,
    {
        self.udc.as_str()
    }

    /// The steps that write the gadget: configfs mounted, then the gadget.
    pub fn configure_usb_gadget(&self) -> (r: Vec<GadgetOp>)
        requires
            self.wf(),
        ensures
            ops_view(r@) == seq![OpView::MountConfigfs] + gadget_ops(
                self.kvm_gadget_path@,
                self.config_c1_path@,
                self.udc@,
                self.name@,
                self.enabled_devices,
                items_view(self.config_map@),
            ),
    {
        let mut v: Vec<GadgetOp> = Vec::new();
        push_op(&mut v, GadgetOp::MountConfigfs);
        let mut w = self.write_gadget_config();
        let ghost a = ops_view(v@);
        let ghost b = ops_view(w@);
        v.append(&mut w);
        assert(ops_view(v@) =~= a + b);
        v
    }

    /// Sets the gadget up for the controllers present now: refused when
    /// there is none; otherwise other gadgets are detached from this
    /// gadget's controller and the gadget is written.
    pub fn init(&self, udcs: &Vec<String>) -> (r: Result<Vec<GadgetOp>, GadgetError>)
        requires
            self.wf(),
        ensures
            udcs@.len() == 0 ==> r == Err::<Vec<GadgetOp>, GadgetError>(GadgetError::NoUdcAtInit),
            udcs@.len() > 0 ==> (r matches Ok(ops) && ops_view(ops@) == seq![
                OpView::ForceUnbindOthers(self.udc@, self.name@),
                OpView::MountConfigfs,
            ] + gadget_ops(
                self.kvm_gadget_path@,
                self.config_c1_path@,
                self.udc@,
                self.name@,
                self.enabled_devices,
                items_view(self.config_map@),
            )),
    {
        if udcs.len() == 0 {
            return Err(GadgetError::NoUdcAtInit);
        }
        let mut v: Vec<GadgetOp> = Vec::new();
        push_op(
            &mut v,
            GadgetOp::ForceUnbindOthers { udc: owned(self.udc.as_str()), name: owned(self.name.as_str()) },
        );
        let mut w = self.configure_usb_gadget();
        let ghost a = ops_view(v@);
        let ghost b = ops_view(w@);
        v.append(&mut w);
        assert(ops_view(v@) =~= a + b);
        Ok(v)
    }

    /// The steps that write the gadget.
    pub fn write_gadget_config(&self) -> (r: Vec<GadgetOp>)
        ensures
            ops_view(r@) == gadget_ops(
                self.kvm_gadget_path@,
                self.config_c1_path@,
                self.udc@,
                self.name@,
                self.enabled_devices,
                items_view(self.config_map@),
            ),
    {
        let g = self.kvm_gadget_path.as_str();
        let c = self.config_c1_path.as_str();
        let items = &self.config_map;
        let ghost iv = items_view(items@);
        let mut v: Vec<GadgetOp> = Vec::new();
        push_op(&mut v, GadgetOp::CreateDir(owned(g)));
        push_op(&mut v, GadgetOp::ClearUdc(child_udc(g)));
        let ghost p0 = ops_view(v@);
        let mut i: usize = 0;
        while i < items.len()
            invariant
                i <= items@.len(),
                iv == items_view(items@),
                ops_view(v@) == p0 + early_ops(g@, c@, iv.subrange(0, i as int)),
            decreases items@.len() - i,
        {
            assert(iv.subrange(0, i + 1).drop_last() =~= iv.subrange(0, i as int));
            if items[i].order <= 1 {
                let mut w = write_gadget_item_config(g, c, &items[i]);
                let ghost a = ops_view(v@);
                let ghost b = ops_view(w@);
                v.append(&mut w);
                assert(ops_view(v@) =~= a + b);
            }
            i = i + 1;
        }
        assert(iv.subrange(0, iv.len() as int) =~= iv);
        push_op(&mut v, GadgetOp::CreateDir(owned(c)));
        let ghost p1 = ops_view(v@);
        let mut i: usize = 0;
        while i < items.len()
            invariant
                i <= items@.len(),
                iv == items_view(items@),
                ops_view(v@) == p1 + main_ops(g@, c@, self.enabled_devices, iv.subrange(0, i as int)),
            decreases items@.len() - i,
        {
            assert(iv.subrange(0, i + 1).drop_last() =~= iv.subrange(0, i as int));
            let ghost a = ops_view(v@);
            if is_gadget_config_item_enabled(&self.enabled_devices, items[i].key.as_str()) {
                let mut w = write_gadget_item_config(g, c, &items[i]);
                let ghost b = ops_view(w@);
                v.append(&mut w);
                assert(ops_view(v@) =~= a + b);
            } else {
                match &items[i].config_path {
                    Some(cp) => {
                        push_op(&mut v, GadgetOp::DisableEntry(build_path_from_components(c, cp)));
                    },
                    None => {},
                }
                assert(ops_view(v@) =~= a + disable_ops(c@, iv[i as int]));
            }
            i = i + 1;
        }
        push_op(&mut v, GadgetOp::ClearSymlinks(owned(c)));
        let ghost p2 = ops_view(v@);
        let mut i: usize = 0;
        while i < items.len()
            invariant
                i <= items@.len(),
                iv == items_view(items@),
                ops_view(v@) == p2 + link_ops(g@, c@, self.enabled_devices, iv.subrange(0, i as int)),
            decreases items@.len() - i,
        {
            assert(iv.subrange(0, i + 1).drop_last() =~= iv.subrange(0, i as int));
            let ghost a = ops_view(v@);
            if is_gadget_config_item_enabled(&self.enabled_devices, items[i].key.as_str()) && items[i].config_attrs.len() == 0 {
                match &items[i].config_path {
                    Some(cp) => {
                        push_op(
                            &mut v,
                            GadgetOp::Symlink {
                                target: build_path_from_components(g, &items[i].path),
                                link: build_path_from_components(c, cp),
                            },
                        );
                    },
                    None => {},
                }
            }
            assert(ops_view(v@) =~= a + link_ops(g@, c@, self.enabled_devices, iv.subrange(0, i + 1)).subrange(
                link_ops(g@, c@, self.enabled_devices, iv.subrange(0, i as int)).len() as int,
                link_ops(g@, c@, self.enabled_devices, iv.subrange(0, i + 1)).len() as int,
            ));
            i = i + 1;
        }
        push_op(
            &mut v,
            GadgetOp::ForceUnbindOthers { udc: owned(self.udc.as_str()), name: owned(self.name.as_str()) },
        );
        push_op(&mut v, GadgetOp::WriteFile(child_udc(g), owned(self.udc.as_str())));
        assert(ops_view(v@) =~= gadget_ops(
            g@,
            c@,
            self.udc@,
            self.name@,
            self.enabled_devices,
            iv,
        ));
        v
    }

    /// The step that detaches the gadget from its controller.
    pub fn unbind_udc(&self) -> (r: GadgetOp)
        ensures
            r@ == OpView::WriteFile(self.kvm_gadget_path@ + "/UDC"@, Seq::empty()),
    {
        GadgetOp::WriteFile(child_udc(self.kvm_gadget_path.as_str()), String::new())
    }
}

fn child_udc(g: &str) -> (r: String)
    ensures
        r@ == g@ + "/UDC"@,
{
    let mut s = owned(g);
    s.append("/UDC");
    s
}

fn copy_attrs(a: &Vec<Attr>) -> (r: Vec<Attr>)
    ensures
        attr_texts(r@) == attr_texts(a@),
{
    let mut r: Vec<Attr> = Vec::new();
    let mut i: usize = 0;
    while i < a.len()
        invariant
            i <= a@.len(),
            attr_texts(r@) == attr_texts(a@.subrange(0, i as int)),
        decreases a@.len() - i,
    {
        r.push((owned(a[i].0.as_str()), owned(a[i].1.as_str())));
        assert(attr_texts(a@.subrange(0, i + 1)) =~= attr_texts(a@.subrange(0, i as int)).push(
            (a@[i as int].0@, a@[i as int].1@),
        ));
        i = i + 1;
    }
    assert(a@.subrange(0, a@.len() as int) =~= a@);
    r
}

fn with_identity_exec(it: &GadgetConfigItem, c: &GadgetConfig) -> (r: GadgetConfigItem)
    requires
        !c.strict_mode,
    ensures
        r@ == with_identity(it@, *c),
{
    let mut attrs = copy_attrs(&it.attrs);
    if same_text(it.key.as_str(), "base") {
        attr_set(&mut attrs, "idVendor", c.vendor_id.as_str());
        attr_set(&mut attrs, "idProduct", c.product_id.as_str());
    } else if same_text(it.key.as_str(), "base_info") {
        attr_set(&mut attrs, "serialnumber", c.serial_number.as_str());
        attr_set(&mut attrs, "manufacturer", c.manufacturer.as_str());
        attr_set(&mut attrs, "product", c.product.as_str());
    }
    GadgetConfigItem {
        key: owned(it.key.as_str()),
        order: it.order,
        path: crate::discovery::copy_strings(&it.path),
        attrs,
        config_attrs: copy_attrs(&it.config_attrs),
        config_path: match &it.config_path {
            Some(p) => Some(crate::discovery::copy_strings(p)),
            None => None,
        },
        report_desc: it.report_desc,
    }
}


/// Whether a line of the mount table mounts configfs at its place: its
/// second field is `/sys/kernel/config` and its third `configfs`.
pub open spec fn configfs_line(line: Seq<char>) -> bool {
    let rest1 = crate::dev_mode::after_first_field(line);
    let rest2 = crate::dev_mode::after_first_field(rest1);
    crate::jiggler::first_field(rest1) == Some("/sys/kernel/config"@) && crate::jiggler::first_field(rest2) == Some(
        "configfs"@,
    )
}

/// The field of `line` that starts at `c` and ends at `d`, as `first_field`
/// sees the text from `from` on.
proof fn lemma_field_from(line: Seq<char>, from: int, c: int, d: int)
    requires
        0 <= from <= c <= d <= line.len(),
        c == from + crate::text::lead_ws(line.skip(from)),
        d == c + crate::jiggler::field_len(line.skip(c)),
    ensures
        line.skip(from).skip(crate::text::lead_ws(line.skip(from)) as int) == line.skip(c),
        crate::jiggler::first_field(line.skip(from)) == (if c < line.len() {
            Some(line.subrange(c, d))
        } else {
            None::<Seq<char>>
        }),
        crate::dev_mode::after_first_field(line.skip(from)) == line.skip(d),
{
    let t = line.skip(from);
    assert(t.skip(crate::text::lead_ws(t) as int) =~= line.skip(c));
    assert(line.skip(c).take(crate::jiggler::field_len(line.skip(c)) as int) =~= line.subrange(c, d));
    assert(line.skip(c).skip(crate::jiggler::field_len(line.skip(c)) as int) =~= line.skip(d));
}

/// Whether one line of the mount table mounts configfs at its place.
pub fn line_mounts_configfs(line: &[char]) -> (r: bool)
    ensures
        r == configfs_line(line@),
{
    let (a, b) = crate::dev_mode::field_at(line, 0);
    let (c, d) = crate::dev_mode::field_at(line, b);
    let (e, f) = crate::dev_mode::field_at(line, d);
    proof {
        assert(line@.skip(0) =~= line@);
        lemma_field_from(line@, 0, a as int, b as int);
        lemma_field_from(line@, b as int, c as int, d as int);
        lemma_field_from(line@, d as int, e as int, f as int);
    }
    if c == line.len() || e == line.len() {
        return false;
    }
    let mnt = crate::text::slice_range(line, c, d);
    let fst = crate::text::slice_range(line, e, f);
    let want_mnt = chars_of("/sys/kernel/config");
    let want_fs = chars_of("configfs");
    crate::text::chars_eq(mnt.as_slice(), want_mnt.as_slice()) && crate::text::chars_eq(
        fst.as_slice(),
        want_fs.as_slice(),
    )
}

/// Whether some line of a mount table mounts configfs.
pub open spec fn mounted_in(table: Seq<char>) -> bool {
    exists|i: int| 0 <= i < crate::text::lines_of(table).len() && configfs_line(
        #[trigger] crate::text::lines_of(table)[i],
    )
}

/// Whether configfs is mounted, from the mount table (not mounted when the
/// table could not be read): some line mounts it.
pub fn configfs_mounted(mounts: Option<&str>) -> (r: bool)
    ensures
        r == (match mounts {
            Some(m) => mounted_in(m@),
            None => false,
        }),
{
    if mounts.is_none() {
        return false;
    }
    let m = mounts.unwrap();
    assert(mounts == Some(m));
    let cs = chars_of(m);
    let ls = crate::text::lines(cs.as_slice());
    let ghost lv = ls@.map_values(|v: Vec<char>| v@);
    let mut i: usize = 0;
    while i < ls.len()
        invariant
            i <= ls@.len(),
            lv == ls@.map_values(|v: Vec<char>| v@),
            lv == crate::text::lines_of(m@),
            mounts == Some(m),
            forall|j: int| 0 <= j < i ==> !configfs_line(#[trigger] lv[j]),
        decreases ls@.len() - i,
    {
        if line_mounts_configfs(ls[i].as_slice()) {
            assert(lv[i as int] == ls@[i as int]@);
            assert(lv.len() == ls@.len());
            assert(0 <= i < crate::text::lines_of(m@).len());
            assert(configfs_line(crate::text::lines_of(m@)[i as int]));
            assert(mounted_in(m@));
            return true;
        }
        assert(lv[i as int] == ls@[i as int]@);
        i = i + 1;
    }
    assert forall|k: int| 0 <= k < crate::text::lines_of(m@).len() implies !configfs_line(
        #[trigger] crate::text::lines_of(m@)[k],
    ) by {
        assert(lv[k] == crate::text::lines_of(m@)[k]);
    }
    assert(!mounted_in(m@));
    false
}

} // verus!
