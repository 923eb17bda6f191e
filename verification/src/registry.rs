//! Device registry: the resolved set of devices to poll.
//!
//! A device is identity plus display data: its network address, a
//! human-readable alias resolved once at startup (falling back to a sentinel
//! when resolution failed), and a dimension prefix derived from the address
//! by normalizing the non-alphanumeric separators.  The wire client that
//! actually talks to the device lives outside the crate; alias resolution
//! hands its outcome in as a plain `Option<String>`.

use vstd::prelude::*;
use vstd::string::StrSliceExecFns;
use vstd::string::StringExecFns;

verus! {

/// Separator normalization applied to one character of an address: dots
/// become underscores, everything else is kept.
pub open spec fn prefix_char(c: char) -> char {
    if c == '.' {
        '_'
    } else {
        c
    }
}

/// The dimension prefix derived from a device address: the address with every
/// dot replaced by an underscore.
pub open spec fn prefix_spec(addr: Seq<char>) -> Seq<char> {
    addr.map_values(|c: char| prefix_char(c))
}

/// The alias recorded for a device, given the outcome of best-effort alias
/// resolution: the resolved name, or the sentinel when resolution failed.
pub open spec fn alias_spec(resolved: Option<Seq<char>>) -> Seq<char> {
    match resolved {
        Option::Some(a) => a,
        Option::None => "<unknown>"@,
    }
}

/// View of an `Option<String>` as an option of character sequences.
pub open spec fn option_str_view(o: Option<String>) -> Option<Seq<char>> {
    match o {
        Option::Some(s) => Option::Some(s@),
        Option::None => Option::None,
    }
}

/// Ghost image of one device.
#[verifier::ext_equal]
pub ghost struct DeviceView {
    pub address: Seq<char>,
    pub alias: Seq<char>,
    pub dimension_prefix: Seq<char>,
}

/// The device a registry records for a given address and alias-resolution
/// outcome.
pub open spec fn device_from(addr: Seq<char>, resolved: Option<Seq<char>>) -> DeviceView {
    DeviceView { address: addr, alias: alias_spec(resolved), dimension_prefix: prefix_spec(addr) }
}

/// Identity and display data for one metering device.  Created once at
/// startup, immutable afterwards.
#[derive(Clone, Debug)]
pub struct Device {
    pub address: String,
    pub alias: String,
    pub dimension_prefix: String,
}

impl View for Device {
    type V = DeviceView;

    open spec fn view(&self) -> DeviceView {
        DeviceView {
            address: self.address@,
            alias: self.alias@,
            dimension_prefix: self.dimension_prefix@,
        }
    }
}

impl Device {
    /// A device is well formed when its dimension prefix is the normalized
    /// image of its address.
    pub open spec fn wf(self) -> bool {
        self@.dimension_prefix == prefix_spec(self@.address)
    }

    /// Record one device: derive its dimension prefix from the address and
    /// apply the alias fallback.  A failed alias resolution (`None`) must not
    /// abort startup; the sentinel alias is used instead.
    pub fn new(address: String, resolved_alias: Option<String>) -> (d: Device)
        ensures
            d.wf(),
            d@ == device_from(address@, option_str_view(resolved_alias)),
    {
        let dimension_prefix = dimension_prefix_of(address.as_str());
        let alias = alias_or_fallback(resolved_alias);
        let d = Device { address, alias, dimension_prefix };
        proof {
            assert(d@ =~= device_from(d.address@, option_str_view(resolved_alias)));
        }
        d
    }

    /// The name under which this device is displayed by the sink:
    /// `alias (address)`.
    pub fn display_name(&self) -> (r: String)
        ensures
            r@ == self@.alias + " ("@ + self@.address + ")"@,
    {
        let mut r = self.alias.clone();
        r.append(" (");
        r.append(self.address.as_str());
        r.append(")");
        r
    }
}

/// Replace every dot in an address by an underscore, so the result can serve
/// as a dimension identifier fragment.
pub fn dimension_prefix_of(addr: &str) -> (r: String)
    ensures
        r@ == prefix_spec(addr@),
{
    proof {
        reveal_strlit("_");
    }
    let n = addr.unicode_len();
    let mut out = String::new();
    let mut i: usize = 0;
    while i < n
        invariant
            n == addr@.len(),
            i <= n,
            out@ =~= prefix_spec(addr@.subrange(0, i as int)),
            "_"@ =~= seq!['_'],
        decreases n - i,
    {
        let c = addr.get_char(i);
        if c == '.' {
            out.append("_");
        } else {
            let piece = addr.substring_char(i, i + 1);
            out.append(piece);
        }
        i = i + 1;
        proof {
            assert(addr@.subrange(0, i as int).map_values(|ch: char| prefix_char(ch)) =~= addr@
                .subrange(0, i - 1)
                .map_values(|ch: char| prefix_char(ch)) + seq![prefix_char(addr@[i - 1])]);
        }
    }
    proof {
        assert(addr@.subrange(0, n as int) =~= addr@);
    }
    out
}

/// The resolved alias, or the sentinel `<unknown>` when resolution failed.
pub fn alias_or_fallback(resolved: Option<String>) -> (r: String)
    ensures
        r@ == alias_spec(option_str_view(resolved)),
{
    match resolved {
        Option::Some(a) => a,
        Option::None => String::from_str("<unknown>"),
    }
}

/// Startup failure of the registry: the configured address list was empty.
/// This is the one fatal condition at registry construction.
#[derive(PartialEq, Eq, Structural, Clone, Copy, Debug)]
pub enum RegistryError {
    NoDevices,
}

/// The resolved, ordered set of devices to poll.  Read-only after startup.
pub struct DeviceRegistry {
    pub devices: Vec<Device>,
}

impl View for DeviceRegistry {
    type V = Seq<DeviceView>;

    open spec fn view(&self) -> Seq<DeviceView> {
        self.devices@.map_values(|d: Device| d@)
    }
}

impl DeviceRegistry {
    /// A registry is well formed when it holds at least one device and every
    /// device's prefix is derived from its address.
    pub open spec fn wf(self) -> bool {
        &&& self@.len() > 0
        &&& forall|i: int|
            0 <= i < self@.len() ==> (#[trigger] self@[i]).dimension_prefix == prefix_spec(
                self@[i].address,
            )
    }

    /// Number of devices.
    pub fn len(&self) -> (n: usize)
        ensures
            n == self@.len(),
    {
        self.devices.len()
    }

    /// Build the registry from the configured addresses and the per-address
    /// alias-resolution outcomes (`None` where resolution failed).  Fails if
    /// and only if the address list is empty; an unresolved alias never
    /// aborts startup.
    pub fn build(addresses: Vec<String>, resolved_aliases: Vec<Option<String>>) -> (r: Result<
        DeviceRegistry,
        RegistryError,
    >)
        requires
            resolved_aliases@.len() == addresses@.len(),
        ensures
            r is Ok <==> addresses@.len() > 0,
            r is Err ==> r == Result::<DeviceRegistry, RegistryError>::Err(
                RegistryError::NoDevices,
            ),
            r matches Ok(reg) ==> {
                &&& reg.wf()
                &&& reg@.len() == addresses@.len()
                &&& forall|i: int|
                    0 <= i < addresses@.len() ==> #[trigger] reg@[i] == device_from(
                        addresses@[i]@,
                        option_str_view(resolved_aliases@[i]),
                    )
            },
    {
        if addresses.len() == 0 {
            return Result::Err(RegistryError::NoDevices);
        }
        let n = addresses.len();
        let mut devices: Vec<Device> = Vec::new();
        let mut i: usize = 0;
        while i < n
            invariant
                n == addresses@.len(),
                resolved_aliases@.len() == addresses@.len(),
                i <= n,
                devices@.len() == i,
                forall|j: int|
                    0 <= j < i ==> (#[trigger] devices@[j])@ == device_from(
                        addresses@[j]@,
                        option_str_view(resolved_aliases@[j]),
                    ),
            decreases n - i,
        {
            let resolved = match &resolved_aliases[i] {
                Option::Some(a) => Option::Some(a.clone()),
                Option::None => Option::None,
            };
            let d = Device::new(addresses[i].clone(), resolved);
            devices.push(d);
            i = i + 1;
        }
        let reg = DeviceRegistry { devices };
        Result::Ok(reg)
    }
}

} // verus!
