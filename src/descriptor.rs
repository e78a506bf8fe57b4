//! The endpoint resolver: a first-match search for an inbound endpoint over a
//! device's configuration, interface, alternate-setting and endpoint
//! descriptors, in declaration order.
use vstd::prelude::*;
use crate::protocol::ENDPOINT_IN;

verus! {

/// An addressable inbound endpoint, with the coordinates needed to claim it.
#[derive(Debug, Clone, Copy, PartialEq, Eq, Structural)]
pub struct Endpoint {
    pub config: u8,
    pub iface: u8,
    pub setting: u8,
    pub address: u8,
}

/// An endpoint descriptor; only its address byte matters here.
#[derive(Debug, Clone, Copy, PartialEq, Eq, Structural)]
pub struct EndpointDescriptor {
    pub address: u8,
}

/// One alternate setting of an interface.
#[derive(Debug, Clone)]
pub struct InterfaceSetting {
    pub interface_number: u8,
    pub setting_number: u8,
    pub endpoints: Vec<EndpointDescriptor>,
}

/// An interface, with its alternate settings in declaration order.
#[derive(Debug, Clone)]
pub struct Interface {
    pub settings: Vec<InterfaceSetting>,
}

/// A configuration descriptor, with its interfaces in declaration order.
#[derive(Debug, Clone)]
pub struct ConfigDescriptor {
    pub number: u8,
    pub interfaces: Vec<Interface>,
}

/// An endpoint carries data device-to-host when bit 7 of its address is set.
pub open spec fn is_inbound(address: u8) -> bool {
    address & ENDPOINT_IN == ENDPOINT_IN
}

impl EndpointDescriptor {
    pub fn is_in(&self) -> (r: bool)
        ensures
            r == is_inbound(self.address),
    {
        self.address & ENDPOINT_IN == ENDPOINT_IN
    }
}

/// First inbound endpoint among `eps[k..]`.
pub open spec fn first_in_endpoints(
    config: u8,
    s: InterfaceSetting,
    k: int,
) -> Option<Endpoint>
    decreases s.endpoints@.len() - k,
{
    if k < 0 || k >= s.endpoints@.len() {
        None
    } else if is_inbound(s.endpoints@[k].address) {
        Some(
            Endpoint {
                config,
                iface: s.interface_number,
                setting: s.setting_number,
                address: s.endpoints@[k].address,
            },
        )
    } else {
        first_in_endpoints(config, s, k + 1)
    }
}

/// First inbound endpoint among the alternate settings `settings[s..]`.
pub open spec fn first_in_settings(config: u8, i: Interface, s: int) -> Option<Endpoint>
    decreases i.settings@.len() - s,
{
    if s < 0 || s >= i.settings@.len() {
        None
    } else {
        match first_in_endpoints(config, i.settings@[s], 0) {
            Some(e) => Some(e),
            None => first_in_settings(config, i, s + 1),
        }
    }
}

/// First inbound endpoint among the interfaces `interfaces[i..]`.
pub open spec fn first_in_interfaces(c: ConfigDescriptor, i: int) -> Option<Endpoint>
    decreases c.interfaces@.len() - i,
{
    if i < 0 || i >= c.interfaces@.len() {
        None
    } else {
        match first_in_settings(c.number, c.interfaces@[i], 0) {
            Some(e) => Some(e),
            None => first_in_interfaces(c, i + 1),
        }
    }
}

/// First inbound endpoint among the configurations `configs[n..]`; an
/// unreadable configuration (`None`) is skipped.
pub open spec fn first_in_configs(configs: Seq<Option<ConfigDescriptor>>, n: int) -> Option<
    Endpoint,
>
    decreases configs.len() - n,
{
    if n < 0 || n >= configs.len() {
        None
    } else {
        match configs[n] {
            Some(c) => match first_in_interfaces(c, 0) {
                Some(e) => Some(e),
                None => first_in_configs(configs, n + 1),
            },
            None => first_in_configs(configs, n + 1),
        }
    }
}

/// The endpoint the resolver picks from a whole device.
pub open spec fn first_inbound(configs: Seq<Option<ConfigDescriptor>>) -> Option<Endpoint> {
    first_in_configs(configs, 0)
}

/// The alternate setting at coordinates `(i, s)` of configuration `c`.
pub open spec fn setting_at(c: ConfigDescriptor, i: int, s: int) -> InterfaceSetting {
    c.interfaces@[i].settings@[s]
}

/// An inbound endpoint is declared at configuration `n`, interface `i`,
/// alternate setting `s`, endpoint `k` of a device, and that configuration
/// was readable.
pub open spec fn inbound_at(
    t: Seq<Option<ConfigDescriptor>>,
    n: int,
    i: int,
    s: int,
    k: int,
) -> bool {
    &&& 0 <= n < t.len()
    &&& t[n] is Some
    &&& 0 <= i < t[n]->Some_0.interfaces@.len()
    &&& 0 <= s < t[n]->Some_0.interfaces@[i].settings@.len()
    &&& 0 <= k < setting_at(t[n]->Some_0, i, s).endpoints@.len()
    &&& is_inbound(setting_at(t[n]->Some_0, i, s).endpoints@[k].address)
}

/// The endpoint value that describes the endpoint at those coordinates.
pub open spec fn endpoint_at(t: Seq<Option<ConfigDescriptor>>, n: int, i: int, s: int, k: int) -> Endpoint {
    let c = t[n]->Some_0;
    let st = setting_at(c, i, s);
    Endpoint {
        config: c.number,
        iface: st.interface_number,
        setting: st.setting_number,
        address: st.endpoints@[k].address,
    }
}

/// Coordinates `(n2, i2, s2, k2)` come before `(n, i, s, k)` in declaration order.
pub open spec fn declared_before(
    n2: int,
    i2: int,
    s2: int,
    k2: int,
    n: int,
    i: int,
    s: int,
    k: int,
) -> bool {
    n2 < n || (n2 == n && (i2 < i || (i2 == i && (s2 < s || (s2 == s && k2 < k)))))
}

proof fn lemma_endpoints_none(config: u8, st: InterfaceSetting, k0: int, k: int)
    requires
        0 <= k0 <= k < st.endpoints@.len(),
        first_in_endpoints(config, st, k0) is None,
    ensures
        !is_inbound(st.endpoints@[k].address),
    decreases k - k0,
{
    if k0 < k {
        lemma_endpoints_none(config, st, k0 + 1, k);
    }
}

proof fn lemma_endpoints_some(config: u8, st: InterfaceSetting, k0: int) -> (k: int)
    requires
        0 <= k0,
        first_in_endpoints(config, st, k0) is Some,
    ensures
        k0 <= k < st.endpoints@.len(),
        is_inbound(st.endpoints@[k].address),
        first_in_endpoints(config, st, k0) == Some(
            Endpoint {
                config,
                iface: st.interface_number,
                setting: st.setting_number,
                address: st.endpoints@[k].address,
            },
        ),
        forall|j: int| k0 <= j < k ==> !is_inbound(#[trigger] st.endpoints@[j].address),
    decreases st.endpoints@.len() - k0,
{
    if is_inbound(st.endpoints@[k0].address) {
        k0
    } else {
        lemma_endpoints_some(config, st, k0 + 1)
    }
}

proof fn lemma_settings_none(config: u8, itf: Interface, s0: int, s: int)
    requires
        0 <= s0 <= s < itf.settings@.len(),
        first_in_settings(config, itf, s0) is None,
    ensures
        first_in_endpoints(config, itf.settings@[s], 0) is None,
    decreases s - s0,
{
    if s0 < s {
        lemma_settings_none(config, itf, s0 + 1, s);
    }
}

proof fn lemma_settings_some(config: u8, itf: Interface, s0: int) -> (s: int)
    requires
        0 <= s0,
        first_in_settings(config, itf, s0) is Some,
    ensures
        s0 <= s < itf.settings@.len(),
        first_in_settings(config, itf, s0) == first_in_endpoints(config, itf.settings@[s], 0),
        forall|j: int|
            s0 <= j < s ==> (#[trigger] first_in_endpoints(config, itf.settings@[j], 0)) is None,
    decreases itf.settings@.len() - s0,
{
    if first_in_endpoints(config, itf.settings@[s0], 0) is Some {
        s0
    } else {
        lemma_settings_some(config, itf, s0 + 1)
    }
}

proof fn lemma_interfaces_none(c: ConfigDescriptor, i0: int, i: int)
    requires
        0 <= i0 <= i < c.interfaces@.len(),
        first_in_interfaces(c, i0) is None,
    ensures
        first_in_settings(c.number, c.interfaces@[i], 0) is None,
    decreases i - i0,
{
    if i0 < i {
        lemma_interfaces_none(c, i0 + 1, i);
    }
}

proof fn lemma_interfaces_some(c: ConfigDescriptor, i0: int) -> (i: int)
    requires
        0 <= i0,
        first_in_interfaces(c, i0) is Some,
    ensures
        i0 <= i < c.interfaces@.len(),
        first_in_interfaces(c, i0) == first_in_settings(c.number, c.interfaces@[i], 0),
        forall|j: int|
            i0 <= j < i ==> (#[trigger] first_in_settings(c.number, c.interfaces@[j], 0)) is None,
    decreases c.interfaces@.len() - i0,
{
    if first_in_settings(c.number, c.interfaces@[i0], 0) is Some {
        i0
    } else {
        lemma_interfaces_some(c, i0 + 1)
    }
}

proof fn lemma_configs_none(t: Seq<Option<ConfigDescriptor>>, n0: int, n: int)
    requires
        0 <= n0 <= n < t.len(),
        t[n] is Some,
        first_in_configs(t, n0) is None,
    ensures
        first_in_interfaces(t[n]->Some_0, 0) is None,
    decreases n - n0,
{
    if n0 < n {
        lemma_configs_none(t, n0 + 1, n);
    }
}

proof fn lemma_configs_some(t: Seq<Option<ConfigDescriptor>>, n0: int) -> (n: int)
    requires
        0 <= n0,
        first_in_configs(t, n0) is Some,
    ensures
        n0 <= n < t.len(),
        t[n] is Some,
        first_in_configs(t, n0) == first_in_interfaces(t[n]->Some_0, 0),
        forall|j: int|
            n0 <= j < n && (#[trigger] t[j]) is Some ==> first_in_interfaces(t[j]->Some_0, 0) is None,
    decreases t.len() - n0,
{
    if t[n0] is Some && first_in_interfaces(t[n0]->Some_0, 0) is Some {
        n0
    } else {
        lemma_configs_some(t, n0 + 1)
    }
}

/// An endpoint inside a configuration, interface or setting whose search
/// found nothing is not inbound.
proof fn lemma_not_inbound_where_none(
    t: Seq<Option<ConfigDescriptor>>,
    n: int,
    i: int,
    s: int,
    k: int,
)
    requires
        0 <= n < t.len(),
        t[n] is Some,
        0 <= i < t[n]->Some_0.interfaces@.len(),
        0 <= s < t[n]->Some_0.interfaces@[i].settings@.len(),
        0 <= k < setting_at(t[n]->Some_0, i, s).endpoints@.len(),
        first_in_interfaces(t[n]->Some_0, 0) is None || first_in_settings(
            t[n]->Some_0.number,
            t[n]->Some_0.interfaces@[i],
            0,
        ) is None || first_in_endpoints(t[n]->Some_0.number, setting_at(t[n]->Some_0, i, s), 0) is None,
    ensures
        !inbound_at(t, n, i, s, k),
{
    let c = t[n]->Some_0;
    if first_in_interfaces(c, 0) is None {
        lemma_interfaces_none(c, 0, i);
    }
    if first_in_settings(c.number, c.interfaces@[i], 0) is None {
        lemma_settings_none(c.number, c.interfaces@[i], 0, s);
    }
    lemma_endpoints_none(c.number, setting_at(c, i, s), 0, k);
}

/// The resolver's result is the first inbound endpoint in declaration order:
/// it is absent exactly when the device declares no inbound endpoint in a
/// readable configuration, and otherwise it describes an inbound endpoint
/// before which, in configuration, interface, setting, endpoint order, no
/// other inbound endpoint is declared. Being a function of the tree alone,
/// the same tree always yields the same endpoint.
pub proof fn lemma_resolver_finds_first(t: Seq<Option<ConfigDescriptor>>)
    ensures
        first_inbound(t) is None <==> forall|n: int, i: int, s: int, k: int|
            !#[trigger] inbound_at(t, n, i, s, k),
        first_inbound(t) matches Some(e) ==> exists|n: int, i: int, s: int, k: int|
            #[trigger] inbound_at(t, n, i, s, k) && endpoint_at(t, n, i, s, k) == e && forall|
                n2: int,
                i2: int,
                s2: int,
                k2: int,
            |
                #[trigger] inbound_at(t, n2, i2, s2, k2) ==> !declared_before(
                    n2,
                    i2,
                    s2,
                    k2,
                    n,
                    i,
                    s,
                    k,
                ),
{
    if first_inbound(t) is None {
        assert forall|n: int, i: int, s: int, k: int| !#[trigger] inbound_at(t, n, i, s, k) by {
            if inbound_at(t, n, i, s, k) {
                lemma_configs_none(t, 0, n);
                lemma_not_inbound_where_none(t, n, i, s, k);
            }
        }
    } else {
        let n = lemma_configs_some(t, 0);
        let c = t[n]->Some_0;
        let i = lemma_interfaces_some(c, 0);
        let s = lemma_settings_some(c.number, c.interfaces@[i], 0);
        let k = lemma_endpoints_some(c.number, setting_at(c, i, s), 0);
        assert(inbound_at(t, n, i, s, k));
        assert(endpoint_at(t, n, i, s, k) == first_inbound(t)->Some_0);
        assert forall|n2: int, i2: int, s2: int, k2: int|
            #[trigger] inbound_at(t, n2, i2, s2, k2) implies !declared_before(
            n2,
            i2,
            s2,
            k2,
            n,
            i,
            s,
            k,
        ) by {
            if declared_before(n2, i2, s2, k2, n, i, s, k) {
                if n2 < n {
                    assert(t[n2] is Some);
                    lemma_not_inbound_where_none(t, n2, i2, s2, k2);
                } else if i2 < i {
                    lemma_not_inbound_where_none(t, n2, i2, s2, k2);
                } else if s2 < s {
                    lemma_not_inbound_where_none(t, n2, i2, s2, k2);
                }
            }
        }
    }
}

fn find_in_setting(config: u8, s: &InterfaceSetting) -> (r: Option<Endpoint>)
    ensures
        r == first_in_endpoints(config, *s, 0),
{
    let mut k: usize = 0;
    while k < s.endpoints.len()
        invariant
            k <= s.endpoints@.len(),
            first_in_endpoints(config, *s, 0) == first_in_endpoints(config, *s, k as int),
        decreases s.endpoints@.len() - k,
    {
        if s.endpoints[k].is_in() {
            return Some(
                Endpoint {
                    config,
                    iface: s.interface_number,
                    setting: s.setting_number,
                    address: s.endpoints[k].address,
                },
            );
        }
        k = k + 1;
    }
    None
}

fn find_in_interface(config: u8, iface: &Interface) -> (r: Option<Endpoint>)
    ensures
        r == first_in_settings(config, *iface, 0),
{
    let mut s: usize = 0;
    while s < iface.settings.len()
        invariant
            s <= iface.settings@.len(),
            first_in_settings(config, *iface, 0) == first_in_settings(config, *iface, s as int),
        decreases iface.settings@.len() - s,
    {
        let found = find_in_setting(config, &iface.settings[s]);
        if found.is_some() {
            return found;
        }
        s = s + 1;
    }
    None
}

fn find_in_config(c: &ConfigDescriptor) -> (r: Option<Endpoint>)
    ensures
        r == first_in_interfaces(*c, 0),
{
    let mut i: usize = 0;
    while i < c.interfaces.len()
        invariant
            i <= c.interfaces@.len(),
            first_in_interfaces(*c, 0) == first_in_interfaces(*c, i as int),
        decreases c.interfaces@.len() - i,
    {
        let found = find_in_interface(c.number, &c.interfaces[i]);
        if found.is_some() {
            return found;
        }
        i = i + 1;
    }
    None
}

/// Finds the first inbound endpoint in configuration, interface, alternate
/// setting, endpoint declaration order, skipping unreadable configurations;
/// `None` when the device has no inbound endpoint.
pub fn find_readable_endpoint(configs: &Vec<Option<ConfigDescriptor>>) -> (r: Option<Endpoint>)
    ensures
        r == first_inbound(configs@),
{
    let mut n: usize = 0;
    while n < configs.len()
        invariant
            n <= configs@.len(),
            first_in_configs(configs@, 0) == first_in_configs(configs@, n as int),
        decreases configs@.len() - n,
    {
        match &configs[n] {
            Some(c) => {
                let found = find_in_config(c);
                if found.is_some() {
                    return found;
                }
            },
            None => {},
        }
        n = n + 1;
    }
    None
}

} // verus!
