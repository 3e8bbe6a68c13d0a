//! The device-information aggregator.
//!
//! One snapshot is assembled from five independent device
//! interactions: connected displays, screen resolution, the network
//! interface list, one IP-settings lookup per connected interface,
//! and the property store (identity fields and uptime).  This module
//! orders the interfaces deterministically, enriches them with IP
//! data under the graceful-degradation policy, classifies the display,
//! derives the uptime origin and assembles the snapshot.  The caller
//! performs the outside calls and hands their parsed replies in.

use vstd::prelude::*;

use crate::error::DabError;
use crate::text::{contains_sub, str_contains, str_eq};

verus! {

/// The kind of a network interface.
#[derive(PartialEq, Eq, Structural, Clone, Copy, Debug)]
pub enum NetworkInterfaceType {
    Ethernet,
    Wifi,
    Other,
}

/// How the device's video output is classified.
#[derive(PartialEq, Eq, Structural, Clone, Copy, Debug)]
pub enum DisplayType {
    Native,
    External,
}

/// One entry of the device's interface-list reply, as reported.
pub struct RawInterface {
    pub name: String,
    pub mac_address: String,
    pub enabled: bool,
    pub connected: bool,
}

/// One interface with its reported name classified.
pub struct DeviceInterface {
    pub name: String,
    pub if_type: NetworkInterfaceType,
    pub connected: bool,
    pub mac_address: String,
}

/// The classification of a reported interface name.
pub open spec fn spec_classify(name: Seq<char>) -> NetworkInterfaceType {
    if name == "ETHERNET"@ {
        NetworkInterfaceType::Ethernet
    } else if name == "WIFI"@ {
        NetworkInterfaceType::Wifi
    } else {
        NetworkInterfaceType::Other
    }
}

/// Classifies a reported interface name.
pub fn classify_interface(name: &str) -> (r: NetworkInterfaceType)
    ensures
        r == spec_classify(name@),
{
    if str_eq(name, "ETHERNET") {
        NetworkInterfaceType::Ethernet
    } else if str_eq(name, "WIFI") {
        NetworkInterfaceType::Wifi
    } else {
        NetworkInterfaceType::Other
    }
}

/// The ordering rank of an interface kind: Ethernet before Wifi
/// before everything else.
pub open spec fn type_rank(t: NetworkInterfaceType) -> int {
    match t {
        NetworkInterfaceType::Ethernet => 0,
        NetworkInterfaceType::Wifi => 1,
        NetworkInterfaceType::Other => 2,
    }
}

/// The two-key sort key of an interface: connected interfaces first,
/// then by kind.  Its six possible values are 0 through 5.
pub open spec fn iface_key(i: DeviceInterface) -> int {
    (if i.connected {
        0int
    } else {
        3int
    }) + type_rank(i.if_type)
}

/// The predicate selecting interfaces whose sort key is `k`.
pub open spec fn key_pred(k: int) -> spec_fn(DeviceInterface) -> bool {
    |x: DeviceInterface| iface_key(x) == k
}

/// The deterministic interface order: the six key classes
/// concatenated in key order, each class keeping the reported order.
pub open spec fn spec_sort(s: Seq<DeviceInterface>) -> Seq<DeviceInterface> {
    s.filter(key_pred(0)) + s.filter(key_pred(1)) + s.filter(key_pred(2)) + s.filter(key_pred(3))
        + s.filter(key_pred(4)) + s.filter(key_pred(5))
}

/// The classification of a whole interface-list reply, in reported
/// order.
pub open spec fn spec_classified(s: Seq<RawInterface>) -> Seq<DeviceInterface> {
    s.map_values(
        |r: RawInterface|
            DeviceInterface {
                name: r.name,
                if_type: spec_classify(r.name@),
                connected: r.connected,
                mac_address: r.mac_address,
            },
    )
}

/// Appending one element extends a filtered sequence by that element
/// exactly when the element satisfies the predicate.
proof fn lemma_filter_push(s: Seq<DeviceInterface>, pred: spec_fn(DeviceInterface) -> bool, x: DeviceInterface)
    ensures
        s.push(x).filter(pred) == (if pred(x) {
            s.filter(pred).push(x)
        } else {
            s.filter(pred)
        }),
{
    assert(s.push(x).drop_last() =~= s);
    assert(s.push(x).last() == x);
    reveal(Seq::filter);
}

/// Sorts classified interfaces by the two-key rule: connected before
/// disconnected, Ethernet before Wifi before other kinds, and the
/// reported order kept within each class.
pub fn sort_interfaces(v: Vec<DeviceInterface>) -> (r: Vec<DeviceInterface>)
    ensures
        r@ == spec_sort(v@),
{
    let ghost orig = v@;
    let mut input = v;
    let mut b0: Vec<DeviceInterface> = Vec::new();
    let mut b1: Vec<DeviceInterface> = Vec::new();
    let mut b2: Vec<DeviceInterface> = Vec::new();
    let mut b3: Vec<DeviceInterface> = Vec::new();
    let mut b4: Vec<DeviceInterface> = Vec::new();
    let mut b5: Vec<DeviceInterface> = Vec::new();
    let ghost mut done: Seq<DeviceInterface> = Seq::empty();
    proof {
        assert(orig =~= done + input@);
        assert(done.filter(key_pred(0)) =~= Seq::<DeviceInterface>::empty());
        assert(done.filter(key_pred(1)) =~= Seq::<DeviceInterface>::empty());
        assert(done.filter(key_pred(2)) =~= Seq::<DeviceInterface>::empty());
        assert(done.filter(key_pred(3)) =~= Seq::<DeviceInterface>::empty());
        assert(done.filter(key_pred(4)) =~= Seq::<DeviceInterface>::empty());
        assert(done.filter(key_pred(5)) =~= Seq::<DeviceInterface>::empty());
    }
    while input.len() > 0
        invariant
            orig == done + input@,
            b0@ == done.filter(key_pred(0)),
            b1@ == done.filter(key_pred(1)),
            b2@ == done.filter(key_pred(2)),
            b3@ == done.filter(key_pred(3)),
            b4@ == done.filter(key_pred(4)),
            b5@ == done.filter(key_pred(5)),
        decreases input.len(),
    {
        let x = input.remove(0);
        proof {
            lemma_filter_push(done, key_pred(0), x);
            lemma_filter_push(done, key_pred(1), x);
            lemma_filter_push(done, key_pred(2), x);
            lemma_filter_push(done, key_pred(3), x);
            lemma_filter_push(done, key_pred(4), x);
            lemma_filter_push(done, key_pred(5), x);
        }
        let connected = x.connected;
        let rank: u8 = match x.if_type {
            NetworkInterfaceType::Ethernet => 0,
            NetworkInterfaceType::Wifi => 1,
            NetworkInterfaceType::Other => 2,
        };
        let k: u8 = if connected {
            rank
        } else {
            3 + rank
        };
        proof {
            assert(k as int == iface_key(x));
        }
        if k == 0 {
            b0.push(x);
        } else if k == 1 {
            b1.push(x);
        } else if k == 2 {
            b2.push(x);
        } else if k == 3 {
            b3.push(x);
        } else if k == 4 {
            b4.push(x);
        } else {
            b5.push(x);
        }
        proof {
            done = done.push(x);
            assert(orig =~= done + input@);
        }
    }
    proof {
        assert(done =~= orig);
    }
    let mut r = b0;
    r.append(&mut b1);
    r.append(&mut b2);
    r.append(&mut b3);
    r.append(&mut b4);
    r.append(&mut b5);
    r
}

/// Classifies every entry of an interface-list reply, keeping the
/// reported order.
pub fn classify_interfaces(raw: Vec<RawInterface>) -> (r: Vec<DeviceInterface>)
    ensures
        r@ == spec_classified(raw@),
{
    let ghost orig = raw@;
    let mut input = raw;
    let mut out: Vec<DeviceInterface> = Vec::new();
    let ghost mut done: Seq<RawInterface> = Seq::empty();
    proof {
        assert(orig =~= done + input@);
        assert(out@ =~= spec_classified(done));
    }
    while input.len() > 0
        invariant
            orig == done + input@,
            out@ == spec_classified(done),
        decreases input.len(),
    {
        let x = input.remove(0);
        let if_type = classify_interface(x.name.as_str());
        let d = DeviceInterface { name: x.name, if_type, connected: x.connected, mac_address: x.mac_address };
        out.push(d);
        proof {
            done = done.push(x);
            assert(orig =~= done + input@);
            assert(out@ =~= spec_classified(done));
        }
    }
    proof {
        assert(done =~= orig);
    }
    out
}

/// Classifies and orders an interface-list reply: the deterministic
/// emission order of the snapshot.
pub fn prepare_interfaces(raw: Vec<RawInterface>) -> (r: Vec<DeviceInterface>)
    ensures
        r@ == spec_sort(spec_classified(raw@)),
{
    let classified = classify_interfaces(raw);
    sort_interfaces(classified)
}

/// The key class that position `i` of the sorted order falls in.
pub open spec fn seg_of(s: Seq<DeviceInterface>, i: int) -> int {
    let l0 = s.filter(key_pred(0)).len();
    let l1 = s.filter(key_pred(1)).len();
    let l2 = s.filter(key_pred(2)).len();
    let l3 = s.filter(key_pred(3)).len();
    let l4 = s.filter(key_pred(4)).len();
    if i < l0 {
        0
    } else if i < l0 + l1 {
        1
    } else if i < l0 + l1 + l2 {
        2
    } else if i < l0 + l1 + l2 + l3 {
        3
    } else if i < l0 + l1 + l2 + l3 + l4 {
        4
    } else {
        5
    }
}

/// Each position of the sorted order holds an interface of exactly
/// the key class the position falls in.
proof fn lemma_seg(s: Seq<DeviceInterface>, i: int)
    requires
        0 <= i < spec_sort(s).len(),
    ensures
        iface_key(spec_sort(s)[i]) == seg_of(s, i),
{
    let t = spec_sort(s);
    let f0 = s.filter(key_pred(0));
    let f1 = s.filter(key_pred(1));
    let f2 = s.filter(key_pred(2));
    let f3 = s.filter(key_pred(3));
    let f4 = s.filter(key_pred(4));
    let f5 = s.filter(key_pred(5));
    let l0 = f0.len() as int;
    let l1 = f1.len() as int;
    let l2 = f2.len() as int;
    let l3 = f3.len() as int;
    let l4 = f4.len() as int;
    if i < l0 {
        assert(t[i] == f0[i]);
        s.lemma_filter_pred(key_pred(0), i);
    } else if i < l0 + l1 {
        assert(t[i] == f1[i - l0]);
        s.lemma_filter_pred(key_pred(1), i - l0);
    } else if i < l0 + l1 + l2 {
        assert(t[i] == f2[i - l0 - l1]);
        s.lemma_filter_pred(key_pred(2), i - l0 - l1);
    } else if i < l0 + l1 + l2 + l3 {
        assert(t[i] == f3[i - l0 - l1 - l2]);
        s.lemma_filter_pred(key_pred(3), i - l0 - l1 - l2);
    } else if i < l0 + l1 + l2 + l3 + l4 {
        assert(t[i] == f4[i - l0 - l1 - l2 - l3]);
        s.lemma_filter_pred(key_pred(4), i - l0 - l1 - l2 - l3);
    } else {
        assert(t[i] == f5[i - l0 - l1 - l2 - l3 - l4]);
        s.lemma_filter_pred(key_pred(5), i - l0 - l1 - l2 - l3 - l4);
    }
}

/// The emitted interface order is sorted by the two-key rule: every
/// connected interface precedes every disconnected one, and within
/// equal connectivity Ethernet precedes Wifi precedes other kinds.
pub proof fn lemma_interface_ordering(s: Seq<DeviceInterface>)
    ensures
        forall|i: int, j: int|
            0 <= i < j < spec_sort(s).len() ==> iface_key(#[trigger] spec_sort(s)[i])
                <= iface_key(#[trigger] spec_sort(s)[j]),
        forall|i: int, j: int|
            0 <= i < j < spec_sort(s).len() && (#[trigger] spec_sort(s)[j]).connected ==> (
            #[trigger] spec_sort(s)[i]).connected,
        forall|i: int, j: int|
            0 <= i < j < spec_sort(s).len() && (#[trigger] spec_sort(s)[i]).connected == (
            #[trigger] spec_sort(s)[j]).connected ==> type_rank(spec_sort(s)[i].if_type)
                <= type_rank(spec_sort(s)[j].if_type),
{
    assert forall|i: int, j: int| 0 <= i < j < spec_sort(s).len() implies iface_key(
        #[trigger] spec_sort(s)[i],
    ) <= iface_key(#[trigger] spec_sort(s)[j]) by {
        lemma_seg(s, i);
        lemma_seg(s, j);
    }
}

/// A scalar JSON value as the IP-settings reply delivers it: the
/// device is known to deliver addresses and DNS entries either as a
/// JSON string or as a JSON number, and a number stands here as its
/// decimal rendering.  Anything else is not a scalar.
pub enum JsonScalar {
    Text(String),
    Number(String),
    Other,
}

/// The normalized string form of a scalar: a string and a number with
/// the same rendering normalize to the same string; a non-scalar has
/// none.
pub open spec fn spec_scalar_string(v: JsonScalar) -> Option<Seq<char>> {
    match v {
        JsonScalar::Text(s) => Some(s@),
        JsonScalar::Number(n) => Some(n@),
        JsonScalar::Other => None,
    }
}

/// Normalizes a scalar to its string form.
pub fn scalar_string(v: JsonScalar) -> (r: Option<String>)
    ensures
        match r {
            Some(s) => spec_scalar_string(v) == Some(s@),
            None => spec_scalar_string(v) is None,
        },
{
    match v {
        JsonScalar::Text(s) => Some(s),
        JsonScalar::Number(n) => Some(n),
        JsonScalar::Other => None,
    }
}

/// Type coercion is uniform: a value delivered as a JSON number
/// normalizes to exactly the string it would have normalized to had
/// it been delivered as a JSON string.
pub proof fn lemma_number_normalizes_as_text(s: String, n: String)
    requires
        s@ == n@,
    ensures
        spec_scalar_string(JsonScalar::Text(s)) == spec_scalar_string(JsonScalar::Number(n)),
{
}

/// The parsed result of one IP-settings call: the logical success
/// flag and the three scalar fields of interest, each absent when the
/// reply did not carry it.
pub struct IpSettingsReply {
    pub success: bool,
    pub ip_address: Option<JsonScalar>,
    pub primary_dns: Option<JsonScalar>,
    pub secondary_dns: Option<JsonScalar>,
}

/// One emitted interface of the snapshot.  `ip_address` and `dns` are
/// populated only for a connected interface whose IP-settings call
/// succeeded logically.
pub struct NetworkInterface {
    pub if_type: NetworkInterfaceType,
    pub connected: bool,
    pub mac_address: String,
    pub ip_address: String,
    pub dns: Vec<String>,
}

/// The emitted IP address: the normalized `ipaddr` field of a
/// logically successful reply, and empty in every other case.
pub open spec fn spec_ip_of(ip: Option<IpSettingsReply>) -> Seq<char> {
    match ip {
        Option::None => Seq::empty(),
        Option::Some(rep) => if !rep.success {
            Seq::empty()
        } else {
            match rep.ip_address {
                Option::Some(v) => match spec_scalar_string(v) {
                    Option::Some(t) => t,
                    Option::None => Seq::empty(),
                },
                Option::None => Seq::empty(),
            }
        },
    }
}

/// The DNS entries one reply field contributes: its normalized string
/// form, unless the field is absent, not a scalar, or empty (empty
/// strings are dropped, not appended).
pub open spec fn spec_dns_entry(v: Option<JsonScalar>) -> Seq<Seq<char>> {
    match v {
        Option::Some(x) => match spec_scalar_string(x) {
            Option::Some(t) => if t.len() > 0 {
                seq![t]
            } else {
                Seq::empty()
            },
            Option::None => Seq::empty(),
        },
        Option::None => Seq::empty(),
    }
}

/// The emitted DNS list: primary then secondary entry of a logically
/// successful reply, empty entries dropped, and empty in every other
/// case.
pub open spec fn spec_dns_of(ip: Option<IpSettingsReply>) -> Seq<Seq<char>> {
    match ip {
        Option::None => Seq::empty(),
        Option::Some(rep) => if !rep.success {
            Seq::empty()
        } else {
            spec_dns_entry(rep.primary_dns) + spec_dns_entry(rep.secondary_dns)
        },
    }
}

/// How one emitted interface relates to its classified source and the
/// outcome of its IP-settings lookup (`None` when no lookup was
/// attempted).
pub open spec fn emit_matches(
    i: DeviceInterface,
    ip: Option<IpSettingsReply>,
    out: NetworkInterface,
) -> bool {
    &&& out.if_type == i.if_type
    &&& out.connected == i.connected
    &&& out.mac_address@ == i.mac_address@
    &&& out.ip_address@ == spec_ip_of(ip)
    &&& out.dns.deep_view() == spec_dns_of(ip)
}

/// Emits one interface record.
///
/// A reply whose logical success flag is false degrades gracefully:
/// the interface is still emitted, with its kind, connectivity and
/// MAC address, but without IP or DNS data.  A successful reply has
/// its address and DNS entries normalized to string form and empty
/// DNS strings dropped.
pub fn emit_interface(iface: DeviceInterface, ip: Option<IpSettingsReply>) -> (r: NetworkInterface)
    ensures
        emit_matches(iface, ip, r),
{
    let ghost gip = ip;
    let mut ip_address = String::new();
    let mut dns: Vec<String> = Vec::new();
    match ip {
        Option::None => {},
        Option::Some(rep) => {
            if rep.success {
                match rep.ip_address {
                    Option::Some(v) => {
                        match scalar_string(v) {
                            Option::Some(t) => {
                                ip_address = t;
                            },
                            Option::None => {},
                        }
                    },
                    Option::None => {},
                }
                match rep.primary_dns {
                    Option::Some(v) => {
                        match scalar_string(v) {
                            Option::Some(t) => {
                                if !t.as_str().is_empty() {
                                    dns.push(t);
                                }
                            },
                            Option::None => {},
                        }
                    },
                    Option::None => {},
                }
                match rep.secondary_dns {
                    Option::Some(v) => {
                        match scalar_string(v) {
                            Option::Some(t) => {
                                if !t.as_str().is_empty() {
                                    dns.push(t);
                                }
                            },
                            Option::None => {},
                        }
                    },
                    Option::None => {},
                }
            }
        },
    }
    proof {
        assert(ip_address@ == spec_ip_of(gip));
        assert(dns.deep_view() =~= spec_dns_of(gip));
    }
    NetworkInterface {
        if_type: iface.if_type,
        connected: iface.connected,
        mac_address: iface.mac_address,
        ip_address,
        dns,
    }
}

/// How many interfaces of `s` are connected: the number of
/// IP-settings lookups the aggregation pass issues.
pub open spec fn connected_count(s: Seq<DeviceInterface>) -> nat
    decreases s.len(),
{
    if s.len() == 0 {
        0
    } else {
        (if s[0].connected {
            1nat
        } else {
            0nat
        }) + connected_count(s.drop_first())
    }
}

/// The emitted records `out` are exactly the interfaces of `ifaces`
/// in order, each connected one enriched with the next reply of
/// `replies` in turn, each disconnected one emitted bare.
pub open spec fn emits(
    ifaces: Seq<DeviceInterface>,
    replies: Seq<IpSettingsReply>,
    out: Seq<NetworkInterface>,
) -> bool
    decreases ifaces.len(),
{
    if ifaces.len() == 0 {
        out.len() == 0 && replies.len() == 0
    } else if out.len() == 0 {
        false
    } else if ifaces[0].connected {
        replies.len() > 0 && emit_matches(ifaces[0], Option::Some(replies[0]), out[0]) && emits(
            ifaces.drop_first(),
            replies.drop_first(),
            out.drop_first(),
        )
    } else {
        emit_matches(ifaces[0], Option::None, out[0]) && emits(
            ifaces.drop_first(),
            replies,
            out.drop_first(),
        )
    }
}

/// Emits all interface records of one aggregation pass.
///
/// `ifaces` is the classified, sorted interface list; `replies` holds
/// the IP-settings outcome of each connected interface, in the same
/// order.  Disconnected interfaces get no lookup and are emitted
/// bare.
pub fn build_network_interfaces(ifaces: Vec<DeviceInterface>, replies: Vec<IpSettingsReply>) -> (r:
    Vec<NetworkInterface>)
    requires
        replies@.len() == connected_count(ifaces@),
    ensures
        emits(ifaces@, replies@, r@),
    decreases ifaces@.len(),
{
    let ghost gifaces = ifaces@;
    let ghost greplies = replies@;
    let mut ifaces = ifaces;
    let mut replies = replies;
    if ifaces.len() == 0 {
        let r: Vec<NetworkInterface> = Vec::new();
        return r;
    }
    let head = ifaces.remove(0);
    let ghost ghead = head;
    proof {
        assert(ifaces@ =~= gifaces.drop_first());
    }
    if head.connected {
        let rep = replies.remove(0);
        let ghost grep = rep;
        proof {
            assert(replies@ =~= greplies.drop_first());
        }
        let out0 = emit_interface(head, Option::Some(rep));
        let mut rest = build_network_interfaces(ifaces, replies);
        let ghost grest = rest@;
        rest.insert(0, out0);
        proof {
            assert(rest@.drop_first() =~= grest);
            assert(rest@[0] == out0);
            assert(emit_matches(ghead, Option::Some(grep), out0));
            assert(emits(gifaces, greplies, rest@));
        }
        rest
    } else {
        let out0 = emit_interface(head, Option::None);
        let mut rest = build_network_interfaces(ifaces, replies);
        let ghost grest = rest@;
        rest.insert(0, out0);
        proof {
            assert(rest@.drop_first() =~= grest);
            assert(rest@[0] == out0);
            assert(emit_matches(ghead, Option::None, out0));
            assert(emits(gifaces, greplies, rest@));
        }
        rest
    }
}

/// The display classification rule: an external display exactly when
/// the connected-displays list is non-empty and its first entry's
/// identifier contains "HDMI".
pub open spec fn spec_display_type(displays: Seq<Seq<char>>) -> DisplayType {
    if displays.len() > 0 && contains_sub(displays[0], "HDMI"@) {
        DisplayType::External
    } else {
        DisplayType::Native
    }
}

/// Classifies the device's display from the connected-displays list.
pub fn classify_display(displays: &Vec<String>) -> (r: DisplayType)
    ensures
        r == spec_display_type(displays.deep_view()),
{
    if displays.len() > 0 {
        let first = &displays[0];
        proof {
            assert(displays.deep_view()[0] == first@);
        }
        if str_contains(first.as_str(), "HDMI") {
            return DisplayType::External;
        }
    }
    DisplayType::Native
}

/// A decimal digit.
pub open spec fn is_digit(c: char) -> bool {
    48 <= c as u32 <= 57
}

/// The numeric value of a digit character.
pub open spec fn digit_val(c: char) -> int {
    c as u32 - 48
}

/// Every character of `s` is a decimal digit.
pub open spec fn all_digits(s: Seq<char>) -> bool {
    forall|i: int| 0 <= i < s.len() ==> is_digit(#[trigger] s[i])
}

/// The value of a digit string read as a decimal number.
pub open spec fn dec_val(s: Seq<char>) -> int
    decreases s.len(),
{
    if s.len() == 0 {
        0
    } else {
        dec_val(s.drop_last()) * 10 + digit_val(s.last())
    }
}

/// The uptime reading of a property string: its decimal value, or 0
/// when the string is not a plain decimal number that fits.
pub open spec fn spec_uptime_seconds(s: Seq<char>) -> u64 {
    if s.len() > 0 && all_digits(s) && dec_val(s) <= u64::MAX {
        dec_val(s) as u64
    } else {
        0u64
    }
}

proof fn lemma_dec_val_nonneg(s: Seq<char>)
    requires
        all_digits(s),
    ensures
        dec_val(s) >= 0,
    decreases s.len(),
{
    if s.len() > 0 {
        assert(all_digits(s.drop_last())) by {
            assert(forall|i: int|
                0 <= i < s.len() - 1 ==> #[trigger] s.drop_last()[i] == s[i]);
        }
        lemma_dec_val_nonneg(s.drop_last());
    }
}

/// A digit string is worth at least as much as any of its prefixes.
proof fn lemma_dec_val_prefix(s: Seq<char>, i: int)
    requires
        0 <= i <= s.len(),
        all_digits(s),
    ensures
        dec_val(s.take(i)) <= dec_val(s),
    decreases s.len() - i,
{
    if i < s.len() {
        assert(s.take(i + 1).drop_last() =~= s.take(i));
        assert(s.take(i + 1).last() == s[i]);
        assert(all_digits(s.take(i))) by {
            assert(forall|k: int| 0 <= k < i ==> #[trigger] s.take(i)[k] == s[k]);
        }
        lemma_dec_val_nonneg(s.take(i));
        assert(dec_val(s.take(i + 1)) == dec_val(s.take(i)) * 10 + digit_val(s[i]));
        assert(dec_val(s.take(i)) * 10 >= dec_val(s.take(i))) by (nonlinear_arith)
            requires dec_val(s.take(i)) >= 0;
        lemma_dec_val_prefix(s, i + 1);
    } else {
        assert(s.take(i) =~= s);
    }
}

/// Reads the uptime property: the string's value as a decimal number
/// of seconds, or 0 when the string is not a decimal number or its
/// value does not fit.
pub fn parse_uptime_seconds(s: &str) -> (r: u64)
    ensures
        r == spec_uptime_seconds(s@),
{
    let len = s.unicode_len();
    if len == 0 {
        return 0;
    }
    let mut acc: u64 = 0;
    let mut i: usize = 0;
    while i < len
        invariant
            len == s@.len(),
            0 < len,
            i <= len,
            all_digits(s@.take(i as int)),
            acc == dec_val(s@.take(i as int)),
        decreases len - i,
    {
        let c = s.get_char(i);
        let u = c as u32;
        if u < 48 || u > 57 {
            proof {
                assert(!all_digits(s@));
            }
            return 0;
        }
        let d: u64 = (u - 48) as u64;
        proof {
            assert(s@.take(i as int + 1).drop_last() =~= s@.take(i as int));
            assert(s@.take(i as int + 1).last() == s@[i as int]);
            assert(all_digits(s@.take(i as int + 1))) by {
                assert(forall|k: int|
                    0 <= k < i + 1 ==> #[trigger] s@.take(i as int + 1)[k] == s@[k]);
            }
        }
        let stepped = match acc.checked_mul(10) {
            Some(m) => m.checked_add(d),
            None => None,
        };
        match stepped {
            Some(v) => {
                acc = v;
            },
            None => {
                proof {
                    assert(dec_val(s@.take(i as int + 1)) > u64::MAX);
                    if all_digits(s@) {
                        lemma_dec_val_prefix(s@, i as int + 1);
                        assert(dec_val(s@) > u64::MAX);
                    }
                }
                return 0;
            },
        }
        i += 1;
    }
    proof {
        assert(s@.take(i as int) =~= s@);
    }
    acc
}

/// How long the snapshot says the device has been up: the wall-clock
/// origin of the current uptime, in milliseconds since the epoch.
///
/// Fails with a request-class error when the reported uptime reaches
/// back before the epoch, which no consistent pair of clock readings
/// produces.
pub fn uptime_since(now_ms: u64, uptime_s: u64) -> (r: Result<u64, DabError>)
    ensures
        uptime_s * 1000 <= now_ms ==> (r matches Ok(v) && v == now_ms - uptime_s * 1000),
        uptime_s * 1000 > now_ms ==> (r matches Err(e) && e is Err400 && e.spec_message()
            == "uptime exceeds current time"@),
{
    match uptime_s.checked_mul(1000) {
        Some(up_ms) => {
            if up_ms <= now_ms {
                Ok(now_ms - up_ms)
            } else {
                Err(DabError::Err400("uptime exceeds current time".to_owned()))
            }
        },
        None => Err(DabError::Err400("uptime exceeds current time".to_owned())),
    }
}

/// The static identity fields of the device, read from the property
/// store.
pub struct DeviceIdentity {
    pub manufacturer: String,
    pub model: String,
    pub serial_number: String,
    pub chipset: String,
    pub firmware_version: String,
    pub firmware_build: String,
}

/// Builds the identity block from the property readings.  The device
/// reports one firmware string, which fills both the version and the
/// build field.
pub fn build_identity(
    manufacturer: String,
    model: String,
    serial_number: String,
    chipset: String,
    firmware: String,
) -> (r: DeviceIdentity)
    ensures
        r.manufacturer == manufacturer,
        r.model == model,
        r.serial_number == serial_number,
        r.chipset == chipset,
        r.firmware_version@ == firmware@,
        r.firmware_build@ == firmware@,
{
    let build = firmware.clone();
    DeviceIdentity {
        manufacturer,
        model,
        serial_number,
        chipset,
        firmware_version: firmware,
        firmware_build: build,
    }
}

/// The parsed connected-displays reply.
pub struct DisplaysReply {
    pub displays: Vec<String>,
    pub success: bool,
}

/// The parsed screen-resolution reply.
pub struct ScreenResolutionReply {
    pub width: u32,
    pub height: u32,
    pub success: bool,
}

/// One consistent device-information snapshot.
pub struct DeviceSnapshot {
    pub manufacturer: String,
    pub model: String,
    pub serial_number: String,
    pub chipset: String,
    pub firmware_version: String,
    pub firmware_build: String,
    pub uptime_since: u64,
    pub screen_width_pixels: u32,
    pub screen_height_pixels: u32,
    pub device_id: String,
    pub display_type: DisplayType,
    pub network_interfaces: Vec<NetworkInterface>,
}

/// Assembles the snapshot from the replies of one aggregation pass.
///
/// The logical success flag is honored uniformly: a mandatory reply
/// that reports failure aborts the pass with a server-class error (no
/// partial snapshot is ever returned).  The display classification and
/// the uptime origin are derived here; the interface records arrive
/// already emitted.
pub fn assemble_snapshot(
    identity: DeviceIdentity,
    displays: DisplaysReply,
    resolution: ScreenResolutionReply,
    network_interfaces: Vec<NetworkInterface>,
    device_id: String,
    now_ms: u64,
    uptime_s: u64,
) -> (r: Result<DeviceSnapshot, DabError>)
    ensures
        !displays.success ==> (r matches Err(e) && e is Err500 && e.spec_message()
            == "connected-displays call reported failure"@),
        displays.success && !resolution.success ==> (r matches Err(e) && e is Err500
            && e.spec_message() == "screen-resolution call reported failure"@),
        displays.success && resolution.success && uptime_s * 1000 > now_ms ==> (r matches Err(e)
            && e is Err400 && e.spec_message() == "uptime exceeds current time"@),
        displays.success && resolution.success && uptime_s * 1000 <= now_ms ==> (r matches Ok(snap)
            && snap.manufacturer == identity.manufacturer && snap.model == identity.model
            && snap.serial_number == identity.serial_number && snap.chipset == identity.chipset
            && snap.firmware_version == identity.firmware_version && snap.firmware_build
            == identity.firmware_build && snap.uptime_since == now_ms - uptime_s * 1000
            && snap.screen_width_pixels == resolution.width && snap.screen_height_pixels
            == resolution.height && snap.device_id == device_id && snap.display_type
            == spec_display_type(displays.displays.deep_view()) && snap.network_interfaces
            == network_interfaces),
{
    if !displays.success {
        return Err(DabError::Err500("connected-displays call reported failure".to_owned()));
    }
    if !resolution.success {
        return Err(DabError::Err500("screen-resolution call reported failure".to_owned()));
    }
    let display_type = classify_display(&displays.displays);
    let uptime_since = match uptime_since(now_ms, uptime_s) {
        Ok(v) => v,
        Err(e) => {
            return Err(e);
        },
    };
    Ok(
        DeviceSnapshot {
            manufacturer: identity.manufacturer,
            model: identity.model,
            serial_number: identity.serial_number,
            chipset: identity.chipset,
            firmware_version: identity.firmware_version,
            firmware_build: identity.firmware_build,
            uptime_since,
            screen_width_pixels: resolution.width,
            screen_height_pixels: resolution.height,
            device_id,
            display_type,
            network_interfaces,
        },
    )
}

/// The sorted order is a permutation of the reported interfaces:
/// sorting reorders records and neither drops nor invents one.
pub proof fn lemma_sort_permutes(s: Seq<DeviceInterface>)
    ensures
        spec_sort(s).to_multiset() == s.to_multiset(),
    decreases s.len(),
{
    broadcast use vstd::seq_lib::lemma_multiset_commutative;

    if s.len() == 0 {
        reveal(Seq::filter);
        assert(spec_sort(s) =~= s);
    } else {
        let d = s.drop_last();
        let x = s.last();
        lemma_sort_permutes(d);
        assert(d.push(x) =~= s);
        lemma_filter_push(d, key_pred(0), x);
        lemma_filter_push(d, key_pred(1), x);
        lemma_filter_push(d, key_pred(2), x);
        lemma_filter_push(d, key_pred(3), x);
        lemma_filter_push(d, key_pred(4), x);
        lemma_filter_push(d, key_pred(5), x);
        d.to_multiset_ensures();
        let f0d = d.filter(key_pred(0));
        let f1d = d.filter(key_pred(1));
        let f2d = d.filter(key_pred(2));
        let f3d = d.filter(key_pred(3));
        let f4d = d.filter(key_pred(4));
        let f5d = d.filter(key_pred(5));
        f0d.to_multiset_ensures();
        f1d.to_multiset_ensures();
        f2d.to_multiset_ensures();
        f3d.to_multiset_ensures();
        f4d.to_multiset_ensures();
        f5d.to_multiset_ensures();
        assert(spec_sort(s).to_multiset() =~= spec_sort(d).to_multiset().insert(x));
        assert(s.to_multiset() =~= d.to_multiset().insert(x));
        assert(spec_sort(s).to_multiset() =~= s.to_multiset());
    }
}

} // verus!
