//! Settings of the gateway's listener: which addresses it may be bound to.
use crate::gateway::install::{InterfaceListing, Ip, IpAddress};
use crate::governance::staking::next_generation;
use crate::text::{decimal, trim, trimmed};
use vstd::prelude::*;
use vstd::string::*;

verus! {

/// The number that a version 4 address stands for; other addresses stand for none.
pub open spec fn v4_value(address: Ip) -> nat {
    match address {
        Ip::V4(a, b, c, d) => a as nat * 0x100_0000 + b as nat * 0x1_0000 + c as nat * 0x100
            + d as nat,
        Ip::V6 { .. } => 0,
    }
}

/// Whether an interface address is listed: version 4, neither of this computer only nor of every
/// interface.
pub open spec fn listed(address: Ip) -> bool {
    address is V4 && !address.loopback() && !address.unspecified()
}

/// Whether this is the first interface with its address.
pub open spec fn first_with_address(interfaces: Seq<(IpAddress, String)>, at: int) -> bool {
    &&& 0 <= at < interfaces.len()
    &&& forall|j: int| 0 <= j < at ==> (#[trigger] interfaces[j]).0@ != interfaces[at].0@
}

/// Each address is greater than those before it.
pub open spec fn by_address(entries: Seq<(IpAddress, String)>) -> bool {
    forall|i: int, j: int|
        #![trigger entries[i], entries[j]]
        0 <= i < j < entries.len() ==> v4_value(entries[i].0@) < v4_value(entries[j].0@)
}

/// Whether an entry is that of the first interface with its address.
pub open spec fn entry_of(
    entry: (IpAddress, String),
    interfaces: Seq<(IpAddress, String)>,
    at: int,
) -> bool {
    first_with_address(interfaces, at) && interfaces[at].0@ == entry.0@ && interfaces[at].1@
        == entry.1@ && listed(entry.0@)
}

/// Whether an entry is that of the first of some interfaces, before a position.
pub open spec fn entry_of_some(
    entry: (IpAddress, String),
    interfaces: Seq<(IpAddress, String)>,
    before: int,
) -> bool {
    exists|at: int| at < before && entry_of(entry, interfaces, at)
}

/// Whether an address is among the entries.
pub open spec fn has_address(entries: Seq<(IpAddress, String)>, address: Ip) -> bool {
    exists|i: int| 0 <= i < entries.len() && (#[trigger] entries[i]).0@ == address
}

/// The number of an address.
fn v4_number(address: &IpAddress) -> (number: u64)
    ensures
        number as nat == v4_value(address@),
{
    match address {
        IpAddress::V4 { a, b, c, d } => *a as u64 * 0x100_0000 + *b as u64 * 0x1_0000 + *c as u64
            * 0x100 + *d as u64,
        IpAddress::V6 { .. } => 0,
    }
}

proof fn lemma_v4_value(a: Ip, b: Ip)
    requires
        a is V4,
        b is V4,
    ensures
        (v4_value(a) == v4_value(b)) == (a == b),
{
    match (a, b) {
        (Ip::V4(a0, a1, a2, a3), Ip::V4(b0, b1, b2, b3)) => {
            if v4_value(a) == v4_value(b) {
                let a_high: int = a0 * 0x1_0000 + a1 * 0x100 + a2;
                let b_high: int = b0 * 0x1_0000 + b1 * 0x100 + b2;
                assert(a_high * 0x100 + a3 == b_high * 0x100 + b3);
                assert(a_high == b_high);
                assert((a0 * 0x100 + a1) * 0x100 + a2 == (b0 * 0x100 + b1) * 0x100 + b2);
                assert(a0 * 0x100 + a1 == b0 * 0x100 + b1);
            }
        },
        _ => {},
    }
}

/// The version 4 addresses of the interfaces with the names of their interfaces, in order and each
/// once. Addresses of this computer only and of every interface are left out.
pub fn local_ipv4_addresses(interfaces: &Vec<(IpAddress, String)>) -> (addresses: Vec<
    (IpAddress, String),
>)
    ensures
        by_address(addresses@),
        forall|i: int|
            0 <= i < addresses@.len() ==> entry_of_some(
                #[trigger] addresses@[i],
                interfaces@,
                interfaces@.len() as int,
            ),
        forall|i: int|
            0 <= i < interfaces@.len() && listed((#[trigger] interfaces@[i]).0@) ==> has_address(
                addresses@,
                interfaces@[i].0@,
            ),
{
    let mut addresses: Vec<(IpAddress, String)> = Vec::new();
    let mut i: usize = 0;
    while i < interfaces.len()
        invariant
            i <= interfaces@.len(),
            by_address(addresses@),
            forall|k: int|
                0 <= k < addresses@.len() ==> entry_of_some(
                    #[trigger] addresses@[k],
                    interfaces@,
                    i as int,
                ),
            forall|j: int|
                0 <= j < i && listed((#[trigger] interfaces@[j]).0@) ==> has_address(
                    addresses@,
                    interfaces@[j].0@,
                ),
        decreases interfaces@.len() - i,
    {
        let address = &interfaces[i].0;
        if !address.is_ipv6() && !address.is_loopback() && !address.is_unspecified() {
            let number: u64 = v4_number(address);
            let mut at: usize = 0;
            while at < addresses.len() && v4_number(&addresses[at].0) < number
                invariant
                    at <= addresses@.len(),
                    number as nat == v4_value(address@),
                    forall|k: int|
                        0 <= k < at ==> v4_value((#[trigger] addresses@[k]).0@) < number as nat,
                decreases addresses@.len() - at,
            {
                at += 1;
            }
            let ghost before = addresses@;
            if at < addresses.len() && v4_number(&addresses[at].0) == number {
                proof {
                    assert(entry_of_some(addresses@[at as int], interfaces@, i as int));
                    lemma_v4_value(addresses@[at as int].0@, address@);
                    assert(has_address(addresses@, address@));
                }
            } else {
                proof {
                    assert forall|j: int| 0 <= j < i implies (#[trigger] interfaces@[j]).0@
                        != address@ by {
                        if interfaces@[j].0@ == address@ {
                            assert(has_address(addresses@, interfaces@[j].0@));
                            let k = choose|k: int|
                                0 <= k < addresses@.len() && (#[trigger] addresses@[k]).0@
                                    == address@;
                            if k > at {
                                assert(v4_value(addresses@[at as int].0@) < v4_value(
                                    addresses@[k].0@,
                                ));
                            }
                        }
                    }
                }
                let entry = (address.copy(), interfaces[i].1.clone());
                addresses.insert(at, entry);
                proof {
                    assert(entry_of(entry, interfaces@, i as int));
                    assert forall|x: int, y: int|
                        #![trigger addresses@[x], addresses@[y]]
                        0 <= x < y < addresses@.len() implies v4_value(addresses@[x].0@)
                        < v4_value(addresses@[y].0@) by {
                        let a: int = if x < at { x } else { x - 1 };
                        let b: int = if y < at { y } else { y - 1 };
                        if y == at {
                            assert(v4_value(before[x].0@) < number as nat);
                        } else if x == at {
                            assert(v4_value(before[at as int].0@) > number as nat);
                            if b > at {
                                assert(v4_value(before[at as int].0@) < v4_value(before[b].0@));
                            }
                        } else {
                            assert(v4_value(before[a].0@) < v4_value(before[b].0@));
                        }
                    }
                    assert forall|k: int| 0 <= k < addresses@.len() implies entry_of_some(
                        #[trigger] addresses@[k],
                        interfaces@,
                        i + 1,
                    ) by {
                        if k != at {
                            let a: int = if k < at { k } else { k - 1 };
                            assert(addresses@[k] == before[a]);
                            assert(entry_of_some(before[a], interfaces@, i as int));
                        }
                    }
                    assert forall|j: int|
                        0 <= j < i + 1 && listed((#[trigger] interfaces@[j]).0@) implies has_address(
                        addresses@,
                        interfaces@[j].0@,
                    ) by {
                        if j == i {
                            assert(addresses@[at as int].0@ == interfaces@[j].0@);
                        } else {
                            assert(has_address(before, interfaces@[j].0@));
                            let k = choose|k: int|
                                0 <= k < before.len() && (#[trigger] before[k]).0@
                                    == interfaces@[j].0@;
                            let a: int = if k < at { k } else { k + 1 };
                            assert(addresses@[a] == before[k]);
                        }
                    }
                }
            }
        }
        proof {
            assert forall|k: int| 0 <= k < addresses@.len() implies entry_of_some(
                #[trigger] addresses@[k],
                interfaces@,
                i + 1,
            ) by {
                assert(entry_of_some(addresses@[k], interfaces@, i as int) || entry_of_some(
                    addresses@[k],
                    interfaces@,
                    i + 1,
                ));
            }
        }
        i += 1;
    }
    addresses
}

/// An address that the dialog offers.
#[derive(Debug, PartialEq, Eq)]
pub struct AddressSuggestion {
    pub address: IpAddress,
    pub label: String,
    /// Whether it is one of the two addresses that are always offered.
    pub preset: bool,
}

/// What an offered address says.
pub struct Suggestion {
    pub address: Ip,
    pub label: Seq<char>,
    pub preset: bool,
}

/// What the offered addresses say.
pub open spec fn suggestions_of(list: Seq<AddressSuggestion>) -> Seq<Suggestion> {
    list.map_values(
        |entry: AddressSuggestion|
            Suggestion { address: entry.address@, label: entry.label@, preset: entry.preset },
    )
}

/// The address that stands for the offer of an interface.
pub open spec fn interface_suggestion(entry: (IpAddress, String)) -> Suggestion {
    Suggestion {
        address: entry.0@,
        label: entry.0@.text() + " · "@ + entry.1@,
        preset: entry.0@ == Ip::V4(127, 0, 0, 1) || entry.0@ == Ip::V4(0, 0, 0, 0),
    }
}

/// The addresses that are always offered.
pub open spec fn preset_suggestions() -> Seq<Suggestion> {
    seq![
        Suggestion {
            address: Ip::V4(127, 0, 0, 1),
            label: "127.0.0.1 · This computer"@,
            preset: true,
        },
        Suggestion {
            address: Ip::V4(0, 0, 0, 0),
            label: "0.0.0.0 · All IPv4 interfaces"@,
            preset: true,
        },
    ]
}

/// The addresses that the dialog offers: the presets, then those of the interfaces.
pub fn address_suggestions(interfaces: &InterfaceListing) -> (suggestions: Vec<AddressSuggestion>)
    ensures
        suggestions_of(suggestions@) == preset_suggestions() + (match *interfaces {
            InterfaceListing::Found(found) => found@,
            _ => Seq::empty(),
        }).map_values(|entry: (IpAddress, String)| interface_suggestion(entry)),
{
    let mut suggestions = vec![
        AddressSuggestion {
            address: IpAddress::V4 { a: 127, b: 0, c: 0, d: 1 },
            label: "127.0.0.1 · This computer".to_owned(),
            preset: true,
        },
        AddressSuggestion {
            address: IpAddress::V4 { a: 0, b: 0, c: 0, d: 0 },
            label: "0.0.0.0 · All IPv4 interfaces".to_owned(),
            preset: true,
        },
    ];
    let ghost shape = |entry: (IpAddress, String)| interface_suggestion(entry);
    assert(suggestions_of(suggestions@) =~= preset_suggestions());
    match interfaces {
        InterfaceListing::Found(found) => {
            let mut i: usize = 0;
            assert(suggestions_of(suggestions@) =~= preset_suggestions() + found@.take(
                0,
            ).map_values(shape));
            while i < found.len()
                invariant
                    i <= found@.len(),
                    shape == (|entry: (IpAddress, String)| interface_suggestion(entry)),
                    suggestions_of(suggestions@) == preset_suggestions() + found@.take(
                        i as int,
                    ).map_values(shape),
                decreases found@.len() - i,
            {
                let ghost before = suggestions@;
                let label = crate::text::concat3(&found[i].0.to_text(), " · ", &found[i].1);
                let preset = match &found[i].0 {
                    IpAddress::V4 { a, b, c, d } => (*a == 127 && *b == 0 && *c == 0 && *d == 1) || (
                    *a == 0 && *b == 0 && *c == 0 && *d == 0),
                    IpAddress::V6 { .. } => false,
                };
                let offered = AddressSuggestion { address: found[i].0.copy(), label, preset };
                suggestions.push(offered);
                proof {
                    assert(suggestions_of(suggestions@) =~= suggestions_of(before).push(
                        interface_suggestion(found@[i as int]),
                    ));
                    assert(found@.take(i + 1).map_values(shape) =~= found@.take(
                        i as int,
                    ).map_values(shape).push(interface_suggestion(found@[i as int])));
                    assert(suggestions_of(suggestions@) =~= preset_suggestions() + found@.take(
                        i + 1,
                    ).map_values(shape));
                }
                i += 1;
            }
            assert(found@.take(i as int) =~= found@);
        },
        _ => {
            assert(suggestions_of(suggestions@) =~= preset_suggestions() + Seq::<
                (IpAddress, String),
            >::empty().map_values(shape));
        },
    }
    suggestions
}

/// Whether an address may expose the gateway to other devices.
pub fn exposes_gateway(address: Option<&IpAddress>) -> (exposes: bool)
    ensures
        exposes == (address matches Some(found) && !found@.loopback()),
{
    match address {
        Some(found) => !found.is_loopback(),
        None => false,
    }
}

/// The number that digits spell.
pub open spec fn digits_value(digits: Seq<char>) -> Option<nat>
    decreases digits.len(),
{
    if digits.len() == 0 {
        Some(0)
    } else {
        match digits_value(digits.drop_last()) {
            Some(head) => if '0' <= digits.last() <= '9' {
                Some(head * 10 + (digits.last() as nat - 48) as nat)
            } else {
                None
            },
            None => None,
        }
    }
}

/// The port that a text names: digits, with or without a plus sign before them, from 1 to 65535.
pub open spec fn port_of(text: Seq<char>) -> Option<nat> {
    let digits = if text.len() > 0 && text[0] == '+' {
        text.skip(1)
    } else {
        text
    };
    match digits_value(digits) {
        Some(value) => if digits.len() > 0 && 1 <= value <= 65535 {
            Some(value)
        } else {
            None
        },
        None => None,
    }
}

proof fn lemma_digits_stop(digits: Seq<char>, count: int)
    requires
        0 <= count <= digits.len(),
        digits_value(digits.take(count)) is None,
    ensures
        digits_value(digits) is None,
    decreases digits.len(),
{
    if count == digits.len() {
        assert(digits.take(count) =~= digits);
    } else {
        assert(digits.drop_last().take(count) =~= digits.take(count));
        lemma_digits_stop(digits.drop_last(), count);
    }
}

proof fn lemma_digits_grow(digits: Seq<char>, count: int)
    requires
        0 <= count <= digits.len(),
        digits_value(digits.take(count)) is Some,
    ensures
        digits_value(digits) matches Some(value) ==> value >= digits_value(
            digits.take(count),
        ).unwrap(),
    decreases digits.len(),
{
    if count == digits.len() {
        assert(digits.take(count) =~= digits);
    } else {
        assert(digits.drop_last().take(count) =~= digits.take(count));
        lemma_digits_grow(digits.drop_last(), count);
    }
}

/// The port that a text names.
pub fn parse_port(text: &str) -> (port: Option<u16>)
    ensures
        match port {
            Some(found) => port_of(text@) == Some(found as nat),
            None => port_of(text@) is None,
        },
{
    let len: usize = text.unicode_len();
    let start: usize = if len > 0 && text.get_char(0) == '+' {
        1
    } else {
        0
    };
    let ghost digits = text@.skip(start as int);
    assert(start == 0 ==> digits =~= text@);
    if start == len {
        return None;
    }
    let mut value: u32 = 0;
    let mut i: usize = start;
    while i < len
        invariant
            start <= i <= len == text@.len(),
            start <= 1,
            digits == text@.skip(start as int),
            port_of(text@) == (match digits_value(digits) {
                Some(found) => if digits.len() > 0 && 1 <= found <= 65535 {
                    Some(found)
                } else {
                    None
                },
                None => None,
            }),
            value <= 65535,
            digits_value(digits.take(i - start)) == Some(value as nat),
        decreases len - i,
    {
        let c = text.get_char(i);
        proof {
            let longer = digits.take(i - start + 1);
            assert(longer.drop_last() =~= digits.take(i - start));
            assert(longer.last() == c);
        }
        if !('0' <= c && c <= '9') {
            proof {
                lemma_digits_stop(digits, i - start + 1);
            }
            return None;
        }
        value = value * 10 + (c as u32 - 48);
        proof {
            lemma_digits_grow(digits, i - start + 1);
        }
        if value > 65535 {
            return None;
        }
        i += 1;
    }
    assert(digits.take(i - start) =~= digits);
    if value == 0 {
        None
    } else {
        Some(value as u16)
    }
}

/// What the gateway is doing.
pub struct GatewayOperations {
    pub busy: bool,
    pub has_handle: bool,
    pub operation_generation: u64,
    /// When the pairing code that is shown ends, in nanoseconds on one monotonic clock.
    pub pending_offer: Option<u128>,
    pub error: Option<String>,
}

/// Whether the dialog may be opened.
pub fn may_open_listener(operations: &GatewayOperations, other_dialog: bool) -> (may: bool)
    ensures
        may == (!operations.busy && operations.has_handle && !other_dialog),
{
    !operations.busy && operations.has_handle && !other_dialog
}

/// What the dialog shows beside its inputs.
#[derive(Clone, Copy, Debug, PartialEq, Eq, Structural)]
pub struct ListenerView {
    /// Whether the inputs are disabled, and the settings are being saved.
    pub busy: bool,
    /// Whether it is warned that other devices may reach the gateway.
    pub warns: bool,
    pub loading: bool,
    pub failed: bool,
}

/// What the dialog shows: `address` is what the address input parses to.
pub fn listener_view(
    operations: &GatewayOperations,
    address: Option<&IpAddress>,
    interfaces: &InterfaceListing,
) -> (view: ListenerView)
    ensures
        view == (ListenerView {
            busy: operations.busy || !operations.has_handle,
            warns: address matches Some(found) && !found@.loopback(),
            loading: *interfaces is Pending,
            failed: *interfaces is Failed,
        }),
{
    ListenerView {
        busy: operations.busy || !operations.has_handle,
        warns: exposes_gateway(address),
        loading: match interfaces {
            InterfaceListing::Pending => true,
            _ => false,
        },
        failed: match interfaces {
            InterfaceListing::Failed => true,
            _ => false,
        },
    }
}

/// What saving the settings comes to.
pub enum ListenerSave {
    Ignored,
    Invalid(String),
    /// The gateway is to be configured, under this generation.
    Configure { address: IpAddress, port: u16, generation: u64 },
}

/// Saves the settings: `address` is what the address input parses to.
pub fn save_listener(
    operations: &mut GatewayOperations,
    dialog_current: bool,
    address: Option<IpAddress>,
    port_text: &str,
) -> (save: ListenerSave)
    ensures
        if old(operations).busy || !old(operations).has_handle || !dialog_current {
            save is Ignored && *final(operations) == *old(operations)
        } else {
            match (address, port_of(trimmed(port_text@))) {
                (None, _) => *final(operations) == *old(operations) && (save matches
                    ListenerSave::Invalid(error) && error@ == "Enter a valid IP address."@),
                (Some(_), None) => *final(operations) == *old(operations) && (save matches
                    ListenerSave::Invalid(error) && error@ == "Enter a port from 1 to 65535."@),
                (Some(bind), Some(number)) => (save matches ListenerSave::Configure {
                    address: chosen,
                    port,
                    generation,
                } && chosen == bind && port as nat == number && generation == next_generation(
                    old(operations).operation_generation,
                )) && *final(operations) == (GatewayOperations {
                    busy: true,
                    has_handle: true,
                    operation_generation: next_generation(old(operations).operation_generation),
                    pending_offer: None,
                    error: None,
                }),
            }
        },
{
    if operations.busy || !operations.has_handle || !dialog_current {
        return ListenerSave::Ignored;
    }
    let address = match address {
        Some(address) => address,
        None => return ListenerSave::Invalid("Enter a valid IP address.".to_owned()),
    };
    let port: u16 = match parse_port(trim(port_text)) {
        Some(port) => port,
        None => return ListenerSave::Invalid("Enter a port from 1 to 65535.".to_owned()),
    };
    operations.pending_offer = None;
    operations.busy = true;
    operations.error = None;
    operations.operation_generation = operations.operation_generation.wrapping_add(1);
    ListenerSave::Configure { address, port, generation: operations.operation_generation }
}

/// What becomes of the dialog once the gateway was configured.
pub enum ListenerDialogEnd {
    /// The result is of an earlier operation, or the dialog is not the own one.
    Keep,
    ShowError(String),
    Close,
}

/// Takes the result of a configuration, where it is of the current operation.
pub fn finish_listener(
    operations: &mut GatewayOperations,
    generation: u64,
    error: Option<String>,
    own_dialog: bool,
) -> (end: ListenerDialogEnd)
    ensures
        if !old(operations).has_handle || old(operations).operation_generation != generation {
            end is Keep && *final(operations) == *old(operations)
        } else {
            &&& *final(operations) == (GatewayOperations {
                busy: false,
                error,
                ..*old(operations)
            })
            &&& if !own_dialog {
                end is Keep
            } else {
                match error {
                    Some(text) => end == ListenerDialogEnd::ShowError(text),
                    None => end is Close,
                }
            }
        },
{
    if !operations.has_handle || operations.operation_generation != generation {
        return ListenerDialogEnd::Keep;
    }
    operations.busy = false;
    operations.error = error;
    if !own_dialog {
        return ListenerDialogEnd::Keep;
    }
    match &operations.error {
        Some(text) => ListenerDialogEnd::ShowError(text.clone()),
        None => ListenerDialogEnd::Close,
    }
}

/// Addresses are ordered number by number, from the first.
pub proof fn addresses_are_ordered_by_their_numbers(
    a: u8,
    b: u8,
    c: u8,
    d: u8,
    e: u8,
    f: u8,
    g: u8,
    h: u8,
)
    ensures
        v4_value(Ip::V4(a, b, c, d)) < v4_value(Ip::V4(e, f, g, h)) <==> {
            ||| a < e
            ||| a == e && b < f
            ||| a == e && b == f && c < g
            ||| a == e && b == f && c == g && d < h
        },
{
}

/// The addresses that are listed are those of other interfaces: neither this computer alone nor all.
pub proof fn listed_addresses_are_of_interfaces(address: Ip)
    ensures
        address is V6 ==> !listed(address),
        address matches Ip::V4(a, b, c, d) ==> (listed(address) <==> a != 127 && !(a == 0 && b == 0
            && c == 0 && d == 0)),
{
}

/// The first interface with an address is one alone.
pub proof fn the_first_interface_is_unique(
    interfaces: Seq<(IpAddress, String)>,
    a: int,
    b: int,
    entry: (IpAddress, String),
)
    ensures
        first_with_address(interfaces, a) && first_with_address(interfaces, b)
            && interfaces[a].0@ == interfaces[b].0@ ==> a == b,
        entry_of(entry, interfaces, a) ==> 0 <= a < interfaces.len() && interfaces[a].0@ == entry.0@
            && interfaces[a].1@ == entry.1@ && listed(entry.0@),
        entry_of_some(entry, interfaces, b) ==> exists|at: int|
            0 <= at < b && #[trigger] interfaces[at].0@ == entry.0@ && interfaces[at].1@ == entry.1@,
{
    if first_with_address(interfaces, a) && first_with_address(interfaces, b)
        && interfaces[a].0@ == interfaces[b].0@ {
        if a < b {
            assert(interfaces[a].0@ != interfaces[b].0@);
        }
        if b < a {
            assert(interfaces[b].0@ != interfaces[a].0@);
        }
    }
}

/// Ordered entries grow by address, and an entry has an address exactly where one stands for it.
pub proof fn ordered_entries_grow(entries: Seq<(IpAddress, String)>, a: int, b: int, address: Ip)
    requires
        0 <= a < b < entries.len(),
    ensures
        by_address(entries) ==> v4_value(entries[a].0@) < v4_value(entries[b].0@),
        v4_value(entries[a].0@) >= v4_value(entries[b].0@) ==> !by_address(entries),
        has_address(entries, entries[a].0@),
        (forall|i: int| 0 <= i < entries.len() ==> (#[trigger] entries[i]).0@ != address)
            ==> !has_address(entries, address),
{
}

/// This computer and all interfaces are suggested first, under their own names; every interface
/// behind them by its address and its name.
pub proof fn suggestions_name_their_address(
    entry: (IpAddress, String),
    list: Seq<AddressSuggestion>,
    at: int,
)
    requires
        0 <= at < list.len(),
    ensures
        preset_suggestions().len() == 2,
        preset_suggestions()[0].address == Ip::V4(127, 0, 0, 1),
        preset_suggestions()[0].label == "127.0.0.1 · This computer"@,
        preset_suggestions()[0].preset,
        preset_suggestions()[1].address == Ip::V4(0, 0, 0, 0),
        preset_suggestions()[1].label == "0.0.0.0 · All IPv4 interfaces"@,
        preset_suggestions()[1].preset,
        interface_suggestion(entry).address == entry.0@,
        interface_suggestion(entry).label == entry.0@.text() + " · "@ + entry.1@,
        listed(entry.0@) ==> !interface_suggestion(entry).preset,
        suggestions_of(list).len() == list.len(),
        suggestions_of(list)[at].address == list[at].address@,
        suggestions_of(list)[at].label == list[at].label@,
        suggestions_of(list)[at].preset == list[at].preset,
{
}

/// Digits are read from the left, ten for one; anything that is no digit cannot be read.
pub proof fn digits_are_read_from_the_left(digits: Seq<char>, digit: char)
    ensures
        digits_value(Seq::empty()) == Some(0nat),
        digits_value(digits) matches Some(head) ==> ('0' <= digit <= '9' ==> digits_value(
            digits.push(digit),
        ) == Some((10 * head + (digit as int - '0' as int)) as nat)),
        !('0' <= digit <= '9') ==> digits_value(digits.push(digit)) is None,
        digits_value(digits) is None ==> digits_value(digits.push(digit)) is None,
{
    assert(digits.push(digit).drop_last() =~= digits);
}

proof fn lemma_digits_of_decimal(n: nat)
    ensures
        digits_value(decimal(n)) == Some(n),
        decimal(n).len() > 0,
        decimal(n)[0] != '+',
    decreases n,
{
    if n >= 10 {
        lemma_digits_of_decimal(n / 10);
        crate::text::decimals_end_with_their_ones(n);
        let digit: char = decimal(n).last();
        assert(decimal(n) =~= decimal(n / 10).push(digit));
        digits_are_read_from_the_left(decimal(n / 10), digit);
    } else {
        crate::text::decimals_end_with_their_ones(n);
        let digit: char = decimal(n).last();
        assert(decimal(n) =~= Seq::<char>::empty().push(digit));
        digits_are_read_from_the_left(Seq::empty(), digit);
    }
}

/// A port reads back from how it is written; no number outside of the ports does, and neither does
/// an empty text.
pub proof fn ports_read_back(n: nat)
    ensures
        1 <= n <= 65535 ==> port_of(decimal(n)) == Some(n),
        n == 0 || n > 65535 ==> port_of(decimal(n)) is None,
        port_of(Seq::empty()) is None,
        port_of(seq!['+']) is None,
        port_of(seq!['+'] + decimal(n)) == port_of(decimal(n)),
{
    lemma_digits_of_decimal(n);
    assert((seq!['+'] + decimal(n)).skip(1) =~= decimal(n));
    assert(seq!['+'].skip(1) =~= Seq::<char>::empty());
}

} // verus!
