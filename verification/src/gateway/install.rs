//! Addresses to open in a browser to install the extension from the gateway.
use crate::text::{decimal, decimal_u64};
use vstd::prelude::*;
use vstd::string::*;

verus! {

/// An address of a network interface.
#[derive(Debug, PartialEq, Eq)]
pub enum IpAddress {
    V4 { a: u8, b: u8, c: u8, d: u8 },
    /// A version 6 address as it is written, with what is special about it.
    V6 { text: String, unspecified: bool, loopback: bool },
}

/// What an address says.
pub enum Ip {
    V4(u8, u8, u8, u8),
    V6 { text: Seq<char>, unspecified: bool, loopback: bool },
}

impl View for IpAddress {
    type V = Ip;

    open spec fn view(&self) -> Ip {
        match *self {
            IpAddress::V4 { a, b, c, d } => Ip::V4(a, b, c, d),
            IpAddress::V6 { text, unspecified, loopback } => Ip::V6 {
                text: text@,
                unspecified,
                loopback,
            },
        }
    }
}

impl Ip {
    /// The address as it is written.
    pub open spec fn text(self) -> Seq<char> {
        match self {
            Ip::V4(a, b, c, d) => decimal(a as nat) + "."@ + decimal(b as nat) + "."@ + decimal(
                c as nat,
            ) + "."@ + decimal(d as nat),
            Ip::V6 { text, .. } => text,
        }
    }

    /// The address with a port, as it is written.
    pub open spec fn with_port(self, port: u16) -> Seq<char> {
        match self {
            Ip::V4(..) => self.text() + ":"@ + decimal(port as nat),
            Ip::V6 { text, .. } => "["@ + text + "]:"@ + decimal(port as nat),
        }
    }

    /// Whether the address stands for every interface.
    pub open spec fn unspecified(self) -> bool {
        match self {
            Ip::V4(a, b, c, d) => a == 0 && b == 0 && c == 0 && d == 0,
            Ip::V6 { unspecified, .. } => unspecified,
        }
    }

    /// Whether the address is of this computer only.
    pub open spec fn loopback(self) -> bool {
        match self {
            Ip::V4(a, ..) => a == 127,
            Ip::V6 { loopback, .. } => loopback,
        }
    }
}

impl IpAddress {
    /// The address of this computer in version 4.
    pub fn v4_localhost() -> (address: IpAddress)
        ensures
            address@ == Ip::V4(127, 0, 0, 1),
    {
        IpAddress::V4 { a: 127, b: 0, c: 0, d: 1 }
    }

    /// The address of this computer in version 6.
    pub fn v6_localhost() -> (address: IpAddress)
        ensures
            address@ == (Ip::V6 { text: "::1"@, unspecified: false, loopback: true }),
    {
        IpAddress::V6 { text: "::1".to_owned(), unspecified: false, loopback: true }
    }

    /// Whether the address stands for every interface.
    pub fn is_unspecified(&self) -> (result: bool)
        ensures
            result == self@.unspecified(),
    {
        match self {
            IpAddress::V4 { a, b, c, d } => *a == 0 && *b == 0 && *c == 0 && *d == 0,
            IpAddress::V6 { unspecified, .. } => *unspecified,
        }
    }

    /// Whether the address is of this computer only.
    pub fn is_loopback(&self) -> (result: bool)
        ensures
            result == self@.loopback(),
    {
        match self {
            IpAddress::V4 { a, .. } => *a == 127,
            IpAddress::V6 { loopback, .. } => *loopback,
        }
    }

    /// Whether the address is of version 6.
    pub fn is_ipv6(&self) -> (result: bool)
        ensures
            result == (self@ is V6),
    {
        match self {
            IpAddress::V4 { .. } => false,
            IpAddress::V6 { .. } => true,
        }
    }

    /// The address as it is written.
    pub fn to_text(&self) -> (text: String)
        ensures
            text@ == self@.text(),
    {
        match self {
            IpAddress::V4 { a, b, c, d } => {
                let mut text = decimal_u64(*a as u64);
                text.append(".");
                text.append(&decimal_u64(*b as u64));
                text.append(".");
                text.append(&decimal_u64(*c as u64));
                text.append(".");
                text.append(&decimal_u64(*d as u64));
                text
            },
            IpAddress::V6 { text, .. } => text.clone(),
        }
    }

    /// The address with a port, as it is written.
    pub fn to_text_with_port(&self, port: u16) -> (text: String)
        ensures
            text@ == self@.with_port(port),
    {
        match self {
            IpAddress::V4 { .. } => {
                let mut text = self.to_text();
                text.append(":");
                text.append(&decimal_u64(port as u64));
                text
            },
            IpAddress::V6 { .. } => {
                let mut text = "[".to_owned();
                text.append(&self.to_text());
                text.append("]:");
                text.append(&decimal_u64(port as u64));
                text
            },
        }
    }

    /// A copy of this address.
    pub fn copy(&self) -> (copy: IpAddress)
        ensures
            copy@ == self@,
    {
        match self {
            IpAddress::V4 { a, b, c, d } => IpAddress::V4 { a: *a, b: *b, c: *c, d: *d },
            IpAddress::V6 { text, unspecified, loopback } => IpAddress::V6 {
                text: text.clone(),
                unspecified: *unspecified,
                loopback: *loopback,
            },
        }
    }
}

/// An address of the install page, with its label.
#[derive(Debug, PartialEq, Eq)]
pub struct InstallAddress {
    pub label: String,
    pub url: String,
}

/// The install page at an address and port.
pub open spec fn install_url(address: Ip, port: u16) -> Seq<char> {
    "http://"@ + address.with_port(port) + "/install"@
}

/// The install page at an address and port.
fn install_url_text(address: &IpAddress, port: u16) -> (url: String)
    ensures
        url@ == install_url(address@, port),
{
    crate::text::concat3("http://", &address.to_text_with_port(port), "/install")
}

/// The labels and addresses that a list holds.
pub open spec fn install_rows(rows: Seq<InstallAddress>) -> Seq<(Seq<char>, Seq<char>)> {
    rows.map_values(|row: InstallAddress| (row.label@, row.url@))
}

/// The rows of the interfaces.
pub open spec fn interface_rows(
    interfaces: Seq<(IpAddress, String)>,
    port: u16,
) -> Seq<(Seq<char>, Seq<char>)> {
    interfaces.map_values(
        |entry: (IpAddress, String)| (entry.1@, install_url(entry.0@, port)),
    )
}

/// The addresses of the install page: the one that the listener is bound to; or, where it is bound
/// to every interface, that of this computer first and then those of the interfaces.
pub open spec fn install_page_rows(
    listener: Ip,
    port: u16,
    interfaces: Seq<(IpAddress, String)>,
) -> Seq<(Seq<char>, Seq<char>)> {
    if !listener.unspecified() {
        seq![("Address"@, install_url(listener, port))]
    } else {
        let own = if listener is V6 {
            Ip::V6 { text: "::1"@, unspecified: false, loopback: true }
        } else {
            Ip::V4(127, 0, 0, 1)
        };
        seq![("This computer"@, install_url(own, port))] + interface_rows(interfaces, port)
    }
}

/// The interfaces that were found, or none while they are pending or failed.
pub open spec fn found_interfaces(interfaces: Option<&Vec<(IpAddress, String)>>) -> Seq<
    (IpAddress, String),
> {
    match interfaces {
        Some(found) => found@,
        None => Seq::empty(),
    }
}

/// The addresses of the install page.
pub fn install_addresses(
    listener: &IpAddress,
    port: u16,
    interfaces: Option<&Vec<(IpAddress, String)>>,
) -> (addresses: Vec<InstallAddress>)
    ensures
        install_rows(addresses@) == install_page_rows(
            listener@,
            port,
            found_interfaces(interfaces),
        ),
{
    let mut addresses: Vec<InstallAddress> = Vec::new();
    if !listener.is_unspecified() {
        addresses.push(
            InstallAddress { label: "Address".to_owned(), url: install_url_text(listener, port) },
        );
        assert(install_rows(addresses@) =~= seq![("Address"@, install_url(listener@, port))]);
        return addresses;
    }
    let own = if listener.is_ipv6() {
        IpAddress::v6_localhost()
    } else {
        IpAddress::v4_localhost()
    };
    addresses.push(
        InstallAddress { label: "This computer".to_owned(), url: install_url_text(&own, port) },
    );
    let ghost first = seq![("This computer"@, install_url(own@, port))];
    assert(install_rows(addresses@) =~= first);
    match interfaces {
        Some(found) => {
            let mut i: usize = 0;
            assert(install_rows(addresses@) =~= first + interface_rows(found@.take(0), port));
            while i < found.len()
                invariant
                    i <= found@.len(),
                    install_rows(addresses@) == first + interface_rows(found@.take(i as int), port),
                decreases found@.len() - i,
            {
                let ghost before = addresses@;
                let row = InstallAddress {
                    label: found[i].1.clone(),
                    url: install_url_text(&found[i].0, port),
                };
                addresses.push(row);
                proof {
                    assert(install_rows(addresses@) =~= install_rows(before).push(
                        (row.label@, row.url@),
                    ));
                    assert(interface_rows(found@.take(i + 1), port) =~= interface_rows(
                        found@.take(i as int),
                        port,
                    ).push((row.label@, row.url@)));
                    assert(install_rows(addresses@) =~= first + interface_rows(
                        found@.take(i + 1),
                        port,
                    ));
                }
                i += 1;
            }
            assert(found@.take(i as int) =~= found@);
        },
        None => {
            assert(install_rows(addresses@) =~= first + interface_rows(
                Seq::<(IpAddress, String)>::empty(),
                port,
            ));
        },
    }
    addresses
}

/// What the listing of the interfaces came to.
pub enum InterfaceListing {
    Pending,
    Failed,
    Found(Vec<(IpAddress, String)>),
}

/// The dialog with the addresses of the install page.
pub struct GatewayInstallDialog {
    pub listener: IpAddress,
    pub port: u16,
    pub interfaces: InterfaceListing,
}

/// What is shown below the addresses.
#[derive(Clone, Copy, Debug, PartialEq, Eq, Structural)]
pub struct InterfaceNotes {
    pub loading: bool,
    pub failed: bool,
}

impl GatewayInstallDialog {
    /// The enumerated interfaces, or `None` while they are pending or failed.
    pub fn addresses(&self) -> (addresses: Option<&Vec<(IpAddress, String)>>)
        ensures
            match addresses {
                Some(found) => self.interfaces == InterfaceListing::Found(*found),
                None => !(self.interfaces is Found),
            },
    {
        match &self.interfaces {
            InterfaceListing::Found(found) => Some(found),
            _ => None,
        }
    }

    /// The addresses that the dialog lists.
    pub fn rows(&self) -> (rows: Vec<InstallAddress>)
        ensures
            install_rows(rows@) == install_page_rows(
                self.listener@,
                self.port,
                match self.interfaces {
                    InterfaceListing::Found(found) => found@,
                    _ => Seq::empty(),
                },
            ),
    {
        install_addresses(&self.listener, self.port, self.addresses())
    }

    /// What is shown below the addresses.
    pub fn notes(&self) -> (notes: InterfaceNotes)
        ensures
            notes.loading == (self.listener@.unspecified() && self.interfaces is Pending),
            notes.failed == (self.interfaces is Failed),
    {
        match &self.interfaces {
            InterfaceListing::Pending => InterfaceNotes {
                loading: self.listener.is_unspecified(),
                failed: false,
            },
            InterfaceListing::Failed => InterfaceNotes { loading: false, failed: true },
            InterfaceListing::Found(_) => InterfaceNotes { loading: false, failed: false },
        }
    }

    /// The address that `Open in browser` uses, or `None` once this dialog is gone.
    pub fn install_url(&self, dialog_current: bool) -> (url: Option<String>)
        ensures
            match url {
                Some(text) => dialog_current && text@ == install_page_rows(
                    self.listener@,
                    self.port,
                    match self.interfaces {
                        InterfaceListing::Found(found) => found@,
                        _ => Seq::empty(),
                    },
                )[0].1,
                None => !dialog_current,
            },
    {
        if !dialog_current {
            return None;
        }
        let rows = self.rows();
        proof {
            assert(install_rows(rows@).len() > 0);
            assert(install_rows(rows@)[0].1 == rows@[0].url@);
        }
        Some(rows[0].url.clone())
    }
}

/// Whether the dialog may be opened, and at which listener.
pub fn install_dialog_listener(
    busy: bool,
    has_handle: bool,
    other_dialog: bool,
    listener: Option<(IpAddress, u16)>,
) -> (opened: Option<GatewayInstallDialog>)
    ensures
        match opened {
            Some(dialog) => !busy && has_handle && !other_dialog && listener == Some(
                (dialog.listener, dialog.port),
            ) && dialog.interfaces is Pending,
            None => busy || !has_handle || other_dialog || listener is None,
        },
{
    if busy || !has_handle || other_dialog {
        return None;
    }
    match listener {
        Some((address, port)) => Some(
            GatewayInstallDialog { listener: address, port, interfaces: InterfaceListing::Pending },
        ),
        None => None,
    }
}

/// Two addresses are the same exactly where their numbers or texts are.
pub proof fn ip_addresses_are_told_apart(a: IpAddress, b: IpAddress)
    ensures
        a@ is V4 <==> a is V4,
        a@ == b@ <==> match (a, b) {
            (
                IpAddress::V4 { a: a0, b: a1, c: a2, d: a3 },
                IpAddress::V4 { a: b0, b: b1, c: b2, d: b3 },
            ) => a0 == b0 && a1 == b1 && a2 == b2 && a3 == b3,
            (
                IpAddress::V6 { text, unspecified, loopback },
                IpAddress::V6 {
                    text: other,
                    unspecified: other_unspecified,
                    loopback: other_loopback,
                },
            ) => text@ == other@ && unspecified == other_unspecified && loopback == other_loopback,
            _ => false,
        },
{
}

/// An address is written by its four numbers or by its text, with the port behind it; a text is
/// bracketed first.
pub proof fn addresses_are_written_with_their_port(
    a: u8,
    b: u8,
    c: u8,
    d: u8,
    text: Seq<char>,
    unspecified: bool,
    loopback: bool,
    port: u16,
)
    ensures
        Ip::V4(a, b, c, d).text() == decimal(a as nat) + "."@ + decimal(b as nat) + "."@ + decimal(
            c as nat,
        ) + "."@ + decimal(d as nat),
        Ip::V4(a, b, c, d).with_port(port) == Ip::V4(a, b, c, d).text() + ":"@ + decimal(
            port as nat,
        ),
        (Ip::V6 { text, unspecified, loopback }).text() == text,
        (Ip::V6 { text, unspecified, loopback }).with_port(port) == "["@ + text + "]:"@ + decimal(
            port as nat,
        ),
        Ip::V4(a, b, c, d).unspecified() <==> a == 0 && b == 0 && c == 0 && d == 0,
        Ip::V4(a, b, c, d).loopback() <==> a == 127,
        (Ip::V6 { text, unspecified, loopback }).unspecified() == unspecified,
        (Ip::V6 { text, unspecified, loopback }).loopback() == loopback,
        install_url(Ip::V4(a, b, c, d), port) == "http://"@ + Ip::V4(a, b, c, d).with_port(port)
            + "/install"@,
{
}

/// A listener on one address is offered at that address alone.
pub proof fn one_address_is_offered_alone(
    listener: Ip,
    port: u16,
    interfaces: Seq<(IpAddress, String)>,
)
    requires
        !listener.unspecified(),
    ensures
        install_page_rows(listener, port, interfaces).len() == 1,
        install_page_rows(listener, port, interfaces)[0].0 == "Address"@,
        install_page_rows(listener, port, interfaces)[0].1 == "http://"@ + listener.with_port(port)
            + "/install"@,
{
}

/// A listener on every address is offered at this computer first and then at each interface, in
/// their order.
pub proof fn every_interface_is_offered(
    listener: Ip,
    port: u16,
    interfaces: Seq<(IpAddress, String)>,
    at: int,
)
    requires
        listener.unspecified(),
        0 <= at < interfaces.len(),
    ensures
        ({
            let rows = install_page_rows(listener, port, interfaces);
            &&& rows.len() == interfaces.len() + 1
            &&& rows[0].0 == "This computer"@
            &&& listener is V4 ==> rows[0].1 == "http://"@ + Ip::V4(127, 0, 0, 1).with_port(port)
                + "/install"@
            &&& listener is V6 ==> rows[0].1 == "http://"@ + "["@ + "::1"@ + "]:"@ + decimal(
                port as nat,
            ) + "/install"@
            &&& rows[at + 1].0 == interfaces[at].1@
            &&& rows[at + 1].1 == "http://"@ + interfaces[at].0@.with_port(port) + "/install"@
        }),
{
    let own = Ip::V6 { text: "::1"@, unspecified: false, loopback: true };
    if listener is V6 {
        assert(install_url(own, port) == "http://"@ + ("["@ + "::1"@ + "]:"@ + decimal(port as nat))
            + "/install"@);
        assert("http://"@ + ("["@ + "::1"@ + "]:"@ + decimal(port as nat)) + "/install"@
            =~= "http://"@ + "["@ + "::1"@ + "]:"@ + decimal(port as nat) + "/install"@);
    }
}

/// The rows of a list stand in its order, and interfaces that were not found are none.
pub proof fn install_rows_are_taken_in_order(rows: Seq<InstallAddress>, at: int)
    requires
        0 <= at < rows.len(),
    ensures
        install_rows(rows).len() == rows.len(),
        install_rows(rows)[at].0 == rows[at].label@,
        install_rows(rows)[at].1 == rows[at].url@,
        found_interfaces(None).len() == 0,
        forall|found: &Vec<(IpAddress, String)>|
            (#[trigger] found_interfaces(Some(found))) == found@,
{
}

/// What is told of an address is its own, number by number.
pub proof fn ip_addresses_are_told_as_they_are(
    a: u8,
    b: u8,
    c: u8,
    d: u8,
    text: String,
    unspecified: bool,
    loopback: bool,
)
    ensures
        (IpAddress::V4 { a, b, c, d })@ == Ip::V4(a, b, c, d),
        (IpAddress::V6 { text, unspecified, loopback })@ == (Ip::V6 {
            text: text@,
            unspecified,
            loopback,
        }),
{
}

} // verus!
