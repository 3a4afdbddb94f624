//! Where the proxy listens, and how that is written down.
use crate::admission::query_item;
use crate::error::{fails_with, ErrorView, RuntimeError, RuntimeResult};
use crate::manifest::RuntimeEntry;
use crate::text::{cat, decimal, decimal_text, same_text};
use vstd::prelude::*;

verus! {

/// An IP address as a number.
#[derive(Clone, Copy, Debug, PartialEq, Eq, Structural)]
pub enum IpBits {
    V4(u32),
    V6(u128),
}

/// An IP address and its usual notation.
#[derive(Debug)]
pub struct IpAddress {
    pub bits: IpBits,
    pub text: String,
}

/// An address that a listener is bound to.
#[derive(Debug)]
pub struct SocketAddress {
    pub ip: IpAddress,
    pub port: u16,
}

/// Whether an address is one of the machine itself.
pub open spec fn loopback(bits: IpBits) -> bool {
    match bits {
        IpBits::V4(n) => n / 0x100_0000 == 127,
        IpBits::V6(n) => n == 1,
    }
}

/// An IPv4 address in its usual notation: its four bytes as decimal numbers,
/// with dots between them.
pub open spec fn dotted(bits: u32) -> Seq<char> {
    decimal_text((bits / 0x100_0000) as nat) + "."@ + decimal_text(
        (bits / 0x1_0000 % 0x100) as nat,
    ) + "."@ + decimal_text((bits / 0x100 % 0x100) as nat) + "."@ + decimal_text(
        (bits % 0x100) as nat,
    )
}

/// Whether the notation of an address is that of its number: of every IPv4
/// address, and of the one IPv6 address that is the machine's own.
pub open spec fn well_written(ip: IpAddress) -> bool {
    match ip.bits {
        IpBits::V4(bits) => ip.text@ == dotted(bits),
        IpBits::V6(bits) => bits == 1 ==> ip.text@ == "::1"@,
    }
}

/// The IPv4 address of that number.
pub fn ipv4_address(bits: u32) -> (r: IpAddress)
    ensures
        r.bits == IpBits::V4(bits),
        r.text@ == dotted(bits),
        well_written(r),
{
    let first = cat(decimal((bits / 0x100_0000) as u128).as_str(), ".");
    let second = cat(first.as_str(), decimal((bits / 0x1_0000 % 0x100) as u128).as_str());
    let third = cat(
        cat(second.as_str(), ".").as_str(),
        decimal((bits / 0x100 % 0x100) as u128).as_str(),
    );
    let text = cat(cat(third.as_str(), ".").as_str(), decimal((bits % 0x100) as u128).as_str());
    IpAddress { bits: IpBits::V4(bits), text }
}

/// The IPv6 address of that number. `text` is how one that is not the machine's
/// own is written.
pub fn ipv6_address(bits: u128, text: String) -> (r: IpAddress)
    ensures
        r.bits == IpBits::V6(bits),
        r.text@ == (if bits == 1 {
            "::1"@
        } else {
            text@
        }),
        well_written(r),
{
    let text = if bits == 1 {
        "::1".to_owned()
    } else {
        text
    };
    IpAddress { bits: IpBits::V6(bits), text }
}

/// `localhost` is written as usual.
proof fn lemma_localhost()
    ensures
        dotted(LOCALHOST) == "127.0.0.1"@,
{
    reveal_strlit("127.0.0.1");
    reveal_strlit(".");
    reveal_strlit("0123456789abcdef");
    reveal_with_fuel(decimal_text, 4);
    assert(dotted(LOCALHOST) =~= "127.0.0.1"@);
}

impl IpAddress {
    /// Whether this is an address of the machine itself.
    pub fn is_loopback(&self) -> (r: bool)
        ensures
            r == loopback(self.bits),
    {
        match self.bits {
            IpBits::V4(n) => n / 0x100_0000 == 127,
            IpBits::V6(n) => n == 1,
        }
    }

    /// The same address again.
    pub fn copy(&self) -> (r: IpAddress)
        ensures
            r == *self,
    {
        IpAddress { bits: self.bits, text: self.text.clone() }
    }
}

impl SocketAddress {
    /// The same address again.
    pub fn copy(&self) -> (r: SocketAddress)
        ensures
            r == *self,
    {
        SocketAddress { ip: self.ip.copy(), port: self.port }
    }
}

/// Whether two addresses are one.
pub open spec fn same_endpoint(a: SocketAddress, b: SocketAddress) -> bool {
    a.ip.bits == b.ip.bits && a.port == b.port
}

/// Whether two addresses are one.
pub fn is_same_address(a: &SocketAddress, b: &SocketAddress) -> (r: bool)
    ensures
        r == same_endpoint(*a, *b),
{
    a.ip.bits == b.ip.bits && a.port == b.port
}

/// The address of the machine itself that `localhost` stands for.
pub const LOCALHOST: u32 = 0x7f00_0001;

/// The address that a proxy host stands for, given what it is read as.
pub open spec fn proxy_ip(host: Seq<char>, parsed: Option<IpAddress>) -> Option<
    (IpBits, Seq<char>),
> {
    if host == "localhost"@ {
        Some((IpBits::V4(LOCALHOST), "127.0.0.1"@))
    } else {
        match parsed {
            Some(ip) => Some((ip.bits, ip.text@)),
            None => None,
        }
    }
}

/// What is wrong with a proxy host: it is no address, or not one of the
/// machine itself.
pub open spec fn proxy_host_fault(host: Seq<char>, parsed: Option<IpAddress>) -> Option<ErrorView> {
    match proxy_ip(host, parsed) {
        None => Some(
            ErrorView::typed("manifest_invalid"@, "Codex app-server proxy host is invalid"@),
        ),
        Some((bits, _)) => if loopback(bits) {
            None
        } else {
            Some(
                ErrorView::typed(
                    "manifest_invalid"@,
                    "Codex app-server proxy must use a loopback address"@,
                ),
            )
        },
    }
}

/// Whether an address is the one that an entry's proxy is to listen on.
pub open spec fn proxy_address(
    address: SocketAddress,
    entry: RuntimeEntry,
    parsed: Option<IpAddress>,
) -> bool {
    &&& proxy_ip(entry.proxy_host@, parsed) == Some((address.ip.bits, address.ip.text@))
    &&& address.port == entry.proxy_port
}

/// The address that the proxy is to listen on. `parsed` is the IP address that
/// the entry's proxy host is in its usual notation, if it is one.
pub fn proxy_bind_address(entry: &RuntimeEntry, parsed: Option<IpAddress>) -> (r: RuntimeResult<
    SocketAddress,
>)
    ensures
        match proxy_host_fault(entry.proxy_host@, parsed) {
            Some(fault) => fails_with(r, fault),
            None => {
                &&& r is Ok
                &&& proxy_address(r->Ok_0, *entry, parsed)
                &&& (parsed matches Some(ip) ==> well_written(ip)) ==> well_written(r->Ok_0.ip)
            },
        },
{
    let ip = if same_text(entry.proxy_host.as_str(), "localhost") {
        proof {
            lemma_localhost();
        }
        ipv4_address(LOCALHOST)
    } else {
        match parsed {
            Some(ip) => ip,
            None => return Err(
                RuntimeError::typed("manifest_invalid", "Codex app-server proxy host is invalid"),
            ),
        }
    };
    if !ip.is_loopback() {
        return Err(
            RuntimeError::typed(
                "manifest_invalid",
                "Codex app-server proxy must use a loopback address",
            ),
        );
    }
    Ok(SocketAddress { ip, port: entry.proxy_port })
}

/// An IP address as it stands in a URL.
pub open spec fn ip_text(ip: IpAddress) -> Seq<char> {
    match ip.bits {
        IpBits::V4(_) => ip.text@,
        IpBits::V6(_) => "["@ + ip.text@ + "]"@,
    }
}

/// Writes an IP address as it stands in a URL.
pub fn display_ip(ip: &IpAddress) -> (r: String)
    ensures
        r@ == ip_text(*ip),
{
    match ip.bits {
        IpBits::V4(_) => ip.text.clone(),
        IpBits::V6(_) => cat(cat("[", ip.text.as_str()).as_str(), "]"),
    }
}

/// An address and a port.
pub open spec fn address_text(address: SocketAddress) -> Seq<char> {
    ip_text(address.ip) + ":"@ + decimal_text(address.port as nat)
}

/// Writes an address and a port.
pub fn display_address(address: &SocketAddress) -> (r: String)
    ensures
        r@ == address_text(*address),
{
    let ip = display_ip(&address.ip);
    cat(cat(ip.as_str(), ":").as_str(), decimal(address.port as u128).as_str())
}

/// The URL that the side panel reaches its app server at.
pub open spec fn app_server_url(address: SocketAddress, token: Seq<char>) -> Seq<char> {
    "ws://"@ + address_text(address) + "/?token="@ + token
}

/// Writes the URL that the side panel reaches its app server at.
pub fn local_app_server_url(address: &SocketAddress, token: &str) -> (r: String)
    ensures
        r@ == app_server_url(*address, token@),
{
    let at = display_address(address);
    cat(cat(cat("ws://", at.as_str()).as_str(), "/?token=").as_str(), token)
}

/// What stands behind the `?` of the URL is the query that carries the token
/// alone.
pub proof fn url_carries_the_token(address: SocketAddress, token: Seq<char>)
    ensures
        app_server_url(address, token) == "ws://"@ + address_text(address) + "/?"@ + query_item(
            "token"@,
            token,
        ),
{
    reveal_strlit("/?token=");
    reveal_strlit("/?");
    reveal_strlit("token");
    assert("/?token="@ =~= "/?"@ + "token"@.push('='));
    assert(app_server_url(address, token) =~= "ws://"@ + address_text(address) + "/?"@ + query_item(
        "token"@,
        token,
    ));
}

/// The proxy is never asked to listen on an address of another machine: that
/// of an entry is one of the machine itself, and so is any other port of it.
pub proof fn only_loopback_is_listened_on(
    address: SocketAddress,
    entry: RuntimeEntry,
    parsed: Option<IpAddress>,
    port: u16,
)
    requires
        proxy_host_fault(entry.proxy_host@, parsed) is None,
        proxy_address(address, entry, parsed),
    ensures
        loopback(address.ip.bits),
        loopback((SocketAddress { port, ..address }).ip.bits),
{
}

/// The URL names the address that is listened on by its number.
pub proof fn the_url_names_the_address(address: SocketAddress, token: Seq<char>)
    requires
        well_written(address.ip),
        loopback(address.ip.bits),
    ensures
        app_server_url(address, token) == "ws://"@ + (match address.ip.bits {
            IpBits::V4(bits) => dotted(bits),
            IpBits::V6(_) => "["@ + "::1"@ + "]"@,
        }) + ":"@ + decimal_text(address.port as nat) + "/?token="@ + token,
{
    assert(app_server_url(address, token) =~= "ws://"@ + (match address.ip.bits {
        IpBits::V4(bits) => dotted(bits),
        IpBits::V6(_) => "["@ + "::1"@ + "]"@,
    }) + ":"@ + decimal_text(address.port as nat) + "/?token="@ + token);
}

} // verus!
