//! Functions related to the local network: which addresses to scan for an orchestrator.
use crate::decimal::{decimal_digits, push_decimal};
use crate::text::{owned, push_str};
use vstd::prelude::*;

verus! {

/// The lowest last octet scanned on the subnet.
pub const MIN_SUBNET_ADDR: u8 = 30;

/// The scan stops below this last octet.
pub const MAX_SUBNET_ADDR: u8 = 70;

/// The dotted text of an IPv4 address.
pub open spec fn ipv4_text(a: u8, b: u8, c: u8, d: u8) -> Seq<char> {
    decimal_digits(a as nat) + "."@ + decimal_digits(b as nat) + "."@ + decimal_digits(c as nat) + "."@
        + decimal_digits(d as nat)
}

/// The dotted text of an IPv4 address.
pub fn ipv4_to_text(a: u8, b: u8, c: u8, d: u8) -> (res: String)
    ensures
        res@ == ipv4_text(a, b, c, d),
{
    let mut s = String::new();
    push_decimal(&mut s, a as u64);
    push_str(&mut s, ".");
    push_decimal(&mut s, b as u64);
    push_str(&mut s, ".");
    push_decimal(&mut s, c as u64);
    push_str(&mut s, ".");
    push_decimal(&mut s, d as u64);
    proof {
        assert(s@ =~= ipv4_text(a, b, c, d));
    }
    s
}

/// The first address that is not the loopback address `127.0.0.1`, cut to its 24 bit prefix.
pub open spec fn lan_subnet(addrs: Seq<(u8, u8, u8, u8)>) -> Option<(u8, u8, u8)>
    decreases addrs.len(),
{
    if addrs.len() == 0 {
        None
    } else if addrs[0] != (127u8, 0u8, 0u8, 1u8) {
        Some((addrs[0].0, addrs[0].1, addrs[0].2))
    } else {
        lan_subnet(addrs.drop_first())
    }
}

/// The 24 bit subnet of the first IPv4 address of the machine that is not `127.0.0.1`.
pub fn subnet_of_lan_address(addrs: &Vec<(u8, u8, u8, u8)>) -> (res: Option<(u8, u8, u8)>)
    ensures
        res == lan_subnet(addrs@),
        res is None <==> forall|k: int| 0 <= k < addrs@.len() ==> addrs@[k] == (127u8, 0u8, 0u8, 1u8),
        res matches Some(p) ==> exists|k: int|
            0 <= k < addrs@.len() && addrs@[k] != (127u8, 0u8, 0u8, 1u8) && p == (
                addrs@[k].0,
                addrs@[k].1,
                addrs@[k].2,
            ),
{
    proof {
        law_subnet_skips_loopback(addrs@);
    }
    let mut i: usize = 0;
    proof {
        assert(addrs@.skip(0) =~= addrs@);
    }
    while i < addrs.len()
        invariant
            i <= addrs@.len(),
            lan_subnet(addrs@) == lan_subnet(addrs@.skip(i as int)),
        decreases addrs.len() - i,
    {
        let a = addrs[i];
        proof {
            assert(addrs@.skip(i as int).drop_first() =~= addrs@.skip(i + 1));
            assert(addrs@.skip(i as int)[0] == a);
        }
        if !(a.0 == 127 && a.1 == 0 && a.2 == 0 && a.3 == 1) {
            return Some((a.0, a.1, a.2));
        }
        i = i + 1;
    }
    None
}

/// The addresses of a subnet that are scanned, from the lowest last octet up.
pub open spec fn scan_addresses(subnet: (u8, u8, u8)) -> Seq<Seq<char>> {
    Seq::new(
        (MAX_SUBNET_ADDR - MIN_SUBNET_ADDR) as nat,
        |i: int| ipv4_text(subnet.0, subnet.1, subnet.2, (MIN_SUBNET_ADDR + i) as u8),
    )
}

/// The addresses of a subnet to scan for an orchestrator.
pub fn addresses_to_scan(subnet: (u8, u8, u8)) -> (res: Vec<String>)
    ensures
        crate::gql_model::text_views(res@) == scan_addresses(subnet),
{
    let mut addrs: Vec<String> = Vec::new();
    let mut x: u8 = MIN_SUBNET_ADDR;
    while x < MAX_SUBNET_ADDR
        invariant
            MIN_SUBNET_ADDR <= x <= MAX_SUBNET_ADDR,
            addrs@.len() == x - MIN_SUBNET_ADDR,
            forall|j: int| 0 <= j < addrs@.len() ==> #[trigger] addrs@[j]@ == scan_addresses(subnet)[j],
        decreases MAX_SUBNET_ADDR - x,
    {
        addrs.push(ipv4_to_text(subnet.0, subnet.1, subnet.2, x));
        x = x + 1;
    }
    proof {
        assert(crate::gql_model::text_views(addrs@) =~= scan_addresses(subnet));
    }
    addrs
}

/// The url a scanned address is pinged at.
pub fn ping_url(addr: &str, port: u16) -> (res: String)
    ensures
        res@ == "http://"@ + addr@ + ":"@ + decimal_digits(port as nat) + "/ping"@,
{
    let mut s = owned("http://");
    push_str(&mut s, addr);
    push_str(&mut s, ":");
    push_decimal(&mut s, port as u64);
    push_str(&mut s, "/ping");
    s
}

/// The orchestrator found by a scan: the first machine that answered.
pub fn first_machine(machines: &Vec<String>) -> (res: Option<String>)
    ensures
        match res {
            Some(m) => machines@.len() > 0 && m@ == machines@[0]@,
            None => machines@.len() == 0,
        },
{
    if machines.len() > 0 {
        Some(machines[0].clone())
    } else {
        None
    }
}

/// Whether a health check is tried again after `failures` failed attempts: always without a
/// retry limit, and while fewer attempts than the limit were made otherwise.
pub fn retry_healthcheck(failures: u64, retry_limit: Option<u16>) -> (res: bool)
    ensures
        res == match retry_limit {
            Some(n) => failures < n,
            None => true,
        },
{
    match retry_limit {
        Some(n) => failures < n as u64,
        None => true,
    }
}

/// The subnet scanned is the 24-bit prefix of the first address that is not the loopback
/// address 127.0.0.1: loopback addresses before it are skipped, and a machine with only the
/// loopback address has no subnet.
pub proof fn law_subnet_skips_loopback(addrs: Seq<(u8, u8, u8, u8)>)
    ensures
        lan_subnet(addrs) is None <==> forall|k: int| 0 <= k < addrs.len() ==> addrs[k] == (127u8, 0u8, 0u8, 1u8),
        lan_subnet(addrs) matches Some(p) ==> exists|k: int|
            0 <= k < addrs.len() && addrs[k] != (127u8, 0u8, 0u8, 1u8) && p == (
                addrs[k].0,
                addrs[k].1,
                addrs[k].2,
            ) && forall|j: int| 0 <= j < k ==> addrs[j] == (127u8, 0u8, 0u8, 1u8),
    decreases addrs.len(),
{
    if addrs.len() > 0 {
        let rest = addrs.drop_first();
        law_subnet_skips_loopback(rest);
        if addrs[0] == (127u8, 0u8, 0u8, 1u8) {
            if lan_subnet(rest) is None {
                assert forall|k: int| 0 <= k < addrs.len() implies addrs[k] == (127u8, 0u8, 0u8, 1u8) by {
                    if k > 0 {
                        assert(addrs[k] == rest[k - 1]);
                    }
                }
            } else {
                let p = lan_subnet(rest)->0;
                let k = choose|k: int|
                    0 <= k < rest.len() && rest[k] != (127u8, 0u8, 0u8, 1u8) && p == (
                        rest[k].0,
                        rest[k].1,
                        rest[k].2,
                    ) && forall|j: int| 0 <= j < k ==> rest[j] == (127u8, 0u8, 0u8, 1u8);
                assert(addrs[k + 1] == rest[k]);
                assert forall|j: int| 0 <= j < k + 1 implies addrs[j] == (127u8, 0u8, 0u8, 1u8) by {
                    if j > 0 {
                        assert(addrs[j] == rest[j - 1]);
                    }
                }
                assert(!(forall|j: int| 0 <= j < addrs.len() ==> addrs[j] == (127u8, 0u8, 0u8, 1u8)));
            }
        } else {
            assert(!(forall|j: int| 0 <= j < addrs.len() ==> addrs[j] == (127u8, 0u8, 0u8, 1u8)));
        }
    }
}

} // verus!
