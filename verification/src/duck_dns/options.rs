//! What a request to the update service says.

use vstd::prelude::*;
use vstd::std_specs::convert::FromSpecImpl;

use crate::net::{IpAddr, Ipv4Addr, Ipv6Addr};

verus! {

/// What an update says: the addresses to set, and whether the answer should be verbose.
/// Where no address is named, the service takes the one that the request comes from.
#[derive(Clone, Copy, Debug, PartialEq, Eq, Structural)]
pub struct UpdateOptions {
    pub ipv4: Option<Ipv4Addr>,
    pub ipv6: Option<Ipv6Addr>,
    pub verbose: bool,
}

impl UpdateOptions {
    /// An update that sets both addresses.
    pub fn new(ipv4: Ipv4Addr, ipv6: Ipv6Addr, verbose: bool) -> (o: UpdateOptions)
        ensures
            o == (UpdateOptions { ipv4: Some(ipv4), ipv6: Some(ipv6), verbose }),
    {
        UpdateOptions { ipv4: Some(ipv4), ipv6: Some(ipv6), verbose }
    }

    /// An update that sets the IPv4 address.
    pub fn ipv4(ipv4: Ipv4Addr, verbose: bool) -> (o: UpdateOptions)
        ensures
            o == (UpdateOptions { ipv4: Some(ipv4), ipv6: None, verbose }),
    {
        UpdateOptions { ipv4: Some(ipv4), ipv6: None, verbose }
    }

    /// An update that sets the IPv6 address.
    pub fn ipv6(ipv6: Ipv6Addr, verbose: bool) -> (o: UpdateOptions)
        ensures
            o == (UpdateOptions { ipv4: None, ipv6: Some(ipv6), verbose }),
    {
        UpdateOptions { ipv4: None, ipv6: Some(ipv6), verbose }
    }

    /// An update that names no address and asks for a verbose answer.
    pub fn verbose() -> (o: UpdateOptions)
        ensures
            o == (UpdateOptions { ipv4: None, ipv6: None, verbose: true }),
    {
        UpdateOptions { ipv4: None, ipv6: None, verbose: true }
    }
}

impl Default for UpdateOptions {
    /// An update that names no address and asks for a terse answer.
    fn default() -> (o: UpdateOptions)
        ensures
            o == (UpdateOptions { ipv4: None, ipv6: None, verbose: false }),
    {
        UpdateOptions { ipv4: None, ipv6: None, verbose: false }
    }
}

impl From<Ipv4Addr> for UpdateOptions {
    fn from(val: Ipv4Addr) -> (o: UpdateOptions)
        ensures
            o == (UpdateOptions { ipv4: Some(val), ipv6: None, verbose: false }),
    {
        UpdateOptions { ipv4: Some(val), ipv6: None, verbose: false }
    }
}

impl FromSpecImpl<Ipv4Addr> for UpdateOptions {
    open spec fn obeys_from_spec() -> bool {
        true
    }

    open spec fn from_spec(val: Ipv4Addr) -> UpdateOptions {
        UpdateOptions { ipv4: Some(val), ipv6: None, verbose: false }
    }
}

impl From<Ipv6Addr> for UpdateOptions {
    fn from(val: Ipv6Addr) -> (o: UpdateOptions)
        ensures
            o == (UpdateOptions { ipv4: None, ipv6: Some(val), verbose: false }),
    {
        UpdateOptions { ipv4: None, ipv6: Some(val), verbose: false }
    }
}

impl FromSpecImpl<Ipv6Addr> for UpdateOptions {
    open spec fn obeys_from_spec() -> bool {
        true
    }

    open spec fn from_spec(val: Ipv6Addr) -> UpdateOptions {
        UpdateOptions { ipv4: None, ipv6: Some(val), verbose: false }
    }
}

impl From<IpAddr> for UpdateOptions {
    fn from(val: IpAddr) -> (o: UpdateOptions)
        ensures
            o == (match val {
                IpAddr::V4(v4) => UpdateOptions { ipv4: Some(v4), ipv6: None, verbose: false },
                IpAddr::V6(v6) => UpdateOptions { ipv4: None, ipv6: Some(v6), verbose: false },
            }),
    {
        match val {
            IpAddr::V4(v4) => UpdateOptions { ipv4: Some(v4), ipv6: None, verbose: false },
            IpAddr::V6(v6) => UpdateOptions { ipv4: None, ipv6: Some(v6), verbose: false },
        }
    }
}

impl FromSpecImpl<IpAddr> for UpdateOptions {
    open spec fn obeys_from_spec() -> bool {
        true
    }

    open spec fn from_spec(val: IpAddr) -> UpdateOptions {
        match val {
            IpAddr::V4(v4) => UpdateOptions { ipv4: Some(v4), ipv6: None, verbose: false },
            IpAddr::V6(v6) => UpdateOptions { ipv4: None, ipv6: Some(v6), verbose: false },
        }
    }
}

impl From<(Ipv4Addr, Ipv6Addr)> for UpdateOptions {
    fn from(val: (Ipv4Addr, Ipv6Addr)) -> (o: UpdateOptions)
        ensures
            o == (UpdateOptions { ipv4: Some(val.0), ipv6: Some(val.1), verbose: false }),
    {
        UpdateOptions { ipv4: Some(val.0), ipv6: Some(val.1), verbose: false }
    }
}

impl FromSpecImpl<(Ipv4Addr, Ipv6Addr)> for UpdateOptions {
    open spec fn obeys_from_spec() -> bool {
        true
    }

    open spec fn from_spec(val: (Ipv4Addr, Ipv6Addr)) -> UpdateOptions {
        UpdateOptions { ipv4: Some(val.0), ipv6: Some(val.1), verbose: false }
    }
}

impl From<()> for UpdateOptions {
    fn from(val: ()) -> (o: UpdateOptions)
        ensures
            o == (UpdateOptions { ipv4: None, ipv6: None, verbose: false }),
    {
        UpdateOptions { ipv4: None, ipv6: None, verbose: false }
    }
}

impl FromSpecImpl<()> for UpdateOptions {
    open spec fn obeys_from_spec() -> bool {
        true
    }

    open spec fn from_spec(val: ()) -> UpdateOptions {
        UpdateOptions { ipv4: None, ipv6: None, verbose: false }
    }
}

/// What a request to clear the addresses says: whether the answer should be verbose.
#[derive(Clone, Copy, Debug, PartialEq, Eq, Structural)]
pub struct ClearOptions {
    pub verbose: bool,
}

impl ClearOptions {
    /// A request to clear the addresses.
    pub fn new(verbose: bool) -> (o: ClearOptions)
        ensures
            o.verbose == verbose,
    {
        ClearOptions { verbose }
    }

    /// A request to clear the addresses that asks for a verbose answer.
    pub fn verbose() -> (o: ClearOptions)
        ensures
            o.verbose,
    {
        ClearOptions { verbose: true }
    }
}

impl Default for ClearOptions {
    /// A request to clear the addresses that asks for a terse answer.
    fn default() -> (o: ClearOptions)
        ensures
            !o.verbose,
    {
        ClearOptions { verbose: false }
    }
}

impl From<()> for ClearOptions {
    fn from(val: ()) -> (o: ClearOptions)
        ensures
            o == (ClearOptions { verbose: false }),
    {
        ClearOptions { verbose: false }
    }
}

impl FromSpecImpl<()> for ClearOptions {
    open spec fn obeys_from_spec() -> bool {
        true
    }

    open spec fn from_spec(val: ()) -> ClearOptions {
        ClearOptions { verbose: false }
    }
}

/// What an update of the text record says: the text to set, and whether the answer should
/// be verbose.
#[derive(Debug)]
pub struct TxtOptions {
    pub txt: String,
    pub verbose: bool,
}

impl TxtOptions {
    /// An update that sets the text record to `txt`.
    pub fn new(txt: String, verbose: bool) -> (o: TxtOptions)
        ensures
            o.txt == txt,
            o.verbose == verbose,
    {
        TxtOptions { txt, verbose }
    }
}

impl From<String> for TxtOptions {
    fn from(val: String) -> (o: TxtOptions)
        ensures
            o == (TxtOptions { txt: val, verbose: false }),
    {
        TxtOptions { txt: val, verbose: false }
    }
}

impl FromSpecImpl<String> for TxtOptions {
    open spec fn obeys_from_spec() -> bool {
        true
    }

    open spec fn from_spec(val: String) -> TxtOptions {
        TxtOptions { txt: val, verbose: false }
    }
}

impl<'a> From<&'a str> for TxtOptions {
    fn from(val: &'a str) -> (o: TxtOptions)
        ensures
            o.txt@ == val@,
            !o.verbose,
    {
        TxtOptions { txt: val.to_owned(), verbose: false }
    }
}

impl<'a> FromSpecImpl<&'a str> for TxtOptions {
    /// The string that holds the text is made anew, so that no spec function names it.
    open spec fn obeys_from_spec() -> bool {
        false
    }

    open spec fn from_spec(val: &'a str) -> TxtOptions {
        arbitrary()
    }
}

/// What a request to clear the text record says: whether the answer should be verbose.
#[derive(Clone, Copy, Debug, PartialEq, Eq, Structural)]
pub struct ClearTxtOptions {
    pub verbose: bool,
}

impl ClearTxtOptions {
    /// A request to clear the text record.
    pub fn new(verbose: bool) -> (o: ClearTxtOptions)
        ensures
            o.verbose == verbose,
    {
        ClearTxtOptions { verbose }
    }

    /// A request to clear the text record that asks for a verbose answer.
    pub fn verbose() -> (o: ClearTxtOptions)
        ensures
            o.verbose,
    {
        ClearTxtOptions { verbose: true }
    }
}

impl Default for ClearTxtOptions {
    /// A request to clear the text record that asks for a terse answer.
    fn default() -> (o: ClearTxtOptions)
        ensures
            !o.verbose,
    {
        ClearTxtOptions { verbose: false }
    }
}

impl From<()> for ClearTxtOptions {
    fn from(val: ()) -> (o: ClearTxtOptions)
        ensures
            o == (ClearTxtOptions { verbose: false }),
    {
        ClearTxtOptions { verbose: false }
    }
}

impl FromSpecImpl<()> for ClearTxtOptions {
    open spec fn obeys_from_spec() -> bool {
        true
    }

    open spec fn from_spec(val: ()) -> ClearTxtOptions {
        ClearTxtOptions { verbose: false }
    }
}

} // verus!
