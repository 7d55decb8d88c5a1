//! The command that tells the public address.

use vstd::prelude::*;

use crate::check_ip_opts::{host_of, service_of, CheckIpOpts, HostNotFound, DNS_PORT};
use crate::dns_name::name_parse;
use crate::net::SocketAddr;
use crate::public_ip::{default_name, default_server, DnsRecordType, Service, ServiceView};

verus! {

/// The command that tells the public address: the service to ask, if one was chosen.
#[derive(Debug)]
pub struct CheckIp {
    pub opts: Option<CheckIpOpts>,
}

/// The service to use where none was chosen, given what its name reads as.
pub open spec fn default_service(name: Seq<char>) -> ServiceView {
    ServiceView::Dns { server: default_server(), record_type: DnsRecordType::A, name }
}

impl CheckIp {
    /// The host name to look up before the service can be asked, if its server was named
    /// by one, and the port to look it up for.
    pub fn lookup_host(&self) -> (r: Option<(String, u16)>)
        ensures
            match self.opts {
                Some(opts) => match host_of(opts@) {
                    Some(name) => r matches Some((host, port)) && host@ == name && port
                        == DNS_PORT,
                    None => r is None,
                },
                None => r is None,
            },
    {
        match &self.opts {
            Some(opts) => opts.lookup_host(),
            None => None,
        }
    }

    /// The service that the command asks: the one that was chosen, and else the default
    /// one. `found` holds the addresses that the lookup of the server's host name gave, if
    /// the server was named by one.
    pub fn run(self, found: &[SocketAddr]) -> (r: Result<Service, HostNotFound>)
        requires
            self.opts is None ==> name_parse(default_name()) is Some,
        ensures
            match self.opts {
                Some(opts) => match r {
                    Ok(service) => service_of(opts@, found@) == Some(service@),
                    Err(_) => service_of(opts@, found@) is None,
                },
                None => r matches Ok(service) && service@ == default_service(
                    name_parse(default_name())->0,
                ),
            },
    {
        match self.opts {
            Some(opts) => opts.into_service(found),
            None => Ok(Service::default()),
        }
    }

    /// The service that the command asks, as `run` tells it, or `None` where none was
    /// chosen and the name of the default one does not read as a domain name.
    pub fn try_run(self, found: &[SocketAddr]) -> (r: Option<Result<Service, HostNotFound>>)
        ensures
            r is None <==> self.opts is None && name_parse(default_name()) is None,
            r matches Some(run) ==> match self.opts {
                Some(opts) => match run {
                    Ok(service) => service_of(opts@, found@) == Some(service@),
                    Err(_) => service_of(opts@, found@) is None,
                },
                None => run matches Ok(service) && service@ == default_service(
                    name_parse(default_name())->0,
                ),
            },
    {
        if self.opts.is_none() && Service::try_default().is_none() {
            None
        } else {
            Some(self.run(found))
        }
    }
}

} // verus!
