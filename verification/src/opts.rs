//! What the command line says.

use vstd::prelude::*;

use crate::commands::check_ip::CheckIp;
use crate::commands::clear::Clear;
use crate::commands::txt::Txt;
use crate::commands::update::Update;
use crate::duck_dns::label::Label;
use crate::duck_dns::{labels_view, service_url, Client, Token};
use crate::web_url::url_parse;

verus! {

/// What the command line says: how much to tell, and the command to run.
pub struct Opts {
    /// Tell nothing.
    pub quiet: bool,
    /// How often more telling was asked for.
    pub verbose: usize,
    pub command: Command,
}

/// The command to run.
pub enum Command {
    Update(Update),
    Txt(Txt),
    Clear(Clear),
    CheckIp(CheckIp),
}

/// An account at the update service: its token and its domains.
pub struct Account {
    pub token: Token,
    pub domain: Vec<Label>,
}

/// Copies of `labels`.
fn clone_labels(labels: &Vec<Label>) -> (copies: Vec<Label>)
    ensures
        labels_view(copies@) == labels_view(labels@),
{
    let mut copies: Vec<Label> = Vec::new();
    let mut i: usize = 0;
    while i < labels.len()
        invariant
            i <= labels@.len(),
            copies@.len() == i,
            forall|j: int| 0 <= j < i ==> copies@[j]@ == labels@[j]@,
        decreases labels@.len() - i,
    {
        copies.push(labels[i].clone());
        i += 1;
    }
    assert(labels_view(copies@) =~= labels_view(labels@));
    copies
}

impl Account {
    /// The client for the account, if the address of the service reads as a URL.
    pub fn to_client(&self) -> (r: Option<Client>)
        ensures
            match r {
                Some(client) => url_parse(service_url()) == Some(client@.url) && client@.domains
                    == labels_view(self.domain@) && client@.token == self.token@,
                None => url_parse(service_url()) is None,
            },
    {
        Client::try_new(clone_labels(&self.domain), self.token.clone())
    }

    /// The client for the account, if the address of the service reads as a URL.
    pub fn into_client(self) -> (r: Option<Client>)
        ensures
            match r {
                Some(client) => url_parse(service_url()) == Some(client@.url) && client@.domains
                    == labels_view(self.domain@) && client@.token == self.token@,
                None => url_parse(service_url()) is None,
            },
    {
        Client::try_new(self.domain, self.token)
    }
}

/// `command`, asking for a verbose answer where it asks the update service for anything.
pub open spec fn verbosely(command: Command) -> Command {
    match command {
        Command::Update(c) => Command::Update(Update { verbose: true, ..c }),
        Command::Txt(c) => Command::Txt(Txt { verbose: true, ..c }),
        Command::Clear(c) => Command::Clear(Clear { verbose: true, ..c }),
        Command::CheckIp(c) => Command::CheckIp(c),
    }
}

impl Opts {
    /// The same, with the command asking for a verbose answer where more telling was
    /// asked for at all.
    pub fn propagate_verbose(self) -> (r: Opts)
        ensures
            r.quiet == self.quiet,
            r.verbose == self.verbose,
            r.command == if self.verbose == 0 {
                self.command
            } else {
                verbosely(self.command)
            },
    {
        if self.verbose == 0 {
            return self;
        }
        let command = match self.command {
            Command::Update(c) => Command::Update(Update { verbose: true, ..c }),
            Command::Txt(c) => Command::Txt(Txt { verbose: true, ..c }),
            Command::Clear(c) => Command::Clear(Clear { verbose: true, ..c }),
            Command::CheckIp(c) => Command::CheckIp(c),
        };
        Opts { quiet: self.quiet, verbose: self.verbose, command }
    }
}

} // verus!
