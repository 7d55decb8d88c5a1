//! The command that clears the addresses of an account, or its text record.

use url::Url;
use vstd::prelude::*;

use crate::duck_dns::options::{ClearOptions, ClearTxtOptions};
use crate::duck_dns::{clear_pairs, clear_txt_pairs, is_request, Client};
use crate::opts::Account;

verus! {

/// The command that clears the addresses of an account, or its text record where `txt`
/// holds.
pub struct Clear {
    pub txt: bool,
    pub account: Account,
    pub verbose: bool,
}

impl Clear {
    /// The URL of the request that the command sends for the account `client`, if a URL
    /// has room for it. The answer is one about the text record where `txt` holds, and
    /// else one about the addresses.
    pub fn run(&self, client: &Client) -> (r: Option<Url>)
        ensures
            is_request(
                client@,
                if self.txt {
                    clear_txt_pairs(ClearTxtOptions { verbose: self.verbose })
                } else {
                    clear_pairs(ClearOptions { verbose: self.verbose })
                },
                r,
            ),
    {
        if self.txt {
            client.clear_txt(ClearTxtOptions::new(self.verbose))
        } else {
            client.clear(ClearOptions::new(self.verbose))
        }
    }
}

} // verus!
