//! The command that sets the text record of an account.

use url::Url;
use vstd::prelude::*;

use crate::duck_dns::options::TxtOptions;
use crate::duck_dns::{is_request, txt_pairs, Client};
use crate::opts::Account;

verus! {

/// The command that sets the text record of an account to `txt`.
pub struct Txt {
    pub txt: String,
    pub account: Account,
    pub verbose: bool,
}

impl Txt {
    /// The URL of the request that the command sends for the account `client`, if a URL
    /// has room for it. The answer is one about the text record.
    pub fn run(&self, client: &Client) -> (r: Option<Url>)
        ensures
            is_request(client@, txt_pairs(self.txt@, self.verbose), r),
    {
        client.update_txt(TxtOptions::new(self.txt.clone(), self.verbose))
    }
}

} // verus!
