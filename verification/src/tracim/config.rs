//! The configuration of the interface: where it is, and who administers it.

use super::types::{ApiAddress, ApiKey, Email};
use crate::text::{chars_of, string_of};
use vstd::prelude::*;

verus! {

/// A text without the slashes that end it.
pub open spec fn without_slashes(text: Seq<char>) -> Seq<char>
    decreases text.len(),
{
    if text.len() > 0 && text.last() == '/' {
        without_slashes(text.drop_last())
    } else {
        text
    }
}

/// Where the interface is, and who administers it.
#[derive(Clone, Debug)]
pub struct Config {
    pub api_key: ApiKey,
    /// The address of the interface, without a slash at its end.
    pub api_address: ApiAddress,
    pub admin_email: Email,
}

impl Config {
    /// The configuration of the interface at `api_address`. The slashes that
    /// end the address are left out, so that a path can follow it.
    pub fn new(api_key: ApiKey, api_address: ApiAddress, admin_email: Email) -> (config: Self)
        ensures
            config.api_key == api_key,
            config.admin_email == admin_email,
            config.api_address.0@ == without_slashes(api_address.0@),
    {
        let address = chars_of(api_address.0.as_str());
        let mut end: usize = address.len();
        assert(address@.take(end as int) == address@);
        while end > 0 && address[end - 1] == '/'
            invariant
                end <= address.len(),
                without_slashes(address@) == without_slashes(address@.take(end as int)),
            decreases end,
        {
            assert(address@.take(end as int).drop_last() == address@.take(end - 1));
            end -= 1;
        }
        let mut trimmed: Vec<char> = Vec::new();
        for i in 0..end
            invariant
                end <= address.len(),
                trimmed@ == address@.take(i as int),
        {
            trimmed.push(address[i]);
            assert(address@.take(i + 1) == address@.take(i as int).push(address@[i as int]));
        }
        assert(address@.take(address@.len() as int) == address@);
        let api_address = ApiAddress(string_of(&trimmed));
        Self { api_key, api_address, admin_email }
    }
}

} // verus!
