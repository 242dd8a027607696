//! The rate-limited search client: its quota, and what it decides around a call.
//!
//! The client never performs a call itself. Before one it says whether to wait
//! and where to send the request; after one it takes the answer, brings its
//! quota up to date and reads the match.

use vstd::prelude::*;
use vstd::string::*;
use crate::address::{search_address, search_url};
use crate::error::Error;
use crate::quota::{standard_cooldown, CooldownPlan, Quota, INITIAL_LONG, INITIAL_SHORT};
use crate::response::{match_of, quota_of, Match, SauceNaoResponse};

verus! {

/// The quota after `response` has been seen: what its header carries, or the
/// quota as it was where the header carries none.
pub open spec fn absorb(quota: Quota, response: SauceNaoResponse) -> Quota {
    match quota_of(response.header@) {
        Some(fresh) => fresh,
        None => quota,
    }
}

/// What `response` yields for the workflow that asked: its first result as a
/// match, or the reason why it cannot be read.
pub open spec fn outcome_of(response: SauceNaoResponse) -> Result<Match, Error> {
    match match_of(response.results@) {
        Err(e) => Err(Error::Decode(e)),
        Ok(m) => match quota_of(response.header@) {
            Some(_) => Ok(m),
            None => Err(Error::Decode(crate::error::DecodeError::QuotaMissing)),
        },
    }
}

/// The quota after each of `responses` has been seen in turn.
pub open spec fn quota_after(quota: Quota, responses: Seq<SauceNaoResponse>) -> Quota
    decreases responses.len(),
{
    if responses.len() == 0 {
        quota
    } else {
        absorb(quota_after(quota, responses.drop_last()), responses.last())
    }
}

/// After any number of calls the quota is the one carried by the header of the
/// latest response, whatever came before it.
pub proof fn lemma_quota_follows_latest_header(quota: Quota, responses: Seq<SauceNaoResponse>)
    requires
        responses.len() > 0,
        quota_of(responses.last().header@) is Some,
    ensures
        Some(quota_after(quota, responses)) == quota_of(responses.last().header@),
{
}

/// A response without a usable header leaves the quota as the calls before it
/// left it.
pub proof fn lemma_quota_kept_without_header(quota: Quota, responses: Seq<SauceNaoResponse>)
    requires
        responses.len() > 0,
        quota_of(responses.last().header@) is None,
    ensures
        quota_after(quota, responses) == quota_after(quota, responses.drop_last()),
{
}

/// The search client's state: the key it signs requests with and the quota it
/// believes is left.
pub struct SauceNaoClient {
    api_key: String,
    long_remaining: u64,
    short_remaining: u64,
    pub slow: bool,
}

impl SauceNaoClient {
    /// The key requests are signed with.
    pub closed spec fn key(&self) -> Seq<char> {
        self.api_key@
    }

    /// The quota the client believes is left.
    pub closed spec fn quota(&self) -> Quota {
        Quota { short_remaining: self.short_remaining, long_remaining: self.long_remaining }
    }

    /// Whether the client runs in slow mode, with the higher floor.
    pub closed spec fn is_slow(&self) -> bool {
        self.slow
    }

    /// A client that has seen no response yet, in normal mode.
    pub fn new(api_key: &str) -> (client: SauceNaoClient)
        ensures
            client.key() == api_key@,
            client.quota().short_remaining == INITIAL_SHORT,
            client.quota().long_remaining == INITIAL_LONG,
            !client.is_slow(),
    {
        SauceNaoClient {
            api_key: String::from_str(api_key),
            long_remaining: INITIAL_LONG,
            short_remaining: INITIAL_SHORT,
            slow: false,
        }
    }

    /// Switches slow mode on or off. Nothing else changes.
    pub fn set_slow(&mut self, slow: bool)
        ensures
            final(self).is_slow() == slow,
            final(self).key() == old(self).key(),
            final(self).quota() == old(self).quota(),
    {
        self.slow = slow;
    }

    /// The quota the client believes is left.
    pub fn remaining(&self) -> (quota: Quota)
        ensures
            quota == self.quota(),
    {
        Quota { short_remaining: self.short_remaining, long_remaining: self.long_remaining }
    }

    /// The wait that has to precede the next call: the standard cool-down exactly
    /// when the short counter is at or below the floor of the client's mode.
    pub fn cooldown(&self) -> (wait: Option<CooldownPlan>)
        ensures
            self.quota().throttled(self.is_slow()) ==> wait == Some(standard_cooldown()),
            !self.quota().throttled(self.is_slow()) ==> wait is None,
    {
        if self.remaining().needs_cooldown(self.slow) {
            Some(CooldownPlan::standard())
        } else {
            None
        }
    }

    /// Where the next call goes. With the long counter at zero there is no next
    /// call; otherwise the address is the search address for the client's key.
    pub fn request(&self) -> (r: Result<String, Error>)
        ensures
            self.quota().exhausted() ==> r == Err::<String, Error>(Error::LongLimit),
            !self.quota().exhausted() ==> match r {
                Ok(address) => search_address(self.key()) == Some(address@),
                Err(e) => e == Error::Config && search_address(self.key()) is None,
            },
    {
        if self.long_remaining == 0 {
            Err(Error::LongLimit)
        } else {
            search_url(self.api_key.as_str())
        }
    }

    /// Takes the answer to a call. The quota becomes what the answer's header
    /// carries, also when the answer holds no result; the match is that of the
    /// first result.
    pub fn tag(&mut self, response: &SauceNaoResponse) -> (r: Result<Match, Error>)
        ensures
            final(self).quota() == absorb(old(self).quota(), *response),
            final(self).key() == old(self).key(),
            final(self).is_slow() == old(self).is_slow(),
            r == outcome_of(*response),
            r matches Ok(m) ==> m.similarity.wf() && Some(final(self).quota()) == quota_of(
                response.header@,
            ),
    {
        let header = response.read_quota();
        match header {
            Some(fresh) => {
                self.short_remaining = fresh.short_remaining;
                self.long_remaining = fresh.long_remaining;
            },
            None => {},
        }
        match response.first_match() {
            Err(e) => Err(Error::Decode(e)),
            Ok(m) => match header {
                Some(_) => Ok(m),
                None => Err(Error::Decode(crate::error::DecodeError::QuotaMissing)),
            },
        }
    }
}

} // verus!
