//! The bookmarking client: what a favorite request looks like, and when the
//! service's reply counts as success.

use vstd::prelude::*;
use crate::address::{favorite_address, favorite_url};
use crate::error::Error;

verus! {

/// A status code of the success class, 200 to 299.
pub open spec fn is_success(status: u16) -> bool {
    200 <= status < 300
}

/// The credentials favorites are made with.
pub struct DanbooruClient<'a> {
    pub username: &'a str,
    pub apikey: &'a str,
}

/// A favorite request ready to be sent: a `POST` to `address` with basic
/// authentication and the given content type.
pub struct Favorite<'a> {
    pub address: String,
    pub username: &'a str,
    pub password: &'a str,
    pub content_type: &'static str,
}

impl<'a> DanbooruClient<'a> {
    /// A client acting for `username`.
    pub fn new(username: &'a str, apikey: &'a str) -> (client: Self)
        ensures
            client.username@ == username@,
            client.apikey@ == apikey@,
    {
        DanbooruClient { username, apikey }
    }

    /// The request that marks post `id` as a favorite of the client's user.
    pub fn fav(&self, id: u64) -> (r: Result<Favorite<'a>, Error>)
        ensures
            match r {
                Ok(request) => {
                    &&& favorite_address(id) == Some(request.address@)
                    &&& request.username@ == self.username@
                    &&& request.password@ == self.apikey@
                    &&& request.content_type@ == "application/json"@
                },
                Err(e) => e == Error::Config && favorite_address(id) is None,
            },
    {
        match favorite_url(id) {
            Ok(address) => Ok(
                Favorite {
                    address,
                    username: self.username,
                    password: self.apikey,
                    content_type: "application/json",
                },
            ),
            Err(e) => Err(e),
        }
    }

    /// Judges the service's reply to a favorite: any status outside the success
    /// class fails the workflow that asked.
    pub fn confirm(status: u16) -> (r: Result<(), Error>)
        ensures
            is_success(status) ==> r == Ok::<(), Error>(()),
            !is_success(status) ==> r == Err::<(), Error>(Error::Favorite(status)),
    {
        if 200 <= status && status < 300 {
            Ok(())
        } else {
            Err(Error::Favorite(status))
        }
    }
}

} // verus!
