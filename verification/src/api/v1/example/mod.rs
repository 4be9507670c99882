//! `POST /v1/example/hello`: looks a user up and answers with it.

pub mod requests;
pub mod responses;

use vstd::prelude::*;
use crate::api::error::{classified, Error};
use vstd::string::to_string_from_display_ensures;
use anyhow::Error as AnyhowError;
use responses::HelloResponse;
use crate::sqlx_client::users::example_user_address;

verus! {

/// The reply carries the user that the lookup found.
pub open spec fn replies_with_found_user(
    found: Result<String, AnyhowError>,
    reply: Result<HelloResponse, Error>,
) -> bool {
    found matches Ok(user) ==> (reply matches Ok(resp) && resp.user@ == user@)
}

/// Whatever address a hello request asks for, the lookup answers with the
/// example user (see `users::get_user`), and the reply carries it.
pub proof fn lemma_hello_answers_example_user(
    found: Result<String, AnyhowError>,
    reply: Result<HelloResponse, Error>,
)
    requires
        found matches Ok(user) && user@ == example_user_address(),
        replies_with_found_user(found, reply),
    ensures
        reply matches Ok(resp) && resp.user@ == example_user_address(),
{
}

/// The answer to a hello request, given what the user lookup returned: the
/// user that was found, or the lookup's error turned into an API error (see
/// `Error::from_anyhow`).
pub fn hello_reply(found: Result<String, AnyhowError>) -> (r: Result<HelloResponse, Error>)
    ensures
        replies_with_found_user(found, r),
        found matches Err(e) ==> (r matches Err(err) && exists|text: String|
            to_string_from_display_ensures::<AnyhowError>(&e, text) && err == classified(
                e,
                #[trigger] text@,
            )),
{
    match found {
        Ok(user) => Ok(HelloResponse { user }),
        Err(e) => Err(Error::from_anyhow(e)),
    }
}

} // verus!
