use vstd::prelude::*;

verus! {

/// The body of the answer to `POST /v1/example/hello`.
pub struct HelloResponse {
    /// The user that was found.
    pub user: String,
}

impl Clone for HelloResponse {
    fn clone(&self) -> (r: HelloResponse)
        ensures
            r.user@ == self.user@,
    {
        HelloResponse { user: self.user.clone() }
    }
}

} // verus!
