use vstd::prelude::*;

verus! {

/// The body of a request to `POST /v1/example/hello`.
pub struct HelloRequest {
    /// The address of the user to look up.
    pub user_address: String,
}

impl Default for HelloRequest {
    fn default() -> (r: HelloRequest)
        ensures
            r.user_address@ == Seq::<char>::empty(),
    {
        HelloRequest { user_address: String::new() }
    }
}

impl Clone for HelloRequest {
    fn clone(&self) -> (r: HelloRequest)
        ensures
            r.user_address@ == self.user_address@,
    {
        HelloRequest { user_address: self.user_address.clone() }
    }
}

} // verus!
