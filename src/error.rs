use vstd::prelude::*;

verus! {

/// The step of an operation that failed.
#[derive(Debug, Clone, Copy, PartialEq, Eq, Structural)]
pub enum ClientError {
    /// The access token could not be obtained.
    Auth,
    /// The embedding call failed or its reply had an unexpected shape.
    Embedding,
    /// A vector could not be written to the store.
    Store,
    /// A similarity search failed or its reply had an unexpected shape.
    Query,
}

/// An HTTP status in the success class (2xx).
pub open spec fn is_success_spec(status: u16) -> bool {
    200 <= status <= 299
}

/// Whether `status` belongs to the success class.
pub fn is_success(status: u16) -> (r: bool)
    ensures
        r == is_success_spec(status),
{
    200 <= status && status <= 299
}

/// Turns the status of a reply into the outcome of the step that sent the
/// request: success for a 2xx status, `on_failure` for any other.
pub fn status_outcome(status: u16, on_failure: ClientError) -> (r: Result<(), ClientError>)
    ensures
        r == (if is_success_spec(status) {
            Ok::<(), ClientError>(())
        } else {
            Err(on_failure)
        }),
{
    if is_success(status) {
        Ok(())
    } else {
        Err(on_failure)
    }
}

} // verus!
