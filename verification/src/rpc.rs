//! The host's decisions on a plugin's reply: correlating a response with
//! its request, and turning a wire-level error object into the matching
//! [`PluginError`].

use vstd::prelude::*;
use vstd::string::*;
use serde_json::Value;
use crate::error::{PluginError, PluginErrorView, PluginResult};
use crate::job::JobId;
use crate::protocol::{RequestId, RpcErrorObject, RpcOutcome, RpcRequest, RpcResponse};
use crate::text::{decimal, push_decimal};

verus! {

/// The count that follows `n`, wrapping to 0 after `u64::MAX` as an atomic
/// fetch-and-add does.
pub open spec fn next_count(n: u64) -> u64 {
    if n == u64::MAX {
        0
    } else {
        (n + 1) as u64
    }
}

/// The count after `k` ids have been handed out from a count of `n`.
pub open spec fn count_after(n: u64, k: nat) -> u64
    decreases k,
{
    if k == 0 {
        n
    } else {
        count_after(next_count(n), (k - 1) as nat)
    }
}

/// Hands out the ids of a connection's requests: 1, 2, 3, and so on, one
/// per request, whether or not the call that used it succeeds.
pub struct RequestIdCounter {
    next: u64,
    issued: Ghost<nat>,
}

impl View for RequestIdCounter {
    type V = u64;

    /// The id the next request gets.
    closed spec fn view(&self) -> u64 {
        self.next
    }
}

impl RequestIdCounter {
    /// How many ids have been handed out since the counter was made.
    pub closed spec fn issued(&self) -> nat {
        self.issued@
    }

    /// The count always follows from the number of ids handed out.
    #[verifier::type_invariant]
    closed spec fn counts_from_one(self) -> bool {
        self.next == count_after(1, self.issued@)
    }

    /// A counter whose first id is 1.
    pub fn new() -> (res: Self)
        ensures
            res@ == 1,
            res.issued() == 0,
    {
        RequestIdCounter { next: 1, issued: Ghost(0) }
    }

    /// The id of the next request; the count goes up by one. The `n`-th id
    /// handed out is `n`.
    pub fn next_request_id(&mut self) -> (res: RequestId)
        ensures
            res.0 == old(self)@,
            final(self)@ == next_count(old(self)@),
            final(self).issued() == old(self).issued() + 1,
            old(self).issued() < u64::MAX ==> res.0 == old(self).issued() + 1,
    {
        proof {
            use_type_invariant(&*self);
            lemma_count_after_step(1, self.issued@);
            if self.issued@ < u64::MAX {
                lemma_count_after_from_one(self.issued@);
            }
        }
        let id = self.next;
        let next = if self.next == u64::MAX {
            0
        } else {
            self.next + 1
        };
        *self = RequestIdCounter { next, issued: Ghost(self.issued@ + 1) };
        RequestId(id)
    }

    /// The next request of the connection: `method` with `params`, under
    /// the next id. The `n`-th request drawn carries id `n`.
    pub fn next_request(&mut self, method: &str, params: Value) -> (res: RpcRequest)
        ensures
            res.id.0 == old(self)@,
            res.method@ == method@,
            res.params == params,
            final(self)@ == next_count(old(self)@),
            final(self).issued() == old(self).issued() + 1,
            old(self).issued() < u64::MAX ==> res.id.0 == old(self).issued() + 1,
    {
        let id = self.next_request_id();
        RpcRequest::new(id, method, params)
    }
}

proof fn lemma_count_after_from_one(k: nat)
    requires
        k < u64::MAX,
    ensures
        count_after(1, k) == k + 1,
    decreases k,
{
    if k > 0 {
        lemma_count_after_from_one((k - 1) as nat);
        lemma_count_after_step(1, (k - 1) as nat);
    }
}

proof fn lemma_count_after_step(n: u64, k: nat)
    ensures
        count_after(n, k + 1) == next_count(count_after(n, k)),
    decreases k,
{
    assert(count_after(n, k + 1) == count_after(next_count(n), k));
    if k > 0 {
        lemma_count_after_step(next_count(n), (k - 1) as nat);
    } else {
        assert(count_after(next_count(n), 0) == next_count(n));
    }
}

/// Ids run 1, 2, 3, ... from a fresh counter: the `k`-th id handed out
/// (counting from 0) is `k + 1`, and no id is handed out twice among the
/// first `u64::MAX` requests.
pub proof fn lemma_request_ids_run_from_one(i: nat, j: nat)
    requires
        i < j < u64::MAX,
    ensures
        count_after(1, i) == i + 1,
        count_after(1, j) == j + 1,
        count_after(1, i) != count_after(1, j),
{
    lemma_count_after_from_one(i);
    lemma_count_after_from_one(j);
}

/// The plugin error that [`decode_rpc_error`] decodes from a wire error
/// object's code and message, given the job the call was about (if any).
pub open spec fn decoded_error(
    code: Seq<char>,
    message: Seq<char>,
    job_id: Option<Seq<char>>,
) -> PluginErrorView {
    if code == "connection_failed"@ {
        PluginErrorView::ConnectionFailed(message)
    } else if code == "timeout"@ {
        PluginErrorView::Timeout
    } else if code == "invalid_response"@ {
        PluginErrorView::InvalidResponse(message)
    } else if code == "job_not_found"@ && job_id is Some {
        PluginErrorView::JobNotFound(job_id->0)
    } else {
        PluginErrorView::Unknown(message)
    }
}

/// The view of an optional job id.
pub open spec fn job_id_view(job_id: Option<&JobId>) -> Option<Seq<char>> {
    match job_id {
        Some(id) => Some(id@),
        None => None,
    }
}

/// Maps a wire-level [`RpcErrorObject`] back into a [`PluginError`].
///
/// A code that is not recognized falls back to [`PluginError::Unknown`]
/// rather than being treated as a transport failure. `job_id` only serves
/// to turn a `job_not_found` code into [`PluginError::JobNotFound`]: the
/// wire error object does not carry the id, but the caller knows which job
/// it asked about.
pub fn decode_rpc_error(error: RpcErrorObject, job_id: Option<&JobId>) -> (res: PluginError)
    ensures
        res@ == decoded_error(error.code@, error.message@, job_id_view(job_id)),
{
    if error.code == String::from_str("connection_failed") {
        PluginError::ConnectionFailed(error.message)
    } else if error.code == String::from_str("timeout") {
        PluginError::Timeout
    } else if error.code == String::from_str("invalid_response") {
        PluginError::InvalidResponse(error.message)
    } else if error.code == String::from_str("job_not_found") && job_id.is_some() {
        let id = job_id.unwrap();
        PluginError::JobNotFound(JobId::new(id.as_str()))
    } else {
        PluginError::Unknown(error.message)
    }
}

/// The job a call was about only matters for a `job_not_found` code: for
/// every other code the decoded error is the same with or without a job.
pub proof fn lemma_job_id_only_matters_for_job_not_found(
    code: Seq<char>,
    message: Seq<char>,
    id: Seq<char>,
)
    requires
        code != "job_not_found"@,
    ensures
        decoded_error(code, message, Some(id)) == decoded_error(code, message, None),
{
}

/// Each code the protocol names decodes to its own error, whatever job the
/// call was about: `connection_failed` and `invalid_response` carry the
/// plugin's message, `timeout` carries nothing, and `job_not_found` names
/// the job the call was about (or is unknown when there was none).
pub proof fn lemma_known_codes(message: Seq<char>, job_id: Option<Seq<char>>)
    ensures
        decoded_error("connection_failed"@, message, job_id)
            == PluginErrorView::ConnectionFailed(message),
        decoded_error("timeout"@, message, job_id) == PluginErrorView::Timeout,
        decoded_error("invalid_response"@, message, job_id)
            == PluginErrorView::InvalidResponse(message),
        job_id matches Some(id) ==> decoded_error("job_not_found"@, message, job_id)
            == PluginErrorView::JobNotFound(id),
        job_id is None ==> decoded_error("job_not_found"@, message, job_id)
            == PluginErrorView::Unknown(message),
{
    reveal_strlit("connection_failed");
    reveal_strlit("timeout");
    reveal_strlit("invalid_response");
    reveal_strlit("job_not_found");
    assert("timeout"@.len() != "connection_failed"@.len());
    assert("invalid_response"@.len() != "connection_failed"@.len());
    assert("invalid_response"@.len() != "timeout"@.len());
    assert("job_not_found"@.len() != "connection_failed"@.len());
    assert("job_not_found"@.len() != "timeout"@.len());
    assert("job_not_found"@.len() != "invalid_response"@.len());
}

/// A code other than the four that the protocol names (and `job_not_found`
/// when the call was about no job) is reported as an unknown error that
/// carries the plugin's message.
pub proof fn lemma_unrecognized_code_is_unknown(
    code: Seq<char>,
    message: Seq<char>,
    job_id: Option<Seq<char>>,
)
    requires
        code != "connection_failed"@,
        code != "timeout"@,
        code != "invalid_response"@,
        code == "job_not_found"@ ==> job_id is None,
    ensures
        decoded_error(code, message, job_id) == PluginErrorView::Unknown(message),
{
}

/// The outcome of a call as the client reports it: the decoded result, or
/// the plugin's error mapped by [`decode_rpc_error`].
pub fn resolve_reply<R>(reply: Result<R, RpcErrorObject>, job_id: Option<&JobId>) -> (res:
    PluginResult<R>)
    ensures
        match reply {
            Ok(r) => res == Ok::<R, PluginError>(r),
            Err(e) => res is Err && res->Err_0@ == decoded_error(
                e.code@,
                e.message@,
                job_id_view(job_id),
            ),
        },
{
    match reply {
        Ok(result) => Ok(result),
        Err(error) => Err(decode_rpc_error(error, job_id)),
    }
}

/// `RequestId(n)`, the debug rendering of a request id.
pub open spec fn request_id_text(id: RequestId) -> Seq<char> {
    "RequestId("@ + decimal(id.0 as nat) + ")"@
}

/// The message of the error reported when a response answers another
/// request than the one that was sent.
pub open spec fn mismatch_message(request: RequestId, response: RequestId) -> Seq<char> {
    "response id "@ + request_id_text(response) + " did not match request id "@
        + request_id_text(request)
}

fn push_request_id(out: &mut String, id: RequestId)
    ensures
        final(out)@ == old(out)@ + request_id_text(id),
{
    out.append("RequestId(");
    push_decimal(out, id.0);
    out.append(")");
    assert(out@ =~= old(out)@ + request_id_text(id));
}

/// Checks that `response` answers the request `request_id` and splits its
/// outcome.
///
/// A well-formed error response is `Ok(Err(error))`, not a [`PluginError`]:
/// which error it means depends on the call. Only a response to another
/// request is an `Err` here, an [`PluginError::InvalidResponse`].
pub fn correlate_response(request_id: RequestId, response: RpcResponse) -> (res: PluginResult<
    Result<Value, RpcErrorObject>,
>)
    ensures
        response.id != request_id ==> res is Err && res->Err_0@ == PluginErrorView::InvalidResponse(
            mismatch_message(request_id, response.id),
        ),
        response.id == request_id ==> match response.outcome {
            RpcOutcome::Success { result } => res == Ok::<
                Result<Value, RpcErrorObject>,
                PluginError,
            >(Ok(result)),
            RpcOutcome::Error { error } => res == Ok::<
                Result<Value, RpcErrorObject>,
                PluginError,
            >(Err(error)),
        },
{
    if response.id != request_id {
        let mut message = String::from_str("response id ");
        push_request_id(&mut message, response.id);
        message.append(" did not match request id ");
        push_request_id(&mut message, request_id);
        proof {
            assert(message@ =~= mismatch_message(request_id, response.id));
        }
        return Err(PluginError::InvalidResponse(message));
    }
    match response.outcome {
        RpcOutcome::Success { result } => Ok(Ok(result)),
        RpcOutcome::Error { error } => Ok(Err(error)),
    }
}

} // verus!
