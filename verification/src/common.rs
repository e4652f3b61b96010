//! Common query tooling: the decoded response model, the uniform error
//! type every fallible operation reports through, and the checked handoff
//! of results into channels.

use vstd::prelude::*;
use vstd::string::StringExecFns;

verus! {

/// One error entry of a query response.
#[derive(Debug, Clone)]
pub struct GqlError {
    pub message: String,
}

/// A decoded query response: optional data and an optional error list,
/// exactly the envelope the service answers with.
#[derive(Debug, Clone)]
pub struct QueryResponse<D> {
    pub data: Option<D>,
    pub errors: Option<Vec<GqlError>>,
}

/// A response that carried neither data nor errors.
#[derive(Debug, Clone)]
pub struct GQLResponseEmptyError {
    details: String,
}

impl GQLResponseEmptyError {
    /// Record why the response counted as empty.
    pub fn new(details: String) -> (r: GQLResponseEmptyError)
        ensures
            r.details_spec() == details@,
    {
        GQLResponseEmptyError { details }
    }

    /// The stored details as the contracts see them.
    pub closed spec fn details_spec(&self) -> Seq<char> {
        self.details@
    }

    /// A human-readable description of the failure.
    pub fn message(&self) -> (r: String)
        ensures
            r@ == "API response empty error "@ + self.details_spec(),
    {
        String::from_str("API response empty error ").concat(self.details.as_str())
    }
}

/// A response that carried an error list.
#[derive(Debug, Clone)]
pub struct GQLResponseErrors {
    pub details: Vec<GqlError>,
}

impl GQLResponseErrors {
    /// A human-readable description of the failure.
    pub fn message(&self) -> (r: String)
        ensures
            r@ == "API response has errors"@,
    {
        String::from_str("API response has errors")
    }
}

/// A request that failed before any response was decoded.
#[derive(Debug, Clone)]
pub struct GQLRequestError {
    pub details: String,
}

impl GQLRequestError {
    /// A human-readable description of the failure.
    pub fn message(&self) -> (r: String)
        ensures
            r@ == "NvaSDK, API request error "@ + self.details@,
    {
        String::from_str("NvaSDK, API request error ").concat(self.details.as_str())
    }
}

/// The uniform failure channel of every fallible query operation.
#[derive(Debug, Clone)]
pub enum ApiError {
    /// The request itself failed (transport, encoding of the request).
    Request(GQLRequestError),
    /// The response carried an error list.
    Response(GQLResponseErrors),
    /// The response carried neither data nor errors.
    Empty(GQLResponseEmptyError),
    /// The receiving end of a result channel was gone.
    Channel(String),
}

/// Check a decoded query response and apply the caller's modifier to its
/// data.
///
/// A transport-level failure passes through unchanged; a response with an
/// error list is reported as [`ApiError::Response`]; a response with
/// neither errors nor data as [`ApiError::Empty`]; otherwise the modifier's
/// image of the data is returned.
pub fn check_query_response_data<D, T, F: Fn(D) -> T>(
    response_body: Result<QueryResponse<D>, ApiError>,
    fn_modifier: F,
) -> (r: Result<T, ApiError>)
    requires
        forall|d: D| call_requires(fn_modifier, (d,)),
    ensures
        response_body matches Err(e) ==> r matches Err(e2) && e2 == e,
        response_body matches Ok(b) ==> {
            &&& (b.errors matches Some(errs) ==> r matches Err(ApiError::Response(re))
                && re.details == errs)
            &&& (b.errors is None && b.data is None ==> r matches Err(ApiError::Empty(_)))
            &&& (b.errors is None ==> (b.data matches Some(d) ==> r matches Ok(t) && call_ensures(
                fn_modifier,
                (d,),
                t,
            )))
        },
{
    match response_body {
        Ok(resbody) => {
            match resbody.errors {
                Some(errs) => Err(ApiError::Response(GQLResponseErrors { details: errs })),
                None => {
                    match resbody.data {
                        Some(data) => Ok(fn_modifier(data)),
                        None => Err(
                            ApiError::Empty(
                                GQLResponseEmptyError::new(
                                    String::from_str(
                                        "API post query error: response data is empty.",
                                    ),
                                ),
                            ),
                        ),
                    }
                },
            }
        },
        Err(e) => Err(e),
    }
}

/// Check the decoding step of a query response: a decoded response passes
/// through unchanged, a decoding or transport failure becomes the uniform
/// request error.
pub fn check_deser<T>(serde_res: Result<QueryResponse<T>, GQLRequestError>) -> (r: Result<
    QueryResponse<T>,
    ApiError,
>)
    ensures
        serde_res matches Ok(b) ==> r matches Ok(rb) && rb == b,
        serde_res matches Err(e) ==> r matches Err(re) && re == ApiError::Request(e),
{
    match serde_res {
        Ok(b) => Ok(b),
        Err(e) => Err(ApiError::Request(e)),
    }
}

#[verifier::external_type_specification]
#[verifier::external_body]
#[verifier::reject_recursive_types(T)]
pub struct ExSender<T>(std::sync::mpsc::Sender<T>);

#[verifier::external_type_specification]
#[verifier::external_body]
#[verifier::reject_recursive_types(T)]
pub struct ExReceiver<T>(std::sync::mpsc::Receiver<T>);

/// Relies on `std::sync::mpsc::Sender::send`: the value is delivered
/// unless the receiver is gone, and in that case it is handed back
/// unchanged inside the error.
#[verifier::external_body]
pub fn channel_send<T>(tx: &std::sync::mpsc::Sender<T>, value: T) -> (r: Result<(), T>)
    ensures
        r matches Err(v) ==> v == value,
{
    match tx.send(value) {
        Ok(()) => Ok(()),
        Err(std::sync::mpsc::SendError(v)) => Err(v),
    }
}

/// Relies on `std::sync::mpsc::Receiver::try_recv`: hands out a value if
/// one is waiting; nothing is promised about which call observes a value.
#[verifier::external_body]
pub fn channel_try_recv<T>(rx: &std::sync::mpsc::Receiver<T>) -> Option<T> {
    rx.try_recv().ok()
}

/// Check a query response and push the modifier's image of its data into
/// `send_into`.
///
/// The result says whether the response was usable: a failed send is
/// deliberately not a failure of the query itself and still answers `Ok`,
/// matching the documented behavior of this interface.
pub fn send_query_result<D, T, F: Fn(D) -> T>(
    send_into: std::sync::mpsc::Sender<T>,
    response_body: Result<QueryResponse<D>, ApiError>,
    fn_modifier: F,
) -> (r: Result<(), ApiError>)
    requires
        forall|d: D| call_requires(fn_modifier, (d,)),
    ensures
        r is Ok <==> (response_body matches Ok(b) && b.errors is None && b.data is Some),
        response_body matches Err(e) ==> r matches Err(e2) && e2 == e,
        response_body matches Ok(b) ==> {
            &&& (b.errors matches Some(errs) ==> r matches Err(ApiError::Response(re))
                && re.details == errs)
            &&& (b.errors is None && b.data is None ==> r matches Err(ApiError::Empty(_)))
        },
{
    match check_query_response_data(response_body, fn_modifier) {
        Ok(data) => {
            let _ = channel_send(&send_into, data);
            Ok(())
        },
        Err(e) => Err(e),
    }
}

/// Push an already computed result into `send_into`.
///
/// A failure that arrived in place of the result passes through unchanged;
/// a value that cannot be delivered because the receiver is gone is
/// reported as [`ApiError::Channel`].
pub fn send_api_result<T>(
    send_into: std::sync::mpsc::Sender<T>,
    api_result: Result<T, ApiError>,
) -> (r: Result<(), ApiError>)
    ensures
        api_result matches Err(e) ==> r matches Err(e2) && e2 == e,
        api_result is Ok ==> (r is Ok || r matches Err(ApiError::Channel(_))),
{
    match api_result {
        Ok(data) => {
            match channel_send(&send_into, data) {
                Ok(_) => Ok(()),
                Err(_) => Err(
                    ApiError::Channel(
                        String::from_str("error sending data on std::sync::mpsc channel"),
                    ),
                ),
            }
        },
        Err(e) => Err(e),
    }
}

} // verus!
