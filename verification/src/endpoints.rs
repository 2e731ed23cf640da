//! The endpoints that the router answers without doing anything.
use crate::reply::{Reply, NOT_IMPLEMENTED};
use crate::router::GrpcPDRouter;
use crate::services::RouterServices;
use vstd::prelude::*;

verus! {

impl<S: RouterServices> GrpcPDRouter<S> {
    /// Generation as a health check is not offered.
    pub fn health_generate(&self) -> (reply: Reply)
        ensures
            reply.is_text(NOT_IMPLEMENTED, "Health generate not yet implemented for gRPC PD"@),
    {
        Reply::text(
            NOT_IMPLEMENTED,
            "Health generate not yet implemented for gRPC PD".to_string(),
        )
    }

    /// Chat completions are not streamed.
    pub fn handle_streaming_chat(&self) -> (reply: Reply)
        ensures
            reply.is_text(NOT_IMPLEMENTED, "Streaming not yet implemented for PD mode"@),
    {
        Reply::text(NOT_IMPLEMENTED, "Streaming not yet implemented for PD mode".to_string())
    }

    /// Server information is not offered.
    pub fn get_server_info(&self) -> (reply: Reply)
        ensures
            reply == Reply::Status(NOT_IMPLEMENTED),
    {
        Reply::Status(NOT_IMPLEMENTED)
    }

    /// The list of models is not offered.
    pub fn get_models(&self) -> (reply: Reply)
        ensures
            reply == Reply::Status(NOT_IMPLEMENTED),
    {
        Reply::Status(NOT_IMPLEMENTED)
    }

    /// Information on a model is not offered.
    pub fn get_model_info(&self) -> (reply: Reply)
        ensures
            reply == Reply::Status(NOT_IMPLEMENTED),
    {
        Reply::Status(NOT_IMPLEMENTED)
    }

    /// Plain generation is not offered.
    pub fn route_generate(&self) -> (reply: Reply)
        ensures
            reply == Reply::Status(NOT_IMPLEMENTED),
    {
        Reply::Status(NOT_IMPLEMENTED)
    }

    /// Text completion is not offered.
    pub fn route_completion(&self) -> (reply: Reply)
        ensures
            reply == Reply::Status(NOT_IMPLEMENTED),
    {
        Reply::Status(NOT_IMPLEMENTED)
    }

    /// Responses are not offered.
    pub fn route_responses(&self) -> (reply: Reply)
        ensures
            reply == Reply::Status(NOT_IMPLEMENTED),
    {
        Reply::Status(NOT_IMPLEMENTED)
    }

    /// Stored responses are not offered.
    pub fn get_response(&self) -> (reply: Reply)
        ensures
            reply == Reply::Status(NOT_IMPLEMENTED),
    {
        Reply::Status(NOT_IMPLEMENTED)
    }

    /// Cancelling a response is not offered.
    pub fn cancel_response(&self) -> (reply: Reply)
        ensures
            reply == Reply::Status(NOT_IMPLEMENTED),
    {
        Reply::Status(NOT_IMPLEMENTED)
    }

    /// Embeddings are not offered.
    pub fn route_embeddings(&self) -> (reply: Reply)
        ensures
            reply == Reply::Status(NOT_IMPLEMENTED),
    {
        Reply::Status(NOT_IMPLEMENTED)
    }

    /// Reranking is not offered.
    pub fn route_rerank(&self) -> (reply: Reply)
        ensures
            reply == Reply::Status(NOT_IMPLEMENTED),
    {
        Reply::Status(NOT_IMPLEMENTED)
    }

    /// The kind of router this is.
    pub fn router_type(&self) -> (name: &'static str)
        ensures
            name@ == "grpc_pd"@,
    {
        "grpc_pd"
    }
}

} // verus!
