//! The router and what it is built from.
use crate::services::{RouterConfig, RouterServices};
use std::sync::Arc;
use vstd::prelude::*;

verus! {

/// What a server offers to the routers it builds; a part may be missing.
pub struct AppContext<S: RouterServices> {
    pub worker_registry: Arc<S::Registry>,
    pub policy_registry: Arc<S::Policies>,
    pub tokenizer: Option<Arc<S::Tokenizer>>,
    pub reasoning_parser_factory: Option<S::ReasoningParsers>,
    pub tool_parser_factory: Option<S::ToolParsers>,
    pub router_config: RouterConfig<S::RetrySettings>,
}

/// A router for chat requests that are prefilled by one worker and decoded by another.
pub struct GrpcPDRouter<S: RouterServices> {
    pub worker_registry: Arc<S::Registry>,
    pub policy_registry: Arc<S::Policies>,
    pub tokenizer: Arc<S::Tokenizer>,
    pub reasoning_parser_factory: S::ReasoningParsers,
    pub tool_parser_factory: S::ToolParsers,
    pub dp_aware: bool,
    pub api_key: Option<String>,
    pub retry_config: S::RetryConfig,
}

impl<S: RouterServices> GrpcPDRouter<S> {
    /// A router over what `ctx` offers. The first part that is missing, of the tokenizer, the
    /// reasoning parsers and the tool parsers, is the error.
    pub fn new(ctx: &AppContext<S>) -> (result: Result<Self, String>)
        ensures
            match result {
                Ok(router) => {
                    &&& ctx.tokenizer == Some(router.tokenizer)
                    &&& ctx.reasoning_parser_factory is Some
                    &&& ctx.tool_parser_factory is Some
                    &&& router.worker_registry == ctx.worker_registry
                    &&& router.policy_registry == ctx.policy_registry
                    &&& cloned(
                        ctx.reasoning_parser_factory->0,
                        router.reasoning_parser_factory,
                    )
                    &&& cloned(ctx.tool_parser_factory->0, router.tool_parser_factory)
                    &&& router.dp_aware == ctx.router_config.dp_aware
                    &&& router.api_key == ctx.router_config.api_key
                    &&& call_ensures(
                        S::effective_retry_config,
                        (&ctx.router_config,),
                        router.retry_config,
                    )
                },
                Err(message) => {
                    ||| ctx.tokenizer is None && message@ == "gRPC PD router requires tokenizer"@
                    ||| ctx.tokenizer is Some && ctx.reasoning_parser_factory is None && message@
                        == "gRPC PD router requires reasoning parser factory"@
                    ||| ctx.tokenizer is Some && ctx.reasoning_parser_factory is Some
                        && ctx.tool_parser_factory is None && message@
                        == "gRPC PD router requires tool parser factory"@
                },
            },
    {
        let tokenizer = match &ctx.tokenizer {
            Some(tokenizer) => tokenizer.clone(),
            None => return Err("gRPC PD router requires tokenizer".to_string()),
        };
        let reasoning_parser_factory = match &ctx.reasoning_parser_factory {
            Some(factory) => factory.clone(),
            None => return Err("gRPC PD router requires reasoning parser factory".to_string()),
        };
        let tool_parser_factory = match &ctx.tool_parser_factory {
            Some(factory) => factory.clone(),
            None => return Err("gRPC PD router requires tool parser factory".to_string()),
        };
        Ok(
            GrpcPDRouter {
                worker_registry: ctx.worker_registry.clone(),
                policy_registry: ctx.policy_registry.clone(),
                tokenizer,
                reasoning_parser_factory,
                tool_parser_factory,
                dp_aware: ctx.router_config.dp_aware,
                api_key: ctx.router_config.api_key.clone(),
                retry_config: S::effective_retry_config(&ctx.router_config),
            },
        )
    }
}

} // verus!
