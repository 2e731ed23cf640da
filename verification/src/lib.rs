//! A router for chat completions that are prefilled by one worker and decoded by another.
//!
//! The life of a request: [`router::GrpcPDRouter::plan_chat`] prepares it and selects its workers,
//! [`router::GrpcPDRouter::dispatch_chat`] gives both workers the same generation request with
//! their rendezvous, and [`completion::ChoiceRun`] makes the completion of what they generated.
//! Between these steps the caller awaits the workers and the tool parsers.

pub mod alike;
pub mod bits;
pub mod chat;
pub mod choice;
pub mod choice_laws;
pub mod completion;
pub mod completion_laws;
pub mod endpoints;
pub mod ids;
pub mod independence;
pub mod json;
pub mod laws;
pub mod logprobs;
pub mod proto;
pub mod protocol;
pub mod reply;
pub mod router;
pub mod routing_laws;
pub mod selection;
pub mod services;
pub mod text;
pub mod text_laws;
pub mod tools;
