//! Setting the provider credential and caching the provider's model list.
//!
//! The model list can only be fetched by the surrounding program, so the operation is
//! a step function: it takes the shared state and what just happened, and says what to
//! do next.

use vstd::prelude::*;
use crate::ambient::{json_member, json_text, member_of, text_of};
use crate::error::{bad_request, ApiError};
use crate::rotator::RotatorView;
use crate::state::{AppState, StateView};
use crate::types::{views, ModelInfo};

verus! {

/// What a request that names no credential is told.
pub open spec fn token_field_missing() -> Seq<char> {
    "Missing 'token' field"@
}

/// The credential that a configuration request names: the text under `token`, where
/// the request is a JSON object that holds a string there.
pub open spec fn named_token(payload: serde_json::Value) -> Option<Seq<char>> {
    json_text(json_member(payload, "token"@))
}

/// What happens while the provider is configured.
#[derive(Debug)]
pub enum ConfigEvent {
    /// A caller sets the credential with this request.
    Requested(serde_json::Value),
    /// The provider listed its models.
    ModelsFetched(Vec<ModelInfo>),
    /// The provider could not be asked for its models.
    ModelsUnavailable,
}

/// The confirmation that the credential was set.
#[derive(Clone, Copy, Debug)]
pub struct ConfigAck {}

impl ConfigAck {
    /// The status that the confirmation reports.
    pub fn status(&self) -> (name: &'static str)
        ensures
            name@ == "success"@,
    {
        "success"
    }

    /// The words of the confirmation.
    pub fn message(&self) -> (text: &'static str)
        ensures
            text@ == "Qwen token configured"@,
    {
        "Qwen token configured"
    }
}

/// What is to be done next while the provider is configured.
#[derive(Debug)]
pub enum ConfigAction {
    /// Ask the provider for its models with this credential, and come back with them
    /// or without.
    FetchModels(String),
    /// Answer the caller: the credential is set.
    Done(ConfigAck),
    /// Answer the caller with a failure.
    Reject(ApiError),
}

/// Makes `token` the one credential of the pool; a request that named none is refused
/// and changes nothing.
pub fn apply_token(state: &mut AppState, token: Option<String>) -> (action: ConfigAction)
    ensures
        match token {
            None => {
                &&& final(state)@ == old(state)@
                &&& action matches ConfigAction::Reject(e)
                &&& e@ == bad_request(token_field_missing())
            },
            Some(token) => {
                &&& final(state)@ == old(state)@.with_credentials(
                    RotatorView::configured(seq![token@]),
                )
                &&& action matches ConfigAction::FetchModels(with)
                &&& with@ == token@
            },
        },
{
    match token {
        None => ConfigAction::Reject(ApiError::bad_request("Missing 'token' field")),
        Some(token) => {
            let with = token.clone();
            state.set_qwen_token(token);
            ConfigAction::FetchModels(with)
        },
    }
}

/// One step of configuring the provider. The credential that the request names
/// replaces the pool at once; the list of models is cached when it arrives, and its
/// absence is no failure.
pub fn configure_qwen(state: &mut AppState, event: ConfigEvent) -> (action: ConfigAction)
    ensures
        match event {
            ConfigEvent::Requested(payload) => match named_token(payload) {
                None => {
                    &&& final(state)@ == old(state)@
                    &&& action matches ConfigAction::Reject(e)
                    &&& e@ == bad_request(token_field_missing())
                },
                Some(token) => {
                    &&& final(state)@ == old(state)@.with_credentials(
                        RotatorView::configured(seq![token]),
                    )
                    &&& action matches ConfigAction::FetchModels(with)
                    &&& with@ == token
                },
            },
            ConfigEvent::ModelsFetched(models) => {
                &&& final(state)@ == (StateView { models: Some(views(models@)), ..old(state)@ })
                &&& action is Done
            },
            ConfigEvent::ModelsUnavailable => {
                &&& final(state)@ == old(state)@
                &&& action is Done
            },
        },
{
    match event {
        ConfigEvent::Requested(payload) => {
            let token = text_of(member_of(&payload, "token"));
            apply_token(state, token)
        },
        ConfigEvent::ModelsFetched(models) => {
            state.set_qwen_models(models);
            ConfigAction::Done(ConfigAck {})
        },
        ConfigEvent::ModelsUnavailable => ConfigAction::Done(ConfigAck {}),
    }
}

} // verus!
