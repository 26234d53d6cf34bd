//! The parameters of the messages for the language client, as `lsp_types` defines
//! them and `serde_json` writes them.

use crate::json::json_text;
use lsp_types::{
    ConfigurationItem, Diagnostic, MessageActionItem, MessageType, Registration, Unregistration,
    Url, WorkspaceEdit,
};
use serde_json::Value;
use vstd::prelude::*;

verus! {

/// How serious a message is.
#[verifier::external_type_specification]
#[verifier::external_body]
pub struct ExMessageType(lsp_types::MessageType);

/// An action that a message offers.
#[verifier::external_type_specification]
#[verifier::external_body]
pub struct ExMessageActionItem(lsp_types::MessageActionItem);

/// A capability to register.
#[verifier::external_type_specification]
#[verifier::external_body]
pub struct ExRegistration(lsp_types::Registration);

/// A capability to unregister.
#[verifier::external_type_specification]
#[verifier::external_body]
pub struct ExUnregistration(lsp_types::Unregistration);

/// A configuration setting to fetch.
#[verifier::external_type_specification]
#[verifier::external_body]
pub struct ExConfigurationItem(lsp_types::ConfigurationItem);

/// Changes to the resources of a workspace.
#[verifier::external_type_specification]
#[verifier::external_body]
pub struct ExWorkspaceEdit(lsp_types::WorkspaceEdit);

/// The name of a resource.
#[verifier::external_type_specification]
#[verifier::external_body]
pub struct ExUrl(lsp_types::Url);

/// Something to tell about a piece of a file.
#[verifier::external_type_specification]
#[verifier::external_body]
pub struct ExDiagnostic(lsp_types::Diagnostic);

/// The actions of a message, where it has any.
pub open spec fn action_list(actions: Option<Vec<MessageActionItem>>) -> Option<
    Seq<MessageActionItem>,
> {
    match actions {
        Some(actions) => Some(actions@),
        None => None,
    }
}

/// The JSON text of `lsp_types::LogMessageParams`.
pub uninterp spec fn log_message_text(
    typ: lsp_types::MessageType,
    message: Seq<char>,
) -> Seq<char>;

/// The JSON text of `lsp_types::ShowMessageParams`.
pub uninterp spec fn show_message_text(
    typ: lsp_types::MessageType,
    message: Seq<char>,
) -> Seq<char>;

/// The JSON text of `lsp_types::ShowMessageRequestParams`.
pub uninterp spec fn show_message_request_text(
    typ: lsp_types::MessageType,
    message: Seq<char>,
    actions: Option<Seq<lsp_types::MessageActionItem>>,
) -> Seq<char>;

/// The JSON text of `lsp_types::RegistrationParams`.
pub uninterp spec fn registration_text(
    registrations: Seq<lsp_types::Registration>,
) -> Seq<char>;

/// The JSON text of `lsp_types::UnregistrationParams`.
pub uninterp spec fn unregistration_text(
    unregisterations: Seq<lsp_types::Unregistration>,
) -> Seq<char>;

/// The JSON text of `lsp_types::ConfigurationParams`.
pub uninterp spec fn configuration_text(items: Seq<lsp_types::ConfigurationItem>) -> Seq<char>;

/// The JSON text of `lsp_types::ApplyWorkspaceEditParams`.
pub uninterp spec fn apply_edit_text(
    label: Option<Seq<char>>,
    edit: lsp_types::WorkspaceEdit,
) -> Seq<char>;

/// The JSON text of `lsp_types::PublishDiagnosticsParams`.
pub uninterp spec fn publish_diagnostics_text(
    uri: lsp_types::Url,
    diagnostics: Seq<lsp_types::Diagnostic>,
    version: Option<i32>,
) -> Seq<char>;

/// `serde_json::to_value` of `lsp_types::LogMessageParams`.
#[verifier::external_body]
pub(crate) fn log_message_params(typ: MessageType, message: String) -> (r: Value)
    ensures
        json_text(r) == log_message_text(typ, message@),
{
    serde_json::to_value(lsp_types::LogMessageParams { typ, message }).unwrap()
}

/// `serde_json::to_value` of `lsp_types::ShowMessageParams`.
#[verifier::external_body]
pub(crate) fn show_message_params(typ: MessageType, message: String) -> (r: Value)
    ensures
        json_text(r) == show_message_text(typ, message@),
{
    serde_json::to_value(lsp_types::ShowMessageParams { typ, message }).unwrap()
}

/// `serde_json::to_value` of `lsp_types::ShowMessageRequestParams`.
#[verifier::external_body]
pub(crate) fn show_message_request_params(
    typ: MessageType,
    message: String,
    actions: Option<Vec<MessageActionItem>>,
) -> (r: Value)
    ensures
        json_text(r) == show_message_request_text(typ, message@, action_list(actions)),
{
    serde_json::to_value(lsp_types::ShowMessageRequestParams { typ, message, actions }).unwrap()
}

/// `serde_json::to_value` of `lsp_types::RegistrationParams`.
#[verifier::external_body]
pub(crate) fn registration_params(registrations: Vec<Registration>) -> (r: Value)
    ensures
        json_text(r) == registration_text(registrations@),
{
    serde_json::to_value(lsp_types::RegistrationParams { registrations }).unwrap()
}

/// `serde_json::to_value` of `lsp_types::UnregistrationParams`.
#[verifier::external_body]
pub(crate) fn unregistration_params(unregisterations: Vec<Unregistration>) -> (r: Value)
    ensures
        json_text(r) == unregistration_text(unregisterations@),
{
    serde_json::to_value(lsp_types::UnregistrationParams { unregisterations }).unwrap()
}

/// `serde_json::to_value` of `lsp_types::ConfigurationParams`.
#[verifier::external_body]
pub(crate) fn configuration_params(items: Vec<ConfigurationItem>) -> (r: Value)
    ensures
        json_text(r) == configuration_text(items@),
{
    serde_json::to_value(lsp_types::ConfigurationParams { items }).unwrap()
}

/// `serde_json::to_value` of `lsp_types::ApplyWorkspaceEditParams`.
#[verifier::external_body]
pub(crate) fn apply_edit_params(label: Option<String>, edit: WorkspaceEdit) -> (r: Value)
    ensures
        json_text(r) == apply_edit_text(label.deep_view(), edit),
{
    serde_json::to_value(lsp_types::ApplyWorkspaceEditParams { label, edit }).unwrap()
}

/// `serde_json::to_value` of what `lsp_types::PublishDiagnosticsParams::new` makes.
#[verifier::external_body]
pub(crate) fn publish_diagnostics_params(
    uri: Url,
    diagnostics: Vec<Diagnostic>,
    version: Option<i32>,
) -> (r: Value)
    ensures
        json_text(r) == publish_diagnostics_text(uri, diagnostics@, version),
{
    serde_json::to_value(
        lsp_types::PublishDiagnosticsParams::new(uri, diagnostics, version),
    ).unwrap()
}

} // verus!
