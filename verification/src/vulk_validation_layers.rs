//! The debug messenger: which messages it is created for, and how the
//! severity and category of a message are named.

use vstd::prelude::*;
use crate::constants::{
    ValidationInfo, DEBUG_SEVERITY_ERROR, DEBUG_SEVERITY_INFO, DEBUG_SEVERITY_VERBOSE,
    DEBUG_SEVERITY_WARNING, DEBUG_TYPE_GENERAL, DEBUG_TYPE_PERFORMANCE, DEBUG_TYPE_VALIDATION,
};

verus! {

/// The parameters a debug messenger is created with.
#[derive(Clone, Copy, Debug, PartialEq, Eq, Structural)]
pub struct DebugMessengerCreateInfo {
    /// The severities the messenger is called for.
    pub message_severity: u32,
    /// The categories the messenger is called for.
    pub message_type: u32,
}

/// The messenger listens to warnings and errors of every category.
pub open spec fn debug_messenger_spec() -> DebugMessengerCreateInfo {
    DebugMessengerCreateInfo {
        message_severity: DEBUG_SEVERITY_WARNING | DEBUG_SEVERITY_ERROR,
        message_type: DEBUG_TYPE_GENERAL | DEBUG_TYPE_PERFORMANCE | DEBUG_TYPE_VALIDATION,
    }
}

/// The label of a message severity.
pub open spec fn severity_label_spec(message_severity: u32) -> Seq<char> {
    if message_severity == DEBUG_SEVERITY_VERBOSE {
        "[Verbose]"@
    } else if message_severity == DEBUG_SEVERITY_WARNING {
        "[Warning]"@
    } else if message_severity == DEBUG_SEVERITY_ERROR {
        "[Error]"@
    } else if message_severity == DEBUG_SEVERITY_INFO {
        "[Info]"@
    } else {
        "[Unknown]"@
    }
}

/// The label of a message category.
pub open spec fn message_type_label_spec(message_type: u32) -> Seq<char> {
    if message_type == DEBUG_TYPE_GENERAL {
        "[General]"@
    } else if message_type == DEBUG_TYPE_PERFORMANCE {
        "[Performance]"@
    } else if message_type == DEBUG_TYPE_VALIDATION {
        "[Validation]"@
    } else {
        "[Unknown]"@
    }
}

/// Describes the debug messenger: warnings and errors, every category.
pub fn populate_debug_messenger_create_info() -> (info: DebugMessengerCreateInfo)
    ensures
        info == debug_messenger_spec(),
{
    DebugMessengerCreateInfo {
        message_severity: DEBUG_SEVERITY_WARNING | DEBUG_SEVERITY_ERROR,
        message_type: DEBUG_TYPE_GENERAL | DEBUG_TYPE_PERFORMANCE | DEBUG_TYPE_VALIDATION,
    }
}

/// The messenger to create: one with validation, none without.
pub fn setup_debug_utils(validation: &ValidationInfo) -> (info: Option<DebugMessengerCreateInfo>)
    ensures
        validation.is_enable ==> info == Some(debug_messenger_spec()),
        !validation.is_enable ==> info is None,
{
    if validation.is_enable {
        Some(populate_debug_messenger_create_info())
    } else {
        None
    }
}

/// Names the severity of a message. A combination of severities has no name
/// of its own.
pub fn severity_label(message_severity: u32) -> (label: &'static str)
    ensures
        label@ == severity_label_spec(message_severity),
{
    if message_severity == DEBUG_SEVERITY_VERBOSE {
        "[Verbose]"
    } else if message_severity == DEBUG_SEVERITY_WARNING {
        "[Warning]"
    } else if message_severity == DEBUG_SEVERITY_ERROR {
        "[Error]"
    } else if message_severity == DEBUG_SEVERITY_INFO {
        "[Info]"
    } else {
        "[Unknown]"
    }
}

/// Names the category of a message. A combination of categories has no name
/// of its own.
pub fn message_type_label(message_type: u32) -> (label: &'static str)
    ensures
        label@ == message_type_label_spec(message_type),
{
    if message_type == DEBUG_TYPE_GENERAL {
        "[General]"
    } else if message_type == DEBUG_TYPE_PERFORMANCE {
        "[Performance]"
    } else if message_type == DEBUG_TYPE_VALIDATION {
        "[Validation]"
    } else {
        "[Unknown]"
    }
}

/// What the messenger does with a message: it labels severity and category
/// for the log and never asks for the triggering call to be aborted.
pub fn vulkan_debug_utils_callback(message_severity: u32, message_type: u32) -> (handled: (
    &'static str,
    &'static str,
    bool,
))
    ensures
        handled.0@ == severity_label_spec(message_severity),
        handled.1@ == message_type_label_spec(message_type),
        !handled.2,
{
    (severity_label(message_severity), message_type_label(message_type), false)
}

} // verus!
