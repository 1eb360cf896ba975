//! Push messages delivered by Firebase Cloud Messaging, and the errors of the push
//! service.

use std::collections::HashMap;
use vstd::prelude::*;
use vstd::string::*;

verus! {

/// A message received through Firebase Cloud Messaging.
#[derive(Debug, Clone)]
pub struct PushMessage {
    /// Notification title (absent in data-only messages).
    pub title: Option<String>,
    /// Notification body.
    pub body: Option<String>,
    /// Free key/value pairs sent by the server.
    pub data: HashMap<String, String>,
    /// Collapse key: a message replaces a queued one with the same key.
    pub collapse_key: Option<String>,
    /// Sender id of the Firebase project.
    pub from: Option<String>,
}

/// Why the push service failed.
#[derive(Debug)]
pub enum PushError {
    /// Firebase is not available (no google-services.json, emulator without Play...).
    NotAvailable,
    /// Network failure while fetching the token.
    NetworkError(String),
    /// The POST_NOTIFICATIONS permission was denied (Android 13+).
    PermissionDenied,
}

/// The user-facing text of an error.
pub open spec fn push_error_text(e: PushError) -> Seq<char> {
    match e {
        PushError::NotAvailable => "Firebase não disponível"@,
        PushError::NetworkError(msg) => "Erro de rede: "@ + msg@,
        PushError::PermissionDenied => "Permissão POST_NOTIFICATIONS negada"@,
    }
}

impl PushError {
    /// The user-facing text of the error.
    pub fn to_string(&self) -> (s: String)
        ensures
            s@ == push_error_text(*self),
    {
        match self {
            PushError::NotAvailable => String::from_str("Firebase não disponível"),
            PushError::NetworkError(e) => {
                let mut s = String::from_str("Erro de rede: ");
                s.append(e.as_str());
                s
            },
            PushError::PermissionDenied => String::from_str("Permissão POST_NOTIFICATIONS negada"),
        }
    }
}

} // verus!
