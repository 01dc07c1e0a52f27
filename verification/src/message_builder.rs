//! A message to send to a session, put together piece by piece, and the
//! check that it names its message, provider and model before it is sent.

use vstd::prelude::*;
use crate::error::OpenCodeError;
use crate::ids::{generate_id, id_text, is_id_shaped, next_counter, stamp_value, IdClock, IdPrefix};

verus! {

fn owned(s: &str) -> (r: String)
    ensures
        r@ == s@,
{
    s.to_string()
}

/// A part of a message to send.
#[derive(Debug, PartialEq)]
pub enum PartInput {
    Text { id: String, text: String },
    File { id: String, filename: String, mime: String, url: String },
}

/// A message being put together for a session.
#[derive(Debug, PartialEq)]
pub struct MessageBuilder {
    pub session_id: String,
    pub message_id: Option<String>,
    pub provider_id: Option<String>,
    pub model_id: Option<String>,
    pub mode: Option<String>,
    pub parts: Vec<PartInput>,
}

/// A message ready to send: every required field is set.
#[derive(Debug, PartialEq)]
pub struct ChatRequest {
    pub session_id: String,
    pub message_id: String,
    pub provider_id: String,
    pub model_id: String,
    pub mode: Option<String>,
    pub parts: Vec<PartInput>,
}

/// View of an optional text.
pub open spec fn opt_text(o: Option<String>) -> Option<Seq<char>> {
    match o {
        Some(s) => Some(s@),
        None => None,
    }
}

impl MessageBuilder {
    /// An empty message for `session_id`.
    pub fn new(session_id: &str) -> (r: Self)
        ensures
            r.session_id@ == session_id@,
            r.message_id is None,
            r.provider_id is None,
            r.model_id is None,
            r.mode is None,
            r.parts@.len() == 0,
    {
        MessageBuilder {
            session_id: owned(session_id),
            message_id: None,
            provider_id: None,
            model_id: None,
            mode: None,
            parts: Vec::new(),
        }
    }

    /// Sets the message id.
    pub fn message_id(self, id: &str) -> (r: Self)
        ensures
            opt_text(r.message_id) == Some(id@),
            r == (MessageBuilder { message_id: r.message_id, ..self }),
    {
        MessageBuilder { message_id: Some(owned(id)), ..self }
    }

    /// Sets the provider id.
    pub fn provider(self, provider_id: &str) -> (r: Self)
        ensures
            opt_text(r.provider_id) == Some(provider_id@),
            r == (MessageBuilder { provider_id: r.provider_id, ..self }),
    {
        MessageBuilder { provider_id: Some(owned(provider_id)), ..self }
    }

    /// Sets the model id.
    pub fn model(self, model_id: &str) -> (r: Self)
        ensures
            opt_text(r.model_id) == Some(model_id@),
            r == (MessageBuilder { model_id: r.model_id, ..self }),
    {
        MessageBuilder { model_id: Some(owned(model_id)), ..self }
    }

    /// Sets the mode (the agent that answers).
    pub fn mode(self, mode: &str) -> (r: Self)
        ensures
            opt_text(r.mode) == Some(mode@),
            r == (MessageBuilder { mode: r.mode, ..self }),
    {
        MessageBuilder { mode: Some(owned(mode)), ..self }
    }

    /// Appends a text part with a fresh part id from the process's id clock.
    pub fn add_text_part(self, clock: &mut IdClock, text: &str) -> (r: Self)
        ensures
            r.parts@.len() == self.parts@.len() + 1,
            r.parts@.drop_last() == self.parts@,
            r.parts@.last() matches PartInput::Text { id, text: t } && t@ == text@ && is_id_shaped(
                id@,
                IdPrefix::Part,
            ),
            final(clock).counter == next_counter(
                old(clock).last_timestamp,
                old(clock).counter,
                final(clock).last_timestamp,
            ),
            r.parts@.last() matches PartInput::Text { id, .. } && exists|random: Seq<u8>| id@ == id_text(
                IdPrefix::Part,
                stamp_value(final(clock).last_timestamp, final(clock).counter),
                false,
                random,
            ),
            r == (MessageBuilder { parts: r.parts, ..self }),
    {
        let mut b = self;
        let ghost before = b.parts@;
        b.parts.push(PartInput::Text { id: generate_id(clock, IdPrefix::Part), text: owned(text) });
        assert(b.parts@.drop_last() =~= before);
        b
    }

    /// Appends a file part with a fresh part id from the process's id clock.
    pub fn add_file_part(self, clock: &mut IdClock, filename: &str, mime: &str, url: &str) -> (r: Self)
        ensures
            r.parts@.len() == self.parts@.len() + 1,
            r.parts@.drop_last() == self.parts@,
            r.parts@.last() matches PartInput::File { id, filename: f, mime: m, url: u } && f@
                == filename@ && m@ == mime@ && u@ == url@ && is_id_shaped(id@, IdPrefix::Part),
            final(clock).counter == next_counter(
                old(clock).last_timestamp,
                old(clock).counter,
                final(clock).last_timestamp,
            ),
            r.parts@.last() matches PartInput::File { id, .. } && exists|random: Seq<u8>| id@ == id_text(
                IdPrefix::Part,
                stamp_value(final(clock).last_timestamp, final(clock).counter),
                false,
                random,
            ),
            r == (MessageBuilder { parts: r.parts, ..self }),
    {
        let mut b = self;
        let ghost before = b.parts@;
        b.parts.push(
            PartInput::File {
                id: generate_id(clock, IdPrefix::Part),
                filename: owned(filename),
                mime: owned(mime),
                url: owned(url),
            },
        );
        assert(b.parts@.drop_last() =~= before);
        b
    }

    /// The request to send, once the message, provider and model ids are
    /// set; otherwise an invalid-request error naming the first one missing,
    /// in that order.
    pub fn request(self) -> (r: Result<ChatRequest, OpenCodeError>)
        ensures
            self.message_id is None ==> (r matches Err(OpenCodeError::InvalidRequest(m)) && m@
                == "message_id is required"@),
            self.message_id is Some && self.provider_id is None ==> (r matches Err(
                OpenCodeError::InvalidRequest(m),
            ) && m@ == "provider_id is required"@),
            self.message_id is Some && self.provider_id is Some && self.model_id is None ==> (r matches Err(
                OpenCodeError::InvalidRequest(m),
            ) && m@ == "model_id is required"@),
            (self.message_id is Some && self.provider_id is Some && self.model_id is Some) ==> (r
                == Ok::<ChatRequest, OpenCodeError>(
                ChatRequest {
                    session_id: self.session_id,
                    message_id: self.message_id.unwrap(),
                    provider_id: self.provider_id.unwrap(),
                    model_id: self.model_id.unwrap(),
                    mode: self.mode,
                    parts: self.parts,
                },
            )),
    {
        let MessageBuilder { session_id, message_id, provider_id, model_id, mode, parts } = self;
        let message_id = match message_id {
            Some(m) => m,
            None => {
                return Err(OpenCodeError::invalid_request("message_id is required"));
            },
        };
        let provider_id = match provider_id {
            Some(p) => p,
            None => {
                return Err(OpenCodeError::invalid_request("provider_id is required"));
            },
        };
        let model_id = match model_id {
            Some(m) => m,
            None => {
                return Err(OpenCodeError::invalid_request("model_id is required"));
            },
        };
        Ok(ChatRequest { session_id, message_id, provider_id, model_id, mode, parts })
    }
}

} // verus!
