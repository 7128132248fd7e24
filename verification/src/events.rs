//! The envelope of one event of the supervised server's event stream, read
//! out of the JSON text of one stream frame.
use vstd::prelude::*;

verus! {

/// The string found in the JSON document `raw` at the JSON pointer
/// `pointer`: `None` where `raw` is no JSON document, where the pointer
/// leads nowhere, or where the value found is not a string.
pub uninterp spec fn json_text_at(raw: Seq<char>, pointer: Seq<char>) -> Option<Seq<char>>;

/// The view of an optional string.
pub open spec fn option_text(value: Option<String>) -> Option<Seq<char>> {
    match value {
        Some(s) => Some(s@),
        None => None,
    }
}

/// Looks up a string in a JSON document.
///
/// Trusted: `serde_json::from_str` parses the text into a `Value`,
/// `Value::pointer` walks the pointer's reference tokens through objects and
/// arrays, and `Value::as_str` yields the text of a string value. The result
/// depends on the two arguments alone and is what `json_text_at` names.
#[verifier::external_body]
pub(crate) fn json_string_at(raw: &str, pointer: &str) -> (r: Option<String>)
    ensures
        option_text(r) == json_text_at(raw@, pointer@),
{
    let document: serde_json::Value = serde_json::from_str(raw).ok()?;
    document.pointer(pointer)?.as_str().map(|s| s.to_string())
}

/// What the consumers read of one event: its type and the string
/// properties that decide notifications and session phases. A property that
/// is absent or not a string is `None`.
pub struct EventEnvelope {
    /// The `type` of the event.
    pub event_type: String,
    /// `properties.sessionID`, as carried by status events.
    pub session_id: Option<String>,
    /// `properties.status.type`.
    pub status_type: Option<String>,
    /// `properties.info.role`.
    pub role: Option<String>,
    /// `properties.info.finish`.
    pub finish: Option<String>,
    /// `properties.info.id`.
    pub message_id: Option<String>,
    /// `properties.info.sessionID`.
    pub message_session_id: Option<String>,
    /// `properties.info.mode`.
    pub mode: Option<String>,
    /// `properties.info.modelID`.
    pub model_id: Option<String>,
}

impl EventEnvelope {
    /// Whether the envelope holds exactly what the JSON text `raw` gives
    /// for each property.
    pub open spec fn read_from(self, raw: Seq<char>) -> bool {
        &&& Some(self.event_type@) == json_text_at(raw, "/type"@)
        &&& option_text(self.session_id) == json_text_at(raw, "/properties/sessionID"@)
        &&& option_text(self.status_type) == json_text_at(raw, "/properties/status/type"@)
        &&& option_text(self.role) == json_text_at(raw, "/properties/info/role"@)
        &&& option_text(self.finish) == json_text_at(raw, "/properties/info/finish"@)
        &&& option_text(self.message_id) == json_text_at(raw, "/properties/info/id"@)
        &&& option_text(self.message_session_id) == json_text_at(
            raw,
            "/properties/info/sessionID"@,
        )
        &&& option_text(self.mode) == json_text_at(raw, "/properties/info/mode"@)
        &&& option_text(self.model_id) == json_text_at(raw, "/properties/info/modelID"@)
    }

    /// Whether the event reports a finished assistant turn: a message
    /// update whose role is `assistant` and whose finish reason is `stop`.
    pub open spec fn is_assistant_stop(self) -> bool {
        &&& self.event_type@ == "message.updated"@
        &&& option_text(self.role) == Some("assistant"@)
        &&& option_text(self.finish) == Some("stop"@)
    }

    /// Whether the event is a session status report.
    pub open spec fn is_status(self) -> bool {
        self.event_type@ == "session.status"@
    }
}

/// Reads the envelope out of the JSON text of one frame. A frame that is no
/// JSON document, or whose `type` is not a string, has no envelope.
pub fn parse_envelope(raw: &str) -> (r: Option<EventEnvelope>)
    ensures
        r is Some <==> json_text_at(raw@, "/type"@) is Some,
        r matches Some(e) ==> e.read_from(raw@),
{
    match json_string_at(raw, "/type") {
        None => None,
        Some(event_type) => Some(
            EventEnvelope {
                event_type,
                session_id: json_string_at(raw, "/properties/sessionID"),
                status_type: json_string_at(raw, "/properties/status/type"),
                role: json_string_at(raw, "/properties/info/role"),
                finish: json_string_at(raw, "/properties/info/finish"),
                message_id: json_string_at(raw, "/properties/info/id"),
                message_session_id: json_string_at(raw, "/properties/info/sessionID"),
                mode: json_string_at(raw, "/properties/info/mode"),
                model_id: json_string_at(raw, "/properties/info/modelID"),
            },
        ),
    }
}

} // verus!
