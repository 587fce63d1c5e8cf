//! The commands that an agent sends, and how one is decoded.

use crate::json::{json_fields, read_fields, RawMessage, RawView};
use vstd::prelude::*;
use vstd::string::StringExecFns;

verus! {

/// One command of the agent.
#[derive(Clone, Copy, Debug, PartialEq, Eq, Structural)]
pub enum AgentMessage {
    /// The browser now has `count` tabs open.
    SetTabCount { count: u32 },
}

/// Why an inbound message is not a command.
#[derive(Clone, Copy, Debug, PartialEq, Eq, Structural)]
pub enum DecodeError {
    /// The payload is not one JSON document.
    Malformed,
    /// The document has no string member `type`.
    MissingType,
    /// The `type` names no command.
    UnknownType,
    /// The document has no member `count` that is a non-negative integer.
    InvalidCount,
    /// The `count` does not fit 32 bits.
    CountOutOfRange,
}

/// The key of the member that names the command.
pub open spec fn tag_key() -> Seq<char> {
    "type"@
}

/// The key of the member that holds the tab count.
pub open spec fn count_key() -> Seq<char> {
    "count"@
}

/// Whether `tag` names the command `SetTabCount`, by its name or by its alias.
pub open spec fn is_set_tab_count(tag: Seq<char>) -> bool {
    tag == "SetTabCount"@ || tag == "set_tab_count"@
}

/// The command that two members of a document stand for.
pub open spec fn message_of(raw: RawView) -> Result<AgentMessage, DecodeError> {
    match raw.tag {
        None => Err(DecodeError::MissingType),
        Some(tag) => if !is_set_tab_count(tag) {
            Err(DecodeError::UnknownType)
        } else {
            match raw.count {
                None => Err(DecodeError::InvalidCount),
                Some(count) => if count > u32::MAX {
                    Err(DecodeError::CountOutOfRange)
                } else {
                    Ok(AgentMessage::SetTabCount { count: count as u32 })
                },
            }
        },
    }
}

/// The command that a payload stands for.
pub open spec fn decoded(text: Seq<u8>) -> Result<AgentMessage, DecodeError> {
    match json_fields(text, tag_key(), count_key()) {
        None => Err(DecodeError::Malformed),
        Some(raw) => message_of(raw),
    }
}

impl AgentMessage {
    /// The count that the command carries.
    pub open spec fn spec_count(self) -> u32 {
        match self {
            AgentMessage::SetTabCount { count } => count,
        }
    }

    /// The count that the command carries.
    pub fn count(&self) -> (count: u32)
        ensures
            count == self.spec_count(),
    {
        match self {
            AgentMessage::SetTabCount { count } => *count,
        }
    }

    /// Reads a command from the two members of a document.
    ///
    /// The tag is looked at first: without a recognised one the count is not
    /// read at all.
    pub fn from_fields(raw: &RawMessage) -> (r: Result<AgentMessage, DecodeError>)
        ensures
            r == message_of(raw@),
    {
        match &raw.tag {
            None => Err(DecodeError::MissingType),
            Some(tag) => {
                let name = String::from_str("SetTabCount");
                let alias = String::from_str("set_tab_count");
                if !(*tag == name || *tag == alias) {
                    Err(DecodeError::UnknownType)
                } else {
                    match raw.count {
                        None => Err(DecodeError::InvalidCount),
                        Some(count) => if count > 0xffff_ffff {
                            Err(DecodeError::CountOutOfRange)
                        } else {
                            Ok(AgentMessage::SetTabCount { count: count as u32 })
                        },
                    }
                }
            },
        }
    }

    /// Decodes one payload: JSON with the members `type` and `count`.
    pub fn decode(text: &[u8]) -> (r: Result<AgentMessage, DecodeError>)
        ensures
            r == decoded(text@),
    {
        match read_fields(text, "type", "count") {
            Err(_) => Err(DecodeError::Malformed),
            Ok(raw) => AgentMessage::from_fields(&raw),
        }
    }
}

/// The alias `set_tab_count` names the same command as `SetTabCount`: two
/// documents that differ in nothing but which of the two tags they carry
/// decode to the same result, whatever their count is and whether or not it
/// is valid.
pub proof fn lemma_alias_decodes_alike(named: Seq<u8>, aliased: Seq<u8>, count: Option<u64>)
    ensures
        message_of(RawView { tag: Some("set_tab_count"@), count }) == message_of(
            RawView { tag: Some("SetTabCount"@), count },
        ),
        json_fields(named, tag_key(), count_key()) == Some(
            RawView { tag: Some("SetTabCount"@), count },
        ) && json_fields(aliased, tag_key(), count_key()) == Some(
            RawView { tag: Some("set_tab_count"@), count },
        ) ==> decoded(aliased) == decoded(named),
{
}

/// What is no command is refused: a payload that is not JSON, and a document
/// whose `type` is absent or names nothing known, each with its own error.
pub proof fn lemma_unknown_is_refused(text: Seq<u8>)
    ensures
        json_fields(text, tag_key(), count_key()) is None ==> decoded(text) == Err::<
            AgentMessage,
            DecodeError,
        >(DecodeError::Malformed),
        json_fields(text, tag_key(), count_key()) matches Some(raw) && raw.tag is None ==> decoded(
            text,
        ) == Err::<AgentMessage, DecodeError>(DecodeError::MissingType),
        json_fields(text, tag_key(), count_key()) matches Some(raw) && raw.tag matches Some(tag)
            && !is_set_tab_count(tag) ==> decoded(text) == Err::<AgentMessage, DecodeError>(
            DecodeError::UnknownType,
        ),
{
}

/// Every count from 0 to 2^32 - 1 under the tag `SetTabCount` decodes, and to
/// that count.
pub proof fn lemma_every_count_decodes(text: Seq<u8>, count: u32)
    ensures
        message_of(RawView { tag: Some("SetTabCount"@), count: Some(count as u64) }) == Ok::<
            AgentMessage,
            DecodeError,
        >(AgentMessage::SetTabCount { count }),
        json_fields(text, tag_key(), count_key()) == Some(
            RawView { tag: Some("SetTabCount"@), count: Some(count as u64) },
        ) ==> decoded(text) == Ok::<AgentMessage, DecodeError>(AgentMessage::SetTabCount { count }),
{
}

} // verus!
