//! The plain payload types carried between the scripting side and the
//! native session logic, and the result record sent back for every
//! command. All times are integer milliseconds.

use vstd::prelude::*;

use vstd::string::StringExecFns;

use crate::json::{json_string, write_json_string};

verus! {

/// Where a cover image comes from: a URL to fetch, or inline base64 data.
pub enum CoverSource {
    Url(String),
    Base64(String),
}

impl CoverSource {
    /// A display form that never leaks inline image data into logs.
    pub fn redacted(&self) -> (r: String)
        ensures
            match self {
                CoverSource::Url(u) => r@ == "Url("@ + u@ + ")"@,
                CoverSource::Base64(_) => r@ == "Base64(<...omitted...>)"@,
            },
    {
        match self {
            CoverSource::Url(u) => {
                let mut r = String::from_str("Url(");
                r.append(u.as_str());
                r.append(")");
                proof {
                    assert(r@ =~= "Url("@ + u@ + ")"@);
                }
                r
            },
            CoverSource::Base64(_) => String::from_str("Base64(<...omitted...>)"),
        }
    }
}

/// One track's metadata. `duration` is in milliseconds.
pub struct MetadataPayload {
    pub song_name: String,
    pub author_name: String,
    pub album_name: String,
    pub cover: Option<CoverSource>,
    pub original_cover_url: Option<String>,
    pub ncm_id: Option<u64>,
    pub duration: Option<u64>,
}

#[derive(PartialEq, Eq, Structural, Clone, Copy, Debug)]
pub enum PlaybackStatus {
    Playing,
    Paused,
}

#[derive(PartialEq, Eq, Structural, Clone, Copy, Debug)]
pub enum RepeatMode {
    Off,
    Track,
    List,
    AI,
}

#[derive(Clone, Copy)]
pub struct PlayStatePayload {
    pub status: PlaybackStatus,
}

/// Timeline positions in milliseconds.
#[derive(Clone, Copy)]
pub struct TimelinePayload {
    pub current_time: u64,
    pub total_time: u64,
}

pub struct PlayModePayload {
    pub is_shuffling: bool,
    pub repeat_mode: RepeatMode,
}

pub struct DiscordConfigPayload {
    pub show_when_paused: bool,
}

/// Every command the scripting side can send across the bridge.
pub enum SmtcCommand {
    Metadata(MetadataPayload),
    PlayState(PlayStatePayload),
    Timeline(TimelinePayload),
    PlayMode(PlayModePayload),
    EnableSmtc,
    DisableSmtc,
    EnableDiscordRpc,
    DisableDiscordRpc,
    DiscordConfig(DiscordConfigPayload),
}

#[derive(PartialEq, Eq, Structural, Clone, Copy, Debug)]
pub enum CommandStatus {
    Success,
    Error,
}

/// What a command handler reports back, serialized as JSON for the caller.
pub struct CommandResult {
    pub status: CommandStatus,
    pub message: Option<String>,
}

/// The JSON the scripting side receives for a command result: the status
/// name, plus the message when one is present.
pub open spec fn command_result_json_spec(
    status: CommandStatus,
    message: Option<Seq<char>>,
) -> Seq<char> {
    let status_text: Seq<char> = match status {
        CommandStatus::Success => "Success"@,
        CommandStatus::Error => "Error"@,
    };
    match message {
        None => "{\"status\":"@ + json_string(status_text) + "}"@,
        Some(m) => "{\"status\":"@ + json_string(status_text) + ",\"message\":"@ + json_string(m)
            + "}"@,
    }
}

impl CommandResult {
    /// Serialize this result, exactly [`command_result_json_spec`].
    pub fn to_json(&self) -> (r: String)
        ensures
            r@ == command_result_json_spec(
                self.status,
                match self.message {
                    Some(m) => Some(m@),
                    None => None,
                },
            ),
    {
        let mut r = String::from_str("{\"status\":");
        match self.status {
            CommandStatus::Success => write_json_string(&mut r, "Success"),
            CommandStatus::Error => write_json_string(&mut r, "Error"),
        }
        match &self.message {
            None => {
                r.append("}");
            },
            Some(m) => {
                r.append(",\"message\":");
                write_json_string(&mut r, m.as_str());
                r.append("}");
            },
        }
        proof {
            assert(r@ =~= command_result_json_spec(
                self.status,
                match self.message {
                    Some(m) => Some(m@),
                    None => None,
                },
            ));
        }
        r
    }
}

impl CoverSource {
    /// A fresh copy with the same contents.
    pub fn duplicate(&self) -> (r: CoverSource)
        ensures
            match (self, r) {
                (CoverSource::Url(a), CoverSource::Url(b)) => a@ == b@,
                (CoverSource::Base64(a), CoverSource::Base64(b)) => a@ == b@,
                _ => false,
            },
    {
        match self {
            CoverSource::Url(u) => CoverSource::Url(u.clone()),
            CoverSource::Base64(d) => CoverSource::Base64(d.clone()),
        }
    }
}

impl MetadataPayload {
    /// The copies carry the same text and the same numbers.
    pub open spec fn eqv(self, other: MetadataPayload) -> bool {
        &&& self.song_name@ == other.song_name@
        &&& self.author_name@ == other.author_name@
        &&& self.album_name@ == other.album_name@
        &&& match (self.cover, other.cover) {
            (Some(CoverSource::Url(a)), Some(CoverSource::Url(b))) => a@ == b@,
            (Some(CoverSource::Base64(a)), Some(CoverSource::Base64(b))) => a@ == b@,
            (None, None) => true,
            _ => false,
        }
        &&& match (self.original_cover_url, other.original_cover_url) {
            (Some(a), Some(b)) => a@ == b@,
            (None, None) => true,
            _ => false,
        }
        &&& self.ncm_id == other.ncm_id
        &&& self.duration == other.duration
    }

    /// A fresh copy with the same contents.
    pub fn duplicate(&self) -> (r: MetadataPayload)
        ensures
            r.eqv(*self),
    {
        MetadataPayload {
            song_name: self.song_name.clone(),
            author_name: self.author_name.clone(),
            album_name: self.album_name.clone(),
            cover: match &self.cover {
                Some(c) => Some(c.duplicate()),
                None => None,
            },
            original_cover_url: match &self.original_cover_url {
                Some(u) => Some(u.clone()),
                None => None,
            },
            ncm_id: self.ncm_id,
            duration: self.duration,
        }
    }
}

} // verus!
