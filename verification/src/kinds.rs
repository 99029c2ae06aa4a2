//! Enumerations that appear across endpoints, with the names they carry in
//! JSON.

use vstd::prelude::*;
use crate::text::{ascii_lowercase, decimal, str_eq, u64_to_decimal};
use vstd::string::StringExecFns;

verus! {

/// Period during which the video was created
#[derive(Debug, Clone, Copy, PartialEq, Eq, Structural)]
pub enum VideoPeriod {
    /// Filter by all. Effectively a no-op
    All,
    /// Filter by from this day only
    Day,
    /// Filter by this week
    Week,
    /// Filter by this month
    Month,
}

impl VideoPeriod {
    /// The name written for this value in JSON.
    pub open spec fn name(self) -> Seq<char> {
        match self {
            VideoPeriod::All => "all"@,
            VideoPeriod::Day => "day"@,
            VideoPeriod::Week => "week"@,
            VideoPeriod::Month => "month"@,
        }
    }

    /// The value a JSON string stands for: the name; none for other strings.
    pub open spec fn parse_name(s: Seq<char>) -> Option<VideoPeriod> {
        if s == "all"@ {
            Some(VideoPeriod::All)
        } else if s == "day"@ {
            Some(VideoPeriod::Day)
        } else if s == "week"@ {
            Some(VideoPeriod::Week)
        } else if s == "month"@ {
            Some(VideoPeriod::Month)
        } else {
            None
        }
    }

    /// The name written for this value in JSON.
    pub fn as_str(&self) -> (r: &'static str)
        ensures
            r@ == self.name(),
    {
        match self {
            VideoPeriod::All => "all",
            VideoPeriod::Day => "day",
            VideoPeriod::Week => "week",
            VideoPeriod::Month => "month",
        }
    }

    /// The value a JSON string stands for, if any.
    pub fn from_name(s: &str) -> (r: Option<VideoPeriod>)
        ensures
            r == VideoPeriod::parse_name(s@),
    {
        if str_eq(s, "all") {
            Some(VideoPeriod::All)
        } else if str_eq(s, "day") {
            Some(VideoPeriod::Day)
        } else if str_eq(s, "week") {
            Some(VideoPeriod::Week)
        } else if str_eq(s, "month") {
            Some(VideoPeriod::Month)
        } else {
            None
        }
    }
}

/// Reading back the name of a VideoPeriod gives the same value.
pub proof fn law_video_period_name_round_trip(x: VideoPeriod)
    ensures
        VideoPeriod::parse_name(x.name()) == Some(x),
{
    reveal_strlit("all");
    reveal_strlit("day");
    reveal_strlit("week");
    reveal_strlit("month");
    assert("all"@[0] != "day"@[0]);
    assert("all"@.len() != "week"@.len());
    assert("all"@.len() != "month"@.len());
    assert("day"@.len() != "week"@.len());
    assert("day"@.len() != "month"@.len());
    assert("week"@.len() != "month"@.len());
}

/// Type of video
#[derive(Debug, Clone, Copy, PartialEq, Eq, Structural)]
pub enum VideoType {
    /// A live video
    Live,
    /// A playlist video
    Playlist,
    /// A uploaded video
    Upload,
    /// An archived video
    Archive,
    /// A highlight
    Highlight,
    /// A premiere
    Premiere,
    /// A rerun
    Rerun,
    /// A watch party
    WatchParty,
    /// A watchparty premiere,
    WatchPartyPremiere,
    /// A watchparty rerun
    WatchPartyRerun,
}

impl VideoType {
    /// The name written for this value in JSON.
    pub open spec fn name(self) -> Seq<char> {
        match self {
            VideoType::Live => "live"@,
            VideoType::Playlist => "playlist"@,
            VideoType::Upload => "upload"@,
            VideoType::Archive => "archive"@,
            VideoType::Highlight => "highlight"@,
            VideoType::Premiere => "premiere"@,
            VideoType::Rerun => "rerun"@,
            VideoType::WatchParty => "watch_party"@,
            VideoType::WatchPartyPremiere => "watch_party_premiere"@,
            VideoType::WatchPartyRerun => "watch_party_rerun"@,
        }
    }

    /// The value a JSON string stands for: the name; none for other strings.
    pub open spec fn parse_name(s: Seq<char>) -> Option<VideoType> {
        if s == "live"@ {
            Some(VideoType::Live)
        } else if s == "playlist"@ {
            Some(VideoType::Playlist)
        } else if s == "upload"@ {
            Some(VideoType::Upload)
        } else if s == "archive"@ {
            Some(VideoType::Archive)
        } else if s == "highlight"@ {
            Some(VideoType::Highlight)
        } else if s == "premiere"@ {
            Some(VideoType::Premiere)
        } else if s == "rerun"@ {
            Some(VideoType::Rerun)
        } else if s == "watch_party"@ {
            Some(VideoType::WatchParty)
        } else if s == "watch_party_premiere"@ {
            Some(VideoType::WatchPartyPremiere)
        } else if s == "watch_party_rerun"@ {
            Some(VideoType::WatchPartyRerun)
        } else {
            None
        }
    }

    /// The name written for this value in JSON.
    pub fn as_str(&self) -> (r: &'static str)
        ensures
            r@ == self.name(),
    {
        match self {
            VideoType::Live => "live",
            VideoType::Playlist => "playlist",
            VideoType::Upload => "upload",
            VideoType::Archive => "archive",
            VideoType::Highlight => "highlight",
            VideoType::Premiere => "premiere",
            VideoType::Rerun => "rerun",
            VideoType::WatchParty => "watch_party",
            VideoType::WatchPartyPremiere => "watch_party_premiere",
            VideoType::WatchPartyRerun => "watch_party_rerun",
        }
    }

    /// The value a JSON string stands for, if any.
    pub fn from_name(s: &str) -> (r: Option<VideoType>)
        ensures
            r == VideoType::parse_name(s@),
    {
        if str_eq(s, "live") {
            Some(VideoType::Live)
        } else if str_eq(s, "playlist") {
            Some(VideoType::Playlist)
        } else if str_eq(s, "upload") {
            Some(VideoType::Upload)
        } else if str_eq(s, "archive") {
            Some(VideoType::Archive)
        } else if str_eq(s, "highlight") {
            Some(VideoType::Highlight)
        } else if str_eq(s, "premiere") {
            Some(VideoType::Premiere)
        } else if str_eq(s, "rerun") {
            Some(VideoType::Rerun)
        } else if str_eq(s, "watch_party") {
            Some(VideoType::WatchParty)
        } else if str_eq(s, "watch_party_premiere") {
            Some(VideoType::WatchPartyPremiere)
        } else if str_eq(s, "watch_party_rerun") {
            Some(VideoType::WatchPartyRerun)
        } else {
            None
        }
    }
}

/// Reading back the name of a VideoType gives the same value.
pub proof fn law_video_type_name_round_trip(x: VideoType)
    ensures
        VideoType::parse_name(x.name()) == Some(x),
{
    reveal_strlit("live");
    reveal_strlit("playlist");
    reveal_strlit("upload");
    reveal_strlit("archive");
    reveal_strlit("highlight");
    reveal_strlit("premiere");
    reveal_strlit("rerun");
    reveal_strlit("watch_party");
    reveal_strlit("watch_party_premiere");
    reveal_strlit("watch_party_rerun");
    assert("live"@.len() != "playlist"@.len());
    assert("live"@.len() != "upload"@.len());
    assert("live"@.len() != "archive"@.len());
    assert("live"@.len() != "highlight"@.len());
    assert("live"@.len() != "premiere"@.len());
    assert("live"@.len() != "rerun"@.len());
    assert("live"@.len() != "watch_party"@.len());
    assert("live"@.len() != "watch_party_premiere"@.len());
    assert("live"@.len() != "watch_party_rerun"@.len());
    assert("playlist"@.len() != "upload"@.len());
    assert("playlist"@.len() != "archive"@.len());
    assert("playlist"@.len() != "highlight"@.len());
    assert("playlist"@[1] != "premiere"@[1]);
    assert("playlist"@.len() != "rerun"@.len());
    assert("playlist"@.len() != "watch_party"@.len());
    assert("playlist"@.len() != "watch_party_premiere"@.len());
    assert("playlist"@.len() != "watch_party_rerun"@.len());
    assert("upload"@.len() != "archive"@.len());
    assert("upload"@.len() != "highlight"@.len());
    assert("upload"@.len() != "premiere"@.len());
    assert("upload"@.len() != "rerun"@.len());
    assert("upload"@.len() != "watch_party"@.len());
    assert("upload"@.len() != "watch_party_premiere"@.len());
    assert("upload"@.len() != "watch_party_rerun"@.len());
    assert("archive"@.len() != "highlight"@.len());
    assert("archive"@.len() != "premiere"@.len());
    assert("archive"@.len() != "rerun"@.len());
    assert("archive"@.len() != "watch_party"@.len());
    assert("archive"@.len() != "watch_party_premiere"@.len());
    assert("archive"@.len() != "watch_party_rerun"@.len());
    assert("highlight"@.len() != "premiere"@.len());
    assert("highlight"@.len() != "rerun"@.len());
    assert("highlight"@.len() != "watch_party"@.len());
    assert("highlight"@.len() != "watch_party_premiere"@.len());
    assert("highlight"@.len() != "watch_party_rerun"@.len());
    assert("premiere"@.len() != "rerun"@.len());
    assert("premiere"@.len() != "watch_party"@.len());
    assert("premiere"@.len() != "watch_party_premiere"@.len());
    assert("premiere"@.len() != "watch_party_rerun"@.len());
    assert("rerun"@.len() != "watch_party"@.len());
    assert("rerun"@.len() != "watch_party_premiere"@.len());
    assert("rerun"@.len() != "watch_party_rerun"@.len());
    assert("watch_party"@.len() != "watch_party_premiere"@.len());
    assert("watch_party"@.len() != "watch_party_rerun"@.len());
    assert("watch_party_premiere"@.len() != "watch_party_rerun"@.len());
}

/// Type of video
#[derive(Debug, Clone, Copy, PartialEq, Eq, Structural)]
pub enum VideoPrivacy {
    /// Video is public
    Public,
    /// Video is private
    Private,
}

impl VideoPrivacy {
    /// The name written for this value in JSON.
    pub open spec fn name(self) -> Seq<char> {
        match self {
            VideoPrivacy::Public => "public"@,
            VideoPrivacy::Private => "private"@,
        }
    }

    /// The value a JSON string stands for: the name; none for other strings.
    pub open spec fn parse_name(s: Seq<char>) -> Option<VideoPrivacy> {
        if s == "public"@ {
            Some(VideoPrivacy::Public)
        } else if s == "private"@ {
            Some(VideoPrivacy::Private)
        } else {
            None
        }
    }

    /// The name written for this value in JSON.
    pub fn as_str(&self) -> (r: &'static str)
        ensures
            r@ == self.name(),
    {
        match self {
            VideoPrivacy::Public => "public",
            VideoPrivacy::Private => "private",
        }
    }

    /// The value a JSON string stands for, if any.
    pub fn from_name(s: &str) -> (r: Option<VideoPrivacy>)
        ensures
            r == VideoPrivacy::parse_name(s@),
    {
        if str_eq(s, "public") {
            Some(VideoPrivacy::Public)
        } else if str_eq(s, "private") {
            Some(VideoPrivacy::Private)
        } else {
            None
        }
    }
}

/// Reading back the name of a VideoPrivacy gives the same value.
pub proof fn law_video_privacy_name_round_trip(x: VideoPrivacy)
    ensures
        VideoPrivacy::parse_name(x.name()) == Some(x),
{
    reveal_strlit("public");
    reveal_strlit("private");
    assert("public"@.len() != "private"@.len());
}

/// Status of a poll
#[derive(Debug, Clone, Copy, PartialEq, Eq, Structural)]
#[non_exhaustive]
pub enum PollStatus {
    /// Poll is currently in progress.
    Active,
    /// Poll has reached its ended_at time.
    Completed,
    /// Poll has been manually terminated before its ended_at time.
    Terminated,
    /// Poll is no longer visible on the channel.
    Archived,
    /// Poll is no longer visible to any user on Twitch.
    Moderated,
    /// Something went wrong determining the state.
    Invalid,
}

impl PollStatus {
    /// The name written for this value in JSON.
    pub open spec fn name(self) -> Seq<char> {
        match self {
            PollStatus::Active => "ACTIVE"@,
            PollStatus::Completed => "COMPLETED"@,
            PollStatus::Terminated => "TERMINATED"@,
            PollStatus::Archived => "ARCHIVED"@,
            PollStatus::Moderated => "MODERATED"@,
            PollStatus::Invalid => "INVALID"@,
        }
    }

    /// The value a JSON string stands for: the name, or its lower-case alias; none for other strings.
    pub open spec fn parse_name(s: Seq<char>) -> Option<PollStatus> {
        if s == "ACTIVE"@ || s == "active"@ {
            Some(PollStatus::Active)
        } else if s == "COMPLETED"@ || s == "completed"@ {
            Some(PollStatus::Completed)
        } else if s == "TERMINATED"@ || s == "terminated"@ {
            Some(PollStatus::Terminated)
        } else if s == "ARCHIVED"@ || s == "archived"@ {
            Some(PollStatus::Archived)
        } else if s == "MODERATED"@ || s == "moderated"@ {
            Some(PollStatus::Moderated)
        } else if s == "INVALID"@ || s == "invalid"@ {
            Some(PollStatus::Invalid)
        } else {
            None
        }
    }

    /// The name written for this value in JSON.
    pub fn as_str(&self) -> (r: &'static str)
        ensures
            r@ == self.name(),
    {
        match self {
            PollStatus::Active => "ACTIVE",
            PollStatus::Completed => "COMPLETED",
            PollStatus::Terminated => "TERMINATED",
            PollStatus::Archived => "ARCHIVED",
            PollStatus::Moderated => "MODERATED",
            PollStatus::Invalid => "INVALID",
        }
    }

    /// The value a JSON string stands for, if any.
    pub fn from_name(s: &str) -> (r: Option<PollStatus>)
        ensures
            r == PollStatus::parse_name(s@),
    {
        if str_eq(s, "ACTIVE") || str_eq(s, "active") {
            Some(PollStatus::Active)
        } else if str_eq(s, "COMPLETED") || str_eq(s, "completed") {
            Some(PollStatus::Completed)
        } else if str_eq(s, "TERMINATED") || str_eq(s, "terminated") {
            Some(PollStatus::Terminated)
        } else if str_eq(s, "ARCHIVED") || str_eq(s, "archived") {
            Some(PollStatus::Archived)
        } else if str_eq(s, "MODERATED") || str_eq(s, "moderated") {
            Some(PollStatus::Moderated)
        } else if str_eq(s, "INVALID") || str_eq(s, "invalid") {
            Some(PollStatus::Invalid)
        } else {
            None
        }
    }
}

/// Reading back the name of a PollStatus gives the same value.
pub proof fn law_poll_status_name_round_trip(x: PollStatus)
    ensures
        PollStatus::parse_name(x.name()) == Some(x),
{
    reveal_strlit("ACTIVE");
    reveal_strlit("active");
    reveal_strlit("COMPLETED");
    reveal_strlit("completed");
    reveal_strlit("TERMINATED");
    reveal_strlit("terminated");
    reveal_strlit("ARCHIVED");
    reveal_strlit("archived");
    reveal_strlit("MODERATED");
    reveal_strlit("moderated");
    reveal_strlit("INVALID");
    reveal_strlit("invalid");
    assert("ACTIVE"@[0] != "active"@[0]);
    assert("ACTIVE"@.len() != "COMPLETED"@.len());
    assert("ACTIVE"@.len() != "completed"@.len());
    assert("ACTIVE"@.len() != "TERMINATED"@.len());
    assert("ACTIVE"@.len() != "terminated"@.len());
    assert("ACTIVE"@.len() != "ARCHIVED"@.len());
    assert("ACTIVE"@.len() != "archived"@.len());
    assert("ACTIVE"@.len() != "MODERATED"@.len());
    assert("ACTIVE"@.len() != "moderated"@.len());
    assert("ACTIVE"@.len() != "INVALID"@.len());
    assert("ACTIVE"@.len() != "invalid"@.len());
    assert("active"@.len() != "COMPLETED"@.len());
    assert("active"@.len() != "completed"@.len());
    assert("active"@.len() != "TERMINATED"@.len());
    assert("active"@.len() != "terminated"@.len());
    assert("active"@.len() != "ARCHIVED"@.len());
    assert("active"@.len() != "archived"@.len());
    assert("active"@.len() != "MODERATED"@.len());
    assert("active"@.len() != "moderated"@.len());
    assert("active"@.len() != "INVALID"@.len());
    assert("active"@.len() != "invalid"@.len());
    assert("COMPLETED"@[0] != "completed"@[0]);
    assert("COMPLETED"@.len() != "TERMINATED"@.len());
    assert("COMPLETED"@.len() != "terminated"@.len());
    assert("COMPLETED"@.len() != "ARCHIVED"@.len());
    assert("COMPLETED"@.len() != "archived"@.len());
    assert("COMPLETED"@[0] != "MODERATED"@[0]);
    assert("COMPLETED"@[0] != "moderated"@[0]);
    assert("COMPLETED"@.len() != "INVALID"@.len());
    assert("COMPLETED"@.len() != "invalid"@.len());
    assert("completed"@.len() != "TERMINATED"@.len());
    assert("completed"@.len() != "terminated"@.len());
    assert("completed"@.len() != "ARCHIVED"@.len());
    assert("completed"@.len() != "archived"@.len());
    assert("completed"@[0] != "MODERATED"@[0]);
    assert("completed"@[0] != "moderated"@[0]);
    assert("completed"@.len() != "INVALID"@.len());
    assert("completed"@.len() != "invalid"@.len());
    assert("TERMINATED"@[0] != "terminated"@[0]);
    assert("TERMINATED"@.len() != "ARCHIVED"@.len());
    assert("TERMINATED"@.len() != "archived"@.len());
    assert("TERMINATED"@.len() != "MODERATED"@.len());
    assert("TERMINATED"@.len() != "moderated"@.len());
    assert("TERMINATED"@.len() != "INVALID"@.len());
    assert("TERMINATED"@.len() != "invalid"@.len());
    assert("terminated"@.len() != "ARCHIVED"@.len());
    assert("terminated"@.len() != "archived"@.len());
    assert("terminated"@.len() != "MODERATED"@.len());
    assert("terminated"@.len() != "moderated"@.len());
    assert("terminated"@.len() != "INVALID"@.len());
    assert("terminated"@.len() != "invalid"@.len());
    assert("ARCHIVED"@[0] != "archived"@[0]);
    assert("ARCHIVED"@.len() != "MODERATED"@.len());
    assert("ARCHIVED"@.len() != "moderated"@.len());
    assert("ARCHIVED"@.len() != "INVALID"@.len());
    assert("ARCHIVED"@.len() != "invalid"@.len());
    assert("archived"@.len() != "MODERATED"@.len());
    assert("archived"@.len() != "moderated"@.len());
    assert("archived"@.len() != "INVALID"@.len());
    assert("archived"@.len() != "invalid"@.len());
    assert("MODERATED"@[0] != "moderated"@[0]);
    assert("MODERATED"@.len() != "INVALID"@.len());
    assert("MODERATED"@.len() != "invalid"@.len());
    assert("moderated"@.len() != "INVALID"@.len());
    assert("moderated"@.len() != "invalid"@.len());
    assert("INVALID"@[0] != "invalid"@[0]);
}

/// Each value also reads back from the lower-case form of its name, the
/// alias that event payloads use.
pub proof fn law_poll_status_lowercase_alias(x: PollStatus)
    ensures
        PollStatus::parse_name(ascii_lowercase(x.name())) == Some(x),
{
    reveal_strlit("ACTIVE");
    reveal_strlit("active");
    reveal_strlit("COMPLETED");
    reveal_strlit("completed");
    reveal_strlit("TERMINATED");
    reveal_strlit("terminated");
    reveal_strlit("ARCHIVED");
    reveal_strlit("archived");
    reveal_strlit("MODERATED");
    reveal_strlit("moderated");
    reveal_strlit("INVALID");
    reveal_strlit("invalid");
    assert("ACTIVE"@[0] != "active"@[0]);
    assert("ACTIVE"@.len() != "COMPLETED"@.len());
    assert("ACTIVE"@.len() != "completed"@.len());
    assert("ACTIVE"@.len() != "TERMINATED"@.len());
    assert("ACTIVE"@.len() != "terminated"@.len());
    assert("ACTIVE"@.len() != "ARCHIVED"@.len());
    assert("ACTIVE"@.len() != "archived"@.len());
    assert("ACTIVE"@.len() != "MODERATED"@.len());
    assert("ACTIVE"@.len() != "moderated"@.len());
    assert("ACTIVE"@.len() != "INVALID"@.len());
    assert("ACTIVE"@.len() != "invalid"@.len());
    assert("active"@.len() != "COMPLETED"@.len());
    assert("active"@.len() != "completed"@.len());
    assert("active"@.len() != "TERMINATED"@.len());
    assert("active"@.len() != "terminated"@.len());
    assert("active"@.len() != "ARCHIVED"@.len());
    assert("active"@.len() != "archived"@.len());
    assert("active"@.len() != "MODERATED"@.len());
    assert("active"@.len() != "moderated"@.len());
    assert("active"@.len() != "INVALID"@.len());
    assert("active"@.len() != "invalid"@.len());
    assert("COMPLETED"@[0] != "completed"@[0]);
    assert("COMPLETED"@.len() != "TERMINATED"@.len());
    assert("COMPLETED"@.len() != "terminated"@.len());
    assert("COMPLETED"@.len() != "ARCHIVED"@.len());
    assert("COMPLETED"@.len() != "archived"@.len());
    assert("COMPLETED"@[0] != "MODERATED"@[0]);
    assert("COMPLETED"@[0] != "moderated"@[0]);
    assert("COMPLETED"@.len() != "INVALID"@.len());
    assert("COMPLETED"@.len() != "invalid"@.len());
    assert("completed"@.len() != "TERMINATED"@.len());
    assert("completed"@.len() != "terminated"@.len());
    assert("completed"@.len() != "ARCHIVED"@.len());
    assert("completed"@.len() != "archived"@.len());
    assert("completed"@[0] != "MODERATED"@[0]);
    assert("completed"@[0] != "moderated"@[0]);
    assert("completed"@.len() != "INVALID"@.len());
    assert("completed"@.len() != "invalid"@.len());
    assert("TERMINATED"@[0] != "terminated"@[0]);
    assert("TERMINATED"@.len() != "ARCHIVED"@.len());
    assert("TERMINATED"@.len() != "archived"@.len());
    assert("TERMINATED"@.len() != "MODERATED"@.len());
    assert("TERMINATED"@.len() != "moderated"@.len());
    assert("TERMINATED"@.len() != "INVALID"@.len());
    assert("TERMINATED"@.len() != "invalid"@.len());
    assert("terminated"@.len() != "ARCHIVED"@.len());
    assert("terminated"@.len() != "archived"@.len());
    assert("terminated"@.len() != "MODERATED"@.len());
    assert("terminated"@.len() != "moderated"@.len());
    assert("terminated"@.len() != "INVALID"@.len());
    assert("terminated"@.len() != "invalid"@.len());
    assert("ARCHIVED"@[0] != "archived"@[0]);
    assert("ARCHIVED"@.len() != "MODERATED"@.len());
    assert("ARCHIVED"@.len() != "moderated"@.len());
    assert("ARCHIVED"@.len() != "INVALID"@.len());
    assert("ARCHIVED"@.len() != "invalid"@.len());
    assert("archived"@.len() != "MODERATED"@.len());
    assert("archived"@.len() != "moderated"@.len());
    assert("archived"@.len() != "INVALID"@.len());
    assert("archived"@.len() != "invalid"@.len());
    assert("MODERATED"@[0] != "moderated"@[0]);
    assert("MODERATED"@.len() != "INVALID"@.len());
    assert("MODERATED"@.len() != "invalid"@.len());
    assert("moderated"@.len() != "INVALID"@.len());
    assert("moderated"@.len() != "invalid"@.len());
    assert("INVALID"@[0] != "invalid"@[0]);
    assert(ascii_lowercase("ACTIVE"@) =~= "active"@);
    assert(ascii_lowercase("COMPLETED"@) =~= "completed"@);
    assert(ascii_lowercase("TERMINATED"@) =~= "terminated"@);
    assert(ascii_lowercase("ARCHIVED"@) =~= "archived"@);
    assert(ascii_lowercase("MODERATED"@) =~= "moderated"@);
    assert(ascii_lowercase("INVALID"@) =~= "invalid"@);
}

/// Status of the Prediction
#[derive(Debug, Clone, Copy, PartialEq, Eq, Structural)]
#[non_exhaustive]
pub enum PredictionStatus {
    /// A winning outcome has been chosen and the Channel Points have been distributed to the users who guessed the correct outcome.
    Resolved,
    /// The Prediction is active and viewers can make predictions.
    Active,
    /// The Prediction has been canceled and the Channel Points have been refunded to participants.
    Canceled,
    /// The Prediction has been locked and viewers can no longer make predictions.
    Locked,
}

impl PredictionStatus {
    /// The name written for this value in JSON.
    pub open spec fn name(self) -> Seq<char> {
        match self {
            PredictionStatus::Resolved => "RESOLVED"@,
            PredictionStatus::Active => "ACTIVE"@,
            PredictionStatus::Canceled => "CANCELED"@,
            PredictionStatus::Locked => "LOCKED"@,
        }
    }

    /// The value a JSON string stands for: the name, or its lower-case alias; none for other strings.
    pub open spec fn parse_name(s: Seq<char>) -> Option<PredictionStatus> {
        if s == "RESOLVED"@ || s == "resolved"@ {
            Some(PredictionStatus::Resolved)
        } else if s == "ACTIVE"@ || s == "active"@ {
            Some(PredictionStatus::Active)
        } else if s == "CANCELED"@ || s == "canceled"@ {
            Some(PredictionStatus::Canceled)
        } else if s == "LOCKED"@ || s == "locked"@ {
            Some(PredictionStatus::Locked)
        } else {
            None
        }
    }

    /// The name written for this value in JSON.
    pub fn as_str(&self) -> (r: &'static str)
        ensures
            r@ == self.name(),
    {
        match self {
            PredictionStatus::Resolved => "RESOLVED",
            PredictionStatus::Active => "ACTIVE",
            PredictionStatus::Canceled => "CANCELED",
            PredictionStatus::Locked => "LOCKED",
        }
    }

    /// The value a JSON string stands for, if any.
    pub fn from_name(s: &str) -> (r: Option<PredictionStatus>)
        ensures
            r == PredictionStatus::parse_name(s@),
    {
        if str_eq(s, "RESOLVED") || str_eq(s, "resolved") {
            Some(PredictionStatus::Resolved)
        } else if str_eq(s, "ACTIVE") || str_eq(s, "active") {
            Some(PredictionStatus::Active)
        } else if str_eq(s, "CANCELED") || str_eq(s, "canceled") {
            Some(PredictionStatus::Canceled)
        } else if str_eq(s, "LOCKED") || str_eq(s, "locked") {
            Some(PredictionStatus::Locked)
        } else {
            None
        }
    }
}

/// Reading back the name of a PredictionStatus gives the same value.
pub proof fn law_prediction_status_name_round_trip(x: PredictionStatus)
    ensures
        PredictionStatus::parse_name(x.name()) == Some(x),
{
    reveal_strlit("RESOLVED");
    reveal_strlit("resolved");
    reveal_strlit("ACTIVE");
    reveal_strlit("active");
    reveal_strlit("CANCELED");
    reveal_strlit("canceled");
    reveal_strlit("LOCKED");
    reveal_strlit("locked");
    assert("RESOLVED"@[0] != "resolved"@[0]);
    assert("RESOLVED"@.len() != "ACTIVE"@.len());
    assert("RESOLVED"@.len() != "active"@.len());
    assert("RESOLVED"@[0] != "CANCELED"@[0]);
    assert("RESOLVED"@[0] != "canceled"@[0]);
    assert("RESOLVED"@.len() != "LOCKED"@.len());
    assert("RESOLVED"@.len() != "locked"@.len());
    assert("resolved"@.len() != "ACTIVE"@.len());
    assert("resolved"@.len() != "active"@.len());
    assert("resolved"@[0] != "CANCELED"@[0]);
    assert("resolved"@[0] != "canceled"@[0]);
    assert("resolved"@.len() != "LOCKED"@.len());
    assert("resolved"@.len() != "locked"@.len());
    assert("ACTIVE"@[0] != "active"@[0]);
    assert("ACTIVE"@.len() != "CANCELED"@.len());
    assert("ACTIVE"@.len() != "canceled"@.len());
    assert("ACTIVE"@[0] != "LOCKED"@[0]);
    assert("ACTIVE"@[0] != "locked"@[0]);
    assert("active"@.len() != "CANCELED"@.len());
    assert("active"@.len() != "canceled"@.len());
    assert("active"@[0] != "LOCKED"@[0]);
    assert("active"@[0] != "locked"@[0]);
    assert("CANCELED"@[0] != "canceled"@[0]);
    assert("CANCELED"@.len() != "LOCKED"@.len());
    assert("CANCELED"@.len() != "locked"@.len());
    assert("canceled"@.len() != "LOCKED"@.len());
    assert("canceled"@.len() != "locked"@.len());
    assert("LOCKED"@[0] != "locked"@[0]);
}

/// Each value also reads back from the lower-case form of its name, the
/// alias that event payloads use.
pub proof fn law_prediction_status_lowercase_alias(x: PredictionStatus)
    ensures
        PredictionStatus::parse_name(ascii_lowercase(x.name())) == Some(x),
{
    reveal_strlit("RESOLVED");
    reveal_strlit("resolved");
    reveal_strlit("ACTIVE");
    reveal_strlit("active");
    reveal_strlit("CANCELED");
    reveal_strlit("canceled");
    reveal_strlit("LOCKED");
    reveal_strlit("locked");
    assert("RESOLVED"@[0] != "resolved"@[0]);
    assert("RESOLVED"@.len() != "ACTIVE"@.len());
    assert("RESOLVED"@.len() != "active"@.len());
    assert("RESOLVED"@[0] != "CANCELED"@[0]);
    assert("RESOLVED"@[0] != "canceled"@[0]);
    assert("RESOLVED"@.len() != "LOCKED"@.len());
    assert("RESOLVED"@.len() != "locked"@.len());
    assert("resolved"@.len() != "ACTIVE"@.len());
    assert("resolved"@.len() != "active"@.len());
    assert("resolved"@[0] != "CANCELED"@[0]);
    assert("resolved"@[0] != "canceled"@[0]);
    assert("resolved"@.len() != "LOCKED"@.len());
    assert("resolved"@.len() != "locked"@.len());
    assert("ACTIVE"@[0] != "active"@[0]);
    assert("ACTIVE"@.len() != "CANCELED"@.len());
    assert("ACTIVE"@.len() != "canceled"@.len());
    assert("ACTIVE"@[0] != "LOCKED"@[0]);
    assert("ACTIVE"@[0] != "locked"@[0]);
    assert("active"@.len() != "CANCELED"@.len());
    assert("active"@.len() != "canceled"@.len());
    assert("active"@[0] != "LOCKED"@[0]);
    assert("active"@[0] != "locked"@[0]);
    assert("CANCELED"@[0] != "canceled"@[0]);
    assert("CANCELED"@.len() != "LOCKED"@.len());
    assert("CANCELED"@.len() != "locked"@.len());
    assert("canceled"@.len() != "LOCKED"@.len());
    assert("canceled"@.len() != "locked"@.len());
    assert("LOCKED"@[0] != "locked"@[0]);
    assert(ascii_lowercase("RESOLVED"@) =~= "resolved"@);
    assert(ascii_lowercase("ACTIVE"@) =~= "active"@);
    assert(ascii_lowercase("CANCELED"@) =~= "canceled"@);
    assert(ascii_lowercase("LOCKED"@) =~= "locked"@);
}

/// Status of a message that is or was in AutoMod queue
#[derive(Debug, Clone, Copy, PartialEq, Eq, Structural)]
#[non_exhaustive]
pub enum AutomodStatus {
    /// Message has been caught and pending moderation
    Pending,
    /// Message has been allowed
    Allowed,
    /// Message has been denied
    Denied,
    /// Automod message expired in queue
    Expired,
}

impl AutomodStatus {
    /// The name written for this value in JSON.
    pub open spec fn name(self) -> Seq<char> {
        match self {
            AutomodStatus::Pending => "PENDING"@,
            AutomodStatus::Allowed => "ALLOWED"@,
            AutomodStatus::Denied => "DENIED"@,
            AutomodStatus::Expired => "EXPIRED"@,
        }
    }

    /// The value a JSON string stands for: the name; none for other strings.
    pub open spec fn parse_name(s: Seq<char>) -> Option<AutomodStatus> {
        if s == "PENDING"@ {
            Some(AutomodStatus::Pending)
        } else if s == "ALLOWED"@ {
            Some(AutomodStatus::Allowed)
        } else if s == "DENIED"@ {
            Some(AutomodStatus::Denied)
        } else if s == "EXPIRED"@ {
            Some(AutomodStatus::Expired)
        } else {
            None
        }
    }

    /// The name written for this value in JSON.
    pub fn as_str(&self) -> (r: &'static str)
        ensures
            r@ == self.name(),
    {
        match self {
            AutomodStatus::Pending => "PENDING",
            AutomodStatus::Allowed => "ALLOWED",
            AutomodStatus::Denied => "DENIED",
            AutomodStatus::Expired => "EXPIRED",
        }
    }

    /// The value a JSON string stands for, if any.
    pub fn from_name(s: &str) -> (r: Option<AutomodStatus>)
        ensures
            r == AutomodStatus::parse_name(s@),
    {
        if str_eq(s, "PENDING") {
            Some(AutomodStatus::Pending)
        } else if str_eq(s, "ALLOWED") {
            Some(AutomodStatus::Allowed)
        } else if str_eq(s, "DENIED") {
            Some(AutomodStatus::Denied)
        } else if str_eq(s, "EXPIRED") {
            Some(AutomodStatus::Expired)
        } else {
            None
        }
    }
}

/// Reading back the name of a AutomodStatus gives the same value.
pub proof fn law_automod_status_name_round_trip(x: AutomodStatus)
    ensures
        AutomodStatus::parse_name(x.name()) == Some(x),
{
    reveal_strlit("PENDING");
    reveal_strlit("ALLOWED");
    reveal_strlit("DENIED");
    reveal_strlit("EXPIRED");
    assert("PENDING"@[0] != "ALLOWED"@[0]);
    assert("PENDING"@.len() != "DENIED"@.len());
    assert("PENDING"@[0] != "EXPIRED"@[0]);
    assert("ALLOWED"@.len() != "DENIED"@.len());
    assert("ALLOWED"@[0] != "EXPIRED"@[0]);
    assert("DENIED"@.len() != "EXPIRED"@.len());
}

/// Type of creator goal
#[derive(Debug, Clone, Copy, PartialEq, Eq, Structural)]
#[non_exhaustive]
pub enum CreatorGoalType {
    /// Creator goal is for followers
    Follower,
    /// Creator goal is for subscriptions
    Subscription,
}

impl CreatorGoalType {
    /// The name written for this value in JSON.
    pub open spec fn name(self) -> Seq<char> {
        match self {
            CreatorGoalType::Follower => "follower"@,
            CreatorGoalType::Subscription => "subscription"@,
        }
    }

    /// The value a JSON string stands for: the name; none for other strings.
    pub open spec fn parse_name(s: Seq<char>) -> Option<CreatorGoalType> {
        if s == "follower"@ {
            Some(CreatorGoalType::Follower)
        } else if s == "subscription"@ {
            Some(CreatorGoalType::Subscription)
        } else {
            None
        }
    }

    /// The name written for this value in JSON.
    pub fn as_str(&self) -> (r: &'static str)
        ensures
            r@ == self.name(),
    {
        match self {
            CreatorGoalType::Follower => "follower",
            CreatorGoalType::Subscription => "subscription",
        }
    }

    /// The value a JSON string stands for, if any.
    pub fn from_name(s: &str) -> (r: Option<CreatorGoalType>)
        ensures
            r == CreatorGoalType::parse_name(s@),
    {
        if str_eq(s, "follower") {
            Some(CreatorGoalType::Follower)
        } else if str_eq(s, "subscription") {
            Some(CreatorGoalType::Subscription)
        } else {
            None
        }
    }
}

/// Reading back the name of a CreatorGoalType gives the same value.
pub proof fn law_creator_goal_type_name_round_trip(x: CreatorGoalType)
    ensures
        CreatorGoalType::parse_name(x.name()) == Some(x),
{
    reveal_strlit("follower");
    reveal_strlit("subscription");
    assert("follower"@.len() != "subscription"@.len());
}

/// Subscription tiers
#[derive(Clone, Debug, PartialEq, Eq)]
pub enum SubscriptionTier {
    /// Tier 1. $4.99
    Tier1,
    /// Tier 1. $9.99
    Tier2,
    /// Tier 1. $24.99
    Tier3,
    /// Prime subscription
    Prime,
    /// Other
    Other(String),
}

/// What a [`SubscriptionTier`] is, as plain values.
pub enum SubscriptionTierView {
    /// Tier 1.
    Tier1,
    /// Tier 2.
    Tier2,
    /// Tier 3.
    Tier3,
    /// Prime subscription.
    Prime,
    /// Any other tier, by its name.
    Other(Seq<char>),
}

impl View for SubscriptionTier {
    type V = SubscriptionTierView;

    open spec fn view(&self) -> SubscriptionTierView {
        match self {
            SubscriptionTier::Tier1 => SubscriptionTierView::Tier1,
            SubscriptionTier::Tier2 => SubscriptionTierView::Tier2,
            SubscriptionTier::Tier3 => SubscriptionTierView::Tier3,
            SubscriptionTier::Prime => SubscriptionTierView::Prime,
            SubscriptionTier::Other(o) => SubscriptionTierView::Other(o@),
        }
    }
}

/// The name written for a tier in JSON.
pub open spec fn tier_name(t: SubscriptionTierView) -> Seq<char> {
    match t {
        SubscriptionTierView::Tier1 => "1000"@,
        SubscriptionTierView::Tier2 => "2000"@,
        SubscriptionTierView::Tier3 => "3000"@,
        SubscriptionTierView::Prime => "Prime"@,
        SubscriptionTierView::Other(o) => o,
    }
}

/// The tier a JSON string stands for: one of the four known names, or
/// else `Other` with the string itself.
pub open spec fn tier_of_name(s: Seq<char>) -> SubscriptionTierView {
    if s == "1000"@ {
        SubscriptionTierView::Tier1
    } else if s == "2000"@ {
        SubscriptionTierView::Tier2
    } else if s == "3000"@ {
        SubscriptionTierView::Tier3
    } else if s == "Prime"@ {
        SubscriptionTierView::Prime
    } else {
        SubscriptionTierView::Other(s)
    }
}

/// Whether `s` is one of the names of the known tiers.
pub open spec fn is_known_tier_name(s: Seq<char>) -> bool {
    s == "1000"@ || s == "2000"@ || s == "3000"@ || s == "Prime"@
}

impl SubscriptionTier {
    /// The name written for this tier in JSON.
    pub fn as_str(&self) -> (r: &str)
        ensures
            r@ == tier_name(self@),
    {
        match self {
            SubscriptionTier::Tier1 => "1000",
            SubscriptionTier::Tier2 => "2000",
            SubscriptionTier::Tier3 => "3000",
            SubscriptionTier::Prime => "Prime",
            SubscriptionTier::Other(o) => o.as_str(),
        }
    }

    /// The tier a JSON string stands for.
    pub fn from_name(s: &str) -> (r: SubscriptionTier)
        ensures
            r@ == tier_of_name(s@),
    {
        if str_eq(s, "1000") {
            SubscriptionTier::Tier1
        } else if str_eq(s, "2000") {
            SubscriptionTier::Tier2
        } else if str_eq(s, "3000") {
            SubscriptionTier::Tier3
        } else if str_eq(s, "Prime") {
            SubscriptionTier::Prime
        } else {
            SubscriptionTier::Other(s.to_owned())
        }
    }
}

/// Reading back the name of a tier gives the same tier, unless it is an
/// `Other` tier that carries the name of a known one.
pub proof fn law_subscription_tier_round_trip(t: SubscriptionTierView)
    requires
        t matches SubscriptionTierView::Other(o) ==> !is_known_tier_name(o),
    ensures
        tier_of_name(tier_name(t)) == t,
{
    reveal_strlit("1000");
    reveal_strlit("2000");
    reveal_strlit("3000");
    reveal_strlit("Prime");
    assert("1000"@[0] != "2000"@[0]);
    assert("1000"@[0] != "3000"@[0]);
    assert("2000"@[0] != "3000"@[0]);
    assert("1000"@.len() != "Prime"@.len());
    assert("2000"@.len() != "Prime"@.len());
    assert("3000"@.len() != "Prime"@.len());
}

/// Every JSON string names a tier, and writing that tier gives the string
/// back.
pub proof fn law_subscription_tier_name_is_kept(s: Seq<char>)
    ensures
        tier_name(tier_of_name(s)) == s,
{
}

/// Broadcaster types: "partner", "affiliate", or "".
#[derive(Clone, Copy, Debug, PartialEq, Eq, Structural)]
pub enum BroadcasterType {
    /// Partner
    Partner,
    /// Affiliate
    Affiliate,
    /// Neither partner nor affiliate; its name is the empty string
    Normal,
}

impl BroadcasterType {
    /// The name written for this value in JSON.
    pub open spec fn name(self) -> Seq<char> {
        match self {
            BroadcasterType::Partner => "partner"@,
            BroadcasterType::Affiliate => "affiliate"@,
            BroadcasterType::Normal => ""@,
        }
    }

    /// The value a JSON string stands for: any string but the two known
    /// names stands for `Normal`.
    pub open spec fn parse_name(s: Seq<char>) -> BroadcasterType {
        if s == "partner"@ {
            BroadcasterType::Partner
        } else if s == "affiliate"@ {
            BroadcasterType::Affiliate
        } else {
            BroadcasterType::Normal
        }
    }

    /// The name written for this value in JSON.
    pub fn as_str(&self) -> (r: &'static str)
        ensures
            r@ == self.name(),
    {
        match self {
            BroadcasterType::Partner => "partner",
            BroadcasterType::Affiliate => "affiliate",
            BroadcasterType::Normal => "",
        }
    }

    /// The value a JSON string stands for.
    pub fn from_name(s: &str) -> (r: BroadcasterType)
        ensures
            r == BroadcasterType::parse_name(s@),
    {
        if str_eq(s, "partner") {
            BroadcasterType::Partner
        } else if str_eq(s, "affiliate") {
            BroadcasterType::Affiliate
        } else {
            BroadcasterType::Normal
        }
    }
}

/// Reading back the name of a broadcaster type gives the same value.
pub proof fn law_broadcaster_type_name_round_trip(x: BroadcasterType)
    ensures
        BroadcasterType::parse_name(x.name()) == x,
{
    reveal_strlit("partner");
    reveal_strlit("affiliate");
    reveal_strlit("");
    assert("partner"@.len() != "affiliate"@.len());
    assert("partner"@.len() != ""@.len());
    assert("affiliate"@.len() != ""@.len());
}

/// User types: "staff", "admin", "global_mod", or "".
#[derive(Clone, Copy, Debug, PartialEq, Eq, Structural)]
pub enum UserType {
    /// Staff
    Staff,
    /// Admin
    Admin,
    /// Global Moderator
    GlobalMod,
    /// None of the special user types; its name is the empty string
    Normal,
}

impl UserType {
    /// The name written for this value in JSON.
    pub open spec fn name(self) -> Seq<char> {
        match self {
            UserType::Staff => "staff"@,
            UserType::Admin => "admin"@,
            UserType::GlobalMod => "global_mod"@,
            UserType::Normal => ""@,
        }
    }

    /// The value a JSON string stands for: any string but the three known
    /// names stands for `Normal`.
    pub open spec fn parse_name(s: Seq<char>) -> UserType {
        if s == "staff"@ {
            UserType::Staff
        } else if s == "admin"@ {
            UserType::Admin
        } else if s == "global_mod"@ {
            UserType::GlobalMod
        } else {
            UserType::Normal
        }
    }

    /// The name written for this value in JSON.
    pub fn as_str(&self) -> (r: &'static str)
        ensures
            r@ == self.name(),
    {
        match self {
            UserType::Staff => "staff",
            UserType::Admin => "admin",
            UserType::GlobalMod => "global_mod",
            UserType::Normal => "",
        }
    }

    /// The value a JSON string stands for.
    pub fn from_name(s: &str) -> (r: UserType)
        ensures
            r == UserType::parse_name(s@),
    {
        if str_eq(s, "staff") {
            UserType::Staff
        } else if str_eq(s, "admin") {
            UserType::Admin
        } else if str_eq(s, "global_mod") {
            UserType::GlobalMod
        } else {
            UserType::Normal
        }
    }
}

/// Reading back the name of a user type gives the same value.
pub proof fn law_user_type_name_round_trip(x: UserType)
    ensures
        UserType::parse_name(x.name()) == x,
{
    reveal_strlit("staff");
    reveal_strlit("admin");
    reveal_strlit("global_mod");
    reveal_strlit("");
    assert("staff"@[0] != "admin"@[0]);
    assert("staff"@.len() != "global_mod"@.len());
    assert("admin"@.len() != "global_mod"@.len());
    assert("staff"@.len() != ""@.len());
    assert("admin"@.len() != ""@.len());
    assert("global_mod"@.len() != ""@.len());
}

/// Length of the commercial in seconds
#[derive(Debug, Clone, Copy, PartialEq, Eq, Structural)]
#[non_exhaustive]
pub enum CommercialLength {
    /// 30s
    Length30,
    /// 60s
    Length60,
    /// 90s
    Length90,
    /// 120s
    Length120,
    /// 150s
    Length150,
    /// 180s
    Length180,
}

/// The commercial length of the given number of seconds, if there is one.
pub open spec fn commercial_length_of(n: u64) -> Option<CommercialLength> {
    if n == 30 {
        Some(CommercialLength::Length30)
    } else if n == 60 {
        Some(CommercialLength::Length60)
    } else if n == 90 {
        Some(CommercialLength::Length90)
    } else if n == 120 {
        Some(CommercialLength::Length120)
    } else if n == 150 {
        Some(CommercialLength::Length150)
    } else if n == 180 {
        Some(CommercialLength::Length180)
    } else {
        None
    }
}

impl CommercialLength {
    /// The length in seconds, which is also its JSON form.
    pub open spec fn seconds(self) -> u64 {
        match self {
            CommercialLength::Length30 => 30,
            CommercialLength::Length60 => 60,
            CommercialLength::Length90 => 90,
            CommercialLength::Length120 => 120,
            CommercialLength::Length150 => 150,
            CommercialLength::Length180 => 180,
        }
    }

    /// The length in seconds, which is also its JSON form.
    pub fn as_u64(&self) -> (r: u64)
        ensures
            r == self.seconds(),
    {
        match self {
            CommercialLength::Length30 => 30,
            CommercialLength::Length60 => 60,
            CommercialLength::Length90 => 90,
            CommercialLength::Length120 => 120,
            CommercialLength::Length150 => 150,
            CommercialLength::Length180 => 180,
        }
    }

    /// The text shown for this length: the seconds followed by `s`.
    pub fn to_string(&self) -> (r: String)
        ensures
            r@ == decimal(self.seconds() as nat) + "s"@,
    {
        let mut r = u64_to_decimal(self.as_u64());
        r.append("s");
        r
    }
}

/// Error for the `TryFrom` on [`CommercialLength`]
#[derive(Debug, Clone, Copy, PartialEq, Eq, Structural)]
pub enum CommercialLengthParseError {
    /// invalid length of {0}
    InvalidLength(u64),
}

impl CommercialLengthParseError {
    /// The message of this error.
    pub fn to_string(&self) -> (r: String)
        ensures
            r@ == "invalid length of "@ + decimal(
                match self {
                    CommercialLengthParseError::InvalidLength(n) => *n as nat,
                },
            ),
    {
        match self {
            CommercialLengthParseError::InvalidLength(n) => {
                let mut r = "invalid length of ".to_owned();
                let digits = u64_to_decimal(*n);
                r.append(digits.as_str());
                r
            },
        }
    }
}

impl TryFrom<u64> for CommercialLength {
    type Error = CommercialLengthParseError;

    fn try_from(l: u64) -> (r: Result<Self, Self::Error>)
        ensures
            r == (match commercial_length_of(l) {
                Some(c) => Ok::<CommercialLength, CommercialLengthParseError>(c),
                None => Err(CommercialLengthParseError::InvalidLength(l)),
            }),
    {
        match l {
            30 => Ok(CommercialLength::Length30),
            60 => Ok(CommercialLength::Length60),
            90 => Ok(CommercialLength::Length90),
            120 => Ok(CommercialLength::Length120),
            150 => Ok(CommercialLength::Length150),
            180 => Ok(CommercialLength::Length180),
            other => Err(CommercialLengthParseError::InvalidLength(other)),
        }
    }
}

impl vstd::std_specs::convert::TryFromSpecImpl<u64> for CommercialLength {
    open spec fn obeys_try_from_spec() -> bool {
        true
    }

    open spec fn try_from_spec(v: u64) -> Result<Self, Self::Error> {
        match commercial_length_of(v) {
            Some(c) => Ok(c),
            None => Err(CommercialLengthParseError::InvalidLength(v)),
        }
    }
}

/// Converting a length to seconds and back gives the same length.
pub proof fn law_commercial_length_round_trip(c: CommercialLength)
    ensures
        commercial_length_of(c.seconds()) == Some(c),
{
}

/// A number of seconds converts to a length exactly when it is one of the
/// six lengths, and then to the length of that many seconds.
pub proof fn law_commercial_length_of_seconds(n: u64)
    ensures
        commercial_length_of(n) matches Some(c) ==> c.seconds() == n,
        commercial_length_of(n) is Some <==> (n == 30 || n == 60 || n == 90 || n == 120 || n
            == 150 || n == 180),
{
}

} // verus!
