//! Records that several endpoints share.

use vstd::prelude::*;
use vstd::string::StringExecFns;
use crate::ids::{CategoryId, DisplayName, EmoteId, UserId, UserName};
use crate::text::{i64_to_decimal, signed_decimal};

verus! {

/// An emote index as defined by eventsub, similar to IRC `emotes` twitch tag.
#[derive(PartialEq, Eq, Debug, Clone)]
pub struct ResubscriptionEmote {
    /// The index of where the Emote starts in the text.
    pub begin: i64,
    /// The index of where the Emote ends in the text.
    pub end: i64,
    /// The emote ID.
    pub id: EmoteId,
}

impl ResubscriptionEmote {
    /// The emote index in the IRC tag form `{id}:{begin}-{end}`.
    pub fn to_string(&self) -> (r: String)
        ensures
            r@ == self.id@ + ":"@ + signed_decimal(self.begin as int) + "-"@ + signed_decimal(
                self.end as int,
            ),
    {
        let mut r = self.id.as_str().to_owned();
        r.append(":");
        let begin = i64_to_decimal(self.begin);
        r.append(begin.as_str());
        r.append("-");
        let end = i64_to_decimal(self.end);
        r.append(end.as_str());
        r
    }
}

/// A game or category as defined by Twitch
#[derive(PartialEq, Debug, Clone)]
pub struct TwitchCategory {
    /// Template URL for the game’s box art.
    pub box_art_url: String,
    /// Game or category ID.
    pub id: CategoryId,
    /// Game name.
    pub name: String,
}

/// A user according to many endpoints
#[derive(Clone, Debug, PartialEq, Eq)]
pub struct User {
    /// ID of the user
    pub id: UserId,
    /// Login name of the user, not capitalized
    pub login: UserName,
    /// Display name of user
    pub display_name: DisplayName,
    /// URL of the user's profile
    pub profile_image_url: Option<String>,
}

/// Links to the same image of different sizes
#[derive(Clone, Debug, PartialEq, Eq)]
pub struct Image {
    /// URL to png of size 28x28
    pub url_1x: String,
    /// URL to png of size 56x56
    pub url_2x: String,
    /// URL to png of size 112x112
    pub url_4x: String,
}

/// Information about global cooldown
#[derive(Clone, Debug, PartialEq, Eq)]
pub struct GlobalCooldown {
    /// Cooldown enabled
    pub is_enabled: bool,
    /// Cooldown amount
    pub global_cooldown_seconds: u32,
}

/// Reward redemption max
#[derive(Clone, Debug, PartialEq, Eq)]
#[non_exhaustive]
pub enum Max {
    /// Max per stream
    MaxPerStream {
        /// Max per stream is enabled
        is_enabled: bool,
        /// Max amount of redemptions per stream
        max_per_stream: u32,
    },
    /// Max per user per stream
    MaxPerUserPerStream {
        /// Max per user per stream is enabled
        is_enabled: bool,
        /// Max amount of redemptions per user per stream
        max_per_user_per_stream: u32,
    },
}

/// Poll choice
#[derive(Clone, Debug, PartialEq, Eq)]
pub struct PollChoice {
    /// ID for the choice.
    pub id: String,
    /// Text displayed for the choice.
    pub title: String,
    /// Total number of votes received for the choice across all methods of voting.
    pub votes: Option<i64>,
    /// Number of votes received via Channel Points.
    pub channel_points_votes: Option<i64>,
    /// Number of votes received via Bits.
    pub bits_votes: Option<i64>,
}

/// Outcome for the Prediction
#[derive(PartialEq, Debug, Clone)]
pub struct PredictionOutcome {
    /// ID for the outcome.
    pub id: String,
    /// Text displayed for outcome.
    pub title: String,
    /// Number of unique users that chose the outcome.
    pub users: Option<i64>,
    /// Number of Channel Points used for the outcome.
    pub channel_points: Option<i64>,
    /// Array of users who were the top predictors. null if none. Top 10
    pub top_predictors: Option<Vec<PredictionTopPredictors>>,
    /// Color for the outcome. Valid values: BLUE, PINK
    pub color: String,
}

/// Users who were the top predictors.
#[derive(PartialEq, Debug, Clone)]
pub struct PredictionTopPredictors {
    /// ID of the user.
    pub id: UserId,
    /// Display name of the user.
    pub name: DisplayName,
    /// Login of the user.
    pub login: UserName,
    /// Number of Channel Points used by the user.
    pub channel_points_used: i64,
    /// Number of Channel Points won by the user.
    ///
    /// This value is always null in the event payload for Prediction progress and Prediction lock. This value is 0 if the outcome did not win or if the Prediction was canceled and Channel Points were refunded.
    pub channel_points_won: Option<i64>,
}

} // verus!
