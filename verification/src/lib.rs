//! Shared Twitch API types: typed identifiers, timestamps in the RFC 3339
//! layout, emote URL building and the enumerations that appear across
//! endpoints.

pub mod clock;
pub mod emote;
pub mod ids;
pub mod kinds;
pub mod records;
pub mod text;
pub mod timestamp;
pub mod timestamp_order;

pub use emote::{EmoteAnimationSetting, EmoteScale, EmoteThemeMode, EmoteUrlBuilder};
pub use ids::{
    BadgeSetId, BlockedTermId, CategoryId, ChatBadgeId, CreatorGoalId, DisplayName, EmoteId,
    EmoteSetId, EventSubId, HypeTrainId, MsgId, Nickname, PollChoiceId, PollId, PredictionId,
    PredictionOutcomeId, RedemptionId, RewardId, StreamId, StreamSegmentId, TagId, TeamId,
    UserId, UserName, VideoId,
};
pub use kinds::{
    AutomodStatus, BroadcasterType, CommercialLength, CommercialLengthParseError,
    CreatorGoalType, PollStatus, PredictionStatus, SubscriptionTier, UserType, VideoPeriod,
    VideoPrivacy, VideoType,
};
pub use records::{
    GlobalCooldown, Image, Max, PollChoice, PredictionOutcome, PredictionTopPredictors,
    ResubscriptionEmote, TwitchCategory, User,
};
pub use timestamp::{Timestamp, TimestampParseError};
