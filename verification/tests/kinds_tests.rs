use std::convert::TryFrom;
use twitch_types::{
    AutomodStatus, BroadcasterType, CommercialLength, CommercialLengthParseError,
    CreatorGoalType, PollStatus, PredictionStatus, SubscriptionTier, UserType, VideoPeriod,
    VideoPrivacy, VideoType,
};

#[test]
fn commercial_length_try_from() {
    assert_eq!(CommercialLength::try_from(30), Ok(CommercialLength::Length30));
    assert_eq!(CommercialLength::try_from(180), Ok(CommercialLength::Length180));
    assert_eq!(
        CommercialLength::try_from(45),
        Err(CommercialLengthParseError::InvalidLength(45))
    );
    assert_eq!(CommercialLength::try_from(0), Err(CommercialLengthParseError::InvalidLength(0)));
}

#[test]
fn commercial_length_round_trip_and_text() {
    for n in [30u64, 60, 90, 120, 150, 180] {
        let c = CommercialLength::try_from(n).unwrap();
        assert_eq!(c.as_u64(), n);
        assert_eq!(c.to_string(), format!("{}s", n));
    }
    assert_eq!(CommercialLength::Length90.to_string(), "90s");
    assert_eq!(
        CommercialLengthParseError::InvalidLength(45).to_string(),
        "invalid length of 45"
    );
    assert_eq!(
        CommercialLengthParseError::InvalidLength(u64::MAX).to_string(),
        "invalid length of 18446744073709551615"
    );
}

#[test]
fn subscription_tier_names() {
    assert_eq!(SubscriptionTier::Tier1.as_str(), "1000");
    assert_eq!(SubscriptionTier::Prime.as_str(), "Prime");
    assert_eq!(SubscriptionTier::Other("4000".to_string()).as_str(), "4000");
    assert_eq!(SubscriptionTier::from_name("2000"), SubscriptionTier::Tier2);
    assert_eq!(SubscriptionTier::from_name("3000"), SubscriptionTier::Tier3);
    assert_eq!(SubscriptionTier::from_name("prime"), SubscriptionTier::Other("prime".to_string()));
    assert_eq!(
        SubscriptionTier::from_name(SubscriptionTier::Other("1000".to_string()).as_str()),
        SubscriptionTier::Tier1
    );
}

#[test]
fn broadcaster_and_user_types() {
    assert_eq!(BroadcasterType::Normal.as_str(), "");
    assert_eq!(BroadcasterType::from_name("partner"), BroadcasterType::Partner);
    assert_eq!(BroadcasterType::from_name("something"), BroadcasterType::Normal);
    assert_eq!(BroadcasterType::from_name(""), BroadcasterType::Normal);
    assert_eq!(UserType::GlobalMod.as_str(), "global_mod");
    assert_eq!(UserType::from_name("admin"), UserType::Admin);
    assert_eq!(UserType::from_name("Admin"), UserType::Normal);
}

#[test]
fn status_names_and_aliases() {
    assert_eq!(PollStatus::Active.as_str(), "ACTIVE");
    assert_eq!(PollStatus::from_name("ACTIVE"), Some(PollStatus::Active));
    assert_eq!(PollStatus::from_name("terminated"), Some(PollStatus::Terminated));
    assert_eq!(PollStatus::from_name("Terminated"), None);
    assert_eq!(PredictionStatus::from_name("locked"), Some(PredictionStatus::Locked));
    assert_eq!(PredictionStatus::Canceled.as_str(), "CANCELED");
    assert_eq!(AutomodStatus::from_name("DENIED"), Some(AutomodStatus::Denied));
    assert_eq!(AutomodStatus::from_name("denied"), None);
    assert_eq!(CreatorGoalType::from_name("follower"), Some(CreatorGoalType::Follower));
}

#[test]
fn video_names() {
    assert_eq!(VideoType::WatchPartyPremiere.as_str(), "watch_party_premiere");
    assert_eq!(VideoType::from_name("watch_party_rerun"), Some(VideoType::WatchPartyRerun));
    assert_eq!(VideoType::from_name("watchparty"), None);
    assert_eq!(VideoPeriod::from_name("week"), Some(VideoPeriod::Week));
    assert_eq!(VideoPeriod::All.as_str(), "all");
    assert_eq!(VideoPrivacy::from_name("private"), Some(VideoPrivacy::Private));
}
