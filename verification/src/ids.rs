//! Typed string identifiers: each wraps a `String` and views as its
//! characters, so that identifiers of different kinds cannot be mixed up.

use vstd::prelude::*;

verus! {

/// A username, also specified as login. Should not be capitalized.
pub type UserName = Nickname;

/// A user ID.
#[derive(Clone, Debug, PartialEq, Eq, Hash)]
pub struct UserId(String);

impl View for UserId {
    type V = Seq<char>;

    closed spec fn view(&self) -> Seq<char> {
        self.0@
    }
}

impl UserId {
    /// Constructs a new UserId holding a copy of `s`.
    pub fn new(s: &str) -> (r: Self)
        ensures
            r@ == s@,
    {
        UserId(s.to_owned())
    }

    /// Constructs a new UserId that takes ownership of `s`.
    pub fn from_string(s: String) -> (r: Self)
        ensures
            r@ == s@,
    {
        UserId(s)
    }

    /// Provides access to the underlying value as a string slice.
    pub fn as_str(&self) -> (r: &str)
        ensures
            r@ == self@,
    {
        self.0.as_str()
    }

    /// Unwraps the underlying [`String`] value.
    pub fn into_string(self) -> (r: String)
        ensures
            r@ == self@,
    {
        self.0
    }
}

impl From<String> for UserId {
    fn from(s: String) -> (r: Self)
        ensures
            r@ == s@,
    {
        UserId(s)
    }
}

impl vstd::std_specs::convert::FromSpecImpl<String> for UserId {
    open spec fn obeys_from_spec() -> bool {
        true
    }

    closed spec fn from_spec(v: String) -> Self {
        UserId(v)
    }
}

/// A reward ID.
#[derive(Clone, Debug, PartialEq, Eq, Hash)]
pub struct RewardId(String);

impl View for RewardId {
    type V = Seq<char>;

    closed spec fn view(&self) -> Seq<char> {
        self.0@
    }
}

impl RewardId {
    /// Constructs a new RewardId holding a copy of `s`.
    pub fn new(s: &str) -> (r: Self)
        ensures
            r@ == s@,
    {
        RewardId(s.to_owned())
    }

    /// Constructs a new RewardId that takes ownership of `s`.
    pub fn from_string(s: String) -> (r: Self)
        ensures
            r@ == s@,
    {
        RewardId(s)
    }

    /// Provides access to the underlying value as a string slice.
    pub fn as_str(&self) -> (r: &str)
        ensures
            r@ == self@,
    {
        self.0.as_str()
    }

    /// Unwraps the underlying [`String`] value.
    pub fn into_string(self) -> (r: String)
        ensures
            r@ == self@,
    {
        self.0
    }
}

impl From<String> for RewardId {
    fn from(s: String) -> (r: Self)
        ensures
            r@ == s@,
    {
        RewardId(s)
    }
}

impl vstd::std_specs::convert::FromSpecImpl<String> for RewardId {
    open spec fn obeys_from_spec() -> bool {
        true
    }

    closed spec fn from_spec(v: String) -> Self {
        RewardId(v)
    }
}

/// A reward redemption ID.
#[derive(Clone, Debug, PartialEq, Eq, Hash)]
pub struct RedemptionId(String);

impl View for RedemptionId {
    type V = Seq<char>;

    closed spec fn view(&self) -> Seq<char> {
        self.0@
    }
}

impl RedemptionId {
    /// Constructs a new RedemptionId holding a copy of `s`.
    pub fn new(s: &str) -> (r: Self)
        ensures
            r@ == s@,
    {
        RedemptionId(s.to_owned())
    }

    /// Constructs a new RedemptionId that takes ownership of `s`.
    pub fn from_string(s: String) -> (r: Self)
        ensures
            r@ == s@,
    {
        RedemptionId(s)
    }

    /// Provides access to the underlying value as a string slice.
    pub fn as_str(&self) -> (r: &str)
        ensures
            r@ == self@,
    {
        self.0.as_str()
    }

    /// Unwraps the underlying [`String`] value.
    pub fn into_string(self) -> (r: String)
        ensures
            r@ == self@,
    {
        self.0
    }
}

impl From<String> for RedemptionId {
    fn from(s: String) -> (r: Self)
        ensures
            r@ == s@,
    {
        RedemptionId(s)
    }
}

impl vstd::std_specs::convert::FromSpecImpl<String> for RedemptionId {
    open spec fn obeys_from_spec() -> bool {
        true
    }

    closed spec fn from_spec(v: String) -> Self {
        RedemptionId(v)
    }
}

/// A users display name
#[derive(Clone, Debug, PartialEq, Eq, Hash)]
pub struct DisplayName(String);

impl View for DisplayName {
    type V = Seq<char>;

    closed spec fn view(&self) -> Seq<char> {
        self.0@
    }
}

impl DisplayName {
    /// Constructs a new DisplayName holding a copy of `s`.
    pub fn new(s: &str) -> (r: Self)
        ensures
            r@ == s@,
    {
        DisplayName(s.to_owned())
    }

    /// Constructs a new DisplayName that takes ownership of `s`.
    pub fn from_string(s: String) -> (r: Self)
        ensures
            r@ == s@,
    {
        DisplayName(s)
    }

    /// Provides access to the underlying value as a string slice.
    pub fn as_str(&self) -> (r: &str)
        ensures
            r@ == self@,
    {
        self.0.as_str()
    }

    /// Unwraps the underlying [`String`] value.
    pub fn into_string(self) -> (r: String)
        ensures
            r@ == self@,
    {
        self.0
    }
}

impl From<String> for DisplayName {
    fn from(s: String) -> (r: Self)
        ensures
            r@ == s@,
    {
        DisplayName(s)
    }
}

impl vstd::std_specs::convert::FromSpecImpl<String> for DisplayName {
    open spec fn obeys_from_spec() -> bool {
        true
    }

    closed spec fn from_spec(v: String) -> Self {
        DisplayName(v)
    }
}

/// A nickname, not capitalized.
#[derive(Clone, Debug, PartialEq, Eq, Hash)]
pub struct Nickname(String);

impl View for Nickname {
    type V = Seq<char>;

    closed spec fn view(&self) -> Seq<char> {
        self.0@
    }
}

impl Nickname {
    /// Constructs a new Nickname holding a copy of `s`.
    pub fn new(s: &str) -> (r: Self)
        ensures
            r@ == s@,
    {
        Nickname(s.to_owned())
    }

    /// Constructs a new Nickname that takes ownership of `s`.
    pub fn from_string(s: String) -> (r: Self)
        ensures
            r@ == s@,
    {
        Nickname(s)
    }

    /// Provides access to the underlying value as a string slice.
    pub fn as_str(&self) -> (r: &str)
        ensures
            r@ == self@,
    {
        self.0.as_str()
    }

    /// Unwraps the underlying [`String`] value.
    pub fn into_string(self) -> (r: String)
        ensures
            r@ == self@,
    {
        self.0
    }
}

impl From<String> for Nickname {
    fn from(s: String) -> (r: Self)
        ensures
            r@ == s@,
    {
        Nickname(s)
    }
}

impl vstd::std_specs::convert::FromSpecImpl<String> for Nickname {
    open spec fn obeys_from_spec() -> bool {
        true
    }

    closed spec fn from_spec(v: String) -> Self {
        Nickname(v)
    }
}

/// A blocked term ID
#[derive(Clone, Debug, PartialEq, Eq, Hash)]
pub struct BlockedTermId(String);

impl View for BlockedTermId {
    type V = Seq<char>;

    closed spec fn view(&self) -> Seq<char> {
        self.0@
    }
}

impl BlockedTermId {
    /// Constructs a new BlockedTermId holding a copy of `s`.
    pub fn new(s: &str) -> (r: Self)
        ensures
            r@ == s@,
    {
        BlockedTermId(s.to_owned())
    }

    /// Constructs a new BlockedTermId that takes ownership of `s`.
    pub fn from_string(s: String) -> (r: Self)
        ensures
            r@ == s@,
    {
        BlockedTermId(s)
    }

    /// Provides access to the underlying value as a string slice.
    pub fn as_str(&self) -> (r: &str)
        ensures
            r@ == self@,
    {
        self.0.as_str()
    }

    /// Unwraps the underlying [`String`] value.
    pub fn into_string(self) -> (r: String)
        ensures
            r@ == self@,
    {
        self.0
    }
}

impl From<String> for BlockedTermId {
    fn from(s: String) -> (r: Self)
        ensures
            r@ == s@,
    {
        BlockedTermId(s)
    }
}

impl vstd::std_specs::convert::FromSpecImpl<String> for BlockedTermId {
    open spec fn obeys_from_spec() -> bool {
        true
    }

    closed spec fn from_spec(v: String) -> Self {
        BlockedTermId(v)
    }
}

/// A game or category ID
#[derive(Clone, Debug, PartialEq, Eq, Hash)]
pub struct CategoryId(String);

impl View for CategoryId {
    type V = Seq<char>;

    closed spec fn view(&self) -> Seq<char> {
        self.0@
    }
}

impl CategoryId {
    /// Constructs a new CategoryId holding a copy of `s`.
    pub fn new(s: &str) -> (r: Self)
        ensures
            r@ == s@,
    {
        CategoryId(s.to_owned())
    }

    /// Constructs a new CategoryId that takes ownership of `s`.
    pub fn from_string(s: String) -> (r: Self)
        ensures
            r@ == s@,
    {
        CategoryId(s)
    }

    /// Provides access to the underlying value as a string slice.
    pub fn as_str(&self) -> (r: &str)
        ensures
            r@ == self@,
    {
        self.0.as_str()
    }

    /// Unwraps the underlying [`String`] value.
    pub fn into_string(self) -> (r: String)
        ensures
            r@ == self@,
    {
        self.0
    }
}

impl From<String> for CategoryId {
    fn from(s: String) -> (r: Self)
        ensures
            r@ == s@,
    {
        CategoryId(s)
    }
}

impl vstd::std_specs::convert::FromSpecImpl<String> for CategoryId {
    open spec fn obeys_from_spec() -> bool {
        true
    }

    closed spec fn from_spec(v: String) -> Self {
        CategoryId(v)
    }
}

/// A tag ID
#[derive(Clone, Debug, PartialEq, Eq, Hash)]
pub struct TagId(String);

impl View for TagId {
    type V = Seq<char>;

    closed spec fn view(&self) -> Seq<char> {
        self.0@
    }
}

impl TagId {
    /// Constructs a new TagId holding a copy of `s`.
    pub fn new(s: &str) -> (r: Self)
        ensures
            r@ == s@,
    {
        TagId(s.to_owned())
    }

    /// Constructs a new TagId that takes ownership of `s`.
    pub fn from_string(s: String) -> (r: Self)
        ensures
            r@ == s@,
    {
        TagId(s)
    }

    /// Provides access to the underlying value as a string slice.
    pub fn as_str(&self) -> (r: &str)
        ensures
            r@ == self@,
    {
        self.0.as_str()
    }

    /// Unwraps the underlying [`String`] value.
    pub fn into_string(self) -> (r: String)
        ensures
            r@ == self@,
    {
        self.0
    }
}

impl From<String> for TagId {
    fn from(s: String) -> (r: Self)
        ensures
            r@ == s@,
    {
        TagId(s)
    }
}

impl vstd::std_specs::convert::FromSpecImpl<String> for TagId {
    open spec fn obeys_from_spec() -> bool {
        true
    }

    closed spec fn from_spec(v: String) -> Self {
        TagId(v)
    }
}

/// A video ID
#[derive(Clone, Debug, PartialEq, Eq, Hash)]
pub struct VideoId(String);

impl View for VideoId {
    type V = Seq<char>;

    closed spec fn view(&self) -> Seq<char> {
        self.0@
    }
}

impl VideoId {
    /// Constructs a new VideoId holding a copy of `s`.
    pub fn new(s: &str) -> (r: Self)
        ensures
            r@ == s@,
    {
        VideoId(s.to_owned())
    }

    /// Constructs a new VideoId that takes ownership of `s`.
    pub fn from_string(s: String) -> (r: Self)
        ensures
            r@ == s@,
    {
        VideoId(s)
    }

    /// Provides access to the underlying value as a string slice.
    pub fn as_str(&self) -> (r: &str)
        ensures
            r@ == self@,
    {
        self.0.as_str()
    }

    /// Unwraps the underlying [`String`] value.
    pub fn into_string(self) -> (r: String)
        ensures
            r@ == self@,
    {
        self.0
    }
}

impl From<String> for VideoId {
    fn from(s: String) -> (r: Self)
        ensures
            r@ == s@,
    {
        VideoId(s)
    }
}

impl vstd::std_specs::convert::FromSpecImpl<String> for VideoId {
    open spec fn obeys_from_spec() -> bool {
        true
    }

    closed spec fn from_spec(v: String) -> Self {
        VideoId(v)
    }
}

/// An EventSub Subscription ID
#[derive(Clone, Debug, PartialEq, Eq, Hash)]
pub struct EventSubId(String);

impl View for EventSubId {
    type V = Seq<char>;

    closed spec fn view(&self) -> Seq<char> {
        self.0@
    }
}

impl EventSubId {
    /// Constructs a new EventSubId holding a copy of `s`.
    pub fn new(s: &str) -> (r: Self)
        ensures
            r@ == s@,
    {
        EventSubId(s.to_owned())
    }

    /// Constructs a new EventSubId that takes ownership of `s`.
    pub fn from_string(s: String) -> (r: Self)
        ensures
            r@ == s@,
    {
        EventSubId(s)
    }

    /// Provides access to the underlying value as a string slice.
    pub fn as_str(&self) -> (r: &str)
        ensures
            r@ == self@,
    {
        self.0.as_str()
    }

    /// Unwraps the underlying [`String`] value.
    pub fn into_string(self) -> (r: String)
        ensures
            r@ == self@,
    {
        self.0
    }
}

impl From<String> for EventSubId {
    fn from(s: String) -> (r: Self)
        ensures
            r@ == s@,
    {
        EventSubId(s)
    }
}

impl vstd::std_specs::convert::FromSpecImpl<String> for EventSubId {
    open spec fn obeys_from_spec() -> bool {
        true
    }

    closed spec fn from_spec(v: String) -> Self {
        EventSubId(v)
    }
}

/// A Team ID
#[derive(Clone, Debug, PartialEq, Eq, Hash)]
pub struct TeamId(String);

impl View for TeamId {
    type V = Seq<char>;

    closed spec fn view(&self) -> Seq<char> {
        self.0@
    }
}

impl TeamId {
    /// Constructs a new TeamId holding a copy of `s`.
    pub fn new(s: &str) -> (r: Self)
        ensures
            r@ == s@,
    {
        TeamId(s.to_owned())
    }

    /// Constructs a new TeamId that takes ownership of `s`.
    pub fn from_string(s: String) -> (r: Self)
        ensures
            r@ == s@,
    {
        TeamId(s)
    }

    /// Provides access to the underlying value as a string slice.
    pub fn as_str(&self) -> (r: &str)
        ensures
            r@ == self@,
    {
        self.0.as_str()
    }

    /// Unwraps the underlying [`String`] value.
    pub fn into_string(self) -> (r: String)
        ensures
            r@ == self@,
    {
        self.0
    }
}

impl From<String> for TeamId {
    fn from(s: String) -> (r: Self)
        ensures
            r@ == s@,
    {
        TeamId(s)
    }
}

impl vstd::std_specs::convert::FromSpecImpl<String> for TeamId {
    open spec fn obeys_from_spec() -> bool {
        true
    }

    closed spec fn from_spec(v: String) -> Self {
        TeamId(v)
    }
}

/// A Stream ID
#[derive(Clone, Debug, PartialEq, Eq, Hash)]
pub struct StreamId(String);

impl View for StreamId {
    type V = Seq<char>;

    closed spec fn view(&self) -> Seq<char> {
        self.0@
    }
}

impl StreamId {
    /// Constructs a new StreamId holding a copy of `s`.
    pub fn new(s: &str) -> (r: Self)
        ensures
            r@ == s@,
    {
        StreamId(s.to_owned())
    }

    /// Constructs a new StreamId that takes ownership of `s`.
    pub fn from_string(s: String) -> (r: Self)
        ensures
            r@ == s@,
    {
        StreamId(s)
    }

    /// Provides access to the underlying value as a string slice.
    pub fn as_str(&self) -> (r: &str)
        ensures
            r@ == self@,
    {
        self.0.as_str()
    }

    /// Unwraps the underlying [`String`] value.
    pub fn into_string(self) -> (r: String)
        ensures
            r@ == self@,
    {
        self.0
    }
}

impl From<String> for StreamId {
    fn from(s: String) -> (r: Self)
        ensures
            r@ == s@,
    {
        StreamId(s)
    }
}

impl vstd::std_specs::convert::FromSpecImpl<String> for StreamId {
    open spec fn obeys_from_spec() -> bool {
        true
    }

    closed spec fn from_spec(v: String) -> Self {
        StreamId(v)
    }
}

/// A message ID
#[derive(Clone, Debug, PartialEq, Eq, Hash)]
pub struct MsgId(String);

impl View for MsgId {
    type V = Seq<char>;

    closed spec fn view(&self) -> Seq<char> {
        self.0@
    }
}

impl MsgId {
    /// Constructs a new MsgId holding a copy of `s`.
    pub fn new(s: &str) -> (r: Self)
        ensures
            r@ == s@,
    {
        MsgId(s.to_owned())
    }

    /// Constructs a new MsgId that takes ownership of `s`.
    pub fn from_string(s: String) -> (r: Self)
        ensures
            r@ == s@,
    {
        MsgId(s)
    }

    /// Provides access to the underlying value as a string slice.
    pub fn as_str(&self) -> (r: &str)
        ensures
            r@ == self@,
    {
        self.0.as_str()
    }

    /// Unwraps the underlying [`String`] value.
    pub fn into_string(self) -> (r: String)
        ensures
            r@ == self@,
    {
        self.0
    }
}

impl From<String> for MsgId {
    fn from(s: String) -> (r: Self)
        ensures
            r@ == s@,
    {
        MsgId(s)
    }
}

impl vstd::std_specs::convert::FromSpecImpl<String> for MsgId {
    open spec fn obeys_from_spec() -> bool {
        true
    }

    closed spec fn from_spec(v: String) -> Self {
        MsgId(v)
    }
}

/// A poll ID
#[derive(Clone, Debug, PartialEq, Eq, Hash)]
pub struct PollId(String);

impl View for PollId {
    type V = Seq<char>;

    closed spec fn view(&self) -> Seq<char> {
        self.0@
    }
}

impl PollId {
    /// Constructs a new PollId holding a copy of `s`.
    pub fn new(s: &str) -> (r: Self)
        ensures
            r@ == s@,
    {
        PollId(s.to_owned())
    }

    /// Constructs a new PollId that takes ownership of `s`.
    pub fn from_string(s: String) -> (r: Self)
        ensures
            r@ == s@,
    {
        PollId(s)
    }

    /// Provides access to the underlying value as a string slice.
    pub fn as_str(&self) -> (r: &str)
        ensures
            r@ == self@,
    {
        self.0.as_str()
    }

    /// Unwraps the underlying [`String`] value.
    pub fn into_string(self) -> (r: String)
        ensures
            r@ == self@,
    {
        self.0
    }
}

impl From<String> for PollId {
    fn from(s: String) -> (r: Self)
        ensures
            r@ == s@,
    {
        PollId(s)
    }
}

impl vstd::std_specs::convert::FromSpecImpl<String> for PollId {
    open spec fn obeys_from_spec() -> bool {
        true
    }

    closed spec fn from_spec(v: String) -> Self {
        PollId(v)
    }
}

/// A poll choice ID
#[derive(Clone, Debug, PartialEq, Eq, Hash)]
pub struct PollChoiceId(String);

impl View for PollChoiceId {
    type V = Seq<char>;

    closed spec fn view(&self) -> Seq<char> {
        self.0@
    }
}

impl PollChoiceId {
    /// Constructs a new PollChoiceId holding a copy of `s`.
    pub fn new(s: &str) -> (r: Self)
        ensures
            r@ == s@,
    {
        PollChoiceId(s.to_owned())
    }

    /// Constructs a new PollChoiceId that takes ownership of `s`.
    pub fn from_string(s: String) -> (r: Self)
        ensures
            r@ == s@,
    {
        PollChoiceId(s)
    }

    /// Provides access to the underlying value as a string slice.
    pub fn as_str(&self) -> (r: &str)
        ensures
            r@ == self@,
    {
        self.0.as_str()
    }

    /// Unwraps the underlying [`String`] value.
    pub fn into_string(self) -> (r: String)
        ensures
            r@ == self@,
    {
        self.0
    }
}

impl From<String> for PollChoiceId {
    fn from(s: String) -> (r: Self)
        ensures
            r@ == s@,
    {
        PollChoiceId(s)
    }
}

impl vstd::std_specs::convert::FromSpecImpl<String> for PollChoiceId {
    open spec fn obeys_from_spec() -> bool {
        true
    }

    closed spec fn from_spec(v: String) -> Self {
        PollChoiceId(v)
    }
}

/// A prediction ID
#[derive(Clone, Debug, PartialEq, Eq, Hash)]
pub struct PredictionId(String);

impl View for PredictionId {
    type V = Seq<char>;

    closed spec fn view(&self) -> Seq<char> {
        self.0@
    }
}

impl PredictionId {
    /// Constructs a new PredictionId holding a copy of `s`.
    pub fn new(s: &str) -> (r: Self)
        ensures
            r@ == s@,
    {
        PredictionId(s.to_owned())
    }

    /// Constructs a new PredictionId that takes ownership of `s`.
    pub fn from_string(s: String) -> (r: Self)
        ensures
            r@ == s@,
    {
        PredictionId(s)
    }

    /// Provides access to the underlying value as a string slice.
    pub fn as_str(&self) -> (r: &str)
        ensures
            r@ == self@,
    {
        self.0.as_str()
    }

    /// Unwraps the underlying [`String`] value.
    pub fn into_string(self) -> (r: String)
        ensures
            r@ == self@,
    {
        self.0
    }
}

impl From<String> for PredictionId {
    fn from(s: String) -> (r: Self)
        ensures
            r@ == s@,
    {
        PredictionId(s)
    }
}

impl vstd::std_specs::convert::FromSpecImpl<String> for PredictionId {
    open spec fn obeys_from_spec() -> bool {
        true
    }

    closed spec fn from_spec(v: String) -> Self {
        PredictionId(v)
    }
}

/// A prediction choice ID
#[derive(Clone, Debug, PartialEq, Eq, Hash)]
pub struct PredictionOutcomeId(String);

impl View for PredictionOutcomeId {
    type V = Seq<char>;

    closed spec fn view(&self) -> Seq<char> {
        self.0@
    }
}

impl PredictionOutcomeId {
    /// Constructs a new PredictionOutcomeId holding a copy of `s`.
    pub fn new(s: &str) -> (r: Self)
        ensures
            r@ == s@,
    {
        PredictionOutcomeId(s.to_owned())
    }

    /// Constructs a new PredictionOutcomeId that takes ownership of `s`.
    pub fn from_string(s: String) -> (r: Self)
        ensures
            r@ == s@,
    {
        PredictionOutcomeId(s)
    }

    /// Provides access to the underlying value as a string slice.
    pub fn as_str(&self) -> (r: &str)
        ensures
            r@ == self@,
    {
        self.0.as_str()
    }

    /// Unwraps the underlying [`String`] value.
    pub fn into_string(self) -> (r: String)
        ensures
            r@ == self@,
    {
        self.0
    }
}

impl From<String> for PredictionOutcomeId {
    fn from(s: String) -> (r: Self)
        ensures
            r@ == s@,
    {
        PredictionOutcomeId(s)
    }
}

impl vstd::std_specs::convert::FromSpecImpl<String> for PredictionOutcomeId {
    open spec fn obeys_from_spec() -> bool {
        true
    }

    closed spec fn from_spec(v: String) -> Self {
        PredictionOutcomeId(v)
    }
}

/// A Badge set ID
#[derive(Clone, Debug, PartialEq, Eq, Hash)]
pub struct BadgeSetId(String);

impl View for BadgeSetId {
    type V = Seq<char>;

    closed spec fn view(&self) -> Seq<char> {
        self.0@
    }
}

impl BadgeSetId {
    /// Constructs a new BadgeSetId holding a copy of `s`.
    pub fn new(s: &str) -> (r: Self)
        ensures
            r@ == s@,
    {
        BadgeSetId(s.to_owned())
    }

    /// Constructs a new BadgeSetId that takes ownership of `s`.
    pub fn from_string(s: String) -> (r: Self)
        ensures
            r@ == s@,
    {
        BadgeSetId(s)
    }

    /// Provides access to the underlying value as a string slice.
    pub fn as_str(&self) -> (r: &str)
        ensures
            r@ == self@,
    {
        self.0.as_str()
    }

    /// Unwraps the underlying [`String`] value.
    pub fn into_string(self) -> (r: String)
        ensures
            r@ == self@,
    {
        self.0
    }
}

impl From<String> for BadgeSetId {
    fn from(s: String) -> (r: Self)
        ensures
            r@ == s@,
    {
        BadgeSetId(s)
    }
}

impl vstd::std_specs::convert::FromSpecImpl<String> for BadgeSetId {
    open spec fn obeys_from_spec() -> bool {
        true
    }

    closed spec fn from_spec(v: String) -> Self {
        BadgeSetId(v)
    }
}

/// A channel chat badge ID
#[derive(Clone, Debug, PartialEq, Eq, Hash)]
pub struct ChatBadgeId(String);

impl View for ChatBadgeId {
    type V = Seq<char>;

    closed spec fn view(&self) -> Seq<char> {
        self.0@
    }
}

impl ChatBadgeId {
    /// Constructs a new ChatBadgeId holding a copy of `s`.
    pub fn new(s: &str) -> (r: Self)
        ensures
            r@ == s@,
    {
        ChatBadgeId(s.to_owned())
    }

    /// Constructs a new ChatBadgeId that takes ownership of `s`.
    pub fn from_string(s: String) -> (r: Self)
        ensures
            r@ == s@,
    {
        ChatBadgeId(s)
    }

    /// Provides access to the underlying value as a string slice.
    pub fn as_str(&self) -> (r: &str)
        ensures
            r@ == self@,
    {
        self.0.as_str()
    }

    /// Unwraps the underlying [`String`] value.
    pub fn into_string(self) -> (r: String)
        ensures
            r@ == self@,
    {
        self.0
    }
}

impl From<String> for ChatBadgeId {
    fn from(s: String) -> (r: Self)
        ensures
            r@ == s@,
    {
        ChatBadgeId(s)
    }
}

impl vstd::std_specs::convert::FromSpecImpl<String> for ChatBadgeId {
    open spec fn obeys_from_spec() -> bool {
        true
    }

    closed spec fn from_spec(v: String) -> Self {
        ChatBadgeId(v)
    }
}

/// A chat Emote ID
#[derive(Clone, Debug, PartialEq, Eq, Hash)]
pub struct EmoteId(String);

impl View for EmoteId {
    type V = Seq<char>;

    closed spec fn view(&self) -> Seq<char> {
        self.0@
    }
}

impl EmoteId {
    /// Constructs a new EmoteId holding a copy of `s`.
    pub fn new(s: &str) -> (r: Self)
        ensures
            r@ == s@,
    {
        EmoteId(s.to_owned())
    }

    /// Constructs a new EmoteId that takes ownership of `s`.
    pub fn from_string(s: String) -> (r: Self)
        ensures
            r@ == s@,
    {
        EmoteId(s)
    }

    /// Provides access to the underlying value as a string slice.
    pub fn as_str(&self) -> (r: &str)
        ensures
            r@ == self@,
    {
        self.0.as_str()
    }

    /// Unwraps the underlying [`String`] value.
    pub fn into_string(self) -> (r: String)
        ensures
            r@ == self@,
    {
        self.0
    }
}

impl From<String> for EmoteId {
    fn from(s: String) -> (r: Self)
        ensures
            r@ == s@,
    {
        EmoteId(s)
    }
}

impl vstd::std_specs::convert::FromSpecImpl<String> for EmoteId {
    open spec fn obeys_from_spec() -> bool {
        true
    }

    closed spec fn from_spec(v: String) -> Self {
        EmoteId(v)
    }
}

/// An Emote Set ID
#[derive(Clone, Debug, PartialEq, Eq, Hash)]
pub struct EmoteSetId(String);

impl View for EmoteSetId {
    type V = Seq<char>;

    closed spec fn view(&self) -> Seq<char> {
        self.0@
    }
}

impl EmoteSetId {
    /// Constructs a new EmoteSetId holding a copy of `s`.
    pub fn new(s: &str) -> (r: Self)
        ensures
            r@ == s@,
    {
        EmoteSetId(s.to_owned())
    }

    /// Constructs a new EmoteSetId that takes ownership of `s`.
    pub fn from_string(s: String) -> (r: Self)
        ensures
            r@ == s@,
    {
        EmoteSetId(s)
    }

    /// Provides access to the underlying value as a string slice.
    pub fn as_str(&self) -> (r: &str)
        ensures
            r@ == self@,
    {
        self.0.as_str()
    }

    /// Unwraps the underlying [`String`] value.
    pub fn into_string(self) -> (r: String)
        ensures
            r@ == self@,
    {
        self.0
    }
}

impl From<String> for EmoteSetId {
    fn from(s: String) -> (r: Self)
        ensures
            r@ == s@,
    {
        EmoteSetId(s)
    }
}

impl vstd::std_specs::convert::FromSpecImpl<String> for EmoteSetId {
    open spec fn obeys_from_spec() -> bool {
        true
    }

    closed spec fn from_spec(v: String) -> Self {
        EmoteSetId(v)
    }
}

/// A Stream Segment ID.
#[derive(Clone, Debug, PartialEq, Eq, Hash)]
pub struct StreamSegmentId(String);

impl View for StreamSegmentId {
    type V = Seq<char>;

    closed spec fn view(&self) -> Seq<char> {
        self.0@
    }
}

impl StreamSegmentId {
    /// Constructs a new StreamSegmentId holding a copy of `s`.
    pub fn new(s: &str) -> (r: Self)
        ensures
            r@ == s@,
    {
        StreamSegmentId(s.to_owned())
    }

    /// Constructs a new StreamSegmentId that takes ownership of `s`.
    pub fn from_string(s: String) -> (r: Self)
        ensures
            r@ == s@,
    {
        StreamSegmentId(s)
    }

    /// Provides access to the underlying value as a string slice.
    pub fn as_str(&self) -> (r: &str)
        ensures
            r@ == self@,
    {
        self.0.as_str()
    }

    /// Unwraps the underlying [`String`] value.
    pub fn into_string(self) -> (r: String)
        ensures
            r@ == self@,
    {
        self.0
    }
}

impl From<String> for StreamSegmentId {
    fn from(s: String) -> (r: Self)
        ensures
            r@ == s@,
    {
        StreamSegmentId(s)
    }
}

impl vstd::std_specs::convert::FromSpecImpl<String> for StreamSegmentId {
    open spec fn obeys_from_spec() -> bool {
        true
    }

    closed spec fn from_spec(v: String) -> Self {
        StreamSegmentId(v)
    }
}

/// A Hype Train ID
#[derive(Clone, Debug, PartialEq, Eq, Hash)]
pub struct HypeTrainId(String);

impl View for HypeTrainId {
    type V = Seq<char>;

    closed spec fn view(&self) -> Seq<char> {
        self.0@
    }
}

impl HypeTrainId {
    /// Constructs a new HypeTrainId holding a copy of `s`.
    pub fn new(s: &str) -> (r: Self)
        ensures
            r@ == s@,
    {
        HypeTrainId(s.to_owned())
    }

    /// Constructs a new HypeTrainId that takes ownership of `s`.
    pub fn from_string(s: String) -> (r: Self)
        ensures
            r@ == s@,
    {
        HypeTrainId(s)
    }

    /// Provides access to the underlying value as a string slice.
    pub fn as_str(&self) -> (r: &str)
        ensures
            r@ == self@,
    {
        self.0.as_str()
    }

    /// Unwraps the underlying [`String`] value.
    pub fn into_string(self) -> (r: String)
        ensures
            r@ == self@,
    {
        self.0
    }
}

impl From<String> for HypeTrainId {
    fn from(s: String) -> (r: Self)
        ensures
            r@ == s@,
    {
        HypeTrainId(s)
    }
}

impl vstd::std_specs::convert::FromSpecImpl<String> for HypeTrainId {
    open spec fn obeys_from_spec() -> bool {
        true
    }

    closed spec fn from_spec(v: String) -> Self {
        HypeTrainId(v)
    }
}

/// A Creator Goal ID
#[derive(Clone, Debug, PartialEq, Eq, Hash)]
pub struct CreatorGoalId(String);

impl View for CreatorGoalId {
    type V = Seq<char>;

    closed spec fn view(&self) -> Seq<char> {
        self.0@
    }
}

impl CreatorGoalId {
    /// Constructs a new CreatorGoalId holding a copy of `s`.
    pub fn new(s: &str) -> (r: Self)
        ensures
            r@ == s@,
    {
        CreatorGoalId(s.to_owned())
    }

    /// Constructs a new CreatorGoalId that takes ownership of `s`.
    pub fn from_string(s: String) -> (r: Self)
        ensures
            r@ == s@,
    {
        CreatorGoalId(s)
    }

    /// Provides access to the underlying value as a string slice.
    pub fn as_str(&self) -> (r: &str)
        ensures
            r@ == self@,
    {
        self.0.as_str()
    }

    /// Unwraps the underlying [`String`] value.
    pub fn into_string(self) -> (r: String)
        ensures
            r@ == self@,
    {
        self.0
    }
}

impl From<String> for CreatorGoalId {
    fn from(s: String) -> (r: Self)
        ensures
            r@ == s@,
    {
        CreatorGoalId(s)
    }
}

impl vstd::std_specs::convert::FromSpecImpl<String> for CreatorGoalId {
    open spec fn obeys_from_spec() -> bool {
        true
    }

    closed spec fn from_spec(v: String) -> Self {
        CreatorGoalId(v)
    }
}

} // verus!
