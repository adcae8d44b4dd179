//! Configuration of the voice memory system and the views of a speaker's
//! data it offers.
use vstd::prelude::*;
use std::collections::HashMap;
use std::time::SystemTime;
use crate::intelligence::cache::SemanticCacheConfig;
use crate::intelligence::user_model::PreferenceType;
use crate::text::concat3;
use vstd::string::StringExecFns;

verus! {

/// A point in time on the system clock (`std::time::SystemTime`), carried
/// through unread.
#[verifier::external_type_specification]
#[verifier::external_body]
pub struct ExSystemTime(std::time::SystemTime);

/// Builder for configuring a voice memory system.
#[derive(Debug, Clone, Copy)]
pub struct VoiceMemoryBuilder {
    cache_config: SemanticCacheConfig,
    auto_enrollment: bool,
    welcome_messages: bool,
}

impl VoiceMemoryBuilder {
    /// The cache configuration that will be used.
    pub closed spec fn cache_spec(self) -> SemanticCacheConfig {
        self.cache_config
    }

    /// Whether unknown speakers are enrolled automatically.
    pub closed spec fn auto_enrollment_spec(self) -> bool {
        self.auto_enrollment
    }

    /// Whether returning speakers are welcomed.
    pub closed spec fn welcome_messages_spec(self) -> bool {
        self.welcome_messages
    }

    /// Set the cache configuration.
    pub fn cache_config(self, config: SemanticCacheConfig) -> (r: Self)
        ensures
            r.cache_spec() == config,
            r.auto_enrollment_spec() == self.auto_enrollment_spec(),
            r.welcome_messages_spec() == self.welcome_messages_spec(),
    {
        VoiceMemoryBuilder { cache_config: config, ..self }
    }

    /// Enable or disable automatic enrollment.
    pub fn auto_enrollment(self, enabled: bool) -> (r: Self)
        ensures
            r.cache_spec() == self.cache_spec(),
            r.auto_enrollment_spec() == enabled,
            r.welcome_messages_spec() == self.welcome_messages_spec(),
    {
        VoiceMemoryBuilder { auto_enrollment: enabled, ..self }
    }

    /// Enable or disable welcome messages.
    pub fn welcome_messages(self, enabled: bool) -> (r: Self)
        ensures
            r.cache_spec() == self.cache_spec(),
            r.auto_enrollment_spec() == self.auto_enrollment_spec(),
            r.welcome_messages_spec() == enabled,
    {
        VoiceMemoryBuilder { welcome_messages: enabled, ..self }
    }

    /// The cache configuration that will be used.
    pub fn cache_settings(&self) -> (r: SemanticCacheConfig)
        ensures
            r == self.cache_spec(),
    {
        self.cache_config
    }

    /// Whether unknown speakers are enrolled automatically.
    pub fn auto_enrollment_enabled(&self) -> (r: bool)
        ensures
            r == self.auto_enrollment_spec(),
    {
        self.auto_enrollment
    }

    /// Whether returning speakers are welcomed.
    pub fn welcome_messages_enabled(&self) -> (r: bool)
        ensures
            r == self.welcome_messages_spec(),
    {
        self.welcome_messages
    }
}

impl Default for VoiceMemoryBuilder {
    /// The default cache, automatic enrolment and welcome messages.
    fn default() -> (r: Self)
        ensures
            r.cache_spec().max_entries == 1000,
            r.cache_spec().ttl_ms == 3_600_000,
            r.cache_spec().enable_metrics,
            r.auto_enrollment_spec(),
            r.welcome_messages_spec(),
    {
        VoiceMemoryBuilder {
            cache_config: SemanticCacheConfig::default(),
            auto_enrollment: true,
            welcome_messages: true,
        }
    }
}

/// Information about a speaker.
#[derive(Debug, Clone)]
pub struct SpeakerInfo {
    /// Unique speaker identifier.
    pub speaker_id: String,
    /// Display name (if set).
    pub display_name: Option<String>,
    /// Total number of conversations.
    pub total_conversations: u64,
    /// Last interaction timestamp.
    pub last_interaction: Option<SystemTime>,
    /// Number of preferences set.
    pub preferences_count: usize,
}

/// The speaker id used for an interaction without one.
pub const ANONYMOUS_SPEAKER: &'static str = "anonymous";

/// What the voice memory does for an interaction before answering it.
#[derive(Debug)]
pub struct InteractionPlan {
    /// The speaker the interaction is recorded for.
    pub speaker_id: String,
    /// Whether the speaker is enrolled first (a new speaker, with automatic
    /// enrolment on).
    pub enroll: bool,
    /// Whether the speaker is greeted (a known speaker, with welcome
    /// messages on).
    pub welcome: bool,
}

impl VoiceMemoryBuilder {
    /// The plan for an interaction by `speaker_id` (anonymous when absent),
    /// where `known` says whether the speaker has a profile.
    pub fn plan_interaction(&self, speaker_id: Option<&str>, known: bool) -> (r: InteractionPlan)
        ensures
            r.speaker_id@ == match speaker_id {
                Some(s) => s@,
                None => ANONYMOUS_SPEAKER@,
            },
            r.enroll == (!known && self.auto_enrollment_spec()),
            r.welcome == (known && self.welcome_messages_spec()),
    {
        let id = match speaker_id {
            Some(s) => String::from_str(s),
            None => String::from_str(ANONYMOUS_SPEAKER),
        };
        InteractionPlan { speaker_id: id, enroll: !known && self.auto_enrollment, welcome: known && self.welcome_messages }
    }
}

/// The greeting for a speaker who speaks again: "Hello!" for one without
/// a profile; otherwise, by the display name (or the identifier when there
/// is none), a first welcome before any conversation, "Welcome back" for
/// fewer than five, and "Hello again" from then on.
pub open spec fn welcome_spec(speaker_id: Seq<char>, info: Option<SpeakerInfo>) -> Seq<char> {
    match info {
        None => "Hello!"@,
        Some(i) => {
            let name = match i.display_name {
                Some(n) => n@,
                None => speaker_id,
            };
            if i.total_conversations == 0 {
                "Welcome, "@ + name + "! It's great to meet you."@
            } else if i.total_conversations < 5 {
                "Welcome back, "@ + name + "!"@
            } else {
                "Hello again, "@ + name + "! Nice to see you."@
            }
        },
    }
}

/// The greeting for `speaker_id`, whose profile (if any) `info` describes.
pub fn welcome_message(speaker_id: &str, info: Option<&SpeakerInfo>) -> (r: String)
    ensures
        r@ == welcome_spec(speaker_id@, match info {
            Some(i) => Some(*i),
            None => None,
        }),
{
    match info {
        None => String::from_str("Hello!"),
        Some(i) => {
            let name: &str = match &i.display_name {
                Some(n) => n.as_str(),
                None => speaker_id,
            };
            if i.total_conversations == 0 {
                concat3("Welcome, ", name, "! It's great to meet you.")
            } else if i.total_conversations < 5 {
                concat3("Welcome back, ", name, "!")
            } else {
                concat3("Hello again, ", name, "! Nice to see you.")
            }
        },
    }
}

/// Privacy dashboard data for a speaker.
#[derive(Debug, Clone)]
pub struct PrivacyDashboard {
    /// Speaker identifier.
    pub speaker_id: String,
    /// Display name.
    pub display_name: Option<String>,
    /// Total conversations.
    pub total_conversations: u64,
    /// User preferences.
    pub preferences: Vec<PreferenceType>,
    /// Frequently discussed topics, with how often each came up.
    pub frequent_topics: HashMap<String, u32>,
    /// Last interaction timestamp.
    pub last_interaction: Option<SystemTime>,
}

} // verus!
