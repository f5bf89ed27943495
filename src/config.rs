//! Runtime configuration of the cache: which event categories it processes
//! and how many messages it keeps per channel.
use vstd::prelude::*;

verus! {

/// Mask with every defined category bit set.
pub const ALL_EVENT_BITS: u64 = 0x1_ffff_ffff;

/// A category of gateway events, each owning one bit of an [`EventTypeSet`].
#[allow(non_camel_case_types)]
#[derive(Clone, Copy, Debug, PartialEq, Eq, Structural, Hash)]
pub enum EventType {
    BAN_ADD,
    BAN_REMOVE,
    CHANNEL_CREATE,
    CHANNEL_DELETE,
    CHANNEL_UPDATE,
    GUILD_CREATE,
    GUILD_DELETE,
    GUILD_EMOJIS_UPDATE,
    GUILD_INTEGRATIONS_UPDATE,
    GUILD_UPDATE,
    MEMBER_ADD,
    MEMBER_CHUNK,
    MEMBER_REMOVE,
    MEMBER_UPDATE,
    MESSAGE_CREATE,
    MESSAGE_DELETE,
    MESSAGE_DELETE_BULK,
    MESSAGE_UPDATE,
    PRESENCE_UPDATE,
    REACTION_ADD,
    REACTION_REMOVE,
    REACTION_REMOVE_ALL,
    READY,
    ROLE_CREATE,
    ROLE_DELETE,
    ROLE_UPDATE,
    TYPING_START,
    UNAVAILABLE_GUILD,
    UPDATE_VOICE_STATE,
    USER_UPDATE,
    VOICE_SERVER_UPDATE,
    VOICE_STATE_UPDATE,
    WEBHOOK_UPDATE,
}

impl EventType {
    /// The bit that this category owns.
    pub open spec fn spec_bits(&self) -> u64 {
        match self {
            EventType::BAN_ADD => 0x1,
            EventType::BAN_REMOVE => 0x2,
            EventType::CHANNEL_CREATE => 0x4,
            EventType::CHANNEL_DELETE => 0x8,
            EventType::CHANNEL_UPDATE => 0x10,
            EventType::GUILD_CREATE => 0x20,
            EventType::GUILD_DELETE => 0x40,
            EventType::GUILD_EMOJIS_UPDATE => 0x80,
            EventType::GUILD_INTEGRATIONS_UPDATE => 0x100,
            EventType::GUILD_UPDATE => 0x200,
            EventType::MEMBER_ADD => 0x400,
            EventType::MEMBER_CHUNK => 0x800,
            EventType::MEMBER_REMOVE => 0x1000,
            EventType::MEMBER_UPDATE => 0x2000,
            EventType::MESSAGE_CREATE => 0x4000,
            EventType::MESSAGE_DELETE => 0x8000,
            EventType::MESSAGE_DELETE_BULK => 0x10000,
            EventType::MESSAGE_UPDATE => 0x20000,
            EventType::PRESENCE_UPDATE => 0x40000,
            EventType::REACTION_ADD => 0x80000,
            EventType::REACTION_REMOVE => 0x100000,
            EventType::REACTION_REMOVE_ALL => 0x200000,
            EventType::READY => 0x400000,
            EventType::ROLE_CREATE => 0x800000,
            EventType::ROLE_DELETE => 0x1000000,
            EventType::ROLE_UPDATE => 0x2000000,
            EventType::TYPING_START => 0x4000000,
            EventType::UNAVAILABLE_GUILD => 0x8000000,
            EventType::UPDATE_VOICE_STATE => 0x10000000,
            EventType::USER_UPDATE => 0x20000000,
            EventType::VOICE_SERVER_UPDATE => 0x40000000,
            EventType::VOICE_STATE_UPDATE => 0x80000000,
            EventType::WEBHOOK_UPDATE => 0x100000000,
        }
    }

    /// Returns the bit that this category owns.
    pub fn bits(&self) -> (r: u64)
        ensures
            r == self.spec_bits(),
    {
        match self {
            EventType::BAN_ADD => 0x1,
            EventType::BAN_REMOVE => 0x2,
            EventType::CHANNEL_CREATE => 0x4,
            EventType::CHANNEL_DELETE => 0x8,
            EventType::CHANNEL_UPDATE => 0x10,
            EventType::GUILD_CREATE => 0x20,
            EventType::GUILD_DELETE => 0x40,
            EventType::GUILD_EMOJIS_UPDATE => 0x80,
            EventType::GUILD_INTEGRATIONS_UPDATE => 0x100,
            EventType::GUILD_UPDATE => 0x200,
            EventType::MEMBER_ADD => 0x400,
            EventType::MEMBER_CHUNK => 0x800,
            EventType::MEMBER_REMOVE => 0x1000,
            EventType::MEMBER_UPDATE => 0x2000,
            EventType::MESSAGE_CREATE => 0x4000,
            EventType::MESSAGE_DELETE => 0x8000,
            EventType::MESSAGE_DELETE_BULK => 0x10000,
            EventType::MESSAGE_UPDATE => 0x20000,
            EventType::PRESENCE_UPDATE => 0x40000,
            EventType::REACTION_ADD => 0x80000,
            EventType::REACTION_REMOVE => 0x100000,
            EventType::REACTION_REMOVE_ALL => 0x200000,
            EventType::READY => 0x400000,
            EventType::ROLE_CREATE => 0x800000,
            EventType::ROLE_DELETE => 0x1000000,
            EventType::ROLE_UPDATE => 0x2000000,
            EventType::TYPING_START => 0x4000000,
            EventType::UNAVAILABLE_GUILD => 0x8000000,
            EventType::UPDATE_VOICE_STATE => 0x10000000,
            EventType::USER_UPDATE => 0x20000000,
            EventType::VOICE_SERVER_UPDATE => 0x40000000,
            EventType::VOICE_STATE_UPDATE => 0x80000000,
            EventType::WEBHOOK_UPDATE => 0x100000000,
        }
    }

    /// The set holding every category.
    pub fn all() -> (r: EventTypeSet)
        ensures
            r.spec_bits() == ALL_EVENT_BITS,
    {
        EventTypeSet { bits: ALL_EVENT_BITS }
    }

    /// The set holding no category.
    pub fn empty() -> (r: EventTypeSet)
        ensures
            r.spec_bits() == 0,
    {
        EventTypeSet { bits: 0 }
    }
}

/// A set of event categories, one bit per category.
#[derive(Clone, Copy, Debug, PartialEq, Eq, Structural, Hash)]
pub struct EventTypeSet {
    bits: u64,
}

impl EventTypeSet {
    /// The raw bit set.
    pub closed spec fn spec_bits(&self) -> u64 {
        self.bits
    }

    /// Returns the raw bit set.
    pub fn bits(&self) -> (r: u64)
        ensures
            r == self.spec_bits(),
    {
        self.bits
    }

    /// Builds a set from raw bits, dropping bits that name no category.
    pub fn from_bits_truncate(bits: u64) -> (r: EventTypeSet)
        ensures
            r.spec_bits() == bits & ALL_EVENT_BITS,
    {
        EventTypeSet { bits: bits & ALL_EVENT_BITS }
    }

    /// Whether the category `t` is in the set.
    pub open spec fn spec_contains(&self, t: EventType) -> bool {
        self.spec_bits() & t.spec_bits() == t.spec_bits()
    }

    /// Returns whether the category `t` is in the set.
    pub fn contains(&self, t: EventType) -> (r: bool)
        ensures
            r == self.spec_contains(t),
    {
        self.bits & t.bits() == t.bits()
    }

    /// Adds the category `t`.
    pub fn insert(&mut self, t: EventType)
        ensures
            final(self).spec_bits() == old(self).spec_bits() | t.spec_bits(),
    {
        self.bits = self.bits | t.bits();
    }

    /// Removes the category `t`.
    pub fn remove(&mut self, t: EventType)
        ensures
            final(self).spec_bits() == old(self).spec_bits() & !t.spec_bits(),
    {
        self.bits = self.bits & !t.bits();
    }
}

/// Default number of messages kept per channel.
pub const DEFAULT_MESSAGE_CACHE_SIZE: usize = 100;

/// Configuration of an in-memory cache.
#[derive(Clone, Copy, Debug)]
pub struct Config {
    /// Categories of events that change the cache.
    pub event_types: EventTypeSet,
    /// Largest number of messages kept per channel.
    pub message_cache_size: usize,
}

impl Config {
    /// Creates a builder that starts from the default configuration.
    pub fn builder() -> (r: ConfigBuilder)
        ensures
            r.0.event_types.spec_bits() == ALL_EVENT_BITS,
            r.0.message_cache_size == DEFAULT_MESSAGE_CACHE_SIZE,
    {
        ConfigBuilder::new()
    }

    /// Returns the categories of events that are processed.
    pub fn event_types(&self) -> (r: EventTypeSet)
        ensures
            r == self.event_types,
    {
        self.event_types
    }

    /// Returns a mutable reference to the categories of events that are processed.
    pub fn event_types_mut(&mut self) -> (r: &mut EventTypeSet)
        ensures
            *r == old(self).event_types,
            *final(self) == (Config { event_types: *final(r), ..*old(self) }),
    {
        &mut self.event_types
    }

    /// Returns the number of messages kept per channel.
    pub fn message_cache_size(&self) -> (r: usize)
        ensures
            r == self.message_cache_size,
    {
        self.message_cache_size
    }

    /// Returns a mutable reference to the number of messages kept per channel.
    pub fn message_cache_size_mut(&mut self) -> (r: &mut usize)
        ensures
            *r == old(self).message_cache_size,
            *final(self) == (Config { message_cache_size: *final(r), ..*old(self) }),
    {
        &mut self.message_cache_size
    }
}

impl Default for Config {
    /// Every category enabled, a hundred messages per channel.
    fn default() -> (r: Config)
        ensures
            r.event_types.spec_bits() == ALL_EVENT_BITS,
            r.message_cache_size == DEFAULT_MESSAGE_CACHE_SIZE,
    {
        Config { event_types: EventType::all(), message_cache_size: DEFAULT_MESSAGE_CACHE_SIZE }
    }
}

/// Builder of a [`Config`].
#[derive(Clone, Copy, Debug)]
pub struct ConfigBuilder(pub Config);

impl Default for ConfigBuilder {
    /// A builder holding the default configuration.
    fn default() -> (r: ConfigBuilder)
        ensures
            r.0.event_types.spec_bits() == ALL_EVENT_BITS,
            r.0.message_cache_size == DEFAULT_MESSAGE_CACHE_SIZE,
    {
        ConfigBuilder(Config::default())
    }
}

impl ConfigBuilder {
    /// Creates a builder holding the default configuration.
    pub fn new() -> (r: ConfigBuilder)
        ensures
            r.0.event_types.spec_bits() == ALL_EVENT_BITS,
            r.0.message_cache_size == DEFAULT_MESSAGE_CACHE_SIZE,
    {
        ConfigBuilder::default()
    }

    /// Consumes the builder, returning the configuration.
    pub fn build(self) -> (r: Config)
        ensures
            r == self.0,
    {
        self.0
    }

    /// Sets the categories of events that are processed.
    pub fn event_types(self, event_types: EventTypeSet) -> (r: ConfigBuilder)
        ensures
            r.0 == (Config { event_types, ..self.0 }),
    {
        let mut b = self;
        b.0.event_types = event_types;
        b
    }

    /// Sets the number of messages kept per channel.
    pub fn message_cache_size(self, message_cache_size: usize) -> (r: ConfigBuilder)
        ensures
            r.0 == (Config { message_cache_size, ..self.0 }),
    {
        let mut b = self;
        b.0.message_cache_size = message_cache_size;
        b
    }
}

} // verus!
