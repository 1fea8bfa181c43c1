//! The configuration of the server, which can change while it is running.
//!
//! The configuration is kept in a TOML file, which is read when the server
//! starts, and every thirty seconds after that. If the configuration in the file
//! has changed, then the tasks of the server adjust their behaviour accordingly.

use crate::text;
use crate::text::push_decimal;
use std::ops::Range;
use toml_edit::DocumentMut;
use vstd::prelude::*;
use vstd::string::*;

verus! {

/// How often the configuration file is checked, in seconds.
pub const CONFIG_UPDATE_INTERVAL_SECS: u64 = 30;

/// The set of properties that can be updated at runtime.
#[derive(Debug, Clone, Copy, PartialEq, Eq, Structural)]
pub struct VariableConfig {
    pub max_message_size: usize,
    pub max_payload_size: usize,
    pub max_players_per_address: usize,
    pub max_players_per_room: usize,
    pub max_rooms: usize,
    pub player_queue_capacity: usize,
    pub join_room_time_limit_secs: u64,
    pub ping_interval_secs: u64,
    pub response_time_limit_secs: u64,
    pub reconnect_wait_limit_secs: u64,
}

/// The default configuration.
///
/// 10KB should be enough for the offers, answers, and candidates.
pub open spec fn default_config() -> VariableConfig {
    VariableConfig {
        max_message_size: 10100,
        max_payload_size: 10000,
        max_players_per_address: 5,
        max_players_per_room: 10,
        max_rooms: 100,
        player_queue_capacity: 100,
        join_room_time_limit_secs: 5,
        ping_interval_secs: 10,
        response_time_limit_secs: 30,
        reconnect_wait_limit_secs: 5,
    }
}

impl Default for VariableConfig {
    fn default() -> (config: Self)
        ensures
            config == default_config(),
            config.valid(),
    {
        VariableConfig {
            max_message_size: 10100,
            max_payload_size: 10000,
            max_players_per_address: 5,
            max_players_per_room: 10,
            max_rooms: 100,
            player_queue_capacity: 100,
            join_room_time_limit_secs: 5,
            ping_interval_secs: 10,
            response_time_limit_secs: 30,
            reconnect_wait_limit_secs: 5,
        }
    }
}

/// The types of validation errors that can occur when reading the config file.
///
/// **NOTE:** This does not include invalid types, or filesystem errors.
#[derive(Debug, PartialEq, Eq)]
pub enum VariableConfigError {
    /// The value of a property is not within its range.
    OutOfRange { key: &'static str, value: usize, range: Range<usize> },
    /// The value of the first property should be less than that of the second.
    GreaterOrEqual { key1: &'static str, value1: usize, key2: &'static str, value2: usize },
}

/// A [`VariableConfigError`] in terms of its characters and numbers.
pub enum VariableConfigErrorView {
    OutOfRange { key: Seq<char>, value: usize, start: usize, end: usize },
    GreaterOrEqual { key1: Seq<char>, value1: usize, key2: Seq<char>, value2: usize },
}

impl View for VariableConfigError {
    type V = VariableConfigErrorView;

    open spec fn view(&self) -> VariableConfigErrorView {
        match *self {
            VariableConfigError::OutOfRange { key, value, range } => {
                VariableConfigErrorView::OutOfRange {
                    key: key@,
                    value,
                    start: range.start,
                    end: range.end,
                }
            },
            VariableConfigError::GreaterOrEqual { key1, value1, key2, value2 } => {
                VariableConfigErrorView::GreaterOrEqual { key1: key1@, value1, key2: key2@, value2 }
            },
        }
    }
}

impl VariableConfigErrorView {
    /// The error message.
    pub open spec fn text(self) -> Seq<char> {
        match self {
            VariableConfigErrorView::OutOfRange { key, value, start, end } => {
                "value of `"@ + key + "` is out of range (range: "@ + text::decimal(start as nat)
                    + "-"@ + text::decimal((end - 1) as nat) + ", got: "@ + text::decimal(
                    value as nat,
                ) + ")"@
            },
            VariableConfigErrorView::GreaterOrEqual { key1, value1, key2, value2 } => {
                "value of `"@ + key1 + "` ("@ + text::decimal(value1 as nat)
                    + ") is more than or equal to the value of `"@ + key2 + "` ("@ + text::decimal(
                    value2 as nat,
                ) + ")"@
            },
        }
    }
}

impl VariableConfigError {
    /// The error message.
    pub fn to_text(&self) -> (text: String)
        requires
            self@ matches VariableConfigErrorView::OutOfRange { end, .. } ==> end > 0,
        ensures
            text@ == self@.text(),
    {
        let mut text = "value of `".to_owned();
        match self {
            VariableConfigError::OutOfRange { key, value, range } => {
                text.append(key);
                text.append("` is out of range (range: ");
                push_decimal(&mut text, range.start as u64);
                text.append("-");
                push_decimal(&mut text, (range.end - 1) as u64);
                text.append(", got: ");
                push_decimal(&mut text, *value as u64);
                text.append(")");
            },
            VariableConfigError::GreaterOrEqual { key1, value1, key2, value2 } => {
                text.append(key1);
                text.append("` (");
                push_decimal(&mut text, *value1 as u64);
                text.append(") is more than or equal to the value of `");
                text.append(key2);
                text.append("` (");
                push_decimal(&mut text, *value2 as u64);
                text.append(")");
            },
        }
        text
    }
}

/// The error of a property whose value is not within its range.
pub open spec fn out_of_range(
    key: Seq<char>,
    value: usize,
    start: usize,
    end: usize,
) -> VariableConfigErrorView {
    VariableConfigErrorView::OutOfRange { key, value, start, end }
}

/// The error of a property whose value is not less than that of another.
pub open spec fn greater_or_equal(
    key1: Seq<char>,
    value1: usize,
    key2: Seq<char>,
    value2: usize,
) -> VariableConfigErrorView {
    VariableConfigErrorView::GreaterOrEqual { key1, value1, key2, value2 }
}

impl VariableConfig {
    /// Whether every property is within its range.
    pub open spec fn in_range(self) -> bool {
        &&& 100 <= self.max_message_size < 100_000_000
        &&& 100 <= self.max_payload_size < 100_000_000
        &&& 1 <= self.max_players_per_address < 1000
        &&& 1 <= self.max_players_per_room < 100
        &&& 1 <= self.max_rooms < 400_000
        &&& 1 <= self.player_queue_capacity < 10_000
        &&& 1 <= self.join_room_time_limit_secs < 60
        &&& 1 <= self.ping_interval_secs < 60
        &&& 5 <= self.response_time_limit_secs < 120
        &&& 0 <= self.reconnect_wait_limit_secs < 60
    }

    /// Whether the configuration can be used.
    ///
    /// Apart from the ranges, a message has to be large enough for its payload,
    /// players have to join before the first ping would be due, and they have to
    /// get enough time to respond to a ping.
    pub open spec fn valid(self) -> bool {
        &&& self.in_range()
        &&& self.max_payload_size < self.max_message_size
        &&& self.join_room_time_limit_secs < self.ping_interval_secs
        &&& self.ping_interval_secs < self.response_time_limit_secs
    }

    /// The first error in the configuration, if there is one: the ranges are
    /// looked at first, in the order of the properties.
    pub open spec fn first_error(self) -> Option<VariableConfigErrorView> {
        if !(100 <= self.max_message_size < 100_000_000) {
            Some(out_of_range("max_message_size"@, self.max_message_size, 100, 100_000_000))
        } else if !(100 <= self.max_payload_size < 100_000_000) {
            Some(out_of_range("max_payload_size"@, self.max_payload_size, 100, 100_000_000))
        } else if !(1 <= self.max_players_per_address < 1000) {
            Some(out_of_range("max_players_per_address"@, self.max_players_per_address, 1, 1000))
        } else if !(1 <= self.max_players_per_room < 100) {
            Some(out_of_range("max_players_per_room"@, self.max_players_per_room, 1, 100))
        } else if !(1 <= self.max_rooms < 400_000) {
            Some(out_of_range("max_rooms"@, self.max_rooms, 1, 400_000))
        } else if !(1 <= self.player_queue_capacity < 10_000) {
            Some(out_of_range("player_queue_capacity"@, self.player_queue_capacity, 1, 10_000))
        } else if !(1 <= self.join_room_time_limit_secs < 60) {
            Some(out_of_range("join_room_time_limit_secs"@, self.join_room_time_limit_secs as usize, 1, 60))
        } else if !(1 <= self.ping_interval_secs < 60) {
            Some(out_of_range("ping_interval_secs"@, self.ping_interval_secs as usize, 1, 60))
        } else if !(5 <= self.response_time_limit_secs < 120) {
            Some(out_of_range("response_time_limit_secs"@, self.response_time_limit_secs as usize, 5, 120))
        } else if !(0 <= self.reconnect_wait_limit_secs < 60) {
            Some(out_of_range("reconnect_wait_limit_secs"@, self.reconnect_wait_limit_secs as usize, 0, 60))
        } else if self.max_payload_size >= self.max_message_size {
            Some(
                greater_or_equal(
                    "max_payload_size"@,
                    self.max_payload_size,
                    "max_message_size"@,
                    self.max_message_size,
                ),
            )
        } else if self.join_room_time_limit_secs >= self.ping_interval_secs {
            Some(
                greater_or_equal(
                    "join_room_time_limit_secs"@,
                    self.join_room_time_limit_secs as usize,
                    "ping_interval_secs"@,
                    self.ping_interval_secs as usize,
                ),
            )
        } else if self.ping_interval_secs >= self.response_time_limit_secs {
            Some(
                greater_or_equal(
                    "ping_interval_secs"@,
                    self.ping_interval_secs as usize,
                    "response_time_limit_secs"@,
                    self.response_time_limit_secs as usize,
                ),
            )
        } else {
            None
        }
    }

    /// Check if the values assigned to the current config are valid.
    pub fn validate(&self) -> (result: Result<(), VariableConfigError>)
        ensures
            result is Ok <==> self.valid(),
            match result {
                Ok(_) => self.first_error() is None,
                Err(error) => self.first_error() == Some(error@),
            },
    {
        if self.max_message_size < 100 || self.max_message_size >= 100_000_000 {
            return Err(
                VariableConfigError::OutOfRange {
                    key: "max_message_size",
                    value: self.max_message_size,
                    range: 100..100_000_000,
                },
            );
        }
        if self.max_payload_size < 100 || self.max_payload_size >= 100_000_000 {
            return Err(
                VariableConfigError::OutOfRange {
                    key: "max_payload_size",
                    value: self.max_payload_size,
                    range: 100..100_000_000,
                },
            );
        }
        if self.max_players_per_address < 1 || self.max_players_per_address >= 1000 {
            return Err(
                VariableConfigError::OutOfRange {
                    key: "max_players_per_address",
                    value: self.max_players_per_address,
                    range: 1..1000,
                },
            );
        }
        if self.max_players_per_room < 1 || self.max_players_per_room >= 100 {
            return Err(
                VariableConfigError::OutOfRange {
                    key: "max_players_per_room",
                    value: self.max_players_per_room,
                    range: 1..100,
                },
            );
        }
        if self.max_rooms < 1 || self.max_rooms >= 400_000 {
            return Err(
                VariableConfigError::OutOfRange {
                    key: "max_rooms",
                    value: self.max_rooms,
                    range: 1..400_000,
                },
            );
        }
        if self.player_queue_capacity < 1 || self.player_queue_capacity >= 10_000 {
            return Err(
                VariableConfigError::OutOfRange {
                    key: "player_queue_capacity",
                    value: self.player_queue_capacity,
                    range: 1..10_000,
                },
            );
        }
        if self.join_room_time_limit_secs < 1 || self.join_room_time_limit_secs >= 60 {
            return Err(
                VariableConfigError::OutOfRange {
                    key: "join_room_time_limit_secs",
                    value: self.join_room_time_limit_secs as usize,
                    range: 1..60,
                },
            );
        }
        if self.ping_interval_secs < 1 || self.ping_interval_secs >= 60 {
            return Err(
                VariableConfigError::OutOfRange {
                    key: "ping_interval_secs",
                    value: self.ping_interval_secs as usize,
                    range: 1..60,
                },
            );
        }
        if self.response_time_limit_secs < 5 || self.response_time_limit_secs >= 120 {
            return Err(
                VariableConfigError::OutOfRange {
                    key: "response_time_limit_secs",
                    value: self.response_time_limit_secs as usize,
                    range: 5..120,
                },
            );
        }
        if self.reconnect_wait_limit_secs >= 60 {
            return Err(
                VariableConfigError::OutOfRange {
                    key: "reconnect_wait_limit_secs",
                    value: self.reconnect_wait_limit_secs as usize,
                    range: 0..60,
                },
            );
        }
        if self.max_payload_size >= self.max_message_size {
            return Err(
                VariableConfigError::GreaterOrEqual {
                    key1: "max_payload_size",
                    value1: self.max_payload_size,
                    key2: "max_message_size",
                    value2: self.max_message_size,
                },
            );
        }
        if self.join_room_time_limit_secs >= self.ping_interval_secs {
            return Err(
                VariableConfigError::GreaterOrEqual {
                    key1: "join_room_time_limit_secs",
                    value1: self.join_room_time_limit_secs as usize,
                    key2: "ping_interval_secs",
                    value2: self.ping_interval_secs as usize,
                },
            );
        }
        if self.ping_interval_secs >= self.response_time_limit_secs {
            return Err(
                VariableConfigError::GreaterOrEqual {
                    key1: "ping_interval_secs",
                    value1: self.ping_interval_secs as usize,
                    key2: "response_time_limit_secs",
                    value2: self.response_time_limit_secs as usize,
                },
            );
        }
        Ok(())
    }

    /// Update the current configuration if it differs from the new one. Returns
    /// whether the configuration was modified.
    pub fn update_if_changed(&mut self, new_config: VariableConfig) -> (modified: bool)
        ensures
            *final(self) == new_config,
            modified == (*old(self) != new_config),
    {
        if new_config != *self {
            *self = new_config;
            true
        } else {
            false
        }
    }
}

/// The comment above the property `max_message_size`.
pub const MAX_MESSAGE_SIZE_COMMENT: &'static str = "# Tabletop Club Lobby Server - Configuration File
#
# This file is used to configure the lobby server, even while it is running.
# To use this configuration file, pass it as an argument when running the server:
#
#    ./ttc-lobby -c server.toml
#
# The server will then periodically check the given file path for updates to the
# configuration. Please wait up to thirty seconds for the changes to take effect.

# The maximum length of client messages in bytes.
# NOTE: Changing this property does not affect existing clients.\n";

/// The comment above the property `max_payload_size`.
pub const MAX_PAYLOAD_SIZE_COMMENT: &'static str = "
# The maximum length of client message payloads in bytes.
# NOTE: Changing this property does not affect existing clients.
# NOTE: This must be smaller than 'max_message_size', as the message contains
# the payload.\n";

/// The comment above the property `max_players_per_address`.
pub const MAX_PLAYERS_PER_ADDRESS_COMMENT: &'static str = "
# The maximum number of clients allowed per remote address.\n";

/// The comment above the property `max_players_per_room`.
pub const MAX_PLAYERS_PER_ROOM_COMMENT: &'static str = "
# The maximum number of players allowed in each room.\n";

/// The comment above the property `max_rooms`.
pub const MAX_ROOMS_COMMENT: &'static str = "
# The maximum number of active rooms at any given time.
# NOTE: This property, along with 'max_players_per_room', determines the maximum
# number of active players.\n";

/// The comment above the property `player_queue_capacity`.
pub const PLAYER_QUEUE_CAPACITY_COMMENT: &'static str = "
# The maximum number of players that can be waiting to create or join a room.\n";

/// The comment above the property `join_room_time_limit_secs`.
pub const JOIN_ROOM_TIME_LIMIT_SECS_COMMENT: &'static str = "
# How long the server will give players to create or join a room, in seconds.
# NOTE: The time limit should be relatively short, as no ping messages are sent
# by the server while it is waiting for the player's request.\n";

/// The comment above the property `ping_interval_secs`.
pub const PING_INTERVAL_SECS_COMMENT: &'static str = "
# How often the server will send ping packets to players, in seconds.\n";

/// The comment above the property `response_time_limit_secs`.
pub const RESPONSE_TIME_LIMIT_SECS_COMMENT: &'static str = "
# How long the server will wait for a player's response before it times out, in seconds.
# NOTE: This must be longer than 'ping_interval_secs', as the players need
# enough time to send pong packets.\n";

/// The comment above the property `reconnect_wait_limit_secs`.
pub const RECONNECT_WAIT_LIMIT_SECS_COMMENT: &'static str = "
# How long players need to wait after their previous connection before being
# able to connect again, in seconds.\n";

/// The comment above the property `max_message_count`.
pub const MAX_MESSAGE_COUNT_COMMENT: &'static str = "
# The maximum number of messages that a player can send to each other player.\n";

/// The settings that the tasks of the server go by.
#[derive(Debug, Clone, Copy, PartialEq, Eq)]
pub struct Settings {
    /// The configuration of the server.
    pub config: VariableConfig,
    /// The maximum number of messages that a player can send to each other player
    /// in the room. If it is not given, then there is no limit.
    pub max_message_count: Option<usize>,
}

impl Default for Settings {
    fn default() -> (settings: Self)
        ensures
            settings.config == default_config(),
            settings.config.valid(),
            settings.max_message_count is None,
    {
        Settings { config: VariableConfig::default(), max_message_count: None }
    }
}

impl Settings {
    /// Check if the settings are valid. There is nothing wrong with any maximum
    /// number of messages, so this is up to the configuration.
    pub fn validate(&self) -> (result: Result<(), VariableConfigError>)
        ensures
            result is Ok <==> self.config.valid(),
            match result {
                Ok(_) => self.config.first_error() is None,
                Err(error) => self.config.first_error() == Some(error@),
            },
    {
        self.config.validate()
    }

    /// The number of messages that a player can send to each other player in the
    /// room.
    pub open spec fn spec_message_limit(self) -> usize {
        match self.max_message_count {
            Some(count) => count,
            None => usize::MAX,
        }
    }

    /// The number of messages that a player can send to each other player in the
    /// room.
    pub fn message_limit(&self) -> (limit: usize)
        ensures
            limit == self.spec_message_limit(),
    {
        match self.max_message_count {
            Some(count) => count,
            None => usize::MAX,
        }
    }

    /// Update the current settings if they differ from the new ones. Returns
    /// whether the settings were modified.
    pub fn update_if_changed(&mut self, new_settings: Settings) -> (modified: bool)
        ensures
            *final(self) == new_settings,
            modified == (*old(self) != new_settings),
    {
        let same_count = match (self.max_message_count, new_settings.max_message_count) {
            (Some(count), Some(new_count)) => count == new_count,
            (None, None) => true,
            _ => false,
        };
        self.max_message_count = new_settings.max_message_count;
        let config_modified = self.config.update_if_changed(new_settings.config);
        config_modified || !same_count
    }
}

/// The properties in the configuration file: their keys, their values, and the
/// comments above them, in the order in which they are written. The maximum
/// number of messages is only written if there is one.
pub open spec fn property_list(settings: Settings) -> Seq<(Seq<char>, u64, Seq<char>)> {
    let properties = seq![
        ("max_message_size"@, settings.config.max_message_size as u64, MAX_MESSAGE_SIZE_COMMENT@),
        ("max_payload_size"@, settings.config.max_payload_size as u64, MAX_PAYLOAD_SIZE_COMMENT@),
        ("max_players_per_address"@, settings.config.max_players_per_address as u64, MAX_PLAYERS_PER_ADDRESS_COMMENT@),
        ("max_players_per_room"@, settings.config.max_players_per_room as u64, MAX_PLAYERS_PER_ROOM_COMMENT@),
        ("max_rooms"@, settings.config.max_rooms as u64, MAX_ROOMS_COMMENT@),
        ("player_queue_capacity"@, settings.config.player_queue_capacity as u64, PLAYER_QUEUE_CAPACITY_COMMENT@),
        ("join_room_time_limit_secs"@, settings.config.join_room_time_limit_secs, JOIN_ROOM_TIME_LIMIT_SECS_COMMENT@),
        ("ping_interval_secs"@, settings.config.ping_interval_secs, PING_INTERVAL_SECS_COMMENT@),
        ("response_time_limit_secs"@, settings.config.response_time_limit_secs, RESPONSE_TIME_LIMIT_SECS_COMMENT@),
        ("reconnect_wait_limit_secs"@, settings.config.reconnect_wait_limit_secs, RECONNECT_WAIT_LIMIT_SECS_COMMENT@),
    ];
    match settings.max_message_count {
        Some(count) => properties.push(
            ("max_message_count"@, count as u64, MAX_MESSAGE_COUNT_COMMENT@),
        ),
        None => properties,
    }
}

/// The properties in terms of their characters.
pub open spec fn property_texts(
    properties: Seq<(&'static str, u64, &'static str)>,
) -> Seq<(Seq<char>, u64, Seq<char>)> {
    properties.map_values(
        |property: (&'static str, u64, &'static str)| (property.0@, property.1, property.2@),
    )
}

/// List the properties in the configuration file.
fn properties(settings: &Settings) -> (properties: Vec<(&'static str, u64, &'static str)>)
    ensures
        property_texts(properties@) == property_list(*settings),
{
    let config = settings.config;
    let mut properties: Vec<(&'static str, u64, &'static str)> = Vec::new();
    properties.push(("max_message_size", config.max_message_size as u64, MAX_MESSAGE_SIZE_COMMENT));
    properties.push(("max_payload_size", config.max_payload_size as u64, MAX_PAYLOAD_SIZE_COMMENT));
    properties.push(("max_players_per_address", config.max_players_per_address as u64, MAX_PLAYERS_PER_ADDRESS_COMMENT));
    properties.push(("max_players_per_room", config.max_players_per_room as u64, MAX_PLAYERS_PER_ROOM_COMMENT));
    properties.push(("max_rooms", config.max_rooms as u64, MAX_ROOMS_COMMENT));
    properties.push(("player_queue_capacity", config.player_queue_capacity as u64, PLAYER_QUEUE_CAPACITY_COMMENT));
    properties.push(("join_room_time_limit_secs", config.join_room_time_limit_secs, JOIN_ROOM_TIME_LIMIT_SECS_COMMENT));
    properties.push(("ping_interval_secs", config.ping_interval_secs, PING_INTERVAL_SECS_COMMENT));
    properties.push(("response_time_limit_secs", config.response_time_limit_secs, RESPONSE_TIME_LIMIT_SECS_COMMENT));
    properties.push(("reconnect_wait_limit_secs", config.reconnect_wait_limit_secs, RECONNECT_WAIT_LIMIT_SECS_COMMENT));
    if let Some(count) = settings.max_message_count {
        properties.push(("max_message_count", count as u64, MAX_MESSAGE_COUNT_COMMENT));
    }
    assert(property_texts(properties@) =~= property_list(*settings));
    properties
}

/// The type `toml_edit::DocumentMut`, a TOML document that can be edited.
#[verifier::external_type_specification]
#[verifier::external_body]
pub struct ExDocumentMut(DocumentMut);

/// Whether a TOML document is plain: its root is a table, and nothing in it has
/// been formatted by hand, apart from the prefixes of the keys.
pub uninterp spec fn is_plain(document: DocumentMut) -> bool;

/// The entries of the root table of a TOML document, in order: the key, the value
/// if it is an integer, and the prefix of the key if one was set. The prefix of a
/// key is the text that is written in front of it.
pub uninterp spec fn document_entries(document: DocumentMut) -> Seq<
    (Seq<char>, Option<i64>, Option<Seq<char>>),
>;

/// Whether there is an entry with the given key.
pub open spec fn has_key(
    entries: Seq<(Seq<char>, Option<i64>, Option<Seq<char>>)>,
    key: Seq<char>,
) -> bool {
    exists|i: int| 0 <= i < entries.len() && (#[trigger] entries[i]).0 == key
}

/// The entries once the prefix of the given key has been set. If there is no such
/// key, then nothing changes.
pub open spec fn with_key_prefix(
    entries: Seq<(Seq<char>, Option<i64>, Option<Seq<char>>)>,
    key: Seq<char>,
    prefix: Seq<char>,
) -> Seq<(Seq<char>, Option<i64>, Option<Seq<char>>)> {
    entries.map_values(
        |entry: (Seq<char>, Option<i64>, Option<Seq<char>>)|
            if entry.0 == key {
                (entry.0, entry.1, Some(prefix))
            } else {
                entry
            },
    )
}

/// Create an empty TOML document.
///
/// This calls `toml_edit::DocumentMut::new`, which is believed to give a plain
/// document without any entries.
#[verifier::external_body]
fn new_document() -> (document: DocumentMut)
    ensures
        is_plain(document),
        document_entries(document).len() == 0,
{
    DocumentMut::new()
}

/// Add a key with an integer as its value to the TOML document.
///
/// This calls `insert` of `toml_edit::DocumentMut`, with what `toml_edit::value`
/// makes of the integer. What is believed of it is that a key that is not in the
/// root table yet becomes its last entry, with the integer as its value and
/// without a prefix, that the other entries stay as they are, and that a plain
/// document stays plain. It would panic if the root were not a table.
#[verifier::external_body]
fn insert_integer(document: &mut DocumentMut, key: &str, value: i64)
    requires
        is_plain(*old(document)),
        !has_key(document_entries(*old(document)), key@),
    ensures
        is_plain(*final(document)),
        document_entries(*final(document)) == document_entries(*old(document)).push(
            (key@, Some(value), None),
        ),
{
    document.insert(key, toml_edit::value(value));
}

/// Set the given key's prefix in the TOML document, and return whether the key
/// exists.
///
/// This calls `key_mut` of `toml_edit::DocumentMut`, and then `set_prefix` on the
/// decor of the key that it finds. What is believed of it is that the key gets
/// the prefix if the root table has the key, that everything else in the table,
/// the values among it, stays as it is, and that a plain document stays plain. It
/// would panic if the root were not a table.
#[verifier::external_body]
fn set_key_prefix(document: &mut DocumentMut, key: &str, prefix: &str) -> (found: bool)
    requires
        is_plain(*old(document)),
    ensures
        found == has_key(document_entries(*old(document)), key@),
        is_plain(*final(document)),
        document_entries(*final(document)) == with_key_prefix(
            document_entries(*old(document)),
            key@,
            prefix@,
        ),
{
    match document.key_mut(key) {
        Some(mut key_data) => {
            key_data.leaf_decor_mut().set_prefix(prefix);
            true
        },
        None => false,
    }
}

/// Whether the character can stand in a key without quotes.
pub open spec fn is_bare_char(c: char) -> bool {
    'a' <= c <= 'z' || 'A' <= c <= 'Z' || '0' <= c <= '9' || c == '_' || c == '-'
}

/// Whether the key can be written without quotes.
pub open spec fn is_bare_key(key: Seq<char>) -> bool {
    key.len() > 0 && forall|i: int| 0 <= i < key.len() ==> is_bare_char(#[trigger] key[i])
}

/// Text without the carriage returns in it.
pub open spec fn without_returns(text: Seq<char>) -> Seq<char> {
    text.filter(|c: char| c != '\r')
}

/// A line that gives a key a value, with a text in front of it.
pub open spec fn entry_text(prefix: Seq<char>, key: Seq<char>, value: nat) -> Seq<char> {
    without_returns(prefix) + key + " = "@ + text::decimal(value) + "\n"@
}

/// The text of entries that have a prefix, a key without quotes, and an integer
/// that is not negative.
pub open spec fn entries_text(
    entries: Seq<(Seq<char>, Option<i64>, Option<Seq<char>>)>,
) -> Seq<char>
    decreases entries.len(),
{
    if entries.len() == 0 {
        Seq::empty()
    } else {
        let (key, value, prefix) = entries.last();
        entries_text(entries.drop_last()) + entry_text(prefix->Some_0, key, value->Some_0 as nat)
    }
}

/// Whether the entry has a prefix, a key without quotes, and an integer that is
/// not negative.
pub open spec fn is_simple(entry: (Seq<char>, Option<i64>, Option<Seq<char>>)) -> bool {
    is_bare_key(entry.0) && entry.1 is Some && entry.1->Some_0 >= 0 && entry.2 is Some
}

/// Get the text of the TOML document.
///
/// This calls `to_string` of `toml_edit::DocumentMut`. What is believed of it is
/// that every entry of a plain document is written on a line of its own, in order:
/// the prefix of the key without carriage returns, the key, an equals sign between
/// two spaces, and the decimal digits of the value. It would panic if the root
/// were not a table.
#[verifier::external_body]
fn document_to_string(document: &DocumentMut) -> (contents: String)
    requires
        is_plain(*document),
        forall|i: int|
            0 <= i < document_entries(*document).len() ==> is_simple(
                #[trigger] document_entries(*document)[i],
            ),
    ensures
        contents@ == entries_text(document_entries(*document)),
{
    document.to_string()
}

/// Whether the value of a property can be written to a TOML document, whose
/// integers have 64 bits with a sign.
pub open spec fn fits(property: (Seq<char>, u64, Seq<char>)) -> bool {
    property.1 <= i64::MAX
}

/// The entries of a TOML document that holds the given properties.
pub open spec fn written_entries(properties: Seq<(Seq<char>, u64, Seq<char>)>) -> Seq<
    (Seq<char>, Option<i64>, Option<Seq<char>>),
> {
    properties.map_values(
        |property: (Seq<char>, u64, Seq<char>)|
            (property.0, Some(property.1 as i64), Some(property.2)),
    )
}

/// The text of the configuration file: every property stands on a line of its own,
/// with its comment above it.
pub open spec fn file_text(properties: Seq<(Seq<char>, u64, Seq<char>)>) -> Seq<char>
    decreases properties.len(),
{
    if properties.len() == 0 {
        Seq::empty()
    } else {
        let (key, value, comment) = properties.last();
        file_text(properties.drop_last()) + entry_text(comment, key, value as nat)
    }
}

/// The text of the entries that hold the properties is that of the file.
proof fn lemma_file_text(properties: Seq<(Seq<char>, u64, Seq<char>)>)
    requires
        forall|i: int| 0 <= i < properties.len() ==> fits(#[trigger] properties[i]),
    ensures
        entries_text(written_entries(properties)) == file_text(properties),
    decreases properties.len(),
{
    if properties.len() > 0 {
        let shorter = properties.drop_last();
        lemma_file_text(shorter);
        assert(written_entries(properties).drop_last() =~= written_entries(shorter));
        assert(fits(properties[properties.len() - 1]));
    }
}

/// The keys of the properties can be written without quotes.
pub proof fn lemma_keys_are_bare(settings: Settings)
    ensures
        forall|i: int|
            0 <= i < property_list(settings).len() ==> is_bare_key(
                (#[trigger] property_list(settings)[i]).0,
            ),
{
    reveal_strlit("max_message_size");
    assert(is_bare_key("max_message_size"@));
    reveal_strlit("max_payload_size");
    assert(is_bare_key("max_payload_size"@));
    reveal_strlit("max_players_per_address");
    assert(is_bare_key("max_players_per_address"@));
    reveal_strlit("max_players_per_room");
    assert(is_bare_key("max_players_per_room"@));
    reveal_strlit("max_rooms");
    assert(is_bare_key("max_rooms"@));
    reveal_strlit("player_queue_capacity");
    assert(is_bare_key("player_queue_capacity"@));
    reveal_strlit("join_room_time_limit_secs");
    assert(is_bare_key("join_room_time_limit_secs"@));
    reveal_strlit("ping_interval_secs");
    assert(is_bare_key("ping_interval_secs"@));
    reveal_strlit("response_time_limit_secs");
    assert(is_bare_key("response_time_limit_secs"@));
    reveal_strlit("reconnect_wait_limit_secs");
    assert(is_bare_key("reconnect_wait_limit_secs"@));
    reveal_strlit("max_message_count");
    assert(is_bare_key("max_message_count"@));
}

/// The reason why the settings cannot be written to the configuration file: the
/// value of a property is too large.
#[derive(Debug, Clone, Copy, PartialEq, Eq)]
pub struct ConfigWriteError {
    pub key: &'static str,
    pub value: u64,
}

impl ConfigWriteError {
    /// The error message.
    pub fn to_text(&self) -> (text: String)
        ensures
            text@ == "out-of-range value for u64 type"@,
    {
        "out-of-range value for u64 type".to_owned()
    }
}

/// Add a property to the TOML document, with its comment in front of it.
fn add_property(document: &mut DocumentMut, key: &'static str, value: i64, comment: &'static str)
    requires
        is_plain(*old(document)),
        !has_key(document_entries(*old(document)), key@),
    ensures
        is_plain(*final(document)),
        document_entries(*final(document)) == document_entries(*old(document)).push(
            (key@, Some(value), Some(comment@)),
        ),
{
    let ghost before = document_entries(*document);
    insert_integer(document, key, value);
    let ghost inserted = document_entries(*document);
    let _found = set_key_prefix(document, key, comment);
    proof {
        assert(inserted[before.len() as int].0 == key@);
        assert(_found);
        assert forall|i: int| 0 <= i < before.len() implies (#[trigger] before[i]).0 != key@ by {}
        assert(with_key_prefix(inserted, key@, comment@) =~= before.push(
            (key@, Some(value), Some(comment@)),
        ));
    }
}

/// The contents of the configuration file: the properties in order, each of them
/// with its value, and with its comment above it. The settings do not have to be
/// valid, but every value has to fit into an integer of TOML: if one does not,
/// then the first of them is returned as the error.
pub fn config_file_contents(settings: &Settings) -> (result: Result<String, ConfigWriteError>)
    ensures
        result is Ok <==> forall|i: int|
            0 <= i < property_list(*settings).len() ==> fits(#[trigger] property_list(*settings)[i]),
        match result {
            Ok(contents) => contents@ == file_text(property_list(*settings)),
            Err(error) => exists|i: int|
                {
                    &&& 0 <= i < property_list(*settings).len()
                    &&& !fits(#[trigger] property_list(*settings)[i])
                    &&& forall|j: int| 0 <= j < i ==> fits(#[trigger] property_list(*settings)[j])
                    &&& error.key@ == property_list(*settings)[i].0
                    &&& error.value == property_list(*settings)[i].1
                },
        },
{
    let properties: Vec<(&'static str, u64, &'static str)> = properties(settings);
    let ghost list = property_list(*settings);
    let mut document = new_document();
    proof {
        law_property_keys_are_distinct(*settings);
        assert(document_entries(document) =~= written_entries(list.take(0)));
    }
    for i in 0..properties.len()
        invariant
            list == property_list(*settings),
            property_texts(properties@) == list,
            properties@.len() == list.len(),
            forall|a: int, b: int|
                0 <= a < b < list.len() ==> (#[trigger] list[a]).0 != (#[trigger] list[b]).0,
            is_plain(document),
            document_entries(document) == written_entries(list.take(i as int)),
            forall|j: int| 0 <= j < i ==> fits(#[trigger] list[j]),
    {
        let (key, value, comment) = properties[i];
        proof {
            assert(property_texts(properties@)[i as int] == list[i as int]);
            assert(list[i as int] == (key@, value, comment@));
        }
        if value > i64::MAX as u64 {
            assert(!fits(list[i as int]));
            return Err(ConfigWriteError { key, value });
        }
        proof {
            let written = written_entries(list.take(i as int));
            assert forall|j: int| 0 <= j < written.len() implies (#[trigger] written[j]).0
                != key@ by {
                assert(list[j].0 != list[i as int].0);
            }
        }
        add_property(&mut document, key, value as i64, comment);
        assert(document_entries(document) =~= written_entries(list.take(i + 1)));
    }
    proof {
        assert(list.take(list.len() as int) =~= list);
        lemma_keys_are_bare(*settings);
        lemma_file_text(list);
        let entries = document_entries(document);
        assert forall|i: int| 0 <= i < entries.len() implies is_simple(#[trigger] entries[i]) by {
            assert(fits(list[i]) && is_bare_key(list[i].0));
        }
    }
    Ok(document_to_string(&document))
}

/// No two properties in the configuration file have the same key.
pub proof fn law_property_keys_are_distinct(settings: Settings)
    ensures
        forall|i: int, j: int|
            0 <= i < j < property_list(settings).len() ==> (#[trigger] property_list(
                settings,
            )[i]).0 != (#[trigger] property_list(settings)[j]).0,
{
    reveal_strlit("max_message_size");
    assert("max_message_size"@.len() == 16);
    reveal_strlit("max_payload_size");
    assert("max_payload_size"@.len() == 16);
    reveal_strlit("max_players_per_address");
    assert("max_players_per_address"@.len() == 23);
    reveal_strlit("max_players_per_room");
    assert("max_players_per_room"@.len() == 20);
    reveal_strlit("max_rooms");
    assert("max_rooms"@.len() == 9);
    reveal_strlit("player_queue_capacity");
    assert("player_queue_capacity"@.len() == 21);
    reveal_strlit("join_room_time_limit_secs");
    assert("join_room_time_limit_secs"@.len() == 25);
    reveal_strlit("ping_interval_secs");
    assert("ping_interval_secs"@.len() == 18);
    reveal_strlit("response_time_limit_secs");
    assert("response_time_limit_secs"@.len() == 24);
    reveal_strlit("reconnect_wait_limit_secs");
    assert("reconnect_wait_limit_secs"@.len() == 25);
    reveal_strlit("max_message_count");
    assert("max_message_count"@.len() == 17);
    assert("max_message_size"@[4] != "max_payload_size"@[4]);
    assert("join_room_time_limit_secs"@[0] != "reconnect_wait_limit_secs"@[0]);
}

/// Looking a property up by its key, among the entries of the document that is
/// written, gives the value that was written, with the comment of the property,
/// and nothing else.
pub proof fn law_written_values_are_found(settings: Settings, i: int, k: int)
    requires
        0 <= i < property_list(settings).len(),
        fits(property_list(settings)[i]),
        0 <= k < written_entries(property_list(settings)).len(),
        written_entries(property_list(settings))[k].0 == property_list(settings)[i].0,
    ensures
        ({
            let (key, value, comment) = property_list(settings)[i];
            let entry = written_entries(property_list(settings))[k];
            &&& entry.1 is Some
            &&& entry.1->Some_0 == value
            &&& entry.2 == Some(comment)
        }),
{
    law_property_keys_are_distinct(settings);
}

/// Every property stands in the configuration file: its comment, followed by a
/// line with its key and its value.
pub proof fn law_every_property_stands_in_the_file(settings: Settings, i: int) -> (parts: (
    Seq<char>,
    Seq<char>,
))
    requires
        0 <= i < property_list(settings).len(),
    ensures
        ({
            let (key, value, comment) = property_list(settings)[i];
            file_text(property_list(settings)) == parts.0 + entry_text(comment, key, value as nat)
                + parts.1
        }),
{
    lemma_property_in_text(property_list(settings), i)
}

/// Every one of the properties stands in their text.
proof fn lemma_property_in_text(properties: Seq<(Seq<char>, u64, Seq<char>)>, i: int) -> (parts: (
    Seq<char>,
    Seq<char>,
))
    requires
        0 <= i < properties.len(),
    ensures
        file_text(properties) == parts.0 + entry_text(
            properties[i].2,
            properties[i].0,
            properties[i].1 as nat,
        ) + parts.1,
    decreases properties.len(),
{
    let shorter = properties.drop_last();
    let (key, value, comment) = properties.last();
    let line = entry_text(comment, key, value as nat);
    if i == properties.len() - 1 {
        assert(file_text(properties) =~= file_text(shorter) + line + Seq::empty());
        (file_text(shorter), Seq::empty())
    } else {
        let (before, after) = lemma_property_in_text(shorter, i);
        let found = entry_text(properties[i].2, properties[i].0, properties[i].1 as nat);
        assert(file_text(properties) =~= before + found + (after + line));
        (before, after + line)
    }
}

/// The document that is written determines the settings: if the same entries are
/// written for two settings, then they are the same settings.
pub proof fn law_written_entries_determine_settings(a: Settings, b: Settings)
    requires
        forall|i: int| 0 <= i < property_list(a).len() ==> fits(#[trigger] property_list(a)[i]),
        forall|i: int| 0 <= i < property_list(b).len() ==> fits(#[trigger] property_list(b)[i]),
        written_entries(property_list(a)) == written_entries(property_list(b)),
    ensures
        a == b,
{
    let (list_a, list_b) = (property_list(a), property_list(b));
    assert(list_a.len() == list_b.len()) by {
        assert(written_entries(list_a).len() == list_a.len());
        assert(written_entries(list_b).len() == list_b.len());
    }
    assert forall|i: int| 0 <= i < list_a.len() implies (#[trigger] list_a[i]).1 == list_b[i].1 by {
        assert(written_entries(list_a)[i].1 == Some(list_a[i].1 as i64));
        assert(written_entries(list_b)[i].1 == Some(list_b[i].1 as i64));
        assert(fits(list_a[i]) && fits(list_b[i]));
    }
    assert(list_a[0].1 == list_b[0].1);
    assert(list_a[1].1 == list_b[1].1);
    assert(list_a[2].1 == list_b[2].1);
    assert(list_a[3].1 == list_b[3].1);
    assert(list_a[4].1 == list_b[4].1);
    assert(list_a[5].1 == list_b[5].1);
    assert(list_a[6].1 == list_b[6].1);
    assert(list_a[7].1 == list_b[7].1);
    assert(list_a[8].1 == list_b[8].1);
    assert(list_a[9].1 == list_b[9].1);
    if list_a.len() == 11 {
        assert(list_a[10].1 == list_b[10].1);
    }
}

/// A configuration is valid exactly if it has no error.
pub proof fn law_valid_config_has_no_error(config: VariableConfig)
    ensures
        config.valid() <==> config.first_error() is None,
{
}

/// Every error of a configuration names a range that is not empty, so that there
/// is a message for it, or two values that are in the wrong order.
pub proof fn law_errors_can_be_displayed(config: VariableConfig)
    ensures
        config.first_error() matches Some(VariableConfigErrorView::OutOfRange { start, end, .. })
            ==> start < end,
        config.first_error() matches Some(
            VariableConfigErrorView::GreaterOrEqual { value1, value2, .. },
        ) ==> value1 >= value2,
{
}

} // verus!
