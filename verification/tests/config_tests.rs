use tabletop_club_lobby_server::config::{
    config_file_contents, ConfigWriteError, Settings, VariableConfig, VariableConfigError,
};
use toml_edit::DocumentMut;

#[test]
fn valid_default() {
    assert!(VariableConfig::default().validate().is_ok())
}

/// The properties of a valid configuration.
fn valid_config() -> VariableConfig {
    VariableConfig {
        max_message_size: 1100,
        max_payload_size: 1000,
        max_players_per_address: 10,
        max_players_per_room: 10,
        max_rooms: 10,
        player_queue_capacity: 10,
        join_room_time_limit_secs: 3,
        ping_interval_secs: 5,
        response_time_limit_secs: 20,
        reconnect_wait_limit_secs: 5,
    }
}

fn check_error(config: VariableConfig, text: &str) {
    let error = config.validate().unwrap_err();
    assert_eq!(error.to_text(), text);
}

#[test]
fn read_err() {
    assert!(valid_config().validate().is_ok());

    // Out of range values.
    check_error(
        VariableConfig { max_message_size: 10, ..valid_config() },
        "value of `max_message_size` is out of range (range: 100-99999999, got: 10)",
    );
    check_error(
        VariableConfig { max_message_size: 500000000, ..valid_config() },
        "value of `max_message_size` is out of range (range: 100-99999999, got: 500000000)",
    );

    check_error(
        VariableConfig { max_payload_size: 99, ..valid_config() },
        "value of `max_payload_size` is out of range (range: 100-99999999, got: 99)",
    );
    check_error(
        VariableConfig { max_payload_size: 250000000, ..valid_config() },
        "value of `max_payload_size` is out of range (range: 100-99999999, got: 250000000)",
    );

    check_error(
        VariableConfig { max_players_per_address: 0, ..valid_config() },
        "value of `max_players_per_address` is out of range (range: 1-999, got: 0)",
    );
    check_error(
        VariableConfig { max_players_per_address: 1000, ..valid_config() },
        "value of `max_players_per_address` is out of range (range: 1-999, got: 1000)",
    );

    check_error(
        VariableConfig { max_players_per_room: 0, ..valid_config() },
        "value of `max_players_per_room` is out of range (range: 1-99, got: 0)",
    );
    check_error(
        VariableConfig { max_players_per_room: 150, ..valid_config() },
        "value of `max_players_per_room` is out of range (range: 1-99, got: 150)",
    );

    check_error(
        VariableConfig { max_rooms: 0, ..valid_config() },
        "value of `max_rooms` is out of range (range: 1-399999, got: 0)",
    );
    check_error(
        VariableConfig { max_rooms: 500000, ..valid_config() },
        "value of `max_rooms` is out of range (range: 1-399999, got: 500000)",
    );

    check_error(
        VariableConfig { player_queue_capacity: 0, ..valid_config() },
        "value of `player_queue_capacity` is out of range (range: 1-9999, got: 0)",
    );
    check_error(
        VariableConfig { player_queue_capacity: 50000, ..valid_config() },
        "value of `player_queue_capacity` is out of range (range: 1-9999, got: 50000)",
    );

    check_error(
        VariableConfig { join_room_time_limit_secs: 0, ..valid_config() },
        "value of `join_room_time_limit_secs` is out of range (range: 1-59, got: 0)",
    );
    check_error(
        VariableConfig { join_room_time_limit_secs: 120, ..valid_config() },
        "value of `join_room_time_limit_secs` is out of range (range: 1-59, got: 120)",
    );

    check_error(
        VariableConfig { ping_interval_secs: 0, ..valid_config() },
        "value of `ping_interval_secs` is out of range (range: 1-59, got: 0)",
    );
    check_error(
        VariableConfig { ping_interval_secs: 90, ..valid_config() },
        "value of `ping_interval_secs` is out of range (range: 1-59, got: 90)",
    );

    check_error(
        VariableConfig { response_time_limit_secs: 4, ..valid_config() },
        "value of `response_time_limit_secs` is out of range (range: 5-119, got: 4)",
    );
    check_error(
        VariableConfig { response_time_limit_secs: 150, ..valid_config() },
        "value of `response_time_limit_secs` is out of range (range: 5-119, got: 150)",
    );

    // No lower bound for 'reconnect_wait_limit_secs'.
    check_error(
        VariableConfig { reconnect_wait_limit_secs: 120, ..valid_config() },
        "value of `reconnect_wait_limit_secs` is out of range (range: 0-59, got: 120)",
    );
    let config = VariableConfig { reconnect_wait_limit_secs: 0, ..valid_config() };
    assert!(config.validate().is_ok());

    // Certain properties cannot be greater than others.
    check_error(
        VariableConfig { max_message_size: 900, ..valid_config() },
        "value of `max_payload_size` (1000) is more than or equal to the value of `max_message_size` (900)",
    );
    check_error(
        VariableConfig { max_payload_size: 1100, ..valid_config() },
        "value of `max_payload_size` (1100) is more than or equal to the value of `max_message_size` (1100)",
    );

    check_error(
        VariableConfig { join_room_time_limit_secs: 6, ..valid_config() },
        "value of `join_room_time_limit_secs` (6) is more than or equal to the value of `ping_interval_secs` (5)",
    );
    check_error(
        VariableConfig { ping_interval_secs: 2, ..valid_config() },
        "value of `join_room_time_limit_secs` (3) is more than or equal to the value of `ping_interval_secs` (2)",
    );

    check_error(
        VariableConfig { ping_interval_secs: 30, ..valid_config() },
        "value of `ping_interval_secs` (30) is more than or equal to the value of `response_time_limit_secs` (20)",
    );
    check_error(
        VariableConfig { response_time_limit_secs: 5, ..valid_config() },
        "value of `ping_interval_secs` (5) is more than or equal to the value of `response_time_limit_secs` (5)",
    );
}

#[test]
fn ranges_come_before_comparisons() {
    let config = VariableConfig {
        max_payload_size: 2000,
        reconnect_wait_limit_secs: 60,
        ..valid_config()
    };
    assert_eq!(
        config.validate(),
        Err(VariableConfigError::OutOfRange {
            key: "reconnect_wait_limit_secs",
            value: 60,
            range: 0..60,
        })
    );
}

#[test]
fn limits_of_the_ranges_are_valid() {
    let config = VariableConfig {
        max_message_size: 99_999_999,
        max_payload_size: 100,
        max_players_per_address: 999,
        max_players_per_room: 99,
        max_rooms: 399_999,
        player_queue_capacity: 9999,
        join_room_time_limit_secs: 58,
        ping_interval_secs: 59,
        response_time_limit_secs: 119,
        reconnect_wait_limit_secs: 59,
    };
    assert!(config.validate().is_ok());
}

#[test]
fn updates_are_noticed() {
    let test_config = VariableConfig {
        max_message_size: 600,
        max_payload_size: 500,
        max_players_per_address: 1,
        max_players_per_room: 5,
        max_rooms: 10,
        player_queue_capacity: 5,
        join_room_time_limit_secs: 5,
        ping_interval_secs: 10,
        response_time_limit_secs: 20,
        reconnect_wait_limit_secs: 5,
    };
    assert!(test_config.validate().is_ok());

    let mut config = VariableConfig::default();
    assert!(!config.update_if_changed(VariableConfig::default()));
    assert_eq!(config, VariableConfig::default());
    assert!(config.update_if_changed(test_config));
    assert_eq!(config, test_config);
    assert!(!config.update_if_changed(test_config));
}

const COMMENTED_FILE: &str = "# Tabletop Club Lobby Server - Configuration File
#
# This file is used to configure the lobby server, even while it is running.
# To use this configuration file, pass it as an argument when running the server:
#
#    ./ttc-lobby -c server.toml
#
# The server will then periodically check the given file path for updates to the
# configuration. Please wait up to thirty seconds for the changes to take effect.

# The maximum length of client messages in bytes.
# NOTE: Changing this property does not affect existing clients.
max_message_size = 10100

# The maximum length of client message payloads in bytes.
# NOTE: Changing this property does not affect existing clients.
# NOTE: This must be smaller than 'max_message_size', as the message contains
# the payload.
max_payload_size = 10000

# The maximum number of clients allowed per remote address.
max_players_per_address = 5

# The maximum number of players allowed in each room.
max_players_per_room = 10

# The maximum number of active rooms at any given time.
# NOTE: This property, along with 'max_players_per_room', determines the maximum
# number of active players.
max_rooms = 100

# The maximum number of players that can be waiting to create or join a room.
player_queue_capacity = 100

# How long the server will give players to create or join a room, in seconds.
# NOTE: The time limit should be relatively short, as no ping messages are sent
# by the server while it is waiting for the player's request.
join_room_time_limit_secs = 5

# How often the server will send ping packets to players, in seconds.
ping_interval_secs = 10

# How long the server will wait for a player's response before it times out, in seconds.
# NOTE: This must be longer than 'ping_interval_secs', as the players need
# enough time to send pong packets.
response_time_limit_secs = 30

# How long players need to wait after their previous connection before being
# able to connect again, in seconds.
reconnect_wait_limit_secs = 5
";

#[test]
fn comments_are_written() {
    let contents = config_file_contents(&Settings::default()).unwrap();
    assert_eq!(contents, COMMENTED_FILE);
}

/// The value of a property in the contents of a configuration file.
fn written_value(contents: &str, key: &str) -> Option<i64> {
    let document: DocumentMut = contents.parse().unwrap();
    document.get(key).and_then(|item| item.as_integer())
}

#[test]
fn read_and_write() {
    let mut config = VariableConfig::default();
    config.max_players_per_address = 15;
    config.max_rooms = 250;
    config.player_queue_capacity = 10;
    config.ping_interval_secs = 6;

    let settings = Settings { config, max_message_count: None };
    let contents = config_file_contents(&settings).unwrap();
    assert_eq!(written_value(&contents, "max_message_size"), Some(10100));
    assert_eq!(written_value(&contents, "max_payload_size"), Some(10000));
    assert_eq!(written_value(&contents, "max_players_per_address"), Some(15));
    assert_eq!(written_value(&contents, "max_players_per_room"), Some(10));
    assert_eq!(written_value(&contents, "max_rooms"), Some(250));
    assert_eq!(written_value(&contents, "player_queue_capacity"), Some(10));
    assert_eq!(written_value(&contents, "join_room_time_limit_secs"), Some(5));
    assert_eq!(written_value(&contents, "ping_interval_secs"), Some(6));
    assert_eq!(written_value(&contents, "response_time_limit_secs"), Some(30));
    assert_eq!(written_value(&contents, "reconnect_wait_limit_secs"), Some(5));
    let document: DocumentMut = contents.parse().unwrap();
    assert_eq!(document.iter().count(), 10);
}

#[test]
fn different_settings_have_different_files() {
    let mut files = Vec::new();
    for max_rooms in [1, 10, 100, 1000] {
        for max_message_count in [None, Some(0), Some(1), Some(10)] {
            let config = VariableConfig { max_rooms, ..VariableConfig::default() };
            let contents = config_file_contents(&Settings { config, max_message_count }).unwrap();
            assert!(!files.contains(&contents));
            files.push(contents);
        }
    }
}

#[test]
fn invalid_settings_are_written_too() {
    let config = VariableConfig { max_rooms: 0, ..VariableConfig::default() };
    let settings = Settings { config, max_message_count: Some(7) };
    assert!(settings.validate().is_err());
    let contents = config_file_contents(&settings).unwrap();
    assert_eq!(written_value(&contents, "max_rooms"), Some(0));
    assert_eq!(written_value(&contents, "max_message_count"), Some(7));
    assert!(contents.ends_with(
        "\n# The maximum number of messages that a player can send to each other player.
max_message_count = 7\n"
    ));
    let document: DocumentMut = contents.parse().unwrap();
    assert_eq!(document.iter().count(), 11);
}

#[test]
fn values_that_do_not_fit_are_refused() {
    let config = VariableConfig {
        ping_interval_secs: i64::MAX as u64 + 1,
        response_time_limit_secs: u64::MAX,
        ..VariableConfig::default()
    };
    let error = config_file_contents(&Settings { config, max_message_count: None }).unwrap_err();
    assert_eq!(
        error,
        ConfigWriteError { key: "ping_interval_secs", value: i64::MAX as u64 + 1 }
    );
    assert_eq!(error.to_text(), "out-of-range value for u64 type");

    let config = VariableConfig { ping_interval_secs: i64::MAX as u64, ..VariableConfig::default() };
    let contents = config_file_contents(&Settings { config, max_message_count: None }).unwrap();
    assert_eq!(written_value(&contents, "ping_interval_secs"), Some(i64::MAX));
}

#[test]
fn settings() {
    let mut settings = Settings::default();
    assert!(settings.validate().is_ok());
    assert_eq!(settings.message_limit(), usize::MAX);

    let limited = Settings { max_message_count: Some(5), ..settings };
    assert_eq!(limited.message_limit(), 5);
    assert!(settings.update_if_changed(limited));
    assert_eq!(settings, limited);
    assert!(!settings.update_if_changed(limited));

    let config = VariableConfig { max_rooms: 7, ..VariableConfig::default() };
    assert!(settings.update_if_changed(Settings { config, ..limited }));
    assert_eq!(settings.config.max_rooms, 7);
    assert!(settings.update_if_changed(Settings { max_message_count: None, ..settings }));
    assert_eq!(settings.message_limit(), usize::MAX);
}
