//! What is promised of the configuration.

use crate::config;
use crate::config::{ConfigWriteError, Settings, VariableConfig, VariableConfigError};
use crate::text;
use vstd::prelude::*;
use vstd::string::*;

verus! {

/// A configuration is valid exactly if every property is within its range, and if
/// the sizes and the times are in order.
pub proof fn law_valid_configurations(
    config: VariableConfig,
    result: Result<(), VariableConfigError>,
)
    requires
        call_ensures(VariableConfig::validate, (&config,), result),
    ensures
        result is Ok <==> {
            &&& 100 <= config.max_message_size <= 99_999_999
            &&& 100 <= config.max_payload_size <= 99_999_999
            &&& 1 <= config.max_players_per_address <= 999
            &&& 1 <= config.max_players_per_room <= 99
            &&& 1 <= config.max_rooms <= 399_999
            &&& 1 <= config.player_queue_capacity <= 9_999
            &&& 1 <= config.join_room_time_limit_secs <= 59
            &&& 1 <= config.ping_interval_secs <= 59
            &&& 5 <= config.response_time_limit_secs <= 119
            &&& config.reconnect_wait_limit_secs <= 59
            &&& config.max_payload_size < config.max_message_size
            &&& config.join_room_time_limit_secs < config.ping_interval_secs
            &&& config.ping_interval_secs < config.response_time_limit_secs
        },
        result is Ok <==> config.valid(),
{
}

/// The settings are valid exactly if the configuration in them is.
pub proof fn law_valid_settings(
    settings: Settings,
    result: Result<(), VariableConfigError>,
    config_result: Result<(), VariableConfigError>,
)
    requires
        call_ensures(Settings::validate, (&settings,), result),
        call_ensures(VariableConfig::validate, (&settings.config,), config_result),
    ensures
        result is Ok <==> config_result is Ok,
        result matches Err(error) ==> config_result is Err && error@ == config_result->Err_0@,
{
}

/// Whether the error says that the property is not within the given range.
pub open spec fn names_range(
    error: VariableConfigError,
    name: Seq<char>,
    number: usize,
    least: usize,
    most: usize,
) -> bool {
    error matches VariableConfigError::OutOfRange { key, value, range } && key@ == name && value
        == number && range.start == least && range.end == most + 1
}

/// An error that names a range gives the name of a property, its value, and the
/// range that the value is not in.
pub proof fn law_values_out_of_range_are_named(config: VariableConfig, error: VariableConfigError)
    requires
        call_ensures(VariableConfig::validate, (&config,), Err(error)),
        error is OutOfRange,
    ensures
        ({
            ||| names_range(error, "max_message_size"@, config.max_message_size, 100, 99_999_999)
                && !(100 <= config.max_message_size <= 99_999_999)
            ||| names_range(error, "max_payload_size"@, config.max_payload_size, 100, 99_999_999)
                && !(100 <= config.max_payload_size <= 99_999_999)
            ||| names_range(
                error,
                "max_players_per_address"@,
                config.max_players_per_address,
                1,
                999,
            ) && !(1 <= config.max_players_per_address <= 999)
            ||| names_range(error, "max_players_per_room"@, config.max_players_per_room, 1, 99)
                && !(1 <= config.max_players_per_room <= 99)
            ||| names_range(error, "max_rooms"@, config.max_rooms, 1, 399_999) && !(1
                <= config.max_rooms <= 399_999)
            ||| names_range(error, "player_queue_capacity"@, config.player_queue_capacity, 1, 9_999)
                && !(1 <= config.player_queue_capacity <= 9_999)
            ||| names_range(
                error,
                "join_room_time_limit_secs"@,
                config.join_room_time_limit_secs as usize,
                1,
                59,
            ) && !(1 <= config.join_room_time_limit_secs <= 59)
            ||| names_range(
                error,
                "ping_interval_secs"@,
                config.ping_interval_secs as usize,
                1,
                59,
            ) && !(1 <= config.ping_interval_secs <= 59)
            ||| names_range(
                error,
                "response_time_limit_secs"@,
                config.response_time_limit_secs as usize,
                5,
                119,
            ) && !(5 <= config.response_time_limit_secs <= 119)
            ||| names_range(
                error,
                "reconnect_wait_limit_secs"@,
                config.reconnect_wait_limit_secs as usize,
                0,
                59,
            ) && !(config.reconnect_wait_limit_secs <= 59)
        }),
{
}

/// The position of a property among the properties.
pub open spec fn position(name: Seq<char>) -> int {
    if name == "max_message_size"@ {
        0
    } else if name == "max_payload_size"@ {
        1
    } else if name == "max_players_per_address"@ {
        2
    } else if name == "max_players_per_room"@ {
        3
    } else if name == "max_rooms"@ {
        4
    } else if name == "player_queue_capacity"@ {
        5
    } else if name == "join_room_time_limit_secs"@ {
        6
    } else if name == "ping_interval_secs"@ {
        7
    } else if name == "response_time_limit_secs"@ {
        8
    } else {
        9
    }
}

/// If there are several properties that are not within their ranges, then the error
/// names the first of them.
pub proof fn law_the_first_value_out_of_range_is_named(
    config: VariableConfig,
    error: VariableConfigError,
)
    requires
        call_ensures(VariableConfig::validate, (&config,), Err(error)),
    ensures
        ({
            let ok0 = 100 <= config.max_message_size <= 99_999_999;
            let ok1 = 100 <= config.max_payload_size <= 99_999_999;
            let ok2 = 1 <= config.max_players_per_address <= 999;
            let ok3 = 1 <= config.max_players_per_room <= 99;
            let ok4 = 1 <= config.max_rooms <= 399_999;
            let ok5 = 1 <= config.player_queue_capacity <= 9_999;
            let ok6 = 1 <= config.join_room_time_limit_secs <= 59;
            let ok7 = 1 <= config.ping_interval_secs <= 59;
            let ok8 = 5 <= config.response_time_limit_secs <= 119;
            let ok9 = config.reconnect_wait_limit_secs <= 59;
            &&& error is GreaterOrEqual <==> ok0 && ok1 && ok2 && ok3 && ok4 && ok5 && ok6 && ok7
                && ok8 && ok9
            &&& error matches VariableConfigError::OutOfRange { key, .. } ==> {
                let i = position(key@);
                &&& i > 0 ==> ok0
                &&& i > 1 ==> ok1
                &&& i > 2 ==> ok2
                &&& i > 3 ==> ok3
                &&& i > 4 ==> ok4
                &&& i > 5 ==> ok5
                &&& i > 6 ==> ok6
                &&& i > 7 ==> ok7
                &&& i > 8 ==> ok8
            }
        }),
{
    config::law_property_keys_are_distinct(Settings { config, max_message_count: None });
    let list = config::property_list(Settings { config, max_message_count: None });
    assert(list[0].0 != list[1].0);
    reveal_strlit("max_message_size");
    reveal_strlit("max_payload_size");
    reveal_strlit("max_players_per_address");
    reveal_strlit("max_players_per_room");
    reveal_strlit("max_rooms");
    reveal_strlit("player_queue_capacity");
    reveal_strlit("join_room_time_limit_secs");
    reveal_strlit("ping_interval_secs");
    reveal_strlit("response_time_limit_secs");
    reveal_strlit("reconnect_wait_limit_secs");
    assert("max_message_size"@[4] != "max_payload_size"@[4]);
    assert("join_room_time_limit_secs"@[0] != "reconnect_wait_limit_secs"@[0]);
    assert("max_message_size"@.len() == 16 && "max_payload_size"@.len() == 16);
    assert("max_players_per_address"@.len() == 23 && "max_players_per_room"@.len() == 20);
    assert("max_rooms"@.len() == 9 && "player_queue_capacity"@.len() == 21);
    assert("join_room_time_limit_secs"@.len() == 25 && "ping_interval_secs"@.len() == 18);
    assert("response_time_limit_secs"@.len() == 24);
    assert("reconnect_wait_limit_secs"@.len() == 25);
}

/// An error that names two properties names the first two that are not in order,
/// with their values.
pub proof fn law_values_out_of_order_are_named(
    config: VariableConfig,
    key1: &'static str,
    value1: usize,
    key2: &'static str,
    value2: usize,
)
    requires
        call_ensures(
            VariableConfig::validate,
            (&config,),
            Err(VariableConfigError::GreaterOrEqual { key1, value1, key2, value2 }),
        ),
    ensures
        value1 >= value2,
        config.max_payload_size >= config.max_message_size ==> key1@ == "max_payload_size"@
            && value1 == config.max_payload_size && key2@ == "max_message_size"@ && value2
            == config.max_message_size,
        config.max_payload_size < config.max_message_size && config.join_room_time_limit_secs
            >= config.ping_interval_secs ==> key1@ == "join_room_time_limit_secs"@ && value1
            == config.join_room_time_limit_secs && key2@ == "ping_interval_secs"@ && value2
            == config.ping_interval_secs,
        config.max_payload_size < config.max_message_size && config.join_room_time_limit_secs
            < config.ping_interval_secs ==> key1@ == "ping_interval_secs"@ && value1
            == config.ping_interval_secs && key2@ == "response_time_limit_secs"@ && value2
            == config.response_time_limit_secs,
{
}

/// The error message gives the names, the values and the limits, of which the upper
/// one belongs to the range.
pub proof fn law_errors_are_described(error: VariableConfigError, text: String)
    requires
        call_ensures(VariableConfigError::to_text, (&error,), text),
        error matches VariableConfigError::OutOfRange { range, .. } ==> range.end > 0,
    ensures
        text@ == match error {
            VariableConfigError::OutOfRange { key, value, range } => "value of `"@ + key@
                + "` is out of range (range: "@ + text::decimal(range.start as nat) + "-"@
                + text::decimal((range.end - 1) as nat) + ", got: "@ + text::decimal(value as nat)
                + ")"@,
            VariableConfigError::GreaterOrEqual { key1, value1, key2, value2 } => "value of `"@
                + key1@ + "` ("@ + text::decimal(value1 as nat)
                + ") is more than or equal to the value of `"@ + key2@ + "` ("@ + text::decimal(
                value2 as nat,
            ) + ")"@,
        },
{
}

/// The defaults, which are the same by themselves and as part of the settings.
pub proof fn law_defaults(config: VariableConfig, settings: Settings)
    requires
        call_ensures(<VariableConfig as Default>::default, (), config),
        call_ensures(<Settings as Default>::default, (), settings),
    ensures
        config == (VariableConfig {
            max_message_size: 10100,
            max_payload_size: 10000,
            max_players_per_address: 5,
            max_players_per_room: 10,
            max_rooms: 100,
            player_queue_capacity: 100,
            join_room_time_limit_secs: 5,
            ping_interval_secs: 10,
            response_time_limit_secs: 30,
            reconnect_wait_limit_secs: 5,
        }),
        settings.config == config,
        settings.max_message_count is None,
{
}

/// After an update, the new configuration is in effect, and it is known whether
/// that makes a difference.
pub proof fn law_updates_take_effect(
    config: &mut VariableConfig,
    new_config: VariableConfig,
    config_modified: bool,
    settings: &mut Settings,
    new_settings: Settings,
    settings_modified: bool,
)
    requires
        call_ensures(VariableConfig::update_if_changed, (config, new_config), config_modified),
        call_ensures(Settings::update_if_changed, (settings, new_settings), settings_modified),
    ensures
        *final(config) == new_config,
        config_modified <==> *old(config) != new_config,
        *final(settings) == new_settings,
        settings_modified <==> old(settings).config != new_settings.config
            || old(settings).max_message_count != new_settings.max_message_count,
{
}

/// The number of messages is only limited if the settings say so.
pub proof fn law_messages_are_limited_by_the_settings(settings: Settings, limit: usize)
    requires
        call_ensures(Settings::message_limit, (&settings,), limit),
    ensures
        settings.max_message_count matches Some(count) ==> limit == count,
        settings.max_message_count is None ==> limit == usize::MAX,
{
}

/// The configuration file holds all of the properties by their names, in order.
pub proof fn law_properties_are_written_in_order(settings: Settings)
    ensures
        ({
            let list = config::property_list(settings);
            let config = settings.config;
            &&& list[0].0 == "max_message_size"@ && list[0].1 == config.max_message_size as u64
            &&& list[1].0 == "max_payload_size"@ && list[1].1 == config.max_payload_size as u64
            &&& list[2].0 == "max_players_per_address"@ && list[2].1
                == config.max_players_per_address as u64
            &&& list[3].0 == "max_players_per_room"@ && list[3].1
                == config.max_players_per_room as u64
            &&& list[4].0 == "max_rooms"@ && list[4].1 == config.max_rooms as u64
            &&& list[5].0 == "player_queue_capacity"@ && list[5].1
                == config.player_queue_capacity as u64
            &&& list[6].0 == "join_room_time_limit_secs"@ && list[6].1
                == config.join_room_time_limit_secs
            &&& list[7].0 == "ping_interval_secs"@ && list[7].1 == config.ping_interval_secs
            &&& list[8].0 == "response_time_limit_secs"@ && list[8].1
                == config.response_time_limit_secs
            &&& list[9].0 == "reconnect_wait_limit_secs"@ && list[9].1
                == config.reconnect_wait_limit_secs
            &&& settings.max_message_count is None ==> list.len() == 10
            &&& settings.max_message_count matches Some(count) ==> list.len() == 11 && list[10].0
                == "max_message_count"@ && list[10].1 == count as u64
        }),
{
}

/// The text of the configuration file is put together from one line for each
/// property, with the comment in front of it.
pub proof fn law_files_are_written_line_by_line(
    properties: Seq<(Seq<char>, u64, Seq<char>)>,
    key: Seq<char>,
    value: u64,
    comment: Seq<char>,
)
    ensures
        config::file_text(Seq::empty()) == Seq::<char>::empty(),
        config::file_text(properties.push((key, value, comment))) == config::file_text(properties)
            + (comment.filter(|c: char| c != '\r') + key + " = "@ + text::decimal(value as nat)
            + "\n"@),
{
    assert(properties.push((key, value, comment)).drop_last() =~= properties);
}

/// The contents of the configuration file are the text of the properties. They
/// cannot be written exactly if a value is larger than the integers of the file,
/// and the error names the first such value.
pub proof fn law_files_hold_the_properties(
    settings: Settings,
    result: Result<String, ConfigWriteError>,
    i: int,
)
    requires
        call_ensures(config::config_file_contents, (&settings,), result),
        0 <= i < config::property_list(settings).len(),
    ensures
        result matches Ok(contents) ==> contents@ == config::file_text(
            config::property_list(settings),
        ),
        result is Ok ==> config::property_list(settings)[i].1 <= 9_223_372_036_854_775_807,
        result matches Err(error) ==> error.value > 9_223_372_036_854_775_807,
        result matches Err(error) ==> config::property_list(settings)[i].0 == error.key@
            ==> config::property_list(settings)[i].1 == error.value,
        result is Err && (forall|j: int|
            0 <= j < i ==> (#[trigger] config::property_list(settings)[j]).1
                <= 9_223_372_036_854_775_807) && config::property_list(settings)[i].1
            > 9_223_372_036_854_775_807 ==> result->Err_0.key@ == config::property_list(
            settings,
        )[i].0,
{
    let list = config::property_list(settings);
    config::law_property_keys_are_distinct(settings);
    assert(config::fits(list[i]) <==> list[i].1 <= 9_223_372_036_854_775_807);
    if let Err(error) = result {
        let k = choose|k: int|
            {
                &&& 0 <= k < list.len()
                &&& !config::fits(#[trigger] list[k])
                &&& forall|j: int| 0 <= j < k ==> config::fits(#[trigger] list[j])
                &&& error.key@ == list[k].0
                &&& error.value == list[k].1
            };
        if list[i].0 == error.key@ {
            assert(k == i);
        }
        if (forall|j: int|
            0 <= j < i ==> (#[trigger] list[j]).1 <= 9_223_372_036_854_775_807) && list[i].1
            > 9_223_372_036_854_775_807 {
            assert(!config::fits(list[i]));
            if k < i {
                assert(list[k].1 <= 9_223_372_036_854_775_807);
            }
            assert(k == i);
        }
    }
}

} // verus!
