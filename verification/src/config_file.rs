//! What the configuration file says to whoever reads it.
//!
//! The configuration file is a TOML document that consists of comments, blank
//! lines, and lines that give a key an integer. This module states how such a
//! document is read, and that the file that is written for some settings is read
//! as just these settings.

use crate::config::Settings;
use crate::{config, text};
use vstd::prelude::*;

verus! {

/// The key and the integer of a line of a TOML document, if it is a key without
/// quotes and an integer that is not negative, with an equals sign between two
/// spaces in between.
///
/// The integers of a TOML document have 64 bits with a sign, and do not start with
/// a zero unless that is all.
pub open spec fn line_property(line: Seq<char>) -> Option<(Seq<char>, nat)> {
    match text::split_parts(line, ' ') {
        Some((key, rest)) => {
            let digits = rest.skip(2);
            if config::is_bare_key(key) && rest.len() > 2 && rest[0] == '=' && rest[1] == ' '
                && text::all_digits(digits) && (digits.len() == 1 || digits[0] != '0')
                && text::digits_value(digits) <= i64::MAX {
                Some((key, text::digits_value(digits)))
            } else {
                None
            }
        },
        None => None,
    }
}

/// The keys and the integers of a TOML document, in order, if it consists of
/// comments, blank lines, and lines that give a key an integer.
pub open spec fn read_properties(contents: Seq<char>) -> Option<Seq<(Seq<char>, nat)>>
    decreases contents.len(),
{
    if contents.len() == 0 {
        Some(Seq::empty())
    } else {
        match text::split_parts(contents, '\n') {
            Some((line, rest)) => {
                proof {
                    contents.index_of_first_ensures('\n');
                }
                match read_properties(rest) {
                    Some(properties) => if line.len() == 0 || line[0] == '#' {
                        Some(properties)
                    } else {
                        match line_property(line) {
                            Some(property) => Some(seq![property] + properties),
                            None => None,
                        }
                    },
                    None => None,
                }
            },
            None => None,
        }
    }
}

/// The integer of the given key, if there is one.
pub open spec fn find_value(properties: Seq<(Seq<char>, nat)>, key: Seq<char>) -> Option<nat> {
    if exists|i: int| 0 <= i < properties.len() && (#[trigger] properties[i]).0 == key {
        let i = choose|i: int| 0 <= i < properties.len() && (#[trigger] properties[i]).0 == key;
        Some(properties[i].1)
    } else {
        None
    }
}

/// Whether the keys and integers of a TOML document stand for the given settings:
/// there is a key for every property, with the value of the property. The maximum
/// number of messages can be left out, which means that there is none.
pub open spec fn stands_for(properties: Seq<(Seq<char>, nat)>, settings: Settings) -> bool {
    let config = settings.config;
    &&& find_value(properties, "max_message_size"@) == Some(config.max_message_size as nat)
    &&& find_value(properties, "max_payload_size"@) == Some(config.max_payload_size as nat)
    &&& find_value(properties, "max_players_per_address"@) == Some(config.max_players_per_address as nat)
    &&& find_value(properties, "max_players_per_room"@) == Some(config.max_players_per_room as nat)
    &&& find_value(properties, "max_rooms"@) == Some(config.max_rooms as nat)
    &&& find_value(properties, "player_queue_capacity"@) == Some(config.player_queue_capacity as nat)
    &&& find_value(properties, "join_room_time_limit_secs"@) == Some(config.join_room_time_limit_secs as nat)
    &&& find_value(properties, "ping_interval_secs"@) == Some(config.ping_interval_secs as nat)
    &&& find_value(properties, "response_time_limit_secs"@) == Some(config.response_time_limit_secs as nat)
    &&& find_value(properties, "reconnect_wait_limit_secs"@) == Some(config.reconnect_wait_limit_secs as nat)
    &&& find_value(properties, "max_message_count"@) == match settings.max_message_count {
        Some(count) => Some(count as nat),
        None => None,
    }
}

/// Whether the text consists of comments and blank lines: every line of it is empty
/// or starts with a number sign, and the last one has an end.
pub open spec fn is_comment(comment: Seq<char>) -> bool {
    &&& comment.len() > 0 ==> comment[comment.len() - 1] == '\n'
    &&& forall|i: int|
        0 <= i < comment.len() && (i == 0 || comment[i - 1] == '\n') ==> #[trigger] comment[i]
            == '#' || comment[i] == '\n'
}

/// Text that has no carriage returns in it stays as it is without them.
proof fn lemma_without_returns(s: Seq<char>)
    requires
        forall|i: int| 0 <= i < s.len() ==> #[trigger] s[i] != '\r',
    ensures
        config::without_returns(s) == s,
    decreases s.len(),
{
    reveal(Seq::filter);
    if s.len() > 0 {
        assert forall|i: int| 0 <= i < s.drop_last().len() implies #[trigger] s.drop_last()[i]
            != '\r' by {
            assert(s.drop_last()[i] == s[i]);
        }
        lemma_without_returns(s.drop_last());
        assert(s.last() == s[s.len() - 1]);
        assert(s =~= s.drop_last().push(s.last()));
    }
}

/// Whether the text can stand above a property: it consists of comments and blank
/// lines, of which there is at least one comment, and it has no carriage returns.
pub open spec fn is_proper_comment(comment: Seq<char>) -> bool {
    &&& is_comment(comment)
    &&& comment.contains('#')
    &&& forall|i: int| 0 <= i < comment.len() ==> #[trigger] comment[i] != '\r'
}

/// The comment above the property `max_message_size` is one.
proof fn lemma_max_message_size_comment()
    ensures
        is_proper_comment(config::MAX_MESSAGE_SIZE_COMMENT@),
{
    reveal_strlit("# Tabletop Club Lobby Server - Configuration File
#
# This file is used to configure the lobby server, even while it is running.
# To use this configuration file, pass it as an argument when running the server:
#
#    ./ttc-lobby -c server.toml
#
# The server will then periodically check the given file path for updates to the
# configuration. Please wait up to thirty seconds for the changes to take effect.

# The maximum length of client messages in bytes.
# NOTE: Changing this property does not affect existing clients.\n");
    assert(config::MAX_MESSAGE_SIZE_COMMENT@[0] == '#');
}

/// The comment above the property `max_payload_size` is one.
proof fn lemma_max_payload_size_comment()
    ensures
        is_proper_comment(config::MAX_PAYLOAD_SIZE_COMMENT@),
{
    reveal_strlit("
# The maximum length of client message payloads in bytes.
# NOTE: Changing this property does not affect existing clients.
# NOTE: This must be smaller than 'max_message_size', as the message contains
# the payload.\n");
    assert(config::MAX_PAYLOAD_SIZE_COMMENT@[1] == '#');
}

/// The comment above the property `max_players_per_address` is one.
proof fn lemma_max_players_per_address_comment()
    ensures
        is_proper_comment(config::MAX_PLAYERS_PER_ADDRESS_COMMENT@),
{
    reveal_strlit("
# The maximum number of clients allowed per remote address.\n");
    assert(config::MAX_PLAYERS_PER_ADDRESS_COMMENT@[1] == '#');
}

/// The comment above the property `max_players_per_room` is one.
proof fn lemma_max_players_per_room_comment()
    ensures
        is_proper_comment(config::MAX_PLAYERS_PER_ROOM_COMMENT@),
{
    reveal_strlit("
# The maximum number of players allowed in each room.\n");
    assert(config::MAX_PLAYERS_PER_ROOM_COMMENT@[1] == '#');
}

/// The comment above the property `max_rooms` is one.
proof fn lemma_max_rooms_comment()
    ensures
        is_proper_comment(config::MAX_ROOMS_COMMENT@),
{
    reveal_strlit("
# The maximum number of active rooms at any given time.
# NOTE: This property, along with 'max_players_per_room', determines the maximum
# number of active players.\n");
    assert(config::MAX_ROOMS_COMMENT@[1] == '#');
}

/// The comment above the property `player_queue_capacity` is one.
proof fn lemma_player_queue_capacity_comment()
    ensures
        is_proper_comment(config::PLAYER_QUEUE_CAPACITY_COMMENT@),
{
    reveal_strlit("
# The maximum number of players that can be waiting to create or join a room.\n");
    assert(config::PLAYER_QUEUE_CAPACITY_COMMENT@[1] == '#');
}

/// The comment above the property `join_room_time_limit_secs` is one.
proof fn lemma_join_room_time_limit_secs_comment()
    ensures
        is_proper_comment(config::JOIN_ROOM_TIME_LIMIT_SECS_COMMENT@),
{
    reveal_strlit("
# How long the server will give players to create or join a room, in seconds.
# NOTE: The time limit should be relatively short, as no ping messages are sent
# by the server while it is waiting for the player's request.\n");
    assert(config::JOIN_ROOM_TIME_LIMIT_SECS_COMMENT@[1] == '#');
}

/// The comment above the property `ping_interval_secs` is one.
proof fn lemma_ping_interval_secs_comment()
    ensures
        is_proper_comment(config::PING_INTERVAL_SECS_COMMENT@),
{
    reveal_strlit("
# How often the server will send ping packets to players, in seconds.\n");
    assert(config::PING_INTERVAL_SECS_COMMENT@[1] == '#');
}

/// The comment above the property `response_time_limit_secs` is one.
proof fn lemma_response_time_limit_secs_comment()
    ensures
        is_proper_comment(config::RESPONSE_TIME_LIMIT_SECS_COMMENT@),
{
    reveal_strlit("
# How long the server will wait for a player's response before it times out, in seconds.
# NOTE: This must be longer than 'ping_interval_secs', as the players need
# enough time to send pong packets.\n");
    assert(config::RESPONSE_TIME_LIMIT_SECS_COMMENT@[1] == '#');
}

/// The comment above the property `reconnect_wait_limit_secs` is one.
proof fn lemma_reconnect_wait_limit_secs_comment()
    ensures
        is_proper_comment(config::RECONNECT_WAIT_LIMIT_SECS_COMMENT@),
{
    reveal_strlit("
# How long players need to wait after their previous connection before being
# able to connect again, in seconds.\n");
    assert(config::RECONNECT_WAIT_LIMIT_SECS_COMMENT@[1] == '#');
}

/// The comment above the property `max_message_count` is one.
proof fn lemma_max_message_count_comment()
    ensures
        is_proper_comment(config::MAX_MESSAGE_COUNT_COMMENT@),
{
    reveal_strlit("
# The maximum number of messages that a player can send to each other player.\n");
    assert(config::MAX_MESSAGE_COUNT_COMMENT@[1] == '#');
}

/// Every property in the configuration file has a comment above it.
pub proof fn law_every_property_has_a_comment(settings: Settings, i: int)
    requires
        0 <= i < config::property_list(settings).len(),
    ensures
        is_proper_comment(config::property_list(settings)[i].2),
        config::without_returns(config::property_list(settings)[i].2) == config::property_list(
            settings,
        )[i].2,
{
    lemma_max_message_size_comment();
    lemma_max_payload_size_comment();
    lemma_max_players_per_address_comment();
    lemma_max_players_per_room_comment();
    lemma_max_rooms_comment();
    lemma_player_queue_capacity_comment();
    lemma_join_room_time_limit_secs_comment();
    lemma_ping_interval_secs_comment();
    lemma_response_time_limit_secs_comment();
    lemma_reconnect_wait_limit_secs_comment();
    lemma_max_message_count_comment();
    lemma_without_returns(config::property_list(settings)[i].2);
}

/// Comments and blank lines do not make a difference to what is read after them.
proof fn lemma_comments_are_skipped(comment: Seq<char>, rest: Seq<char>)
    requires
        is_comment(comment),
    ensures
        read_properties(comment + rest) == read_properties(rest),
    decreases comment.len(),
{
    if comment.len() == 0 {
        assert(comment + rest =~= rest);
    } else {
        comment.index_of_first_ensures('\n');
        assert(comment[comment.len() - 1] == '\n');
        let end = comment.index_of_first('\n').unwrap();
        let line = comment.take(end);
        let others = comment.skip(end + 1);
        if line.contains('\n') {
            let i = choose|i: int| 0 <= i < line.len() && line[i] == '\n';
            assert(comment[i] == '\n');
        }
        assert(comment + rest =~= line + seq!['\n'] + (others + rest));
        text::lemma_split_joined(line, '\n', others + rest);
        assert(line.len() > 0 ==> line[0] == comment[0]);
        assert(is_comment(others)) by {
            if others.len() > 0 {
                assert(others[others.len() - 1] == comment[comment.len() - 1]);
            }
            assert forall|i: int|
                0 <= i < others.len() && (i == 0 || others[i - 1] == '\n') implies #[trigger] others[i]
                == '#' || others[i] == '\n' by {
                assert(others[i] == comment[end + 1 + i]);
                if i == 0 {
                    assert(comment[end] == '\n');
                } else {
                    assert(others[i - 1] == comment[end + i]);
                }
            }
        }
        lemma_comments_are_skipped(others, rest);
        if read_properties(others + rest) is None {
            assert(read_properties(comment + rest) is None);
        }
    }
}

/// The decimal representation of a number does not start with a zero, unless that
/// is all.
proof fn lemma_no_leading_zero(n: nat)
    ensures
        text::decimal(n).len() == 1 || text::decimal(n)[0] != '0',
    decreases n,
{
    if n >= 10 {
        lemma_no_leading_zero(n / 10);
        text::lemma_decimal_value(n / 10);
        assert(text::decimal(n)[0] == text::decimal(n / 10)[0]);
        if n / 10 < 10 {
            assert(text::decimal(n / 10)[0] == text::digit_char((n / 10) as int));
        } else {
            text::lemma_decimal_value(n / 10 / 10);
            assert(text::decimal(n / 10).len() > 1);
        }
    }
}

/// A line that gives a key an integer is read as just that.
proof fn lemma_line_is_read(key: Seq<char>, value: nat)
    requires
        config::is_bare_key(key),
        value <= i64::MAX,
    ensures
        ({
            let line = key + " = "@ + text::decimal(value);
            &&& line_property(line) == Some((key, value))
            &&& !line.contains('\n')
            &&& line.len() > 0
            &&& line[0] != '#'
        }),
{
    reveal_strlit(" = ");
    text::lemma_decimal_value(value);
    lemma_no_leading_zero(value);
    let digits = text::decimal(value);
    let line = key + " = "@ + digits;
    let rest = seq!['=', ' '] + digits;
    if key.contains(' ') {
        let i = choose|i: int| 0 <= i < key.len() && key[i] == ' ';
        assert(config::is_bare_char(key[i]));
    }
    assert(line =~= key + seq![' '] + rest);
    text::lemma_split_joined(key, ' ', rest);
    assert(rest.skip(2) =~= digits);
    if line.contains('\n') {
        let i = choose|i: int| 0 <= i < line.len() && line[i] == '\n';
        if i < key.len() {
            assert(config::is_bare_char(key[i]));
        } else if i >= key.len() + 3 {
            assert(text::is_digit(digits[i - key.len() - 3]));
        }
    }
    assert(config::is_bare_char(key[0]));
}

/// A property that is written with its comment above it is read as the property.
proof fn lemma_entry_is_read(comment: Seq<char>, key: Seq<char>, value: nat, rest: Seq<char>)
    requires
        is_comment(config::without_returns(comment)),
        config::is_bare_key(key),
        value <= i64::MAX,
        read_properties(rest) is Some,
    ensures
        read_properties(config::entry_text(comment, key, value) + rest) == Some(
            seq![(key, value)] + read_properties(rest).unwrap(),
        ),
{
    reveal_strlit("\n");
    let above = config::without_returns(comment);
    let line = key + " = "@ + text::decimal(value);
    let below = line + seq!['\n'] + rest;
    lemma_line_is_read(key, value);
    text::lemma_split_joined(line, '\n', rest);
    assert(config::entry_text(comment, key, value) + rest =~= above + below);
    lemma_comments_are_skipped(above, below);
}

/// The text of properties starts with that of the first one.
proof fn lemma_file_text_starts(properties: Seq<(Seq<char>, u64, Seq<char>)>)
    requires
        properties.len() > 0,
    ensures
        config::file_text(properties) == config::entry_text(
            properties[0].2,
            properties[0].0,
            properties[0].1 as nat,
        ) + config::file_text(properties.skip(1)),
    decreases properties.len(),
{
    let (key, value, comment) = properties.last();
    let line = config::entry_text(comment, key, value as nat);
    if properties.len() == 1 {
        assert(properties.drop_last() =~= properties.skip(1));
        assert(config::file_text(properties) =~= line + config::file_text(properties.skip(1)));
    } else {
        let shorter = properties.drop_last();
        lemma_file_text_starts(shorter);
        assert(shorter.skip(1) =~= properties.skip(1).drop_last());
        assert(properties.skip(1).last() == properties.last());
        let first = config::entry_text(
            properties[0].2,
            properties[0].0,
            properties[0].1 as nat,
        );
        assert(config::file_text(properties) =~= first + config::file_text(properties.skip(1)));
    }
}

/// The keys and the values of properties.
pub open spec fn keys_and_values(properties: Seq<(Seq<char>, u64, Seq<char>)>) -> Seq<
    (Seq<char>, nat),
> {
    properties.map_values(
        |property: (Seq<char>, u64, Seq<char>)| (property.0, property.1 as nat),
    )
}

/// The text of properties is read as these properties.
proof fn lemma_text_is_read(properties: Seq<(Seq<char>, u64, Seq<char>)>)
    requires
        forall|i: int|
            0 <= i < properties.len() ==> {
                &&& config::fits(#[trigger] properties[i])
                &&& config::is_bare_key(properties[i].0)
                &&& is_comment(config::without_returns(properties[i].2))
            },
    ensures
        read_properties(config::file_text(properties)) == Some(keys_and_values(properties)),
    decreases properties.len(),
{
    if properties.len() == 0 {
        assert(keys_and_values(properties) =~= Seq::<(Seq<char>, nat)>::empty());
    } else {
        let others = properties.skip(1);
        assert forall|i: int| 0 <= i < others.len() implies {
            &&& config::fits(#[trigger] others[i])
            &&& config::is_bare_key(others[i].0)
            &&& is_comment(config::without_returns(others[i].2))
        } by {
            assert(others[i] == properties[i + 1]);
        }
        lemma_text_is_read(others);
        lemma_file_text_starts(properties);
        let (key, value, comment) = properties[0];
        lemma_entry_is_read(comment, key, value as nat, config::file_text(others));
        assert(seq![(key, value as nat)] + keys_and_values(others) =~= keys_and_values(properties));
    }
}

/// Among properties with different keys, the value of a key is found.
proof fn lemma_value_is_found(properties: Seq<(Seq<char>, u64, Seq<char>)>, i: int)
    requires
        0 <= i < properties.len(),
        forall|a: int, b: int|
            0 <= a < b < properties.len() ==> (#[trigger] properties[a]).0 != (
            #[trigger] properties[b]).0,
    ensures
        find_value(keys_and_values(properties), properties[i].0) == Some(properties[i].1 as nat),
{
    let read = keys_and_values(properties);
    assert(read[i].0 == properties[i].0);
    let k = choose|k: int| 0 <= k < read.len() && (#[trigger] read[k]).0 == properties[i].0;
    assert(properties[k].0 == properties[i].0);
}

/// The properties in the configuration file stand for the settings.
proof fn lemma_properties_stand_for_settings(settings: Settings)
    ensures
        stands_for(keys_and_values(config::property_list(settings)), settings),
{
    let list = config::property_list(settings);
    config::law_property_keys_are_distinct(settings);
    lemma_value_is_found(list, 0);
    lemma_value_is_found(list, 1);
    lemma_value_is_found(list, 2);
    lemma_value_is_found(list, 3);
    lemma_value_is_found(list, 4);
    lemma_value_is_found(list, 5);
    lemma_value_is_found(list, 6);
    lemma_value_is_found(list, 7);
    lemma_value_is_found(list, 8);
    lemma_value_is_found(list, 9);
    match settings.max_message_count {
        Some(_) => {
            lemma_value_is_found(list, 10);
        },
        None => {
            let limited = Settings { max_message_count: Some(0), ..settings };
            let longer = config::property_list(limited);
            config::law_property_keys_are_distinct(limited);
            let read = keys_and_values(list);
            assert forall|i: int| 0 <= i < read.len() implies (#[trigger] read[i]).0
                != "max_message_count"@ by {
                assert(longer[i] == list[i]);
                assert(longer[i].0 != longer[10].0);
            }
        },
    }
}

/// The configuration file that is written for some settings is read back as these
/// settings, and as no others. The settings do not have to be valid.
pub proof fn law_written_file_reads_back(settings: Settings, other: Settings)
    requires
        forall|i: int|
            0 <= i < config::property_list(settings).len() ==> config::fits(
                #[trigger] config::property_list(settings)[i],
            ),
    ensures
        read_properties(config::file_text(config::property_list(settings))) matches Some(
            properties,
        ) && stands_for(properties, settings) && (stands_for(properties, other) ==> other
            == settings),
{
    let list = config::property_list(settings);
    config::lemma_keys_are_bare(settings);
    assert forall|i: int| 0 <= i < list.len() implies {
        &&& config::fits(#[trigger] list[i])
        &&& config::is_bare_key(list[i].0)
        &&& is_comment(config::without_returns(list[i].2))
    } by {
        law_every_property_has_a_comment(settings, i);
    }
    lemma_text_is_read(list);
    lemma_properties_stand_for_settings(settings);
}

/// The text of the configuration file determines the settings: if the same text is
/// written for two settings, then they are the same settings.
pub proof fn law_file_text_determines_settings(a: Settings, b: Settings)
    requires
        forall|i: int|
            0 <= i < config::property_list(a).len() ==> config::fits(
                #[trigger] config::property_list(a)[i],
            ),
        forall|i: int|
            0 <= i < config::property_list(b).len() ==> config::fits(
                #[trigger] config::property_list(b)[i],
            ),
        config::file_text(config::property_list(a)) == config::file_text(config::property_list(b)),
    ensures
        a == b,
{
    law_written_file_reads_back(a, b);
    law_written_file_reads_back(b, a);
}

} // verus!
