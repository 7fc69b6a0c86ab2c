//! The server-status record family: a singular snapshot of world state, and
//! its decoder from the camelCase wire object.

use vstd::prelude::*;

use crate::json::{
    bool_field, get_field, i32_field, i64_field, spec_bool_field, spec_get, spec_i32_field,
    spec_i64_field, spec_str_field, str_eq, str_field, DecodeError, JsonValue,
};

verus! {

/// A snapshot of the game server's state at fetch time.
#[derive(Debug, PartialEq, Eq)]
pub struct Server {
    /// The server's current version.
    pub version: String,
    /// The moon's current phase.
    pub moon_phase: MoonPhase,
    /// Timestamp-related information for the server.
    pub timestamps: ServerTimestamps,
    /// Current weather status of the server.
    pub status: ServerStatus,
    /// Various statistics for the server.
    pub stats: ServerStats,
    /// Vote-party-related information.
    pub vote_party: VoteParty,
}

/// Timestamps the server reports.
#[derive(Debug, Clone, Copy, PartialEq, Eq, Structural)]
pub struct ServerTimestamps {
    /// Time the new day occurs at.
    pub new_day_time: i64,
    /// The time of day, in seconds, in the server's current timezone.
    pub server_time_of_day: i32,
}

/// The server's current weather.
#[derive(Debug, Clone, Copy, PartialEq, Eq, Structural)]
pub struct ServerStatus {
    /// Whether it is currently raining.
    pub has_storm: bool,
    /// Whether it is currently thundering.
    pub is_thundering: bool,
}

/// Aggregate counts the server reports.
#[derive(Debug, Clone, Copy, PartialEq, Eq, Structural)]
pub struct ServerStats {
    /// The amount of ticks that have passed within the current day.
    pub time: i64,
    /// The amount of ticks that have ever passed.
    pub full_time: i64,
    /// The total amount of players that can connect.
    pub max_players: i32,
    /// The current amount of online players.
    pub num_online_players: i32,
    /// The current amount of online players with no town.
    pub num_online_nomads: i32,
    /// The total amount of registered residents.
    pub num_residents: i32,
    /// The total amount of registered residents with no town.
    pub num_nomads: i32,
    /// The total amount of registered towns.
    pub num_towns: i32,
    /// The total amount of town blocks across all towns.
    pub num_town_blocks: i32,
    /// The total amount of registered nations.
    pub num_nations: i32,
    /// The total amount of quarters.
    pub num_quarters: i32,
    /// The total amount of cuboids within all quarters.
    pub num_cuboids: i32,
}

/// Vote-party progress.
#[derive(Debug, Clone, Copy, PartialEq, Eq, Structural)]
pub struct VoteParty {
    /// The total votes required to trigger a vote party.
    pub target: i32,
    /// The votes remaining before a vote party is triggered.
    pub num_remaining: i32,
}

/// The moon's phase, as the API names it.
#[derive(Debug, Clone, Copy, PartialEq, Eq, Structural)]
pub enum MoonPhase {
    FirstQuarter,
    FullMoon,
    LastQuarter,
    NewMoon,
    WaningCrescent,
    WaningGibbous,
    WaxingCrescent,
    WaxingGibbous,
}

/// The wire name of a moon phase.
pub open spec fn spec_moon_phase_text(p: MoonPhase) -> Seq<char> {
    match p {
        MoonPhase::FirstQuarter => "FIRST_QUARTER"@,
        MoonPhase::FullMoon => "FULL_MOON"@,
        MoonPhase::LastQuarter => "LAST_QUARTER"@,
        MoonPhase::NewMoon => "NEW_MOON"@,
        MoonPhase::WaningCrescent => "WANING_CRESCENT"@,
        MoonPhase::WaningGibbous => "WANING_GIBBOUS"@,
        MoonPhase::WaxingCrescent => "WAXING_CRESCENT"@,
        MoonPhase::WaxingGibbous => "WAXING_GIBBOUS"@,
    }
}

/// Whether a piece of text names a moon phase.
pub open spec fn spec_is_moon_phase_text(t: Seq<char>) -> bool {
    ||| t == "FIRST_QUARTER"@
    ||| t == "FULL_MOON"@
    ||| t == "LAST_QUARTER"@
    ||| t == "NEW_MOON"@
    ||| t == "WANING_CRESCENT"@
    ||| t == "WANING_GIBBOUS"@
    ||| t == "WAXING_CRESCENT"@
    ||| t == "WAXING_GIBBOUS"@
}

/// Decodes the wire name of a moon phase.
pub fn decode_moon_phase(s: &str) -> (r: Result<MoonPhase, DecodeError>)
    ensures
        r is Ok <==> spec_is_moon_phase_text(s@),
        (r matches Ok(p) ==> spec_moon_phase_text(p) == s@ && p == spec_moon_phase_of(s@)),
        (r matches Err(e) ==> e == DecodeError::UnknownVariant),
{
    if str_eq(s, "FIRST_QUARTER") {
        Ok(MoonPhase::FirstQuarter)
    } else if str_eq(s, "FULL_MOON") {
        Ok(MoonPhase::FullMoon)
    } else if str_eq(s, "LAST_QUARTER") {
        Ok(MoonPhase::LastQuarter)
    } else if str_eq(s, "NEW_MOON") {
        Ok(MoonPhase::NewMoon)
    } else if str_eq(s, "WANING_CRESCENT") {
        Ok(MoonPhase::WaningCrescent)
    } else if str_eq(s, "WANING_GIBBOUS") {
        Ok(MoonPhase::WaningGibbous)
    } else if str_eq(s, "WAXING_CRESCENT") {
        Ok(MoonPhase::WaxingCrescent)
    } else if str_eq(s, "WAXING_GIBBOUS") {
        Ok(MoonPhase::WaxingGibbous)
    } else {
        Err(DecodeError::UnknownVariant)
    }
}

/// What decoding the server's timestamp object yields; the fields are
/// examined in declaration order.
pub open spec fn spec_decode_server_timestamps(v: JsonValue) -> Result<
    ServerTimestamps,
    DecodeError,
> {
    match v {
        JsonValue::Object(fields) => match spec_i64_field(fields@, "newDayTime"@) {
            Err(e) => Err(e),
            Ok(new_day_time) => match spec_i32_field(fields@, "serverTimeOfDay"@) {
                Err(e) => Err(e),
                Ok(server_time_of_day) => Ok(
                    (ServerTimestamps { new_day_time, server_time_of_day }),
                ),
            },
        },
        _ => Err(DecodeError::NotAnObject),
    }
}

/// What decoding the server's weather object yields.
pub open spec fn spec_decode_server_status(v: JsonValue) -> Result<ServerStatus, DecodeError> {
    match v {
        JsonValue::Object(fields) => match spec_bool_field(fields@, "hasStorm"@) {
            Err(e) => Err(e),
            Ok(has_storm) => match spec_bool_field(fields@, "isThundering"@) {
                Err(e) => Err(e),
                Ok(is_thundering) => Ok((ServerStatus { has_storm, is_thundering })),
            },
        },
        _ => Err(DecodeError::NotAnObject),
    }
}

/// What decoding the server's statistics object yields.
pub open spec fn spec_decode_server_stats(v: JsonValue) -> Result<ServerStats, DecodeError> {
    match v {
        JsonValue::Object(fields) => match spec_i64_field(fields@, "time"@) {
            Err(e) => Err(e),
            Ok(time) => match spec_i64_field(fields@, "fullTime"@) {
                Err(e) => Err(e),
                Ok(full_time) => match spec_i32_field(fields@, "maxPlayers"@) {
                    Err(e) => Err(e),
                    Ok(max_players) => match spec_i32_field(fields@, "numOnlinePlayers"@) {
                        Err(e) => Err(e),
                        Ok(num_online_players) => match spec_i32_field(
                            fields@,
                            "numOnlineNomads"@,
                        ) {
                            Err(e) => Err(e),
                            Ok(num_online_nomads) => match spec_i32_field(
                                fields@,
                                "numResidents"@,
                            ) {
                                Err(e) => Err(e),
                                Ok(num_residents) => match spec_i32_field(fields@, "numNomads"@) {
                                    Err(e) => Err(e),
                                    Ok(num_nomads) => match spec_i32_field(fields@, "numTowns"@) {
                                        Err(e) => Err(e),
                                        Ok(num_towns) => match spec_i32_field(
                                            fields@,
                                            "numTownBlocks"@,
                                        ) {
                                            Err(e) => Err(e),
                                            Ok(num_town_blocks) => match spec_i32_field(
                                                fields@,
                                                "numNations"@,
                                            ) {
                                                Err(e) => Err(e),
                                                Ok(num_nations) => match spec_i32_field(
                                                    fields@,
                                                    "numQuarters"@,
                                                ) {
                                                    Err(e) => Err(e),
                                                    Ok(num_quarters) => match spec_i32_field(
                                                        fields@,
                                                        "numCuboids"@,
                                                    ) {
                                                        Err(e) => Err(e),
                                                        Ok(num_cuboids) => Ok(
                                                            (ServerStats {
                                                                time,
                                                                full_time,
                                                                max_players,
                                                                num_online_players,
                                                                num_online_nomads,
                                                                num_residents,
                                                                num_nomads,
                                                                num_towns,
                                                                num_town_blocks,
                                                                num_nations,
                                                                num_quarters,
                                                                num_cuboids,
                                                            }),
                                                        ),
                                                    },
                                                },
                                            },
                                        },
                                    },
                                },
                            },
                        },
                    },
                },
            },
        },
        _ => Err(DecodeError::NotAnObject),
    }
}

/// What decoding the vote-party object yields.
pub open spec fn spec_decode_vote_party(v: JsonValue) -> Result<VoteParty, DecodeError> {
    match v {
        JsonValue::Object(fields) => match spec_i32_field(fields@, "target"@) {
            Err(e) => Err(e),
            Ok(target) => match spec_i32_field(fields@, "numRemaining"@) {
                Err(e) => Err(e),
                Ok(num_remaining) => Ok((VoteParty { target, num_remaining })),
            },
        },
        _ => Err(DecodeError::NotAnObject),
    }
}

/// What decoding the full server snapshot yields; the fields are examined in
/// the order `version`, `moonPhase`, `timestamps`, `status`, `stats`,
/// `voteParty`.
pub open spec fn spec_decode_server(v: JsonValue) -> Result<Server, DecodeError> {
    match v {
        JsonValue::Object(fields) => match spec_str_field(fields@, "version"@) {
            Err(e) => Err(e),
            Ok(version) => match spec_str_field(fields@, "moonPhase"@) {
                Err(e) => Err(e),
                Ok(phase_text) => if !spec_is_moon_phase_text(phase_text@) {
                    Err(DecodeError::UnknownVariant)
                } else {
                    match spec_get(fields@, "timestamps"@) {
                        Option::None => Err(DecodeError::MissingField),
                        Option::Some(tv) => match spec_decode_server_timestamps(tv) {
                            Err(e) => Err(e),
                            Ok(timestamps) => match spec_get(fields@, "status"@) {
                                Option::None => Err(DecodeError::MissingField),
                                Option::Some(sv) => match spec_decode_server_status(sv) {
                                    Err(e) => Err(e),
                                    Ok(status) => match spec_get(fields@, "stats"@) {
                                        Option::None => Err(DecodeError::MissingField),
                                        Option::Some(stv) => match spec_decode_server_stats(stv) {
                                            Err(e) => Err(e),
                                            Ok(stats) => match spec_get(fields@, "voteParty"@) {
                                                Option::None => Err(DecodeError::MissingField),
                                                Option::Some(vpv) => match spec_decode_vote_party(
                                                    vpv,
                                                ) {
                                                    Err(e) => Err(e),
                                                    Ok(vote_party) => Ok(
                                                        (Server {
                                                            version,
                                                            moon_phase: spec_moon_phase_of(
                                                                phase_text@,
                                                            ),
                                                            timestamps,
                                                            status,
                                                            stats,
                                                            vote_party,
                                                        }),
                                                    ),
                                                },
                                            },
                                        },
                                    },
                                },
                            },
                        },
                    }
                },
            },
        },
        _ => Err(DecodeError::NotAnObject),
    }
}

/// The moon phase a wire name denotes; meaningful only for valid names.
pub open spec fn spec_moon_phase_of(t: Seq<char>) -> MoonPhase {
    if t == "FIRST_QUARTER"@ {
        MoonPhase::FirstQuarter
    } else if t == "FULL_MOON"@ {
        MoonPhase::FullMoon
    } else if t == "LAST_QUARTER"@ {
        MoonPhase::LastQuarter
    } else if t == "NEW_MOON"@ {
        MoonPhase::NewMoon
    } else if t == "WANING_CRESCENT"@ {
        MoonPhase::WaningCrescent
    } else if t == "WANING_GIBBOUS"@ {
        MoonPhase::WaningGibbous
    } else if t == "WAXING_CRESCENT"@ {
        MoonPhase::WaxingCrescent
    } else {
        MoonPhase::WaxingGibbous
    }
}

impl ServerTimestamps {
    /// Decodes the server's timestamp object.
    pub fn decode(v: &JsonValue) -> (r: Result<ServerTimestamps, DecodeError>)
        ensures
            (match spec_decode_server_timestamps(*v) {
                Ok(t) => r matches Ok(a) && a == t,
                Err(e) => r matches Err(a) && a == e,
            }),
    {
        match v {
            JsonValue::Object(fields) => {
                let new_day_time = match i64_field(fields, "newDayTime") {
                    Ok(n) => n,
                    Err(e) => {
                        return Err(e);
                    },
                };
                let server_time_of_day = match i32_field(fields, "serverTimeOfDay") {
                    Ok(n) => n,
                    Err(e) => {
                        return Err(e);
                    },
                };
                Ok(ServerTimestamps { new_day_time, server_time_of_day })
            },
            _ => Err(DecodeError::NotAnObject),
        }
    }
}

impl ServerStatus {
    /// Decodes the server's weather object.
    pub fn decode(v: &JsonValue) -> (r: Result<ServerStatus, DecodeError>)
        ensures
            (match spec_decode_server_status(*v) {
                Ok(t) => r matches Ok(a) && a == t,
                Err(e) => r matches Err(a) && a == e,
            }),
    {
        match v {
            JsonValue::Object(fields) => {
                let has_storm = match bool_field(fields, "hasStorm") {
                    Ok(b) => b,
                    Err(e) => {
                        return Err(e);
                    },
                };
                let is_thundering = match bool_field(fields, "isThundering") {
                    Ok(b) => b,
                    Err(e) => {
                        return Err(e);
                    },
                };
                Ok(ServerStatus { has_storm, is_thundering })
            },
            _ => Err(DecodeError::NotAnObject),
        }
    }
}

impl ServerStats {
    /// Decodes the server's statistics object.
    pub fn decode(v: &JsonValue) -> (r: Result<ServerStats, DecodeError>)
        ensures
            (match spec_decode_server_stats(*v) {
                Ok(t) => r matches Ok(a) && a == t,
                Err(e) => r matches Err(a) && a == e,
            }),
    {
        match v {
            JsonValue::Object(fields) => {
                let time = match i64_field(fields, "time") {
                    Ok(n) => n,
                    Err(e) => {
                        return Err(e);
                    },
                };
                let full_time = match i64_field(fields, "fullTime") {
                    Ok(n) => n,
                    Err(e) => {
                        return Err(e);
                    },
                };
                let max_players = match i32_field(fields, "maxPlayers") {
                    Ok(n) => n,
                    Err(e) => {
                        return Err(e);
                    },
                };
                let num_online_players = match i32_field(fields, "numOnlinePlayers") {
                    Ok(n) => n,
                    Err(e) => {
                        return Err(e);
                    },
                };
                let num_online_nomads = match i32_field(fields, "numOnlineNomads") {
                    Ok(n) => n,
                    Err(e) => {
                        return Err(e);
                    },
                };
                let num_residents = match i32_field(fields, "numResidents") {
                    Ok(n) => n,
                    Err(e) => {
                        return Err(e);
                    },
                };
                let num_nomads = match i32_field(fields, "numNomads") {
                    Ok(n) => n,
                    Err(e) => {
                        return Err(e);
                    },
                };
                let num_towns = match i32_field(fields, "numTowns") {
                    Ok(n) => n,
                    Err(e) => {
                        return Err(e);
                    },
                };
                let num_town_blocks = match i32_field(fields, "numTownBlocks") {
                    Ok(n) => n,
                    Err(e) => {
                        return Err(e);
                    },
                };
                let num_nations = match i32_field(fields, "numNations") {
                    Ok(n) => n,
                    Err(e) => {
                        return Err(e);
                    },
                };
                let num_quarters = match i32_field(fields, "numQuarters") {
                    Ok(n) => n,
                    Err(e) => {
                        return Err(e);
                    },
                };
                let num_cuboids = match i32_field(fields, "numCuboids") {
                    Ok(n) => n,
                    Err(e) => {
                        return Err(e);
                    },
                };
                Ok(ServerStats {
                    time,
                    full_time,
                    max_players,
                    num_online_players,
                    num_online_nomads,
                    num_residents,
                    num_nomads,
                    num_towns,
                    num_town_blocks,
                    num_nations,
                    num_quarters,
                    num_cuboids,
                })
            },
            _ => Err(DecodeError::NotAnObject),
        }
    }
}

impl VoteParty {
    /// Decodes the vote-party object.
    pub fn decode(v: &JsonValue) -> (r: Result<VoteParty, DecodeError>)
        ensures
            (match spec_decode_vote_party(*v) {
                Ok(t) => r matches Ok(a) && a == t,
                Err(e) => r matches Err(a) && a == e,
            }),
    {
        match v {
            JsonValue::Object(fields) => {
                let target = match i32_field(fields, "target") {
                    Ok(n) => n,
                    Err(e) => {
                        return Err(e);
                    },
                };
                let num_remaining = match i32_field(fields, "numRemaining") {
                    Ok(n) => n,
                    Err(e) => {
                        return Err(e);
                    },
                };
                Ok(VoteParty { target, num_remaining })
            },
            _ => Err(DecodeError::NotAnObject),
        }
    }
}

impl Server {
    /// Decodes the full server snapshot from its camelCase wire object.
    pub fn decode(v: &JsonValue) -> (r: Result<Server, DecodeError>)
        ensures
            (match spec_decode_server(*v) {
                Ok(t) => r matches Ok(a) && a == t,
                Err(e) => r matches Err(a) && a == e,
            }),
    {
        match v {
            JsonValue::Object(fields) => {
                let version = match str_field(fields, "version") {
                    Ok(s) => s,
                    Err(e) => {
                        return Err(e);
                    },
                };
                let phase_text = match str_field(fields, "moonPhase") {
                    Ok(s) => s,
                    Err(e) => {
                        return Err(e);
                    },
                };
                let moon_phase = match decode_moon_phase(phase_text.as_str()) {
                    Ok(p) => p,
                    Err(e) => {
                        return Err(e);
                    },
                };
                let timestamps = match get_field(fields, "timestamps") {
                    Option::None => {
                        return Err(DecodeError::MissingField);
                    },
                    Option::Some(tv) => match ServerTimestamps::decode(tv) {
                        Ok(t) => t,
                        Err(e) => {
                            return Err(e);
                        },
                    },
                };
                let status = match get_field(fields, "status") {
                    Option::None => {
                        return Err(DecodeError::MissingField);
                    },
                    Option::Some(sv) => match ServerStatus::decode(sv) {
                        Ok(t) => t,
                        Err(e) => {
                            return Err(e);
                        },
                    },
                };
                let stats = match get_field(fields, "stats") {
                    Option::None => {
                        return Err(DecodeError::MissingField);
                    },
                    Option::Some(sv) => match ServerStats::decode(sv) {
                        Ok(t) => t,
                        Err(e) => {
                            return Err(e);
                        },
                    },
                };
                let vote_party = match get_field(fields, "voteParty") {
                    Option::None => {
                        return Err(DecodeError::MissingField);
                    },
                    Option::Some(vv) => match VoteParty::decode(vv) {
                        Ok(t) => t,
                        Err(e) => {
                            return Err(e);
                        },
                    },
                };
                proof {
                    assert(spec_moon_phase_of(phase_text@) == moon_phase);
                }
                Ok(Server { version, moon_phase, timestamps, status, stats, vote_party })
            },
            _ => Err(DecodeError::NotAnObject),
        }
    }
}

} // verus!
