//! What comes back from the service: how the status of an answer decides what
//! its body is read as, and the errors that a request can end in.

use crate::gear::Gear;
use crate::mythic_plus::{KeystoneRun, MythicPlusRanks, MythicPlusScores};
use crate::player::{Class, Faction, Gender, Guild, Race, Role, Spec};
use crate::raid::RaidProgression;
use crate::region::Region;
use vstd::prelude::*;
use vstd::string::*;

verus! {

/// The ways in which a request can fail.
#[derive(Clone, Debug, PartialEq, Eq)]
pub enum Error {
    /// The request could not be carried out, or the body of its answer could not
    /// be read as what the status promised. Holds the transport's description.
    Http(String),
    /// The service answered with an error of its own.
    Api {
        /// The status code that the service reports.
        status: u64,
        /// The short name of the error.
        error: String,
        /// What went wrong, in words.
        message: String,
    },
    /// The answer's status is neither a success nor a client error.
    UnexpectedStatus(u16),
    /// A field was selected that cannot be asked for yet.
    NotImplemented,
}

impl Error {
    /// What the error says of itself.
    pub open spec fn description(self) -> Seq<char> {
        match self {
            Error::Http(_) => "http request failed"@,
            Error::Api { status, error, message } => "api error: "@ + message@,
            Error::UnexpectedStatus(_) => "unexpected status code"@,
            Error::NotImplemented => "not implemented"@,
        }
    }

    /// What the error says of itself.
    pub fn message(&self) -> (res: String)
        ensures
            res@ == self.description(),
    {
        match self {
            Error::Http(_) => String::from_str("http request failed"),
            Error::Api { status, error, message } => {
                let mut out = String::from_str("api error: ");
                out.append(message.as_str());
                out
            },
            Error::UnexpectedStatus(_) => String::from_str("unexpected status code"),
            Error::NotImplemented => String::from_str("not implemented"),
        }
    }
}

/// A character's profile. The optional parts are there where the request asked for them.
#[derive(Clone, Debug, PartialEq, Eq)]
pub struct CharacterDetails {
    /// The character's name.
    pub name: String,
    /// The character's race.
    pub race: Race,
    /// The character's class.
    pub class: Class,
    /// The specialization that the character plays.
    pub active_spec_name: Spec,
    /// The role of that specialization.
    pub active_spec_role: Role,
    /// The character's gender.
    pub gender: Gender,
    /// The character's faction.
    pub faction: Faction,
    /// The region of the character's realm.
    pub region: Region,
    /// The character's realm.
    pub realm: String,
    /// Where the character's profile can be looked at.
    pub profile_url: String,
    /// The character's achievement points.
    pub achievement_points: u64,
    /// The character's honorable kills.
    pub honorable_kills: u64,
    /// Where a small picture of the character is.
    pub thumbnail_url: String,
    /// What the character wears.
    pub gear: Option<Gear>,
    /// The guild that the character is in.
    pub guild: Option<Guild>,
    /// The character's raid progression.
    pub raid_progression: Option<RaidProgression>,
    /// The rankings of the running season.
    pub mythic_plus_ranks: Option<MythicPlusRanks>,
    /// The scores of the seasons asked for.
    pub mythic_plus_scores_by_season: Option<Vec<MythicPlusScores>>,
    /// The most recent runs.
    pub mythic_plus_recent_runs: Option<Vec<KeystoneRun>>,
    /// The runs with the highest scores.
    pub mythic_plus_best_runs: Option<Vec<KeystoneRun>>,
    /// The runs of the highest level.
    pub mythic_plus_highest_level_runs: Option<Vec<KeystoneRun>>,
    /// The runs of the highest level of the running week.
    pub mythic_plus_weekly_highest_level_runs: Option<Vec<KeystoneRun>>,
    /// The runs of the highest level of the week before.
    pub mythic_plus_previous_weekly_highest_level_runs: Option<Vec<KeystoneRun>>,
    /// The rankings of the season before.
    pub previous_mythic_plus_ranks: Option<MythicPlusRanks>,
}

/// What the service says when it refuses a request.
#[derive(Clone, Debug, PartialEq, Eq)]
pub struct ApiError {
    /// The status code, sent under the name `statusCode`.
    pub status_code: u64,
    /// The short name of the error.
    pub error: String,
    /// What went wrong, in words.
    pub message: String,
}

/// What the body of an answer is to be read as.
#[derive(Clone, Copy, Debug, PartialEq, Eq, Hash, Structural)]
pub enum BodyKind {
    /// The service's report of an error.
    ApiError,
    /// A character's profile.
    CharacterDetails,
}

/// Whether a status code tells of a mistake in the request: 400 to 499.
pub open spec fn is_client_error(status: u16) -> bool {
    400 <= status < 500
}

/// Whether a status code tells of success: 200 to 299.
pub open spec fn is_success(status: u16) -> bool {
    200 <= status < 300
}

/// What the body of an answer with the given status is to be read as: the
/// report of an error after a client error, a profile after a success. Any
/// other status is not expected of the service and ends the request.
pub fn body_kind(status: u16) -> (res: Result<BodyKind, Error>)
    ensures
        is_client_error(status) ==> res == Ok::<BodyKind, Error>(BodyKind::ApiError),
        is_success(status) ==> res == Ok::<BodyKind, Error>(BodyKind::CharacterDetails),
        !is_client_error(status) && !is_success(status) ==> res == Err::<BodyKind, Error>(
            Error::UnexpectedStatus(status),
        ),
{
    if 400 <= status && status < 500 {
        Ok(BodyKind::ApiError)
    } else if 200 <= status && status < 300 {
        Ok(BodyKind::CharacterDetails)
    } else {
        Err(Error::UnexpectedStatus(status))
    }
}

/// The error that a request ends in when the service reports one.
pub fn api_failure(report: ApiError) -> (res: Error)
    ensures
        res == (Error::Api {
            status: report.status_code,
            error: report.error,
            message: report.message,
        }),
{
    Error::Api { status: report.status_code, error: report.error, message: report.message }
}

/// How a request ends after a client error: in the error that the service
/// reports, or, where the body could not be read as such a report, in the
/// failure to read it.
pub fn client_error_outcome(decoded: Result<ApiError, String>) -> (res: Error)
    ensures
        res == match decoded {
            Ok(report) => Error::Api {
                status: report.status_code,
                error: report.error,
                message: report.message,
            },
            Err(failure) => Error::Http(failure),
        },
{
    match decoded {
        Ok(report) => api_failure(report),
        Err(failure) => Error::Http(failure),
    }
}

/// How a request ends after a success: in the profile, or, where the body
/// could not be read as one, in the failure to read it.
pub fn success_outcome(decoded: Result<CharacterDetails, String>) -> (res: Result<
    CharacterDetails,
    Error,
>)
    ensures
        res == match decoded {
            Ok(details) => Ok::<CharacterDetails, Error>(details),
            Err(failure) => Err::<CharacterDetails, Error>(Error::Http(failure)),
        },
{
    match decoded {
        Ok(details) => Ok(details),
        Err(failure) => Err(Error::Http(failure)),
    }
}

} // verus!
