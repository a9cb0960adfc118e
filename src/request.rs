use vstd::prelude::*;
use vstd::string::*;
use crate::rate::{Rate, rate_named};

verus! {

/// Whether the speech service's fixed vocabulary of voices holds `name`.
pub uninterp spec fn is_service_voice(name: Seq<char>) -> bool;

/// Relies on `aws_sdk_polly::types::VoiceId::try_parse`, which returns `Ok`
/// exactly for the names of the service's known voices.
#[verifier::external_body]
fn service_knows_voice(name: &str) -> (r: bool)
    ensures
        r == is_service_voice(name@),
{
    aws_sdk_polly::types::VoiceId::try_parse(name).is_ok()
}

/// A voice identifier drawn from the speech service's vocabulary.
#[derive(Debug, PartialEq, Eq)]
pub struct Voice {
    name: String,
}

impl View for Voice {
    type V = Seq<char>;

    closed spec fn view(&self) -> Seq<char> {
        self.name@
    }
}

impl Voice {
    #[verifier::type_invariant]
    spec fn known(&self) -> bool {
        is_service_voice(self.name@)
    }

    /// The voice named `name`, if the service knows it.
    pub fn parse(name: &str) -> (r: Option<Voice>)
        ensures
            r is Some <==> is_service_voice(name@),
            r matches Some(voice) ==> voice@ == name@,
    {
        if service_knows_voice(name) {
            Some(Voice { name: String::from_str(name) })
        } else {
            None
        }
    }

    /// The voice's name as the service spells it.
    pub fn name(&self) -> (r: &str)
        ensures
            r@ == self@,
            is_service_voice(r@),
    {
        proof {
            use_type_invariant(self);
        }
        self.name.as_str()
    }
}

/// Why the command-line input could not be turned into a request.
#[derive(Debug, PartialEq, Eq)]
pub enum ArgumentError {
    /// The voice name is not one the service knows.
    UnknownVoice(String),
    /// The rate is none of `x-slow`, `slow`, `medium`, `fast`, `x-fast`.
    UnknownRate(String),
}

/// `output.mp3`, the output path used when none is given.
pub open spec fn default_output_path() -> Seq<char> {
    seq!['o', 'u', 't', 'p', 'u', 't', '.', 'm', 'p', '3']
}

/// One synthesis request, fully resolved from the command line.
#[derive(Debug, PartialEq, Eq)]
pub struct SpeechRequest {
    /// The text to speak, embedded in the markup as it is.
    pub text: String,
    pub voice: Voice,
    pub rate: Rate,
    /// Where the audio goes; an existing file there is overwritten.
    pub output_path: String,
    /// The region asked for explicitly, if any.
    pub region_override: Option<String>,
}

/// The rate that a rate argument selects: medium when it is absent.
pub open spec fn rate_chosen(rate: Option<&str>) -> Option<Rate> {
    match rate {
        None => Some(Rate::Medium),
        Some(name) => rate_named(name@),
    }
}

/// Resolves the command-line input into a request: the voice must be one
/// the service knows, the rate (medium by default) one of the five tokens,
/// and the output path defaults to `output.mp3`. The voice is checked first.
pub fn resolve_request(
    text: String,
    voice: &str,
    rate: Option<&str>,
    output: Option<String>,
    aws_region: Option<String>,
) -> (r: Result<SpeechRequest, ArgumentError>)
    ensures
        r matches Err(ArgumentError::UnknownVoice(name)) <==> !is_service_voice(voice@),
        r matches Err(ArgumentError::UnknownVoice(name)) ==> name@ == voice@,
        r matches Err(ArgumentError::UnknownRate(name)) <==> is_service_voice(voice@)
            && rate_chosen(rate) is None,
        r matches Err(ArgumentError::UnknownRate(name)) ==> rate matches Some(given) && name@
            == given@,
        r matches Ok(req) ==> {
            &&& req.text == text
            &&& req.voice@ == voice@
            &&& Some(req.rate) == rate_chosen(rate)
            &&& req.output_path@ == match output {
                Some(path) => path@,
                None => default_output_path(),
            }
            &&& req.region_override == aws_region
        },
{
    let chosen_voice = match Voice::parse(voice) {
        Some(v) => v,
        None => {
            return Err(ArgumentError::UnknownVoice(String::from_str(voice)));
        },
    };
    let chosen_rate = match rate {
        None => Rate::default_rate(),
        Some(name) => match Rate::from_token(name) {
            Some(r) => r,
            None => {
                return Err(ArgumentError::UnknownRate(String::from_str(name)));
            },
        },
    };
    let output_path = match output {
        Some(path) => path,
        None => {
            proof {
                reveal_strlit("output.mp3");
            }
            String::from_str("output.mp3")
        },
    };
    Ok(
        SpeechRequest {
            text,
            voice: chosen_voice,
            rate: chosen_rate,
            output_path,
            region_override: aws_region,
        },
    )
}

} // verus!
