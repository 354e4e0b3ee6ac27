//! The error surface of the library.
//!
//! Every failure a command can run into is one of these variants.  All of
//! them are recoverable at the command level; whether a failure ends the
//! process is the caller's decision.

use vstd::prelude::*;

use crate::provider::{spec_pretty_name, ProviderName};

verus! {

/// A typed failure of a weather command.
#[derive(Debug)]
pub enum WeatherError {
    /// A required credential environment variable was absent at startup;
    /// the variant names the provider whose credential is missing.
    MissingCredential(ProviderName),
    /// The date string does not have the `YYYY-MM-DD` shape.
    InvalidDateFormat,
    /// The date string has the right shape but does not name a real
    /// calendar day.
    InvalidDateValue,
    /// Geocoding returned no match for the requested address.
    AddressNotFound,
    /// The vendor HTTP call failed: network error, timeout, non-success
    /// status, or a malformed response.
    UpstreamError(String),
    /// The requested provider has no associated credential.
    UnknownProvider(ProviderName),
}

impl WeatherError {
    /// The diagnostic line for each failure.
    pub open spec fn spec_message(self) -> Seq<char> {
        match self {
            WeatherError::MissingCredential(p) => "missing API credential for provider "@
                + spec_pretty_name(p),
            WeatherError::InvalidDateFormat => "entered date should be in the YYYY-MM-DD format"@,
            WeatherError::InvalidDateValue => "entered date is not a valid calendar date"@,
            WeatherError::AddressNotFound => "no coordinates found for the requested address"@,
            WeatherError::UpstreamError(detail) => "the weather provider returned an error: "@
                + detail@,
            WeatherError::UnknownProvider(p) => "no credential is loaded for provider "@
                + spec_pretty_name(p),
        }
    }

    /// A short diagnostic line for the user.
    pub fn message(&self) -> (r: String)
        ensures
            r@ == self.spec_message(),
    {
        match self {
            WeatherError::MissingCredential(p) => {
                let mut s = "missing API credential for provider ".to_owned();
                s.append(p.get_pretty_name().as_str());
                s
            },
            WeatherError::InvalidDateFormat => {
                "entered date should be in the YYYY-MM-DD format".to_owned()
            },
            WeatherError::InvalidDateValue => {
                "entered date is not a valid calendar date".to_owned()
            },
            WeatherError::AddressNotFound => {
                "no coordinates found for the requested address".to_owned()
            },
            WeatherError::UpstreamError(detail) => {
                let mut s = "the weather provider returned an error: ".to_owned();
                s.append(detail.as_str());
                s
            },
            WeatherError::UnknownProvider(p) => {
                let mut s = "no credential is loaded for provider ".to_owned();
                s.append(p.get_pretty_name().as_str());
                s
            },
        }
    }
}

} // verus!
