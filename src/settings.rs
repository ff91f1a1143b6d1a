use vstd::prelude::*;

use crate::error::AppError;

verus! {

/// The smallest refresh interval, in seconds, that a settings document may hold.
pub const MIN_REFRESH_INTERVAL: u64 = 60;

/// The one settings document of the application.
#[derive(Debug, Clone, PartialEq, Eq)]
pub struct Settings {
    pub dark_mode: bool,
    pub language: String,
    pub temperature_unit: String,
    pub notifications_enabled: bool,
    pub auto_refresh: bool,
    /// Seconds between automatic refreshes.
    pub refresh_interval: u64,
    pub last_update: Option<u64>,
    pub api_key: Option<String>,
}

/// The languages the interface is offered in.
pub open spec fn is_supported_language(l: Seq<char>) -> bool {
    l == "en"@ || l == "sq"@ || l == "tr"@ || l == "bs"@
}

/// The units a temperature may be shown in.
pub open spec fn is_supported_unit(u: Seq<char>) -> bool {
    u == "celsius"@ || u == "fahrenheit"@
}

pub open spec fn interval_message() -> Seq<char> {
    "Refresh interval must be at least 60 seconds"@
}

pub open spec fn language_message() -> Seq<char> {
    "Invalid language selection"@
}

pub open spec fn unit_message() -> Seq<char> {
    "Invalid temperature unit"@
}

impl Settings {
    /// A document may be stored or shown only when this holds.
    pub open spec fn is_valid(&self) -> bool {
        &&& self.refresh_interval >= MIN_REFRESH_INTERVAL
        &&& is_supported_language(self.language@)
        &&& is_supported_unit(self.temperature_unit@)
    }

    /// The first rule that the document breaks, as the message that names it;
    /// `None` for a valid document.
    pub open spec fn violation(&self) -> Option<Seq<char>> {
        if self.refresh_interval < MIN_REFRESH_INTERVAL {
            Some(interval_message())
        } else if !is_supported_language(self.language@) {
            Some(language_message())
        } else if !is_supported_unit(self.temperature_unit@) {
            Some(unit_message())
        } else {
            None
        }
    }

    /// The document used at first run and after a reset.
    pub open spec fn is_default(&self) -> bool {
        &&& !self.dark_mode
        &&& self.language@ == "en"@
        &&& self.temperature_unit@ == "celsius"@
        &&& self.notifications_enabled
        &&& self.auto_refresh
        &&& self.refresh_interval == 300
        &&& self.last_update is None
        &&& self.api_key is None
    }

    /// Checks the document against the validation rules, in their order.
    pub fn validate(&self) -> (r: Result<(), AppError>)
        ensures
            r is Ok <==> self.is_valid(),
            r is Ok <==> self.violation() is None,
            r is Err ==> (r matches Err(AppError::Settings(m)) && Some(m@) == self.violation()),
    {
        if self.refresh_interval < MIN_REFRESH_INTERVAL {
            return Err(AppError::Settings(String::from_str("Refresh interval must be at least 60 seconds")));
        }
        if !is_one_of(&self.language, &["en", "sq", "tr", "bs"]) {
            return Err(AppError::Settings(String::from_str("Invalid language selection")));
        }
        if !is_one_of(&self.temperature_unit, &["celsius", "fahrenheit"]) {
            return Err(AppError::Settings(String::from_str("Invalid temperature unit")));
        }
        Ok(())
    }

    /// A copy of the document, equal to it in every field.
    pub fn duplicate(&self) -> (r: Settings)
        ensures
            r == *self,
    {
        let api_key = match &self.api_key {
            Some(k) => Some(k.clone()),
            None => None,
        };
        Settings {
            dark_mode: self.dark_mode,
            language: self.language.clone(),
            temperature_unit: self.temperature_unit.clone(),
            notifications_enabled: self.notifications_enabled,
            auto_refresh: self.auto_refresh,
            refresh_interval: self.refresh_interval,
            last_update: self.last_update,
            api_key,
        }
    }
}

/// Whether `s` equals one of the words of `words`.
fn is_one_of(s: &String, words: &[&str]) -> (r: bool)
    ensures
        r <==> exists|i: int| 0 <= i < words@.len() && words@[i]@ == s@,
{
    let mut i: usize = 0;
    while i < words.len()
        invariant
            0 <= i <= words@.len(),
            forall|j: int| 0 <= j < i ==> words@[j]@ != s@,
        decreases words@.len() - i,
    {
        let w = String::from_str(words[i]);
        if w == *s {
            return true;
        }
        i = i + 1;
    }
    false
}

impl Default for Settings {
    fn default() -> (r: Settings)
        ensures
            r.is_default(),
            r.is_valid(),
    {
        Settings {
            dark_mode: false,
            language: String::from_str("en"),
            temperature_unit: String::from_str("celsius"),
            notifications_enabled: true,
            auto_refresh: true,
            refresh_interval: 300,
            last_update: None,
            api_key: None,
        }
    }
}

} // verus!
