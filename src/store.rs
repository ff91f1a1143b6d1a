use vstd::prelude::*;

use crate::error::AppError;
use crate::settings::{interval_message, language_message, Settings, MIN_REFRESH_INTERVAL};

verus! {

/// The settings document that the process has adopted, if any.
///
/// Each operation takes the store as an explicit handle; the application
/// guards it with a lock and performs the file I/O that the operations ask
/// for.
pub struct SettingsStore {
    current: Option<Settings>,
}

impl SettingsStore {
    /// The adopted document; `None` until a document is saved or reset.
    pub closed spec fn adopted(&self) -> Option<Settings> {
        self.current
    }

    /// Every document the store holds is a valid one.
    pub closed spec fn wf(&self) -> bool {
        self.current matches Some(s) ==> s.is_valid()
    }

    /// The adopted document after a save of `candidate` whose write to disk
    /// succeeded (`written`) or failed: only a valid, written document is
    /// adopted; otherwise nothing changes.
    pub open spec fn adopted_after_save(&self, candidate: Settings, written: bool) -> Option<
        Settings,
    > {
        if candidate.is_valid() && written {
            Some(candidate)
        } else {
            self.adopted()
        }
    }

    /// The store holds the default document.
    pub open spec fn is_reset(&self) -> bool {
        self.adopted() matches Some(d) && d.is_default()
    }

    /// A store that has adopted nothing yet.
    pub fn new() -> (r: SettingsStore)
        ensures
            r.adopted() is None,
            r.wf(),
    {
        SettingsStore { current: None }
    }

    /// A store that starts from a document loaded at startup.
    pub fn with_settings(s: Settings) -> (r: SettingsStore)
        requires
            s.is_valid(),
        ensures
            r.adopted() == Some(s),
            r.wf(),
    {
        SettingsStore { current: Some(s) }
    }

    /// A copy of the adopted document. `None` tells the caller to read the
    /// file and hand the outcome to `load_settings`, which adopts nothing.
    pub fn get(&self) -> (r: Option<Settings>)
        requires
            self.wf(),
        ensures
            r == self.adopted(),
            r matches Some(s) ==> s.is_valid(),
    {
        match &self.current {
            Some(s) => Some(s.duplicate()),
            None => None,
        }
    }

    /// Finishes a save. The caller validated `candidate` and tried to write
    /// it; `written` is how that went. Only a successful write is adopted.
    pub fn commit_save(&mut self, candidate: Settings, written: Result<(), AppError>) -> (r: Result<
        (),
        AppError,
    >)
        requires
            old(self).wf(),
            candidate.is_valid(),
        ensures
            final(self).wf(),
            final(self).adopted() == old(self).adopted_after_save(candidate, written is Ok),
            written is Ok ==> r is Ok,
            written is Err ==> r == written,
    {
        match written {
            Ok(()) => {
                self.current = Some(candidate);
                Ok(())
            },
            Err(e) => Err(e),
        }
    }

    /// Adopts the default document, once the caller has removed the file.
    pub fn reset(&mut self) -> (r: Settings)
        ensures
            r.is_default(),
            final(self).adopted() == Some(r),
            final(self).is_reset(),
            final(self).wf(),
    {
        let d = Settings::default();
        self.current = Some(d.duplicate());
        d
    }
}

/// Decides what a load from disk yields. `found` is `None` when no file
/// exists, and otherwise the outcome of reading and parsing it.
///
/// A missing file means the default document; a read or parse failure is
/// surfaced as it is, never masked by the defaults; a parsed document is
/// returned only if it is valid.
pub fn load_settings(found: Option<Result<Settings, AppError>>) -> (r: Result<Settings, AppError>)
    ensures
        found is None ==> (r matches Ok(s) && s.is_default()),
        found matches Some(Err(_)) ==> r == found.unwrap(),
        found matches Some(Ok(s)) ==> {
            &&& s.is_valid() ==> r == Ok::<Settings, AppError>(s)
            &&& !s.is_valid() ==> (r matches Err(AppError::Settings(m)) && Some(m@) == s.violation())
        },
        r matches Ok(s) ==> s.is_valid(),
{
    match found {
        None => Ok(Settings::default()),
        Some(Err(e)) => Err(e),
        Some(Ok(s)) => match s.validate() {
            Ok(()) => Ok(s),
            Err(e) => Err(e),
        },
    }
}

/// A valid document passes validation, and once saved the store hands that
/// very document back.
pub proof fn lemma_save_round_trip(store: SettingsStore, s: Settings)
    requires
        store.wf(),
        s.is_valid(),
    ensures
        s.violation() is None,
        store.adopted_after_save(s, true) == Some(s),
{
}

/// A refresh interval of 59 seconds is refused with the message of the
/// interval rule, and the adopted document stays as it was whether or not a
/// write was attempted.
pub proof fn lemma_short_interval_rejected(store: SettingsStore, s: Settings)
    requires
        s.refresh_interval == 59,
    ensures
        !s.is_valid(),
        s.violation() == Some(interval_message()),
        forall|written: bool| store.adopted_after_save(s, written) == store.adopted(),
{
}

/// An unsupported language such as "xx" is refused, and the adopted document
/// stays as it was.
pub proof fn lemma_unknown_language_rejected(store: SettingsStore, s: Settings)
    requires
        s.language@ == "xx"@,
    ensures
        !s.is_valid(),
        s.violation() is Some,
        s.refresh_interval >= MIN_REFRESH_INTERVAL ==> s.violation() == Some(language_message()),
        forall|written: bool| store.adopted_after_save(s, written) == store.adopted(),
{
    reveal_strlit("xx");
    reveal_strlit("en");
    reveal_strlit("sq");
    reveal_strlit("tr");
    reveal_strlit("bs");
    assert(s.language@[0] != "en"@[0]);
    assert(s.language@[0] != "sq"@[0]);
    assert(s.language@[0] != "tr"@[0]);
    assert(s.language@[0] != "bs"@[0]);
}

/// After a reset the store hands back the default document, which is valid.
pub proof fn lemma_reset_then_get(store: SettingsStore)
    requires
        store.is_reset(),
    ensures
        store.adopted() matches Some(d) && d.is_default() && d.is_valid(),
{
}

} // verus!
