//! Localization of strings.

use vstd::prelude::*;

use crate::host::HostCall;
use crate::lifecycle::LifecycleState;
use crate::util::no_interior_nul;

verus! {

/// Describes translating the identifier into the current active language.
/// The host answers with the same identifier if no translation is available.
pub fn translate(state: &LifecycleState, identifier: String) -> (r: HostCall)
    requires
        state.is_initialized(),
        no_interior_nul(identifier@),
    ensures
        r == (HostCall::Translate { identifier }),
{
    HostCall::Translate { identifier }
}

/// Describes translating the identifier into the given language.
/// The host answers with the same identifier if no translation is available.
pub fn translate_to(state: &LifecycleState, identifier: String, language_identifier: String) -> (r:
    HostCall)
    requires
        state.is_initialized(),
        no_interior_nul(identifier@),
        no_interior_nul(language_identifier@),
    ensures
        r == (HostCall::TranslateTo { identifier, language_identifier }),
{
    HostCall::TranslateTo { identifier, language_identifier }
}

/// Describes setting a translated string for the given identifier and
/// language at runtime.
pub fn set_translation(
    state: &LifecycleState,
    identifier: String,
    language_identifier: String,
    string: String,
) -> (r: HostCall)
    requires
        state.is_initialized(),
        no_interior_nul(identifier@),
        no_interior_nul(language_identifier@),
        no_interior_nul(string@),
    ensures
        r == (HostCall::TranslationSet { identifier, language_identifier, text: string }),
{
    HostCall::TranslationSet { identifier, language_identifier, text: string }
}

} // verus!
