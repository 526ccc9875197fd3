//! What a user has chosen for the display of the library.

use vstd::prelude::*;

use crate::text::optional_text;
use crate::text::optional_texts;

verus! {

/// The preferences of a user: the year and the kinds of media that the
/// library is narrowed to, where the user has chosen any.
#[derive(Clone, Debug)]
pub struct UserPreferences {
    pub library_year_filter: Option<String>,
    pub library_type_filter: Option<Vec<String>>,
}

pub struct UserPreferencesView {
    pub library_year_filter: Option<Seq<char>>,
    pub library_type_filter: Option<Seq<Seq<char>>>,
}

impl View for UserPreferences {
    type V = UserPreferencesView;

    open spec fn view(&self) -> UserPreferencesView {
        UserPreferencesView {
            library_year_filter: optional_text(self.library_year_filter),
            library_type_filter: optional_texts(self.library_type_filter),
        }
    }
}

impl Default for UserPreferences {
    /// Nothing chosen.
    fn default() -> (preferences: UserPreferences)
        ensures
            preferences@ == (UserPreferencesView {
                library_year_filter: None,
                library_type_filter: None,
            }),
    {
        UserPreferences { library_year_filter: None, library_type_filter: None }
    }
}

/// The preferences of a user: those that are stored, or nothing chosen
/// where none are.
pub fn get_user_preferences(stored: Option<UserPreferences>) -> (preferences: UserPreferences)
    ensures
        preferences@ == match stored {
            Some(stored) => stored@,
            None => UserPreferencesView { library_year_filter: None, library_type_filter: None },
        },
{
    match stored {
        Some(stored) => stored,
        None => UserPreferences::default(),
    }
}

} // verus!
