//! The name an application goes by: the first of three sources that has one.
//!
//! The bundle's display name is what the user is meant to see, so it comes
//! first; the bundle's plain name is the packager's default; the name of the
//! process is always there and comes last.

use vstd::prelude::*;

verus! {

/// A key of the bundle's information dictionary that can hold the name.
#[derive(Clone, Copy, Debug, PartialEq, Eq, Structural)]
pub enum Key {
    /// `CFBundleDisplayName`: the name as shown to the user.
    DisplayName,
    /// `CFBundleName`: the short name of the bundle.
    Name,
}

/// Where a search for the name stands after an answer.
#[derive(Debug, PartialEq, Eq)]
pub enum Search<T> {
    /// The name is found.
    Found(T),
    /// Ask the bundle for this key next.
    Bundle(Key),
    /// Take the name of the process.
    Process,
}

/// The name by preference: the display name where there is one, else the
/// bundle's name where there is one, else the name of the process.
pub open spec fn preferred<T>(display_name: Option<T>, name: Option<T>, process_name: T) -> T {
    match (display_name, name) {
        (Some(shown), _) => shown,
        (None, Some(short)) => short,
        (None, None) => process_name,
    }
}

impl Key {
    /// The key as the dictionary spells it.
    pub open spec fn text(self) -> Seq<char> {
        match self {
            Key::DisplayName => "CFBundleDisplayName"@,
            Key::Name => "CFBundleName"@,
        }
    }

    /// Where the search stands once the bundle has answered for this key: a
    /// value ends it, and without one the next source is due.
    pub open spec fn answer<T>(self, reply: Option<T>) -> Search<T> {
        match reply {
            Some(value) => Search::Found(value),
            None => match self {
                Key::DisplayName => Search::Bundle(Key::Name),
                Key::Name => Search::Process,
            },
        }
    }

    /// The key that a search begins with.
    pub fn first() -> (key: Key)
        ensures
            key == Key::DisplayName,
    {
        Key::DisplayName
    }

    /// The key as the dictionary spells it.
    pub fn as_str(self) -> (key: &'static str)
        ensures
            key@ == self.text(),
    {
        match self {
            Key::DisplayName => "CFBundleDisplayName",
            Key::Name => "CFBundleName",
        }
    }

    /// Takes the bundle's answer for this key, and says how the search goes on.
    pub fn answered<T>(self, reply: Option<T>) -> (search: Search<T>)
        ensures
            search == self.answer(reply),
    {
        match reply {
            Some(value) => Search::Found(value),
            None => match self {
                Key::DisplayName => Search::Bundle(Key::Name),
                Key::Name => Search::Process,
            },
        }
    }
}

/// The name that a search comes to which asks one source after the other and
/// stops at the first answer.
pub open spec fn searched<T>(display_name: Option<T>, name: Option<T>, process_name: T) -> T {
    match Key::DisplayName.answer(display_name) {
        Search::Found(shown) => shown,
        Search::Bundle(key) => match key.answer(name) {
            Search::Found(short) => short,
            _ => process_name,
        },
        Search::Process => process_name,
    }
}

/// Chooses the name from what the three sources hold.
pub fn app_name<T>(display_name: Option<T>, name: Option<T>, process_name: T) -> (chosen: T)
    ensures
        chosen == preferred(display_name, name, process_name),
        display_name matches Some(shown) ==> chosen == shown,
        display_name is None ==> (name matches Some(short) ==> chosen == short),
        display_name is None && name is None ==> chosen == process_name,
{
    match display_name {
        Some(shown) => shown,
        None => match name {
            Some(short) => short,
            None => process_name,
        },
    }
}

/// A display name wins, whatever the other two sources hold.
pub proof fn lemma_display_name_first<T>(shown: T, name: Option<T>, process_name: T)
    ensures
        preferred(Some(shown), name, process_name) == shown,
{
}

/// Without a display name the bundle's name wins, whatever the process is
/// called.
pub proof fn lemma_bundle_name_second<T>(short: T, process_name: T)
    ensures
        preferred(None, Some(short), process_name) == short,
{
}

/// Without either, the name of the process is chosen.
pub proof fn lemma_process_name_last<T>(process_name: T)
    ensures
        preferred(None::<T>, None::<T>, process_name) == process_name,
{
}

/// Asking one source after the other finds the name by preference, and asks no
/// source once an earlier one has answered.
pub proof fn lemma_search_finds_preferred<T>(
    display_name: Option<T>,
    name: Option<T>,
    process_name: T,
)
    ensures
        searched(display_name, name, process_name) == preferred(display_name, name, process_name),
        display_name is Some ==> Key::DisplayName.answer(display_name) is Found,
        display_name is None ==> Key::DisplayName.answer(display_name) == Search::<T>::Bundle(
            Key::Name,
        ),
        name is Some ==> Key::Name.answer(name) is Found,
        name is None ==> Key::Name.answer(name) == Search::<T>::Process,
{
}

} // verus!
