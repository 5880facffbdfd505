//! Colour profiles: the profiles a platform offers, which one is selected, and the menu
//! identifiers that stand for them.

use vstd::prelude::*;

use crate::text::{str_equal, string_of};

verus! {

/// A colour profile the user can choose.
#[derive(Clone, Debug)]
pub struct ICCProfile {
    /// Profile name (its identifier).
    pub name: String,
    /// Human-readable description.
    pub description: String,
    /// Whether this profile is the selected one.
    pub is_current: bool,
}

/// Where the list of system colour spaces comes from.
pub enum ColorSpaceSource {
    /// The localized names of the RGB colour spaces macOS reports, in its order;
    /// `None` for a colour space without a name.
    MacOs(Vec<Option<String>>),
    Windows,
    Linux,
    /// Any other platform.
    Other,
}

/// The profile that means automatic colour-space detection.
pub open spec fn auto_name() -> Seq<char> {
    "Auto"@
}

/// A profile as name and description (its selection flag aside).
pub open spec fn entry(p: ICCProfile) -> (Seq<char>, Seq<char>) {
    (p.name@, p.description@)
}

/// The profiles for a list of macOS colour-space names: one per named colour space,
/// named and described by that name, in order.
pub open spec fn named_entries(names: Seq<Option<String>>) -> Seq<(Seq<char>, Seq<char>)>
    decreases names.len(),
{
    if names.len() == 0 {
        Seq::empty()
    } else {
        named_entries(names.drop_last()) + match names.last() {
            Some(n) => seq![(n@, n@)],
            None => Seq::empty(),
        }
    }
}

/// The `Auto` entry every list begins with.
pub open spec fn auto_entry() -> (Seq<char>, Seq<char>) {
    ("Auto"@, "Automatic color space detection"@)
}

/// The profiles each platform offers, in order.
pub open spec fn system_entries(source: ColorSpaceSource) -> Seq<(Seq<char>, Seq<char>)> {
    match source {
        ColorSpaceSource::MacOs(names) => seq![auto_entry()] + named_entries(names@),
        ColorSpaceSource::Windows => seq![
            auto_entry(),
            ("sRGB"@, "sRGB IEC61966-2.1 (Standard web)"@),
            ("Adobe RGB"@, "Adobe RGB (1998)"@),
        ],
        ColorSpaceSource::Linux => seq![
            auto_entry(),
            ("sRGB"@, "sRGB IEC61966-2.1 (Standard web)"@),
        ],
        ColorSpaceSource::Other => seq![auto_entry()],
    }
}

/// A profile that is not selected.
fn profile(name: &str, description: &str) -> (p: ICCProfile)
    ensures
        p.name@ == name@,
        p.description@ == description@,
        !p.is_current,
{
    ICCProfile { name: string_of(name), description: string_of(description), is_current: false }
}

/// The `Auto` profile.
fn auto_profile() -> (p: ICCProfile)
    ensures
        entry(p) == auto_entry(),
        !p.is_current,
{
    profile("Auto", "Automatic color space detection")
}

/// The colour spaces the platform offers, `Auto` first, none of them selected.
pub fn get_system_color_spaces(source: ColorSpaceSource) -> (profiles: Vec<ICCProfile>)
    ensures
        profiles@.len() == system_entries(source).len(),
        forall|i: int|
            0 <= i < profiles@.len() ==> entry(#[trigger] profiles@[i]) == system_entries(source)[i]
                && !profiles@[i].is_current,
{
    match source {
        ColorSpaceSource::MacOs(names) => {
            let mut profiles: Vec<ICCProfile> = Vec::new();
            profiles.push(auto_profile());
            let mut i: usize = 0;
            while i < names.len()
                invariant
                    i <= names@.len(),
                    profiles@.len() == 1 + named_entries(names@.take(i as int)).len(),
                    forall|j: int|
                        0 <= j < profiles@.len() ==> #[trigger] entry(profiles@[j]) == (seq![
                            auto_entry(),
                        ] + named_entries(names@.take(i as int)))[j] && !profiles@[j].is_current,
                decreases names@.len() - i,
            {
                assert(names@.take(i + 1).drop_last() =~= names@.take(i as int));
                match &names[i] {
                    Some(n) => {
                        profiles.push(
                            ICCProfile { name: n.clone(), description: n.clone(), is_current: false },
                        );
                    },
                    None => {},
                }
                i = i + 1;
            }
            assert(names@.take(i as int) =~= names@);
            assert(system_entries(source) == seq![auto_entry()] + named_entries(names@));
            assert forall|j: int| 0 <= j < profiles@.len() implies entry(#[trigger] profiles@[j])
                == system_entries(source)[j] && !profiles@[j].is_current by {
                assert(entry(profiles@[j]) == (seq![auto_entry()] + named_entries(
                    names@.take(i as int),
                ))[j]);
            }
            profiles
        },
        ColorSpaceSource::Windows => {
            let v = vec![
                auto_profile(),
                profile("sRGB", "sRGB IEC61966-2.1 (Standard web)"),
                profile("Adobe RGB", "Adobe RGB (1998)"),
            ];
            v
        },
        ColorSpaceSource::Linux => {
            let v = vec![auto_profile(), profile("sRGB", "sRGB IEC61966-2.1 (Standard web)")];
            v
        },
        ColorSpaceSource::Other => {
            let v = vec![auto_profile()];
            v
        },
    }
}

/// Which profile the user has selected; nothing selected means `Auto`.
pub struct ProfileSelection {
    pub selected: Option<String>,
}

/// The selected profile's name, as characters.
pub open spec fn selected_view(selected: Option<String>) -> Option<Seq<char>> {
    match selected {
        Some(n) => Some(n@),
        None => None,
    }
}

/// The name of the profile in use: the selected one, or `Auto` when none is.
pub open spec fn current_name(selected: Option<String>) -> Seq<char> {
    match selected {
        Some(n) => n@,
        None => auto_name(),
    }
}

/// The profiles with the current one marked: names and descriptions unchanged, exactly
/// the profiles named `current` flagged as current.
pub open spec fn marked(profiles: Seq<ICCProfile>, current: Seq<char>, out: Seq<ICCProfile>) -> bool {
    &&& out.len() == profiles.len()
    &&& forall|i: int|
        0 <= i < out.len() ==> entry(#[trigger] out[i]) == entry(profiles[i]) && out[i].is_current
            == (profiles[i].name@ == current)
}

/// Marks as current exactly the profiles whose name is `current`.
pub fn mark_current_profile(profiles: &Vec<ICCProfile>, current: &str) -> (out: Vec<ICCProfile>)
    ensures
        marked(profiles@, current@, out@),
{
    let mut out: Vec<ICCProfile> = Vec::new();
    let mut i: usize = 0;
    while i < profiles.len()
        invariant
            i <= profiles@.len(),
            out@.len() == i,
            forall|j: int|
                0 <= j < i ==> entry(#[trigger] out@[j]) == entry(profiles@[j]) && out@[j].is_current
                    == (profiles@[j].name@ == current@),
        decreases profiles@.len() - i,
    {
        let p = &profiles[i];
        let is_current = str_equal(p.name.as_str(), current);
        out.push(
            ICCProfile { name: p.name.clone(), description: p.description.clone(), is_current },
        );
        i = i + 1;
    }
    out
}

impl ProfileSelection {
    /// No profile selected.
    pub fn new() -> (s: Self)
        ensures
            s.selected is None,
    {
        ProfileSelection { selected: None }
    }

    /// Selects the profile named `profile_name`.
    pub fn select_icc_profile(&mut self, profile_name: String)
        ensures
            final(self).selected == Some(profile_name),
    {
        self.selected = Some(profile_name);
    }

    /// The selected profile's name, if one was selected.
    pub fn get_selected_icc_profile(&self) -> (name: Option<String>)
        ensures
            name == self.selected,
    {
        match &self.selected {
            Some(n) => Some(n.clone()),
            None => None,
        }
    }

    /// The name of the profile in use: the selected one, or `Auto` by default.
    pub fn get_current_profile_name(&self) -> (name: String)
        ensures
            name@ == current_name(self.selected),
    {
        match &self.selected {
            Some(n) => n.clone(),
            None => string_of("Auto"),
        }
    }

    /// The available profiles, with the one in use marked as current.
    pub fn list_icc_profiles(&self, available: &Vec<ICCProfile>) -> (profiles: Vec<ICCProfile>)
        ensures
            marked(available@, current_name(self.selected), profiles@),
    {
        let current = self.get_current_profile_name();
        mark_current_profile(available, current.as_str())
    }

    /// The name of the colour space to convert from: the selected profile, unless none is
    /// selected or it is `Auto`, in which case no conversion applies.
    pub fn selected_color_space_name(&self) -> (name: Option<String>)
        ensures
            match self.selected {
                Some(n) => if n@ == auto_name() {
                    name is None
                } else {
                    name == Some(n)
                },
                None => name is None,
            },
    {
        match &self.selected {
            Some(n) => {
                if str_equal(n.as_str(), "Auto") {
                    None
                } else {
                    Some(n.clone())
                }
            },
            None => None,
        }
    }
}

/// Whether a colour space has the name `target`.
pub open spec fn has_name(name: Option<String>, target: Seq<char>) -> bool {
    match name {
        Some(n) => n@ == target,
        None => false,
    }
}

/// The index of the first colour space whose name is `target`, if any.
pub fn find_color_space(names: &Vec<Option<String>>, target: &str) -> (idx: Option<usize>)
    ensures
        match idx {
            Some(k) => k < names@.len() && has_name(names@[k as int], target@) && forall|j: int|
                0 <= j < k ==> !has_name(#[trigger] names@[j], target@),
            None => forall|j: int| 0 <= j < names@.len() ==> !has_name(#[trigger] names@[j], target@),
        },
{
    let mut i: usize = 0;
    while i < names.len()
        invariant
            i <= names@.len(),
            forall|j: int| 0 <= j < i ==> !has_name(#[trigger] names@[j], target@),
        decreases names@.len() - i,
    {
        match &names[i] {
            Some(n) => {
                if str_equal(n.as_str(), target) {
                    return Some(i);
                }
            },
            None => {},
        }
        i = i + 1;
    }
    None
}

/// What is selected is what is then read back, and it is the profile in use.
pub proof fn lemma_select_then_read(name: String)
    ensures
        selected_view(Some(name)) == Some(name@),
        current_name(Some(name)) == name@,
{
}

/// After a selection, listing marks as current exactly the profiles with the selected
/// name; with nothing selected, exactly the `Auto` profiles.
pub proof fn lemma_list_marks_selection(
    available: Seq<ICCProfile>,
    selected: Option<String>,
    out: Seq<ICCProfile>,
    i: int,
)
    requires
        marked(available, current_name(selected), out),
        0 <= i < out.len(),
    ensures
        selected matches Some(n) ==> (out[i].is_current <==> available[i].name@ == n@),
        selected is None ==> (out[i].is_current <==> available[i].name@ == auto_name()),
        out[i].name@ == available[i].name@,
{
    assert(entry(out[i]) == entry(available[i]));
}

/// With nothing selected the profile in use is `Auto`; otherwise it is the selected one.
pub proof fn lemma_current_name_defaults_to_auto(selected: Option<String>)
    ensures
        selected is None ==> current_name(selected) == "Auto"@,
        selected matches Some(n) ==> current_name(selected) == n@,
{
}

/// The platform lists: every list begins with `Auto` ("Automatic color space detection");
/// Windows adds sRGB and Adobe RGB, Linux adds sRGB, other platforms add nothing, and macOS
/// adds one profile per named colour space, named and described by that name.
pub proof fn lemma_platform_lists(names: Vec<Option<String>>)
    ensures
        system_entries(ColorSpaceSource::Windows) == seq![
            ("Auto"@, "Automatic color space detection"@),
            ("sRGB"@, "sRGB IEC61966-2.1 (Standard web)"@),
            ("Adobe RGB"@, "Adobe RGB (1998)"@),
        ],
        system_entries(ColorSpaceSource::Linux) == seq![
            ("Auto"@, "Automatic color space detection"@),
            ("sRGB"@, "sRGB IEC61966-2.1 (Standard web)"@),
        ],
        system_entries(ColorSpaceSource::Other) == seq![
            ("Auto"@, "Automatic color space detection"@),
        ],
        system_entries(ColorSpaceSource::MacOs(names))[0] == ("Auto"@,
        "Automatic color space detection"@),
        system_entries(ColorSpaceSource::MacOs(names)).len() == 1 + named_entries(names@).len(),
{
}

/// The macOS profiles keep the named colour spaces in order, each named and described by
/// its name, and skip the unnamed ones.
pub proof fn lemma_named_entries_step(names: Seq<Option<String>>, n: String)
    ensures
        named_entries(names.push(Some(n))) == named_entries(names).push((n@, n@)),
        named_entries(names.push(None)) == named_entries(names),
        named_entries(Seq::empty()).len() == 0,
{
    assert(names.push(Some(n)).drop_last() =~= names);
    assert(names.push(None::<String>).drop_last() =~= names);
    assert(named_entries(names) + seq![(n@, n@)] =~= named_entries(names).push((n@, n@)));
    assert(named_entries(names) + Seq::<(Seq<char>, Seq<char>)>::empty() =~= named_entries(names));
}

} // verus!
