//! Menu identifiers of the colour-profile menu items, and the way back from an identifier
//! to the profile it stands for.

use vstd::prelude::*;

use crate::icc::ICCProfile;
use crate::text::{push_char, str_equal, str_starts_with, string_of};

verus! {

/// What `str::to_lowercase` returns for a string: its lowercase equivalent by the Unicode
/// `Lowercase` property.
pub uninterp spec fn spec_to_lowercase(s: Seq<char>) -> Seq<char>;

/// The lowercase equivalent of a string.
///
/// Wraps `str::to_lowercase`. The contract only names the result: it is the same for the
/// same characters. Which characters come out is Unicode's case mapping and is not stated.
#[verifier::external_body]
fn to_lowercase(s: &str) -> (res: String)
    ensures
        res@ == spec_to_lowercase(s@),
{
    s.to_lowercase()
}

/// The prefix of every colour-profile menu identifier.
pub open spec fn menu_prefix() -> Seq<char> {
    "icc_profile_"@
}

/// `s` with every space replaced by an underscore.
pub open spec fn spaces_to_underscores(s: Seq<char>) -> Seq<char> {
    Seq::new(s.len(), |i: int| if s[i] == ' ' { '_' } else { s[i] })
}

/// The menu identifier built from an already lower-cased profile name.
pub open spec fn menu_id_of_lowercase(lower: Seq<char>) -> Seq<char> {
    menu_prefix() + spaces_to_underscores(lower)
}

/// The menu identifier of a profile name: the prefix, then the name in lower case with
/// spaces turned into underscores.
pub open spec fn menu_id(name: Seq<char>) -> Seq<char> {
    menu_id_of_lowercase(spec_to_lowercase(name))
}

/// `k` is the first profile of the list whose menu identifier is `id`.
pub open spec fn is_first_with_menu_id(profiles: Seq<ICCProfile>, id: Seq<char>, k: int) -> bool {
    &&& 0 <= k < profiles.len()
    &&& menu_id(profiles[k].name@) == id
    &&& forall|j: int| 0 <= j < k ==> menu_id(#[trigger] profiles[j].name@) != id
}

/// The menu identifier for an already lower-cased profile name.
pub fn menu_id_from_lowercase(lower: &str) -> (id: String)
    ensures
        id@ == menu_id_of_lowercase(lower@),
{
    let mut id = string_of("icc_profile_");
    let ghost start = id@;
    let n = lower.unicode_len();
    let mut i: usize = 0;
    while i < n
        invariant
            n == lower@.len(),
            i <= n,
            start == menu_prefix(),
            id@ == start + spaces_to_underscores(lower@.take(i as int)),
        decreases n - i,
    {
        let c = lower.get_char(i);
        if c == ' ' {
            push_char(&mut id, '_');
        } else {
            push_char(&mut id, c);
        }
        assert(spaces_to_underscores(lower@.take(i + 1)) =~= spaces_to_underscores(
            lower@.take(i as int),
        ).push(if c == ' ' {
            '_'
        } else {
            c
        }));
        i = i + 1;
    }
    assert(lower@.take(n as int) =~= lower@);
    id
}

/// The menu identifier of a colour profile.
pub fn profile_name_to_menu_id(name: &str) -> (id: String)
    ensures
        id@ == menu_id(name@),
{
    let lower = to_lowercase(name);
    menu_id_from_lowercase(lower.as_str())
}

/// The name of the first listed profile whose menu identifier is `menu_id`; `None` when the
/// identifier lacks the profile prefix or no profile has it.
pub fn menu_id_to_profile_name(menu_id: &str, profiles: &Vec<ICCProfile>) -> (name: Option<String>)
    ensures
        match name {
            Some(n) => exists|k: int|
                is_first_with_menu_id(profiles@, menu_id@, k) && n == profiles@[k].name,
            None => forall|j: int|
                0 <= j < profiles@.len() ==> self::menu_id(#[trigger] profiles@[j].name@)
                    != menu_id@,
        },
{
    if !str_starts_with(menu_id, "icc_profile_") {
        proof {
            assert forall|j: int| 0 <= j < profiles@.len() implies self::menu_id(
                #[trigger] profiles@[j].name@,
            ) != menu_id@ by {
                let id = self::menu_id(profiles@[j].name@);
                assert(id.subrange(0, menu_prefix().len() as int) =~= menu_prefix());
            }
        }
        return None;
    }
    let mut i: usize = 0;
    while i < profiles.len()
        invariant
            i <= profiles@.len(),
            forall|j: int| 0 <= j < i ==> self::menu_id(#[trigger] profiles@[j].name@) != menu_id@,
        decreases profiles@.len() - i,
    {
        let candidate = profile_name_to_menu_id(profiles[i].name.as_str());
        if str_equal(candidate.as_str(), menu_id) {
            assert(is_first_with_menu_id(profiles@, menu_id@, i as int));
            return Some(profiles[i].name.clone());
        }
        i = i + 1;
    }
    None
}

/// Every menu identifier carries the profile prefix.
pub proof fn lemma_menu_id_has_prefix(name: Seq<char>)
    ensures
        menu_id(name).len() >= menu_prefix().len(),
        menu_id(name).subrange(0, menu_prefix().len() as int) == menu_prefix(),
{
    assert(menu_id(name).subrange(0, menu_prefix().len() as int) =~= menu_prefix());
}

/// Going from a listed profile to its menu identifier and back finds a profile: the first
/// listed one with that identifier, which is the profile itself when no earlier profile
/// shares its identifier.
pub proof fn lemma_menu_id_round_trip(profiles: Seq<ICCProfile>, k: int)
    requires
        0 <= k < profiles.len(),
    ensures
        exists|j: int| j <= k && is_first_with_menu_id(profiles, menu_id(profiles[k].name@), j),
        (forall|j: int| 0 <= j < k ==> menu_id(#[trigger] profiles[j].name@) != menu_id(
            profiles[k].name@,
        )) ==> is_first_with_menu_id(profiles, menu_id(profiles[k].name@), k),
{
    let id = menu_id(profiles[k].name@);
    if !(forall|j: int| 0 <= j < k ==> menu_id(#[trigger] profiles[j].name@) != id) {
        let witness = choose|j: int| 0 <= j < k && menu_id(#[trigger] profiles[j].name@) == id;
        lemma_first_with_menu_id_exists(profiles, id, witness);
    } else {
        assert(is_first_with_menu_id(profiles, id, k));
    }
}

/// If some profile up to index `w` has the identifier, a first one exists at or before `w`.
proof fn lemma_first_with_menu_id_exists(profiles: Seq<ICCProfile>, id: Seq<char>, w: int)
    requires
        0 <= w < profiles.len(),
        menu_id(profiles[w].name@) == id,
    ensures
        exists|j: int| j <= w && is_first_with_menu_id(profiles, id, j),
    decreases w,
{
    if forall|j: int| 0 <= j < w ==> menu_id(#[trigger] profiles[j].name@) != id {
        assert(is_first_with_menu_id(profiles, id, w));
    } else {
        let v = choose|j: int| 0 <= j < w && menu_id(#[trigger] profiles[j].name@) == id;
        lemma_first_with_menu_id_exists(profiles, id, v);
    }
}

/// After a profile is chosen from the menu, the check mark of each listed profile's item:
/// every item is unchecked except those whose identifier is the chosen profile's.
pub fn menu_check_states(profiles: &Vec<ICCProfile>, selected_name: &str) -> (states: Vec<
    (String, bool),
>)
    ensures
        states@.len() == profiles@.len(),
        forall|i: int|
            0 <= i < states@.len() ==> (#[trigger] states@[i]).0@ == self::menu_id(
                profiles@[i].name@,
            ) && states@[i].1 == (self::menu_id(profiles@[i].name@) == self::menu_id(
                selected_name@,
            )),
{
    let selected_id = profile_name_to_menu_id(selected_name);
    let mut states: Vec<(String, bool)> = Vec::new();
    let mut i: usize = 0;
    while i < profiles.len()
        invariant
            i <= profiles@.len(),
            states@.len() == i,
            selected_id@ == self::menu_id(selected_name@),
            forall|j: int|
                0 <= j < i ==> (#[trigger] states@[j]).0@ == self::menu_id(profiles@[j].name@)
                    && states@[j].1 == (self::menu_id(profiles@[j].name@) == self::menu_id(
                    selected_name@,
                )),
        decreases profiles@.len() - i,
    {
        let id = profile_name_to_menu_id(profiles[i].name.as_str());
        let checked = str_equal(id.as_str(), selected_id.as_str());
        states.push((id, checked));
        i = i + 1;
    }
    states
}

/// A menu identifier is `icc_profile_` followed by the lower-cased name, character by
/// character, with each space turned into an underscore and every other character kept.
pub proof fn lemma_menu_id_chars(name: Seq<char>)
    ensures
        menu_id(name).len() == 12 + spec_to_lowercase(name).len(),
        menu_id(name).subrange(0, 12) == "icc_profile_"@,
        forall|i: int|
            0 <= i < spec_to_lowercase(name).len() ==> #[trigger] menu_id(name)[12 + i] == (if spec_to_lowercase(
                name,
            )[i] == ' ' {
                '_'
            } else {
                spec_to_lowercase(name)[i]
            }),
{
    reveal_strlit("icc_profile_");
    assert(menu_id(name).subrange(0, 12) =~= "icc_profile_"@);
}

} // verus!
