//! The colour store: the foreground and background colours the application shows, and how
//! a picker result, a manual edit or a reset changes them.

use vstd::prelude::*;

use crate::common::ColorPickerResult;
use crate::text::str_equal;

verus! {

/// The foreground and background colours, with the continue-mode flag of the last pick.
#[derive(Clone, Copy, Debug)]
pub struct ColorStore {
    pub foreground_rgb: (u8, u8, u8),
    pub background_rgb: (u8, u8, u8),
    pub continue_mode: bool,
}

/// Foreground colour of a fresh store: black.
pub open spec fn default_foreground() -> (u8, u8, u8) {
    (0, 0, 0)
}

/// Background colour of a fresh store: white.
pub open spec fn default_background() -> (u8, u8, u8) {
    (255, 255, 255)
}

/// A fresh store: default colours, continue mode off.
pub open spec fn default_store() -> ColorStore {
    ColorStore {
        foreground_rgb: default_foreground(),
        background_rgb: default_background(),
        continue_mode: false,
    }
}

/// The store after a picker session: each chosen colour replaces the stored one, and the
/// continue-mode flag is the session's.
pub open spec fn after_pick(store: ColorStore, result: ColorPickerResult) -> ColorStore {
    ColorStore {
        foreground_rgb: match result.foreground {
            Some(c) => c,
            None => store.foreground_rgb,
        },
        background_rgb: match result.background {
            Some(c) => c,
            None => store.background_rgb,
        },
        continue_mode: result.continue_mode,
    }
}

/// The store after a manual edit of the colour named `key` (`foreground` or
/// `background`); any other key leaves it unchanged.
pub open spec fn after_update(store: ColorStore, key: Seq<char>, rgb: (u8, u8, u8)) -> ColorStore {
    if key == "foreground"@ {
        ColorStore { foreground_rgb: rgb, ..store }
    } else if key == "background"@ {
        ColorStore { background_rgb: rgb, ..store }
    } else {
        store
    }
}

impl Default for ColorStore {
    fn default() -> (s: Self)
        ensures
            s == default_store(),
    {
        ColorStore { foreground_rgb: (0, 0, 0), background_rgb: (255, 255, 255), continue_mode: false }
    }
}

impl ColorStore {
    /// A copy of the current store.
    pub fn get_store(&self) -> (s: ColorStore)
        ensures
            s == *self,
    {
        *self
    }

    /// Takes in the result of a picker session: chosen colours replace the stored ones,
    /// and the continue-mode flag follows the session. Returns the result, unchanged.
    pub fn pick_color(&mut self, result: ColorPickerResult) -> (res: ColorPickerResult)
        ensures
            *final(self) == after_pick(*old(self), result),
            res == result,
    {
        if let Some((r, g, b)) = result.foreground {
            self.foreground_rgb = (r, g, b);
        }
        if let Some((r, g, b)) = result.background {
            self.background_rgb = (r, g, b);
        }
        self.continue_mode = result.continue_mode;
        result
    }

    /// Sets the colour named `key` (`foreground` or `background`). Returns whether the key
    /// was known and the store changed; an unknown key changes nothing.
    pub fn update_store(&mut self, key: &str, r: u8, g: u8, b: u8) -> (updated: bool)
        ensures
            *final(self) == after_update(*old(self), key@, (r, g, b)),
            updated == (key@ == "foreground"@ || key@ == "background"@),
    {
        if str_equal(key, "foreground") {
            self.foreground_rgb = (r, g, b);
            true
        } else if str_equal(key, "background") {
            self.background_rgb = (r, g, b);
            true
        } else {
            false
        }
    }

    /// Returns the store to its defaults.
    pub fn clear_store(&mut self)
        ensures
            *final(self) == default_store(),
    {
        *self = ColorStore::default();
    }
}

/// What an edit writes is what the store then holds, and the other colour is untouched.
pub proof fn lemma_update_then_read(store: ColorStore, key: Seq<char>, rgb: (u8, u8, u8))
    ensures
        key == "foreground"@ ==> after_update(store, key, rgb).foreground_rgb == rgb
            && after_update(store, key, rgb).background_rgb == store.background_rgb,
        key == "background"@ && key != "foreground"@ ==> after_update(
            store,
            key,
            rgb,
        ).background_rgb == rgb && after_update(store, key, rgb).foreground_rgb
            == store.foreground_rgb,
        key != "foreground"@ && key != "background"@ ==> after_update(store, key, rgb) == store,
        after_update(store, key, rgb).continue_mode == store.continue_mode,
{
}

/// A session that chose nothing leaves both colours as they were; taking in the same
/// result twice changes nothing more than taking it in once.
pub proof fn lemma_pick_keeps_unchosen(store: ColorStore, result: ColorPickerResult)
    ensures
        result.foreground is None ==> after_pick(store, result).foreground_rgb
            == store.foreground_rgb,
        result.background is None ==> after_pick(store, result).background_rgb
            == store.background_rgb,
        after_pick(after_pick(store, result), result) == after_pick(store, result),
{
}

/// Every colour a session chose replaces the stored one, whatever else it chose, and the
/// continue-mode flag is the session's.
pub proof fn lemma_pick_stores_chosen(store: ColorStore, result: ColorPickerResult)
    ensures
        result.foreground matches Some(c) ==> after_pick(store, result).foreground_rgb == c,
        result.background matches Some(c) ==> after_pick(store, result).background_rgb == c,
        after_pick(store, result).continue_mode == result.continue_mode,
{
}

/// A fresh or cleared store holds black on white with continue mode off.
pub proof fn lemma_default_is_black_on_white()
    ensures
        default_store().foreground_rgb == (0u8, 0u8, 0u8),
        default_store().background_rgb == (255u8, 255u8, 255u8),
        !default_store().continue_mode,
{
}

} // verus!
