//! The preferences that the application keeps in its store: the window's
//! size and opacity and the toggle combination, and the settings file as
//! the frontend sees it.
//!
//! The document is keyed by `window_width`, `window_height`,
//! `window_opacity` and `shortcuts`; the last is an object whose member
//! `toggle_window` holds the toggle combination.

use vstd::prelude::*;
use crate::geometry::{size_or_fallback, WindowGeometry};
use crate::json::{
    as_f64_bits, as_str, as_u64, from_text, from_u32, get, json_as_f64_bits, json_as_str,
    json_as_u64, json_from_text, json_from_u32, json_get, json_object, json_parse, member_views,
    object_from, parse,
};
use crate::opacity::{clamped, is_nan, WindowOpacity};
use crate::shortcut::DEFAULT_TOGGLE_SHORTCUT;
use crate::store::{lookup, PreferenceStore};

verus! {

/// Key under which the window's width is kept.
pub const WIDTH_KEY: &'static str = "window_width";

/// Key under which the window's height is kept.
pub const HEIGHT_KEY: &'static str = "window_height";

/// Key under which the window's opacity is kept.
pub const OPACITY_KEY: &'static str = "window_opacity";

/// Key under which the shortcuts are kept, as an object.
pub const SHORTCUTS_KEY: &'static str = "shortcuts";

/// Member of the shortcuts object that holds the toggle combination.
pub const TOGGLE_FIELD: &'static str = "toggle_window";

/// Name of the file that holds the document, below the application's data
/// directory.
pub const SETTINGS_FILE: &'static str = "settings.json";

/// What is reported in place of the settings file's path where the data
/// directory cannot be found.
pub const CONFIG_PATH_ERROR: &'static str = "Error getting path";

/// The number kept under `key`, where there is one that a `u64` holds.
pub open spec fn stored_u64(document: Map<Seq<char>, serde_json::Value>, key: Seq<char>) -> Option<
    u64,
> {
    match lookup(document, key) {
        Some(value) => json_as_u64(value),
        None => None,
    }
}

/// A stored number as the side of a window: positive and within `u32`, or
/// nothing.
pub open spec fn as_side(stored: Option<u64>) -> Option<u32> {
    match stored {
        Some(n) => if 0 < n <= u32::MAX {
            Some(n as u32)
        } else {
            None
        },
        None => None,
    }
}

/// The window size that two stored numbers make: both are there and each
/// is the side of a window.
pub open spec fn size_of(width: Option<u64>, height: Option<u64>) -> Option<WindowGeometry> {
    match (as_side(width), as_side(height)) {
        (Some(width), Some(height)) => Some(WindowGeometry { width, height }),
        _ => None,
    }
}

/// The window size that the document holds.
pub open spec fn stored_size(document: Map<Seq<char>, serde_json::Value>) -> Option<
    WindowGeometry,
> {
    size_of(stored_u64(document, WIDTH_KEY@), stored_u64(document, HEIGHT_KEY@))
}

/// The combination to arm for what the document holds: the stored one, or
/// the default where there is none.
pub open spec fn shortcut_or(stored: Option<Seq<char>>) -> Seq<char> {
    match stored {
        Some(binding) => binding,
        None => DEFAULT_TOGGLE_SHORTCUT@,
    }
}

/// The document with a window size written to it.
pub open spec fn with_size(
    document: Map<Seq<char>, serde_json::Value>,
    size: WindowGeometry,
) -> Map<Seq<char>, serde_json::Value> {
    document.insert(WIDTH_KEY@, json_from_u32(size.width)).insert(
        HEIGHT_KEY@,
        json_from_u32(size.height),
    )
}

/// The toggle combination that the document holds: the text of the member
/// `toggle_window` of the object under `shortcuts`.
pub open spec fn stored_shortcut(document: Map<Seq<char>, serde_json::Value>) -> Option<Seq<char>> {
    match lookup(document, SHORTCUTS_KEY@) {
        Some(shortcuts) => match json_get(shortcuts, TOGGLE_FIELD@) {
            Some(binding) => json_as_str(binding),
            None => None,
        },
        None => None,
    }
}

/// The shortcuts object that holds `binding` as the toggle combination.
pub open spec fn shortcuts_object(binding: Seq<char>) -> serde_json::Value {
    json_object(seq![(TOGGLE_FIELD@, json_from_text(binding))])
}

/// The opacity that the document holds, as the bit pattern of the stored
/// number.
pub open spec fn stored_opacity_bits(document: Map<Seq<char>, serde_json::Value>) -> Option<u64> {
    match lookup(document, OPACITY_KEY@) {
        Some(value) => json_as_f64_bits(value),
        None => None,
    }
}

/// The document that a settings file's contents stand for: what the
/// contents parse to, and the empty object where there are none or they do
/// not parse.
pub open spec fn settings_document(parsed: Option<serde_json::Value>) -> serde_json::Value {
    match parsed {
        Some(document) => document,
        None => json_object(Seq::empty()),
    }
}

impl PreferenceStore {
    /// The window size that the document holds, if it holds one. A side
    /// that is missing, is no whole number, is zero or is beyond `u32`
    /// makes the size unusable.
    pub fn window_size(&self) -> (size: Option<WindowGeometry>)
        ensures
            size == stored_size(self@),
    {
        size_from_stored(self.number(WIDTH_KEY), self.number(HEIGHT_KEY))
    }

    fn number(&self, key: &str) -> (stored: Option<u64>)
        ensures
            stored == stored_u64(self@, key@),
    {
        match self.peek(key) {
            Some(value) => as_u64(value),
            None => None,
        }
    }

    /// The size that the window opens with: the stored one, or 600 by 400
    /// where the document holds none that is usable.
    pub fn startup_size(&self) -> (size: WindowGeometry)
        ensures
            size == size_or_fallback(stored_size(self@)),
            size.is_valid(),
            self@ == Map::<Seq<char>, serde_json::Value>::empty() ==> size
                == WindowGeometry::spec_fallback(),
    {
        match self.window_size() {
            Some(size) => size,
            None => WindowGeometry::fallback(),
        }
    }

    /// Writes the window's size to the document, given the outer size
    /// that the host read from the window. A size that could not be read,
    /// or that has an empty side, is not written. The result tells whether
    /// the document changed and is to be flushed. A size that was written
    /// is the size that `window_size` finds.
    pub fn save_window_size(&mut self, size: Option<WindowGeometry>) -> (saved: bool)
        ensures
            saved == (size matches Some(s) && s.is_valid()),
            saved ==> final(self)@ == with_size(old(self)@, size->0),
            saved ==> stored_size(final(self)@) == size,
            !saved ==> final(self)@ == old(self)@,
            stored_shortcut(final(self)@) == stored_shortcut(old(self)@),
            stored_opacity_bits(final(self)@) == stored_opacity_bits(old(self)@),
    {
        match size {
            Some(s) => {
                if s.valid() {
                    self.set(WIDTH_KEY.to_owned(), from_u32(s.width));
                    self.set(HEIGHT_KEY.to_owned(), from_u32(s.height));
                    proof {
                        lemma_keys_differ();
                    }
                    true
                } else {
                    false
                }
            },
            None => false,
        }
    }

    /// The toggle combination to arm at startup: the stored one, or the
    /// default where the document holds none.
    pub fn toggle_shortcut(&self) -> (binding: String)
        ensures
            binding@ == shortcut_or(stored_shortcut(self@)),
    {
        let stored: Option<&str> = match self.peek(SHORTCUTS_KEY) {
            Some(shortcuts) => match get(shortcuts, TOGGLE_FIELD) {
                Some(binding) => as_str(binding),
                None => None,
            },
            None => None,
        };
        shortcut_or_default(stored)
    }

    /// Writes the toggle combination to the document. It is the one that
    /// `toggle_shortcut` finds afterwards.
    pub fn save_toggle_shortcut(&mut self, binding: &str)
        ensures
            final(self)@ == old(self)@.insert(SHORTCUTS_KEY@, shortcuts_object(binding@)),
            stored_shortcut(final(self)@) == Some(binding@),
            stored_size(final(self)@) == stored_size(old(self)@),
            stored_opacity_bits(final(self)@) == stored_opacity_bits(old(self)@),
    {
        proof {
            lemma_keys_differ();
        }
        let mut members: Vec<(String, serde_json::Value)> = Vec::new();
        members.push((TOGGLE_FIELD.to_owned(), from_text(binding)));
        assert(member_views(members@) =~= seq![(TOGGLE_FIELD@, json_from_text(binding@))]);
        let shortcuts = object_from(members);
        self.set(SHORTCUTS_KEY.to_owned(), shortcuts);
    }

    /// The opacity that the window opens with, if the document holds one:
    /// the stored number brought within the limits.
    pub fn opacity(&self) -> (opacity: Option<WindowOpacity>)
        ensures
            match stored_opacity_bits(self@) {
                Some(bits) => if is_nan(bits) {
                    opacity is None
                } else {
                    opacity matches Some(o) && o@ == clamped(bits)
                },
                None => opacity is None,
            },
    {
        match self.peek(OPACITY_KEY) {
            Some(value) => match as_f64_bits(value) {
                Some(bits) => WindowOpacity::from_bits(bits),
                None => None,
            },
            None => None,
        }
    }
}

/// Makes a window size of the two numbers read from the document. A
/// number that is missing, is zero or is beyond `u32` makes the size
/// unusable.
pub fn size_from_stored(width: Option<u64>, height: Option<u64>) -> (size: Option<WindowGeometry>)
    ensures
        size == size_of(width, height),
{
    match (width, height) {
        (Some(w), Some(h)) => {
            if 0 < w && w <= u32::MAX as u64 && 0 < h && h <= u32::MAX as u64 {
                Some(WindowGeometry { width: w as u32, height: h as u32 })
            } else {
                None
            }
        },
        _ => None,
    }
}

/// The combination to arm, given the one read from the document, if any.
pub fn shortcut_or_default(stored: Option<&str>) -> (binding: String)
    ensures
        binding@ == shortcut_or(
            match stored {
                Some(text) => Some(text@),
                None => None,
            },
        ),
{
    match stored {
        Some(text) => text.to_owned(),
        None => DEFAULT_TOGGLE_SHORTCUT.to_owned(),
    }
}

/// The four keys of the document are four different texts.
pub proof fn lemma_keys_differ()
    ensures
        WIDTH_KEY@ != HEIGHT_KEY@,
        WIDTH_KEY@ != OPACITY_KEY@,
        WIDTH_KEY@ != SHORTCUTS_KEY@,
        HEIGHT_KEY@ != OPACITY_KEY@,
        HEIGHT_KEY@ != SHORTCUTS_KEY@,
        OPACITY_KEY@ != SHORTCUTS_KEY@,
{
    reveal_strlit("window_width");
    reveal_strlit("window_height");
    reveal_strlit("window_opacity");
    reveal_strlit("shortcuts");
    assert(WIDTH_KEY@.len() == 12);
    assert(HEIGHT_KEY@.len() == 13);
    assert(OPACITY_KEY@.len() == 14);
    assert(SHORTCUTS_KEY@.len() == 9);
}

/// The settings document for the frontend, given the contents of the
/// settings file, or `None` where the file could not be read: what the
/// contents parse to as JSON, and the empty object otherwise.
pub fn get_settings(contents: Option<&str>) -> (document: serde_json::Value)
    ensures
        document == settings_document(
            match contents {
                Some(text) => json_parse(text@),
                None => None,
            },
        ),
{
    let parsed = match contents {
        Some(text) => match parse(text) {
            Ok(document) => Some(document),
            Err(_) => None,
        },
        None => None,
    };
    document_or_empty(parsed)
}

/// The parsed settings document, or the empty object where there is none.
pub fn document_or_empty(parsed: Option<serde_json::Value>) -> (document: serde_json::Value)
    ensures
        document == settings_document(parsed),
{
    match parsed {
        Some(document) => document,
        None => {
            let members: Vec<(String, serde_json::Value)> = Vec::new();
            assert(member_views(members@) =~= Seq::empty());
            object_from(members)
        },
    }
}

/// The settings file's path as reported to the frontend: the path, or the
/// text `CONFIG_PATH_ERROR` where the data directory could not be found.
pub fn get_config_path(path: Option<String>) -> (report: String)
    ensures
        report@ == (match path {
            Some(p) => p@,
            None => CONFIG_PATH_ERROR@,
        }),
{
    match path {
        Some(p) => p,
        None => CONFIG_PATH_ERROR.to_owned(),
    }
}

} // verus!
