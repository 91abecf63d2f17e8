//! Lookups of the names that a request gives for eyes, weapon and emoticon,
//! and the grammar that a skin name must meet to be looked up at all.
//!
//! Names are matched without regard to case: the input is lowercased first
//! and then compared with the lowercase names below.
use vstd::prelude::*;

verus! {

/// Longest skin name that the asset store accepts, in characters.
pub const SKIN_KEY_MAX: usize = 24;

/// The eye expression of the character.
#[derive(Clone, Copy, Debug, PartialEq, Eq, Structural)]
pub enum Eyes {
    Normal,
    Angry,
    Pain,
    Happy,
    Surprised,
    Blink,
}

/// The weapon held by the character.
#[derive(Clone, Copy, Debug, PartialEq, Eq, Structural)]
pub enum Weapon {
    Hammer,
    Gun,
    Shotgun,
    Grenade,
    Laser,
}

/// The emoticon shown above the character.
#[derive(Clone, Copy, Debug, PartialEq, Eq, Structural)]
pub enum Emoticon {
    Oop,
    Exclamation,
    Hearts,
    Drop,
    DotDot,
    Music,
    Sorry,
    GhostFace,
    Sushi,
    SplatTee,
    DevilTee,
    Zomg,
    Zzz,
    Wtf,
    Eyes,
    Question,
}

/// What `str::to_lowercase` gives for a string.
pub uninterp spec fn lower_of(s: Seq<char>) -> Seq<char>;

/// Relies on `str::to_lowercase`: the lowercase form of a string, which
/// depends on its characters alone.
#[verifier::external_body]
fn lowercase(s: &str) -> (r: String)
    ensures
        r@ == lower_of(s@),
{
    s.to_lowercase()
}

/// The eye expression that a lowercase name stands for; any other name gives
/// the normal eyes.
pub open spec fn eyes_named(s: Seq<char>) -> Eyes {
    if s == "angry"@ {
        Eyes::Angry
    } else if s == "pain"@ {
        Eyes::Pain
    } else if s == "happy"@ {
        Eyes::Happy
    } else if s == "surprised"@ {
        Eyes::Surprised
    } else if s == "blink"@ {
        Eyes::Blink
    } else {
        Eyes::Normal
    }
}

/// The weapon that a lowercase name stands for; any other name gives the
/// hammer, the first weapon.
pub open spec fn weapon_named(s: Seq<char>) -> Weapon {
    if s == "gun"@ {
        Weapon::Gun
    } else if s == "shotgun"@ {
        Weapon::Shotgun
    } else if s == "grenade"@ {
        Weapon::Grenade
    } else if s == "laser"@ {
        Weapon::Laser
    } else {
        Weapon::Hammer
    }
}

/// The emoticon that a lowercase name stands for, if any.
pub open spec fn emoticon_named(s: Seq<char>) -> Option<Emoticon> {
    if s == "oop"@ {
        Some(Emoticon::Oop)
    } else if s == "exclamation"@ {
        Some(Emoticon::Exclamation)
    } else if s == "hearts"@ {
        Some(Emoticon::Hearts)
    } else if s == "drop"@ {
        Some(Emoticon::Drop)
    } else if s == "dotdot"@ {
        Some(Emoticon::DotDot)
    } else if s == "music"@ {
        Some(Emoticon::Music)
    } else if s == "sorry"@ {
        Some(Emoticon::Sorry)
    } else if s == "ghost"@ {
        Some(Emoticon::GhostFace)
    } else if s == "sushi"@ {
        Some(Emoticon::Sushi)
    } else if s == "splattee"@ {
        Some(Emoticon::SplatTee)
    } else if s == "deviltee"@ {
        Some(Emoticon::DevilTee)
    } else if s == "zomg"@ {
        Some(Emoticon::Zomg)
    } else if s == "zzz"@ {
        Some(Emoticon::Zzz)
    } else if s == "wtf"@ {
        Some(Emoticon::Wtf)
    } else if s == "eyes"@ {
        Some(Emoticon::Eyes)
    } else if s == "question"@ {
        Some(Emoticon::Question)
    } else {
        None
    }
}

/// Eyes asked for by an optional name: absent gives the normal eyes.
pub open spec fn eyes_spec(name: Option<String>) -> Eyes {
    match name {
        Some(s) => eyes_named(lower_of(s@)),
        None => Eyes::Normal,
    }
}

/// Weapon asked for by an optional name: absent gives no weapon.
pub open spec fn weapon_spec(name: Option<String>) -> Option<Weapon> {
    match name {
        Some(s) => Some(weapon_named(lower_of(s@))),
        None => None,
    }
}

/// Emoticon asked for by an optional name: absent or unknown gives none.
pub open spec fn emoticon_spec(name: Option<String>) -> Option<Emoticon> {
    match name {
        Some(s) => emoticon_named(lower_of(s@)),
        None => None,
    }
}

/// A character allowed in a skin name: an ASCII letter or digit, `_` or `-`.
pub open spec fn key_char(c: char) -> bool {
    ('a' <= c && c <= 'z') || ('A' <= c && c <= 'Z') || ('0' <= c && c <= '9') || c == '_'
        || c == '-'
}

/// A name that the asset store can look up: one to `SKIN_KEY_MAX` allowed
/// characters.
pub open spec fn skin_key_valid(s: Seq<char>) -> bool {
    &&& 1 <= s.len() <= SKIN_KEY_MAX
    &&& forall|i: int| 0 <= i < s.len() ==> key_char(#[trigger] s[i])
}

/// Whether two strings hold the same characters.
pub fn same_text(a: &str, b: &str) -> (r: bool)
    ensures
        r == (a@ == b@),
{
    let n = a.unicode_len();
    if n != b.unicode_len() {
        return false;
    }
    let mut i: usize = 0;
    while i < n
        invariant
            n == a@.len(),
            n == b@.len(),
            i <= n,
            forall|j: int| 0 <= j < i ==> a@[j] == b@[j],
        decreases n - i,
    {
        if a.get_char(i) != b.get_char(i) {
            return false;
        }
        i += 1;
    }
    assert(a@ =~= b@);
    true
}

/// The eye expression that an already lowercased name stands for.
pub fn eyes_from_lowercase(s: &str) -> (r: Eyes)
    ensures
        r == eyes_named(s@),
{
    if same_text(s, "angry") {
        Eyes::Angry
    } else if same_text(s, "pain") {
        Eyes::Pain
    } else if same_text(s, "happy") {
        Eyes::Happy
    } else if same_text(s, "surprised") {
        Eyes::Surprised
    } else if same_text(s, "blink") {
        Eyes::Blink
    } else {
        Eyes::Normal
    }
}

/// The weapon that an already lowercased name stands for.
pub fn weapon_from_lowercase(s: &str) -> (r: Weapon)
    ensures
        r == weapon_named(s@),
{
    if same_text(s, "gun") {
        Weapon::Gun
    } else if same_text(s, "shotgun") {
        Weapon::Shotgun
    } else if same_text(s, "grenade") {
        Weapon::Grenade
    } else if same_text(s, "laser") {
        Weapon::Laser
    } else {
        Weapon::Hammer
    }
}

/// The emoticon that an already lowercased name stands for, if any.
pub fn emoticon_from_lowercase(s: &str) -> (r: Option<Emoticon>)
    ensures
        r == emoticon_named(s@),
{
    if same_text(s, "oop") {
        Some(Emoticon::Oop)
    } else if same_text(s, "exclamation") {
        Some(Emoticon::Exclamation)
    } else if same_text(s, "hearts") {
        Some(Emoticon::Hearts)
    } else if same_text(s, "drop") {
        Some(Emoticon::Drop)
    } else if same_text(s, "dotdot") {
        Some(Emoticon::DotDot)
    } else if same_text(s, "music") {
        Some(Emoticon::Music)
    } else if same_text(s, "sorry") {
        Some(Emoticon::Sorry)
    } else if same_text(s, "ghost") {
        Some(Emoticon::GhostFace)
    } else if same_text(s, "sushi") {
        Some(Emoticon::Sushi)
    } else if same_text(s, "splattee") {
        Some(Emoticon::SplatTee)
    } else if same_text(s, "deviltee") {
        Some(Emoticon::DevilTee)
    } else if same_text(s, "zomg") {
        Some(Emoticon::Zomg)
    } else if same_text(s, "zzz") {
        Some(Emoticon::Zzz)
    } else if same_text(s, "wtf") {
        Some(Emoticon::Wtf)
    } else if same_text(s, "eyes") {
        Some(Emoticon::Eyes)
    } else if same_text(s, "question") {
        Some(Emoticon::Question)
    } else {
        None
    }
}

/// The eye expression asked for, matched without regard to case.
pub fn parse_eyes(name: &Option<String>) -> (r: Eyes)
    ensures
        r == eyes_spec(*name),
{
    match name {
        Some(s) => eyes_from_lowercase(lowercase(s.as_str()).as_str()),
        None => Eyes::Normal,
    }
}

/// The weapon asked for, matched without regard to case.
pub fn parse_weapon(name: &Option<String>) -> (r: Option<Weapon>)
    ensures
        r == weapon_spec(*name),
{
    match name {
        Some(s) => Some(weapon_from_lowercase(lowercase(s.as_str()).as_str())),
        None => None,
    }
}

/// The emoticon asked for, matched without regard to case.
pub fn parse_emoticon(name: &Option<String>) -> (r: Option<Emoticon>)
    ensures
        r == emoticon_spec(*name),
{
    match name {
        Some(s) => emoticon_from_lowercase(lowercase(s.as_str()).as_str()),
        None => None,
    }
}

/// Whether a skin name meets the grammar of the asset store's keys.
pub fn is_skin_key(s: &str) -> (r: bool)
    ensures
        r == skin_key_valid(s@),
{
    let n = s.unicode_len();
    if n < 1 || n > SKIN_KEY_MAX {
        return false;
    }
    let mut i: usize = 0;
    while i < n
        invariant
            n == s@.len(),
            1 <= n <= SKIN_KEY_MAX,
            i <= n,
            forall|j: int| 0 <= j < i ==> key_char(#[trigger] s@[j]),
        decreases n - i,
    {
        let c = s.get_char(i);
        if !(('a' <= c && c <= 'z') || ('A' <= c && c <= 'Z') || ('0' <= c && c <= '9') || c
            == '_' || c == '-') {
            return false;
        }
        i += 1;
    }
    true
}

} // verus!
