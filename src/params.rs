//! The raw parameters of a render request and their normalization into a
//! render descriptor in which every number is finite and within its range.
use vstd::prelude::*;
use vstd::string::StringExecFns;
use crate::color::{recolor, recolor_spec, SkinColor};
use crate::float_bits::{
    abs_below, clamp_spec, exponent_field, finite_or_spec, is_finite, key, magnitude, sign_set, sanitize, within, MINUS_ONE,
    ONE, ZERO,
};
use crate::names::{
    emoticon_spec, eyes_spec, is_skin_key, parse_emoticon, parse_eyes, parse_weapon,
    skin_key_valid, weapon_spec, Emoticon, Eyes, Weapon,
};

verus! {

/// Longest skin name a request may carry, in characters.
pub const SKIN_NAME_MAX: usize = 24;

/// Longest player name a request may carry, in characters.
pub const PLAYER_NAME_MAX: usize = 128;

/// Camera zoom when none is given: `0.5`.
pub const ZOOM_DEFAULT: u32 = 0x3f00_0000;

/// Smallest camera zoom: `0.001`.
pub const ZOOM_MIN: u32 = 0x3a83_126f;

/// Largest camera zoom: `20.0`.
pub const ZOOM_MAX: u32 = 0x41a0_0000;

/// Largest camera coordinate: `300000.0`.
pub const POS_MAX: u32 = 0x4892_7c00;

/// Default camera x on the ctf1 map: `173.12`.
pub const CTF1_X: u32 = 0x432d_1eb8;

/// Default camera y on the ctf1 map: `688.96`.
pub const CTF1_Y: u32 = 0x442c_3d71;

/// Default camera x on any other map: `1358.08`.
pub const OTHER_X: u32 = 0x44a9_c28f;

/// Default camera y on any other map: `24240.96`.
pub const OTHER_Y: u32 = 0x46bd_61ec;

/// Below this absolute value both direction components count as zero: `0.001`.
pub const DIR_EPSILON: u32 = 0x3a83_126f;

/// Smallest hook offset per axis: `-10000.0`.
pub const HOOK_MIN: u32 = 0xc61c_4000;

/// Largest hook offset per axis: `10000.0`.
pub const HOOK_MAX: u32 = 0x461c_4000;

/// Latest animation time, in milliseconds: one year of 365 days.
pub const TIME_MAX_MS: u64 = 31_536_000_000;

/// The parameters of a render request as they arrive: every one but the skin
/// name may be missing, and the numbers may be anything, NaN included.
/// Floating-point parameters are carried as `f32::to_bits`.
#[derive(Debug)]
pub struct RenderParams {
    /// Name of the skin to draw.
    pub skin_name: String,
    /// Player name drawn as a nameplate.
    pub player_name: Option<String>,
    pub zoom: Option<u32>,
    /// Camera position.
    pub x: Option<u32>,
    pub y: Option<u32>,
    /// Packed body color; its presence turns custom colors on.
    pub body: Option<i32>,
    /// Packed feet color.
    pub feet: Option<i32>,
    /// Direction the character looks in.
    pub dir_x: Option<u32>,
    pub dir_y: Option<u32>,
    pub eyes: Option<String>,
    pub weapon: Option<String>,
    pub emoticon: Option<String>,
    /// Whether the character has used its double jump.
    pub used_air_jump: Option<bool>,
    /// Whether the character is in the air.
    pub in_air: Option<bool>,
    /// Hook position relative to the character.
    pub hook_x: Option<u32>,
    pub hook_y: Option<u32>,
    /// Time of the frame, for map animations, in milliseconds.
    pub time: Option<u64>,
    pub map_name: Option<String>,
    /// Whether to look up the player's current skin first.
    pub use_player_api: Option<bool>,
}

/// A normalized render request. Floating-point fields are bit patterns.
#[derive(Debug)]
pub struct RenderDescriptor {
    /// The skin to draw; `None` when the name is not a valid key, and the
    /// renderer then draws its default skin.
    pub skin: Option<String>,
    pub player_name: Option<String>,
    pub map_name: String,
    pub zoom: u32,
    pub x: u32,
    pub y: u32,
    /// Look direction before it is scaled to unit length.
    pub dir_x: u32,
    pub dir_y: u32,
    pub custom_color: bool,
    pub color_body: i32,
    pub color_feet: i32,
    pub eyes: Eyes,
    pub weapon: Option<Weapon>,
    pub emoticon: Option<Emoticon>,
    pub hook: Option<(u32, u32)>,
    pub time_ms: u64,
    pub in_air: bool,
    pub used_air_jump: bool,
}

/// A player profile fetched from the upstream service.
#[derive(Debug)]
pub struct Profile {
    pub skin_name: String,
    pub color_body: Option<i32>,
    pub color_feet: Option<i32>,
}

pub open spec fn bits_or(o: Option<u32>, d: u32) -> u32 {
    match o {
        Some(v) => v,
        None => d,
    }
}

/// Whether the request is for the ctf1 map, the one drawn when none is named.
pub open spec fn on_ctf1(p: RenderParams) -> bool {
    match p.map_name {
        Some(m) => m@ == "ctf1"@,
        None => true,
    }
}

pub open spec fn map_name_spec(p: RenderParams) -> Seq<char> {
    match p.map_name {
        Some(m) => m@,
        None => "ctf1"@,
    }
}

pub open spec fn zoom_spec(p: RenderParams) -> u32 {
    clamp_spec(finite_or_spec(bits_or(p.zoom, ZOOM_DEFAULT), ONE), ZOOM_MIN, ZOOM_MAX)
}

pub open spec fn x_spec(p: RenderParams) -> u32 {
    let d = if on_ctf1(p) {
        CTF1_X
    } else {
        OTHER_X
    };
    clamp_spec(finite_or_spec(bits_or(p.x, d), ZERO), ZERO, POS_MAX)
}

pub open spec fn y_spec(p: RenderParams) -> u32 {
    let d = if on_ctf1(p) {
        CTF1_Y
    } else {
        OTHER_Y
    };
    clamp_spec(finite_or_spec(bits_or(p.y, d), ZERO), ZERO, POS_MAX)
}

/// A direction component, defaulted, made finite and clamped to `[-1, 1]`.
pub open spec fn dir_component(o: Option<u32>, d: u32) -> u32 {
    clamp_spec(finite_or_spec(bits_or(o, d), ZERO), MINUS_ONE, ONE)
}

/// Both components near zero: the direction would have no length.
pub open spec fn dir_vanishes(dx: u32, dy: u32) -> bool {
    magnitude(dx) < magnitude(DIR_EPSILON) && magnitude(dy) < magnitude(DIR_EPSILON)
}

pub open spec fn dir_x_spec(p: RenderParams) -> u32 {
    let dx = dir_component(p.dir_x, ONE);
    let dy = dir_component(p.dir_y, ZERO);
    if dir_vanishes(dx, dy) {
        ONE
    } else {
        dx
    }
}

pub open spec fn dir_y_spec(p: RenderParams) -> u32 {
    dir_component(p.dir_y, ZERO)
}

pub open spec fn hook_axis(v: u32) -> u32 {
    clamp_spec(finite_or_spec(v, ZERO), HOOK_MIN, HOOK_MAX)
}

/// A hook is drawn only when both of its coordinates are given.
pub open spec fn hook_spec(p: RenderParams) -> Option<(u32, u32)> {
    match (p.hook_x, p.hook_y) {
        (Some(hx), Some(hy)) => Some((hook_axis(hx), hook_axis(hy))),
        _ => None,
    }
}

pub open spec fn time_spec(p: RenderParams) -> u64 {
    let t = match p.time {
        Some(t) => t,
        None => 0,
    };
    if t > TIME_MAX_MS {
        TIME_MAX_MS
    } else {
        t
    }
}

pub open spec fn flag(o: Option<bool>) -> bool {
    match o {
        Some(b) => b,
        None => false,
    }
}

pub open spec fn packed_or_zero(o: Option<i32>) -> i32 {
    match o {
        Some(c) => c,
        None => 0,
    }
}

/// `d` is the normalization of `p`.
pub open spec fn normalizes_to(p: RenderParams, d: RenderDescriptor) -> bool {
    &&& d.skin == (if skin_key_valid(p.skin_name@) {
        Some(p.skin_name)
    } else {
        None::<String>
    })
    &&& d.player_name == p.player_name
    &&& d.map_name@ == map_name_spec(p)
    &&& d.zoom == zoom_spec(p)
    &&& d.x == x_spec(p)
    &&& d.y == y_spec(p)
    &&& d.dir_x == dir_x_spec(p)
    &&& d.dir_y == dir_y_spec(p)
    &&& d.custom_color == p.body is Some
    &&& d.color_body == packed_or_zero(p.body)
    &&& d.color_feet == packed_or_zero(p.feet)
    &&& d.eyes == eyes_spec(p.eyes)
    &&& d.weapon == weapon_spec(p.weapon)
    &&& d.emoticon == emoticon_spec(p.emoticon)
    &&& d.hook == hook_spec(p)
    &&& d.time_ms == time_spec(p)
    &&& d.in_air == flag(p.in_air)
    &&& d.used_air_jump == flag(p.used_air_jump)
}

pub open spec fn params_in_bounds(p: RenderParams) -> bool {
    &&& p.skin_name@.len() <= SKIN_NAME_MAX
    &&& match p.player_name {
        Some(n) => n@.len() <= PLAYER_NAME_MAX,
        None => true,
    }
}

/// `p` with the profile's skin name and colors in place of its own.
pub open spec fn with_profile(p: RenderParams, profile: Profile) -> RenderParams {
    RenderParams {
        skin_name: profile.skin_name,
        body: profile.color_body,
        feet: profile.color_feet,
        ..p
    }
}

impl RenderDescriptor {
    /// Every number is finite and within its range, the direction has a
    /// length, and a skin that is named is a valid key.
    pub open spec fn wf(&self) -> bool {
        &&& within(self.zoom, ZOOM_MIN, ZOOM_MAX)
        &&& within(self.x, ZERO, POS_MAX)
        &&& within(self.y, ZERO, POS_MAX)
        &&& within(self.dir_x, MINUS_ONE, ONE)
        &&& within(self.dir_y, MINUS_ONE, ONE)
        &&& !dir_vanishes(self.dir_x, self.dir_y)
        &&& match self.hook {
            Some((hx, hy)) => within(hx, HOOK_MIN, HOOK_MAX) && within(hy, HOOK_MIN, HOOK_MAX),
            None => true,
        }
        &&& self.time_ms <= TIME_MAX_MS
        &&& match self.skin {
            Some(s) => skin_key_valid(s@),
            None => true,
        }
    }

    /// The color the body is drawn with.
    pub fn body_color(&self) -> (r: SkinColor)
        ensures
            r == recolor_spec(self.custom_color, self.color_body),
    {
        recolor(self.custom_color, self.color_body)
    }

    /// The color the feet are drawn with: custom colors are on for both parts
    /// or for neither.
    pub fn feet_color(&self) -> (r: SkinColor)
        ensures
            r == recolor_spec(self.custom_color, self.color_feet),
    {
        recolor(self.custom_color, self.color_feet)
    }
}

/// The bounds and fallbacks above are finite, and each range is ordered.
pub proof fn lemma_range_constants()
    ensures
        is_finite(ZERO) && key(ZERO) == 0,
        is_finite(ONE) && key(ONE) == 0x3f80_0000,
        is_finite(MINUS_ONE) && key(MINUS_ONE) == -0x3f80_0000,
        is_finite(ZOOM_MIN) && key(ZOOM_MIN) == 0x3a83_126f,
        is_finite(ZOOM_MAX) && key(ZOOM_MAX) == 0x41a0_0000,
        is_finite(POS_MAX) && key(POS_MAX) == 0x4892_7c00,
        is_finite(HOOK_MIN) && key(HOOK_MIN) == -0x461c_4000,
        is_finite(HOOK_MAX) && key(HOOK_MAX) == 0x461c_4000,
{
    assert(exponent_field(ZERO) != 0xff && !sign_set(ZERO) && magnitude(ZERO) == 0)
        by (bit_vector);
    assert(exponent_field(ONE) != 0xff && !sign_set(ONE) && magnitude(ONE) == 0x3f80_0000)
        by (bit_vector);
    assert(exponent_field(MINUS_ONE) != 0xff && sign_set(MINUS_ONE) && magnitude(MINUS_ONE)
        == 0x3f80_0000) by (bit_vector);
    assert(exponent_field(ZOOM_MIN) != 0xff && !sign_set(ZOOM_MIN) && magnitude(ZOOM_MIN)
        == 0x3a83_126f) by (bit_vector);
    assert(exponent_field(ZOOM_MAX) != 0xff && !sign_set(ZOOM_MAX) && magnitude(ZOOM_MAX)
        == 0x41a0_0000) by (bit_vector);
    assert(exponent_field(POS_MAX) != 0xff && !sign_set(POS_MAX) && magnitude(POS_MAX)
        == 0x4892_7c00) by (bit_vector);
    assert(exponent_field(HOOK_MIN) != 0xff && sign_set(HOOK_MIN) && magnitude(HOOK_MIN)
        == 0x461c_4000) by (bit_vector);
    assert(exponent_field(HOOK_MAX) != 0xff && !sign_set(HOOK_MAX) && magnitude(HOOK_MAX)
        == 0x461c_4000) by (bit_vector);
}

fn bits_or_exec(o: Option<u32>, d: u32) -> (r: u32)
    ensures
        r == bits_or(o, d),
{
    match o {
        Some(v) => v,
        None => d,
    }
}

/// Whether the request's names fit their bounds; a request whose names do not
/// is refused as a whole.
pub fn within_bounds(p: &RenderParams) -> (r: bool)
    ensures
        r == params_in_bounds(*p),
{
    if p.skin_name.as_str().unicode_len() > SKIN_NAME_MAX {
        return false;
    }
    match &p.player_name {
        Some(n) => n.as_str().unicode_len() <= PLAYER_NAME_MAX,
        None => true,
    }
}

/// Turns raw parameters into a render descriptor. Nothing is refused: what is
/// missing takes its default, what is not finite takes its fallback, and what
/// is out of range is clamped.
pub fn normalize(p: RenderParams) -> (d: RenderDescriptor)
    ensures
        normalizes_to(p, d),
        d.wf(),
{
    proof {
        lemma_range_constants();
    }
    let ctf1 = match &p.map_name {
        Some(m) => crate::names::same_text(m.as_str(), "ctf1"),
        None => true,
    };
    let (default_x, default_y) = if ctf1 {
        (CTF1_X, CTF1_Y)
    } else {
        (OTHER_X, OTHER_Y)
    };
    let zoom = sanitize(bits_or_exec(p.zoom, ZOOM_DEFAULT), ONE, ZOOM_MIN, ZOOM_MAX);
    let x = sanitize(bits_or_exec(p.x, default_x), ZERO, ZERO, POS_MAX);
    let y = sanitize(bits_or_exec(p.y, default_y), ZERO, ZERO, POS_MAX);
    let dx = sanitize(bits_or_exec(p.dir_x, ONE), ZERO, MINUS_ONE, ONE);
    let dir_y = sanitize(bits_or_exec(p.dir_y, ZERO), ZERO, MINUS_ONE, ONE);
    let dir_x = if abs_below(dx, DIR_EPSILON) && abs_below(dir_y, DIR_EPSILON) {
        ONE
    } else {
        dx
    };
    let hook = match (p.hook_x, p.hook_y) {
        (Some(hx), Some(hy)) => Some(
            (sanitize(hx, ZERO, HOOK_MIN, HOOK_MAX), sanitize(hy, ZERO, HOOK_MIN, HOOK_MAX)),
        ),
        _ => None,
    };
    let t = match p.time {
        Some(t) => t,
        None => 0,
    };
    let time_ms = if t > TIME_MAX_MS {
        TIME_MAX_MS
    } else {
        t
    };
    let eyes = parse_eyes(&p.eyes);
    let weapon = parse_weapon(&p.weapon);
    let emoticon = parse_emoticon(&p.emoticon);
    let skin = if is_skin_key(p.skin_name.as_str()) {
        Some(p.skin_name)
    } else {
        None
    };
    let map_name = match p.map_name {
        Some(m) => m,
        None => String::from_str("ctf1"),
    };
    let d = RenderDescriptor {
        skin,
        player_name: p.player_name,
        map_name,
        zoom,
        x,
        y,
        dir_x,
        dir_y,
        custom_color: p.body.is_some(),
        color_body: match p.body {
            Some(c) => c,
            None => 0,
        },
        color_feet: match p.feet {
            Some(c) => c,
            None => 0,
        },
        eyes,
        weapon,
        emoticon,
        hook,
        time_ms,
        in_air: match p.in_air {
            Some(b) => b,
            None => false,
        },
        used_air_jump: match p.used_air_jump {
            Some(b) => b,
            None => false,
        },
    };
    proof {
        assert(!dir_vanishes(ONE, dir_y)) by (bit_vector);
    }
    d
}

/// Takes over the skin name and colors of a fetched profile. A profile whose
/// skin name is too long is not taken, and the parameters stay as they are.
pub fn apply_profile(p: &mut RenderParams, profile: Profile) -> (applied: bool)
    ensures
        applied == (profile.skin_name@.len() <= SKIN_NAME_MAX),
        applied ==> *final(p) == with_profile(*old(p), profile),
        !applied ==> *final(p) == *old(p),
{
    if profile.skin_name.as_str().unicode_len() > SKIN_NAME_MAX {
        return false;
    }
    p.skin_name = profile.skin_name;
    p.body = profile.color_body;
    p.feet = profile.color_feet;
    true
}

} // verus!
