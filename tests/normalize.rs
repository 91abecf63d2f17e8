use skin_preview::color::SkinColor;
use skin_preview::float_bits::{clamp_bits, f32_is_finite, order_key, sanitize};
use skin_preview::names::{Emoticon, Eyes, Weapon};
use skin_preview::params::{apply_profile, normalize, within_bounds, Profile, RenderParams};

fn params(skin: &str) -> RenderParams {
    RenderParams {
        skin_name: skin.to_string(),
        player_name: None,
        zoom: None,
        x: None,
        y: None,
        body: None,
        feet: None,
        dir_x: None,
        dir_y: None,
        eyes: None,
        weapon: None,
        emoticon: None,
        used_air_jump: None,
        in_air: None,
        hook_x: None,
        hook_y: None,
        time: None,
        map_name: None,
        use_player_api: None,
    }
}

fn f(b: u32) -> f32 {
    f32::from_bits(b)
}

#[test]
fn finite_check_on_special_values() {
    assert!(f32_is_finite(1.5f32.to_bits()));
    assert!(f32_is_finite((-0.0f32).to_bits()));
    assert!(f32_is_finite(f32::MAX.to_bits()));
    assert!(!f32_is_finite(f32::NAN.to_bits()));
    assert!(!f32_is_finite(f32::INFINITY.to_bits()));
    assert!(!f32_is_finite(f32::NEG_INFINITY.to_bits()));
}

#[test]
fn order_key_follows_numbers() {
    let values = [-1e30f32, -2.0, -0.5, 0.0, 1e-40, 0.25, 3.0, 1e30];
    for w in values.windows(2) {
        assert!(order_key(w[0].to_bits()) < order_key(w[1].to_bits()));
    }
    assert_eq!(order_key(0.0f32.to_bits()), order_key((-0.0f32).to_bits()));
}

#[test]
fn clamp_matches_std() {
    let cases = [-5.0f32, -1.0, -0.25, 0.0, 0.5, 1.0, 7.0, f32::INFINITY, f32::NEG_INFINITY];
    for v in cases {
        let got = f(clamp_bits(v.to_bits(), (-1.0f32).to_bits(), 1.0f32.to_bits()));
        assert_eq!(got, v.clamp(-1.0, 1.0));
    }
}

#[test]
fn sanitize_replaces_non_finite() {
    let lo = 0.0f32.to_bits();
    let hi = 300000.0f32.to_bits();
    assert_eq!(f(sanitize(f32::NAN.to_bits(), lo, lo, hi)), 0.0);
    assert_eq!(f(sanitize(f32::INFINITY.to_bits(), lo, lo, hi)), 0.0);
    assert_eq!(f(sanitize(f32::NEG_INFINITY.to_bits(), lo, lo, hi)), 0.0);
    assert_eq!(f(sanitize(1e9f32.to_bits(), lo, lo, hi)), 300000.0);
    assert_eq!(f(sanitize((-3.0f32).to_bits(), lo, lo, hi)), 0.0);
    assert_eq!(f(sanitize(42.5f32.to_bits(), lo, lo, hi)), 42.5);
}

#[test]
fn default_request_on_ctf1() {
    let d = normalize(params("default"));
    assert_eq!(d.skin.as_deref(), Some("default"));
    assert_eq!(d.map_name, "ctf1");
    assert_eq!(f(d.x), 173.12);
    assert_eq!(f(d.y), 688.96);
    assert_eq!(f(d.zoom), 0.5);
    assert_eq!((f(d.dir_x), f(d.dir_y)), (1.0, 0.0));
    assert!(!d.custom_color);
    assert_eq!(d.body_color(), SkinColor::Original);
    assert_eq!(d.feet_color(), SkinColor::Original);
    assert_eq!(d.hook, None);
    assert_eq!(d.weapon, None);
    assert_eq!(d.emoticon, None);
    assert_eq!(d.eyes, Eyes::Normal);
    assert_eq!(d.time_ms, 0);
    assert!(!d.in_air);
    assert!(!d.used_air_jump);
    assert_eq!(d.player_name, None);
}

#[test]
fn other_map_defaults() {
    let mut p = params("default");
    p.map_name = Some("dm1".to_string());
    let d = normalize(p);
    assert_eq!(d.map_name, "dm1");
    assert_eq!(f(d.x), 1358.08);
    assert_eq!(f(d.y), 24240.96);
}

#[test]
fn nan_x_with_absent_y() {
    let mut p = params("default");
    p.x = Some(f32::NAN.to_bits());
    let d = normalize(p);
    assert_eq!(f(d.x), 0.0);
    assert_eq!(f(d.y), 688.96);
}

#[test]
fn invalid_skin_name_falls_back() {
    let d = normalize(params("no such skin!"));
    assert_eq!(d.skin, None);
    let d = normalize(params(""));
    assert_eq!(d.skin, None);
    let d = normalize(params("santa_blue-kitty2"));
    assert_eq!(d.skin.as_deref(), Some("santa_blue-kitty2"));
}

#[test]
fn zoom_rules() {
    let mut p = params("default");
    p.zoom = Some(f32::INFINITY.to_bits());
    assert_eq!(f(normalize(p).zoom), 1.0);
    let mut p = params("default");
    p.zoom = Some(f32::NAN.to_bits());
    assert_eq!(f(normalize(p).zoom), 1.0);
    let mut p = params("default");
    p.zoom = Some(0.0f32.to_bits());
    assert_eq!(f(normalize(p).zoom), 0.001);
    let mut p = params("default");
    p.zoom = Some(1000.0f32.to_bits());
    assert_eq!(f(normalize(p).zoom), 20.0);
    let mut p = params("default");
    p.zoom = Some(0.25f32.to_bits());
    assert_eq!(f(normalize(p).zoom), 0.25);
}

#[test]
fn every_output_is_finite_and_in_range() {
    let specials = [
        f32::NAN,
        f32::INFINITY,
        f32::NEG_INFINITY,
        f32::MAX,
        f32::MIN,
        f32::MIN_POSITIVE,
        -0.0,
        0.0,
        1e-45,
        -7.5,
        123456.0,
    ];
    for v in specials {
        let mut p = params("default");
        let b = v.to_bits();
        p.zoom = Some(b);
        p.x = Some(b);
        p.y = Some(b);
        p.dir_x = Some(b);
        p.dir_y = Some(b);
        p.hook_x = Some(b);
        p.hook_y = Some(b);
        let d = normalize(p);
        let zoom = f(d.zoom);
        assert!(zoom.is_finite() && (0.001..=20.0).contains(&zoom));
        for c in [f(d.x), f(d.y)] {
            assert!(c.is_finite() && (0.0..=300000.0).contains(&c));
        }
        for c in [f(d.dir_x), f(d.dir_y)] {
            assert!(c.is_finite() && (-1.0..=1.0).contains(&c));
        }
        assert!(f(d.dir_x).abs() >= 0.001 || f(d.dir_y).abs() >= 0.001);
        let (hx, hy) = d.hook.unwrap();
        for c in [f(hx), f(hy)] {
            assert!(c.is_finite() && (-10000.0..=10000.0).contains(&c));
        }
    }
}

#[test]
fn vanishing_direction_points_right() {
    let mut p = params("default");
    p.dir_x = Some(0.0005f32.to_bits());
    p.dir_y = Some((-0.0002f32).to_bits());
    let d = normalize(p);
    assert_eq!((f(d.dir_x), f(d.dir_y)), (1.0, -0.0002));
    let mut p = params("default");
    p.dir_x = Some(0.0f32.to_bits());
    p.dir_y = Some(5.0f32.to_bits());
    let d = normalize(p);
    assert_eq!((f(d.dir_x), f(d.dir_y)), (0.0, 1.0));
}

#[test]
fn hook_needs_both_coordinates() {
    let mut p = params("default");
    p.hook_x = Some(5.0f32.to_bits());
    assert_eq!(normalize(p).hook, None);
    let mut p = params("default");
    p.hook_x = Some(20000.0f32.to_bits());
    p.hook_y = Some(f32::NEG_INFINITY.to_bits());
    let (hx, hy) = normalize(p).hook.unwrap();
    assert_eq!((f(hx), f(hy)), (10000.0, 0.0));
}

#[test]
fn time_is_capped_at_a_year() {
    let mut p = params("default");
    p.time = Some(u64::MAX);
    assert_eq!(normalize(p).time_ms, 31_536_000_000);
    let mut p = params("default");
    p.time = Some(1234);
    assert_eq!(normalize(p).time_ms, 1234);
}

#[test]
fn names_match_without_case() {
    let mut p = params("default");
    p.eyes = Some("HaPpY".to_string());
    p.weapon = Some("LASER".to_string());
    p.emoticon = Some("Hearts".to_string());
    let d = normalize(p);
    assert_eq!(d.eyes, Eyes::Happy);
    assert_eq!(d.weapon, Some(Weapon::Laser));
    assert_eq!(d.emoticon, Some(Emoticon::Hearts));
}

#[test]
fn unknown_names_fall_back() {
    let mut p = params("default");
    p.eyes = Some("sleepy".to_string());
    p.weapon = Some("katana".to_string());
    p.emoticon = Some("unknown".to_string());
    let d = normalize(p);
    assert_eq!(d.eyes, Eyes::Normal);
    assert_eq!(d.weapon, Some(Weapon::Hammer));
    assert_eq!(d.emoticon, None);
}

#[test]
fn custom_colors_follow_the_body() {
    let mut p = params("default");
    p.body = Some(0x0012_3456);
    let d = normalize(p);
    assert!(d.custom_color);
    assert_eq!(d.color_feet, 0);
    assert!(matches!(d.feet_color(), SkinColor::Colorable(_)));
    let mut p = params("default");
    p.feet = Some(0x0012_3456);
    let d = normalize(p);
    assert!(!d.custom_color);
    assert_eq!(d.feet_color(), SkinColor::Original);
}

#[test]
fn flags_are_kept() {
    let mut p = params("default");
    p.in_air = Some(true);
    p.used_air_jump = Some(true);
    p.player_name = Some("nameless tee".to_string());
    let d = normalize(p);
    assert!(d.in_air && d.used_air_jump);
    assert_eq!(d.player_name.as_deref(), Some("nameless tee"));
}

#[test]
fn name_bounds() {
    assert!(within_bounds(&params("default")));
    assert!(within_bounds(&params(&"a".repeat(24))));
    assert!(!within_bounds(&params(&"a".repeat(25))));
    let mut p = params("default");
    p.player_name = Some("é".repeat(128));
    assert!(within_bounds(&p));
    p.player_name = Some("é".repeat(129));
    assert!(!within_bounds(&p));
}

#[test]
fn profile_replaces_skin_and_colors() {
    let mut p = params("default");
    p.body = Some(7);
    p.feet = Some(8);
    let applied = apply_profile(
        &mut p,
        Profile { skin_name: "saddo".to_string(), color_body: Some(1), color_feet: None },
    );
    assert!(applied);
    assert_eq!(p.skin_name, "saddo");
    assert_eq!(p.body, Some(1));
    assert_eq!(p.feet, None);

    let applied = apply_profile(
        &mut p,
        Profile { skin_name: "x".repeat(25), color_body: Some(2), color_feet: Some(3) },
    );
    assert!(!applied);
    assert_eq!(p.skin_name, "saddo");
    assert_eq!(p.body, Some(1));
}
