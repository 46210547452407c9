use backrooms_raycaster::color::{shade_color, Rgba};
use backrooms_raycaster::effects::Effects;
use backrooms_raycaster::shading::{apply_fog, distance_shade_factor, orientation_shade_factor};

#[test]
fn orientation_darkens_vertical_faces() {
    assert_eq!(orientation_shade_factor(true), 243);
    assert_eq!(orientation_shade_factor(false), 256);
}

#[test]
fn distance_shading_falls_linearly_to_three_quarters() {
    assert_eq!(distance_shade_factor(0, 1000), 256);
    assert_eq!(distance_shade_factor(500, 1000), 224);
    assert_eq!(distance_shade_factor(1000, 1000), 192);
    assert_eq!(distance_shade_factor(5000, 1000), 192);
    assert_eq!(distance_shade_factor(7, 0), 256);
}

#[test]
fn distance_shading_never_brightens_with_distance() {
    for max in [1u64, 7, 1000, 20480] {
        let mut prev = distance_shade_factor(0, max);
        for d in 1..3000u64 {
            let s = distance_shade_factor(d, max);
            assert!(s <= prev);
            prev = s;
        }
    }
}

#[test]
fn fog_is_absent_at_zero_and_complete_at_fog_distance() {
    let c = Rgba::new(200, 100, 50, 255);
    let fog = Rgba::new(80, 75, 50, 255);
    assert_eq!(apply_fog(c, 0, 1000, fog), c);
    assert_eq!(apply_fog(c, 1000, 1000, fog), fog);
    assert_eq!(apply_fog(c, 4000, 1000, fog), fog);
    assert_eq!(apply_fog(c, 500, 1000, fog), Rgba::new(140, 87, 50, 255));
}

#[test]
fn shade_scales_each_channel() {
    let c = Rgba::new(100, 200, 255, 7);
    assert_eq!(shade_color(c, 128), Rgba::new(50, 100, 127, 255));
    assert_eq!(shade_color(c, 256), Rgba::new(100, 200, 255, 255));
    assert_eq!(shade_color(c, 0), Rgba::new(0, 0, 0, 255));
}

#[test]
fn effects_fog_only_when_enabled() {
    let mut e = Effects::new(1024);
    assert_eq!(e.fog_distance, 15 * 1024);
    let c = Rgba::new(10, 20, 30, 255);
    assert_eq!(e.apply_fog(c, 15 * 1024), c);
    e.fog_enabled = true;
    assert_eq!(e.apply_fog(c, 15 * 1024), e.fog_color);
}

#[test]
fn damage_flash_tints_red_and_fades() {
    let mut e = Effects::new(1024);
    let c = Rgba::new(250, 100, 10, 255);
    assert_eq!(e.apply_damage_flash(c), c);
    e.trigger_damage_flash();
    assert_eq!(e.damage_flash_timer, 300);
    assert_eq!(e.apply_damage_flash(c), Rgba::new(255, 62, 0, 255));
    e.update(100);
    assert_eq!(e.damage_flash_timer, 100);
    e.update(100);
    assert_eq!(e.damage_flash_timer, 0);
    assert_eq!(e.apply_damage_flash(c), c);
}

#[test]
fn anxiety_fades_over_its_timer() {
    let mut e = Effects::new(1024);
    e.trigger_anxiety_effect();
    assert_eq!((e.anxiety_timer, e.anxiety_intensity), (2000, 256));
    e.update(1000);
    assert_eq!((e.anxiety_timer, e.anxiety_intensity), (1000, 128));
    e.update(5000);
    assert_eq!((e.anxiety_timer, e.anxiety_intensity), (0, 0));
    let c = Rgba::new(200, 200, 200, 255);
    assert_eq!(e.apply_anxiety_vignette(c, 0, 0, 2, 2), c);
}

#[test]
fn flashlight_halves_brightness_at_the_edge() {
    let mut e = Effects::new(1024);
    let c = Rgba::new(200, 100, 40, 255);
    assert_eq!(e.apply_flashlight(c, 0, 100), c);
    e.flashlight_enabled = true;
    assert_eq!(e.apply_flashlight(c, 50, 100), Rgba::new(200, 100, 40, 255));
    assert_eq!(e.apply_flashlight(c, 0, 100), Rgba::new(100, 50, 20, 255));
    assert_eq!(e.calculate_shading(true), 243);
    assert_eq!(e.calculate_distance_shading(500, 1000), 224);
}

#[test]
fn fog_keeps_and_blends_alpha() {
    let c = Rgba::new(200, 100, 50, 100);
    let fog = Rgba::new(80, 75, 50, 7);
    assert_eq!(apply_fog(c, 0, 1000, fog), c);
    assert_eq!(apply_fog(c, 1000, 1000, fog), fog);
    assert_eq!(apply_fog(c, 500, 1000, fog), Rgba::new(140, 87, 50, 53));
    assert_eq!(apply_fog(c, 0, 0, fog), c);
    assert_eq!(apply_fog(c, 1, 0, fog), fog);
}
