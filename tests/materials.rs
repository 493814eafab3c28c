use rray::binary32::Binary32;
use rray::scatter::{dielectric_bounce, inside_unit_ball, metal_absorbs, Bounce};

fn v(x: f32) -> Binary32 {
    Binary32::from_bits(x.to_bits())
}

fn reflectance(cosine: f32, index: f32) -> f32 {
    let r0 = ((1.0 - index) / (1.0 + index)).powi(2);
    r0 + (1.0 - r0) * (1.0 - cosine).powi(5)
}

#[test]
fn glass_beyond_critical_angle_always_reflects() {
    // leaving glass of index 1.5: the critical angle is asin(1 / 1.5)
    let index = 1.5f32;
    let ratio = index;
    let cos_theta = 0.5f32;
    let sin_theta = (1.0 - cos_theta * cos_theta).sqrt();
    assert!(ratio * sin_theta > 1.0);
    let refl = reflectance(cos_theta, index);
    let mut refracted = 0;
    for k in 0..1000 {
        let draw = k as f32 / 1000.0;
        if dielectric_bounce(v(ratio * sin_theta), v(refl), v(draw)) == Bounce::Refract {
            refracted += 1;
        }
    }
    assert_eq!(refracted, 0);
}

#[test]
fn glass_below_critical_angle_follows_the_draw() {
    let index = 1.5f32;
    let ratio = 1.0 / index;
    let cos_theta = 0.9f32;
    let sin_theta = (1.0 - cos_theta * cos_theta).sqrt();
    let refl = reflectance(cos_theta, index);
    assert!(refl > 0.04 && refl < 0.05);
    assert_eq!(dielectric_bounce(v(ratio * sin_theta), v(refl), v(0.01)), Bounce::Reflect);
    assert_eq!(dielectric_bounce(v(ratio * sin_theta), v(refl), v(0.5)), Bounce::Refract);
    assert_eq!(dielectric_bounce(v(ratio * sin_theta), v(refl), v(refl)), Bounce::Refract);
}

#[test]
fn metal_absorbs_rays_into_the_surface() {
    assert!(metal_absorbs(v(-0.3)));
    assert!(metal_absorbs(v(0.0)));
    assert!(metal_absorbs(v(-0.0)));
    assert!(!metal_absorbs(v(0.2)));
    assert!(!metal_absorbs(v(f32::NAN)));
}

#[test]
fn unit_ball_keeps_points_within_radius_one() {
    assert!(inside_unit_ball(v(0.25)));
    assert!(inside_unit_ball(v(1.0)));
    assert!(!inside_unit_ball(v(1.0000001)));
    assert!(!inside_unit_ball(v(2.7)));
}
