use raycaster::color::Color;
use raycaster::framebuffer::{Framebuffer, FramebufferError};
use raycaster::intersect::{Intersect, Material, FAR};
use raycaster::render::{cast_ray, nearest_hit, render};

const BROWN: Color = Color { r: 139, g: 69, b: 19 };
const WHITE: Color = Color { r: 255, g: 255, b: 255 };
const BLACK: Color = Color { r: 0, g: 0, b: 0 };

fn hit(distance: f32, diffuse: Color) -> Intersect {
    Intersect::new(distance.to_bits(), Material { diffuse })
}

#[test]
fn to_hex_packs_channels() {
    assert_eq!(Color::new(139, 69, 19).to_hex(), 0x8B4513);
    assert_eq!(Color::new(255, 255, 255).to_hex(), 0xFFFFFF);
    assert_eq!(Color::new(0, 0, 0).to_hex(), 0);
    assert_eq!(Color::new(1, 2, 3).to_hex(), 0x010203);
    assert_eq!(Color::background().to_hex(), 0x78B482);
}

#[test]
fn background_is_flat_green() {
    assert_eq!(Color::background(), Color::new(120, 180, 130));
}

#[test]
fn empty_intersect_is_a_miss() {
    let e = Intersect::empty();
    assert!(!e.is_intersecting);
    assert_eq!(e.distance, FAR);
}

#[test]
fn miss_everywhere_gives_background() {
    let hits = vec![Intersect::empty(), Intersect::empty(), Intersect::empty()];
    assert_eq!(cast_ray(&hits), Color::new(120, 180, 130));
    assert_eq!(nearest_hit(&hits), None);
}

#[test]
fn empty_scene_gives_background() {
    assert_eq!(cast_ray(&Vec::new()), Color::new(120, 180, 130));
}

#[test]
fn nearer_sphere_wins_when_listed_second() {
    let hits = vec![hit(6.0, WHITE), hit(4.0, BROWN)];
    assert_eq!(cast_ray(&hits), BROWN);
    assert_eq!(nearest_hit(&hits), Some(1));
}

#[test]
fn nearer_sphere_wins_when_listed_first() {
    let hits = vec![hit(4.0, BROWN), hit(6.0, WHITE)];
    assert_eq!(cast_ray(&hits), BROWN);
    assert_eq!(nearest_hit(&hits), Some(0));
}

#[test]
fn equal_distances_first_wins() {
    let hits = vec![Intersect::empty(), hit(3.5, BLACK), hit(3.5, WHITE)];
    assert_eq!(nearest_hit(&hits), Some(1));
    assert_eq!(cast_ray(&hits), BLACK);
}

#[test]
fn misses_between_hits_are_skipped() {
    let hits = vec![hit(9.0, WHITE), Intersect::empty(), hit(0.25, BLACK), Intersect::empty()];
    assert_eq!(cast_ray(&hits), BLACK);
}

#[test]
fn infinite_distance_does_not_count() {
    let far = Intersect::new(FAR, Material { diffuse: WHITE });
    assert_eq!(cast_ray(&vec![far]), Color::background());
}

#[test]
fn single_sphere_center_and_side_rays() {
    // Sphere at (0,0,-5), radius 1, seen from the origin: the axis ray meets
    // it at distance 4, a ray far to the side meets nothing.
    let axis = vec![hit(4.0, BROWN)];
    let side = vec![Intersect::empty()];
    assert_eq!(cast_ray(&axis), Color::new(139, 69, 19));
    assert_eq!(cast_ray(&side), Color::new(120, 180, 130));
}

#[test]
fn framebuffer_new_is_black() {
    let fb = Framebuffer::new(4, 3).unwrap();
    assert_eq!(fb.width, 4);
    assert_eq!(fb.height, 3);
    assert_eq!(fb.buffer.len(), 12);
    assert!(fb.buffer.iter().all(|&p| p == 0));
    assert_eq!(fb.current_color, 0);
}

#[test]
fn framebuffer_rejects_zero_dimensions() {
    assert_eq!(Framebuffer::new(0, 3).err(), Some(FramebufferError::InvalidDimensions));
    assert_eq!(Framebuffer::new(3, 0).err(), Some(FramebufferError::InvalidDimensions));
}

#[test]
fn framebuffer_rejects_overflowing_size() {
    assert_eq!(
        Framebuffer::new(usize::MAX, 2).err(),
        Some(FramebufferError::InvalidDimensions)
    );
}

#[test]
fn point_writes_row_major() {
    let mut fb = Framebuffer::new(4, 3).unwrap();
    fb.set_current_color(0x123456);
    assert_eq!(fb.current_color, 0x123456);
    assert_eq!(fb.point(1, 2), Ok(()));
    assert_eq!(fb.buffer[2 * 4 + 1], 0x123456);
    assert_eq!(fb.buffer.iter().filter(|&&p| p != 0).count(), 1);
}

#[test]
fn point_out_of_bounds_is_refused() {
    let mut fb = Framebuffer::new(4, 3).unwrap();
    fb.set_current_color(0xFFFFFF);
    assert_eq!(fb.point(4, 0), Err(FramebufferError::IndexOutOfBounds));
    assert_eq!(fb.point(0, 3), Err(FramebufferError::IndexOutOfBounds));
    assert!(fb.buffer.iter().all(|&p| p == 0));
}

fn two_by_two_hits() -> Vec<Vec<Intersect>> {
    vec![
        vec![hit(4.0, BROWN), hit(5.0, WHITE)],
        vec![Intersect::empty(), Intersect::empty()],
        vec![hit(2.0, WHITE), hit(1.0, BLACK)],
        vec![Intersect::empty(), hit(7.0, WHITE)],
    ]
}

#[test]
fn render_colors_every_pixel() {
    let mut fb = Framebuffer::new(2, 2).unwrap();
    render(&mut fb, &two_by_two_hits());
    assert_eq!(fb.buffer, vec![0x8B4513, 0x78B482, 0x000000, 0xFFFFFF]);
    assert_eq!(fb.current_color, 0xFFFFFF);
}

#[test]
fn render_twice_is_identical() {
    let hits = two_by_two_hits();
    let mut fb = Framebuffer::new(2, 2).unwrap();
    render(&mut fb, &hits);
    let first = fb.buffer.clone();
    render(&mut fb, &hits);
    assert_eq!(fb.buffer, first);
}
