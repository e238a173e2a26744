use frame_engine::config::{choose_image_count, ClearColor, EngineConfig, Extent, ImageCountBounds};
use frame_engine::device::{select_queue_family, QueueFamilyInfo};

fn bounds(min_image_count: u32, max_image_count: Option<u32>) -> ImageCountBounds {
    ImageCountBounds { min_image_count, max_image_count }
}

fn family(supports_graphics: bool, supports_surface: Option<bool>) -> QueueFamilyInfo {
    QueueFamilyInfo { supports_graphics, supports_surface }
}

#[test]
fn extent_keeps_width_and_height() {
    let e = Extent::new(800, 600);
    assert_eq!(e.width, 800);
    assert_eq!(e.height, 600);
    assert_eq!(e, Extent { width: 800, height: 600 });
    assert_ne!(e, Extent::new(600, 800));
}

#[test]
fn default_config_is_double_buffered_opaque_blue() {
    let c = EngineConfig::default();
    assert_eq!(c.min_images, 2);
    assert_eq!(c.clear_color, ClearColor { red: 0, green: 0, blue: 255, alpha: 255 });
}

#[test]
fn image_count_is_at_least_two_without_upper_bound() {
    assert_eq!(choose_image_count(2, &bounds(1, None)), 2);
    assert_eq!(choose_image_count(2, &bounds(2, None)), 2);
    assert_eq!(choose_image_count(2, &bounds(3, None)), 3);
    assert_eq!(choose_image_count(2, &bounds(0, None)), 2);
}

#[test]
fn image_count_is_clamped_to_device_maximum() {
    assert_eq!(choose_image_count(2, &bounds(1, Some(1))), 1);
    assert_eq!(choose_image_count(2, &bounds(1, Some(8))), 2);
    assert_eq!(choose_image_count(2, &bounds(3, Some(8))), 3);
    assert_eq!(choose_image_count(2, &bounds(3, Some(3))), 3);
    assert_eq!(choose_image_count(5, &bounds(2, Some(4))), 4);
}

#[test]
fn image_count_follows_the_configured_minimum() {
    assert_eq!(choose_image_count(3, &bounds(2, None)), 3);
    assert_eq!(choose_image_count(0, &bounds(2, None)), 2);
    assert_eq!(choose_image_count(u32::MAX, &bounds(2, None)), u32::MAX);
    assert_eq!(choose_image_count(u32::MAX, &bounds(2, Some(u32::MAX))), u32::MAX);
}

#[test]
fn first_family_that_draws_and_presents_is_chosen() {
    let families = vec![
        family(false, Some(true)),
        family(true, Some(false)),
        family(true, Some(true)),
        family(true, Some(true)),
    ];
    assert_eq!(select_queue_family(&families), Some(2));
}

#[test]
fn failed_surface_query_counts_as_unsupported() {
    let families = vec![family(true, None), family(true, Some(true))];
    assert_eq!(select_queue_family(&families), Some(1));
    assert!(!family(true, None).is_suitable());
    assert!(family(true, Some(true)).is_suitable());
    assert!(!family(false, Some(true)).is_suitable());
}

#[test]
fn no_suitable_family_gives_none() {
    assert_eq!(select_queue_family(&vec![]), None);
    let families = vec![family(true, Some(false)), family(false, Some(true)), family(true, None)];
    assert_eq!(select_queue_family(&families), None);
}
