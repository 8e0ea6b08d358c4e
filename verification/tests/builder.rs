use sunlite::AppBuilder;
use sunlite::Size;

#[test]
fn new_builder_has_defaults() {
    let builder = AppBuilder::new();
    assert_eq!(builder.get_title(), "Sunlite");
    assert_eq!(builder.get_size(), None);
    assert_eq!(builder.get_min_size(), None);
    assert_eq!(builder.get_max_size(), None);
    assert!(!builder.get_vsync());
}

#[test]
fn title_replaces_the_default() {
    let mut builder = AppBuilder::new();
    builder.title("Sunlite App");
    assert_eq!(builder.get_title(), "Sunlite App");
    assert_eq!(builder.get_size(), None);
    assert!(!builder.get_vsync());
}

#[test]
fn empty_title_is_kept() {
    let mut builder = AppBuilder::new();
    builder.title("");
    assert_eq!(builder.get_title(), "");
}

#[test]
fn size_records_requested_dimensions() {
    let mut builder = AppBuilder::new();
    builder.size(800, 600);
    assert_eq!(builder.get_size(), Some(Size { width: 800, height: 600 }));
    assert_eq!(builder.get_min_size(), None);
    assert_eq!(builder.get_max_size(), None);
    assert_eq!(builder.get_title(), "Sunlite");
}

#[test]
fn min_size_touches_only_the_lower_bound() {
    let mut builder = AppBuilder::new();
    builder.min_size(320, 240);
    assert_eq!(builder.get_min_size(), Some(Size { width: 320, height: 240 }));
    assert_eq!(builder.get_size(), None);
    assert_eq!(builder.get_max_size(), None);
}

#[test]
fn max_size_touches_only_the_upper_bound() {
    let mut builder = AppBuilder::new();
    builder.max_size(1200, 800);
    assert_eq!(builder.get_max_size(), Some(Size { width: 1200, height: 800 }));
    assert_eq!(builder.get_size(), None);
    assert_eq!(builder.get_min_size(), None);
}

#[test]
fn vsync_can_be_switched_on_and_off() {
    let mut builder = AppBuilder::new();
    builder.vsync(true);
    assert!(builder.get_vsync());
    builder.vsync(false);
    assert!(!builder.get_vsync());
}

#[test]
fn setters_chain() {
    let mut builder = AppBuilder::new();
    builder
        .title("Sunlite App")
        .size(800, 600)
        .min_size(800, 600)
        .max_size(1200, 800)
        .vsync(true);
    assert_eq!(builder.get_title(), "Sunlite App");
    assert_eq!(builder.get_size(), Some(Size { width: 800, height: 600 }));
    assert_eq!(builder.get_min_size(), Some(Size { width: 800, height: 600 }));
    assert_eq!(builder.get_max_size(), Some(Size { width: 1200, height: 800 }));
    assert!(builder.get_vsync());
}

#[test]
fn last_setting_wins() {
    let mut builder = AppBuilder::new();
    builder.size(1, 2).size(u32::MAX, 0);
    assert_eq!(builder.get_size(), Some(Size { width: u32::MAX, height: 0 }));
}

#[test]
fn clone_keeps_every_option() {
    let mut builder = AppBuilder::new();
    builder.title("Copy").size(640, 480).vsync(true);
    let copy = builder.clone();
    assert_eq!(copy.get_title(), "Copy");
    assert_eq!(copy.get_size(), Some(Size { width: 640, height: 480 }));
    assert!(copy.get_vsync());
}
