use hyprsnap::args::{parse_args, ArgsError};

fn args(v: &[&str]) -> Vec<String> {
    v.iter().map(|s| s.to_string()).collect()
}

#[test]
fn image_path_alone() {
    let c = parse_args(&args(&["hyprsnap", "shot.png"])).ok().unwrap();
    assert_eq!(c.image_path, "shot.png");
    assert_eq!(c.save_dir, None);
    assert!(!c.preview);
}

#[test]
fn all_options() {
    let c = parse_args(&args(&["hyprsnap", "--save-dir", "/pics", "--preview", "a.png"])).ok().unwrap();
    assert_eq!(c.image_path, "a.png");
    assert_eq!(c.save_dir.as_deref(), Some("/pics"));
    assert!(c.preview);
}

#[test]
fn last_image_path_wins() {
    let c = parse_args(&args(&["hyprsnap", "a.png", "b.png"])).ok().unwrap();
    assert_eq!(c.image_path, "b.png");
}

#[test]
fn save_dir_value_may_look_like_a_flag() {
    let c = parse_args(&args(&["hyprsnap", "--save-dir", "--preview", "x.png"])).ok().unwrap();
    assert_eq!(c.save_dir.as_deref(), Some("--preview"));
    assert!(!c.preview);
    assert_eq!(c.image_path, "x.png");
}

#[test]
fn no_arguments_is_a_usage_error() {
    assert_eq!(parse_args(&args(&["hyprsnap"])).err(), Some(ArgsError::Usage));
    assert_eq!(parse_args(&args(&[])).err(), Some(ArgsError::Usage));
}

#[test]
fn only_flags_is_a_usage_error() {
    assert_eq!(parse_args(&args(&["hyprsnap", "--preview"])).err(), Some(ArgsError::Usage));
    assert_eq!(parse_args(&args(&["hyprsnap", ""])).err(), Some(ArgsError::Usage));
}

#[test]
fn save_dir_without_value() {
    assert_eq!(
        parse_args(&args(&["hyprsnap", "a.png", "--save-dir"])).err(),
        Some(ArgsError::MissingSaveDirValue)
    );
}
