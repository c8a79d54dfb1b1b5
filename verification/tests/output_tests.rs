use hyprsnap::args::parse_args;
use hyprsnap::output::annotated_path;

#[test]
fn absolute_path() {
    assert_eq!(annotated_path("/home/me/shots/shot.png", None), "/home/me/shots/shot_annotated.png");
}

#[test]
fn relative_file_name() {
    assert_eq!(annotated_path("shot.png", None), "shot_annotated.png");
}

#[test]
fn file_in_root() {
    assert_eq!(annotated_path("/shot.png", None), "/shot_annotated.png");
}

#[test]
fn no_extension_and_dotfile() {
    assert_eq!(annotated_path("/tmp/screen", None), "/tmp/screen_annotated.png");
    assert_eq!(annotated_path("/tmp/a.tar.png", None), "/tmp/a.tar_annotated.png");
}

#[test]
fn empty_path_goes_to_tmp() {
    assert_eq!(annotated_path("", None), "/tmp/_annotated.png");
}

#[test]
fn save_dir_is_used() {
    assert_eq!(annotated_path("/home/u/shot.png", Some("/srv/out")), "/srv/out/shot_annotated.png");
    assert_eq!(annotated_path("/home/u/shot.png", Some("/srv/out/")), "/srv/out/shot_annotated.png");
    assert_eq!(annotated_path("shot.png", Some("out")), "out/shot_annotated.png");
    assert_eq!(annotated_path("/home/u/shot.png", Some("")), "shot_annotated.png");
}

#[test]
fn save_dir_from_the_command_line() {
    let args: Vec<String> = ["hyprsnap", "--save-dir", "/srv/out", "/home/u/shot.png"]
        .iter()
        .map(|s| s.to_string())
        .collect();
    let config = parse_args(&args).ok().unwrap();
    assert_eq!(
        annotated_path(&config.image_path, config.save_dir.as_deref()),
        "/srv/out/shot_annotated.png"
    );
}
