use bgcomposite::config::{check_directories, get_ext, DirRole, FileType};
use bgcomposite::naming::{glob_pattern, output_path, pair_output_path, stem, StemError};
use bgcomposite::placement::{centre_axis, centre_offset, Offset, Size};
use bgcomposite::plan::{plan_jobs, Job};

fn size(width: u32, height: u32) -> Size {
    Size { width, height }
}

fn paths(names: &[&str]) -> Vec<String> {
    names.iter().map(|s| s.to_string()).collect()
}

#[test]
fn centred_square() {
    assert_eq!(centre_offset(size(100, 100), size(20, 20)), Offset { x: 40, y: 40 });
}

#[test]
fn centred_with_floor_division() {
    assert_eq!(centre_offset(size(101, 101), size(20, 21)), Offset { x: 40, y: 40 });
}

#[test]
fn oversized_foreground_clamps_to_origin() {
    assert_eq!(centre_offset(size(50, 50), size(60, 60)), Offset { x: 0, y: 0 });
}

#[test]
fn centre_axis_values() {
    assert_eq!(centre_axis(0, 0), 0);
    assert_eq!(centre_axis(7, 3), 2);
    assert_eq!(centre_axis(51, 52), 0);
    assert_eq!(centre_axis(u32::MAX, 1), u32::MAX / 2);
    assert_eq!(centre_axis(1, u32::MAX), 0);
}

#[test]
fn mixed_axes() {
    assert_eq!(centre_offset(size(200, 10), size(20, 30)), Offset { x: 90, y: 0 });
}

#[test]
fn output_name_from_stems() {
    assert_eq!(output_path("/out", "forest", "tree", "png"), "/out/forest-tree.png");
}

#[test]
fn output_name_from_paths() {
    let r = pair_output_path("/out", "backgrounds/forest.png", "fg/deep/tree.png", "png");
    assert_eq!(r, Ok("/out/forest-tree.png".to_string()));
}

#[test]
fn stem_drops_only_last_extension() {
    assert_eq!(stem("a/b/archive.tar.png"), Ok("archive.tar".to_string()));
    assert_eq!(stem("plain"), Ok("plain".to_string()));
}

#[test]
fn path_without_file_name_has_no_stem() {
    assert_eq!(stem("/"), Err(StemError { path: "/".to_string() }));
    assert_eq!(
        pair_output_path("/out", "forest.png", "..", "png"),
        Err(StemError { path: "..".to_string() })
    );
    assert_eq!(
        pair_output_path("/out", "/", "..", "png"),
        Err(StemError { path: "/".to_string() })
    );
}

#[test]
fn glob_pattern_is_recursive() {
    assert_eq!(glob_pattern("imgs/bg", "png"), "imgs/bg/**/*.png");
}

#[test]
fn default_extension_is_png() {
    assert_eq!(get_ext(&None), "png");
    assert_eq!(get_ext(&Some(FileType::Png)), "png");
}

#[test]
fn all_directories_present() {
    assert_eq!(check_directories(true, true, true), Ok(()));
}

#[test]
fn missing_output_directory_refused() {
    assert_eq!(check_directories(true, true, false), Err(DirRole::Output));
}

#[test]
fn first_missing_directory_reported() {
    assert_eq!(check_directories(false, false, false), Err(DirRole::Background));
    assert_eq!(check_directories(true, false, false), Err(DirRole::Foreground));
    assert_eq!(check_directories(false, true, true), Err(DirRole::Background));
}

#[test]
fn plan_covers_cross_product() {
    let bgs = paths(&["b/forest.png", "b/sea.png"]);
    let fgs = paths(&["f/tree.png", "f/x/rock.png", "f/bird.png"]);
    let jobs = plan_jobs("/out", &bgs, &fgs, "png").unwrap();
    assert_eq!(jobs.len(), 6);
    let names: Vec<&str> = jobs.iter().map(|j| j.output.as_str()).collect();
    assert_eq!(
        names,
        vec![
            "/out/forest-tree.png",
            "/out/forest-rock.png",
            "/out/forest-bird.png",
            "/out/sea-tree.png",
            "/out/sea-rock.png",
            "/out/sea-bird.png",
        ]
    );
    assert_eq!(
        jobs[4],
        Job { bg: 1, fg: 1, output: "/out/sea-rock.png".to_string() }
    );
}

#[test]
fn plan_is_repeatable() {
    let bgs = paths(&["b/forest.png", "b/sea.png"]);
    let fgs = paths(&["f/tree.png"]);
    assert_eq!(plan_jobs("o", &bgs, &fgs, "png"), plan_jobs("o", &bgs, &fgs, "png"));
}

#[test]
fn empty_foregrounds_give_no_jobs() {
    let bgs = paths(&["b/forest.png", "/"]);
    assert_eq!(plan_jobs("/out", &bgs, &Vec::new(), "png"), Ok(Vec::new()));
}

#[test]
fn empty_backgrounds_give_no_jobs() {
    let fgs = paths(&["f/tree.png"]);
    assert_eq!(plan_jobs("/out", &Vec::new(), &fgs, "png"), Ok(Vec::new()));
}

#[test]
fn plan_fails_on_path_without_stem() {
    let bgs = paths(&["b/forest.png"]);
    let fgs = paths(&["f/tree.png", ".."]);
    assert_eq!(
        plan_jobs("/out", &bgs, &fgs, "png"),
        Err(StemError { path: "..".to_string() })
    );
}
