use sonora::launch::follow_plan;
use sonora::launch::hands_args_to_batch;
use sonora::launch::launch_args;
use sonora::launch::startup_link;

fn strings(items: &[&str]) -> Vec<String> {
    items.iter().map(|s| s.to_string()).collect()
}

#[test]
fn drops_program_name_and_flags() {
    let argv = strings(&["sonora", "-v", "a.mp3", "--safe", "b.mp3", "-"]);
    assert_eq!(launch_args(&argv), strings(&["a.mp3", "b.mp3"]));
}

#[test]
fn launch_args_of_nothing() {
    assert_eq!(launch_args(&Vec::new()), Vec::<String>::new());
    assert_eq!(launch_args(&strings(&["sonora"])), Vec::<String>::new());
}

#[test]
fn a_dash_inside_an_argument_is_no_flag() {
    let argv = strings(&["sonora", "my-song.mp3"]);
    assert_eq!(launch_args(&argv), strings(&["my-song.mp3"]));
}

#[test]
fn only_a_lone_argument_is_tried_as_a_link() {
    let one = strings(&["spotify:album:1"]);
    assert_eq!(startup_link(&one), Some(&one[0]));
    assert_eq!(startup_link(&strings(&["a", "b"])), None);
    assert_eq!(startup_link(&Vec::new()), None);
}

#[test]
fn launch_arguments_go_to_the_batch_unless_a_link_opened() {
    assert!(hands_args_to_batch(&strings(&["a.mp3"]), false));
    assert!(!hands_args_to_batch(&strings(&["spotify:album:1"]), true));
    assert!(!hands_args_to_batch(&Vec::new(), false));
}

#[test]
fn last_destination_wins_and_the_rest_are_paths() {
    let items = strings(&["spotify:a", "file:///tmp/x%20y.mp3", "spotify:b", "/tmp/z.flac"]);
    let found = vec![Some(1), None, Some(2), None];
    let plan = follow_plan(&items, found);
    assert_eq!(plan.destination, Some(2));
    assert_eq!(plan.paths, strings(&["/tmp/x y.mp3", "/tmp/z.flac"]));
}

#[test]
fn follow_without_destinations() {
    let items = strings(&["/a.mp3", "/b.mp3"]);
    let plan = follow_plan::<u8>(&items, vec![None, None]);
    assert_eq!(plan.destination, None);
    assert_eq!(plan.paths, items);
}

#[test]
fn follow_of_nothing() {
    let plan = follow_plan::<u8>(&Vec::new(), Vec::new());
    assert_eq!(plan.destination, None);
    assert!(plan.paths.is_empty());
}
