use jrip::encoder::{command_for, plan_rip, rip_outcome, EncoderCommand, EncoderExit, RipOutcome};

fn strings(items: &[&str]) -> Vec<String> {
    items.iter().map(|item| item.to_string()).collect()
}

#[test]
fn command_line_follows_the_fixed_template() {
    let command = command_for("/videos/movie.mkv", "/videos/output.mp3");
    assert_eq!(command.program, "ffmpeg");
    assert_eq!(
        command.arguments,
        strings(&[
            "-i",
            "/videos/movie.mkv",
            "-vn",
            "-acodec",
            "libmp3lame",
            "-q:a",
            "4",
            "/videos/output.mp3",
        ])
    );
}

#[test]
fn command_line_takes_source_and_destination_as_they_are() {
    let command = command_for("my movie.mkv", "");
    assert_eq!(command.arguments.len(), 8);
    assert_eq!(command.arguments[1], "my movie.mkv");
    assert_eq!(command.arguments[7], "");
}

#[test]
fn rip_writes_output_mp3_beside_the_source() {
    let expected = EncoderCommand {
        program: "ffmpeg".to_string(),
        arguments: strings(&[
            "-i",
            "/videos/shows/movie.mkv",
            "-vn",
            "-acodec",
            "libmp3lame",
            "-q:a",
            "4",
            "/videos/shows/output.mp3",
        ]),
    };
    assert_eq!(plan_rip("/videos/shows/movie.mkv"), Some(expected));
}

#[test]
fn rip_of_a_relative_path_writes_beside_it() {
    let planned = plan_rip("shows/movie.mkv").expect("the path has a parent");
    assert_eq!(planned.arguments[1], "shows/movie.mkv");
    assert_eq!(planned.arguments[7], "shows/output.mp3");
}

#[test]
fn rip_of_a_bare_file_name_writes_into_the_empty_directory() {
    let planned = plan_rip("movie.mkv").expect("a single name has the empty path as parent");
    assert_eq!(planned.arguments[7], "output.mp3");
}

#[test]
fn rip_of_a_file_in_the_root_writes_into_the_root() {
    let planned = plan_rip("/movie.mkv").expect("the root is the parent");
    assert_eq!(planned.arguments[7], "/output.mp3");
}

#[test]
fn siblings_are_ripped_into_the_same_file() {
    let first = plan_rip("/videos/a.mkv").expect("the path has a parent");
    let second = plan_rip("/videos/b.mkv").expect("the path has a parent");
    assert_eq!(first.arguments[7], second.arguments[7]);
    assert_ne!(first.arguments[1], second.arguments[1]);
}

#[test]
fn path_without_parent_plans_no_rip() {
    assert_eq!(plan_rip("/"), None);
    assert_eq!(plan_rip(""), None);
}

#[test]
fn exit_code_zero_is_success() {
    assert_eq!(rip_outcome(EncoderExit::Exited(Some(0))), RipOutcome::Success);
}

#[test]
fn every_other_ending_is_failure() {
    assert_eq!(rip_outcome(EncoderExit::Exited(Some(1))), RipOutcome::Failure);
    assert_eq!(rip_outcome(EncoderExit::Exited(Some(-1))), RipOutcome::Failure);
    assert_eq!(rip_outcome(EncoderExit::Exited(Some(255))), RipOutcome::Failure);
    assert_eq!(rip_outcome(EncoderExit::Exited(Some(i32::MAX))), RipOutcome::Failure);
    assert_eq!(rip_outcome(EncoderExit::Exited(Some(i32::MIN))), RipOutcome::Failure);
    assert_eq!(rip_outcome(EncoderExit::Exited(None)), RipOutcome::Failure);
    assert_eq!(rip_outcome(EncoderExit::NotStarted), RipOutcome::Failure);
}

#[test]
fn outcome_texts_are_fixed() {
    assert_eq!(RipOutcome::Success.message(), "audio has been ripped");
    assert_eq!(RipOutcome::Failure.message(), "failed to RIP audio");
}
