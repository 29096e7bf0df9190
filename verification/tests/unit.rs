use reddsaver::error::ReddSaverError;
use reddsaver::filter::{media_request, MediaRequest, SavedItem};
use reddsaver::unit::{Command, Event, Unit};

const RED_PIXEL_PNG: [u8; 69] = [
    137, 80, 78, 71, 13, 10, 26, 10, 0, 0, 0, 13, 73, 72, 68, 82, 0, 0, 0, 1, 0, 0, 0, 1, 8, 2, 0,
    0, 0, 144, 119, 83, 222, 0, 0, 0, 12, 73, 68, 65, 84, 120, 156, 99, 248, 207, 192, 0, 0, 3, 1,
    1, 0, 201, 254, 146, 239, 0, 0, 0, 0, 73, 69, 78, 68, 174, 66, 96, 130,
];

const PATH: &str = "data/cats/img-d4eaaf0e8567cb8ffc6ecf52cbf06662.png";

fn request() -> MediaRequest {
    let item =
        SavedItem { url: Some(String::from("http://x/a.png")), subreddit: String::from("cats") };
    media_request(&item).unwrap()
}

fn fetched() -> Unit {
    Unit::new(request()).handle(Event::Fetched(Some(RED_PIXEL_PNG.to_vec())))
}

fn outcome_of(unit: &Unit) -> Result<String, ReddSaverError> {
    match unit.command() {
        Command::Finish { outcome } => outcome.clone(),
        _ => panic!("the unit is not finished"),
    }
}

#[test]
fn new_unit_asks_for_the_fetch() {
    let unit = Unit::new(request());
    assert!(!unit.is_finished());
    assert!(matches!(unit.command(), Command::Fetch { url: "http://x/a.png" }));
}

#[test]
fn failed_fetch_ends_the_unit() {
    let unit = Unit::new(request()).handle(Event::Fetched(None));
    assert!(unit.is_finished());
    assert_eq!(outcome_of(&unit), Err(ReddSaverError::FetchError));
}

#[test]
fn fetched_garbage_ends_the_unit() {
    let unit = Unit::new(request()).handle(Event::Fetched(Some(b"not an image".to_vec())));
    assert!(unit.is_finished());
    assert_eq!(outcome_of(&unit), Err(ReddSaverError::CouldNotCreateImageError));
}

#[test]
fn fetched_image_asks_for_the_directory() {
    let unit = fetched();
    assert!(!unit.is_finished());
    match unit.command() {
        Command::CreateDirectory { directory } => assert_eq!(directory, "data/cats"),
        _ => panic!("the directory is due"),
    }
}

#[test]
fn missing_directory_ends_the_unit() {
    let unit = fetched().handle(Event::DirectoryCreated(false));
    assert_eq!(outcome_of(&unit), Err(ReddSaverError::CouldNotCreateDirectory));
}

#[test]
fn directory_asks_for_the_save() {
    let unit = fetched().handle(Event::DirectoryCreated(true));
    match unit.command() {
        Command::Save { image, path } => {
            assert_eq!(path, PATH);
            assert_eq!((image.width(), image.height()), (1, 1));
        }
        _ => panic!("the save is due"),
    }
}

#[test]
fn failed_save_ends_the_unit() {
    let unit = fetched().handle(Event::DirectoryCreated(true)).handle(Event::ImageSaved(false));
    assert_eq!(outcome_of(&unit), Err(ReddSaverError::CouldNotSaveImageError));
}

#[test]
fn saved_image_ends_the_unit_with_its_path() {
    let unit = fetched().handle(Event::DirectoryCreated(true)).handle(Event::ImageSaved(true));
    assert!(unit.is_finished());
    assert_eq!(outcome_of(&unit), Ok(String::from(PATH)));
}

#[test]
fn report_of_work_that_was_not_due_is_ignored() {
    let unit = Unit::new(request()).handle(Event::ImageSaved(true));
    assert!(matches!(unit.command(), Command::Fetch { url: "http://x/a.png" }));
    let unit = unit.handle(Event::DirectoryCreated(true));
    assert!(matches!(unit.command(), Command::Fetch { .. }));
    let unit = fetched().handle(Event::ImageSaved(true));
    assert!(matches!(unit.command(), Command::CreateDirectory { .. }));
    let unit = unit.handle(Event::Fetched(None));
    assert!(matches!(unit.command(), Command::CreateDirectory { .. }));
    let unit = fetched().handle(Event::DirectoryCreated(true)).handle(Event::Fetched(None));
    assert!(matches!(unit.command(), Command::Save { .. }));
}

#[test]
fn finished_unit_stays_finished() {
    let unit = Unit::new(request()).handle(Event::Fetched(None));
    let unit = unit.handle(Event::Fetched(Some(RED_PIXEL_PNG.to_vec())));
    let unit = unit.handle(Event::DirectoryCreated(true)).handle(Event::ImageSaved(true));
    assert_eq!(outcome_of(&unit), Err(ReddSaverError::FetchError));
}

#[test]
fn decoded_image_moves_on_to_the_directory() {
    let image = image::load_from_memory(&RED_PIXEL_PNG).unwrap();
    let unit = Unit::with_decoded(request(), Ok(image));
    assert!(matches!(unit, Unit::CreatingDirectory { .. }));
}

#[test]
fn decode_failure_is_the_outcome() {
    let unit = Unit::with_decoded(request(), Err(ReddSaverError::CouldNotCreateImageError));
    assert_eq!(outcome_of(&unit), Err(ReddSaverError::CouldNotCreateImageError));
}

#[test]
fn same_request_twice_is_stored_at_one_path() {
    let first = fetched().handle(Event::DirectoryCreated(true)).handle(Event::ImageSaved(true));
    let second = fetched().handle(Event::DirectoryCreated(true)).handle(Event::ImageSaved(true));
    assert_eq!(outcome_of(&first), outcome_of(&second));
}
