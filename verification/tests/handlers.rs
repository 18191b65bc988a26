use confessions::errors::CustomError;
use confessions::handlers::{
    get_confession, get_random_confession, post_confession, root, root_confession, static_files,
    static_files_opened,
};
use confessions::models::{Confession, ConfessionJson};
use confessions::response::ContentType;
use diesel::result::{DatabaseErrorKind, Error};

fn pool_exhausted() -> Error {
    Error::DatabaseError(
        DatabaseErrorKind::UnableToSendCommand,
        Box::new(String::from("timed out waiting for connection")),
    )
}

fn confession(id: i32, content: &str) -> Confession {
    Confession { id, content: String::from(content) }
}

fn segments(parts: &[&str]) -> Vec<String> {
    let mut all = Vec::new();
    for part in parts {
        all.push(String::from(*part));
    }
    all
}

fn body_of_failure(error: CustomError) -> String {
    let answer = error.respond_to();
    assert_eq!(answer.status, 500);
    assert_eq!(answer.content_type, ContentType::Plain);
    answer.body
}

#[test]
fn created_confession_keeps_its_content() {
    let request = ConfessionJson { content: String::from("hello") };
    let new = request.new_confession();
    assert_eq!(new.content, "hello");
    let stored = confession(1, new.content);
    let answer = post_confession(Ok(stored)).unwrap();
    assert_eq!(answer.body.confession.content, "hello");
    assert!(answer.body.confession.id > 0);
    let shown = get_confession(get_random_confession(Ok(answer.body.confession))).unwrap();
    let shown = shown.body.unwrap();
    assert_eq!(shown.content, "hello");
    assert_eq!(shown.id, 1);
}

#[test]
fn new_confession_may_be_empty() {
    let request = ConfessionJson { content: String::new() };
    assert_eq!(request.new_confession().content, "");
}

#[test]
fn post_confession_answers_201_with_location() {
    let request = ConfessionJson { content: String::from("x") };
    let stored = confession(7, request.new_confession().content);
    let answer = post_confession(Ok(stored)).unwrap();
    assert_eq!(answer.status, 201);
    assert_eq!(answer.location, Some("/confession"));
    assert_eq!(answer.content_type, ContentType::Json);
    assert_eq!(answer.body.confession.content, "x");
    assert_eq!(answer.body.confession.id, 7);
}

#[test]
fn post_confession_reports_a_storage_failure() {
    let error = post_confession(Err(pool_exhausted())).unwrap_err();
    assert_eq!(
        body_of_failure(error),
        "Diesel error: DB Error: timed out waiting for connection"
    );
}

#[test]
fn random_confession_of_an_empty_board_is_none() {
    let fetched = get_random_confession(Err(Error::NotFound));
    assert!(matches!(fetched, Ok(None)));
}

#[test]
fn random_confession_hands_the_row_on() {
    let fetched = get_random_confession(Ok(confession(3, "late again"))).unwrap().unwrap();
    assert_eq!(fetched.id, 3);
    assert_eq!(fetched.content, "late again");
}

#[test]
fn random_confession_hands_other_failures_on() {
    let fetched = get_random_confession(Err(pool_exhausted()));
    match fetched {
        Err(Error::DatabaseError(_, information)) => {
            assert_eq!(information.message(), "timed out waiting for connection")
        }
        _ => panic!("the failure was not handed on"),
    }
    assert!(matches!(
        get_random_confession(Err(Error::RollbackTransaction)),
        Err(Error::RollbackTransaction)
    ));
}

#[test]
fn get_confession_answers_null_on_an_empty_board() {
    let answer = get_confession(get_random_confession(Err(Error::NotFound))).unwrap();
    assert_eq!(answer.status, 200);
    assert_eq!(answer.content_type, ContentType::Json);
    assert_eq!(answer.location, None);
    assert!(answer.body.is_none());
}

#[test]
fn get_confession_answers_the_row() {
    let answer = get_confession(Ok(Some(confession(12, "I never read the manual")))).unwrap();
    assert_eq!(answer.status, 200);
    let body = answer.body.unwrap();
    assert_eq!(body.id, 12);
    assert_eq!(body.content, "I never read the manual");
}

#[test]
fn get_confession_reports_a_storage_failure() {
    let error = get_confession(Err(pool_exhausted())).unwrap_err();
    assert_eq!(
        body_of_failure(error),
        "Diesel error: DB Error: timed out waiting for connection"
    );
}

#[test]
fn root_of_an_empty_board() {
    let text = root_confession(get_random_confession(Err(Error::NotFound))).unwrap();
    assert_eq!(text, None);
    let page = root(text, Ok(0)).unwrap();
    assert_eq!(page.status, 200);
    assert_eq!(page.content_type, ContentType::Html);
    assert_eq!(page.location, None);
    assert_eq!(page.body.confession, None);
    assert_eq!(page.body.total_confessions, 0);
}

#[test]
fn root_shows_the_confession_and_the_count() {
    let text = root_confession(Ok(Some(confession(5, "I like tabs")))).unwrap();
    assert_eq!(text.as_deref(), Some("I like tabs"));
    let page = root(text, Ok(41)).unwrap();
    assert_eq!(page.body.confession.as_deref(), Some("I like tabs"));
    assert_eq!(page.body.total_confessions, 41);
}

#[test]
fn root_reports_a_failure_of_the_first_query() {
    let error = root_confession(Err(pool_exhausted())).unwrap_err();
    assert_eq!(
        body_of_failure(error),
        "Diesel error: DB Error: timed out waiting for connection"
    );
}

#[test]
fn root_reports_a_failure_of_the_count() {
    let error = root(Some(String::from("kept")), Err(Error::AlreadyInTransaction)).unwrap_err();
    assert_eq!(
        body_of_failure(error),
        "Diesel error: DB Error: Cannot perform this operation while a transaction is open"
    );
}

#[test]
fn static_files_builds_the_path_below_the_root() {
    assert_eq!(static_files(&segments(&["nonexistent", "path"])).unwrap(), "site/nonexistent/path");
    assert_eq!(static_files(&segments(&["index.css"])).unwrap(), "site/index.css");
}

#[test]
fn static_files_refuses_traversal() {
    let answer = static_files(&segments(&["..", "secret"])).unwrap_err();
    assert_eq!(answer.status, 404);
    assert_eq!(answer.content_type, ContentType::Plain);
    assert_eq!(answer.location, None);
    assert_eq!(answer.body, "The requested resource could not be found.");
}

#[test]
fn static_files_opened_hands_the_file_on() {
    let opened: Result<u8, std::io::Error> = Ok(9);
    assert_eq!(static_files_opened(opened).unwrap(), 9);
}

#[test]
fn static_files_opened_answers_404_with_the_lookup_message() {
    let missing = std::io::Error::new(std::io::ErrorKind::NotFound, "no such asset");
    let opened: Result<u8, std::io::Error> = Err(missing);
    let answer = static_files_opened(opened).unwrap_err();
    assert_eq!(answer.status, 404);
    assert_eq!(answer.content_type, ContentType::Plain);
    assert_eq!(answer.location, None);
    assert_eq!(answer.body, "no such asset");
}

#[test]
fn static_files_opened_repeats_what_the_system_said() {
    let missing = std::io::Error::from_raw_os_error(2);
    let text = missing.to_string();
    assert!(!text.is_empty());
    let opened: Result<u8, std::io::Error> = Err(missing);
    assert_eq!(static_files_opened(opened).unwrap_err().body, text);
}
