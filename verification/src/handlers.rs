use vstd::prelude::*;
use crate::assets::{all_safe, asset_path, static_file_path, texts};
use crate::errors::{error_text, is_not_found, optional, CustomError};
use crate::models::{Confession, HomepageTemplate, NewConfessionResponse};
use crate::response::{
    not_found, ContentType, Response, STATUS_CREATED, STATUS_NOT_FOUND, STATUS_OK,
};
use vstd::string::StringExecFns;

verus! {

/// What a query for one random row means: the row, nothing where storage
/// says that there is no row, and the failure otherwise.
pub open spec fn get_random_confession_spec(
    row: Result<Confession, diesel::result::Error>,
) -> Result<Option<Confession>, diesel::result::Error> {
    match row {
        Ok(confession) => Ok(Some(confession)),
        Err(e) => if is_not_found(e) {
            Ok(None)
        } else {
            Err(e)
        },
    }
}

/// Turns the outcome of the query for one random row into the confession to
/// show, if there is one.
pub fn get_random_confession(row: Result<Confession, diesel::result::Error>) -> (r: Result<
    Option<Confession>,
    diesel::result::Error,
>)
    ensures
        r == get_random_confession_spec(row),
{
    optional(row)
}

/// The home page after its first question to storage: the text to show, or
/// the failure.
pub open spec fn root_confession_spec(
    fetched: Result<Option<Confession>, diesel::result::Error>,
) -> Result<Option<String>, CustomError> {
    match fetched {
        Ok(Some(confession)) => Ok(Some(confession.content)),
        Ok(None) => Ok(None),
        Err(e) => Err(CustomError::DatabseErr(e)),
    }
}

/// First step of the home page, taken when storage has answered the query
/// for a random confession. `Ok` holds the text to show and asks for the
/// second step, the count; `Err` ends the request.
pub fn root_confession(fetched: Result<Option<Confession>, diesel::result::Error>) -> (r: Result<
    Option<String>,
    CustomError,
>)
    ensures
        r == root_confession_spec(fetched),
{
    match fetched {
        Ok(Some(confession)) => Ok(Some(confession.content)),
        Ok(None) => Ok(None),
        Err(e) => Err(CustomError::from(e)),
    }
}

/// The home page: an HTML answer that shows `confession` and the count, or
/// the failure of the count.
pub open spec fn root_spec(
    confession: Option<String>,
    counted: Result<i64, diesel::result::Error>,
) -> Result<Response<HomepageTemplate>, CustomError> {
    match counted {
        Ok(total_confessions) => Ok(
            Response {
                status: STATUS_OK,
                content_type: ContentType::Html,
                location: None,
                body: HomepageTemplate { confession, total_confessions },
            },
        ),
        Err(e) => Err(CustomError::DatabseErr(e)),
    }
}

/// Second step of the home page, taken when storage has answered the count.
/// `confession` is what the first step gave.
pub fn root(confession: Option<String>, counted: Result<i64, diesel::result::Error>) -> (r: Result<
    Response<HomepageTemplate>,
    CustomError,
>)
    ensures
        r == root_spec(confession, counted),
{
    match counted {
        Ok(total_confessions) => Ok(
            Response {
                status: STATUS_OK,
                content_type: ContentType::Html,
                location: None,
                body: HomepageTemplate { confession, total_confessions },
            },
        ),
        Err(e) => Err(CustomError::from(e)),
    }
}

/// The answer to a request that leaves a confession: 201 with the stored
/// row and the place where confessions are read, or the failure.
pub open spec fn post_confession_spec(
    inserted: Result<Confession, diesel::result::Error>,
) -> Result<Response<NewConfessionResponse>, CustomError> {
    match inserted {
        Ok(confession) => Ok(
            Response {
                status: STATUS_CREATED,
                content_type: ContentType::Json,
                location: Some("/confession"),
                body: NewConfessionResponse { confession },
            },
        ),
        Err(e) => Err(CustomError::DatabseErr(e)),
    }
}

/// Answers a request that leaves a confession, once storage has answered
/// the insert.
pub fn post_confession(inserted: Result<Confession, diesel::result::Error>) -> (r: Result<
    Response<NewConfessionResponse>,
    CustomError,
>)
    ensures
        r == post_confession_spec(inserted),
{
    match inserted {
        Ok(confession) => Ok(
            Response {
                status: STATUS_CREATED,
                content_type: ContentType::Json,
                location: Some("/confession"),
                body: NewConfessionResponse { confession },
            },
        ),
        Err(e) => Err(CustomError::from(e)),
    }
}

/// The answer to a request for a random confession: 200 with the
/// confession, or with nothing where there is none, or the failure.
pub open spec fn get_confession_spec(
    fetched: Result<Option<Confession>, diesel::result::Error>,
) -> Result<Response<Option<Confession>>, CustomError> {
    match fetched {
        Ok(confession) => Ok(
            Response {
                status: STATUS_OK,
                content_type: ContentType::Json,
                location: None,
                body: confession,
            },
        ),
        Err(e) => Err(CustomError::DatabseErr(e)),
    }
}

/// Answers a request for a random confession, once storage has answered.
pub fn get_confession(fetched: Result<Option<Confession>, diesel::result::Error>) -> (r: Result<
    Response<Option<Confession>>,
    CustomError,
>)
    ensures
        r == get_confession_spec(fetched),
{
    match fetched {
        Ok(confession) => Ok(
            Response {
                status: STATUS_OK,
                content_type: ContentType::Json,
                location: None,
                body: confession,
            },
        ),
        Err(e) => Err(CustomError::from(e)),
    }
}

/// `std::io::Error`, the reason why a file could not be opened. The library
/// asks only for its text.
#[verifier::external_type_specification]
#[verifier::external_body]
pub struct ExIoError(std::io::Error);

/// `Display` of `std::io::Error`. The text is the operating system's, so
/// nothing is claimed of it.
#[verifier::external_body]
fn print_io_error(e: &std::io::Error) -> String {
    format!("{}", e)
}

/// First step of a request for a static file: the path of the file to open,
/// below the root, or the 404 answer where the request path is not safe.
pub fn static_files(segments: &Vec<String>) -> (r: Result<String, Response<String>>)
    ensures
        match r {
            Ok(path) => all_safe(texts(segments@)) && path@ == asset_path(texts(segments@)),
            Err(answer) => {
                &&& !all_safe(texts(segments@))
                &&& answer.status == STATUS_NOT_FOUND
                &&& answer.content_type == ContentType::Plain
                &&& answer.location is None
                &&& answer.body@ == "The requested resource could not be found."@
            },
        },
{
    match static_file_path(segments) {
        Some(path) => Ok(path),
        None => Err(not_found(String::from_str("The requested resource could not be found."))),
    }
}

/// Second step of a request for a static file, taken when the file system
/// has answered: the open file, or the 404 answer whose body is what the file
/// system said.
pub fn static_files_opened<F>(opened: Result<F, std::io::Error>) -> (r: Result<
    F,
    Response<String>,
>)
    ensures
        match opened {
            Ok(file) => r == Ok::<F, Response<String>>(file),
            Err(_) => {
                &&& r matches Err(answer)
                &&& answer.status == STATUS_NOT_FOUND
                &&& answer.content_type == ContentType::Plain
                &&& answer.location is None
            },
        },
{
    match opened {
        Ok(file) => Ok(file),
        Err(e) => Err(not_found(print_io_error(&e))),
    }
}

/// Whether `text` stands somewhere in `body`.
pub open spec fn contains_text(body: Seq<char>, text: Seq<char>) -> bool {
    exists|at: int|
        0 <= at && at + text.len() <= body.len() && #[trigger] body.subrange(
            at,
            at + text.len(),
        ) == text
}

/// A failure of storage ends the request with status 500 and a plain-text
/// body that holds what storage said. Whichever handler meets the failure
/// `e`, at whichever of its questions to storage, it fails with the error that
/// wraps `e`; and `answer`, the answer to that error, has status 500, is plain
/// text, and holds the text of `e`. This is said of every failure that can be
/// put into words.
pub proof fn storage_failure_is_reported(
    e: diesel::result::Error,
    confession: Option<String>,
    answer: Response<String>,
)
    requires
        CustomError::DatabseErr(e).printable(),
        CustomError::DatabseErr(e).is_answered_by(answer),
    ensures
        root_confession_spec(Err(e)) == Err::<Option<String>, CustomError>(
            CustomError::DatabseErr(e),
        ),
        root_spec(confession, Err(e)) == Err::<Response<HomepageTemplate>, CustomError>(
            CustomError::DatabseErr(e),
        ),
        post_confession_spec(Err(e)) == Err::<Response<NewConfessionResponse>, CustomError>(
            CustomError::DatabseErr(e),
        ),
        get_confession_spec(Err(e)) == Err::<Response<Option<Confession>>, CustomError>(
            CustomError::DatabseErr(e),
        ),
        answer.status == 500,
        answer.content_type == ContentType::Plain,
        contains_text(answer.body@, error_text(e)),
{
    let body = answer.body@;
    let text = error_text(e);
    let at = body.len() - text.len();
    assert(body.subrange(at, at + text.len()) =~= text);
}

/// An empty board shows no confession. Where the query for a random row
/// fails with `e` because there is no row, the home page is drawn without a
/// confession, whatever the count, and a request for a random confession is
/// answered with nothing.
pub proof fn empty_board_shows_nothing(e: diesel::result::Error, count: i64)
    requires
        is_not_found(e),
    ensures
        root_confession_spec(get_random_confession_spec(Err(e))) == Ok::<
            Option<String>,
            CustomError,
        >(None),
        root_spec(None, Ok(count)) matches Ok(page) && page.body.confession is None
            && page.body.total_confessions == count,
        get_confession_spec(get_random_confession_spec(Err(e))) matches Ok(answer)
            && answer.status == 200 && answer.body is None,
{
}

} // verus!
