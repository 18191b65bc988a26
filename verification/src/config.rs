use vstd::prelude::*;
use vstd::string::StringExecFns;

verus! {

/// `std::num::ParseIntError`, the reason why a text is no integer. The
/// library hands it on and asks only for its text.
#[verifier::external_type_specification]
#[verifier::external_body]
pub struct ExParseIntError(std::num::ParseIntError);

/// The text that std prints for `e`.
pub uninterp spec fn parse_error_text(e: std::num::ParseIntError) -> Seq<char>;

/// The number that a run of decimal digits stands for.
pub open spec fn digits_value(digits: Seq<char>) -> int
    decreases digits.len(),
{
    if digits.len() == 0 {
        0
    } else {
        10 * digits_value(digits.drop_last()) + (digits.last() as int - '0' as int)
    }
}

/// Whether `digits` is one decimal digit or more, and nothing else.
pub open spec fn is_digits(digits: Seq<char>) -> bool {
    &&& digits.len() > 0
    &&& forall|i: int| 0 <= i < digits.len() ==> '0' <= #[trigger] digits[i] <= '9'
}

/// The integer that `text` writes out in base ten: an optional `+` or `-`,
/// then digits only. `None` where `text` is anything else.
pub open spec fn decimal_integer(text: Seq<char>) -> Option<int> {
    if text.len() > 0 && text[0] == '-' {
        if is_digits(text.skip(1)) {
            Some(-digits_value(text.skip(1)))
        } else {
            None
        }
    } else if text.len() > 0 && text[0] == '+' {
        if is_digits(text.skip(1)) {
            Some(digits_value(text.skip(1)))
        } else {
            None
        }
    } else if is_digits(text) {
        Some(digits_value(text))
    } else {
        None
    }
}

/// The integer that `text` writes out in base ten, where it fits 32 bits with
/// a sign.
pub open spec fn decimal_i32(text: Seq<char>) -> Option<i32> {
    match decimal_integer(text) {
        Some(n) => if i32::MIN <= n <= i32::MAX {
            Some(n as i32)
        } else {
            None
        },
        None => None,
    }
}

/// `i32::from_str_radix` in base ten: `Ok` with the integer that `text`
/// writes out, where it is an optional sign followed by digits only and the
/// integer fits; an error on every other text.
#[verifier::external_body]
fn parse_decimal_i32(text: &str) -> (r: Result<i32, std::num::ParseIntError>)
    ensures
        match r {
            Ok(n) => decimal_i32(text@) == Some(n),
            Err(_) => decimal_i32(text@) is None,
        },
{
    i32::from_str_radix(text, 10)
}

/// `Display` of `std::num::ParseIntError`: the text that std prints for `e`.
#[verifier::external_body]
fn print_parse_error(e: &std::num::ParseIntError) -> (text: String)
    ensures
        text@ == parse_error_text(*e),
{
    format!("{}", e)
}

/// Where the database is, and how many connections to it the pool may hold.
#[derive(Debug)]
pub struct DbParams {
    pub url: String,
    pub pool_size: i32,
}

/// Why the database settings could not be read. The first two hold what the
/// environment said when it was asked for the setting.
#[derive(Debug)]
pub enum DbLoadErrors {
    DbUrlNotFound(String),
    DbConnectionPoolSizeNotFound(String),
    DbConnectionPoolSizeParse(std::num::ParseIntError),
}

impl DbLoadErrors {
    /// The error in words: what went wrong, a colon, and the cause.
    pub open spec fn message_spec(self) -> Seq<char> {
        match self {
            DbLoadErrors::DbUrlNotFound(cause) => "DB URL is not found in the env parameters: "@
                + cause@,
            DbLoadErrors::DbConnectionPoolSizeNotFound(cause) =>
                "DB Connection Pool Size is not found in the env parameters: "@ + cause@,
            DbLoadErrors::DbConnectionPoolSizeParse(cause) =>
                "DB Connection Pool Size is found but couldn't be parsed: "@ + parse_error_text(
                    cause,
                ),
        }
    }

    /// The error in words.
    pub fn message(&self) -> (text: String)
        ensures
            text@ == self.message_spec(),
    {
        match self {
            DbLoadErrors::DbUrlNotFound(cause) => String::from_str(
                "DB URL is not found in the env parameters: ",
            ).concat(cause.as_str()),
            DbLoadErrors::DbConnectionPoolSizeNotFound(cause) => String::from_str(
                "DB Connection Pool Size is not found in the env parameters: ",
            ).concat(cause.as_str()),
            DbLoadErrors::DbConnectionPoolSizeParse(cause) => {
                let cause_text = print_parse_error(cause);
                String::from_str(
                    "DB Connection Pool Size is found but couldn't be parsed: ",
                ).concat(cause_text.as_str())
            },
        }
    }
}

/// Reads the database settings out of what the environment gave for the
/// database's address and for the pool size; each is the value, or what the
/// environment said instead. The address is asked for first, so its absence
/// is what is reported where both are missing.
pub fn load_db_params(db_url: Result<String, String>, pool_size: Result<String, String>) -> (r:
    Result<DbParams, DbLoadErrors>)
    ensures
        match (db_url, pool_size) {
            (Err(cause), _) => r == Err::<DbParams, DbLoadErrors>(
                DbLoadErrors::DbUrlNotFound(cause),
            ),
            (Ok(_), Err(cause)) => r == Err::<DbParams, DbLoadErrors>(
                DbLoadErrors::DbConnectionPoolSizeNotFound(cause),
            ),
            (Ok(url), Ok(size)) => match decimal_i32(size@) {
                Some(n) => r == Ok::<DbParams, DbLoadErrors>(DbParams { url, pool_size: n }),
                None => r matches Err(DbLoadErrors::DbConnectionPoolSizeParse(_)),
            },
        },
{
    let url = match db_url {
        Ok(url) => url,
        Err(cause) => {
            return Err(DbLoadErrors::DbUrlNotFound(cause));
        },
    };
    let size = match pool_size {
        Ok(size) => size,
        Err(cause) => {
            return Err(DbLoadErrors::DbConnectionPoolSizeNotFound(cause));
        },
    };
    match parse_decimal_i32(size.as_str()) {
        Ok(pool_size) => Ok(DbParams { url, pool_size }),
        Err(cause) => Err(DbLoadErrors::DbConnectionPoolSizeParse(cause)),
    }
}

} // verus!
