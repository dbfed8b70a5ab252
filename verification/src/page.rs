//! The home page: what it is rendered with, and what is answered.

use vstd::prelude::*;
use crate::store::{render_outcome, RenderError};

verus! {

/// The status of an answer whose page could not be rendered.
pub const INTERNAL_SERVER_ERROR: u16 = 500;

/// A value that the home page's context holds.
pub enum ContextValue {
    Number(int),
    Flag(bool),
}

/// What a template context holds under each of its keys, as far as these are
/// whole numbers and booleans.
pub uninterp spec fn context_entries(context: tera::Context) -> Map<Seq<char>, ContextValue>;

/// The calendar year, in UTC, of the instant `unix_seconds` after the Unix
/// epoch; `None` for an instant outside the calendar's range.
pub uninterp spec fn utc_year(unix_seconds: i64) -> Option<i32>;

/// No entry at all.
pub open spec fn empty_entries() -> Map<Seq<char>, ContextValue> {
    Map::empty()
}

/// `tera::Context::new`: a context that holds nothing.
#[verifier::external_body]
fn context_new() -> (context: tera::Context)
    ensures
        context_entries(context) == empty_entries(),
{
    tera::Context::new()
}

/// `tera::Context::insert` with a whole number: `key` then holds `value`,
/// whatever it held before, and the other keys are as they were. A number
/// always serializes, so the call cannot panic.
#[verifier::external_body]
fn context_insert_number(context: &mut tera::Context, key: &str, value: i32)
    ensures
        context_entries(*final(context)) == context_entries(*old(context)).insert(
            key@,
            ContextValue::Number(value as int),
        ),
{
    context.insert(key, &value)
}

/// `tera::Context::insert` with a boolean: `key` then holds `value`, whatever
/// it held before, and the other keys are as they were. A boolean always
/// serializes, so the call cannot panic.
#[verifier::external_body]
fn context_insert_flag(context: &mut tera::Context, key: &str, value: bool)
    ensures
        context_entries(*final(context)) == context_entries(*old(context)).insert(
            key@,
            ContextValue::Flag(value),
        ),
{
    context.insert(key, &value)
}

/// `chrono::DateTime::from_timestamp` at zero nanoseconds, then
/// `chrono::Datelike::year` of the result: the year of an instant, which
/// depends on the instant alone. An instant out of range gives `None`; neither
/// call panics.
#[verifier::external_body]
fn year_of_timestamp(unix_seconds: i64) -> (year: Option<i32>)
    ensures
        year == utc_year(unix_seconds),
{
    match chrono::DateTime::from_timestamp(unix_seconds, 0) {
        Some(instant) => Some(chrono::Datelike::year(&instant)),
        None => None,
    }
}

/// The name of the home page's template.
pub fn home_template() -> (name: &'static str)
    ensures
        name@ == "index.html"@,
{
    "index.html"
}

/// What the home page is rendered with: the year, and in development mode
/// the flag that switches the page's reload script on.
pub open spec fn home_entries(year: i32, dev_mode: bool) -> Map<Seq<char>, ContextValue> {
    let base = empty_entries().insert("year"@, ContextValue::Number(year as int));
    if dev_mode {
        base.insert("dev_mode"@, ContextValue::Flag(true))
    } else {
        base
    }
}

/// Builds the home page's context. Outside development mode the context
/// holds the year and nothing else: the development flag is absent, not
/// false.
pub fn home_context(year: i32, dev_mode: bool) -> (context: tera::Context)
    ensures
        context_entries(context) == home_entries(year, dev_mode),
        context_entries(context).contains_key("year"@),
        context_entries(context)["year"@] == ContextValue::Number(year as int),
        context_entries(context).contains_key("dev_mode"@) == dev_mode,
{
    proof {
        reveal_strlit("year");
        reveal_strlit("dev_mode");
        assert("year"@.len() != "dev_mode"@.len());
    }
    let mut context = context_new();
    context_insert_number(&mut context, "year", year);
    if dev_mode {
        context_insert_flag(&mut context, "dev_mode", true);
    }
    context
}

/// The calendar year, in UTC, at `unix_seconds` after the Unix epoch.
pub fn year_at(unix_seconds: i64) -> (year: Option<i32>)
    ensures
        year == utc_year(unix_seconds),
{
    year_of_timestamp(unix_seconds)
}

/// The home page could not be answered with a page.
pub struct PageFailure {
    /// The status to answer with. The answer carries nothing else.
    pub status: u16,
    /// Why; for the server's log, not for the client.
    pub cause: tera::Error,
}

/// The answer for what rendering returned: the page as it is, or a failure
/// with status [`INTERNAL_SERVER_ERROR`].
pub fn home_response(rendered: Result<String, RenderError>) -> (response: Result<
    String,
    PageFailure,
>)
    ensures
        rendered matches Ok(html) ==> response is Ok && response->Ok_0 == html,
        rendered matches Err(error) ==> response is Err && response->Err_0.status
            == INTERNAL_SERVER_ERROR && response->Err_0.cause == error.cause,
{
    match rendered {
        Ok(html) => Ok(html),
        Err(error) => Err(PageFailure { status: INTERNAL_SERVER_ERROR, cause: error.cause }),
    }
}

/// Answers a request for the home page, for what the engine returned when
/// it expanded [`home_template`] with [`home_context`]: the page, or a failure
/// with status [`INTERNAL_SERVER_ERROR`] that keeps the engine's error for
/// the log.
pub fn home_page(expanded: Result<String, tera::Error>) -> (response: Result<String, PageFailure>)
    ensures
        expanded matches Ok(html) ==> response is Ok && response->Ok_0 == html,
        expanded matches Err(cause) ==> response is Err && response->Err_0.status
            == INTERNAL_SERVER_ERROR && response->Err_0.cause == cause,
{
    home_response(render_outcome(expanded))
}

} // verus!
