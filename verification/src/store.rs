//! The template store: the parsed templates that pages are rendered from.
//!
//! Parsing and expanding are the template engine's work. The store owns the
//! engine's parsed set and guards the one rule of its own: the set changes only
//! by a reload, and a reload either replaces the whole set or leaves it as it
//! was.
//!
//! Two things are the caller's part. Reading the template files: the caller
//! hands the store what a fresh parse returned. And the expansion itself: the
//! engine can panic in the middle of one (a template may ask its random
//! source for a number from an empty range, or add two numbers past the
//! largest float), and nothing here may panic. So the caller asks the engine,
//! through [`TemplateStore::engine`], and hands what came back to
//! [`render_outcome`].

use vstd::prelude::*;

verus! {

/// `tera::Tera`: the engine with its parsed templates. Nothing inside it is
/// visible here.
#[verifier::external_type_specification]
#[verifier::external_body]
pub struct ExTera(tera::Tera);

/// `tera::Context`: the values a template is rendered with. Nothing inside
/// it is visible here.
#[verifier::external_type_specification]
#[verifier::external_body]
pub struct ExContext(tera::Context);

/// `tera::Error`: why the engine could not parse or render. It is carried
/// through to the caller, never looked into.
#[verifier::external_type_specification]
#[verifier::external_body]
pub struct ExTeraError(tera::Error);

/// A page could not be rendered: the template is unknown, or the engine could
/// not expand it.
pub struct RenderError {
    pub cause: tera::Error,
}

/// A reload was refused: the fresh parse of the template files failed.
pub struct ReloadError {
    pub cause: tera::Error,
}

/// The set of parsed templates in use.
pub struct TemplateStore {
    engine: tera::Tera,
}

/// The server cannot start: the first parse of the template files failed.
pub struct StartupFailure {
    /// The code the process exits with.
    pub exit_code: i32,
    pub cause: tera::Error,
}

/// The exit code of a server whose templates did not parse at startup.
pub const EXIT_PARSE_FAILURE: i32 = 1;

/// The pattern that picks the template files: every `.html` file under
/// `templates`, at any depth.
pub fn template_glob() -> (pattern: &'static str)
    ensures
        pattern@ == "templates/**/*.html"@,
{
    "templates/**/*.html"
}

/// The names of the templates that a parsed set holds.
pub uninterp spec fn template_names(engine: tera::Tera) -> Set<Seq<char>>;

/// `tera::Tera::get_template`, asked only whether it finds the name: it does
/// exactly when the set holds a template called `name`.
#[verifier::external_body]
fn engine_has_template(engine: &tera::Tera, name: &str) -> (known: bool)
    ensures
        known == template_names(*engine).contains(name@),
{
    engine.get_template(name).is_ok()
}

impl TemplateStore {
    /// The parsed set that the store holds.
    pub closed spec fn templates(&self) -> tera::Tera {
        self.engine
    }

    /// A store that holds `engine`'s templates.
    pub fn new(engine: tera::Tera) -> (store: TemplateStore)
        ensures
            store.templates() == engine,
    {
        TemplateStore { engine }
    }

    /// The store a server starts with, from the outcome of the first parse of
    /// the template files: the parsed set, or the failure that ends the
    /// process with [`EXIT_PARSE_FAILURE`].
    pub fn open(parsed: Result<tera::Tera, tera::Error>) -> (opened: Result<
        TemplateStore,
        StartupFailure,
    >)
        ensures
            parsed matches Ok(engine) ==> opened is Ok && opened->Ok_0.templates() == engine,
            parsed matches Err(cause) ==> opened is Err && opened->Err_0.exit_code
                == EXIT_PARSE_FAILURE && opened->Err_0.cause == cause,
    {
        match parsed {
            Ok(engine) => Ok(TemplateStore { engine }),
            Err(cause) => Err(StartupFailure { exit_code: EXIT_PARSE_FAILURE, cause }),
        }
    }

    /// The parsed set, to read and to expand templates from.
    pub fn engine(&self) -> (engine: &tera::Tera)
        ensures
            *engine == self.templates(),
    {
        &self.engine
    }

    /// Whether the store holds a template called `name`.
    pub fn has_template(&self, name: &str) -> (known: bool)
        ensures
            known == template_names(self.templates()).contains(name@),
    {
        engine_has_template(&self.engine, name)
    }

    /// Takes in the outcome of a fresh parse of the template files. A parse
    /// that succeeded replaces the whole set; one that failed is reported and
    /// leaves the set in use untouched.
    pub fn reload(&mut self, parsed: Result<tera::Tera, tera::Error>) -> (outcome: Result<
        (),
        ReloadError,
    >)
        ensures
            parsed matches Ok(fresh) ==> outcome is Ok && final(self).templates() == fresh,
            parsed matches Err(cause) ==> outcome is Err && outcome->Err_0.cause == cause
                && final(self).templates() == old(self).templates(),
    {
        match parsed {
            Ok(fresh) => {
                self.engine = fresh;
                Ok(())
            },
            Err(cause) => Err(ReloadError { cause }),
        }
    }
}

/// The store's answer to a render, for what the engine returned when it was
/// asked to expand a template of the store: the engine's text as it is, or a
/// [`RenderError`] that keeps the engine's error as its cause.
pub fn render_outcome(expanded: Result<String, tera::Error>) -> (rendered: Result<
    String,
    RenderError,
>)
    ensures
        expanded matches Ok(text) ==> rendered is Ok && rendered->Ok_0 == text,
        expanded matches Err(cause) ==> rendered is Err && rendered->Err_0.cause == cause,
{
    match expanded {
        Ok(text) => Ok(text),
        Err(cause) => Err(RenderError { cause }),
    }
}

} // verus!
