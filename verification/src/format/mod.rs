//! Configuration formats: a format turns the text of a configuration file into a
//! `SystemConfig`, or says why it cannot.
pub mod toml;

use vstd::prelude::*;

use crate::param::SystemConfig;
use crate::param::SystemConfigView;

verus! {

/// Reads a configuration in the format `T`.
pub struct Parser {}

impl Parser {
    /// Parses `text` as a configuration in the format `T`.
    pub fn parse<T: TraitFormat>(text: String) -> (r: Result<SystemConfig, FormatError>)
        ensures
            config_result(r) == T::format_result(text@),
    {
        T::parse(text)
    }
}

/// A configuration file format.
pub trait TraitFormat {
    /// What the format makes of a text.
    spec fn format_result(text: Seq<char>) -> Result<SystemConfigView, FormatErrorView>;

    /// Reads the configuration that `text` describes.
    fn parse(text: String) -> (r: Result<SystemConfig, FormatError>)
        ensures
            config_result(r) == Self::format_result(text@),
    ;
}

/// Why a configuration could not be read.
#[derive(Debug)]
pub enum FormatError {
    ParseError(String),
    KeyNotFoundError(String),
}

pub enum FormatErrorView {
    ParseError(Seq<char>),
    KeyNotFoundError(Seq<char>),
}

impl View for FormatError {
    type V = FormatErrorView;

    open spec fn view(&self) -> FormatErrorView {
        match self {
            FormatError::ParseError(m) => FormatErrorView::ParseError(m@),
            FormatError::KeyNotFoundError(k) => FormatErrorView::KeyNotFoundError(k@),
        }
    }
}

/// The model of a reader's result.
pub open spec fn config_result(r: Result<SystemConfig, FormatError>) -> Result<
    SystemConfigView,
    FormatErrorView,
> {
    match r {
        Ok(c) => Ok(c@),
        Err(e) => Err(e@),
    }
}

/// The text by which an error is reported.
pub open spec fn error_message(e: FormatErrorView) -> Seq<char> {
    match e {
        FormatErrorView::ParseError(m) => "Parse error: "@ + m,
        FormatErrorView::KeyNotFoundError(k) => "Key not found: "@ + k,
    }
}

impl FormatError {
    /// The text by which the error is reported.
    pub fn message(&self) -> (r: String)
        ensures
            r@ == error_message(self@),
    {
        match self {
            FormatError::ParseError(m) => String::from_str("Parse error: ").concat(m.as_str()),
            FormatError::KeyNotFoundError(k) => String::from_str("Key not found: ").concat(
                k.as_str(),
            ),
        }
    }
}

} // verus!
