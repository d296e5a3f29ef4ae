//! The decoded shape of a module's manifest and of the global defaults.

use crate::error::DSDMError;
use vstd::prelude::*;
use vstd::string::StringExecFns;

verus! {

/// A decoded node of a manifest: the shapes a structured document can take.
///
/// Only strings and mappings are read as template variables; the other
/// shapes are carried so that they can be told apart and refused.
#[derive(Debug, PartialEq, Eq)]
pub enum YamlValue {
    /// An absent or null value.
    Null,
    /// A truth value.
    Bool(bool),
    /// A number, held as the text it was written with.
    Number(String),
    /// A string.
    String(String),
    /// A list of values.
    Sequence(Vec<YamlValue>),
    /// Key and value pairs, in the order of the document.
    Mapping(Vec<(YamlValue, YamlValue)>),
    /// A value under a tag.
    Tagged(String, Box<YamlValue>),
}

/// One export override: files under `source`, a path relative to the module's
/// root, are written under `target` instead of the default export root.
#[derive(Debug, PartialEq, Eq)]
pub struct ExportEntry {
    pub source: String,
    pub target: String,
}

/// A reference to another module that is applied along with the including one.
#[derive(Debug, PartialEq, Eq)]
pub struct IncludeEntry {
    /// The subdirectory of the store the module lives in, if any.
    pub path: Option<String>,
    /// The title of the included module.
    pub module: String,
}

/// A module's manifest.
#[derive(Debug, PartialEq, Eq)]
pub struct Module {
    /// Export overrides, in declared order: the first that matches wins.
    pub exports: Option<Vec<ExportEntry>>,
    /// Included modules, in declared order.
    pub includes: Option<Vec<IncludeEntry>>,
    /// The module's own template variables.
    pub templates: Option<YamlValue>,
}

/// The pair of strings that opens and closes a template expression.
#[derive(Debug, PartialEq, Eq)]
pub struct Delims {
    pub open: String,
    pub close: String,
}

/// The store-wide defaults shared by all modules.
#[derive(Debug, PartialEq, Eq)]
pub struct Globals {
    /// The configured delimiters; the default pair is used when absent.
    pub delimiters: Option<Delims>,
    /// The global template variables; none when absent.
    pub templates: Option<YamlValue>,
}

impl Default for Delims {
    /// The default pair, `!(` and `)!`.
    fn default() -> (delims: Self)
        ensures
            delims.open@ == "!("@,
            delims.close@ == ")!"@,
    {
        Delims { open: String::from_str("!("), close: String::from_str(")!") }
    }
}

/// The global template variables of the loaded defaults, or a null value
/// where the defaults name none. A failed load is handed on unchanged.
pub fn global_templates(globals: Result<Globals, DSDMError>) -> (templates: Result<
    YamlValue,
    DSDMError,
>)
    ensures
        templates == match globals {
            Ok(cfg) => Ok::<YamlValue, DSDMError>(
                match cfg.templates {
                    Some(tree) => tree,
                    None => YamlValue::Null,
                },
            ),
            Err(e) => Err(e),
        },
{
    match globals {
        Ok(cfg) => match cfg.templates {
            Some(tree) => Ok(tree),
            None => Ok(YamlValue::Null),
        },
        Err(e) => Err(e),
    }
}

/// The delimiters of the loaded defaults, or the default pair where the
/// defaults name none. A failed load is handed on unchanged.
pub fn delims(globals: Result<Globals, DSDMError>) -> (pair: Result<Delims, DSDMError>)
    ensures
        match globals {
            Ok(cfg) => match cfg.delimiters {
                Some(configured) => pair == Ok::<Delims, DSDMError>(configured),
                None => pair is Ok && pair->Ok_0.open@ == "!("@ && pair->Ok_0.close@ == ")!"@,
            },
            Err(e) => pair == Err::<Delims, DSDMError>(e),
        },
{
    match globals {
        Ok(cfg) => match cfg.delimiters {
            Some(configured) => Ok(configured),
            None => Ok(Delims::default()),
        },
        Err(e) => Err(e),
    }
}

} // verus!
