//! A snapshot of the process environment.
//!
//! Proxy settings are read from environment variables once, when a resolver
//! is built.  The snapshot is taken by the caller and handed over as a plain
//! value, so that everything decided from it is decided here.

use vstd::prelude::*;
use crate::text::str_equal;

verus! {

/// The mathematical model of an [`EnvValue`].
pub enum EnvValueModel {
    /// The value is this text.
    Text(Seq<char>),
    /// The value is no valid Unicode.
    NotUnicode,
}

/// The mathematical model of an [`EnvVar`].
pub struct EnvVarModel {
    /// The name of the variable.
    pub name: Seq<char>,
    /// Its value.
    pub value: EnvValueModel,
}

/// What the environment holds for a variable that is set.
#[derive(Debug, PartialEq, Eq)]
pub enum EnvValue {
    /// The value, where it is valid Unicode.
    Text(String),
    /// The variable is set, but its value is no valid Unicode.
    NotUnicode,
}

impl View for EnvValue {
    type V = EnvValueModel;

    open spec fn view(&self) -> EnvValueModel {
        match *self {
            EnvValue::Text(text) => EnvValueModel::Text(text@),
            EnvValue::NotUnicode => EnvValueModel::NotUnicode,
        }
    }
}

/// One variable of the environment.
#[derive(Debug, PartialEq, Eq)]
pub struct EnvVar {
    /// The name of the variable.
    pub name: String,
    /// Its value.
    pub value: EnvValue,
}

impl View for EnvVar {
    type V = EnvVarModel;

    open spec fn view(&self) -> EnvVarModel {
        EnvVarModel { name: self.name@, value: self.value@ }
    }
}

impl DeepView for EnvVar {
    type V = EnvVarModel;

    open spec fn deep_view(&self) -> EnvVarModel {
        self@
    }
}

/// The variables of an environment, in the order in which they were set.
/// Where a name occurs more than once, its last entry counts.
#[derive(Debug, PartialEq, Eq)]
pub struct Environment {
    /// The variables that are set.
    pub vars: Vec<EnvVar>,
}

impl View for Environment {
    type V = Seq<EnvVarModel>;

    open spec fn view(&self) -> Seq<EnvVarModel> {
        self.vars.deep_view()
    }
}

/// What `vars` holds for `name`: the value of the last entry of that name,
/// or `None` where `name` is not set.
pub open spec fn entry(vars: Seq<EnvVarModel>, name: Seq<char>) -> Option<EnvValueModel>
    decreases vars.len(),
{
    if vars.len() == 0 {
        None
    } else if vars.last().name == name {
        Some(vars.last().value)
    } else {
        entry(vars.drop_last(), name)
    }
}

/// The text that `vars` gives for `name`.  A variable whose value is no
/// valid Unicode counts as not set.
pub open spec fn text_of(vars: Seq<EnvVarModel>, name: Seq<char>) -> Option<Seq<char>> {
    match entry(vars, name) {
        Some(EnvValueModel::Text(text)) => Some(text),
        _ => None,
    }
}

impl Environment {
    /// An environment in which no variable is set.
    pub fn new() -> (r: Self)
        ensures
            r@ == Seq::<EnvVarModel>::empty(),
    {
        let r = Environment { vars: Vec::new() };
        r
    }

    /// Sets the variable `name` to `value`.
    pub fn set(&mut self, name: &str, value: EnvValue)
        ensures
            final(self)@ == old(self)@.push(EnvVarModel { name: name@, value: value@ }),
            entry(final(self)@, name@) == Some(value@),
            forall|other: Seq<char>|
                other != name@ ==> entry(final(self)@, other) == entry(old(self)@, other),
    {
        let ghost before = self@;
        self.vars.push(EnvVar { name: name.to_owned(), value });
        proof {
            assert(self@.drop_last() =~= before);
        }
    }

    /// Looks up the text of the variable `var`.
    ///
    /// Returns `None` where `var` is not set, and also where its value is no
    /// valid Unicode.
    pub fn lookup(&self, var: &str) -> (r: Option<&str>)
        ensures
            match r {
                Some(text) => text_of(self@, var@) == Some(text@),
                None => text_of(self@, var@) is None,
            },
    {
        let mut i: usize = self.vars.len();
        proof {
            assert(self@.take(i as int) =~= self@);
        }
        while i > 0
            invariant
                i <= self.vars.len(),
                entry(self@, var@) == entry(self@.take(i as int), var@),
            decreases i,
        {
            let ghost prefix = self@.take(i as int);
            i -= 1;
            proof {
                assert(prefix.drop_last() =~= self@.take(i as int));
            }
            if str_equal(self.vars[i].name.as_str(), var) {
                return match &self.vars[i].value {
                    EnvValue::Text(text) => Some(text.as_str()),
                    EnvValue::NotUnicode => None,
                };
            }
        }
        None
    }
}

} // verus!
