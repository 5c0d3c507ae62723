//! The options of a foreign table and the checks the host runs on option
//! lists when a wrapper, a server or a table is declared.

use vstd::prelude::*;
use crate::scan::LocalFileFdw;
use crate::text::{names_option, option_is_named, option_key, option_name, str_equal};

verus! {

/// Catalog identifier under which the host validates a wrapper's options.
pub const FOREIGN_DATA_WRAPPER_RELATION_ID: u32 = 2328;

/// Catalog identifier under which the host validates a server's options.
pub const FOREIGN_SERVER_RELATION_ID: u32 = 1417;

/// Catalog identifier under which the host validates a table's options.
pub const FOREIGN_TABLE_RELATION_ID: u32 = 3118;

/// The options a foreign table takes.
#[derive(Debug, Clone, Copy, PartialEq, Eq, Structural)]
pub enum TableOption {
    Path,
    Extension,
    Format,
}

impl TableOption {
    /// The option's name.
    pub open spec fn name(self) -> Seq<char> {
        match self {
            TableOption::Path => "path"@,
            TableOption::Extension => "extension"@,
            TableOption::Format => "format"@,
        }
    }

    /// Whether a table must give the option.
    pub open spec fn required(self) -> bool {
        match self {
            TableOption::Path => true,
            TableOption::Extension => true,
            TableOption::Format => false,
        }
    }

    /// Every option, in the order in which they are checked.
    pub open spec fn all() -> Seq<TableOption> {
        seq![TableOption::Path, TableOption::Extension, TableOption::Format]
    }

    /// The option's name.
    pub fn as_str(&self) -> (name: &'static str)
        ensures
            name@ == self.name(),
    {
        match self {
            TableOption::Path => "path",
            TableOption::Extension => "extension",
            TableOption::Format => "format",
        }
    }

    /// Whether a table must give the option.
    pub fn is_required(&self) -> (required: bool)
        ensures
            required == self.required(),
    {
        match self {
            TableOption::Path => true,
            TableOption::Extension => true,
            TableOption::Format => false,
        }
    }

    /// Every option, in the order in which they are checked.
    pub fn iter() -> (options: Vec<TableOption>)
        ensures
            options@ == TableOption::all(),
    {
        let mut options: Vec<TableOption> = Vec::new();
        options.push(TableOption::Path);
        options.push(TableOption::Extension);
        options.push(TableOption::Format);
        options
    }
}

/// What is wrong with an option list.
#[derive(Debug, Clone, PartialEq, Eq)]
pub enum OptionsError {
    /// An option of this name is given and is not among the valid ones.
    InvalidOption(String),
    /// No option of this name is given.
    OptionNameNotFound(String),
}

/// What an [`OptionsError`] stands for.
pub ghost enum OptionsErrorView {
    InvalidOption(Seq<char>),
    OptionNameNotFound(Seq<char>),
}

impl View for OptionsError {
    type V = OptionsErrorView;

    open spec fn view(&self) -> OptionsErrorView {
        match self {
            OptionsError::InvalidOption(name) => OptionsErrorView::InvalidOption(name@),
            OptionsError::OptionNameNotFound(name) => OptionsErrorView::OptionNameNotFound(name@),
        }
    }
}

/// Why the host's validation call failed.
#[derive(Debug, Clone, PartialEq, Eq)]
pub enum ValidatorError {
    /// The options are of a catalog that this wrapper has no objects in.
    UnsupportedFdwOid(u32),
    /// The options of a table are not acceptable.
    Options(OptionsError),
}

/// What a [`ValidatorError`] stands for.
pub ghost enum ValidatorErrorView {
    UnsupportedFdwOid(u32),
    Options(OptionsErrorView),
}

impl View for ValidatorError {
    type V = ValidatorErrorView;

    open spec fn view(&self) -> ValidatorErrorView {
        match self {
            ValidatorError::UnsupportedFdwOid(oid) => ValidatorErrorView::UnsupportedFdwOid(*oid),
            ValidatorError::Options(e) => ValidatorErrorView::Options(e@),
        }
    }
}

/// The views of an option list: each given option as its text.
pub open spec fn options_view(options: Seq<Option<String>>) -> Seq<Option<Seq<char>>> {
    options.map_values(
        |o: Option<String>|
            match o {
                Some(s) => Some(s@),
                None => None,
            },
    )
}

/// The views of a list of names.
pub open spec fn names_view(names: Seq<String>) -> Seq<Seq<char>> {
    names.map_values(|s: String| s@)
}

/// Some given option of `options` is called `name`.
pub open spec fn contains_option(options: Seq<Option<Seq<char>>>, name: Seq<char>) -> bool {
    exists|i: int|
        0 <= i < options.len() && (#[trigger] options[i]) is Some && names_option(
            options[i]->Some_0,
            name,
        )
}

/// The option at `i` is given and its name is not among `valid`.
pub open spec fn is_invalid_at(options: Seq<Option<Seq<char>>>, valid: Seq<Seq<char>>, i: int) -> bool {
    options[i] is Some && !valid.contains(option_key(options[i]->Some_0))
}

/// Index of the first invalid option at or after `from`, or the length of
/// the list when none follows.
pub open spec fn first_invalid_from(
    options: Seq<Option<Seq<char>>>,
    valid: Seq<Seq<char>>,
    from: int,
) -> int
    decreases options.len() - from,
{
    if from < 0 || from >= options.len() {
        options.len() as int
    } else if is_invalid_at(options, valid, from) {
        from
    } else {
        first_invalid_from(options, valid, from + 1)
    }
}

/// Index in [`TableOption::all`] of the first required option at or after
/// `from` that `options` does not give, or the number of options.
pub open spec fn first_missing_from(options: Seq<Option<Seq<char>>>, from: int) -> int
    decreases TableOption::all().len() - from,
{
    let all = TableOption::all();
    if from < 0 || from >= all.len() {
        all.len() as int
    } else if all[from].required() && !contains_option(options, all[from].name()) {
        from
    } else {
        first_missing_from(options, from + 1)
    }
}

/// The verdict on the options of a table: the first given option with an
/// unknown name is refused by that name; else the first required option
/// that is not given is asked for by its name.
pub open spec fn table_verdict(options: Seq<Option<Seq<char>>>) -> Result<(), OptionsErrorView> {
    let valid = TableOption::all().map_values(|o: TableOption| o.name());
    let bad = first_invalid_from(options, valid, 0);
    let missing = first_missing_from(options, 0);
    if bad < options.len() {
        Err(OptionsErrorView::InvalidOption(option_key(options[bad]->Some_0)))
    } else if missing < TableOption::all().len() {
        Err(OptionsErrorView::OptionNameNotFound(TableOption::all()[missing].name()))
    } else {
        Ok(())
    }
}

/// The verdict of the host's validation call on `options`, declared for
/// an object of the catalog `catalog`.
pub open spec fn verdict(options: Seq<Option<Seq<char>>>, catalog: Option<u32>) -> Result<
    (),
    ValidatorErrorView,
> {
    match catalog {
        None => Ok(()),
        Some(oid) => if oid == FOREIGN_DATA_WRAPPER_RELATION_ID || oid
            == FOREIGN_SERVER_RELATION_ID {
            Ok(())
        } else if oid == FOREIGN_TABLE_RELATION_ID {
            match table_verdict(options) {
                Ok(()) => Ok(()),
                Err(e) => Err(ValidatorErrorView::Options(e)),
            }
        } else {
            Err(ValidatorErrorView::UnsupportedFdwOid(oid))
        },
    }
}

pub open spec fn options_result_view(outcome: Result<(), OptionsError>) -> Result<
    (),
    OptionsErrorView,
> {
    match outcome {
        Ok(()) => Ok(()),
        Err(e) => Err(e@),
    }
}

pub open spec fn validator_result_view(outcome: Result<(), ValidatorError>) -> Result<
    (),
    ValidatorErrorView,
> {
    match outcome {
        Ok(()) => Ok(()),
        Err(e) => Err(e@),
    }
}

/// Whether `name` is one of `valid`.
fn is_known(name: &str, valid: &Vec<String>) -> (known: bool)
    ensures
        known == names_view(valid@).contains(name@),
{
    let ghost names = names_view(valid@);
    let mut i: usize = 0;
    while i < valid.len()
        invariant
            i <= valid@.len(),
            names == names_view(valid@),
            forall|j: int| 0 <= j < i ==> names[j] != name@,
        decreases valid@.len() - i,
    {
        if str_equal(valid[i].as_str(), name) {
            assert(names[i as int] == name@);
            return true;
        }
        i += 1;
    }
    false
}

/// Accepts `opt_list` if the name of every given option is one of
/// `valid_options`; else refuses the first that is not, by its name.
pub fn validate_options(opt_list: &Vec<Option<String>>, valid_options: &Vec<String>) -> (outcome:
    Result<(), OptionsError>)
    ensures
        ({
            let options = options_view(opt_list@);
            let bad = first_invalid_from(options, names_view(valid_options@), 0);
            options_result_view(outcome) == if bad < options.len() {
                Err::<(), OptionsErrorView>(
                    OptionsErrorView::InvalidOption(option_key(options[bad]->Some_0)),
                )
            } else {
                Ok(())
            }
        }),
{
    let ghost options = options_view(opt_list@);
    let ghost valid = names_view(valid_options@);
    let mut i: usize = 0;
    while i < opt_list.len()
        invariant
            i <= opt_list@.len(),
            options == options_view(opt_list@),
            valid == names_view(valid_options@),
            first_invalid_from(options, valid, 0) == first_invalid_from(options, valid, i as int),
        decreases opt_list@.len() - i,
    {
        match &opt_list[i] {
            Some(text) => {
                let name = option_name(text.as_str());
                if !is_known(name.as_str(), valid_options) {
                    return Err(OptionsError::InvalidOption(name));
                }
            },
            None => {},
        }
        i += 1;
    }
    Ok(())
}

/// Accepts `opt_list` if it gives an option called `tgt`, that is an
/// option whose text begins with `tgt` and `=`.
pub fn check_options_contain(opt_list: &Vec<Option<String>>, tgt: &str) -> (outcome: Result<
    (),
    OptionsError,
>)
    ensures
        options_result_view(outcome) == if contains_option(options_view(opt_list@), tgt@) {
            Ok::<(), OptionsErrorView>(())
        } else {
            Err(OptionsErrorView::OptionNameNotFound(tgt@))
        },
{
    let ghost options = options_view(opt_list@);
    let mut i: usize = 0;
    while i < opt_list.len()
        invariant
            i <= opt_list@.len(),
            options == options_view(opt_list@),
            forall|j: int|
                0 <= j < i ==> !((#[trigger] options[j]) is Some && names_option(
                    options[j]->Some_0,
                    tgt@,
                )),
        decreases opt_list@.len() - i,
    {
        match &opt_list[i] {
            Some(text) => {
                if option_is_named(text.as_str(), tgt) {
                    return Ok(());
                }
            },
            None => {
                assert(options[i as int] is None);
            },
        }
        i += 1;
    }
    Err(OptionsError::OptionNameNotFound(tgt.to_owned()))
}

impl LocalFileFdw {
    /// The host's validation call: the options `opt_list` were declared for
    /// an object of the catalog `catalog`. The options of a wrapper and of a
    /// server are not looked at; those of a table must all be known and must
    /// give every required option; any other catalog is refused.
    pub fn validator(opt_list: Vec<Option<String>>, catalog: Option<u32>) -> (outcome: Result<
        (),
        ValidatorError,
    >)
        ensures
            validator_result_view(outcome) == verdict(options_view(opt_list@), catalog),
    {
        if let Some(oid) = catalog {
            if oid == FOREIGN_DATA_WRAPPER_RELATION_ID || oid == FOREIGN_SERVER_RELATION_ID {
            } else if oid == FOREIGN_TABLE_RELATION_ID {
                let all = TableOption::iter();
                let ghost options = options_view(opt_list@);
                let mut valid_options: Vec<String> = Vec::new();
                let mut k: usize = 0;
                while k < all.len()
                    invariant
                        k <= all@.len(),
                        all@ == TableOption::all(),
                        valid_options@.len() == k,
                        forall|j: int| 0 <= j < k ==> (#[trigger] valid_options@[j])@ == all@[j].name(),
                    decreases all@.len() - k,
                {
                    valid_options.push(all[k].as_str().to_owned());
                    k += 1;
                }
                let ghost valid = TableOption::all().map_values(|o: TableOption| o.name());
                assert(names_view(valid_options@) =~= valid);
                match validate_options(&opt_list, &valid_options) {
                    Err(e) => {
                        return Err(ValidatorError::Options(e));
                    },
                    Ok(()) => {},
                }
                let mut r: usize = 0;
                while r < all.len()
                    invariant
                        r <= all@.len(),
                        all@ == TableOption::all(),
                        options == options_view(opt_list@),
                        first_missing_from(options, 0) == first_missing_from(options, r as int),
                        valid == TableOption::all().map_values(|o: TableOption| o.name()),
                        first_invalid_from(options, valid, 0) >= options.len(),
                        catalog == Some(oid),
                        oid == FOREIGN_TABLE_RELATION_ID,
                    decreases all@.len() - r,
                {
                    if all[r].is_required() {
                        match check_options_contain(&opt_list, all[r].as_str()) {
                            Err(e) => {
                                return Err(ValidatorError::Options(e));
                            },
                            Ok(()) => {},
                        }
                    }
                    r += 1;
                }
            } else {
                return Err(ValidatorError::UnsupportedFdwOid(oid));
            }
        }
        Ok(())
    }
}

} // verus!
