//! Command line arguments: finding an option in the argument list and handing its
//! value to the code that acts on it.

use vstd::prelude::*;

use crate::text::{spec_without_line_feeds, without_line_feeds};

verus! {

/// What the argument list holds for one option.
#[derive(Clone, Debug, PartialEq, Eq)]
pub enum ArgMatch {
    /// Neither spelling of the option is in the list.
    NotFound,
    /// The option is in the list and takes no value.
    Flag,
    /// The option takes a value and is the last argument of the list.
    MissingValue,
    /// The option is in the list, followed by this value, line feeds removed.
    Value(String),
}

/// An `ArgMatch` with its value as text.
pub enum ArgMatchView {
    NotFound,
    Flag,
    MissingValue,
    Value(Seq<char>),
}

impl View for ArgMatch {
    type V = ArgMatchView;

    open spec fn view(&self) -> ArgMatchView {
        match self {
            ArgMatch::NotFound => ArgMatchView::NotFound,
            ArgMatch::Flag => ArgMatchView::Flag,
            ArgMatch::MissingValue => ArgMatchView::MissingValue,
            ArgMatch::Value(value) => ArgMatchView::Value(value@),
        }
    }
}

/// The arguments as texts.
pub open spec fn spec_texts(list: Seq<String>) -> Seq<Seq<char>> {
    list.map_values(|argument: String| argument@)
}

/// The index of the first argument that is one of the two spellings of an option.
pub open spec fn spec_position(list: Seq<Seq<char>>, argument: Seq<char>, argument_alt: Seq<char>)
    -> Option<int>
    decreases list.len(),
{
    if list.len() == 0 {
        None
    } else if list.first() == argument || list.first() == argument_alt {
        Some(0)
    } else {
        match spec_position(list.drop_first(), argument, argument_alt) {
            Some(index) => Some(index + 1),
            None => None,
        }
    }
}

/// What the argument list holds for an option with the spellings `argument` and
/// `argument_alt`. The first occurrence of either spelling counts. An option that
/// accepts a value takes the argument after it, line feeds removed.
pub open spec fn spec_match_arg(
    list: Seq<Seq<char>>,
    argument: Seq<char>,
    argument_alt: Seq<char>,
    accepts_value: bool,
) -> ArgMatchView {
    match spec_position(list, argument, argument_alt) {
        None => ArgMatchView::NotFound,
        Some(index) => if !accepts_value {
            ArgMatchView::Flag
        } else if index + 1 == list.len() {
            ArgMatchView::MissingValue
        } else {
            ArgMatchView::Value(spec_without_line_feeds(list[index + 1]))
        },
    }
}

/// The first occurrence of an option lies within the list, is a spelling of the
/// option, and no argument before it is one.
pub proof fn lemma_position_is_first(
    list: Seq<Seq<char>>,
    argument: Seq<char>,
    argument_alt: Seq<char>,
)
    ensures
        match spec_position(list, argument, argument_alt) {
            Some(index) => {
                &&& 0 <= index < list.len()
                &&& list[index] == argument || list[index] == argument_alt
                &&& forall|i: int|
                    0 <= i < index ==> list[i] != argument && list[i] != argument_alt
            },
            None => forall|i: int|
                0 <= i < list.len() ==> list[i] != argument && list[i] != argument_alt,
        },
    decreases list.len(),
{
    if list.len() > 0 && !(list.first() == argument || list.first() == argument_alt) {
        let rest = list.drop_first();
        lemma_position_is_first(rest, argument, argument_alt);
        match spec_position(rest, argument, argument_alt) {
            Some(index) => {
                assert forall|i: int| 0 <= i < index + 1 implies list[i] != argument && list[i]
                    != argument_alt by {
                    if i > 0 {
                        assert(list[i] == rest[i - 1]);
                    }
                }
            },
            None => {
                assert forall|i: int| 0 <= i < list.len() implies list[i] != argument && list[i]
                    != argument_alt by {
                    if i > 0 {
                        assert(list[i] == rest[i - 1]);
                    }
                }
            },
        }
    }
}

fn position(list: &Vec<String>, argument: &String, argument_alt: &String) -> (found: Option<usize>)
    ensures
        match found {
            Some(index) => spec_position(spec_texts(list@), argument@, argument_alt@) == Some(
                index as int,
            ),
            None => spec_position(spec_texts(list@), argument@, argument_alt@) is None,
        },
{
    let ghost texts = spec_texts(list@);
    let mut i: usize = 0;
    assert(texts.skip(0) =~= texts);
    while i < list.len()
        invariant
            i <= list.len(),
            texts == spec_texts(list@),
            spec_position(texts, argument@, argument_alt@) == match spec_position(
                texts.skip(i as int),
                argument@,
                argument_alt@,
            ) {
                Some(index) => Some(index + i),
                None => None,
            },
        decreases list.len() - i,
    {
        assert(texts.skip(i as int).first() == list@[i as int]@);
        assert(texts.skip(i as int).drop_first() =~= texts.skip(i + 1));
        if list[i] == *argument || list[i] == *argument_alt {
            return Some(i);
        }
        i += 1;
    }
    None
}

/// Looks an option up in the argument list.
pub fn match_arg(list: &Vec<String>, argument: &String, argument_alt: &String, accepts_value: bool)
    -> (found: ArgMatch)
    ensures
        found@ == spec_match_arg(spec_texts(list@), argument@, argument_alt@, accepts_value),
{
    match position(list, argument, argument_alt) {
        None => ArgMatch::NotFound,
        Some(index) => {
            proof {
                lemma_position_is_first(spec_texts(list@), argument@, argument_alt@);
            }
            if !accepts_value {
                ArgMatch::Flag
            } else if list.len() == index + 1 {
                ArgMatch::MissingValue
            } else {
                ArgMatch::Value(without_line_feeds(list[index + 1].as_str()))
            }
        },
    }
}

/// Looks an option up in the argument list and hands it to `function`.
///
/// An option that takes no value has `function` called with the empty string, and
/// the answer of `function` is the result. An option that accepts a value has
/// `function` called with the argument that follows it, line feeds removed; the
/// result is then `true`, whatever `function` answers. Where the option is not in
/// the list, or accepts a value and is the last argument, `function` is not called
/// and the result is `false`.
pub fn parse_arg<F>(
    list: &Vec<String>,
    argument: String,
    argument_alt: String,
    accepts_value: bool,
    mut function: F,
) -> (found: bool) where F: FnMut(&String) -> bool
    requires
        forall|value: &String| call_requires(function, (value,)),
    ensures
        match spec_match_arg(spec_texts(list@), argument@, argument_alt@, accepts_value) {
            ArgMatchView::NotFound => !found,
            ArgMatchView::Flag => exists|value: String|
                value@ == Seq::<char>::empty() && #[trigger] call_ensures(
                    function,
                    (&value,),
                    found,
                ),
            ArgMatchView::MissingValue => !found,
            ArgMatchView::Value(text) => found && exists|value: String, answer: bool|
                value@ == text && #[trigger] call_ensures(function, (&value,), answer),
        },
{
    match match_arg(list, &argument, &argument_alt, accepts_value) {
        ArgMatch::NotFound => false,
        ArgMatch::Flag => {
            let value = String::new();
            function(&value)
        },
        ArgMatch::MissingValue => false,
        ArgMatch::Value(value) => {
            let _ = function(&value);
            true
        },
    }
}

} // verus!
