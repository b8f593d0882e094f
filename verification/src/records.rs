//! The record matcher: the first line of a data file whose `date` capture is
//! the expected date.

use crate::error::PrepareError;
use regex::Regex;
use vstd::hash_map::StringHashMap;
use vstd::prelude::*;

verus! {

/// `regex::Regex`, a compiled regular expression.
#[verifier::external_type_specification]
#[verifier::external_body]
pub struct ExRegex(Regex);

/// `regex::Error`, why a pattern does not compile.
#[verifier::external_type_specification]
#[verifier::external_body]
pub struct ExRegexError(regex::Error);

/// Whether `pattern` compiles as a regular expression.
pub uninterp spec fn pattern_compiles(pattern: Seq<char>) -> bool;

/// The pattern that a regular expression was compiled from, as
/// `Regex::as_str` gives it back.
pub uninterp spec fn regex_source(re: Regex) -> Seq<char>;

/// The names of the capture groups of `pattern` in the order of their
/// opening parentheses, the whole match first; nothing for a group without a
/// name.
pub uninterp spec fn group_names(pattern: Seq<char>) -> Seq<Option<Seq<char>>>;

/// For the first match of `pattern` in `line`, the text of each capture
/// group in the order of `group_names`, without a text where the group took
/// no part in the match; nothing where the pattern does not match the line.
pub uninterp spec fn group_texts(pattern: Seq<char>, line: Seq<char>) -> Option<
    Seq<Option<Seq<char>>>,
>;

/// `Regex::new`: compiles `pattern`. The regular expression that it gives
/// keeps the pattern as its source.
#[verifier::external_body]
fn compile(pattern: &str) -> (r: Result<Regex, regex::Error>)
    ensures
        r is Ok <==> pattern_compiles(pattern@),
        r matches Ok(re) ==> regex_source(re) == pattern@,
{
    Regex::new(pattern)
}

/// `Regex::capture_names`: the names of the capture groups in the order of
/// the groups, nothing for a group without a name.
#[verifier::external_body]
fn capture_names(re: &Regex) -> (names: Vec<Option<String>>)
    ensures
        names.deep_view() == group_names(regex_source(*re)),
{
    re.capture_names().map(|name| name.map(str::to_string)).collect()
}

/// `Regex::captures`: the capture groups of the first match in `line`, in
/// the order in which `Captures::iter` hands them out, each as the text it
/// matched; nothing where the pattern does not match the line.
#[verifier::external_body]
fn match_line(re: &Regex, line: &str) -> (texts: Option<Vec<Option<String>>>)
    ensures
        texts.deep_view() == group_texts(regex_source(*re), line@),
{
    re.captures(line).map(
        |found| found.iter().map(|group| group.map(|m| m.as_str().to_string())).collect(),
    )
}

/// The name of the capture that holds a record's date.
pub open spec fn date_key() -> Seq<char> {
    "date"@
}

/// A capture dictionary: the texts that the named groups of a pattern
/// captured in one line, by name.
pub struct CaptureDict {
    map: StringHashMap<String>,
}

impl View for CaptureDict {
    type V = Map<Seq<char>, Seq<char>>;

    closed spec fn view(&self) -> Map<Seq<char>, Seq<char>> {
        self.map@.map_values(|text: String| text@)
    }
}

impl CaptureDict {
    /// A dictionary without entries.
    pub fn new() -> (r: CaptureDict)
        ensures
            r@ == Map::<Seq<char>, Seq<char>>::empty(),
    {
        CaptureDict { map: StringHashMap::new() }
    }

    /// Gives `name` the text `text`.
    pub fn insert(&mut self, name: String, text: String)
        ensures
            final(self)@ == old(self)@.insert(name@, text@),
    {
        self.map.insert(name, text);
    }

    /// The text under `name`, if there is one.
    pub fn get(&self, name: &str) -> (r: Option<&String>)
        ensures
            r is Some <==> self@.contains_key(name@),
            r matches Some(text) ==> text@ == self@[name@],
    {
        self.map.get(name)
    }

    /// The text under `name`, or the empty text where the dictionary has
    /// none.
    pub fn value_or_empty(&self, name: &str) -> (r: String)
        ensures
            r@ == value_or_empty(self@, name@),
    {
        match self.map.get(name) {
            Some(text) => text.clone(),
            None => String::new(),
        }
    }
}

/// The text under `name` in `dict`, or the empty text where it has none.
pub open spec fn value_or_empty(dict: Map<Seq<char>, Seq<char>>, name: Seq<char>) -> Seq<char> {
    if dict.contains_key(name) {
        dict[name]
    } else {
        Seq::empty()
    }
}

/// The text of group `i`, where the group took part in the match.
pub open spec fn text_at(texts: Seq<Option<Seq<char>>>, i: int) -> Option<Seq<char>> {
    if 0 <= i < texts.len() {
        texts[i]
    } else {
        None
    }
}

/// The dictionary of a match: the text of every group that has a name and
/// took part in the match, under the group's name.
pub open spec fn named_texts(names: Seq<Option<Seq<char>>>, texts: Seq<Option<Seq<char>>>) -> Map<
    Seq<char>,
    Seq<char>,
>
    decreases names.len(),
{
    if names.len() == 0 {
        Map::empty()
    } else {
        let before = named_texts(names.drop_last(), texts);
        match (names.last(), text_at(texts, names.len() - 1)) {
            (Some(name), Some(text)) => before.insert(name, text),
            _ => before,
        }
    }
}

/// Builds the dictionary of a match from the names of the groups and their
/// texts.
pub fn named_captures(names: &Vec<Option<String>>, texts: &Vec<Option<String>>) -> (dict:
    CaptureDict)
    ensures
        dict@ == named_texts(names.deep_view(), texts.deep_view()),
{
    let mut dict = CaptureDict::new();
    let mut i: usize = 0;
    while i < names.len()
        invariant
            i <= names.len(),
            dict@ == named_texts(names.deep_view().take(i as int), texts.deep_view()),
        decreases names.len() - i,
    {
        proof {
            let upto = names.deep_view().take(i + 1);
            assert(upto.drop_last() == names.deep_view().take(i as int));
        }
        if i < texts.len() {
            match (&names[i], &texts[i]) {
                (Some(name), Some(text)) => {
                    dict.insert(name.clone(), text.clone());
                },
                _ => {},
            }
        }
        i += 1;
    }
    assert(names.deep_view().take(names.len() as int) == names.deep_view());
    dict
}

/// What was read of a data file: its lines in order, up to the end of the
/// file or to the first failure.
#[derive(Clone, Debug, PartialEq, Eq)]
pub struct DataFile {
    /// The lines that were read, without their line ends.
    pub lines: Vec<String>,
    /// Whether reading ended in a failure: the file could not be opened, or
    /// the line after `lines` could not be read.
    pub failed: bool,
}

/// What a line means for the search.
pub enum Step {
    /// The line is not the record: the search goes on.
    Next,
    /// The line matches the pattern without a `date` capture: the search
    /// ends without a record.
    Stop,
    /// The line is the record, and this is its dictionary.
    Take(CaptureDict),
}

/// The value of `Step`, without the dictionary.
pub ghost enum Decision {
    Next,
    Stop,
    Take,
}

/// What a line with the dictionary `found` means for the search of the date
/// `expected`; `found` is nothing where the pattern does not match the line.
pub open spec fn decision(found: Option<Map<Seq<char>, Seq<char>>>, expected: Seq<char>) -> Decision {
    match found {
        None => Decision::Next,
        Some(dict) => if !dict.contains_key(date_key()) {
            Decision::Stop
        } else if dict[date_key()] == expected {
            Decision::Take
        } else {
            Decision::Next
        },
    }
}

/// The record that the search of `expected` finds: the dictionary of the
/// first line whose `date` capture is `expected`, as long as no line before
/// it matches without a `date` capture. `found` holds the dictionary of each
/// line in order, `failed` says whether reading the lines ended in a failure.
pub open spec fn search(
    found: Seq<Option<Map<Seq<char>, Seq<char>>>>,
    expected: Seq<char>,
    failed: bool,
) -> Result<Map<Seq<char>, Seq<char>>, PrepareError>
    decreases found.len(),
{
    if found.len() == 0 {
        if failed {
            Err(PrepareError::IoError)
        } else {
            Err(PrepareError::NoMatchError)
        }
    } else {
        match decision(found.first(), expected) {
            Decision::Take => Ok(found.first().unwrap()),
            Decision::Stop => Err(PrepareError::NoMatchError),
            Decision::Next => search(found.drop_first(), expected, failed),
        }
    }
}

/// The dictionary of `line` under `pattern`, or nothing where the pattern
/// does not match the line.
pub open spec fn line_dict(pattern: Seq<char>, line: Seq<char>) -> Option<Map<Seq<char>, Seq<char>>> {
    match group_texts(pattern, line) {
        Some(texts) => Some(named_texts(group_names(pattern), texts)),
        None => None,
    }
}

/// The record of `lines` that `pattern` captures with the date `expected`.
pub open spec fn captured(
    pattern: Seq<char>,
    lines: Seq<Seq<char>>,
    failed: bool,
    expected: Seq<char>,
) -> Result<Map<Seq<char>, Seq<char>>, PrepareError> {
    if !pattern_compiles(pattern) {
        Err(PrepareError::PatternError)
    } else {
        search(lines.map_values(|line: Seq<char>| line_dict(pattern, line)), expected, failed)
    }
}

/// The value of a dictionary that may be missing.
pub open spec fn dict_view(found: Option<CaptureDict>) -> Option<Map<Seq<char>, Seq<char>>> {
    match found {
        Some(dict) => Some(dict@),
        None => None,
    }
}

/// The value of a record or of the error in its place.
pub open spec fn record_view(r: Result<CaptureDict, PrepareError>) -> Result<
    Map<Seq<char>, Seq<char>>,
    PrepareError,
> {
    match r {
        Ok(dict) => Ok(dict@),
        Err(error) => Err(error),
    }
}

/// Decides what a line means for the search of the date `expected`, from
/// the line's dictionary; `found` is nothing where the pattern does not
/// match the line.
pub fn judge(found: Option<CaptureDict>, expected: &String) -> (step: Step)
    ensures
        match decision(dict_view(found), expected@) {
            Decision::Next => step is Next,
            Decision::Stop => step is Stop,
            Decision::Take => step matches Step::Take(dict) && Some(dict@) == dict_view(found),
        },
{
    proof {
        reveal_strlit("date");
    }
    match found {
        None => Step::Next,
        Some(dict) => {
            let dated = match dict.get("date") {
                None => None,
                Some(date) => Some(*date == *expected),
            };
            match dated {
                None => Step::Stop,
                Some(true) => Step::Take(dict),
                Some(false) => Step::Next,
            }
        },
    }
}

/// Finds the record of the date `expected` in the lines of `data`: the
/// dictionary of the first line that `pattern` matches with a `date` capture
/// equal to `expected`.
///
/// The lines are taken in order and the first match ends the search. A line
/// that matches without a `date` capture ends it too, with `NoMatchError`:
/// the pattern is at fault there, and later lines are not looked at.
pub fn capture(data: &DataFile, pattern: &str, expected: &String) -> (r: Result<
    CaptureDict,
    PrepareError,
>)
    ensures
        record_view(r) == captured(pattern@, data.lines.deep_view(), data.failed, expected@),
{
    let re = match compile(pattern) {
        Ok(re) => re,
        Err(_) => {
            return Err(PrepareError::PatternError);
        },
    };
    let names = capture_names(&re);
    let ghost found = data.lines.deep_view().map_values(
        |line: Seq<char>| line_dict(pattern@, line),
    );
    let mut i: usize = 0;
    assert(found.skip(0) == found);
    while i < data.lines.len()
        invariant
            i <= data.lines.len(),
            pattern_compiles(pattern@),
            regex_source(re) == pattern@,
            names.deep_view() == group_names(pattern@),
            found == data.lines.deep_view().map_values(
                |line: Seq<char>| line_dict(pattern@, line),
            ),
            search(found.skip(i as int), expected@, data.failed) == search(
                found,
                expected@,
                data.failed,
            ),
        decreases data.lines.len() - i,
    {
        let dict = match match_line(&re, data.lines[i].as_str()) {
            Some(texts) => Some(named_captures(&names, &texts)),
            None => None,
        };
        proof {
            assert(found.skip(i as int).drop_first() == found.skip(i + 1));
        }
        match judge(dict, expected) {
            Step::Take(dict) => {
                return Ok(dict);
            },
            Step::Stop => {
                return Err(PrepareError::NoMatchError);
            },
            Step::Next => {},
        }
        i += 1;
    }
    if data.failed {
        Err(PrepareError::IoError)
    } else {
        Err(PrepareError::NoMatchError)
    }
}

/// The first match wins: where line `i` has the expected date and no line
/// before it ends the search, the record is the dictionary of line `i`,
/// whatever the lines after it hold.
pub proof fn lemma_first_match_wins(
    found: Seq<Option<Map<Seq<char>, Seq<char>>>>,
    expected: Seq<char>,
    failed: bool,
    i: int,
)
    requires
        0 <= i < found.len(),
        decision(found[i], expected) is Take,
        forall|j: int| 0 <= j < i ==> decision(#[trigger] found[j], expected) is Next,
    ensures
        search(found, expected, failed) == Ok::<Map<Seq<char>, Seq<char>>, PrepareError>(
            found[i].unwrap(),
        ),
    decreases i,
{
    if i > 0 {
        assert forall|j: int| 0 <= j < i - 1 implies decision(
            #[trigger] found.drop_first()[j],
            expected,
        ) is Next by {
            assert(found.drop_first()[j] == found[j + 1]);
        }
        lemma_first_match_wins(found.drop_first(), expected, failed, i - 1);
    }
}

/// The search stops at a match without a date: where the pattern matches
/// line `i` without a `date` capture and no line before it ends the search,
/// there is no record, whatever the lines after it hold.
pub proof fn lemma_stops_without_date(
    found: Seq<Option<Map<Seq<char>, Seq<char>>>>,
    expected: Seq<char>,
    failed: bool,
    i: int,
)
    requires
        0 <= i < found.len(),
        decision(found[i], expected) is Stop,
        forall|j: int| 0 <= j < i ==> decision(#[trigger] found[j], expected) is Next,
    ensures
        search(found, expected, failed) == Err::<Map<Seq<char>, Seq<char>>, PrepareError>(
            PrepareError::NoMatchError,
        ),
    decreases i,
{
    if i > 0 {
        assert forall|j: int| 0 <= j < i - 1 implies decision(
            #[trigger] found.drop_first()[j],
            expected,
        ) is Next by {
            assert(found.drop_first()[j] == found[j + 1]);
        }
        lemma_stops_without_date(found.drop_first(), expected, failed, i - 1);
    }
}

/// A record holds the expected date under `date`, and a search fails with
/// `IoError` only where reading the lines failed.
pub proof fn lemma_search_result(
    found: Seq<Option<Map<Seq<char>, Seq<char>>>>,
    expected: Seq<char>,
    failed: bool,
)
    ensures
        match search(found, expected, failed) {
            Ok(dict) => dict.contains_key(date_key()) && dict[date_key()] == expected
                && found.contains(Some(dict)),
            Err(error) => error == PrepareError::NoMatchError || (failed && error
                == PrepareError::IoError),
        },
    decreases found.len(),
{
    if found.len() > 0 {
        lemma_search_result(found.drop_first(), expected, failed);
        if let Ok(dict) = search(found, expected, failed) {
            if decision(found.first(), expected) is Take {
                assert(found[0] == Some(dict));
            } else {
                let rest = found.drop_first();
                let j = choose|j: int| 0 <= j < rest.len() && rest[j] == Some(dict);
                assert(found[j + 1] == Some(dict));
            }
        }
    }
}

} // verus!
