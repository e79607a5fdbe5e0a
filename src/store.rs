//! What a list is after loading: the rules that turn the stored text, or its
//! absence, and the outcome of decoding that text into a list of tasks.

use vstd::prelude::*;
use crate::list::{TodoList, texts_of};

verus! {

/// What `str::trim` leaves of a text: it without its leading and trailing
/// Unicode white space.
pub uninterp spec fn trimmed(s: Seq<char>) -> Seq<char>;

/// Relies on `str::trim`: it takes leading and trailing white space off, so
/// the result is no longer than the text, and an empty text stays empty.
#[verifier::external_body]
fn trim_text(s: &str) -> (r: &str)
    ensures
        r@ == trimmed(s@),
        r@.len() <= s@.len(),
        s@.len() == 0 ==> r@.len() == 0,
{
    s.trim()
}

/// Whether stored text holds nothing but white space (an empty text among them).
pub open spec fn is_blank(s: Seq<char>) -> bool {
    s.len() == 0 || trimmed(s).len() == 0
}

/// Whether `contents` holds nothing but white space.
pub fn is_blank_text(contents: &str) -> (r: bool)
    ensures
        r == is_blank(contents@),
{
    trim_text(contents).is_empty()
}

/// A loaded list, and whether the stored text had to be dropped as unreadable.
pub struct Loaded {
    pub list: TodoList,
    pub discarded: bool,
}

/// The tasks that loading gives: none where nothing is stored, where the
/// stored text is blank or where it could not be decoded; else the decoded ones.
pub open spec fn loaded_tasks(contents: Option<Seq<char>>, decoded: Option<Seq<Seq<char>>>) -> Seq<
    Seq<char>,
> {
    match contents {
        None => seq![],
        Some(c) => if is_blank(c) {
            seq![]
        } else {
            match decoded {
                Some(d) => d,
                None => seq![],
            }
        },
    }
}

/// Whether loading drops stored text: it is there, not blank, and was not decoded.
pub open spec fn load_discards(contents: Option<Seq<char>>, decoded: Option<Seq<Seq<char>>>) -> bool {
    match contents {
        None => false,
        Some(c) => !is_blank(c) && decoded is None,
    }
}

/// The view of an optional text.
pub open spec fn opt_text(s: Option<&str>) -> Option<Seq<char>> {
    match s {
        Some(t) => Some(t@),
        None => None,
    }
}

/// The view of the optional outcome of decoding: the descriptions it found.
pub open spec fn opt_texts(d: Option<Vec<String>>) -> Option<Seq<Seq<char>>> {
    match d {
        Some(v) => Some(texts_of(v@)),
        None => None,
    }
}

/// The list that loading gives. `contents` is the stored text, `None` where
/// nothing is stored; `decoded` is the descriptions that decoding that text
/// found, `None` where it is not a valid stored list. A missing store, blank
/// text and undecodable text all give an empty list and never an error; only
/// undecodable text is reported as discarded.
pub fn load_from(contents: Option<&str>, decoded: Option<Vec<String>>) -> (r: Loaded)
    ensures
        r.list@ == loaded_tasks(opt_text(contents), opt_texts(decoded)),
        r.discarded == load_discards(opt_text(contents), opt_texts(decoded)),
{
    match contents {
        None => Loaded { list: TodoList::new(), discarded: false },
        Some(c) => {
            if is_blank_text(c) {
                Loaded { list: TodoList::new(), discarded: false }
            } else {
                match decoded {
                    Some(d) => Loaded { list: TodoList::from_descriptions(d), discarded: false },
                    None => Loaded { list: TodoList::new(), discarded: true },
                }
            }
        },
    }
}

/// Where nothing is stored, loading gives an empty list and reports nothing
/// dropped, whatever decoding gave.
pub proof fn missing_store_loads_empty(decoded: Option<Seq<Seq<char>>>)
    ensures
        loaded_tasks(None, decoded) == Seq::<Seq<char>>::empty(),
        !load_discards(None, decoded),
{
}

/// Stored text that is empty gives an empty list, and nothing is reported
/// dropped.
pub proof fn empty_store_loads_empty(contents: Seq<char>, decoded: Option<Seq<Seq<char>>>)
    requires
        contents.len() == 0,
    ensures
        loaded_tasks(Some(contents), decoded) == Seq::<Seq<char>>::empty(),
        !load_discards(Some(contents), decoded),
{
}

/// Stored text that is not blank and cannot be decoded gives an empty list,
/// reported as dropped rather than as a failure.
pub proof fn undecodable_store_loads_empty(contents: Seq<char>)
    requires
        !is_blank(contents),
    ensures
        loaded_tasks(Some(contents), None) == Seq::<Seq<char>>::empty(),
        load_discards(Some(contents), None),
{
}

/// After a task with description `d` is added to `before` and the list is
/// stored, loading the stored text gives a list that ends with `d`, where
/// decoding that text gives back the descriptions that were stored.
pub proof fn added_task_is_last_after_reload(
    before: Seq<Seq<char>>,
    d: Seq<char>,
    stored: Seq<char>,
)
    requires
        !is_blank(stored),
    ensures
        loaded_tasks(Some(stored), Some(before.push(d))).last() == d,
        loaded_tasks(Some(stored), Some(before.push(d))).len() == before.len() + 1,
{
}

/// Loading stored text that is not blank, and whose decoding gives back the
/// descriptions that were stored, reproduces those descriptions exactly and
/// in order, and drops nothing.
pub proof fn reload_gives_saved_tasks(saved: Seq<Seq<char>>, stored: Seq<char>)
    requires
        !is_blank(stored),
    ensures
        loaded_tasks(Some(stored), Some(saved)) == saved,
        !load_discards(Some(stored), Some(saved)),
{
}

} // verus!
