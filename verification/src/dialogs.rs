//! What the steps that wait for a person expect of the file browser, the
//! input form and the message boxes.

use vstd::prelude::*;
use crate::text::text_is;

verus! {

broadcast use vstd::string::group_string_axioms;

/// Whether two sequences of owned text read the same, item by item.
pub open spec fn same_texts(a: Seq<String>, b: Seq<String>) -> bool {
    &&& a.len() == b.len()
    &&& forall|i: int| 0 <= i < a.len() ==> #[trigger] a[i]@ == b[i]@
}

/// Whether `a` and `b` read the same, item by item.
pub fn texts_equal(a: &Vec<String>, b: &Vec<String>) -> (eq: bool)
    ensures
        eq == same_texts(a@, b@),
        eq <==> a@.len() == b@.len() && forall|i: int|
            0 <= i < a@.len() ==> #[trigger] a@[i]@ == b@[i]@,
{
    if a.len() != b.len() {
        return false;
    }
    let mut i: usize = 0;
    while i < a.len()
        invariant
            a@.len() == b@.len(),
            i <= a@.len(),
            forall|j: int| 0 <= j < i ==> #[trigger] a@[j]@ == b@[j]@,
        decreases a@.len() - i,
    {
        let s = a[i].clone();
        if s != b[i].clone() {
            return false;
        }
        i = i + 1;
    }
    true
}

/// What REAPER reported while the step asked for a file twice.
pub struct BrowseReport {
    /// The message of the error of the first request, which the user
    /// aborts, or `None` when it gave a file.
    pub first_error: Option<String>,
    /// The message of the error that stands for an abort by the user.
    pub user_aborted_message: String,
    /// The components of the path that the user chose the second time.
    pub chosen_path: Vec<String>,
    /// The components of the absolute path of the project's manifest.
    pub manifest_path: Vec<String>,
}

/// The expectations of the file step, in the order in which it checks them.
#[derive(Clone, Copy, Debug, PartialEq, Eq, Structural)]
pub enum BrowseFailure {
    NotAborted,
    WrongFile,
}

/// Whether the expectation named by `f` holds of the report.
pub open spec fn browse_holds(r: BrowseReport, f: BrowseFailure) -> bool {
    match f {
        BrowseFailure::NotAborted => r.first_error matches Some(m) && m@ == r.user_aborted_message@,
        BrowseFailure::WrongFile => same_texts(r.chosen_path@, r.manifest_path@),
    }
}

/// Judges the file step: `Ok` when every expectation holds, else the first
/// that fails.
pub fn check_browse(r: &BrowseReport) -> (v: Result<(), BrowseFailure>)
    ensures
        v matches Err(f) ==> !browse_holds(*r, f) && (f == BrowseFailure::WrongFile ==> browse_holds(
            *r,
            BrowseFailure::NotAborted,
        )),
        v is Ok <==> forall|f: BrowseFailure| browse_holds(*r, f),
        v is Ok ==> (r.first_error matches Some(m) && m@ == r.user_aborted_message@),
        v is Ok ==> r.chosen_path@.len() == r.manifest_path@.len() && forall|i: int|
            0 <= i < r.chosen_path@.len() ==> #[trigger] r.chosen_path@[i]@ == r.manifest_path@[i]@,
{
    let aborted = match &r.first_error {
        Some(m) => *m == r.user_aborted_message.clone(),
        None => false,
    };
    if !aborted {
        assert(!browse_holds(*r, BrowseFailure::NotAborted));
        return Err(BrowseFailure::NotAborted);
    }
    if !texts_equal(&r.chosen_path, &r.manifest_path) {
        assert(!browse_holds(*r, BrowseFailure::WrongFile));
        return Err(BrowseFailure::WrongFile);
    }
    Ok(())
}

/// Two paths that differ in any one component, at any position, are not
/// the same path.
pub proof fn law_paths_differing_anywhere_are_unequal(a: Seq<String>, b: Seq<String>, i: int)
    requires
        0 <= i < a.len(),
        0 <= i < b.len(),
        a[i]@ != b[i]@,
    ensures
        !same_texts(a, b),
{
}

/// Two paths of different lengths are not the same path.
pub proof fn law_paths_of_different_length_are_unequal(a: Seq<String>, b: Seq<String>)
    requires
        a.len() != b.len(),
    ensures
        !same_texts(a, b),
{
}

/// Two paths that agree component by component are the same path.
pub proof fn law_paths_agreeing_everywhere_are_equal(a: Seq<String>, b: Seq<String>)
    requires
        a.len() == b.len(),
        forall|i: int| 0 <= i < a.len() ==> #[trigger] a[i]@ == b[i]@,
    ensures
        same_texts(a, b),
{
}

/// The file step passes only when the first request was aborted by the user
/// and the chosen file is, component by component, the manifest.
pub proof fn law_browse_passes_only_on_the_manifest(r: BrowseReport, i: int)
    requires
        forall|f: BrowseFailure| browse_holds(r, f),
    ensures
        r.first_error matches Some(m) && m@ == r.user_aborted_message@,
        r.chosen_path@.len() == r.manifest_path@.len(),
        0 <= i < r.chosen_path@.len() ==> r.chosen_path@[i]@ == r.manifest_path@[i]@,
{
    assert(browse_holds(r, BrowseFailure::NotAborted));
    assert(browse_holds(r, BrowseFailure::WrongFile));
}

/// The captions of the input form, and the answer that the person is asked
/// to give to each.
pub open spec fn form() -> Seq<(Seq<char>, Seq<char>)> {
    seq![
        ("age(18)"@, "18"@),
        ("name(user)"@, "user"@),
        ("leave blank"@, ""@),
        ("fate(atheist)"@, "atheist"@),
    ]
}

/// The captions of the input form, in order.
pub fn form_captions() -> (captions: Vec<String>)
    ensures
        captions@.len() == form().len(),
        forall|i: int| 0 <= i < captions@.len() ==> #[trigger] captions@[i]@ == form()[i].0,
{
    let captions = vec![
        "age(18)".to_string(),
        "name(user)".to_string(),
        "leave blank".to_string(),
        "fate(atheist)".to_string(),
    ];
    captions
}

/// The answers that REAPER returned match the form: exactly the four asked
/// answers, each under its caption. REAPER returns the answers as a map, so
/// its captions are distinct; on such input this holds exactly when the
/// returned map equals the map of captions to asked answers.
pub open spec fn answers_match(answers: Seq<(String, String)>) -> bool {
    &&& answers.len() == form().len()
    &&& forall|k: int|
        0 <= k < form().len() ==> exists|j: int|
            0 <= j < answers.len() && #[trigger] answers[j].0@ == (#[trigger] form()[k]).0
                && answers[j].1@ == form()[k].1
}

/// `answers` holds the answer `answer` under the caption `caption`.
pub open spec fn has_answer(answers: Seq<(String, String)>, caption: Seq<char>, answer: Seq<char>) -> bool {
    exists|j: int| 0 <= j < answers.len() && #[trigger] answers[j].0@ == caption && answers[j].1@ == answer
}

/// The answers match the form exactly when there are four of them and each
/// asked answer stands under its caption.
pub proof fn law_answers_match_exactly_the_asked_answers(answers: Seq<(String, String)>)
    ensures
        answers_match(answers) <==> answers.len() == 4 && has_answer(answers, "age(18)"@, "18"@)
            && has_answer(answers, "name(user)"@, "user"@) && has_answer(answers, "leave blank"@, ""@)
            && has_answer(answers, "fate(atheist)"@, "atheist"@),
{
    assert(form()[0] == ("age(18)"@, "18"@));
    assert(form()[1] == ("name(user)"@, "user"@));
    assert(form()[2] == ("leave blank"@, ""@));
    assert(form()[3] == ("fate(atheist)"@, "atheist"@));
    if answers.len() == 4 && has_answer(answers, "age(18)"@, "18"@)
        && has_answer(answers, "name(user)"@, "user"@) && has_answer(answers, "leave blank"@, ""@)
        && has_answer(answers, "fate(atheist)"@, "atheist"@) {
        assert forall|k: int| 0 <= k < form().len() implies exists|j: int|
            0 <= j < answers.len() && #[trigger] answers[j].0@ == (#[trigger] form()[k]).0
                && answers[j].1@ == form()[k].1 by {
            if k == 0 {
            } else if k == 1 {
            } else if k == 2 {
            } else {
            }
        }
    }
    if answers_match(answers) {
        assert(exists|j: int| 0 <= j < answers.len() && #[trigger] answers[j].0@ == form()[0].0 && answers[j].1@ == form()[0].1);
        assert(exists|j: int| 0 <= j < answers.len() && #[trigger] answers[j].0@ == form()[1].0 && answers[j].1@ == form()[1].1);
        assert(exists|j: int| 0 <= j < answers.len() && #[trigger] answers[j].0@ == form()[2].0 && answers[j].1@ == form()[2].1);
        assert(exists|j: int| 0 <= j < answers.len() && #[trigger] answers[j].0@ == form()[3].0 && answers[j].1@ == form()[3].1);
    }
}

fn find_answer(answers: &Vec<(String, String)>, caption: &str, answer: &str) -> (found: bool)
    ensures
        found == exists|j: int|
            0 <= j < answers@.len() && #[trigger] answers@[j].0@ == caption@ && answers@[j].1@
                == answer@,
{
    let mut i: usize = 0;
    while i < answers.len()
        invariant
            i <= answers@.len(),
            forall|j: int|
                0 <= j < i ==> !(#[trigger] answers@[j].0@ == caption@ && answers@[j].1@
                    == answer@),
        decreases answers@.len() - i,
    {
        if text_is(&answers[i].0, caption) && text_is(&answers[i].1, answer) {
            return true;
        }
        i = i + 1;
    }
    false
}

/// Judges the form step: `Ok` exactly when the answers match the form.
pub fn check_answers(answers: &Vec<(String, String)>) -> (v: Result<(), ()>)
    ensures
        v is Ok <==> answers_match(answers@),
        v is Ok <==> answers@.len() == 4 && has_answer(answers@, "age(18)"@, "18"@) && has_answer(
            answers@,
            "name(user)"@,
            "user"@,
        ) && has_answer(answers@, "leave blank"@, ""@) && has_answer(
            answers@,
            "fate(atheist)"@,
            "atheist"@,
        ),
{
    if answers.len() != 4 {
        return Err(());
    }
    let ok = find_answer(answers, "age(18)", "18") && find_answer(answers, "name(user)", "user")
        && find_answer(answers, "leave blank", "") && find_answer(
        answers,
        "fate(atheist)",
        "atheist",
    );
    if ok {
        assert forall|k: int| 0 <= k < form().len() implies exists|j: int|
            0 <= j < answers@.len() && #[trigger] answers@[j].0@ == (#[trigger] form()[k]).0
                && answers@[j].1@ == form()[k].1 by {
            if k == 0 {
            } else if k == 1 {
            } else if k == 2 {
            } else {
            }
        }
        Ok(())
    } else {
        Err(())
    }
}

/// A button of a message box.
#[derive(Clone, Copy, Debug, PartialEq, Eq, Structural)]
pub enum MessageBoxValue {
    OkButton,
    Cancel,
    Abort,
    Retry,
    Ignore,
    Yes,
    No,
}

/// The expectations of the message box step, in order.
#[derive(Clone, Copy, Debug, PartialEq, Eq, Structural)]
pub enum MessageBoxFailure {
    FirstNotOk,
    SecondNotRetry,
}

/// Judges the message box step from the buttons pressed in its two boxes.
pub fn check_message_boxes(first: MessageBoxValue, second: MessageBoxValue) -> (v: Result<
    (),
    MessageBoxFailure,
>)
    ensures
        v == (if first != MessageBoxValue::OkButton {
            Err(MessageBoxFailure::FirstNotOk)
        } else if second != MessageBoxValue::Retry {
            Err(MessageBoxFailure::SecondNotRetry)
        } else {
            Ok(())
        }),
{
    if first != MessageBoxValue::OkButton {
        Err(MessageBoxFailure::FirstNotOk)
    } else if second != MessageBoxValue::Retry {
        Err(MessageBoxFailure::SecondNotRetry)
    } else {
        Ok(())
    }
}

} // verus!
