//! Errors of the Planify database layer, and the text each one is shown as.
use vstd::prelude::*;

verus! {

/// What can go wrong while locating, opening or querying the Planify database.
#[derive(Debug)]
pub enum PlanifyError {
    /// No database file was found; `searched` lists the paths that were tried.
    DbNotFound { searched: Vec<String>, hint: String },
    /// The database reported an error; the field holds its text.
    DbError(String),
    /// The connection could not be locked.
    DbLocked { hint: String },
}

/// The mathematical value of a [`PlanifyError`].
pub enum PlanifyErrorView {
    DbNotFound { searched: Seq<Seq<char>>, hint: Seq<char> },
    DbError(Seq<char>),
    DbLocked { hint: Seq<char> },
}

impl View for PlanifyError {
    type V = PlanifyErrorView;

    open spec fn view(&self) -> PlanifyErrorView {
        match self {
            PlanifyError::DbNotFound { searched, hint } => PlanifyErrorView::DbNotFound {
                searched: searched.deep_view(),
                hint: hint@,
            },
            PlanifyError::DbError(text) => PlanifyErrorView::DbError(text@),
            PlanifyError::DbLocked { hint } => PlanifyErrorView::DbLocked { hint: hint@ },
        }
    }
}

/// The text that Rust's `Debug` formatting gives a string (quoted and escaped).
pub uninterp spec fn debug_text(text: Seq<char>) -> Seq<char>;

/// The text that Rust's `Debug` formatting gives a file-system path (quoted and escaped as a path).
pub uninterp spec fn debug_path_text(path: Seq<char>) -> Seq<char>;

/// The `Debug` texts of `paths`, separated by `, `.
pub open spec fn debug_path_items(paths: Seq<Seq<char>>) -> Seq<char>
    decreases paths.len(),
{
    if paths.len() == 0 {
        Seq::empty()
    } else if paths.len() == 1 {
        debug_path_text(paths[0])
    } else {
        debug_path_items(paths.drop_last()) + ", "@ + debug_path_text(paths.last())
    }
}

/// The `Debug` text of a list of paths: `[`, the items, `]`.
pub open spec fn debug_path_list(paths: Seq<Seq<char>>) -> Seq<char> {
    "["@ + debug_path_items(paths) + "]"@
}

/// `format!("{:?}", text)` of std: the string in `Debug` form.
/// Claimed: the result is `debug_text` of the text.
#[verifier::external_body]
pub(crate) fn debug_format(text: &str) -> (formatted: String)
    ensures
        formatted@ == debug_text(text@),
{
    format!("{:?}", text)
}

/// `format!("{:?}", Path::new(path))` of std: the path in `Debug` form.
/// Claimed: the result is `debug_path_text` of the path's text.
#[verifier::external_body]
fn debug_format_path(path: &str) -> (formatted: String)
    ensures
        formatted@ == debug_path_text(path@),
{
    format!("{:?}", std::path::Path::new(path))
}

/// The `Debug` text of a list of paths, as `Vec<PathBuf>` prints it.
pub fn debug_path_list_text(paths: &Vec<String>) -> (text: String)
    ensures
        text@ == debug_path_list(paths.deep_view()),
{
    let ghost all = paths.deep_view();
    let mut text = String::from_str("[");
    let mut i: usize = 0;
    proof {
        reveal_strlit("[");
        assert(all.take(0) =~= Seq::<Seq<char>>::empty());
    }
    while i < paths.len()
        invariant
            i <= paths.len(),
            all == paths.deep_view(),
            all.len() == paths.len(),
            text@ == "["@ + debug_path_items(all.take(i as int)),
        decreases paths.len() - i,
    {
        let ghost before = text@;
        if i > 0 {
            text.append(", ");
        }
        let item = debug_format_path(paths[i].as_str());
        text.append(item.as_str());
        proof {
            let taken = all.take(i + 1);
            assert(taken.drop_last() =~= all.take(i as int));
            assert(taken.last() == paths[i as int]@);
            if i == 0 {
                assert(all.take(0) =~= Seq::<Seq<char>>::empty());
                assert(text@ =~= "["@ + debug_path_items(taken));
            } else {
                assert(text@ =~= "["@ + debug_path_items(taken));
            }
        }
        i = i + 1;
    }
    assert(all.take(paths.len() as int) =~= all);
    text.append("]");
    text
}

/// The text shown for an error.
pub open spec fn error_message(error: PlanifyErrorView) -> Seq<char> {
    match error {
        PlanifyErrorView::DbNotFound { searched, hint } => "Database not found at the expected location: "@
            + debug_path_list(searched) + ". "@ + hint,
        PlanifyErrorView::DbError(text) => "Error in the database "@ + text,
        PlanifyErrorView::DbLocked { hint } => "Database locked "@ + hint,
    }
}

/// The error raised when the connection's lock cannot be taken; `detail` describes the failure.
pub open spec fn lock_error(detail: Seq<char>) -> PlanifyErrorView {
    PlanifyErrorView::DbLocked { hint: "Thread error: "@ + detail }
}

impl PlanifyError {
    /// The human-readable text of the error.
    pub fn message(&self) -> (text: String)
        ensures
            text@ == error_message(self@),
    {
        match self {
            PlanifyError::DbNotFound { searched, hint } => {
                let mut text = String::from_str("Database not found at the expected location: ");
                let listed = debug_path_list_text(searched);
                text.append(listed.as_str());
                text.append(". ");
                text.append(hint.as_str());
                text
            },
            PlanifyError::DbError(detail) => {
                let mut text = String::from_str("Error in the database ");
                text.append(detail.as_str());
                text
            },
            PlanifyError::DbLocked { hint } => {
                let mut text = String::from_str("Database locked ");
                text.append(hint.as_str());
                text
            },
        }
    }

    /// The error for a connection whose lock could not be taken.
    pub fn locked(detail: &str) -> (error: PlanifyError)
        ensures
            error@ == lock_error(detail@),
    {
        let mut hint = String::from_str("Thread error: ");
        hint.append(detail);
        PlanifyError::DbLocked { hint }
    }
}

} // verus!
