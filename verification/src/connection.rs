//! Where the Planify database lives, and how a connection to it is set up.
//!
//! The lookup reads the environment and the file system, which only the
//! program around the library can do. So it is a small machine: the library
//! names the next thing to find out (a [`Probe`]), the caller answers it, and
//! [`next_lookup`] decides what follows, until the path is found or not.
use vstd::prelude::*;
use crate::error::{PlanifyError, PlanifyErrorView, debug_format, debug_text};

verus! {

/// Run on every newly opened connection: write-ahead logging, and wait up to
/// five seconds for a lock held by another process (Planify itself).
pub const CONNECTION_PRAGMAS: &'static str = "PRAGMA journal_mode=WAL; PRAGMA busy_timeout=5000;";

/// The environment variable that overrides where the database is looked for.
pub const DB_PATH_VARIABLE: &'static str = "PLANIFY_DB_PATH";

/// Where a Flatpak installation of Planify keeps its database, relative to the home directory.
pub const FLATPAK_DB_RELATIVE: &'static str = ".var/app/io.github.alainm23.planify/data/io.github.alainm23.planify/database.db";

/// The hint given when no database was found anywhere.
pub const NO_DATABASE_HINT: &'static str = "Please set the PLANIFY_DB_PATH environment variable to a valid path or verify your Planify installation.";

/// `relative` appended to `base` as a path component, `/` between them
/// unless `base` is empty or already ends with one.
pub open spec fn join_path(base: Seq<char>, relative: Seq<char>) -> Seq<char> {
    if base.len() == 0 {
        relative
    } else if base.last() == '/' {
        base + relative
    } else {
        base + "/"@ + relative
    }
}

/// The Flatpak database path under the home directory `home`.
pub open spec fn flatpak_db_path(home: Seq<char>) -> Seq<char> {
    join_path(home, FLATPAK_DB_RELATIVE@)
}

/// The error when the variable names a file that does not exist.
pub open spec fn missing_variable_file(path: Seq<char>) -> PlanifyErrorView {
    PlanifyErrorView::DbNotFound {
        searched: seq![path],
        hint: "PLANIFY_DB_PATH is set to "@ + debug_text(path) + " but the file does not exist"@,
    }
}

/// The error when neither the variable nor the Flatpak location gives a database.
pub open spec fn no_database() -> PlanifyErrorView {
    PlanifyErrorView::DbNotFound { searched: Seq::empty(), hint: NO_DATABASE_HINT@ }
}

/// What the machine is in: what the environment and file system look like to the lookup.
pub struct World {
    /// The value of `PLANIFY_DB_PATH`, if it is set (and is Unicode).
    pub variable: Option<Seq<char>>,
    /// The home directory, if one is known.
    pub home: Option<Seq<char>>,
    /// The paths at which a file exists.
    pub existing: Set<Seq<char>>,
}

/// Where the database is in `world`: the variable's path if it is set (an error if that
/// file does not exist), else the Flatpak path under the home directory if it exists.
pub open spec fn resolve_in(world: World) -> Result<Seq<char>, PlanifyErrorView> {
    match world.variable {
        Some(path) => if world.existing.contains(path) {
            Ok(path)
        } else {
            Err(missing_variable_file(path))
        },
        None => match world.home {
            Some(home) => if world.existing.contains(flatpak_db_path(home)) {
                Ok(flatpak_db_path(home))
            } else {
                Err(no_database())
            },
            None => Err(no_database()),
        },
    }
}

/// Appends `relative` to `base` as a path component.
pub fn join_path_text(base: &str, relative: &str) -> (joined: String)
    ensures
        joined@ == join_path(base@, relative@),
{
    let n = base.unicode_len();
    if n == 0 {
        String::from_str(relative)
    } else {
        let mut joined = String::from_str(base);
        if base.get_char(n - 1) != '/' {
            joined.append("/");
        }
        joined.append(relative);
        joined
    }
}

/// The path of the Flatpak database under the home directory `home`.
pub fn flatpak_db_path_text(home: &str) -> (path: String)
    ensures
        path@ == flatpak_db_path(home@),
{
    join_path_text(home, FLATPAK_DB_RELATIVE)
}

/// A question the lookup needs answered.
pub enum Probe {
    /// Read `PLANIFY_DB_PATH`.
    DbPathVariable,
    /// Does a file exist at the path that the variable gave?
    VariablePathExists(String),
    /// Find the home directory.
    HomeDirectory,
    /// Does a file exist at the Flatpak path?
    FlatpakPathExists(String),
}

/// An answer to a [`Probe`].
pub enum ProbeAnswer {
    /// The variable's value, `None` when it is not set or not Unicode.
    Variable(Option<String>),
    /// Whether the asked-about file exists.
    Exists(bool),
    /// The home directory, if one is known.
    Home(Option<String>),
}

/// Where the lookup stands.
pub enum Lookup {
    /// It needs this question answered.
    Ask(Probe),
    /// The database is at this path.
    Found(String),
    /// There is no database.
    Failed(PlanifyError),
}

pub enum ProbeView {
    DbPathVariable,
    VariablePathExists(Seq<char>),
    HomeDirectory,
    FlatpakPathExists(Seq<char>),
}

pub enum ProbeAnswerView {
    Variable(Option<Seq<char>>),
    Exists(bool),
    Home(Option<Seq<char>>),
}

pub enum LookupView {
    Ask(ProbeView),
    Found(Seq<char>),
    Failed(PlanifyErrorView),
}

impl View for Probe {
    type V = ProbeView;

    open spec fn view(&self) -> ProbeView {
        match self {
            Probe::DbPathVariable => ProbeView::DbPathVariable,
            Probe::VariablePathExists(path) => ProbeView::VariablePathExists(path@),
            Probe::HomeDirectory => ProbeView::HomeDirectory,
            Probe::FlatpakPathExists(path) => ProbeView::FlatpakPathExists(path@),
        }
    }
}

impl View for ProbeAnswer {
    type V = ProbeAnswerView;

    open spec fn view(&self) -> ProbeAnswerView {
        match self {
            ProbeAnswer::Variable(value) => ProbeAnswerView::Variable(value.deep_view()),
            ProbeAnswer::Exists(exists) => ProbeAnswerView::Exists(*exists),
            ProbeAnswer::Home(home) => ProbeAnswerView::Home(home.deep_view()),
        }
    }
}

impl View for Lookup {
    type V = LookupView;

    open spec fn view(&self) -> LookupView {
        match self {
            Lookup::Ask(probe) => LookupView::Ask(probe@),
            Lookup::Found(path) => LookupView::Found(path@),
            Lookup::Failed(error) => LookupView::Failed(error@),
        }
    }
}

/// The lookup's first state.
pub open spec fn first_lookup() -> LookupView {
    LookupView::Ask(ProbeView::DbPathVariable)
}

/// What follows once `probe` got `answer`. An answer of another kind than the probe asks
/// for counts as the negative one: no variable, no file, no home directory.
pub open spec fn lookup_step(probe: ProbeView, answer: ProbeAnswerView) -> LookupView {
    match probe {
        ProbeView::DbPathVariable => match answer {
            ProbeAnswerView::Variable(Some(path)) => LookupView::Ask(ProbeView::VariablePathExists(path)),
            _ => LookupView::Ask(ProbeView::HomeDirectory),
        },
        ProbeView::VariablePathExists(path) => if answer == ProbeAnswerView::Exists(true) {
            LookupView::Found(path)
        } else {
            LookupView::Failed(missing_variable_file(path))
        },
        ProbeView::HomeDirectory => match answer {
            ProbeAnswerView::Home(Some(home)) => LookupView::Ask(
                ProbeView::FlatpakPathExists(flatpak_db_path(home)),
            ),
            _ => LookupView::Failed(no_database()),
        },
        ProbeView::FlatpakPathExists(path) => if answer == ProbeAnswerView::Exists(true) {
            LookupView::Found(path)
        } else {
            LookupView::Failed(no_database())
        },
    }
}

/// The lookup's first state: read `PLANIFY_DB_PATH`.
pub fn start_lookup() -> (lookup: Lookup)
    ensures
        lookup@ == first_lookup(),
{
    Lookup::Ask(Probe::DbPathVariable)
}

fn missing_variable_file_error(path: &str) -> (error: PlanifyError)
    ensures
        error@ == missing_variable_file(path@),
{
    let mut hint = String::from_str("PLANIFY_DB_PATH is set to ");
    let quoted = debug_format(path);
    hint.append(quoted.as_str());
    hint.append(" but the file does not exist");
    let mut searched: Vec<String> = Vec::new();
    searched.push(String::from_str(path));
    let error = PlanifyError::DbNotFound { searched, hint };
    assert(error@ == missing_variable_file(path@)) by {
        assert(searched.deep_view() =~= seq![path@]);
    }
    error
}

fn no_database_error() -> (error: PlanifyError)
    ensures
        error@ == no_database(),
{
    let searched: Vec<String> = Vec::new();
    let error = PlanifyError::DbNotFound { searched, hint: String::from_str(NO_DATABASE_HINT) };
    assert(searched.deep_view() =~= Seq::<Seq<char>>::empty());
    error
}

/// What follows once `probe` got `answer`.
pub fn next_lookup(probe: Probe, answer: ProbeAnswer) -> (lookup: Lookup)
    ensures
        lookup@ == lookup_step(probe@, answer@),
{
    let confirmed = match answer {
        ProbeAnswer::Exists(true) => true,
        _ => false,
    };
    match probe {
        Probe::DbPathVariable => match answer {
            ProbeAnswer::Variable(Some(path)) => Lookup::Ask(Probe::VariablePathExists(path)),
            _ => Lookup::Ask(Probe::HomeDirectory),
        },
        Probe::VariablePathExists(path) => {
            if confirmed {
                Lookup::Found(path)
            } else {
                Lookup::Failed(missing_variable_file_error(path.as_str()))
            }
        },
        Probe::HomeDirectory => match answer {
            ProbeAnswer::Home(Some(home)) => Lookup::Ask(
                Probe::FlatpakPathExists(flatpak_db_path_text(home.as_str())),
            ),
            _ => Lookup::Failed(no_database_error()),
        },
        Probe::FlatpakPathExists(path) => {
            if confirmed {
                Lookup::Found(path)
            } else {
                Lookup::Failed(no_database_error())
            }
        },
    }
}

/// The answer that `world` gives to `probe`.
pub open spec fn answer_in(world: World, probe: ProbeView) -> ProbeAnswerView {
    match probe {
        ProbeView::DbPathVariable => ProbeAnswerView::Variable(world.variable),
        ProbeView::VariablePathExists(path) => ProbeAnswerView::Exists(world.existing.contains(path)),
        ProbeView::HomeDirectory => ProbeAnswerView::Home(world.home),
        ProbeView::FlatpakPathExists(path) => ProbeAnswerView::Exists(world.existing.contains(path)),
    }
}

/// The lookup after at most `rounds` questions, each answered by `world`.
pub open spec fn run_lookup(world: World, lookup: LookupView, rounds: nat) -> LookupView
    decreases rounds,
{
    match lookup {
        LookupView::Ask(probe) => if rounds == 0 {
            lookup
        } else {
            run_lookup(world, lookup_step(probe, answer_in(world, probe)), (rounds - 1) as nat)
        },
        _ => lookup,
    }
}

/// The final lookup state that a resolution corresponds to.
pub open spec fn settled(resolution: Result<Seq<char>, PlanifyErrorView>) -> LookupView {
    match resolution {
        Ok(path) => LookupView::Found(path),
        Err(error) => LookupView::Failed(error),
    }
}

/// Answering the lookup's questions from a world settles it, within four questions,
/// on exactly the database location that the world gives (`resolve_in`).
pub proof fn lemma_lookup_resolves(world: World)
    ensures
        run_lookup(world, first_lookup(), 4) == settled(resolve_in(world)),
{
    reveal_with_fuel(run_lookup, 5);
}

/// A path the lookup settles on always names an existing file.
pub proof fn lemma_found_path_exists(world: World)
    ensures
        resolve_in(world) is Ok ==> world.existing.contains(resolve_in(world)->Ok_0),
{
}

/// When `PLANIFY_DB_PATH` is set, it alone decides: the home directory and the
/// Flatpak file play no part, and a missing file is reported, not skipped.
pub proof fn lemma_variable_overrides(first: World, second: World)
    requires
        first.variable is Some,
        second.variable == first.variable,
        first.existing.contains(first.variable->0) == second.existing.contains(second.variable->0),
    ensures
        resolve_in(first) == resolve_in(second),
        !first.existing.contains(first.variable->0) ==> resolve_in(first) == Err::<Seq<char>, PlanifyErrorView>(
            missing_variable_file(first.variable->0),
        ),
{
}

/// Without the variable, the only path that can be found is the Flatpak one under the home directory.
pub proof fn lemma_default_is_flatpak(world: World)
    requires
        world.variable is None,
        resolve_in(world) is Ok,
    ensures
        world.home is Some,
        resolve_in(world) == Ok::<Seq<char>, PlanifyErrorView>(flatpak_db_path(world.home->0)),
{
}

/// The Flatpak path starts with the home directory and ends with the Flatpak location.
pub proof fn lemma_flatpak_path_shape(home: Seq<char>)
    ensures
        flatpak_db_path(home).subrange(0, home.len() as int) == home,
        flatpak_db_path(home).subrange(
            flatpak_db_path(home).len() - FLATPAK_DB_RELATIVE@.len(),
            flatpak_db_path(home).len() as int,
        ) == FLATPAK_DB_RELATIVE@,
{
    let path = flatpak_db_path(home);
    let relative = FLATPAK_DB_RELATIVE@;
    if home.len() == 0 {
        assert(path.subrange(0, 0) =~= home);
        assert(path.subrange(0, path.len() as int) =~= relative);
    } else if home.last() == '/' {
        assert(path.subrange(0, home.len() as int) =~= home);
        assert(path.subrange(path.len() - relative.len(), path.len() as int) =~= relative);
    } else {
        assert(path.subrange(0, home.len() as int) =~= home);
        assert(path.subrange(path.len() - relative.len(), path.len() as int) =~= relative);
    }
}

} // verus!
