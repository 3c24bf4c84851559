//! Where the client keeps its configuration, data and bundled runtime.
use vstd::prelude::*;

verus! {

pub const BUNDLE_ID: &'static str = "com.jobless.desktop";

/// Why the application paths could not be resolved.
#[derive(Debug, Clone, Copy, PartialEq, Eq)]
pub enum PathError {
    /// The current user has no platform config/data directory.
    NoBaseDirectories,
}

/// How a path error reads.
pub open spec fn path_message(e: PathError) -> Seq<char> {
    match e {
        PathError::NoBaseDirectories => "the current user has no platform config/data directory"@,
    }
}

impl PathError {
    /// The error as it is shown.
    pub fn message(&self) -> (r: String)
        ensures
            r@ == path_message(*self),
    {
        match self {
            PathError::NoBaseDirectories => "the current user has no platform config/data directory".to_string(),
        }
    }
}

/// `path` followed by `part` as `std::path::Path::join` forms it on the
/// target platform (`part` replaces `path` when it is absolute).
pub uninterp spec fn path_join(path: Seq<char>, part: Seq<char>) -> Seq<char>;

/// The parent of `path` as `std::path::Path::parent` gives it on the target
/// platform.
pub uninterp spec fn path_parent(path: Seq<char>) -> Option<Seq<char>>;

/// Whether `std::path::Path::is_absolute` holds of `path` on the target platform.
pub uninterp spec fn path_is_absolute(path: Seq<char>) -> bool;

/// Whether `a` and `b` are the same path as `std::path::Path`'s `==` compares
/// them (component by component) on the target platform.
pub uninterp spec fn path_eq(a: Seq<char>, b: Seq<char>) -> bool;

/// `std::path::Path::join`, on paths held as text. The result of joining
/// UTF-8 paths is UTF-8, so the conversion back to text loses nothing.
#[verifier::external_body]
pub(crate) fn join_path(path: &str, part: &str) -> (r: String)
    ensures
        r@ == path_join(path@, part@),
{
    std::path::Path::new(path).join(part).to_string_lossy().into_owned()
}

/// `std::path::Path`'s `==`, on paths held as text; the same text is the same
/// path.
#[verifier::external_body]
pub(crate) fn paths_equal(a: &str, b: &str) -> (r: bool)
    ensures
        r == path_eq(a@, b@),
        a@ == b@ ==> r,
{
    std::path::Path::new(a) == std::path::Path::new(b)
}

/// `std::path::Path::parent`, on paths held as text.
#[verifier::external_body]
pub(crate) fn parent_path(path: &str) -> (r: Option<String>)
    ensures
        match r {
            Some(p) => path_parent(path@) == Some(p@),
            None => path_parent(path@) is None,
        },
{
    match std::path::Path::new(path).parent() {
        Some(parent) => Some(parent.to_string_lossy().into_owned()),
        None => None,
    }
}

/// `std::path::Path::is_absolute`, on paths held as text.
#[verifier::external_body]
pub(crate) fn is_absolute_path(path: &str) -> (r: bool)
    ensures
        r == path_is_absolute(path@),
{
    std::path::Path::new(path).is_absolute()
}

/// One question put to the file system, with its answer: whether a regular
/// file is at `path` (`files_only`), or whether anything is there.
pub struct DiskProbe {
    pub path: Seq<char>,
    pub files_only: bool,
    pub answer: bool,
}

/// The file system as the library asks it: the questions put to it through
/// this handle, oldest first, with their answers. Only the two calls into
/// `std::path` below add to the record.
pub struct Disk {
    asked: Ghost<Seq<DiskProbe>>,
}

impl Disk {
    pub closed spec fn asked(&self) -> Seq<DiskProbe> {
        self.asked@
    }

    /// A handle that has asked nothing yet.
    pub fn new() -> (r: Self)
        ensures
            r.asked().len() == 0,
    {
        Disk { asked: Ghost(Seq::empty()) }
    }
}

/// `std::path::Path::is_file`: whether a regular file is at `path` now. What
/// is on disk can change at any time, so nothing is stated of the answer
/// beyond its being recorded, with the question, in `disk`.
#[verifier::external_body]
pub(crate) fn path_is_file(disk: &mut Disk, path: &str) -> (r: bool)
    ensures
        final(disk).asked() == old(disk).asked().push(DiskProbe { path: path@, files_only: true, answer: r }),
{
    std::path::Path::new(path).is_file()
}

/// The platform base directories of the current user.
#[derive(Debug, Clone, PartialEq, Eq)]
pub struct BaseDirectories {
    pub config_dir: String,
    pub data_local_dir: String,
}

/// `directories::BaseDirs::new`: the user's platform directories, or `None`
/// when the user has no home directory. The answer depends on the process
/// environment, so nothing is stated of it.
#[verifier::external_body]
pub(crate) fn base_directories() -> (r: Option<BaseDirectories>) {
    match directories::BaseDirs::new() {
        Some(dirs) => Some(
            BaseDirectories {
                config_dir: dirs.config_dir().to_string_lossy().into_owned(),
                data_local_dir: dirs.data_local_dir().to_string_lossy().into_owned(),
            },
        ),
        None => None,
    }
}

/// `std::path::Path::exists`: whether anything is at `path` now. What is on
/// disk can change at any time, so nothing is stated of the answer beyond
/// its being recorded, with the question, in `disk`.
#[verifier::external_body]
pub(crate) fn path_exists(disk: &mut Disk, path: &str) -> (r: bool)
    ensures
        final(disk).asked() == old(disk).asked().push(DiskProbe { path: path@, files_only: false, answer: r }),
{
    std::path::Path::new(path).exists()
}

/// The first candidate for which the disk answered yes, `answers[i]` being
/// the answer given for `candidates[i]`.
pub open spec fn first_found(candidates: Seq<Seq<char>>, answers: Seq<bool>) -> Option<Seq<char>>
    decreases candidates.len(),
{
    if candidates.len() == 0 || answers.len() == 0 {
        None
    } else if answers[0] {
        Some(candidates[0])
    } else {
        first_found(candidates.drop_first(), answers.drop_first())
    }
}

/// The views of `v`.
pub open spec fn strings_view(v: Seq<String>) -> Seq<Seq<char>> {
    v.map_values(|s: String| s@)
}

/// The first candidate answered yes, `answers[i]` being the answer for
/// `candidates[i]`.
pub fn first_answered(candidates: &Vec<String>, answers: &Vec<bool>) -> (r: Option<String>)
    ensures
        opt_view(r) == first_found(strings_view(candidates@), answers@),
{
    let ghost c = strings_view(candidates@);
    assert(c.skip(0) =~= c);
    assert(answers@.skip(0) =~= answers@);
    let mut i: usize = 0;
    while i < candidates.len() && i < answers.len()
        invariant
            i <= candidates@.len(),
            i <= answers@.len(),
            c == strings_view(candidates@),
            first_found(c, answers@) == first_found(c.skip(i as int), answers@.skip(i as int)),
        decreases candidates@.len() - i,
    {
        proof {
            assert(c.skip(i as int).drop_first() =~= c.skip(i + 1));
            assert(answers@.skip(i as int).drop_first() =~= answers@.skip(i + 1));
        }
        if answers[i] {
            return Some(candidates[i].clone());
        }
        i = i + 1;
    }
    None
}

/// The answers recorded in `probes`, in order.
pub open spec fn answers_of(probes: Seq<DiskProbe>) -> Seq<bool> {
    probes.map_values(|p: DiskProbe| p.answer)
}

/// `probes` are the questions of a search of `candidates`: asked about the
/// candidates in order (whether each is a regular file when `files_only`,
/// else whether anything is there), stopping at the first answered yes and
/// otherwise going through all of them.
pub open spec fn searched(probes: Seq<DiskProbe>, candidates: Seq<Seq<char>>, files_only: bool) -> bool {
    &&& probes.len() <= candidates.len()
    &&& forall|i: int|
        0 <= i < probes.len() ==> (#[trigger] probes[i]).path == candidates[i] && probes[i].files_only == files_only
    &&& forall|i: int| 0 <= i < probes.len() - 1 ==> !(#[trigger] probes[i]).answer
    &&& probes.len() < candidates.len() ==> probes.len() > 0 && probes.last().answer
}

/// What `after` asked beyond what `before` had asked, `after` keeping all of
/// `before`'s record.
pub open spec fn asked_since(before: Disk, after: Disk) -> Seq<DiskProbe> {
    after.asked().skip(before.asked().len() as int)
}

/// `after`'s record is `before`'s with more questions after it.
pub open spec fn extends(before: Disk, after: Disk) -> bool {
    &&& before.asked().len() <= after.asked().len()
    &&& after.asked().take(before.asked().len() as int) == before.asked()
}

/// A record that extends one extending a third extends the third, with the
/// questions of both steps in order.
pub proof fn lemma_extends_trans(a: Disk, b: Disk, c: Disk)
    requires
        extends(a, b),
        extends(b, c),
    ensures
        extends(a, c),
        asked_since(a, c) == asked_since(a, b) + asked_since(b, c),
{
    assert(c.asked().take(a.asked().len() as int) =~= c.asked().take(b.asked().len() as int).take(
        a.asked().len() as int,
    ));
    assert(asked_since(a, c) =~= asked_since(a, b) + asked_since(b, c)) by {
        assert(c.asked() =~= b.asked() + asked_since(b, c));
        assert(b.asked() =~= a.asked() + asked_since(a, b));
    }
}

/// A record extends itself, with nothing asked since.
pub proof fn lemma_extends_refl(a: Disk)
    ensures
        extends(a, a),
        asked_since(a, a) == Seq::<DiskProbe>::empty(),
{
    assert(a.asked().take(a.asked().len() as int) =~= a.asked());
    assert(asked_since(a, a) =~= Seq::<DiskProbe>::empty());
}

/// Asks the disk about each candidate in turn (whether it is a regular file
/// when `files_only`, else whether anything is there) until one is answered
/// yes, and gives the answers in order.
pub(crate) fn probe_disk(disk: &mut Disk, candidates: &Vec<String>, files_only: bool) -> (answers: Vec<bool>)
    ensures
        extends(*old(disk), *final(disk)),
        searched(asked_since(*old(disk), *final(disk)), strings_view(candidates@), files_only),
        answers@ == answers_of(asked_since(*old(disk), *final(disk))),
{
    let ghost start = disk.asked();
    let ghost c = strings_view(candidates@);
    let mut answers: Vec<bool> = Vec::new();
    let mut found = false;
    let mut i: usize = 0;
    assert(disk.asked().skip(start.len() as int) =~= Seq::<DiskProbe>::empty());
    while !found && i < candidates.len()
        invariant
            i <= candidates@.len(),
            c == strings_view(candidates@),
            disk.asked().len() == start.len() + i,
            disk.asked().take(start.len() as int) == start,
            answers@ == answers_of(disk.asked().skip(start.len() as int)),
            forall|k: int| 0 <= k < i ==> (#[trigger] disk.asked()[start.len() + k]).path == c[k]
                && disk.asked()[start.len() + k].files_only == files_only,
            forall|k: int| 0 <= k < i - 1 ==> !(#[trigger] disk.asked()[start.len() + k]).answer,
            found ==> i > 0 && disk.asked()[start.len() + i - 1].answer,
            !found && i > 0 ==> !disk.asked()[start.len() + i - 1].answer,
        decreases candidates@.len() - i,
    {
        let ghost before = disk.asked();
        let present = if files_only {
            path_is_file(disk, candidates[i].as_str())
        } else {
            path_exists(disk, candidates[i].as_str())
        };
        answers.push(present);
        proof {
            assert(disk.asked().take(start.len() as int) =~= start) by {
                assert(disk.asked() == before.push(disk.asked().last()));
            }
            assert(disk.asked().skip(start.len() as int) =~= before.skip(start.len() as int).push(
                disk.asked()[start.len() + i],
            ));
            assert(answers_of(disk.asked().skip(start.len() as int)) =~= answers_of(
                before.skip(start.len() as int),
            ).push(present));
            assert forall|k: int| 0 <= k < i + 1 implies (#[trigger] disk.asked()[start.len() + k]).path == c[k]
                && disk.asked()[start.len() + k].files_only == files_only by {
                if k < i {
                    assert(disk.asked()[start.len() + k] == before[start.len() + k]);
                }
            }
            assert forall|k: int| 0 <= k < i implies !(#[trigger] disk.asked()[start.len() + k]).answer by {
                assert(disk.asked()[start.len() + k] == before[start.len() + k]);
            }
        }
        found = present;
        i = i + 1;
    }
    proof {
        let probes = disk.asked().skip(start.len() as int);
        assert(probes.len() == i);
        assert forall|k: int| 0 <= k < probes.len() implies (#[trigger] probes[k]).path == c[k]
            && probes[k].files_only == files_only by {
            assert(probes[k] == disk.asked()[start.len() + k]);
        }
        assert forall|k: int| 0 <= k < probes.len() - 1 implies !(#[trigger] probes[k]).answer by {
            assert(probes[k] == disk.asked()[start.len() + k]);
        }
        if probes.len() < c.len() {
            assert(probes.last() == disk.asked()[start.len() + i - 1]);
        }
    }
    answers
}

/// The first of `candidates` the disk answers yes for, asked in order
/// (whether it is a regular file when `files_only`, else whether anything is
/// there) until one is answered yes.
pub(crate) fn first_on_disk(disk: &mut Disk, candidates: &Vec<String>, files_only: bool) -> (r: Option<String>)
    ensures
        extends(*old(disk), *final(disk)),
        searched(asked_since(*old(disk), *final(disk)), strings_view(candidates@), files_only),
        opt_view(r) == first_found(strings_view(candidates@), answers_of(asked_since(*old(disk), *final(disk)))),
{
    let answers = probe_disk(disk, candidates, files_only);
    first_answered(candidates, &answers)
}

/// The places a bundled runtime is looked for, given the path of the running
/// executable: `runtime` beside it, then `Resources/runtime` in the directory
/// above (inside a macOS application bundle).
pub open spec fn bundled_runtime_candidates(exe: Option<Seq<char>>) -> Seq<Seq<char>> {
    match exe {
        None => Seq::empty(),
        Some(e) => match path_parent(e) {
            None => Seq::empty(),
            Some(dir) => match path_parent(dir) {
                None => seq![path_join(dir, "runtime"@)],
                Some(contents) => seq![
                    path_join(dir, "runtime"@),
                    path_join(path_join(contents, "Resources"@), "runtime"@),
                ],
            },
        },
    }
}

/// The default runtime directory, `answers[i]` being what the disk answered
/// for the i-th bundled candidate: the first one present, else `runtime`
/// under the working directory.
pub open spec fn default_runtime_spec(exe: Option<Seq<char>>, cwd: Seq<char>, answers: Seq<bool>) -> Seq<char> {
    match first_found(bundled_runtime_candidates(exe), answers) {
        Some(dir) => dir,
        None => path_join(cwd, "runtime"@),
    }
}

/// The bundled runtime candidates for the executable `exe`.
pub fn bundled_candidates(exe: &Option<String>) -> (r: Vec<String>)
    ensures
        strings_view(r@) == bundled_runtime_candidates(opt_view(*exe)),
{
    let mut candidates: Vec<String> = Vec::new();
    match exe {
        Some(e) => match parent_path(e.as_str()) {
            Some(dir) => {
                candidates.push(join_path(dir.as_str(), "runtime"));
                match parent_path(dir.as_str()) {
                    Some(contents) => {
                        let resources = join_path(contents.as_str(), "Resources");
                        candidates.push(join_path(resources.as_str(), "runtime"));
                    },
                    None => {},
                }
            },
            None => {},
        },
        None => {},
    }
    assert(strings_view(candidates@) =~= bundled_runtime_candidates(opt_view(*exe)));
    candidates
}

/// The runtime directory given what the disk answered for each bundled
/// candidate: the first one present, else `runtime` under `cwd`.
pub fn bundled_runtime_dir(exe: &Option<String>, cwd: &str, answers: &Vec<bool>) -> (r: String)
    ensures
        r@ == default_runtime_spec(opt_view(*exe), cwd@, answers@),
{
    let candidates = bundled_candidates(exe);
    match first_answered(&candidates, answers) {
        Some(dir) => dir,
        None => join_path(cwd, "runtime"),
    }
}

/// The runtime directory used when none is given: the bundled one beside
/// the executable `exe` (or inside its application bundle) when present,
/// else `runtime` under the working directory `cwd`. The disk is asked about
/// the candidates in order until one is present; the questions and their
/// answers are recorded in `disk`, and decide the result.
pub fn default_runtime_dir(disk: &mut Disk, exe: Option<String>, cwd: String) -> (r: String)
    ensures
        extends(*old(disk), *final(disk)),
        searched(asked_since(*old(disk), *final(disk)), bundled_runtime_candidates(opt_view(exe)), false),
        r@ == default_runtime_spec(opt_view(exe), cwd@, answers_of(asked_since(*old(disk), *final(disk)))),
{
    let candidates = bundled_candidates(&exe);
    let answers = probe_disk(disk, &candidates, false);
    bundled_runtime_dir(&exe, cwd.as_str(), &answers)
}

/// The files and directories of the application.
#[derive(Debug, Clone, PartialEq, Eq)]
pub struct AppPaths {
    pub config_dir: String,
    pub config_file: String,
    pub data_dir: String,
    pub database_file: String,
    pub browser_profiles_dir: String,
    pub logs_dir: String,
    pub runtime_dir: String,
}

/// The view of a set of application paths.
pub struct AppPathsView {
    pub config_dir: Seq<char>,
    pub config_file: Seq<char>,
    pub data_dir: Seq<char>,
    pub database_file: Seq<char>,
    pub browser_profiles_dir: Seq<char>,
    pub logs_dir: Seq<char>,
    pub runtime_dir: Seq<char>,
}

impl View for AppPaths {
    type V = AppPathsView;

    open spec fn view(&self) -> AppPathsView {
        AppPathsView {
            config_dir: self.config_dir@,
            config_file: self.config_file@,
            data_dir: self.data_dir@,
            database_file: self.database_file@,
            browser_profiles_dir: self.browser_profiles_dir@,
            logs_dir: self.logs_dir@,
            runtime_dir: self.runtime_dir@,
        }
    }
}

/// The paths whose data files all live under `data_dir`: the database at
/// `db/jobless.sqlite3`, browser profiles in `browser-profiles`, logs in `logs`.
pub open spec fn normalized_paths(
    config_dir: Seq<char>,
    config_file: Seq<char>,
    data_dir: Seq<char>,
    runtime_dir: Seq<char>,
) -> AppPathsView {
    AppPathsView {
        config_dir,
        config_file,
        data_dir,
        database_file: path_join(path_join(data_dir, "db"@), "jobless.sqlite3"@),
        browser_profiles_dir: path_join(data_dir, "browser-profiles"@),
        logs_dir: path_join(data_dir, "logs"@),
        runtime_dir,
    }
}

/// The paths resolved from the optional overrides and the user's base
/// directories: the config file defaults to `<config>/com.jobless.desktop/config.toml`,
/// the config directory is the config file's parent, the data directory
/// defaults to `<local data>/com.jobless.desktop`.
pub open spec fn resolved_paths(
    config_file: Option<Seq<char>>,
    data_dir: Option<Seq<char>>,
    runtime_dir: Seq<char>,
    base: BaseDirectories,
) -> AppPathsView {
    let bundle_config = path_join(base.config_dir@, BUNDLE_ID@);
    let file = match config_file {
        Some(f) => f,
        None => path_join(bundle_config, "config.toml"@),
    };
    let dir = match path_parent(file) {
        Some(p) => p,
        None => bundle_config,
    };
    let data = match data_dir {
        Some(d) => d,
        None => path_join(base.data_local_dir@, BUNDLE_ID@),
    };
    normalized_paths(dir, file, data, runtime_dir)
}

pub open spec fn opt_view(o: Option<String>) -> Option<Seq<char>> {
    match o {
        Some(s) => Some(s@),
        None => None,
    }
}

impl AppPaths {
    /// The paths with every data file placed under `data_dir`.
    pub fn from_normalized(
        config_dir: String,
        config_file: String,
        data_dir: String,
        runtime_dir: String,
    ) -> (r: Self)
        ensures
            r@ == normalized_paths(config_dir@, config_file@, data_dir@, runtime_dir@),
    {
        let db_dir = join_path(data_dir.as_str(), "db");
        let database_file = join_path(db_dir.as_str(), "jobless.sqlite3");
        let browser_profiles_dir = join_path(data_dir.as_str(), "browser-profiles");
        let logs_dir = join_path(data_dir.as_str(), "logs");
        AppPaths {
            config_dir,
            config_file,
            data_dir,
            database_file,
            browser_profiles_dir,
            logs_dir,
            runtime_dir,
        }
    }

    /// Resolves the paths from the optional overrides and the user's base
    /// directories; fails when there are none, overrides or not.
    pub fn from_base(
        config_file: Option<String>,
        data_dir: Option<String>,
        runtime_dir: String,
        base: Option<BaseDirectories>,
    ) -> (r: Result<Self, PathError>)
        ensures
            match base {
                None => r == Err::<AppPaths, PathError>(PathError::NoBaseDirectories),
                Some(b) => r matches Ok(p) && p@ == resolved_paths(
                    opt_view(config_file),
                    opt_view(data_dir),
                    runtime_dir@,
                    b,
                ),
            },
    {
        let base = match base {
            Some(b) => b,
            None => return Err(PathError::NoBaseDirectories),
        };
        let bundle_config = join_path(base.config_dir.as_str(), BUNDLE_ID);
        let config_file = match config_file {
            Some(f) => f,
            None => join_path(bundle_config.as_str(), "config.toml"),
        };
        let config_dir = match parent_path(config_file.as_str()) {
            Some(p) => p,
            None => bundle_config,
        };
        let data_dir = match data_dir {
            Some(d) => d,
            None => join_path(base.data_local_dir.as_str(), BUNDLE_ID),
        };
        Ok(Self::from_normalized(config_dir, config_file, data_dir, runtime_dir))
    }

    /// Resolves the paths from the optional overrides and the platform base
    /// directories of the current user.
    pub fn with_overrides(
        config_file: Option<String>,
        data_dir: Option<String>,
        runtime_dir: String,
    ) -> (r: Result<Self, PathError>)
        ensures
            match r {
                Ok(p) => exists|b: BaseDirectories|
                    p@ == resolved_paths(opt_view(config_file), opt_view(data_dir), runtime_dir@, b),
                Err(e) => e == PathError::NoBaseDirectories,
            },
    {
        let base = base_directories();
        Self::from_base(config_file, data_dir, runtime_dir, base)
    }

    /// Moves the data directory; the database, profiles and logs move with it.
    pub fn set_data_dir(&mut self, data_dir: String)
        ensures
            final(self)@ == normalized_paths(
                old(self).config_dir@,
                old(self).config_file@,
                data_dir@,
                old(self).runtime_dir@,
            ),
    {
        let runtime_dir = self.runtime_dir.clone();
        let config_dir = self.config_dir.clone();
        let config_file = self.config_file.clone();
        *self = Self::from_normalized(config_dir, config_file, data_dir, runtime_dir);
    }

    /// Moves the runtime directory only.
    pub fn set_runtime_dir(&mut self, runtime_dir: String)
        ensures
            final(self)@ == (AppPathsView { runtime_dir: runtime_dir@, ..old(self)@ }),
    {
        self.runtime_dir = runtime_dir;
    }

    /// A copy of the paths.
    pub fn duplicate(&self) -> (r: Self)
        ensures
            r@ == self@,
    {
        AppPaths {
            config_dir: self.config_dir.clone(),
            config_file: self.config_file.clone(),
            data_dir: self.data_dir.clone(),
            database_file: self.database_file.clone(),
            browser_profiles_dir: self.browser_profiles_dir.clone(),
            logs_dir: self.logs_dir.clone(),
            runtime_dir: self.runtime_dir.clone(),
        }
    }
}

/// The database, browser profiles and logs all lie under the data
/// directory.
pub open spec fn is_normalized(p: AppPathsView) -> bool {
    &&& p.database_file == path_join(path_join(p.data_dir, "db"@), "jobless.sqlite3"@)
    &&& p.browser_profiles_dir == path_join(p.data_dir, "browser-profiles"@)
    &&& p.logs_dir == path_join(p.data_dir, "logs"@)
}

/// A move of one of the directories that can be changed after the paths
/// are made.
pub enum PathsChange {
    /// `set_data_dir` with this directory.
    DataDir(Seq<char>),
    /// `set_runtime_dir` with this directory.
    RuntimeDir(Seq<char>),
}

/// The paths after `change`, as `set_data_dir` and `set_runtime_dir` leave
/// them.
pub open spec fn changed(p: AppPathsView, change: PathsChange) -> AppPathsView {
    match change {
        PathsChange::DataDir(d) => normalized_paths(p.config_dir, p.config_file, d, p.runtime_dir),
        PathsChange::RuntimeDir(r) => AppPathsView { runtime_dir: r, ..p },
    }
}

/// The paths after the `changes`, in turn.
pub open spec fn changed_by(p: AppPathsView, changes: Seq<PathsChange>) -> AppPathsView
    decreases changes.len(),
{
    if changes.len() == 0 {
        p
    } else {
        changed_by(changed(p, changes[0]), changes.drop_first())
    }
}

/// Paths made by `from_normalized` keep the four given paths and place the
/// database, profiles and logs under the data directory; after any sequence
/// of `set_data_dir` and `set_runtime_dir` calls they still lie there and
/// the configuration location is unchanged.
pub proof fn derived_paths_stay_under_data_dir(
    config_dir: Seq<char>,
    config_file: Seq<char>,
    data_dir: Seq<char>,
    runtime_dir: Seq<char>,
    changes: Seq<PathsChange>,
)
    ensures
        is_normalized(normalized_paths(config_dir, config_file, data_dir, runtime_dir)),
        normalized_paths(config_dir, config_file, data_dir, runtime_dir).config_dir == config_dir,
        normalized_paths(config_dir, config_file, data_dir, runtime_dir).config_file == config_file,
        normalized_paths(config_dir, config_file, data_dir, runtime_dir).data_dir == data_dir,
        normalized_paths(config_dir, config_file, data_dir, runtime_dir).runtime_dir == runtime_dir,
        is_normalized(changed_by(normalized_paths(config_dir, config_file, data_dir, runtime_dir), changes)),
        changed_by(normalized_paths(config_dir, config_file, data_dir, runtime_dir), changes).config_dir
            == config_dir,
        changed_by(normalized_paths(config_dir, config_file, data_dir, runtime_dir), changes).config_file
            == config_file,
{
    lemma_changes_keep_paths(normalized_paths(config_dir, config_file, data_dir, runtime_dir), changes);
}

/// Normalized paths stay normalized, and keep their configuration location,
/// through any sequence of changes.
proof fn lemma_changes_keep_paths(p: AppPathsView, changes: Seq<PathsChange>)
    requires
        is_normalized(p),
    ensures
        is_normalized(changed_by(p, changes)),
        changed_by(p, changes).config_dir == p.config_dir,
        changed_by(p, changes).config_file == p.config_file,
    decreases changes.len(),
{
    if changes.len() > 0 {
        lemma_changes_keep_paths(changed(p, changes[0]), changes.drop_first());
    }
}

} // verus!
