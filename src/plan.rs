use vstd::prelude::*;
use vstd::string::*;

use crate::config::Config;
use crate::content::{file_content, file_text_content, lemma_file_content_no_marker, substitutions};
use crate::text::{has_marker, hash_free, lemma_hash_free_no_marker, lemma_join_no_marker};
use crate::layout::{
    app_name_ok, dir_kinds, dir_kinds_for, dir_path, dir_path_of, file_kinds, file_kinds_for,
    file_path, file_path_of, lemma_dir_path_injective, lemma_file_path_injective, module_path_of,
    resolve_module_path, wants_env, dir_leaf, dir_parent, lemma_dir_in_parent, lemma_dir_kind_at, lemma_parents_first,
    DirKind, FileKind,
};

verus! {

/// What a build will do: where, with which module path, the directories to
/// create in order and the files to write with their text.
pub ghost struct Plan {
    pub config: Config,
    pub root: Seq<char>,
    pub module: Seq<char>,
    pub dirs: Seq<Seq<char>>,
    pub files: Seq<(Seq<char>, Seq<char>)>,
}

/// The project root: the working directory, then the app name.
pub open spec fn project_root(cur_path: Seq<char>, app: Seq<char>) -> Seq<char> {
    cur_path + "/"@ + app
}

pub open spec fn planned_dirs(root: Seq<char>, c: Config) -> Seq<Seq<char>> {
    dir_kinds(c.sessions, c.turso, c.tailwind).map_values(|k| dir_path(root, k, c.app_name@))
}

pub open spec fn planned_paths(root: Seq<char>, c: Config) -> Seq<Seq<char>> {
    file_kinds(c.sessions, c.turso, c.tailwind).map_values(|k| file_path(root, k, c.app_name@))
}

pub open spec fn planned_files(root: Seq<char>, c: Config, module: Seq<char>) -> Seq<(Seq<char>, Seq<char>)> {
    file_kinds(c.sessions, c.turso, c.tailwind).map_values(
        |k| (file_path(root, k, c.app_name@), file_content(k, c, module)),
    )
}

/// The plan that a configuration, a working directory and a user name (if one
/// was found) determine.
pub open spec fn plan_of(c: Config, cur_path: Seq<char>, user: Option<Seq<char>>) -> Plan {
    let root = project_root(cur_path, c.app_name@);
    let module = module_path_of(c.app_name@, user);
    Plan {
        config: c,
        root,
        module,
        dirs: planned_dirs(root, c),
        files: planned_files(root, c, module),
    }
}

/// Whether a plan creates the directory of the given kind.
pub open spec fn plan_has_dir(p: Plan, k: DirKind) -> bool {
    p.dirs.contains(dir_path(p.root, k, p.config.app_name@))
}

/// The paths of the files that a plan writes.
pub open spec fn plan_paths(p: Plan) -> Seq<Seq<char>> {
    p.files.map_values(|e: (Seq<char>, Seq<char>)| e.0)
}

proof fn lemma_plan_facts(c: Config, cur_path: Seq<char>, user: Option<Seq<char>>)
    requires
        app_name_ok(c.app_name@),
    ensures
        plan_of(c, cur_path, user).dirs.no_duplicates(),
        plan_has_dir(plan_of(c, cur_path, user), DirKind::Env) <==> wants_env(c.sessions, c.turso),
        plan_has_dir(plan_of(c, cur_path, user), DirKind::TestDb) <==> c.turso,
        plan_has_dir(plan_of(c, cur_path, user), DirKind::Db) <==> c.turso,
        plan_has_dir(plan_of(c, cur_path, user), DirKind::Css) <==> c.tailwind,
        plan_paths(plan_of(c, cur_path, user)) == planned_paths(plan_of(c, cur_path, user).root, c),
        plan_paths(plan_of(c, cur_path, user)).no_duplicates(),
        !has_marker(c.app_name@) && (user matches Some(u) ==> !has_marker(u)) ==> forall|i: int|
            0 <= i < plan_of(c, cur_path, user).files.len() ==> !has_marker(
                #[trigger] plan_of(c, cur_path, user).files[i].1,
            ),
{
    let p = plan_of(c, cur_path, user);
    lemma_dirs_distinct_and_guarded(p.root, c);
    lemma_files_distinct_and_guarded(p.root, c);
    lemma_file_keys_follow_flags(c, c, cur_path, user, user);
    if !has_marker(c.app_name@) && (user matches Some(u) ==> !has_marker(u)) {
        lemma_no_marker_in_plan(c, cur_path, user);
    }
}

/// The scaffold of one project, derived once from its configuration and never
/// changed afterwards.
pub struct AppBuilderConfig {
    mod_name: String,
    path_to_project: String,
    config: Config,
    dirs_to_create: Vec<String>,
    file_to_text_map: Vec<(String, String)>,
}

impl View for AppBuilderConfig {
    type V = Plan;

    closed spec fn view(&self) -> Plan {
        Plan {
            config: self.config,
            root: self.path_to_project@,
            module: self.mod_name@,
            dirs: self.dirs_to_create@.map_values(|s: String| s@),
            files: self.file_to_text_map@.map_values(|e: (String, String)| (e.0@, e.1@)),
        }
    }
}

pub open spec fn view_user(user: Option<&str>) -> Option<Seq<char>> {
    match user {
        Some(u) => Some(u@),
        None => None,
    }
}

impl AppBuilderConfig {
    /// Plans the project `<cur_path>/<app_name>`; `git_user_name` is the user
    /// name that the version-control configuration gave, if any.
    pub fn new(config: Config, cur_path: &str, git_user_name: Option<&str>) -> (r: Self)
        requires
            app_name_ok(config.app_name@),
        ensures
            r@ == plan_of(config, cur_path@, view_user(git_user_name)),
            r@.dirs.no_duplicates(),
            plan_has_dir(r@, DirKind::Env) <==> wants_env(config.sessions, config.turso),
            plan_has_dir(r@, DirKind::TestDb) <==> config.turso,
            plan_has_dir(r@, DirKind::Db) <==> config.turso,
            plan_has_dir(r@, DirKind::Css) <==> config.tailwind,
            plan_paths(r@) == planned_paths(r@.root, config),
            plan_paths(r@).no_duplicates(),
            !has_marker(config.app_name@) && (git_user_name matches Some(u) ==> !has_marker(u@)) ==> forall|i: int|
                0 <= i < r@.files.len() ==> !has_marker(#[trigger] r@.files[i].1),
    {
        let mut path_to_project = String::from_str(cur_path);
        path_to_project.append("/");
        path_to_project.append(config.app_name.as_str());
        let mod_name = resolve_module_path(config.app_name.as_str(), git_user_name);
        let dirs_to_create = Self::add_dirs_to_create(&config, path_to_project.as_str());
        let file_to_text_map = Self::init_file_to_text_map(&config, path_to_project.as_str(), mod_name.as_str());
        let r = AppBuilderConfig { mod_name, path_to_project, config, dirs_to_create, file_to_text_map };
        assert(r@.root =~= project_root(cur_path@, config.app_name@));
        proof {
            lemma_plan_facts(config, cur_path@, view_user(git_user_name));
        }
        r
    }

    /// The directories to create, parents first.
    fn add_dirs_to_create(config: &Config, root: &str) -> (r: Vec<String>)
        requires
            app_name_ok(config.app_name@),
        ensures
            r@.map_values(|s: String| s@) == planned_dirs(root@, *config),
    {
        let kinds = dir_kinds_for(config.sessions, config.turso, config.tailwind);
        let mut r: Vec<String> = Vec::new();
        let mut i: usize = 0;
        while i < kinds.len()
            invariant
                app_name_ok(config.app_name@),
                kinds@ == dir_kinds(config.sessions, config.turso, config.tailwind),
                i <= kinds@.len(),
                r@.len() == i,
                forall|j: int| 0 <= j < i ==> (#[trigger] r@[j])@ == dir_path(root@, kinds@[j], config.app_name@),
            decreases kinds.len() - i,
        {
            let p = dir_path_of(root, kinds[i], config.app_name.as_str());
            r.push(p);
            i = i + 1;
        }
        assert(r@.map_values(|s: String| s@) =~= planned_dirs(root@, *config));
        r
    }

    /// The files to write, each with its full text.
    fn init_file_to_text_map(config: &Config, root: &str, module: &str) -> (r: Vec<(String, String)>)
        requires
            app_name_ok(config.app_name@),
        ensures
            r@.map_values(|e: (String, String)| (e.0@, e.1@)) == planned_files(root@, *config, module@),
    {
        let subs = substitutions(config, module);
        let kinds = file_kinds_for(config.sessions, config.turso, config.tailwind);
        let mut r: Vec<(String, String)> = Vec::new();
        let mut i: usize = 0;
        while i < kinds.len()
            invariant
                app_name_ok(config.app_name@),
                subs@.module == module@,
                subs@ == crate::content::fill_of(*config, module@),
                kinds@ == file_kinds(config.sessions, config.turso, config.tailwind),
                i <= kinds@.len(),
                r@.len() == i,
                forall|j: int|
                    0 <= j < i ==> (#[trigger] r@[j]).0@ == file_path(root@, kinds@[j], config.app_name@)
                        && r@[j].1@ == file_content(kinds@[j], *config, module@),
            decreases kinds.len() - i,
        {
            let k = kinds[i];
            let p = file_path_of(root, k, config.app_name.as_str());
            let t = file_text_content(k, config, &subs);
            r.push((p, t));
            i = i + 1;
        }
        assert(r@.map_values(|e: (String, String)| (e.0@, e.1@)) =~= planned_files(root@, *config, module@));
        r
    }

    pub fn mod_name(&self) -> (r: &str)
        ensures
            r@ == self@.module,
    {
        self.mod_name.as_str()
    }

    pub fn path_to_project(&self) -> (r: &str)
        ensures
            r@ == self@.root,
    {
        self.path_to_project.as_str()
    }

    pub fn config(&self) -> (r: &Config)
        ensures
            *r == self@.config,
    {
        &self.config
    }

    pub fn dirs_to_create(&self) -> (r: &Vec<String>)
        ensures
            r@.map_values(|s: String| s@) == self@.dirs,
    {
        &self.dirs_to_create
    }

    pub fn file_to_text_map(&self) -> (r: &Vec<(String, String)>)
        ensures
            r@.map_values(|e: (String, String)| (e.0@, e.1@)) == self@.files,
    {
        &self.file_to_text_map
    }
}

/// Builds a project: the planned scaffold, to be written and then handed to
/// the toolchain steps.
pub struct AppBuilder {
    config: AppBuilderConfig,
}

impl View for AppBuilder {
    type V = Plan;

    closed spec fn view(&self) -> Plan {
        self.config@
    }
}

impl AppBuilder {
    pub fn new(config: Config, cur_path: &str, git_user_name: Option<&str>) -> (r: Self)
        requires
            app_name_ok(config.app_name@),
        ensures
            r@ == plan_of(config, cur_path@, view_user(git_user_name)),
            r@.dirs.no_duplicates(),
            plan_has_dir(r@, DirKind::Env) <==> wants_env(config.sessions, config.turso),
            plan_has_dir(r@, DirKind::TestDb) <==> config.turso,
            plan_has_dir(r@, DirKind::Db) <==> config.turso,
            plan_has_dir(r@, DirKind::Css) <==> config.tailwind,
            plan_paths(r@) == planned_paths(r@.root, config),
            plan_paths(r@).no_duplicates(),
            !has_marker(config.app_name@) && (git_user_name matches Some(u) ==> !has_marker(u@)) ==> forall|i: int|
                0 <= i < r@.files.len() ==> !has_marker(#[trigger] r@.files[i].1),
    {
        let conf = AppBuilderConfig::new(config, cur_path, git_user_name);
        proof {
            lemma_plan_facts(config, cur_path@, view_user(git_user_name));
        }
        AppBuilder { config: conf }
    }

    pub fn plan(&self) -> (r: &AppBuilderConfig)
        ensures
            r@ == self@,
    {
        &self.config
    }
}

/// No directory of a plan is listed twice, and each conditional directory is in
/// the plan exactly when its flag is set: the environment helper with sessions or
/// a database, the test-database and database-access directories with a
/// database, the stylesheet directory with the stylesheet tool.
pub proof fn lemma_dirs_distinct_and_guarded(root: Seq<char>, c: Config)
    requires
        app_name_ok(c.app_name@),
    ensures
        planned_dirs(root, c).no_duplicates(),
        planned_dirs(root, c).contains(dir_path(root, DirKind::Env, c.app_name@)) <==> wants_env(c.sessions, c.turso),
        planned_dirs(root, c).contains(dir_path(root, DirKind::TestDb, c.app_name@)) <==> c.turso,
        planned_dirs(root, c).contains(dir_path(root, DirKind::Db, c.app_name@)) <==> c.turso,
        planned_dirs(root, c).contains(dir_path(root, DirKind::Css, c.app_name@)) <==> c.tailwind,
{
    let app = c.app_name@;
    broadcast use vstd::seq_lib::lemma_seq_concat_contains_all_elements,
        vstd::seq_lib::lemma_seq_contains_after_push,
        vstd::seq_lib::lemma_seq_empty_contains_nothing;

    let kinds = dir_kinds(c.sessions, c.turso, c.tailwind);
    let dirs = planned_dirs(root, c);
    assert(kinds.no_duplicates());
    assert forall|i: int, j: int| 0 <= i < dirs.len() && 0 <= j < dirs.len() && i != j implies dirs[i] != dirs[j] by {
        if dirs[i] == dirs[j] {
            lemma_dir_path_injective(root, kinds[i], kinds[j], app);
        }
    }
    assert forall|k: DirKind| #[trigger] dirs.contains(dir_path(root, k, app)) implies kinds.contains(k) by {
        let i = choose|i: int| 0 <= i < dirs.len() && dirs[i] == dir_path(root, k, app);
        lemma_dir_path_injective(root, kinds[i], k, app);
    }
    assert forall|k: DirKind| kinds.contains(k) implies #[trigger] dirs.contains(dir_path(root, k, app)) by {
        let i = choose|i: int| 0 <= i < kinds.len() && kinds[i] == k;
        assert(dirs[i] == dir_path(root, k, app));
    }
    assert(kinds.contains(DirKind::Env) <==> wants_env(c.sessions, c.turso));
    assert(kinds.contains(DirKind::TestDb) <==> c.turso);
    assert(kinds.contains(DirKind::Db) <==> c.turso);
    assert(kinds.contains(DirKind::Css) <==> c.tailwind);
}

proof fn lemma_file_kinds_guarded(sessions: bool, turso: bool, tailwind: bool)
    ensures
        file_kinds(sessions, turso, tailwind).no_duplicates(),
        file_kinds(sessions, turso, tailwind).contains(FileKind::DotEnv) <==> wants_env(sessions, turso),
        file_kinds(sessions, turso, tailwind).contains(FileKind::EnvGo) <==> wants_env(sessions, turso),
        file_kinds(sessions, turso, tailwind).contains(FileKind::DbGo) <==> turso,
        file_kinds(sessions, turso, tailwind).contains(FileKind::TestDbFile) <==> turso,
        file_kinds(sessions, turso, tailwind).contains(FileKind::IndexCss) <==> tailwind,
{
    broadcast use vstd::seq_lib::lemma_seq_concat_contains_all_elements,
        vstd::seq_lib::lemma_seq_contains_after_push,
        vstd::seq_lib::lemma_seq_empty_contains_nothing;

    let kinds = file_kinds(sessions, turso, tailwind);
    assert(kinds.no_duplicates());
}

/// No file of a plan is listed twice, and each conditional file is in the plan
/// exactly when its flag is set.
pub proof fn lemma_files_distinct_and_guarded(root: Seq<char>, c: Config)
    requires
        app_name_ok(c.app_name@),
    ensures
        planned_paths(root, c).no_duplicates(),
        planned_paths(root, c).contains(file_path(root, FileKind::DotEnv, c.app_name@)) <==> wants_env(c.sessions, c.turso),
        planned_paths(root, c).contains(file_path(root, FileKind::EnvGo, c.app_name@)) <==> wants_env(c.sessions, c.turso),
        planned_paths(root, c).contains(file_path(root, FileKind::DbGo, c.app_name@)) <==> c.turso,
        planned_paths(root, c).contains(file_path(root, FileKind::TestDbFile, c.app_name@)) <==> c.turso,
        planned_paths(root, c).contains(file_path(root, FileKind::IndexCss, c.app_name@)) <==> c.tailwind,
{
    let app = c.app_name@;
    let kinds = file_kinds(c.sessions, c.turso, c.tailwind);
    let paths = planned_paths(root, c);
    lemma_file_kinds_guarded(c.sessions, c.turso, c.tailwind);
    assert forall|i: int, j: int| 0 <= i < paths.len() && 0 <= j < paths.len() && i != j implies paths[i] != paths[j] by {
        if paths[i] == paths[j] {
            lemma_file_path_injective(root, kinds[i], kinds[j], app);
        }
    }
    assert forall|k: FileKind| #[trigger] paths.contains(file_path(root, k, app)) implies kinds.contains(k) by {
        let i = choose|i: int| 0 <= i < paths.len() && paths[i] == file_path(root, k, app);
        lemma_file_path_injective(root, kinds[i], k, app);
    }
    assert forall|k: FileKind| kinds.contains(k) implies #[trigger] paths.contains(file_path(root, k, app)) by {
        let i = choose|i: int| 0 <= i < kinds.len() && kinds[i] == k;
        assert(paths[i] == file_path(root, k, app));
    }
}

/// The paths of the planned files depend on the working directory, the app name
/// and the sessions, database and stylesheet flags alone: not on the user name,
/// nor on the htmx or live-reload flags. They are the paths of `planned_paths`.
pub proof fn lemma_file_keys_follow_flags(
    a: Config,
    b: Config,
    cur_path: Seq<char>,
    user_a: Option<Seq<char>>,
    user_b: Option<Seq<char>>,
)
    requires
        a.app_name@ == b.app_name@,
        a.sessions == b.sessions,
        a.turso == b.turso,
        a.tailwind == b.tailwind,
    ensures
        plan_of(a, cur_path, user_a).files.map_values(|e: (Seq<char>, Seq<char>)| e.0)
            == plan_of(b, cur_path, user_b).files.map_values(|e: (Seq<char>, Seq<char>)| e.0),
        plan_of(a, cur_path, user_a).files.map_values(|e: (Seq<char>, Seq<char>)| e.0)
            == planned_paths(project_root(cur_path, a.app_name@), a),
{
    let fa = plan_of(a, cur_path, user_a).files.map_values(|e: (Seq<char>, Seq<char>)| e.0);
    let fb = plan_of(b, cur_path, user_b).files.map_values(|e: (Seq<char>, Seq<char>)| e.0);
    assert(fa =~= planned_paths(project_root(cur_path, a.app_name@), a));
    assert(fb =~= planned_paths(project_root(cur_path, b.app_name@), b));
    assert(planned_paths(project_root(cur_path, a.app_name@), a) =~= planned_paths(project_root(cur_path, b.app_name@), b));
}

/// With an app name and a user name that hold no placeholder marker (`##`), no
/// file of the plan holds one, whatever the flags.
pub proof fn lemma_no_marker_in_plan(c: Config, cur_path: Seq<char>, user: Option<Seq<char>>)
    requires
        app_name_ok(c.app_name@),
        !has_marker(c.app_name@),
        user matches Some(u) ==> !has_marker(u),
    ensures
        forall|i: int|
            0 <= i < plan_of(c, cur_path, user).files.len() ==> !has_marker(
                #[trigger] plan_of(c, cur_path, user).files[i].1,
            ),
{
    broadcast use lemma_hash_free_no_marker;

    let p = plan_of(c, cur_path, user);
    let app = c.app_name@;
    reveal_strlit("github.com/");
    reveal_strlit("/");
    match user {
        Some(u) => {
            let g = "github.com/"@;
            assert(hash_free(g) && hash_free("/"@));
            lemma_join_no_marker(g, u);
            lemma_join_no_marker(g + u, "/"@);
            assert((g + u + "/"@).last() == '/');
            lemma_join_no_marker(g + u + "/"@, app);
        },
        None => {},
    }
    assert(!has_marker(p.module));
    let kinds = file_kinds(c.sessions, c.turso, c.tailwind);
    assert forall|i: int| 0 <= i < p.files.len() implies !has_marker(#[trigger] p.files[i].1) by {
        lemma_file_content_no_marker(kinds[i], c, p.module);
    }
}

/// The planned directories can be created in order, one level at a time: the
/// first is the project root, and each later one is an earlier one followed by
/// `/` and a last component.
pub proof fn lemma_dirs_parents_first(root: Seq<char>, c: Config)
    ensures
        planned_dirs(root, c)[0] == root,
        forall|i: int|
            0 < i < planned_dirs(root, c).len() ==> exists|j: int|
                0 <= j < i && #[trigger] planned_dirs(root, c)[i] == planned_dirs(root, c)[j] + "/"@ + dir_leaf(
                    dir_kinds(c.sessions, c.turso, c.tailwind)[i],
                    c.app_name@,
                ),
{
    let kinds = dir_kinds(c.sessions, c.turso, c.tailwind);
    let dirs = planned_dirs(root, c);
    lemma_parents_first(c.sessions, c.turso, c.tailwind);
    assert(dirs[0] =~= root);
    assert forall|i: int| 0 < i < dirs.len() implies exists|j: int|
        0 <= j < i && #[trigger] dirs[i] == dirs[j] + "/"@ + dir_leaf(kinds[i], c.app_name@) by {
        let j = choose|j: int| 0 <= j < i && kinds[j] == dir_parent(kinds[i]);
        lemma_dir_kind_at(c.sessions, c.turso, c.tailwind, i);
        lemma_dir_in_parent(root, kinds[i], c.app_name@);
        assert(dirs[i] == dirs[j] + "/"@ + dir_leaf(kinds[i], c.app_name@));
    }
}

} // verus!
