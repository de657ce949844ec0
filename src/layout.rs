use vstd::prelude::*;
use vstd::string::*;

use crate::text::{ascii_lower, ascii_upper, is_ascii_char, push_char, to_ascii_lower, to_ascii_upper};

verus! {

/// An app name from which the context identifiers can be derived: it is not
/// empty and its first character is ASCII.
pub open spec fn app_name_ok(app: Seq<char>) -> bool {
    app.len() > 0 && is_ascii_char(app[0])
}

/// The context package and variable name: the first character in lower case, then `ctx`.
pub open spec fn ctx_name_of(app: Seq<char>) -> Seq<char> {
    seq![ascii_lower(app[0])] + "ctx"@
}

/// The context type name: the first character in upper case, then `Ctx`.
pub open spec fn ctx_type_of(app: Seq<char>) -> Seq<char> {
    seq![ascii_upper(app[0])] + "Ctx"@
}

/// `github.com/<user>/<app>` when a user name is known, else the app name alone.
pub open spec fn module_path_of(app: Seq<char>, user: Option<Seq<char>>) -> Seq<char> {
    match user {
        Some(u) => "github.com/"@ + u + "/"@ + app,
        None => app,
    }
}

/// Whether the environment helper (its directory, `env.go` and `.env`) is generated:
/// only where there is something for it to read, a session secret or a database URL.
pub open spec fn wants_env(sessions: bool, turso: bool) -> bool {
    sessions || turso
}

pub fn context_name(app_name: &str) -> (r: String)
    requires
        app_name_ok(app_name@),
    ensures
        r@ == ctx_name_of(app_name@),
{
    let c = app_name.get_char(0);
    let mut r = String::new();
    push_char(&mut r, to_ascii_lower(c));
    r.append("ctx");
    r
}

pub fn context_type_name(app_name: &str) -> (r: String)
    requires
        app_name_ok(app_name@),
    ensures
        r@ == ctx_type_of(app_name@),
{
    let c = app_name.get_char(0);
    let mut r = String::new();
    push_char(&mut r, to_ascii_upper(c));
    r.append("Ctx");
    r
}

pub fn resolve_module_path(app_name: &str, user: Option<&str>) -> (r: String)
    ensures
        r@ == module_path_of(
            app_name@,
            match user {
                Some(u) => Some(u@),
                None => None,
            },
        ),
{
    match user {
        Some(u) => {
            let mut r = String::from_str("github.com/");
            r.append(u);
            r.append("/");
            r.append(app_name);
            r
        },
        None => String::from_str(app_name),
    }
}

/// The directories of a generated project.
#[derive(Clone, Copy, Debug, PartialEq, Eq, Structural)]
pub enum DirKind {
    Root,
    Cmd,
    CmdApp,
    Internal,
    Routes,
    Ctx,
    Env,
    Render,
    Public,
    TestDb,
    Db,
    Css,
}

/// Where a directory lies below the project root (`""` for the root itself).
pub open spec fn dir_suffix(k: DirKind, app: Seq<char>) -> Seq<char> {
    match k {
        DirKind::Root => Seq::empty(),
        DirKind::Cmd => "/cmd"@,
        DirKind::CmdApp => "/cmd/"@ + app,
        DirKind::Internal => "/internal"@,
        DirKind::Routes => "/internal/routes"@,
        DirKind::Ctx => "/internal/"@ + ctx_name_of(app),
        DirKind::Env => "/internal/env"@,
        DirKind::Render => "/internal/render"@,
        DirKind::Public => "/public"@,
        DirKind::TestDb => "/testdb"@,
        DirKind::Db => "/internal/db"@,
        DirKind::Css => "/css"@,
    }
}

pub open spec fn dir_path(root: Seq<char>, k: DirKind, app: Seq<char>) -> Seq<char> {
    root + dir_suffix(k, app)
}

/// The directories to create, parents before children.
pub open spec fn dir_kinds(sessions: bool, turso: bool, tailwind: bool) -> Seq<DirKind> {
    seq![DirKind::Root, DirKind::Cmd, DirKind::CmdApp, DirKind::Internal, DirKind::Routes, DirKind::Ctx]
        + (if wants_env(sessions, turso) { seq![DirKind::Env] } else { Seq::empty() })
        + seq![DirKind::Render, DirKind::Public]
        + (if turso { seq![DirKind::TestDb, DirKind::Db] } else { Seq::empty() })
        + (if tailwind { seq![DirKind::Css] } else { Seq::empty() })
}

/// Reads back which directory a suffix names; `dir_suffix` is thereby one to one.
spec fn dir_kind_of(s: Seq<char>) -> DirKind {
    if s.len() == 0 {
        DirKind::Root
    } else if s[1] == 'c' {
        if s[2] == 's' {
            DirKind::Css
        } else if s.len() == 4 {
            DirKind::Cmd
        } else {
            DirKind::CmdApp
        }
    } else if s[1] == 'p' {
        DirKind::Public
    } else if s[1] == 't' {
        DirKind::TestDb
    } else if s.len() == 9 {
        DirKind::Internal
    } else if s.len() == 14 {
        DirKind::Ctx
    } else if s.len() == 13 {
        DirKind::Env
    } else if s.len() == 12 {
        DirKind::Db
    } else if s[11] == 'o' {
        DirKind::Routes
    } else {
        DirKind::Render
    }
}

proof fn lemma_dir_kind_of_suffix(k: DirKind, app: Seq<char>)
    requires
        app_name_ok(app),
    ensures
        dir_kind_of(dir_suffix(k, app)) == k,
{
    reveal_strlit("/cmd");
    reveal_strlit("/cmd/");
    reveal_strlit("/internal");
    reveal_strlit("/internal/routes");
    reveal_strlit("/internal/");
    reveal_strlit("ctx");
    reveal_strlit("/internal/env");
    reveal_strlit("/internal/render");
    reveal_strlit("/public");
    reveal_strlit("/testdb");
    reveal_strlit("/internal/db");
    reveal_strlit("/css");
}

proof fn lemma_prefix_cancel(root: Seq<char>, a: Seq<char>, b: Seq<char>)
    requires
        root + a == root + b,
    ensures
        a == b,
{
    assert(a =~= (root + a).subrange(root.len() as int, (root + a).len() as int));
    assert(b =~= (root + b).subrange(root.len() as int, (root + b).len() as int));
}

pub proof fn lemma_dir_path_injective(root: Seq<char>, k1: DirKind, k2: DirKind, app: Seq<char>)
    requires
        app_name_ok(app),
        dir_path(root, k1, app) == dir_path(root, k2, app),
    ensures
        k1 == k2,
{
    lemma_prefix_cancel(root, dir_suffix(k1, app), dir_suffix(k2, app));
    lemma_dir_kind_of_suffix(k1, app);
    lemma_dir_kind_of_suffix(k2, app);
}

/// The directory that holds each directory (the root holds itself).
pub open spec fn dir_parent(k: DirKind) -> DirKind {
    match k {
        DirKind::Root | DirKind::Cmd | DirKind::Internal | DirKind::Public | DirKind::TestDb | DirKind::Css => DirKind::Root,
        DirKind::CmdApp => DirKind::Cmd,
        _ => DirKind::Internal,
    }
}

/// The last component of each directory's path.
pub open spec fn dir_leaf(k: DirKind, app: Seq<char>) -> Seq<char> {
    match k {
        DirKind::Root => Seq::empty(),
        DirKind::Cmd => "cmd"@,
        DirKind::CmdApp => app,
        DirKind::Internal => "internal"@,
        DirKind::Routes => "routes"@,
        DirKind::Ctx => ctx_name_of(app),
        DirKind::Env => "env"@,
        DirKind::Render => "render"@,
        DirKind::Public => "public"@,
        DirKind::TestDb => "testdb"@,
        DirKind::Db => "db"@,
        DirKind::Css => "css"@,
    }
}

/// Every directory but the root lies directly inside its parent.
pub proof fn lemma_dir_in_parent(root: Seq<char>, k: DirKind, app: Seq<char>)
    requires
        k != DirKind::Root,
    ensures
        dir_path(root, k, app) == dir_path(root, dir_parent(k), app) + "/"@ + dir_leaf(k, app),
{
    reveal_strlit("/");
    reveal_strlit("/cmd");
    reveal_strlit("/cmd/");
    reveal_strlit("/internal");
    reveal_strlit("/internal/routes");
    reveal_strlit("/internal/");
    reveal_strlit("/internal/env");
    reveal_strlit("/internal/render");
    reveal_strlit("/public");
    reveal_strlit("/testdb");
    reveal_strlit("/internal/db");
    reveal_strlit("/css");
    reveal_strlit("cmd");
    reveal_strlit("internal");
    reveal_strlit("routes");
    reveal_strlit("env");
    reveal_strlit("render");
    reveal_strlit("public");
    reveal_strlit("testdb");
    reveal_strlit("db");
    reveal_strlit("css");
    assert(dir_path(root, k, app) =~= dir_path(root, dir_parent(k), app) + "/"@ + dir_leaf(k, app));
}

pub(crate) proof fn lemma_dir_kind_at(sessions: bool, turso: bool, tailwind: bool, i: int)
    requires
        0 <= i < dir_kinds(sessions, turso, tailwind).len(),
    ensures
        i >= 1 ==> dir_kinds(sessions, turso, tailwind)[i] != DirKind::Root,
        i >= 3 ==> dir_parent(dir_kinds(sessions, turso, tailwind)[i]) != DirKind::Cmd,
        i >= 4 ==> dir_kinds(sessions, turso, tailwind)[i] != DirKind::Internal,
{
}

/// Directories are created one at a time, without creating missing parents, so
/// the list puts the root first and each other directory after its parent.
pub proof fn lemma_parents_first(sessions: bool, turso: bool, tailwind: bool)
    ensures
        dir_kinds(sessions, turso, tailwind)[0] == DirKind::Root,
        forall|i: int|
            0 < i < dir_kinds(sessions, turso, tailwind).len() ==> exists|j: int|
                0 <= j < i && dir_kinds(sessions, turso, tailwind)[j] == dir_parent(
                    #[trigger] dir_kinds(sessions, turso, tailwind)[i],
                ),
{
    let kinds = dir_kinds(sessions, turso, tailwind);
    assert(kinds[0] == DirKind::Root && kinds[1] == DirKind::Cmd && kinds[2] == DirKind::CmdApp
        && kinds[3] == DirKind::Internal);
    assert forall|i: int| 0 < i < kinds.len() implies exists|j: int|
        0 <= j < i && kinds[j] == dir_parent(#[trigger] kinds[i]) by {
        lemma_dir_kind_at(sessions, turso, tailwind, i);
        if i == 2 {
            assert(kinds[1] == dir_parent(kinds[i]));
        } else if i >= 4 && dir_parent(kinds[i]) == DirKind::Internal {
            assert(kinds[3] == dir_parent(kinds[i]));
        } else {
            assert(kinds[0] == dir_parent(kinds[i]));
        }
    }
}

/// The files of a generated project.
#[derive(Clone, Copy, Debug, PartialEq, Eq, Structural)]
pub enum FileKind {
    MainGo,
    Gitignore,
    DotEnv,
    Makefile,
    RootGo,
    CtxGo,
    EnvGo,
    RenderGo,
    IndexHtml,
    CmdMainGo,
    DbGo,
    TestDbFile,
    IndexCss,
}

/// Where a file lies below the project root.
pub open spec fn file_suffix(k: FileKind, app: Seq<char>) -> Seq<char> {
    match k {
        FileKind::MainGo => "/main.go"@,
        FileKind::Gitignore => "/.gitignore"@,
        FileKind::DotEnv => "/.env"@,
        FileKind::Makefile => "/Makefile"@,
        FileKind::RootGo => "/internal/routes/root.go"@,
        FileKind::CtxGo => "/internal/"@ + ctx_name_of(app) + "/"@ + ctx_name_of(app) + ".go"@,
        FileKind::EnvGo => "/internal/env/env.go"@,
        FileKind::RenderGo => "/internal/render/render.go"@,
        FileKind::IndexHtml => "/public/index.html"@,
        FileKind::CmdMainGo => "/cmd/"@ + app + "/main.go"@,
        FileKind::DbGo => "/internal/db/db.go"@,
        FileKind::TestDbFile => "/testdb/testdb.db"@,
        FileKind::IndexCss => "/css/index.css"@,
    }
}

pub open spec fn file_path(root: Seq<char>, k: FileKind, app: Seq<char>) -> Seq<char> {
    root + file_suffix(k, app)
}

/// The files to write, in the order in which they are planned.
pub open spec fn file_kinds(sessions: bool, turso: bool, tailwind: bool) -> Seq<FileKind> {
    seq![FileKind::MainGo, FileKind::Gitignore]
        + (if wants_env(sessions, turso) { seq![FileKind::DotEnv] } else { Seq::empty() })
        + seq![FileKind::Makefile, FileKind::RootGo, FileKind::CtxGo]
        + (if wants_env(sessions, turso) { seq![FileKind::EnvGo] } else { Seq::empty() })
        + seq![FileKind::RenderGo, FileKind::IndexHtml, FileKind::CmdMainGo]
        + (if turso { seq![FileKind::DbGo, FileKind::TestDbFile] } else { Seq::empty() })
        + (if tailwind { seq![FileKind::IndexCss] } else { Seq::empty() })
}

/// Reads back which file a suffix names; `file_suffix` is thereby one to one.
spec fn file_kind_of(s: Seq<char>) -> FileKind {
    if s[1] == 'm' {
        FileKind::MainGo
    } else if s[1] == '.' {
        if s.len() == 11 {
            FileKind::Gitignore
        } else {
            FileKind::DotEnv
        }
    } else if s[1] == 'M' {
        FileKind::Makefile
    } else if s[1] == 'p' {
        FileKind::IndexHtml
    } else if s[1] == 't' {
        FileKind::TestDbFile
    } else if s[1] == 'c' {
        if s[2] == 'm' {
            FileKind::CmdMainGo
        } else {
            FileKind::IndexCss
        }
    } else if s.len() == 24 {
        FileKind::RootGo
    } else if s.len() == 22 {
        FileKind::CtxGo
    } else if s.len() == 20 {
        FileKind::EnvGo
    } else if s.len() == 26 {
        FileKind::RenderGo
    } else {
        FileKind::DbGo
    }
}

proof fn lemma_file_kind_of_suffix(k: FileKind, app: Seq<char>)
    requires
        app_name_ok(app),
    ensures
        file_kind_of(file_suffix(k, app)) == k,
{
    reveal_strlit("/main.go");
    reveal_strlit("/.gitignore");
    reveal_strlit("/.env");
    reveal_strlit("/Makefile");
    reveal_strlit("/internal/routes/root.go");
    reveal_strlit("/internal/");
    reveal_strlit("ctx");
    reveal_strlit("/");
    reveal_strlit(".go");
    reveal_strlit("/internal/env/env.go");
    reveal_strlit("/internal/render/render.go");
    reveal_strlit("/public/index.html");
    reveal_strlit("/cmd/");
    reveal_strlit("/internal/db/db.go");
    reveal_strlit("/testdb/testdb.db");
    reveal_strlit("/css/index.css");
}

pub proof fn lemma_file_path_injective(root: Seq<char>, k1: FileKind, k2: FileKind, app: Seq<char>)
    requires
        app_name_ok(app),
        file_path(root, k1, app) == file_path(root, k2, app),
    ensures
        k1 == k2,
{
    lemma_prefix_cancel(root, file_suffix(k1, app), file_suffix(k2, app));
    lemma_file_kind_of_suffix(k1, app);
    lemma_file_kind_of_suffix(k2, app);
}

pub fn dir_kinds_for(sessions: bool, turso: bool, tailwind: bool) -> (r: Vec<DirKind>)
    ensures
        r@ == dir_kinds(sessions, turso, tailwind),
{
    let mut r = vec![DirKind::Root, DirKind::Cmd, DirKind::CmdApp, DirKind::Internal, DirKind::Routes, DirKind::Ctx];
    if sessions || turso {
        r.push(DirKind::Env);
    }
    r.push(DirKind::Render);
    r.push(DirKind::Public);
    if turso {
        r.push(DirKind::TestDb);
        r.push(DirKind::Db);
    }
    if tailwind {
        r.push(DirKind::Css);
    }
    assert(r@ =~= dir_kinds(sessions, turso, tailwind));
    r
}

pub fn file_kinds_for(sessions: bool, turso: bool, tailwind: bool) -> (r: Vec<FileKind>)
    ensures
        r@ == file_kinds(sessions, turso, tailwind),
{
    let mut r = vec![FileKind::MainGo, FileKind::Gitignore];
    if sessions || turso {
        r.push(FileKind::DotEnv);
    }
    r.push(FileKind::Makefile);
    r.push(FileKind::RootGo);
    r.push(FileKind::CtxGo);
    if sessions || turso {
        r.push(FileKind::EnvGo);
    }
    r.push(FileKind::RenderGo);
    r.push(FileKind::IndexHtml);
    r.push(FileKind::CmdMainGo);
    if turso {
        r.push(FileKind::DbGo);
        r.push(FileKind::TestDbFile);
    }
    if tailwind {
        r.push(FileKind::IndexCss);
    }
    assert(r@ =~= file_kinds(sessions, turso, tailwind));
    r
}

/// The path of a directory: the project root followed by its suffix.
pub fn dir_path_of(root: &str, k: DirKind, app_name: &str) -> (r: String)
    requires
        app_name_ok(app_name@),
    ensures
        r@ == dir_path(root@, k, app_name@),
{
    let mut r = String::from_str(root);
    match k {
        DirKind::Root => {},
        DirKind::Cmd => r.append("/cmd"),
        DirKind::CmdApp => {
            r.append("/cmd/");
            r.append(app_name);
        },
        DirKind::Internal => r.append("/internal"),
        DirKind::Routes => r.append("/internal/routes"),
        DirKind::Ctx => {
            let ctx = context_name(app_name);
            r.append("/internal/");
            r.append(ctx.as_str());
        },
        DirKind::Env => r.append("/internal/env"),
        DirKind::Render => r.append("/internal/render"),
        DirKind::Public => r.append("/public"),
        DirKind::TestDb => r.append("/testdb"),
        DirKind::Db => r.append("/internal/db"),
        DirKind::Css => r.append("/css"),
    }
    assert(r@ =~= dir_path(root@, k, app_name@));
    r
}

/// The path of a file: the project root followed by its suffix.
pub fn file_path_of(root: &str, k: FileKind, app_name: &str) -> (r: String)
    requires
        app_name_ok(app_name@),
    ensures
        r@ == file_path(root@, k, app_name@),
{
    let mut r = String::from_str(root);
    match k {
        FileKind::MainGo => r.append("/main.go"),
        FileKind::Gitignore => r.append("/.gitignore"),
        FileKind::DotEnv => r.append("/.env"),
        FileKind::Makefile => r.append("/Makefile"),
        FileKind::RootGo => r.append("/internal/routes/root.go"),
        FileKind::CtxGo => {
            let ctx = context_name(app_name);
            r.append("/internal/");
            r.append(ctx.as_str());
            r.append("/");
            r.append(ctx.as_str());
            r.append(".go");
        },
        FileKind::EnvGo => r.append("/internal/env/env.go"),
        FileKind::RenderGo => r.append("/internal/render/render.go"),
        FileKind::IndexHtml => r.append("/public/index.html"),
        FileKind::CmdMainGo => {
            r.append("/cmd/");
            r.append(app_name);
            r.append("/main.go");
        },
        FileKind::DbGo => r.append("/internal/db/db.go"),
        FileKind::TestDbFile => r.append("/testdb/testdb.db"),
        FileKind::IndexCss => r.append("/css/index.css"),
    }
    assert(r@ =~= file_path(root@, k, app_name@));
    r
}

} // verus!
