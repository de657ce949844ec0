use vstd::prelude::*;
use vstd::string::*;

use crate::config::Config;
use crate::layout::{app_name_ok, context_name, context_type_name, ctx_name_of, ctx_type_of, FileKind};
use crate::templates::{
    cmd_fixed_len, cmd_module_slots, lemma_cmd_fixed_len, lemma_cmd_templates_distinct,
    lemma_template_text_hash_free, segments, text_len_sum, template_segments, CmdVariant, Segment, Slot, Template,
};
use crate::text::{
    has_marker, hash_free, lemma_hash_free_concat, lemma_hash_free_no_marker, lemma_join_no_marker,
};

verus! {

/// The values put into the slots of a template.
pub ghost struct Fill {
    pub name: Seq<char>,
    pub module: Seq<char>,
    pub ctx_name: Seq<char>,
    pub ctx_type: Seq<char>,
    pub imports: Seq<char>,
    pub session_store: Seq<char>,
    pub db_field: Seq<char>,
    pub css: Seq<char>,
    pub title: Seq<char>,
    pub htmx: Seq<char>,
}

/// The slot values of one project, computed once and shared by every template.
pub struct Substitutions {
    pub name: String,
    pub module: String,
    pub ctx_name: String,
    pub ctx_type: String,
    pub imports: String,
    pub session_store: String,
    pub db_field: String,
    pub css: String,
    pub title: String,
    pub htmx: String,
}

impl View for Substitutions {
    type V = Fill;

    open spec fn view(&self) -> Fill {
        Fill {
            name: self.name@,
            module: self.module@,
            ctx_name: self.ctx_name@,
            ctx_type: self.ctx_type@,
            imports: self.imports@,
            session_store: self.session_store@,
            db_field: self.db_field@,
            css: self.css@,
            title: self.title@,
            htmx: self.htmx@,
        }
    }
}

pub open spec fn slot_text(s: Slot, f: Fill) -> Seq<char> {
    match s {
        Slot::Name => f.name,
        Slot::ModPath => f.module,
        Slot::CtxName => f.ctx_name,
        Slot::CtxType => f.ctx_type,
        Slot::Imports => f.imports,
        Slot::SessionStore => f.session_store,
        Slot::DbField => f.db_field,
        Slot::Css => f.css,
        Slot::Title => f.title,
        Slot::Htmx => f.htmx,
    }
}

pub open spec fn segment_text(g: Segment, f: Fill) -> Seq<char> {
    g.text@ + match g.slot {
        Some(s) => slot_text(s, f),
        None => Seq::empty(),
    }
}

/// A template rendered: each segment's text followed by its slot's value.
pub open spec fn rendered(t: Seq<Segment>, f: Fill) -> Seq<char>
    decreases t.len(),
{
    if t.len() == 0 {
        Seq::empty()
    } else {
        rendered(t.drop_last(), f) + segment_text(t.last(), f)
    }
}

/// The import block of the context source: the web framework, then the session
/// store, then the project's database package.
pub open spec fn imports_of(sessions: bool, turso: bool, module: Seq<char>) -> Seq<char> {
    "\"github.com/labstack/echo/v4\""@
        + (if sessions { "\n\t\"github.com/gorilla/sessions\""@ } else { Seq::empty() })
        + (if turso { "\n\t\""@ + module + "/internal/db\""@ } else { Seq::empty() })
}

pub open spec fn fill_of(c: Config, module: Seq<char>) -> Fill {
    Fill {
        name: c.app_name@,
        module: module,
        ctx_name: ctx_name_of(c.app_name@),
        ctx_type: ctx_type_of(c.app_name@),
        imports: imports_of(c.sessions, c.turso, module),
        session_store: if c.sessions { "Store *sessions.CookieStore"@ } else { Seq::empty() },
        db_field: if c.turso { "DB *db.DB"@ } else { Seq::empty() },
        css: if c.tailwind { "<link rel=\"stylesheet\" href=\"/css/index.css\">"@ } else { Seq::empty() },
        title: if c.tailwind {
            "<h1 class=\"text-xl\">"@ + c.app_name@ + "</h1>"@
        } else {
            "<h1>"@ + c.app_name@ + "</h1>"@
        },
        htmx: if c.htmx {
            "<script src=\"https://unpkg.com/htmx.org@1.9.10\"></script>"@
        } else {
            Seq::empty()
        },
    }
}

/// The entry-point variant for a combination of the database, sessions and stylesheet flags.
pub open spec fn cmd_variant(turso: bool, sessions: bool, tailwind: bool) -> CmdVariant {
    if turso && sessions && tailwind {
        CmdVariant::Full
    } else if turso && sessions {
        CmdVariant::TursoSession
    } else if turso && tailwind {
        CmdVariant::TursoTailwind
    } else if turso {
        CmdVariant::Turso
    } else if sessions && tailwind {
        CmdVariant::SessionTailwind
    } else if sessions {
        CmdVariant::Session
    } else if tailwind {
        CmdVariant::Tailwind
    } else {
        CmdVariant::Plain
    }
}

pub const GITIGNORE_BASE: &'static str = "bin\n\n.env\n\n";

pub const GITIGNORE_DB: &'static str = "testdb\n\n";

pub const GITIGNORE_CSS: &'static str = "public/css\n\n";

pub const GITIGNORE_AIR: &'static str = "tmp\n\n";

/// The blocks of the ignore file, in order: the base entries, then the database,
/// stylesheet and live-reload entries that the flags ask for.
pub open spec fn gitignore_blocks(turso: bool, tailwind: bool, air: bool) -> Seq<Seq<char>> {
    seq![GITIGNORE_BASE@]
        + (if turso { seq![GITIGNORE_DB@] } else { Seq::empty() })
        + (if tailwind { seq![GITIGNORE_CSS@] } else { Seq::empty() })
        + (if air { seq![GITIGNORE_AIR@] } else { Seq::empty() })
}

pub open spec fn gitignore_text(turso: bool, tailwind: bool, air: bool) -> Seq<char> {
    GITIGNORE_BASE@
        + (if turso { GITIGNORE_DB@ } else { Seq::empty() })
        + (if tailwind { GITIGNORE_CSS@ } else { Seq::empty() })
        + (if air { GITIGNORE_AIR@ } else { Seq::empty() })
}

pub const MAKEFILE_BASE: &'static str = ".PHONY: all\nall:\n\tgo build -o bin/main\n\n";

pub const MAKEFILE_DEV: &'static str = ".PHONY: dev\n.dev:\n\tair";

pub const MAKEFILE_DEV_CSS: &'static str = " & pnpm css\n\n";

pub const MAKEFILE_DEV_END: &'static str = "\n\n";

pub open spec fn makefile_text(tailwind: bool, air: bool) -> Seq<char> {
    MAKEFILE_BASE@ + if air {
        MAKEFILE_DEV@ + if tailwind { MAKEFILE_DEV_CSS@ } else { MAKEFILE_DEV_END@ }
    } else {
        Seq::empty()
    }
}

pub const ENV_GO_HEAD: &'static str = "package env\n\nimport \"os\"\n\n";

pub const ENV_GO_SESSION: &'static str = "func GetSessionSecret() string {\n    return os.Getenv(\"SESSION_SECRET\")\n}";

pub const ENV_GO_DB: &'static str = "\n\nfunc GetDBUrl() string {\n    isProduction := os.Getenv(\"PRODUCTION\")\n    if isProduction == \"true\" {\n        return os.Getenv(\"PROD_DB_URL\")\n    } else {\n        return os.Getenv(\"DBURL\")\n    }\n}";

pub open spec fn env_go_text(sessions: bool, turso: bool) -> Seq<char> {
    ENV_GO_HEAD@ + (if sessions { ENV_GO_SESSION@ } else { Seq::empty() }) + (if turso {
        ENV_GO_DB@
    } else {
        Seq::empty()
    })
}

/// The full text of each planned file.
pub open spec fn file_content(k: FileKind, c: Config, module: Seq<char>) -> Seq<char> {
    let f = fill_of(c, module);
    match k {
        FileKind::MainGo => rendered(segments(Template::MainGo), f),
        FileKind::Gitignore => gitignore_text(c.turso, c.tailwind, c.air),
        FileKind::DotEnv => rendered(segments(Template::DotEnv), f),
        FileKind::Makefile => makefile_text(c.tailwind, c.air),
        FileKind::RootGo => rendered(segments(Template::RootGo), f),
        FileKind::CtxGo => rendered(segments(Template::CtxGo), f),
        FileKind::EnvGo => env_go_text(c.sessions, c.turso),
        FileKind::RenderGo => rendered(segments(Template::RenderGo), f),
        FileKind::IndexHtml => rendered(segments(Template::IndexHtml), f),
        FileKind::CmdMainGo => rendered(
            segments(Template::Cmd(cmd_variant(c.turso, c.sessions, c.tailwind))),
            f,
        ),
        FileKind::DbGo => rendered(segments(Template::DbGo), f),
        FileKind::TestDbFile => Seq::empty(),
        FileKind::IndexCss => rendered(segments(Template::IndexCss), f),
    }
}

fn slot_str<'a>(s: Slot, v: &'a Substitutions) -> (r: &'a str)
    ensures
        r@ == slot_text(s, v@),
{
    match s {
        Slot::Name => v.name.as_str(),
        Slot::ModPath => v.module.as_str(),
        Slot::CtxName => v.ctx_name.as_str(),
        Slot::CtxType => v.ctx_type.as_str(),
        Slot::Imports => v.imports.as_str(),
        Slot::SessionStore => v.session_store.as_str(),
        Slot::DbField => v.db_field.as_str(),
        Slot::Css => v.css.as_str(),
        Slot::Title => v.title.as_str(),
        Slot::Htmx => v.htmx.as_str(),
    }
}

/// Renders a template: every slot is replaced by its value, an empty one where
/// the flags leave it unused.
pub fn render(t: &Vec<Segment>, v: &Substitutions) -> (r: String)
    ensures
        r@ == rendered(t@, v@),
{
    let mut r = String::new();
    let mut i: usize = 0;
    while i < t.len()
        invariant
            i <= t@.len(),
            r@ == rendered(t@.take(i as int), v@),
        decreases t.len() - i,
    {
        let g = t[i];
        r.append(g.text);
        match g.slot {
            Some(s) => r.append(slot_str(s, v)),
            None => {},
        }
        assert(t@.take(i + 1).drop_last() =~= t@.take(i as int));
        assert(t@.take(i + 1).last() == g);
        i = i + 1;
    }
    assert(t@.take(i as int) =~= t@);
    r
}

pub fn substitutions(c: &Config, module: &str) -> (r: Substitutions)
    requires
        app_name_ok(c.app_name@),
    ensures
        r@ == fill_of(*c, module@),
{
    let mut imports = String::from_str("\"github.com/labstack/echo/v4\"");
    if c.sessions {
        imports.append("\n\t\"github.com/gorilla/sessions\"");
    }
    if c.turso {
        imports.append("\n\t\"");
        imports.append(module);
        imports.append("/internal/db\"");
    }
    let mut title = String::from_str(if c.tailwind { "<h1 class=\"text-xl\">" } else { "<h1>" });
    title.append(c.app_name.as_str());
    title.append("</h1>");
    let r = Substitutions {
        name: c.app_name.clone(),
        module: String::from_str(module),
        ctx_name: context_name(c.app_name.as_str()),
        ctx_type: context_type_name(c.app_name.as_str()),
        imports,
        session_store: String::from_str(if c.sessions { "Store *sessions.CookieStore" } else { "" }),
        db_field: String::from_str(if c.turso { "DB *db.DB" } else { "" }),
        css: String::from_str(
            if c.tailwind { "<link rel=\"stylesheet\" href=\"/css/index.css\">" } else { "" },
        ),
        title,
        htmx: String::from_str(
            if c.htmx { "<script src=\"https://unpkg.com/htmx.org@1.9.10\"></script>" } else { "" },
        ),
    };
    proof {
        reveal_strlit("");
    }
    assert(r@.imports =~= imports_of(c.sessions, c.turso, module@));
    assert(r@.title =~= fill_of(*c, module@).title);
    assert(r@.session_store =~= fill_of(*c, module@).session_store);
    assert(r@.db_field =~= fill_of(*c, module@).db_field);
    assert(r@.css =~= fill_of(*c, module@).css);
    assert(r@.htmx =~= fill_of(*c, module@).htmx);
    r
}

pub fn select_cmd_variant(turso: bool, sessions: bool, tailwind: bool) -> (r: CmdVariant)
    ensures
        r == cmd_variant(turso, sessions, tailwind),
{
    if turso && sessions && tailwind {
        CmdVariant::Full
    } else if turso && sessions {
        CmdVariant::TursoSession
    } else if turso && tailwind {
        CmdVariant::TursoTailwind
    } else if turso {
        CmdVariant::Turso
    } else if sessions && tailwind {
        CmdVariant::SessionTailwind
    } else if sessions {
        CmdVariant::Session
    } else if tailwind {
        CmdVariant::Tailwind
    } else {
        CmdVariant::Plain
    }
}

pub fn gitignore_text_content(turso: bool, tailwind: bool, air: bool) -> (r: String)
    ensures
        r@ == gitignore_text(turso, tailwind, air),
{
    let mut r = String::from_str(GITIGNORE_BASE);
    if turso {
        r.append(GITIGNORE_DB);
    }
    if tailwind {
        r.append(GITIGNORE_CSS);
    }
    if air {
        r.append(GITIGNORE_AIR);
    }
    assert(r@ =~= gitignore_text(turso, tailwind, air));
    r
}

pub fn makefile_text_content(tailwind: bool, air: bool) -> (r: String)
    ensures
        r@ == makefile_text(tailwind, air),
{
    let mut r = String::from_str(MAKEFILE_BASE);
    if air {
        r.append(MAKEFILE_DEV);
        if tailwind {
            r.append(MAKEFILE_DEV_CSS);
        } else {
            r.append(MAKEFILE_DEV_END);
        }
    }
    assert(r@ =~= makefile_text(tailwind, air));
    r
}

pub fn env_text_content(sessions: bool, turso: bool) -> (r: String)
    ensures
        r@ == env_go_text(sessions, turso),
{
    let mut r = String::from_str(ENV_GO_HEAD);
    if sessions {
        r.append(ENV_GO_SESSION);
    }
    if turso {
        r.append(ENV_GO_DB);
    }
    assert(r@ =~= env_go_text(sessions, turso));
    r
}

fn render_template(t: Template, v: &Substitutions) -> (r: String)
    ensures
        r@ == rendered(segments(t), v@),
{
    let segs = template_segments(t);
    render(&segs, v)
}

/// The text of one planned file.
pub fn file_text_content(k: FileKind, c: &Config, v: &Substitutions) -> (r: String)
    requires
        v@ == fill_of(*c, v@.module),
    ensures
        r@ == file_content(k, *c, v@.module),
{
    match k {
        FileKind::MainGo => render_template(Template::MainGo, v),
        FileKind::Gitignore => gitignore_text_content(c.turso, c.tailwind, c.air),
        FileKind::DotEnv => render_template(Template::DotEnv, v),
        FileKind::Makefile => makefile_text_content(c.tailwind, c.air),
        FileKind::RootGo => render_template(Template::RootGo, v),
        FileKind::CtxGo => render_template(Template::CtxGo, v),
        FileKind::EnvGo => env_text_content(c.sessions, c.turso),
        FileKind::RenderGo => render_template(Template::RenderGo, v),
        FileKind::IndexHtml => render_template(Template::IndexHtml, v),
        FileKind::CmdMainGo => {
            let variant = select_cmd_variant(c.turso, c.sessions, c.tailwind);
            render_template(Template::Cmd(variant), v)
        },
        FileKind::DbGo => render_template(Template::DbGo, v),
        FileKind::TestDbFile => String::new(),
        FileKind::IndexCss => render_template(Template::IndexCss, v),
    }
}

/// No slot value holds a placeholder marker.
pub open spec fn fill_no_marker(f: Fill) -> bool {
    !has_marker(f.name) && !has_marker(f.module) && !has_marker(f.ctx_name) && !has_marker(f.ctx_type)
        && !has_marker(f.imports) && !has_marker(f.session_store) && !has_marker(f.db_field)
        && !has_marker(f.css) && !has_marker(f.title) && !has_marker(f.htmx)
}

proof fn lemma_rendered_no_marker(t: Seq<Segment>, f: Fill)
    requires
        fill_no_marker(f),
        forall|i: int| 0 <= i < t.len() ==> hash_free(#[trigger] t[i].text@) && t[i].text@.len() > 0,
    ensures
        !has_marker(rendered(t, f)),
    decreases t.len(),
{
    broadcast use lemma_hash_free_no_marker;

    if t.len() > 0 {
        assert forall|i: int| 0 <= i < t.drop_last().len() implies hash_free(#[trigger] t.drop_last()[i].text@)
            && t.drop_last()[i].text@.len() > 0 by {
            assert(t.drop_last()[i] == t[i]);
        }
        lemma_rendered_no_marker(t.drop_last(), f);
        let g = t[t.len() - 1];
        let r = rendered(t.drop_last(), f);
        assert(hash_free(g.text@) && g.text@.len() > 0);
        lemma_join_no_marker(r, g.text@);
        assert((r + g.text@).last() == g.text@.last());
        let v = match g.slot {
            Some(s) => slot_text(s, f),
            None => Seq::empty(),
        };
        assert(!has_marker(Seq::<char>::empty()));
        lemma_join_no_marker(r + g.text@, v);
        assert(rendered(t, f) =~= (r + g.text@) + v);
    }
}

proof fn lemma_fill_no_marker(c: Config, module: Seq<char>)
    requires
        crate::layout::app_name_ok(c.app_name@),
        !has_marker(c.app_name@),
        !has_marker(module),
    ensures
        fill_no_marker(fill_of(c, module)),
{
    broadcast use lemma_hash_free_concat, lemma_hash_free_no_marker, lemma_join_no_marker;

    let app = c.app_name@;
    reveal_strlit("ctx");
    reveal_strlit("Ctx");
    reveal_strlit("\"github.com/labstack/echo/v4\"");
    reveal_strlit("\n\t\"github.com/gorilla/sessions\"");
    reveal_strlit("\n\t\"");
    reveal_strlit("/internal/db\"");
    reveal_strlit("Store *sessions.CookieStore");
    reveal_strlit("DB *db.DB");
    reveal_strlit("<link rel=\"stylesheet\" href=\"/css/index.css\">");
    reveal_strlit("<h1 class=\"text-xl\">");
    reveal_strlit("<h1>");
    reveal_strlit("</h1>");
    reveal_strlit("<script src=\"https://unpkg.com/htmx.org@1.9.10\"></script>");
    let e = Seq::<char>::empty();
    assert(hash_free(e));
    let lo = seq![crate::text::ascii_lower(app[0])];
    let up = seq![crate::text::ascii_upper(app[0])];
    assert(!has_marker(lo));
    assert(!has_marker(up));
    lemma_join_no_marker(lo, "ctx"@);
    lemma_join_no_marker(up, "Ctx"@);
    let db = "\n\t\""@ + module;
    lemma_join_no_marker("\n\t\""@, module);
    lemma_join_no_marker(db, "/internal/db\""@);
    let base = "\"github.com/labstack/echo/v4\""@;
    let sess = if c.sessions { "\n\t\"github.com/gorilla/sessions\""@ } else { e };
    let dbi = if c.turso { db + "/internal/db\""@ } else { e };
    lemma_join_no_marker(base, sess);
    assert((base + sess).len() == 0 || (base + sess).last() == '"');
    lemma_join_no_marker(base + sess, dbi);
    let open = if c.tailwind { "<h1 class=\"text-xl\">"@ } else { "<h1>"@ };
    lemma_join_no_marker(open, app);
    lemma_join_no_marker(open + app, "</h1>"@);
    assert(fill_of(c, module).imports == base + sess + dbi);
}

/// With an app name and a module path that hold no placeholder marker, the text
/// of every planned file holds none either.
pub proof fn lemma_file_content_no_marker(k: FileKind, c: Config, module: Seq<char>)
    requires
        crate::layout::app_name_ok(c.app_name@),
        !has_marker(c.app_name@),
        !has_marker(module),
    ensures
        !has_marker(file_content(k, c, module)),
{
    broadcast use lemma_hash_free_concat, lemma_hash_free_no_marker;

    let f = fill_of(c, module);
    lemma_fill_no_marker(c, module);
    reveal_strlit("bin\n\n.env\n\n");
    reveal_strlit("testdb\n\n");
    reveal_strlit("public/css\n\n");
    reveal_strlit("tmp\n\n");
    reveal_strlit(".PHONY: all\nall:\n\tgo build -o bin/main\n\n");
    reveal_strlit(".PHONY: dev\n.dev:\n\tair");
    reveal_strlit(" & pnpm css\n\n");
    reveal_strlit("\n\n");
    reveal_strlit("package env\n\nimport \"os\"\n\n");
    reveal_strlit("func GetSessionSecret() string {\n    return os.Getenv(\"SESSION_SECRET\")\n}");
    reveal_strlit("\n\nfunc GetDBUrl() string {\n    isProduction := os.Getenv(\"PRODUCTION\")\n    if isProduction == \"true\" {\n        return os.Getenv(\"PROD_DB_URL\")\n    } else {\n        return os.Getenv(\"DBURL\")\n    }\n}");
    assert(hash_free(Seq::<char>::empty()));
    let t = match k {
        FileKind::MainGo => Template::MainGo,
        FileKind::DotEnv => Template::DotEnv,
        FileKind::RootGo => Template::RootGo,
        FileKind::CtxGo => Template::CtxGo,
        FileKind::RenderGo => Template::RenderGo,
        FileKind::IndexHtml => Template::IndexHtml,
        FileKind::CmdMainGo => Template::Cmd(cmd_variant(c.turso, c.sessions, c.tailwind)),
        FileKind::DbGo => Template::DbGo,
        _ => Template::IndexCss,
    };
    lemma_template_text_hash_free(t);
    lemma_rendered_no_marker(segments(t), f);
    match k {
        FileKind::Gitignore => assert(hash_free(gitignore_text(c.turso, c.tailwind, c.air))),
        FileKind::Makefile => assert(hash_free(makefile_text(c.tailwind, c.air))),
        FileKind::EnvGo => assert(hash_free(env_go_text(c.sessions, c.turso))),
        _ => {},
    }
}

/// Each of the eight combinations of the database, sessions and stylesheet flags
/// selects its own entry-point variant, and so its own template: no two
/// combinations share one.
pub proof fn lemma_cmd_variants_distinct(
    turso1: bool,
    sessions1: bool,
    tailwind1: bool,
    turso2: bool,
    sessions2: bool,
    tailwind2: bool,
)
    ensures
        cmd_variant(turso1, sessions1, tailwind1) == cmd_variant(turso2, sessions2, tailwind2) <==> (
        turso1 == turso2 && sessions1 == sessions2 && tailwind1 == tailwind2),
        (turso1 != turso2 || sessions1 != sessions2 || tailwind1 != tailwind2) ==> segments(
            Template::Cmd(cmd_variant(turso1, sessions1, tailwind1)),
        ) != segments(Template::Cmd(cmd_variant(turso2, sessions2, tailwind2))),
{
    let v1 = cmd_variant(turso1, sessions1, tailwind1);
    let v2 = cmd_variant(turso2, sessions2, tailwind2);
    if v1 != v2 {
        lemma_cmd_templates_distinct(v1, v2);
    }
}

/// The total length of the values put into a template's slots.
pub open spec fn slots_len(t: Seq<Segment>, f: Fill) -> int
    decreases t.len(),
{
    if t.len() == 0 {
        0
    } else {
        slots_len(t.drop_last(), f) + match t.last().slot {
            Some(s) => slot_text(s, f).len() as int,
            None => 0,
        }
    }
}

proof fn lemma_rendered_len(t: Seq<Segment>, f: Fill)
    ensures
        rendered(t, f).len() == text_len_sum(t) + slots_len(t, f),
    decreases t.len(),
{
    if t.len() > 0 {
        lemma_rendered_len(t.drop_last(), f);
    }
}

/// The length of a rendered entry point: its fixed text, each module-path slot,
/// the two context-name slots and the context-type slot.
proof fn lemma_cmd_rendered_len(v: CmdVariant, f: Fill)
    ensures
        rendered(segments(Template::Cmd(v)), f).len() == cmd_fixed_len(v) + cmd_module_slots(v) * f.module.len()
            + 2 * f.ctx_name.len() + f.ctx_type.len(),
{
    lemma_rendered_len(segments(Template::Cmd(v)), f);
    lemma_cmd_fixed_len(v);
    lemma_cmd_slots_len(v, f);
}

#[verifier::rlimit(50)]
proof fn lemma_cmd_slots_len(v: CmdVariant, f: Fill)
    ensures
        slots_len(segments(Template::Cmd(v)), f) == cmd_module_slots(v) * f.module.len() + 2 * f.ctx_name.len()
            + f.ctx_type.len(),
{
    reveal_with_fuel(slots_len, 10);
    let t = segments(Template::Cmd(v));
    match v {
        CmdVariant::Plain => assert(slots_len(t, f) == 3 * f.module.len() + 2 * f.ctx_name.len() + f.ctx_type.len()),
        CmdVariant::Session => assert(slots_len(t, f) == 4 * f.module.len() + 2 * f.ctx_name.len() + f.ctx_type.len()),
        CmdVariant::Tailwind => assert(slots_len(t, f) == 3 * f.module.len() + 2 * f.ctx_name.len() + f.ctx_type.len()),
        CmdVariant::SessionTailwind => assert(slots_len(t, f) == 4 * f.module.len() + 2 * f.ctx_name.len() + f.ctx_type.len()),
        CmdVariant::Turso => assert(slots_len(t, f) == 5 * f.module.len() + 2 * f.ctx_name.len() + f.ctx_type.len()),
        CmdVariant::TursoSession => assert(slots_len(t, f) == 5 * f.module.len() + 2 * f.ctx_name.len() + f.ctx_type.len()),
        CmdVariant::TursoTailwind => assert(slots_len(t, f) == 5 * f.module.len() + 2 * f.ctx_name.len() + f.ctx_type.len()),
        CmdVariant::Full => assert(slots_len(t, f) == 5 * f.module.len() + 2 * f.ctx_name.len() + f.ctx_type.len()),
    }
}

/// Two configurations with the same app name whose database, sessions and
/// stylesheet flags differ get different entry-point texts, whatever the module path.
pub proof fn lemma_cmd_texts_distinct(c1: Config, c2: Config, module: Seq<char>)
    requires
        c1.app_name@ == c2.app_name@,
        c1.turso != c2.turso || c1.sessions != c2.sessions || c1.tailwind != c2.tailwind,
    ensures
        file_content(FileKind::CmdMainGo, c1, module) != file_content(FileKind::CmdMainGo, c2, module),
{
    let v1 = cmd_variant(c1.turso, c1.sessions, c1.tailwind);
    let v2 = cmd_variant(c2.turso, c2.sessions, c2.tailwind);
    let f1 = fill_of(c1, module);
    let f2 = fill_of(c2, module);
    lemma_cmd_rendered_len(v1, f1);
    lemma_cmd_rendered_len(v2, f2);
    let m = module.len() as int;
    assert(m >= 0);
    match v1 {
        CmdVariant::Plain => assert(cmd_module_slots(v1) * m == 3 * m),
        CmdVariant::Tailwind => assert(cmd_module_slots(v1) * m == 3 * m),
        CmdVariant::Session => assert(cmd_module_slots(v1) * m == 4 * m),
        CmdVariant::SessionTailwind => assert(cmd_module_slots(v1) * m == 4 * m),
        _ => assert(cmd_module_slots(v1) * m == 5 * m),
    }
    match v2 {
        CmdVariant::Plain => assert(cmd_module_slots(v2) * m == 3 * m),
        CmdVariant::Tailwind => assert(cmd_module_slots(v2) * m == 3 * m),
        CmdVariant::Session => assert(cmd_module_slots(v2) * m == 4 * m),
        CmdVariant::SessionTailwind => assert(cmd_module_slots(v2) * m == 4 * m),
        _ => assert(cmd_module_slots(v2) * m == 5 * m),
    }
    assert(rendered(segments(Template::Cmd(v1)), f1).len() != rendered(segments(Template::Cmd(v2)), f2).len());
}

/// The ignore file is its blocks one after another: the base entries first, then
/// the database, stylesheet and live-reload entries in that order, each block
/// ending in a blank line.
pub proof fn lemma_gitignore_layout(turso: bool, tailwind: bool, air: bool)
    ensures
        gitignore_text(turso, tailwind, air) == gitignore_blocks(turso, tailwind, air).flatten(),
        gitignore_blocks(turso, tailwind, air)[0] == GITIGNORE_BASE@,
        forall|i: int|
            0 <= i < gitignore_blocks(turso, tailwind, air).len() ==> ends_with_blank_line(
                #[trigger] gitignore_blocks(turso, tailwind, air)[i],
            ),
        forall|i: int, j: int|
            0 <= i < j < gitignore_blocks(turso, tailwind, air).len() ==> gitignore_rank(
                #[trigger] gitignore_blocks(turso, tailwind, air)[i],
            ) < gitignore_rank(#[trigger] gitignore_blocks(turso, tailwind, air)[j]),
{
    reveal_strlit("bin\n\n.env\n\n");
    reveal_strlit("testdb\n\n");
    reveal_strlit("public/css\n\n");
    reveal_strlit("tmp\n\n");
    let e = Seq::<Seq<char>>::empty();
    let a = seq![GITIGNORE_BASE@];
    let b = if turso { seq![GITIGNORE_DB@] } else { e };
    let c = if tailwind { seq![GITIGNORE_CSS@] } else { e };
    let d = if air { seq![GITIGNORE_AIR@] } else { e };
    vstd::seq_lib::lemma_flatten_concat(a + b + c, d);
    vstd::seq_lib::lemma_flatten_concat(a + b, c);
    vstd::seq_lib::lemma_flatten_concat(a, b);
    a.lemma_flatten_singleton();
    if turso {
        b.lemma_flatten_singleton();
    }
    if tailwind {
        c.lemma_flatten_singleton();
    }
    if air {
        d.lemma_flatten_singleton();
    }
    assert(e.flatten() == Seq::<char>::empty());
    assert(gitignore_text(turso, tailwind, air) =~= gitignore_blocks(turso, tailwind, air).flatten());
}

pub open spec fn ends_with_blank_line(b: Seq<char>) -> bool {
    b.len() >= 2 && b[b.len() - 2] == '\n' && b[b.len() - 1] == '\n'
}

/// The place of each block of the ignore file in the fixed order.
pub open spec fn gitignore_rank(b: Seq<char>) -> int {
    if b == GITIGNORE_BASE@ {
        0
    } else if b == GITIGNORE_DB@ {
        1
    } else if b == GITIGNORE_CSS@ {
        2
    } else {
        3
    }
}

} // verus!
