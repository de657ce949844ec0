use go_scaffold::config::{Config, ConfigBuilder};
use go_scaffold::content::{
    file_text_content, gitignore_text_content, makefile_text_content, select_cmd_variant,
    substitutions,
};
use go_scaffold::layout::{context_name, context_type_name, resolve_module_path, FileKind};
use go_scaffold::plan::AppBuilder;
use go_scaffold::templates::CmdVariant;

fn config(name: &str, sessions: bool, turso: bool, htmx: bool, tailwind: bool, air: bool) -> Config {
    ConfigBuilder::new()
        .add_app_name(name.to_string())
        .add_sessions(sessions)
        .add_turso(turso)
        .add_htmx(htmx)
        .add_tailwind(tailwind)
        .add_air(air)
        .out()
}

fn all_configs(name: &str) -> Vec<Config> {
    let mut r = Vec::new();
    for bits in 0..32u32 {
        r.push(config(
            name,
            bits & 1 != 0,
            bits & 2 != 0,
            bits & 4 != 0,
            bits & 8 != 0,
            bits & 16 != 0,
        ));
    }
    r
}

fn dirs_of(b: &AppBuilder) -> Vec<String> {
    b.plan().dirs_to_create().clone()
}

fn paths_of(b: &AppBuilder) -> Vec<String> {
    b.plan().file_to_text_map().iter().map(|e| e.0.clone()).collect()
}

fn text_of(b: &AppBuilder, path: &str) -> String {
    b.plan()
        .file_to_text_map()
        .iter()
        .find(|e| e.0 == path)
        .map(|e| e.1.clone())
        .unwrap()
}

#[test]
fn builder_defaults() {
    let c = ConfigBuilder::new().out();
    assert_eq!(c.app_name, "");
    assert!(!c.sessions && !c.turso && !c.htmx && !c.tailwind && !c.air);
}

#[test]
fn builder_keeps_set_values() {
    let c = ConfigBuilder::new().add_app_name("shop".to_string()).add_turso(true).add_air(true).out();
    assert_eq!(c.app_name, "shop");
    assert!(c.turso && c.air);
    assert!(!c.sessions && !c.htmx && !c.tailwind);
}

#[test]
fn context_identifiers_of_blog() {
    assert_eq!(context_name("blog"), "bctx");
    assert_eq!(context_type_name("blog"), "BCtx");
    let b = AppBuilder::new(config("blog", false, false, false, false, false), "/w", None);
    assert!(dirs_of(&b).contains(&"/w/blog/internal/bctx".to_string()));
    assert!(paths_of(&b).contains(&"/w/blog/internal/bctx/bctx.go".to_string()));
    let ctx = text_of(&b, "/w/blog/internal/bctx/bctx.go");
    assert!(ctx.starts_with("package bctx\n"));
    assert!(ctx.contains("type BCtx struct"));
}

#[test]
fn context_identifiers_lower_and_upper() {
    assert_eq!(context_name("Api"), "actx");
    assert_eq!(context_type_name("Api"), "ACtx");
}

#[test]
fn module_path_with_and_without_user() {
    assert_eq!(resolve_module_path("blog", Some("ann")), "github.com/ann/blog");
    assert_eq!(resolve_module_path("blog", None), "blog");
    let b = AppBuilder::new(config("blog", false, false, false, false, false), "/w", Some("ann"));
    assert_eq!(b.plan().mod_name(), "github.com/ann/blog");
    assert_eq!(b.plan().path_to_project(), "/w/blog");
    let main = text_of(&b, "/w/blog/main.go");
    assert!(main.contains("\"github.com/ann/blog/cmd/blog\""));
}

#[test]
fn baseline_layout() {
    let b = AppBuilder::new(config("blog", false, false, false, false, false), "/w", None);
    let dirs: Vec<&str> = vec![
        "/w/blog",
        "/w/blog/cmd",
        "/w/blog/cmd/blog",
        "/w/blog/internal",
        "/w/blog/internal/routes",
        "/w/blog/internal/bctx",
        "/w/blog/internal/render",
        "/w/blog/public",
    ];
    assert_eq!(dirs_of(&b), dirs.iter().map(|s| s.to_string()).collect::<Vec<_>>());
    let files: Vec<&str> = vec![
        "/w/blog/main.go",
        "/w/blog/.gitignore",
        "/w/blog/Makefile",
        "/w/blog/internal/routes/root.go",
        "/w/blog/internal/bctx/bctx.go",
        "/w/blog/internal/render/render.go",
        "/w/blog/public/index.html",
        "/w/blog/cmd/blog/main.go",
    ];
    assert_eq!(paths_of(&b), files.iter().map(|s| s.to_string()).collect::<Vec<_>>());
}

#[test]
fn full_layout() {
    let b = AppBuilder::new(config("blog", true, true, true, true, true), "/w", None);
    let dirs: Vec<&str> = vec![
        "/w/blog",
        "/w/blog/cmd",
        "/w/blog/cmd/blog",
        "/w/blog/internal",
        "/w/blog/internal/routes",
        "/w/blog/internal/bctx",
        "/w/blog/internal/env",
        "/w/blog/internal/render",
        "/w/blog/public",
        "/w/blog/testdb",
        "/w/blog/internal/db",
        "/w/blog/css",
    ];
    assert_eq!(dirs_of(&b), dirs.iter().map(|s| s.to_string()).collect::<Vec<_>>());
    assert_eq!(paths_of(&b).len(), 13);
    assert_eq!(text_of(&b, "/w/blog/testdb/testdb.db"), "");
}

#[test]
fn directories_distinct_and_guarded() {
    for c in all_configs("blog") {
        let (s, t, tw) = (c.sessions, c.turso, c.tailwind);
        let b = AppBuilder::new(c, "/w", None);
        let dirs = dirs_of(&b);
        let mut sorted = dirs.clone();
        sorted.sort();
        sorted.dedup();
        assert_eq!(sorted.len(), dirs.len());
        assert_eq!(dirs.contains(&"/w/blog/internal/env".to_string()), s || t);
        assert_eq!(dirs.contains(&"/w/blog/testdb".to_string()), t);
        assert_eq!(dirs.contains(&"/w/blog/internal/db".to_string()), t);
        assert_eq!(dirs.contains(&"/w/blog/css".to_string()), tw);
        // parents come before their children
        for (i, d) in dirs.iter().enumerate().skip(1) {
            let parent = &d[..d.rfind('/').unwrap()];
            assert!(dirs[..i].iter().any(|p| p == parent), "{} before its parent", d);
        }
    }
}

#[test]
fn file_keys_follow_flags() {
    for c in all_configs("blog") {
        let (s, t, h, tw, a) = (c.sessions, c.turso, c.htmx, c.tailwind, c.air);
        let b1 = AppBuilder::new(c, "/w", None);
        let b2 = AppBuilder::new(config("blog", s, t, !h, tw, !a), "/w", Some("someone"));
        assert_eq!(paths_of(&b1), paths_of(&b2));
        let paths = paths_of(&b1);
        let mut sorted = paths.clone();
        sorted.sort();
        sorted.dedup();
        assert_eq!(sorted.len(), paths.len());
        assert_eq!(paths.contains(&"/w/blog/.env".to_string()), s || t);
        assert_eq!(paths.contains(&"/w/blog/internal/env/env.go".to_string()), s || t);
        assert_eq!(paths.contains(&"/w/blog/internal/db/db.go".to_string()), t);
        assert_eq!(paths.contains(&"/w/blog/testdb/testdb.db".to_string()), t);
        assert_eq!(paths.contains(&"/w/blog/css/index.css".to_string()), tw);
    }
}

#[test]
fn eight_distinct_entry_point_variants() {
    let expected = [
        ((false, false, false), CmdVariant::Plain),
        ((false, true, false), CmdVariant::Session),
        ((false, false, true), CmdVariant::Tailwind),
        ((false, true, true), CmdVariant::SessionTailwind),
        ((true, false, false), CmdVariant::Turso),
        ((true, true, false), CmdVariant::TursoSession),
        ((true, false, true), CmdVariant::TursoTailwind),
        ((true, true, true), CmdVariant::Full),
    ];
    let mut texts: Vec<String> = Vec::new();
    for ((t, s, tw), v) in expected.iter() {
        assert_eq!(select_cmd_variant(*t, *s, *tw), *v);
        let c = config("blog", *s, *t, false, *tw, false);
        let subs = substitutions(&c, "blog");
        let text = file_text_content(FileKind::CmdMainGo, &c, &subs);
        assert_eq!(text.contains("sessions.NewCookieStore"), *s);
        assert_eq!(text.contains("db.Open(env.GetDBUrl())"), *t);
        assert_eq!(text.contains("e.Static(\"/css\", \"public/css\")"), *tw);
        assert!(text.contains("\"blog/internal/bctx\""));
        assert!(text.contains("bctx.BCtx{Context: c"));
        assert!(!texts.contains(&text));
        texts.push(text);
    }
    assert_eq!(texts.len(), 8);
}

#[test]
fn no_placeholder_marker_in_any_file() {
    for user in [None, Some("ann")] {
        for c in all_configs("blog") {
            let b = AppBuilder::new(c, "/w", user);
            for (path, text) in b.plan().file_to_text_map() {
                assert!(!text.contains("##"), "marker left in {}", path);
            }
        }
    }
}

#[test]
fn gitignore_blocks_in_order() {
    assert_eq!(gitignore_text_content(false, false, false), "bin\n\n.env\n\n");
    assert_eq!(
        gitignore_text_content(true, true, true),
        "bin\n\n.env\n\ntestdb\n\npublic/css\n\ntmp\n\n"
    );
    assert_eq!(gitignore_text_content(false, true, true), "bin\n\n.env\n\npublic/css\n\ntmp\n\n");
    assert_eq!(gitignore_text_content(true, false, false), "bin\n\n.env\n\ntestdb\n\n");
    let b = AppBuilder::new(config("blog", false, true, false, false, true), "/w", None);
    assert_eq!(text_of(&b, "/w/blog/.gitignore"), "bin\n\n.env\n\ntestdb\n\ntmp\n\n");
}

#[test]
fn makefile_text() {
    let base = ".PHONY: all\nall:\n\tgo build -o bin/main\n\n";
    assert_eq!(makefile_text_content(false, false), base);
    assert_eq!(makefile_text_content(true, false), base);
    assert_eq!(makefile_text_content(false, true), format!("{}.PHONY: dev\n.dev:\n\tair\n\n", base));
    assert_eq!(makefile_text_content(true, true), format!("{}.PHONY: dev\n.dev:\n\tair & pnpm css\n\n", base));
}

#[test]
fn env_helper_follows_flags() {
    let b = AppBuilder::new(config("blog", true, false, false, false, false), "/w", None);
    let env = text_of(&b, "/w/blog/internal/env/env.go");
    assert!(env.starts_with("package env\n"));
    assert!(env.contains("func GetSessionSecret()"));
    assert!(!env.contains("func GetDBUrl()"));
    let b = AppBuilder::new(config("blog", false, true, false, false, false), "/w", None);
    let env = text_of(&b, "/w/blog/internal/env/env.go");
    assert!(!env.contains("func GetSessionSecret()"));
    assert!(env.contains("func GetDBUrl()"));
}

#[test]
fn context_source_fields_follow_flags() {
    let b = AppBuilder::new(config("blog", true, true, false, false, false), "/w", Some("ann"));
    let ctx = text_of(&b, "/w/blog/internal/bctx/bctx.go");
    assert!(ctx.contains("\"github.com/labstack/echo/v4\"\n\t\"github.com/gorilla/sessions\"\n\t\"github.com/ann/blog/internal/db\""));
    assert!(ctx.contains("Store *sessions.CookieStore"));
    assert!(ctx.contains("DB *db.DB"));
    let b = AppBuilder::new(config("blog", false, false, false, false, false), "/w", None);
    let ctx = text_of(&b, "/w/blog/internal/bctx/bctx.go");
    assert!(!ctx.contains("sessions"));
    assert!(!ctx.contains("DB"));
}

#[test]
fn landing_page_follows_flags() {
    let b = AppBuilder::new(config("blog", false, false, true, true, false), "/w", None);
    let html = text_of(&b, "/w/blog/public/index.html");
    assert!(html.contains("<title>blog</title>"));
    assert!(html.contains("<link rel=\"stylesheet\" href=\"/css/index.css\">"));
    assert!(html.contains("<h1 class=\"text-xl\">blog</h1>"));
    assert!(html.contains("htmx.org@1.9.10"));
    let b = AppBuilder::new(config("blog", false, false, false, false, false), "/w", None);
    let html = text_of(&b, "/w/blog/public/index.html");
    assert!(html.contains("<h1>blog</h1>"));
    assert!(!html.contains("stylesheet"));
    assert!(!html.contains("htmx"));
}

#[test]
fn root_router_names_context() {
    let b = AppBuilder::new(config("blog", false, false, false, false, false), "/w", Some("ann"));
    let root = text_of(&b, "/w/blog/internal/routes/root.go");
    assert!(root.contains("\"github.com/ann/blog/internal/bctx\""));
    assert!(root.contains("func Root(c bctx.BCtx) error"));
}

#[test]
fn single_hash_in_names_makes_no_marker() {
    for c in all_configs("a#b") {
        let b = AppBuilder::new(c, "/w", Some("x#"));
        assert_eq!(b.plan().mod_name(), "github.com/x#/a#b");
        for (path, text) in b.plan().file_to_text_map() {
            assert!(!text.contains("##"), "marker in {}", path);
        }
    }
}

#[test]
fn rendered_entry_points_differ_for_any_module_path() {
    for module in ["", "m", "abcde", "github.com/ann/blog"] {
        let mut texts: Vec<String> = Vec::new();
        for bits in 0..8u32 {
            let c = config("blog", bits & 1 != 0, bits & 2 != 0, false, bits & 4 != 0, false);
            let subs = substitutions(&c, module);
            let text = file_text_content(FileKind::CmdMainGo, &c, &subs);
            assert!(!texts.contains(&text));
            texts.push(text);
        }
    }
}
