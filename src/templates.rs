use vstd::prelude::*;

use crate::text::hash_free;

verus! {

/// The places in a template where a computed value is put.
#[derive(Clone, Copy, Debug, PartialEq, Eq, Structural)]
pub enum Slot {
    Name,
    ModPath,
    CtxName,
    CtxType,
    Imports,
    SessionStore,
    DbField,
    Css,
    Title,
    Htmx,
}

/// A piece of fixed text, followed by the value of a slot if there is one.
#[derive(Clone, Copy, Debug)]
pub struct Segment {
    pub text: &'static str,
    pub slot: Option<Slot>,
}

/// The command-package entry point comes in one hand-written variant for each
/// combination of the database, sessions and stylesheet flags; one more flag on
/// this axis would double the catalog.
#[derive(Clone, Copy, Debug, PartialEq, Eq, Structural)]
pub enum CmdVariant {
    Plain,
    Session,
    Tailwind,
    SessionTailwind,
    Turso,
    TursoSession,
    TursoTailwind,
    Full,
}

/// The fixed templates that the generated files are rendered from.
#[derive(Clone, Copy, Debug, PartialEq, Eq, Structural)]
pub enum Template {
    MainGo,
    RootGo,
    CtxGo,
    RenderGo,
    DbGo,
    IndexCss,
    DotEnv,
    IndexHtml,
    Cmd(CmdVariant),
}

pub const MAIN_GO_0: &'static str = "package main\n\n// The entry point of ";
pub const MAIN_GO_1: &'static str = ". The server itself is set up in the cmd package.\n\nimport (\n\tserver \"";
pub const MAIN_GO_2: &'static str = "/cmd/";
pub const MAIN_GO_3: &'static str = "\"\n)\n\nfunc main() {\n\tserver.Run()\n}\n";

pub const ROOT_GO_0: &'static str = "package routes\n\nimport (\n\t\"net/http\"\n\n\t\"";
pub const ROOT_GO_1: &'static str = "/internal/";
pub const ROOT_GO_2: &'static str = "\"\n)\n\nfunc Root(c ";
pub const ROOT_GO_3: &'static str = ".";
pub const ROOT_GO_4: &'static str = ") error {\n\treturn c.Render(http.StatusOK, \"index.html\", nil)\n}\n";

pub const CTX_GO_0: &'static str = "package ";
pub const CTX_GO_1: &'static str = "\n\nimport (\n\t";
pub const CTX_GO_2: &'static str = "\n)\n\ntype ";
pub const CTX_GO_3: &'static str = " struct {\n\techo.Context\n\t";
pub const CTX_GO_4: &'static str = "\n\t";
pub const CTX_GO_5: &'static str = "\n}\n";

pub const RENDER_GO_0: &'static str = "package render\n\nimport (\n\t\"html/template\"\n\t\"io\"\n\n\t\"github.com/labstack/echo/v4\"\n)\n\ntype Templates struct {\n\ttemplates *template.Template\n}\n\nfunc New(dir string) *Templates {\n\treturn &Templates{templates: template.Must(template.ParseGlob(dir + \"/*.html\"))}\n}\n\nfunc (t *Templates) Render(w io.Writer, name string, data interface{}, c echo.Context) error {\n\treturn t.templates.ExecuteTemplate(w, name, data)\n}\n";

pub const DB_GO_0: &'static str = "package db\n\nimport (\n\t\"database/sql\"\n\n\t_ \"github.com/tursodatabase/libsql-client-go/libsql\"\n)\n\ntype DB struct {\n\t*sql.DB\n}\n\nfunc Open(url string) (*DB, error) {\n\tconn, err := sql.Open(\"libsql\", url)\n\tif err != nil {\n\t\treturn nil, err\n\t}\n\treturn &DB{conn}, nil\n}\n";

pub const INDEX_CSS_0: &'static str = "@tailwind base;\n@tailwind components;\n@tailwind utilities;\n";

pub const DOT_ENV_0: &'static str = "SESSION_SECRET=change-me\nDBURL=file:testdb/testdb.db\nPROD_DB_URL=\nPRODUCTION=false\n";

pub const INDEX_HTML_0: &'static str = "<!DOCTYPE html>\n<html lang=\"en\">\n<head>\n\t<meta charset=\"UTF-8\">\n\t<meta name=\"viewport\" content=\"width=device-width, initial-scale=1.0\">\n\t<title>";
pub const INDEX_HTML_1: &'static str = "</title>\n\t";
pub const INDEX_HTML_2: &'static str = "\n\t";
pub const INDEX_HTML_3: &'static str = "\n</head>\n<body>\n\t";
pub const INDEX_HTML_4: &'static str = "\n</body>\n</html>\n";

pub const CMD_PLAIN_0: &'static str = "package cmd\n\nimport (\n\t\"github.com/labstack/echo/v4\"\n\t\"github.com/labstack/echo/v4/middleware\"\n\n\t\"";
pub const CMD_PLAIN_1: &'static str = "/internal/render\"\n\t\"";
pub const CMD_PLAIN_2: &'static str = "/internal/routes\"\n\t\"";
pub const CMD_PLAIN_3: &'static str = "/internal/";
pub const CMD_PLAIN_4: &'static str = "\"\n)\n\nfunc Run() {\n\te := echo.New()\n\te.Use(middleware.Logger())\n\te.Renderer = render.New(\"public\")\n\te.GET(\"/\", func(c echo.Context) error {\n\t\treturn routes.Root(";
pub const CMD_PLAIN_5: &'static str = ".";
pub const CMD_PLAIN_6: &'static str = "{Context: c})\n\t})\n\te.Logger.Fatal(e.Start(\":8080\"))\n}\n";

pub const CMD_SESSION_0: &'static str = "package cmd\n\nimport (\n\t\"github.com/labstack/echo/v4\"\n\t\"github.com/labstack/echo/v4/middleware\"\n\t\"github.com/gorilla/sessions\"\n\n\t\"";
pub const CMD_SESSION_1: &'static str = "/internal/env\"\n\t\"";
pub const CMD_SESSION_2: &'static str = "/internal/render\"\n\t\"";
pub const CMD_SESSION_3: &'static str = "/internal/routes\"\n\t\"";
pub const CMD_SESSION_4: &'static str = "/internal/";
pub const CMD_SESSION_5: &'static str = "\"\n)\n\nfunc Run() {\n\te := echo.New()\n\te.Use(middleware.Logger())\n\te.Renderer = render.New(\"public\")\n\tstore := sessions.NewCookieStore([]byte(env.GetSessionSecret()))\n\te.GET(\"/\", func(c echo.Context) error {\n\t\treturn routes.Root(";
pub const CMD_SESSION_6: &'static str = ".";
pub const CMD_SESSION_7: &'static str = "{Context: c, Store: store})\n\t})\n\te.Logger.Fatal(e.Start(\":8080\"))\n}\n";

pub const CMD_TAILWIND_0: &'static str = "package cmd\n\nimport (\n\t\"github.com/labstack/echo/v4\"\n\t\"github.com/labstack/echo/v4/middleware\"\n\n\t\"";
pub const CMD_TAILWIND_1: &'static str = "/internal/render\"\n\t\"";
pub const CMD_TAILWIND_2: &'static str = "/internal/routes\"\n\t\"";
pub const CMD_TAILWIND_3: &'static str = "/internal/";
pub const CMD_TAILWIND_4: &'static str = "\"\n)\n\nfunc Run() {\n\te := echo.New()\n\te.Use(middleware.Logger())\n\te.Renderer = render.New(\"public\")\n\te.Static(\"/css\", \"public/css\")\n\te.GET(\"/\", func(c echo.Context) error {\n\t\treturn routes.Root(";
pub const CMD_TAILWIND_5: &'static str = ".";
pub const CMD_TAILWIND_6: &'static str = "{Context: c})\n\t})\n\te.Logger.Fatal(e.Start(\":8080\"))\n}\n";

pub const CMD_SESSION_TAILWIND_0: &'static str = "package cmd\n\nimport (\n\t\"github.com/labstack/echo/v4\"\n\t\"github.com/labstack/echo/v4/middleware\"\n\t\"github.com/gorilla/sessions\"\n\n\t\"";
pub const CMD_SESSION_TAILWIND_1: &'static str = "/internal/env\"\n\t\"";
pub const CMD_SESSION_TAILWIND_2: &'static str = "/internal/render\"\n\t\"";
pub const CMD_SESSION_TAILWIND_3: &'static str = "/internal/routes\"\n\t\"";
pub const CMD_SESSION_TAILWIND_4: &'static str = "/internal/";
pub const CMD_SESSION_TAILWIND_5: &'static str = "\"\n)\n\nfunc Run() {\n\te := echo.New()\n\te.Use(middleware.Logger())\n\te.Renderer = render.New(\"public\")\n\tstore := sessions.NewCookieStore([]byte(env.GetSessionSecret()))\n\te.Static(\"/css\", \"public/css\")\n\te.GET(\"/\", func(c echo.Context) error {\n\t\treturn routes.Root(";
pub const CMD_SESSION_TAILWIND_6: &'static str = ".";
pub const CMD_SESSION_TAILWIND_7: &'static str = "{Context: c, Store: store})\n\t})\n\te.Logger.Fatal(e.Start(\":8080\"))\n}\n";

pub const CMD_TURSO_0: &'static str = "package cmd\n\nimport (\n\t\"github.com/labstack/echo/v4\"\n\t\"github.com/labstack/echo/v4/middleware\"\n\n\t\"";
pub const CMD_TURSO_1: &'static str = "/internal/db\"\n\t\"";
pub const CMD_TURSO_2: &'static str = "/internal/env\"\n\t\"";
pub const CMD_TURSO_3: &'static str = "/internal/render\"\n\t\"";
pub const CMD_TURSO_4: &'static str = "/internal/routes\"\n\t\"";
pub const CMD_TURSO_5: &'static str = "/internal/";
pub const CMD_TURSO_6: &'static str = "\"\n)\n\nfunc Run() {\n\te := echo.New()\n\te.Use(middleware.Logger())\n\te.Renderer = render.New(\"public\")\n\tdatabase, err := db.Open(env.GetDBUrl())\n\tif err != nil {\n\t\te.Logger.Fatalf(\"failed to open the database: %v\", err)\n\t}\n\tdefer database.Close()\n\te.GET(\"/\", func(c echo.Context) error {\n\t\treturn routes.Root(";
pub const CMD_TURSO_7: &'static str = ".";
pub const CMD_TURSO_8: &'static str = "{Context: c, DB: database})\n\t})\n\te.Logger.Fatal(e.Start(\":8080\"))\n}\n";

pub const CMD_TURSO_SESSION_0: &'static str = "package cmd\n\nimport (\n\t\"github.com/labstack/echo/v4\"\n\t\"github.com/labstack/echo/v4/middleware\"\n\t\"github.com/gorilla/sessions\"\n\n\t\"";
pub const CMD_TURSO_SESSION_1: &'static str = "/internal/db\"\n\t\"";
pub const CMD_TURSO_SESSION_2: &'static str = "/internal/env\"\n\t\"";
pub const CMD_TURSO_SESSION_3: &'static str = "/internal/render\"\n\t\"";
pub const CMD_TURSO_SESSION_4: &'static str = "/internal/routes\"\n\t\"";
pub const CMD_TURSO_SESSION_5: &'static str = "/internal/";
pub const CMD_TURSO_SESSION_6: &'static str = "\"\n)\n\nfunc Run() {\n\te := echo.New()\n\te.Use(middleware.Logger())\n\te.Renderer = render.New(\"public\")\n\tstore := sessions.NewCookieStore([]byte(env.GetSessionSecret()))\n\tdatabase, err := db.Open(env.GetDBUrl())\n\tif err != nil {\n\t\te.Logger.Fatalf(\"failed to open the database: %v\", err)\n\t}\n\tdefer database.Close()\n\te.GET(\"/\", func(c echo.Context) error {\n\t\treturn routes.Root(";
pub const CMD_TURSO_SESSION_7: &'static str = ".";
pub const CMD_TURSO_SESSION_8: &'static str = "{Context: c, Store: store, DB: database})\n\t})\n\te.Logger.Fatal(e.Start(\":8080\"))\n}\n";

pub const CMD_TURSO_TAILWIND_0: &'static str = "package cmd\n\nimport (\n\t\"github.com/labstack/echo/v4\"\n\t\"github.com/labstack/echo/v4/middleware\"\n\n\t\"";
pub const CMD_TURSO_TAILWIND_1: &'static str = "/internal/db\"\n\t\"";
pub const CMD_TURSO_TAILWIND_2: &'static str = "/internal/env\"\n\t\"";
pub const CMD_TURSO_TAILWIND_3: &'static str = "/internal/render\"\n\t\"";
pub const CMD_TURSO_TAILWIND_4: &'static str = "/internal/routes\"\n\t\"";
pub const CMD_TURSO_TAILWIND_5: &'static str = "/internal/";
pub const CMD_TURSO_TAILWIND_6: &'static str = "\"\n)\n\nfunc Run() {\n\te := echo.New()\n\te.Use(middleware.Logger())\n\te.Renderer = render.New(\"public\")\n\tdatabase, err := db.Open(env.GetDBUrl())\n\tif err != nil {\n\t\te.Logger.Fatalf(\"failed to open the database: %v\", err)\n\t}\n\tdefer database.Close()\n\te.Static(\"/css\", \"public/css\")\n\te.GET(\"/\", func(c echo.Context) error {\n\t\treturn routes.Root(";
pub const CMD_TURSO_TAILWIND_7: &'static str = ".";
pub const CMD_TURSO_TAILWIND_8: &'static str = "{Context: c, DB: database})\n\t})\n\te.Logger.Fatal(e.Start(\":8080\"))\n}\n";

pub const CMD_FULL_0: &'static str = "package cmd\n\nimport (\n\t\"github.com/labstack/echo/v4\"\n\t\"github.com/labstack/echo/v4/middleware\"\n\t\"github.com/gorilla/sessions\"\n\n\t\"";
pub const CMD_FULL_1: &'static str = "/internal/db\"\n\t\"";
pub const CMD_FULL_2: &'static str = "/internal/env\"\n\t\"";
pub const CMD_FULL_3: &'static str = "/internal/render\"\n\t\"";
pub const CMD_FULL_4: &'static str = "/internal/routes\"\n\t\"";
pub const CMD_FULL_5: &'static str = "/internal/";
pub const CMD_FULL_6: &'static str = "\"\n)\n\nfunc Run() {\n\te := echo.New()\n\te.Use(middleware.Logger())\n\te.Renderer = render.New(\"public\")\n\tstore := sessions.NewCookieStore([]byte(env.GetSessionSecret()))\n\tdatabase, err := db.Open(env.GetDBUrl())\n\tif err != nil {\n\t\te.Logger.Fatalf(\"failed to open the database: %v\", err)\n\t}\n\tdefer database.Close()\n\te.Static(\"/css\", \"public/css\")\n\te.GET(\"/\", func(c echo.Context) error {\n\t\treturn routes.Root(";
pub const CMD_FULL_7: &'static str = ".";
pub const CMD_FULL_8: &'static str = "{Context: c, Store: store, DB: database})\n\t})\n\te.Logger.Fatal(e.Start(\":8080\"))\n}\n";

/// The segments of a template, in order.
pub open spec fn segments(t: Template) -> Seq<Segment> {
    match t {
        Template::MainGo => seq![
            Segment { text: MAIN_GO_0, slot: Some(Slot::Name) },
            Segment { text: MAIN_GO_1, slot: Some(Slot::ModPath) },
            Segment { text: MAIN_GO_2, slot: Some(Slot::Name) },
            Segment { text: MAIN_GO_3, slot: None },
        ],
        Template::RootGo => seq![
            Segment { text: ROOT_GO_0, slot: Some(Slot::ModPath) },
            Segment { text: ROOT_GO_1, slot: Some(Slot::CtxName) },
            Segment { text: ROOT_GO_2, slot: Some(Slot::CtxName) },
            Segment { text: ROOT_GO_3, slot: Some(Slot::CtxType) },
            Segment { text: ROOT_GO_4, slot: None },
        ],
        Template::CtxGo => seq![
            Segment { text: CTX_GO_0, slot: Some(Slot::CtxName) },
            Segment { text: CTX_GO_1, slot: Some(Slot::Imports) },
            Segment { text: CTX_GO_2, slot: Some(Slot::CtxType) },
            Segment { text: CTX_GO_3, slot: Some(Slot::SessionStore) },
            Segment { text: CTX_GO_4, slot: Some(Slot::DbField) },
            Segment { text: CTX_GO_5, slot: None },
        ],
        Template::RenderGo => seq![
            Segment { text: RENDER_GO_0, slot: None },
        ],
        Template::DbGo => seq![
            Segment { text: DB_GO_0, slot: None },
        ],
        Template::IndexCss => seq![
            Segment { text: INDEX_CSS_0, slot: None },
        ],
        Template::DotEnv => seq![
            Segment { text: DOT_ENV_0, slot: None },
        ],
        Template::IndexHtml => seq![
            Segment { text: INDEX_HTML_0, slot: Some(Slot::Name) },
            Segment { text: INDEX_HTML_1, slot: Some(Slot::Css) },
            Segment { text: INDEX_HTML_2, slot: Some(Slot::Htmx) },
            Segment { text: INDEX_HTML_3, slot: Some(Slot::Title) },
            Segment { text: INDEX_HTML_4, slot: None },
        ],
        Template::Cmd(CmdVariant::Plain) => seq![
            Segment { text: CMD_PLAIN_0, slot: Some(Slot::ModPath) },
            Segment { text: CMD_PLAIN_1, slot: Some(Slot::ModPath) },
            Segment { text: CMD_PLAIN_2, slot: Some(Slot::ModPath) },
            Segment { text: CMD_PLAIN_3, slot: Some(Slot::CtxName) },
            Segment { text: CMD_PLAIN_4, slot: Some(Slot::CtxName) },
            Segment { text: CMD_PLAIN_5, slot: Some(Slot::CtxType) },
            Segment { text: CMD_PLAIN_6, slot: None },
        ],
        Template::Cmd(CmdVariant::Session) => seq![
            Segment { text: CMD_SESSION_0, slot: Some(Slot::ModPath) },
            Segment { text: CMD_SESSION_1, slot: Some(Slot::ModPath) },
            Segment { text: CMD_SESSION_2, slot: Some(Slot::ModPath) },
            Segment { text: CMD_SESSION_3, slot: Some(Slot::ModPath) },
            Segment { text: CMD_SESSION_4, slot: Some(Slot::CtxName) },
            Segment { text: CMD_SESSION_5, slot: Some(Slot::CtxName) },
            Segment { text: CMD_SESSION_6, slot: Some(Slot::CtxType) },
            Segment { text: CMD_SESSION_7, slot: None },
        ],
        Template::Cmd(CmdVariant::Tailwind) => seq![
            Segment { text: CMD_TAILWIND_0, slot: Some(Slot::ModPath) },
            Segment { text: CMD_TAILWIND_1, slot: Some(Slot::ModPath) },
            Segment { text: CMD_TAILWIND_2, slot: Some(Slot::ModPath) },
            Segment { text: CMD_TAILWIND_3, slot: Some(Slot::CtxName) },
            Segment { text: CMD_TAILWIND_4, slot: Some(Slot::CtxName) },
            Segment { text: CMD_TAILWIND_5, slot: Some(Slot::CtxType) },
            Segment { text: CMD_TAILWIND_6, slot: None },
        ],
        Template::Cmd(CmdVariant::SessionTailwind) => seq![
            Segment { text: CMD_SESSION_TAILWIND_0, slot: Some(Slot::ModPath) },
            Segment { text: CMD_SESSION_TAILWIND_1, slot: Some(Slot::ModPath) },
            Segment { text: CMD_SESSION_TAILWIND_2, slot: Some(Slot::ModPath) },
            Segment { text: CMD_SESSION_TAILWIND_3, slot: Some(Slot::ModPath) },
            Segment { text: CMD_SESSION_TAILWIND_4, slot: Some(Slot::CtxName) },
            Segment { text: CMD_SESSION_TAILWIND_5, slot: Some(Slot::CtxName) },
            Segment { text: CMD_SESSION_TAILWIND_6, slot: Some(Slot::CtxType) },
            Segment { text: CMD_SESSION_TAILWIND_7, slot: None },
        ],
        Template::Cmd(CmdVariant::Turso) => seq![
            Segment { text: CMD_TURSO_0, slot: Some(Slot::ModPath) },
            Segment { text: CMD_TURSO_1, slot: Some(Slot::ModPath) },
            Segment { text: CMD_TURSO_2, slot: Some(Slot::ModPath) },
            Segment { text: CMD_TURSO_3, slot: Some(Slot::ModPath) },
            Segment { text: CMD_TURSO_4, slot: Some(Slot::ModPath) },
            Segment { text: CMD_TURSO_5, slot: Some(Slot::CtxName) },
            Segment { text: CMD_TURSO_6, slot: Some(Slot::CtxName) },
            Segment { text: CMD_TURSO_7, slot: Some(Slot::CtxType) },
            Segment { text: CMD_TURSO_8, slot: None },
        ],
        Template::Cmd(CmdVariant::TursoSession) => seq![
            Segment { text: CMD_TURSO_SESSION_0, slot: Some(Slot::ModPath) },
            Segment { text: CMD_TURSO_SESSION_1, slot: Some(Slot::ModPath) },
            Segment { text: CMD_TURSO_SESSION_2, slot: Some(Slot::ModPath) },
            Segment { text: CMD_TURSO_SESSION_3, slot: Some(Slot::ModPath) },
            Segment { text: CMD_TURSO_SESSION_4, slot: Some(Slot::ModPath) },
            Segment { text: CMD_TURSO_SESSION_5, slot: Some(Slot::CtxName) },
            Segment { text: CMD_TURSO_SESSION_6, slot: Some(Slot::CtxName) },
            Segment { text: CMD_TURSO_SESSION_7, slot: Some(Slot::CtxType) },
            Segment { text: CMD_TURSO_SESSION_8, slot: None },
        ],
        Template::Cmd(CmdVariant::TursoTailwind) => seq![
            Segment { text: CMD_TURSO_TAILWIND_0, slot: Some(Slot::ModPath) },
            Segment { text: CMD_TURSO_TAILWIND_1, slot: Some(Slot::ModPath) },
            Segment { text: CMD_TURSO_TAILWIND_2, slot: Some(Slot::ModPath) },
            Segment { text: CMD_TURSO_TAILWIND_3, slot: Some(Slot::ModPath) },
            Segment { text: CMD_TURSO_TAILWIND_4, slot: Some(Slot::ModPath) },
            Segment { text: CMD_TURSO_TAILWIND_5, slot: Some(Slot::CtxName) },
            Segment { text: CMD_TURSO_TAILWIND_6, slot: Some(Slot::CtxName) },
            Segment { text: CMD_TURSO_TAILWIND_7, slot: Some(Slot::CtxType) },
            Segment { text: CMD_TURSO_TAILWIND_8, slot: None },
        ],
        Template::Cmd(CmdVariant::Full) => seq![
            Segment { text: CMD_FULL_0, slot: Some(Slot::ModPath) },
            Segment { text: CMD_FULL_1, slot: Some(Slot::ModPath) },
            Segment { text: CMD_FULL_2, slot: Some(Slot::ModPath) },
            Segment { text: CMD_FULL_3, slot: Some(Slot::ModPath) },
            Segment { text: CMD_FULL_4, slot: Some(Slot::ModPath) },
            Segment { text: CMD_FULL_5, slot: Some(Slot::CtxName) },
            Segment { text: CMD_FULL_6, slot: Some(Slot::CtxName) },
            Segment { text: CMD_FULL_7, slot: Some(Slot::CtxType) },
            Segment { text: CMD_FULL_8, slot: None },
        ],
    }
}

pub fn template_segments(t: Template) -> (r: Vec<Segment>)
    ensures
        r@ == segments(t),
{
    match t {
        Template::MainGo => vec![
            Segment { text: MAIN_GO_0, slot: Some(Slot::Name) },
            Segment { text: MAIN_GO_1, slot: Some(Slot::ModPath) },
            Segment { text: MAIN_GO_2, slot: Some(Slot::Name) },
            Segment { text: MAIN_GO_3, slot: None },
        ],
        Template::RootGo => vec![
            Segment { text: ROOT_GO_0, slot: Some(Slot::ModPath) },
            Segment { text: ROOT_GO_1, slot: Some(Slot::CtxName) },
            Segment { text: ROOT_GO_2, slot: Some(Slot::CtxName) },
            Segment { text: ROOT_GO_3, slot: Some(Slot::CtxType) },
            Segment { text: ROOT_GO_4, slot: None },
        ],
        Template::CtxGo => vec![
            Segment { text: CTX_GO_0, slot: Some(Slot::CtxName) },
            Segment { text: CTX_GO_1, slot: Some(Slot::Imports) },
            Segment { text: CTX_GO_2, slot: Some(Slot::CtxType) },
            Segment { text: CTX_GO_3, slot: Some(Slot::SessionStore) },
            Segment { text: CTX_GO_4, slot: Some(Slot::DbField) },
            Segment { text: CTX_GO_5, slot: None },
        ],
        Template::RenderGo => vec![
            Segment { text: RENDER_GO_0, slot: None },
        ],
        Template::DbGo => vec![
            Segment { text: DB_GO_0, slot: None },
        ],
        Template::IndexCss => vec![
            Segment { text: INDEX_CSS_0, slot: None },
        ],
        Template::DotEnv => vec![
            Segment { text: DOT_ENV_0, slot: None },
        ],
        Template::IndexHtml => vec![
            Segment { text: INDEX_HTML_0, slot: Some(Slot::Name) },
            Segment { text: INDEX_HTML_1, slot: Some(Slot::Css) },
            Segment { text: INDEX_HTML_2, slot: Some(Slot::Htmx) },
            Segment { text: INDEX_HTML_3, slot: Some(Slot::Title) },
            Segment { text: INDEX_HTML_4, slot: None },
        ],
        Template::Cmd(CmdVariant::Plain) => vec![
            Segment { text: CMD_PLAIN_0, slot: Some(Slot::ModPath) },
            Segment { text: CMD_PLAIN_1, slot: Some(Slot::ModPath) },
            Segment { text: CMD_PLAIN_2, slot: Some(Slot::ModPath) },
            Segment { text: CMD_PLAIN_3, slot: Some(Slot::CtxName) },
            Segment { text: CMD_PLAIN_4, slot: Some(Slot::CtxName) },
            Segment { text: CMD_PLAIN_5, slot: Some(Slot::CtxType) },
            Segment { text: CMD_PLAIN_6, slot: None },
        ],
        Template::Cmd(CmdVariant::Session) => vec![
            Segment { text: CMD_SESSION_0, slot: Some(Slot::ModPath) },
            Segment { text: CMD_SESSION_1, slot: Some(Slot::ModPath) },
            Segment { text: CMD_SESSION_2, slot: Some(Slot::ModPath) },
            Segment { text: CMD_SESSION_3, slot: Some(Slot::ModPath) },
            Segment { text: CMD_SESSION_4, slot: Some(Slot::CtxName) },
            Segment { text: CMD_SESSION_5, slot: Some(Slot::CtxName) },
            Segment { text: CMD_SESSION_6, slot: Some(Slot::CtxType) },
            Segment { text: CMD_SESSION_7, slot: None },
        ],
        Template::Cmd(CmdVariant::Tailwind) => vec![
            Segment { text: CMD_TAILWIND_0, slot: Some(Slot::ModPath) },
            Segment { text: CMD_TAILWIND_1, slot: Some(Slot::ModPath) },
            Segment { text: CMD_TAILWIND_2, slot: Some(Slot::ModPath) },
            Segment { text: CMD_TAILWIND_3, slot: Some(Slot::CtxName) },
            Segment { text: CMD_TAILWIND_4, slot: Some(Slot::CtxName) },
            Segment { text: CMD_TAILWIND_5, slot: Some(Slot::CtxType) },
            Segment { text: CMD_TAILWIND_6, slot: None },
        ],
        Template::Cmd(CmdVariant::SessionTailwind) => vec![
            Segment { text: CMD_SESSION_TAILWIND_0, slot: Some(Slot::ModPath) },
            Segment { text: CMD_SESSION_TAILWIND_1, slot: Some(Slot::ModPath) },
            Segment { text: CMD_SESSION_TAILWIND_2, slot: Some(Slot::ModPath) },
            Segment { text: CMD_SESSION_TAILWIND_3, slot: Some(Slot::ModPath) },
            Segment { text: CMD_SESSION_TAILWIND_4, slot: Some(Slot::CtxName) },
            Segment { text: CMD_SESSION_TAILWIND_5, slot: Some(Slot::CtxName) },
            Segment { text: CMD_SESSION_TAILWIND_6, slot: Some(Slot::CtxType) },
            Segment { text: CMD_SESSION_TAILWIND_7, slot: None },
        ],
        Template::Cmd(CmdVariant::Turso) => vec![
            Segment { text: CMD_TURSO_0, slot: Some(Slot::ModPath) },
            Segment { text: CMD_TURSO_1, slot: Some(Slot::ModPath) },
            Segment { text: CMD_TURSO_2, slot: Some(Slot::ModPath) },
            Segment { text: CMD_TURSO_3, slot: Some(Slot::ModPath) },
            Segment { text: CMD_TURSO_4, slot: Some(Slot::ModPath) },
            Segment { text: CMD_TURSO_5, slot: Some(Slot::CtxName) },
            Segment { text: CMD_TURSO_6, slot: Some(Slot::CtxName) },
            Segment { text: CMD_TURSO_7, slot: Some(Slot::CtxType) },
            Segment { text: CMD_TURSO_8, slot: None },
        ],
        Template::Cmd(CmdVariant::TursoSession) => vec![
            Segment { text: CMD_TURSO_SESSION_0, slot: Some(Slot::ModPath) },
            Segment { text: CMD_TURSO_SESSION_1, slot: Some(Slot::ModPath) },
            Segment { text: CMD_TURSO_SESSION_2, slot: Some(Slot::ModPath) },
            Segment { text: CMD_TURSO_SESSION_3, slot: Some(Slot::ModPath) },
            Segment { text: CMD_TURSO_SESSION_4, slot: Some(Slot::ModPath) },
            Segment { text: CMD_TURSO_SESSION_5, slot: Some(Slot::CtxName) },
            Segment { text: CMD_TURSO_SESSION_6, slot: Some(Slot::CtxName) },
            Segment { text: CMD_TURSO_SESSION_7, slot: Some(Slot::CtxType) },
            Segment { text: CMD_TURSO_SESSION_8, slot: None },
        ],
        Template::Cmd(CmdVariant::TursoTailwind) => vec![
            Segment { text: CMD_TURSO_TAILWIND_0, slot: Some(Slot::ModPath) },
            Segment { text: CMD_TURSO_TAILWIND_1, slot: Some(Slot::ModPath) },
            Segment { text: CMD_TURSO_TAILWIND_2, slot: Some(Slot::ModPath) },
            Segment { text: CMD_TURSO_TAILWIND_3, slot: Some(Slot::ModPath) },
            Segment { text: CMD_TURSO_TAILWIND_4, slot: Some(Slot::ModPath) },
            Segment { text: CMD_TURSO_TAILWIND_5, slot: Some(Slot::CtxName) },
            Segment { text: CMD_TURSO_TAILWIND_6, slot: Some(Slot::CtxName) },
            Segment { text: CMD_TURSO_TAILWIND_7, slot: Some(Slot::CtxType) },
            Segment { text: CMD_TURSO_TAILWIND_8, slot: None },
        ],
        Template::Cmd(CmdVariant::Full) => vec![
            Segment { text: CMD_FULL_0, slot: Some(Slot::ModPath) },
            Segment { text: CMD_FULL_1, slot: Some(Slot::ModPath) },
            Segment { text: CMD_FULL_2, slot: Some(Slot::ModPath) },
            Segment { text: CMD_FULL_3, slot: Some(Slot::ModPath) },
            Segment { text: CMD_FULL_4, slot: Some(Slot::ModPath) },
            Segment { text: CMD_FULL_5, slot: Some(Slot::CtxName) },
            Segment { text: CMD_FULL_6, slot: Some(Slot::CtxName) },
            Segment { text: CMD_FULL_7, slot: Some(Slot::CtxType) },
            Segment { text: CMD_FULL_8, slot: None },
        ],
    }
}

/// The fixed text of every template is free of `#` and no piece of it is empty,
/// so no placeholder marker survives in what is rendered from it.
pub proof fn lemma_template_text_hash_free(t: Template)
    ensures
        forall|i: int|
            0 <= i < segments(t).len() ==> hash_free(#[trigger] segments(t)[i].text@) && segments(
                t,
            )[i].text@.len() > 0,
{
    match t {
        Template::MainGo => {
            reveal_strlit("package main\n\n// The entry point of ");
            reveal_strlit(". The server itself is set up in the cmd package.\n\nimport (\n\tserver \"");
            reveal_strlit("/cmd/");
            reveal_strlit("\"\n)\n\nfunc main() {\n\tserver.Run()\n}\n");
        },
        Template::RootGo => {
            reveal_strlit("package routes\n\nimport (\n\t\"net/http\"\n\n\t\"");
            reveal_strlit("/internal/");
            reveal_strlit("\"\n)\n\nfunc Root(c ");
            reveal_strlit(".");
            reveal_strlit(") error {\n\treturn c.Render(http.StatusOK, \"index.html\", nil)\n}\n");
        },
        Template::CtxGo => {
            reveal_strlit("package ");
            reveal_strlit("\n\nimport (\n\t");
            reveal_strlit("\n)\n\ntype ");
            reveal_strlit(" struct {\n\techo.Context\n\t");
            reveal_strlit("\n\t");
            reveal_strlit("\n}\n");
        },
        Template::RenderGo => {
            reveal_strlit("package render\n\nimport (\n\t\"html/template\"\n\t\"io\"\n\n\t\"github.com/labstack/echo/v4\"\n)\n\ntype Templates struct {\n\ttemplates *template.Template\n}\n\nfunc New(dir string) *Templates {\n\treturn &Templates{templates: template.Must(template.ParseGlob(dir + \"/*.html\"))}\n}\n\nfunc (t *Templates) Render(w io.Writer, name string, data interface{}, c echo.Context) error {\n\treturn t.templates.ExecuteTemplate(w, name, data)\n}\n");
            assert(hash_free(RENDER_GO_0@) && RENDER_GO_0@.len() > 0);
        },
        Template::DbGo => {
            reveal_strlit("package db\n\nimport (\n\t\"database/sql\"\n\n\t_ \"github.com/tursodatabase/libsql-client-go/libsql\"\n)\n\ntype DB struct {\n\t*sql.DB\n}\n\nfunc Open(url string) (*DB, error) {\n\tconn, err := sql.Open(\"libsql\", url)\n\tif err != nil {\n\t\treturn nil, err\n\t}\n\treturn &DB{conn}, nil\n}\n");
            assert(hash_free(DB_GO_0@) && DB_GO_0@.len() > 0);
        },
        Template::IndexCss => {
            reveal_strlit("@tailwind base;\n@tailwind components;\n@tailwind utilities;\n");
            assert(hash_free(INDEX_CSS_0@) && INDEX_CSS_0@.len() > 0);
        },
        Template::DotEnv => {
            reveal_strlit("SESSION_SECRET=change-me\nDBURL=file:testdb/testdb.db\nPROD_DB_URL=\nPRODUCTION=false\n");
            assert(hash_free(DOT_ENV_0@) && DOT_ENV_0@.len() > 0);
        },
        Template::IndexHtml => {
            reveal_strlit("<!DOCTYPE html>\n<html lang=\"en\">\n<head>\n\t<meta charset=\"UTF-8\">\n\t<meta name=\"viewport\" content=\"width=device-width, initial-scale=1.0\">\n\t<title>");
            reveal_strlit("</title>\n\t");
            reveal_strlit("\n\t");
            reveal_strlit("\n</head>\n<body>\n\t");
            reveal_strlit("\n</body>\n</html>\n");
        },
        Template::Cmd(CmdVariant::Plain) => {
            reveal_strlit("package cmd\n\nimport (\n\t\"github.com/labstack/echo/v4\"\n\t\"github.com/labstack/echo/v4/middleware\"\n\n\t\"");
            reveal_strlit("/internal/render\"\n\t\"");
            reveal_strlit("/internal/routes\"\n\t\"");
            reveal_strlit("/internal/");
            reveal_strlit("\"\n)\n\nfunc Run() {\n\te := echo.New()\n\te.Use(middleware.Logger())\n\te.Renderer = render.New(\"public\")\n\te.GET(\"/\", func(c echo.Context) error {\n\t\treturn routes.Root(");
            reveal_strlit(".");
            reveal_strlit("{Context: c})\n\t})\n\te.Logger.Fatal(e.Start(\":8080\"))\n}\n");
        },
        Template::Cmd(CmdVariant::Session) => {
            reveal_strlit("package cmd\n\nimport (\n\t\"github.com/labstack/echo/v4\"\n\t\"github.com/labstack/echo/v4/middleware\"\n\t\"github.com/gorilla/sessions\"\n\n\t\"");
            reveal_strlit("/internal/env\"\n\t\"");
            reveal_strlit("/internal/render\"\n\t\"");
            reveal_strlit("/internal/routes\"\n\t\"");
            reveal_strlit("/internal/");
            reveal_strlit("\"\n)\n\nfunc Run() {\n\te := echo.New()\n\te.Use(middleware.Logger())\n\te.Renderer = render.New(\"public\")\n\tstore := sessions.NewCookieStore([]byte(env.GetSessionSecret()))\n\te.GET(\"/\", func(c echo.Context) error {\n\t\treturn routes.Root(");
            reveal_strlit(".");
            reveal_strlit("{Context: c, Store: store})\n\t})\n\te.Logger.Fatal(e.Start(\":8080\"))\n}\n");
        },
        Template::Cmd(CmdVariant::Tailwind) => {
            reveal_strlit("package cmd\n\nimport (\n\t\"github.com/labstack/echo/v4\"\n\t\"github.com/labstack/echo/v4/middleware\"\n\n\t\"");
            reveal_strlit("/internal/render\"\n\t\"");
            reveal_strlit("/internal/routes\"\n\t\"");
            reveal_strlit("/internal/");
            reveal_strlit("\"\n)\n\nfunc Run() {\n\te := echo.New()\n\te.Use(middleware.Logger())\n\te.Renderer = render.New(\"public\")\n\te.Static(\"/css\", \"public/css\")\n\te.GET(\"/\", func(c echo.Context) error {\n\t\treturn routes.Root(");
            reveal_strlit(".");
            reveal_strlit("{Context: c})\n\t})\n\te.Logger.Fatal(e.Start(\":8080\"))\n}\n");
        },
        Template::Cmd(CmdVariant::SessionTailwind) => {
            reveal_strlit("package cmd\n\nimport (\n\t\"github.com/labstack/echo/v4\"\n\t\"github.com/labstack/echo/v4/middleware\"\n\t\"github.com/gorilla/sessions\"\n\n\t\"");
            reveal_strlit("/internal/env\"\n\t\"");
            reveal_strlit("/internal/render\"\n\t\"");
            reveal_strlit("/internal/routes\"\n\t\"");
            reveal_strlit("/internal/");
            reveal_strlit("\"\n)\n\nfunc Run() {\n\te := echo.New()\n\te.Use(middleware.Logger())\n\te.Renderer = render.New(\"public\")\n\tstore := sessions.NewCookieStore([]byte(env.GetSessionSecret()))\n\te.Static(\"/css\", \"public/css\")\n\te.GET(\"/\", func(c echo.Context) error {\n\t\treturn routes.Root(");
            reveal_strlit(".");
            reveal_strlit("{Context: c, Store: store})\n\t})\n\te.Logger.Fatal(e.Start(\":8080\"))\n}\n");
        },
        Template::Cmd(CmdVariant::Turso) => {
            reveal_strlit("package cmd\n\nimport (\n\t\"github.com/labstack/echo/v4\"\n\t\"github.com/labstack/echo/v4/middleware\"\n\n\t\"");
            reveal_strlit("/internal/db\"\n\t\"");
            reveal_strlit("/internal/env\"\n\t\"");
            reveal_strlit("/internal/render\"\n\t\"");
            reveal_strlit("/internal/routes\"\n\t\"");
            reveal_strlit("/internal/");
            reveal_strlit("\"\n)\n\nfunc Run() {\n\te := echo.New()\n\te.Use(middleware.Logger())\n\te.Renderer = render.New(\"public\")\n\tdatabase, err := db.Open(env.GetDBUrl())\n\tif err != nil {\n\t\te.Logger.Fatalf(\"failed to open the database: %v\", err)\n\t}\n\tdefer database.Close()\n\te.GET(\"/\", func(c echo.Context) error {\n\t\treturn routes.Root(");
            reveal_strlit(".");
            reveal_strlit("{Context: c, DB: database})\n\t})\n\te.Logger.Fatal(e.Start(\":8080\"))\n}\n");
        },
        Template::Cmd(CmdVariant::TursoSession) => {
            reveal_strlit("package cmd\n\nimport (\n\t\"github.com/labstack/echo/v4\"\n\t\"github.com/labstack/echo/v4/middleware\"\n\t\"github.com/gorilla/sessions\"\n\n\t\"");
            reveal_strlit("/internal/db\"\n\t\"");
            reveal_strlit("/internal/env\"\n\t\"");
            reveal_strlit("/internal/render\"\n\t\"");
            reveal_strlit("/internal/routes\"\n\t\"");
            reveal_strlit("/internal/");
            reveal_strlit("\"\n)\n\nfunc Run() {\n\te := echo.New()\n\te.Use(middleware.Logger())\n\te.Renderer = render.New(\"public\")\n\tstore := sessions.NewCookieStore([]byte(env.GetSessionSecret()))\n\tdatabase, err := db.Open(env.GetDBUrl())\n\tif err != nil {\n\t\te.Logger.Fatalf(\"failed to open the database: %v\", err)\n\t}\n\tdefer database.Close()\n\te.GET(\"/\", func(c echo.Context) error {\n\t\treturn routes.Root(");
            reveal_strlit(".");
            reveal_strlit("{Context: c, Store: store, DB: database})\n\t})\n\te.Logger.Fatal(e.Start(\":8080\"))\n}\n");
        },
        Template::Cmd(CmdVariant::TursoTailwind) => {
            reveal_strlit("package cmd\n\nimport (\n\t\"github.com/labstack/echo/v4\"\n\t\"github.com/labstack/echo/v4/middleware\"\n\n\t\"");
            reveal_strlit("/internal/db\"\n\t\"");
            reveal_strlit("/internal/env\"\n\t\"");
            reveal_strlit("/internal/render\"\n\t\"");
            reveal_strlit("/internal/routes\"\n\t\"");
            reveal_strlit("/internal/");
            reveal_strlit("\"\n)\n\nfunc Run() {\n\te := echo.New()\n\te.Use(middleware.Logger())\n\te.Renderer = render.New(\"public\")\n\tdatabase, err := db.Open(env.GetDBUrl())\n\tif err != nil {\n\t\te.Logger.Fatalf(\"failed to open the database: %v\", err)\n\t}\n\tdefer database.Close()\n\te.Static(\"/css\", \"public/css\")\n\te.GET(\"/\", func(c echo.Context) error {\n\t\treturn routes.Root(");
            reveal_strlit(".");
            reveal_strlit("{Context: c, DB: database})\n\t})\n\te.Logger.Fatal(e.Start(\":8080\"))\n}\n");
        },
        Template::Cmd(CmdVariant::Full) => {
            reveal_strlit("package cmd\n\nimport (\n\t\"github.com/labstack/echo/v4\"\n\t\"github.com/labstack/echo/v4/middleware\"\n\t\"github.com/gorilla/sessions\"\n\n\t\"");
            reveal_strlit("/internal/db\"\n\t\"");
            reveal_strlit("/internal/env\"\n\t\"");
            reveal_strlit("/internal/render\"\n\t\"");
            reveal_strlit("/internal/routes\"\n\t\"");
            reveal_strlit("/internal/");
            reveal_strlit("\"\n)\n\nfunc Run() {\n\te := echo.New()\n\te.Use(middleware.Logger())\n\te.Renderer = render.New(\"public\")\n\tstore := sessions.NewCookieStore([]byte(env.GetSessionSecret()))\n\tdatabase, err := db.Open(env.GetDBUrl())\n\tif err != nil {\n\t\te.Logger.Fatalf(\"failed to open the database: %v\", err)\n\t}\n\tdefer database.Close()\n\te.Static(\"/css\", \"public/css\")\n\te.GET(\"/\", func(c echo.Context) error {\n\t\treturn routes.Root(");
            reveal_strlit(".");
            reveal_strlit("{Context: c, Store: store, DB: database})\n\t})\n\te.Logger.Fatal(e.Start(\":8080\"))\n}\n");
        },
    }
}

/// The eight entry-point variants are eight different templates.
pub proof fn lemma_cmd_templates_distinct(v1: CmdVariant, v2: CmdVariant)
    requires
        v1 != v2,
    ensures
        segments(Template::Cmd(v1)) != segments(Template::Cmd(v2)),
{
    match (v1, v2) {
        (CmdVariant::Plain, CmdVariant::Session) => {
            assert(segments(Template::Cmd(v1)).len() != segments(Template::Cmd(v2)).len());
        },
        (CmdVariant::Plain, CmdVariant::Tailwind) => {
            reveal_strlit("\"\n)\n\nfunc Run() {\n\te := echo.New()\n\te.Use(middleware.Logger())\n\te.Renderer = render.New(\"public\")\n\te.GET(\"/\", func(c echo.Context) error {\n\t\treturn routes.Root(");
            reveal_strlit("\"\n)\n\nfunc Run() {\n\te := echo.New()\n\te.Use(middleware.Logger())\n\te.Renderer = render.New(\"public\")\n\te.Static(\"/css\", \"public/css\")\n\te.GET(\"/\", func(c echo.Context) error {\n\t\treturn routes.Root(");
            assert(segments(Template::Cmd(v1))[4].text@.len() != segments(Template::Cmd(v2))[4].text@.len());
        },
        (CmdVariant::Plain, CmdVariant::SessionTailwind) => {
            assert(segments(Template::Cmd(v1)).len() != segments(Template::Cmd(v2)).len());
        },
        (CmdVariant::Plain, CmdVariant::Turso) => {
            assert(segments(Template::Cmd(v1)).len() != segments(Template::Cmd(v2)).len());
        },
        (CmdVariant::Plain, CmdVariant::TursoSession) => {
            assert(segments(Template::Cmd(v1)).len() != segments(Template::Cmd(v2)).len());
        },
        (CmdVariant::Plain, CmdVariant::TursoTailwind) => {
            assert(segments(Template::Cmd(v1)).len() != segments(Template::Cmd(v2)).len());
        },
        (CmdVariant::Plain, CmdVariant::Full) => {
            assert(segments(Template::Cmd(v1)).len() != segments(Template::Cmd(v2)).len());
        },
        (CmdVariant::Session, CmdVariant::Plain) => {
            assert(segments(Template::Cmd(v1)).len() != segments(Template::Cmd(v2)).len());
        },
        (CmdVariant::Session, CmdVariant::Tailwind) => {
            assert(segments(Template::Cmd(v1)).len() != segments(Template::Cmd(v2)).len());
        },
        (CmdVariant::Session, CmdVariant::SessionTailwind) => {
            reveal_strlit("\"\n)\n\nfunc Run() {\n\te := echo.New()\n\te.Use(middleware.Logger())\n\te.Renderer = render.New(\"public\")\n\tstore := sessions.NewCookieStore([]byte(env.GetSessionSecret()))\n\te.GET(\"/\", func(c echo.Context) error {\n\t\treturn routes.Root(");
            reveal_strlit("\"\n)\n\nfunc Run() {\n\te := echo.New()\n\te.Use(middleware.Logger())\n\te.Renderer = render.New(\"public\")\n\tstore := sessions.NewCookieStore([]byte(env.GetSessionSecret()))\n\te.Static(\"/css\", \"public/css\")\n\te.GET(\"/\", func(c echo.Context) error {\n\t\treturn routes.Root(");
            assert(segments(Template::Cmd(v1))[5].text@.len() != segments(Template::Cmd(v2))[5].text@.len());
        },
        (CmdVariant::Session, CmdVariant::Turso) => {
            assert(segments(Template::Cmd(v1)).len() != segments(Template::Cmd(v2)).len());
        },
        (CmdVariant::Session, CmdVariant::TursoSession) => {
            assert(segments(Template::Cmd(v1)).len() != segments(Template::Cmd(v2)).len());
        },
        (CmdVariant::Session, CmdVariant::TursoTailwind) => {
            assert(segments(Template::Cmd(v1)).len() != segments(Template::Cmd(v2)).len());
        },
        (CmdVariant::Session, CmdVariant::Full) => {
            assert(segments(Template::Cmd(v1)).len() != segments(Template::Cmd(v2)).len());
        },
        (CmdVariant::Tailwind, CmdVariant::Plain) => {
            reveal_strlit("\"\n)\n\nfunc Run() {\n\te := echo.New()\n\te.Use(middleware.Logger())\n\te.Renderer = render.New(\"public\")\n\te.Static(\"/css\", \"public/css\")\n\te.GET(\"/\", func(c echo.Context) error {\n\t\treturn routes.Root(");
            reveal_strlit("\"\n)\n\nfunc Run() {\n\te := echo.New()\n\te.Use(middleware.Logger())\n\te.Renderer = render.New(\"public\")\n\te.GET(\"/\", func(c echo.Context) error {\n\t\treturn routes.Root(");
            assert(segments(Template::Cmd(v1))[4].text@.len() != segments(Template::Cmd(v2))[4].text@.len());
        },
        (CmdVariant::Tailwind, CmdVariant::Session) => {
            assert(segments(Template::Cmd(v1)).len() != segments(Template::Cmd(v2)).len());
        },
        (CmdVariant::Tailwind, CmdVariant::SessionTailwind) => {
            assert(segments(Template::Cmd(v1)).len() != segments(Template::Cmd(v2)).len());
        },
        (CmdVariant::Tailwind, CmdVariant::Turso) => {
            assert(segments(Template::Cmd(v1)).len() != segments(Template::Cmd(v2)).len());
        },
        (CmdVariant::Tailwind, CmdVariant::TursoSession) => {
            assert(segments(Template::Cmd(v1)).len() != segments(Template::Cmd(v2)).len());
        },
        (CmdVariant::Tailwind, CmdVariant::TursoTailwind) => {
            assert(segments(Template::Cmd(v1)).len() != segments(Template::Cmd(v2)).len());
        },
        (CmdVariant::Tailwind, CmdVariant::Full) => {
            assert(segments(Template::Cmd(v1)).len() != segments(Template::Cmd(v2)).len());
        },
        (CmdVariant::SessionTailwind, CmdVariant::Plain) => {
            assert(segments(Template::Cmd(v1)).len() != segments(Template::Cmd(v2)).len());
        },
        (CmdVariant::SessionTailwind, CmdVariant::Session) => {
            reveal_strlit("\"\n)\n\nfunc Run() {\n\te := echo.New()\n\te.Use(middleware.Logger())\n\te.Renderer = render.New(\"public\")\n\tstore := sessions.NewCookieStore([]byte(env.GetSessionSecret()))\n\te.Static(\"/css\", \"public/css\")\n\te.GET(\"/\", func(c echo.Context) error {\n\t\treturn routes.Root(");
            reveal_strlit("\"\n)\n\nfunc Run() {\n\te := echo.New()\n\te.Use(middleware.Logger())\n\te.Renderer = render.New(\"public\")\n\tstore := sessions.NewCookieStore([]byte(env.GetSessionSecret()))\n\te.GET(\"/\", func(c echo.Context) error {\n\t\treturn routes.Root(");
            assert(segments(Template::Cmd(v1))[5].text@.len() != segments(Template::Cmd(v2))[5].text@.len());
        },
        (CmdVariant::SessionTailwind, CmdVariant::Tailwind) => {
            assert(segments(Template::Cmd(v1)).len() != segments(Template::Cmd(v2)).len());
        },
        (CmdVariant::SessionTailwind, CmdVariant::Turso) => {
            assert(segments(Template::Cmd(v1)).len() != segments(Template::Cmd(v2)).len());
        },
        (CmdVariant::SessionTailwind, CmdVariant::TursoSession) => {
            assert(segments(Template::Cmd(v1)).len() != segments(Template::Cmd(v2)).len());
        },
        (CmdVariant::SessionTailwind, CmdVariant::TursoTailwind) => {
            assert(segments(Template::Cmd(v1)).len() != segments(Template::Cmd(v2)).len());
        },
        (CmdVariant::SessionTailwind, CmdVariant::Full) => {
            assert(segments(Template::Cmd(v1)).len() != segments(Template::Cmd(v2)).len());
        },
        (CmdVariant::Turso, CmdVariant::Plain) => {
            assert(segments(Template::Cmd(v1)).len() != segments(Template::Cmd(v2)).len());
        },
        (CmdVariant::Turso, CmdVariant::Session) => {
            assert(segments(Template::Cmd(v1)).len() != segments(Template::Cmd(v2)).len());
        },
        (CmdVariant::Turso, CmdVariant::Tailwind) => {
            assert(segments(Template::Cmd(v1)).len() != segments(Template::Cmd(v2)).len());
        },
        (CmdVariant::Turso, CmdVariant::SessionTailwind) => {
            assert(segments(Template::Cmd(v1)).len() != segments(Template::Cmd(v2)).len());
        },
        (CmdVariant::Turso, CmdVariant::TursoSession) => {
            reveal_strlit("package cmd\n\nimport (\n\t\"github.com/labstack/echo/v4\"\n\t\"github.com/labstack/echo/v4/middleware\"\n\n\t\"");
            reveal_strlit("package cmd\n\nimport (\n\t\"github.com/labstack/echo/v4\"\n\t\"github.com/labstack/echo/v4/middleware\"\n\t\"github.com/gorilla/sessions\"\n\n\t\"");
            assert(segments(Template::Cmd(v1))[0].text@.len() != segments(Template::Cmd(v2))[0].text@.len());
        },
        (CmdVariant::Turso, CmdVariant::TursoTailwind) => {
            reveal_strlit("\"\n)\n\nfunc Run() {\n\te := echo.New()\n\te.Use(middleware.Logger())\n\te.Renderer = render.New(\"public\")\n\tdatabase, err := db.Open(env.GetDBUrl())\n\tif err != nil {\n\t\te.Logger.Fatalf(\"failed to open the database: %v\", err)\n\t}\n\tdefer database.Close()\n\te.GET(\"/\", func(c echo.Context) error {\n\t\treturn routes.Root(");
            reveal_strlit("\"\n)\n\nfunc Run() {\n\te := echo.New()\n\te.Use(middleware.Logger())\n\te.Renderer = render.New(\"public\")\n\tdatabase, err := db.Open(env.GetDBUrl())\n\tif err != nil {\n\t\te.Logger.Fatalf(\"failed to open the database: %v\", err)\n\t}\n\tdefer database.Close()\n\te.Static(\"/css\", \"public/css\")\n\te.GET(\"/\", func(c echo.Context) error {\n\t\treturn routes.Root(");
            assert(segments(Template::Cmd(v1))[6].text@.len() != segments(Template::Cmd(v2))[6].text@.len());
        },
        (CmdVariant::Turso, CmdVariant::Full) => {
            reveal_strlit("package cmd\n\nimport (\n\t\"github.com/labstack/echo/v4\"\n\t\"github.com/labstack/echo/v4/middleware\"\n\n\t\"");
            reveal_strlit("package cmd\n\nimport (\n\t\"github.com/labstack/echo/v4\"\n\t\"github.com/labstack/echo/v4/middleware\"\n\t\"github.com/gorilla/sessions\"\n\n\t\"");
            assert(segments(Template::Cmd(v1))[0].text@.len() != segments(Template::Cmd(v2))[0].text@.len());
        },
        (CmdVariant::TursoSession, CmdVariant::Plain) => {
            assert(segments(Template::Cmd(v1)).len() != segments(Template::Cmd(v2)).len());
        },
        (CmdVariant::TursoSession, CmdVariant::Session) => {
            assert(segments(Template::Cmd(v1)).len() != segments(Template::Cmd(v2)).len());
        },
        (CmdVariant::TursoSession, CmdVariant::Tailwind) => {
            assert(segments(Template::Cmd(v1)).len() != segments(Template::Cmd(v2)).len());
        },
        (CmdVariant::TursoSession, CmdVariant::SessionTailwind) => {
            assert(segments(Template::Cmd(v1)).len() != segments(Template::Cmd(v2)).len());
        },
        (CmdVariant::TursoSession, CmdVariant::Turso) => {
            reveal_strlit("package cmd\n\nimport (\n\t\"github.com/labstack/echo/v4\"\n\t\"github.com/labstack/echo/v4/middleware\"\n\t\"github.com/gorilla/sessions\"\n\n\t\"");
            reveal_strlit("package cmd\n\nimport (\n\t\"github.com/labstack/echo/v4\"\n\t\"github.com/labstack/echo/v4/middleware\"\n\n\t\"");
            assert(segments(Template::Cmd(v1))[0].text@.len() != segments(Template::Cmd(v2))[0].text@.len());
        },
        (CmdVariant::TursoSession, CmdVariant::TursoTailwind) => {
            reveal_strlit("package cmd\n\nimport (\n\t\"github.com/labstack/echo/v4\"\n\t\"github.com/labstack/echo/v4/middleware\"\n\t\"github.com/gorilla/sessions\"\n\n\t\"");
            reveal_strlit("package cmd\n\nimport (\n\t\"github.com/labstack/echo/v4\"\n\t\"github.com/labstack/echo/v4/middleware\"\n\n\t\"");
            assert(segments(Template::Cmd(v1))[0].text@.len() != segments(Template::Cmd(v2))[0].text@.len());
        },
        (CmdVariant::TursoSession, CmdVariant::Full) => {
            reveal_strlit("\"\n)\n\nfunc Run() {\n\te := echo.New()\n\te.Use(middleware.Logger())\n\te.Renderer = render.New(\"public\")\n\tstore := sessions.NewCookieStore([]byte(env.GetSessionSecret()))\n\tdatabase, err := db.Open(env.GetDBUrl())\n\tif err != nil {\n\t\te.Logger.Fatalf(\"failed to open the database: %v\", err)\n\t}\n\tdefer database.Close()\n\te.GET(\"/\", func(c echo.Context) error {\n\t\treturn routes.Root(");
            reveal_strlit("\"\n)\n\nfunc Run() {\n\te := echo.New()\n\te.Use(middleware.Logger())\n\te.Renderer = render.New(\"public\")\n\tstore := sessions.NewCookieStore([]byte(env.GetSessionSecret()))\n\tdatabase, err := db.Open(env.GetDBUrl())\n\tif err != nil {\n\t\te.Logger.Fatalf(\"failed to open the database: %v\", err)\n\t}\n\tdefer database.Close()\n\te.Static(\"/css\", \"public/css\")\n\te.GET(\"/\", func(c echo.Context) error {\n\t\treturn routes.Root(");
            assert(segments(Template::Cmd(v1))[6].text@.len() != segments(Template::Cmd(v2))[6].text@.len());
        },
        (CmdVariant::TursoTailwind, CmdVariant::Plain) => {
            assert(segments(Template::Cmd(v1)).len() != segments(Template::Cmd(v2)).len());
        },
        (CmdVariant::TursoTailwind, CmdVariant::Session) => {
            assert(segments(Template::Cmd(v1)).len() != segments(Template::Cmd(v2)).len());
        },
        (CmdVariant::TursoTailwind, CmdVariant::Tailwind) => {
            assert(segments(Template::Cmd(v1)).len() != segments(Template::Cmd(v2)).len());
        },
        (CmdVariant::TursoTailwind, CmdVariant::SessionTailwind) => {
            assert(segments(Template::Cmd(v1)).len() != segments(Template::Cmd(v2)).len());
        },
        (CmdVariant::TursoTailwind, CmdVariant::Turso) => {
            reveal_strlit("\"\n)\n\nfunc Run() {\n\te := echo.New()\n\te.Use(middleware.Logger())\n\te.Renderer = render.New(\"public\")\n\tdatabase, err := db.Open(env.GetDBUrl())\n\tif err != nil {\n\t\te.Logger.Fatalf(\"failed to open the database: %v\", err)\n\t}\n\tdefer database.Close()\n\te.Static(\"/css\", \"public/css\")\n\te.GET(\"/\", func(c echo.Context) error {\n\t\treturn routes.Root(");
            reveal_strlit("\"\n)\n\nfunc Run() {\n\te := echo.New()\n\te.Use(middleware.Logger())\n\te.Renderer = render.New(\"public\")\n\tdatabase, err := db.Open(env.GetDBUrl())\n\tif err != nil {\n\t\te.Logger.Fatalf(\"failed to open the database: %v\", err)\n\t}\n\tdefer database.Close()\n\te.GET(\"/\", func(c echo.Context) error {\n\t\treturn routes.Root(");
            assert(segments(Template::Cmd(v1))[6].text@.len() != segments(Template::Cmd(v2))[6].text@.len());
        },
        (CmdVariant::TursoTailwind, CmdVariant::TursoSession) => {
            reveal_strlit("package cmd\n\nimport (\n\t\"github.com/labstack/echo/v4\"\n\t\"github.com/labstack/echo/v4/middleware\"\n\n\t\"");
            reveal_strlit("package cmd\n\nimport (\n\t\"github.com/labstack/echo/v4\"\n\t\"github.com/labstack/echo/v4/middleware\"\n\t\"github.com/gorilla/sessions\"\n\n\t\"");
            assert(segments(Template::Cmd(v1))[0].text@.len() != segments(Template::Cmd(v2))[0].text@.len());
        },
        (CmdVariant::TursoTailwind, CmdVariant::Full) => {
            reveal_strlit("package cmd\n\nimport (\n\t\"github.com/labstack/echo/v4\"\n\t\"github.com/labstack/echo/v4/middleware\"\n\n\t\"");
            reveal_strlit("package cmd\n\nimport (\n\t\"github.com/labstack/echo/v4\"\n\t\"github.com/labstack/echo/v4/middleware\"\n\t\"github.com/gorilla/sessions\"\n\n\t\"");
            assert(segments(Template::Cmd(v1))[0].text@.len() != segments(Template::Cmd(v2))[0].text@.len());
        },
        (CmdVariant::Full, CmdVariant::Plain) => {
            assert(segments(Template::Cmd(v1)).len() != segments(Template::Cmd(v2)).len());
        },
        (CmdVariant::Full, CmdVariant::Session) => {
            assert(segments(Template::Cmd(v1)).len() != segments(Template::Cmd(v2)).len());
        },
        (CmdVariant::Full, CmdVariant::Tailwind) => {
            assert(segments(Template::Cmd(v1)).len() != segments(Template::Cmd(v2)).len());
        },
        (CmdVariant::Full, CmdVariant::SessionTailwind) => {
            assert(segments(Template::Cmd(v1)).len() != segments(Template::Cmd(v2)).len());
        },
        (CmdVariant::Full, CmdVariant::Turso) => {
            reveal_strlit("package cmd\n\nimport (\n\t\"github.com/labstack/echo/v4\"\n\t\"github.com/labstack/echo/v4/middleware\"\n\t\"github.com/gorilla/sessions\"\n\n\t\"");
            reveal_strlit("package cmd\n\nimport (\n\t\"github.com/labstack/echo/v4\"\n\t\"github.com/labstack/echo/v4/middleware\"\n\n\t\"");
            assert(segments(Template::Cmd(v1))[0].text@.len() != segments(Template::Cmd(v2))[0].text@.len());
        },
        (CmdVariant::Full, CmdVariant::TursoSession) => {
            reveal_strlit("\"\n)\n\nfunc Run() {\n\te := echo.New()\n\te.Use(middleware.Logger())\n\te.Renderer = render.New(\"public\")\n\tstore := sessions.NewCookieStore([]byte(env.GetSessionSecret()))\n\tdatabase, err := db.Open(env.GetDBUrl())\n\tif err != nil {\n\t\te.Logger.Fatalf(\"failed to open the database: %v\", err)\n\t}\n\tdefer database.Close()\n\te.Static(\"/css\", \"public/css\")\n\te.GET(\"/\", func(c echo.Context) error {\n\t\treturn routes.Root(");
            reveal_strlit("\"\n)\n\nfunc Run() {\n\te := echo.New()\n\te.Use(middleware.Logger())\n\te.Renderer = render.New(\"public\")\n\tstore := sessions.NewCookieStore([]byte(env.GetSessionSecret()))\n\tdatabase, err := db.Open(env.GetDBUrl())\n\tif err != nil {\n\t\te.Logger.Fatalf(\"failed to open the database: %v\", err)\n\t}\n\tdefer database.Close()\n\te.GET(\"/\", func(c echo.Context) error {\n\t\treturn routes.Root(");
            assert(segments(Template::Cmd(v1))[6].text@.len() != segments(Template::Cmd(v2))[6].text@.len());
        },
        (CmdVariant::Full, CmdVariant::TursoTailwind) => {
            reveal_strlit("package cmd\n\nimport (\n\t\"github.com/labstack/echo/v4\"\n\t\"github.com/labstack/echo/v4/middleware\"\n\t\"github.com/gorilla/sessions\"\n\n\t\"");
            reveal_strlit("package cmd\n\nimport (\n\t\"github.com/labstack/echo/v4\"\n\t\"github.com/labstack/echo/v4/middleware\"\n\n\t\"");
            assert(segments(Template::Cmd(v1))[0].text@.len() != segments(Template::Cmd(v2))[0].text@.len());
        },
        _ => {},
    }
}

/// The length of an entry-point variant's fixed text.
pub open spec fn cmd_fixed_len(v: CmdVariant) -> int {
    match v {
        CmdVariant::Plain => 363,
        CmdVariant::Session => 491,
        CmdVariant::Tailwind => 395,
        CmdVariant::SessionTailwind => 523,
        CmdVariant::Turso => 554,
        CmdVariant::TursoSession => 665,
        CmdVariant::TursoTailwind => 586,
        CmdVariant::Full => 697,
    }
}

/// How many module-path slots an entry-point variant has.
pub open spec fn cmd_module_slots(v: CmdVariant) -> int {
    match v {
        CmdVariant::Plain => 3,
        CmdVariant::Session => 4,
        CmdVariant::Tailwind => 3,
        CmdVariant::SessionTailwind => 4,
        CmdVariant::Turso => 5,
        CmdVariant::TursoSession => 5,
        CmdVariant::TursoTailwind => 5,
        CmdVariant::Full => 5,
    }
}

/// The total length of a template's fixed text.
pub open spec fn text_len_sum(t: Seq<Segment>) -> int
    decreases t.len(),
{
    if t.len() == 0 {
        0
    } else {
        text_len_sum(t.drop_last()) + t.last().text@.len()
    }
}

pub proof fn lemma_cmd_fixed_len(v: CmdVariant)
    ensures
        text_len_sum(segments(Template::Cmd(v))) == cmd_fixed_len(v),
{
    reveal_with_fuel(text_len_sum, 10);
    match v {
        CmdVariant::Plain => {
            reveal_strlit("package cmd\n\nimport (\n\t\"github.com/labstack/echo/v4\"\n\t\"github.com/labstack/echo/v4/middleware\"\n\n\t\"");
            reveal_strlit("/internal/render\"\n\t\"");
            reveal_strlit("/internal/routes\"\n\t\"");
            reveal_strlit("/internal/");
            reveal_strlit("\"\n)\n\nfunc Run() {\n\te := echo.New()\n\te.Use(middleware.Logger())\n\te.Renderer = render.New(\"public\")\n\te.GET(\"/\", func(c echo.Context) error {\n\t\treturn routes.Root(");
            reveal_strlit(".");
            reveal_strlit("{Context: c})\n\t})\n\te.Logger.Fatal(e.Start(\":8080\"))\n}\n");
        },
        CmdVariant::Session => {
            reveal_strlit("package cmd\n\nimport (\n\t\"github.com/labstack/echo/v4\"\n\t\"github.com/labstack/echo/v4/middleware\"\n\t\"github.com/gorilla/sessions\"\n\n\t\"");
            reveal_strlit("/internal/env\"\n\t\"");
            reveal_strlit("/internal/render\"\n\t\"");
            reveal_strlit("/internal/routes\"\n\t\"");
            reveal_strlit("/internal/");
            reveal_strlit("\"\n)\n\nfunc Run() {\n\te := echo.New()\n\te.Use(middleware.Logger())\n\te.Renderer = render.New(\"public\")\n\tstore := sessions.NewCookieStore([]byte(env.GetSessionSecret()))\n\te.GET(\"/\", func(c echo.Context) error {\n\t\treturn routes.Root(");
            reveal_strlit(".");
            reveal_strlit("{Context: c, Store: store})\n\t})\n\te.Logger.Fatal(e.Start(\":8080\"))\n}\n");
        },
        CmdVariant::Tailwind => {
            reveal_strlit("package cmd\n\nimport (\n\t\"github.com/labstack/echo/v4\"\n\t\"github.com/labstack/echo/v4/middleware\"\n\n\t\"");
            reveal_strlit("/internal/render\"\n\t\"");
            reveal_strlit("/internal/routes\"\n\t\"");
            reveal_strlit("/internal/");
            reveal_strlit("\"\n)\n\nfunc Run() {\n\te := echo.New()\n\te.Use(middleware.Logger())\n\te.Renderer = render.New(\"public\")\n\te.Static(\"/css\", \"public/css\")\n\te.GET(\"/\", func(c echo.Context) error {\n\t\treturn routes.Root(");
            reveal_strlit(".");
            reveal_strlit("{Context: c})\n\t})\n\te.Logger.Fatal(e.Start(\":8080\"))\n}\n");
        },
        CmdVariant::SessionTailwind => {
            reveal_strlit("package cmd\n\nimport (\n\t\"github.com/labstack/echo/v4\"\n\t\"github.com/labstack/echo/v4/middleware\"\n\t\"github.com/gorilla/sessions\"\n\n\t\"");
            reveal_strlit("/internal/env\"\n\t\"");
            reveal_strlit("/internal/render\"\n\t\"");
            reveal_strlit("/internal/routes\"\n\t\"");
            reveal_strlit("/internal/");
            reveal_strlit("\"\n)\n\nfunc Run() {\n\te := echo.New()\n\te.Use(middleware.Logger())\n\te.Renderer = render.New(\"public\")\n\tstore := sessions.NewCookieStore([]byte(env.GetSessionSecret()))\n\te.Static(\"/css\", \"public/css\")\n\te.GET(\"/\", func(c echo.Context) error {\n\t\treturn routes.Root(");
            reveal_strlit(".");
            reveal_strlit("{Context: c, Store: store})\n\t})\n\te.Logger.Fatal(e.Start(\":8080\"))\n}\n");
        },
        CmdVariant::Turso => {
            reveal_strlit("package cmd\n\nimport (\n\t\"github.com/labstack/echo/v4\"\n\t\"github.com/labstack/echo/v4/middleware\"\n\n\t\"");
            reveal_strlit("/internal/db\"\n\t\"");
            reveal_strlit("/internal/env\"\n\t\"");
            reveal_strlit("/internal/render\"\n\t\"");
            reveal_strlit("/internal/routes\"\n\t\"");
            reveal_strlit("/internal/");
            reveal_strlit("\"\n)\n\nfunc Run() {\n\te := echo.New()\n\te.Use(middleware.Logger())\n\te.Renderer = render.New(\"public\")\n\tdatabase, err := db.Open(env.GetDBUrl())\n\tif err != nil {\n\t\te.Logger.Fatalf(\"failed to open the database: %v\", err)\n\t}\n\tdefer database.Close()\n\te.GET(\"/\", func(c echo.Context) error {\n\t\treturn routes.Root(");
            reveal_strlit(".");
            reveal_strlit("{Context: c, DB: database})\n\t})\n\te.Logger.Fatal(e.Start(\":8080\"))\n}\n");
        },
        CmdVariant::TursoSession => {
            reveal_strlit("package cmd\n\nimport (\n\t\"github.com/labstack/echo/v4\"\n\t\"github.com/labstack/echo/v4/middleware\"\n\t\"github.com/gorilla/sessions\"\n\n\t\"");
            reveal_strlit("/internal/db\"\n\t\"");
            reveal_strlit("/internal/env\"\n\t\"");
            reveal_strlit("/internal/render\"\n\t\"");
            reveal_strlit("/internal/routes\"\n\t\"");
            reveal_strlit("/internal/");
            reveal_strlit("\"\n)\n\nfunc Run() {\n\te := echo.New()\n\te.Use(middleware.Logger())\n\te.Renderer = render.New(\"public\")\n\tstore := sessions.NewCookieStore([]byte(env.GetSessionSecret()))\n\tdatabase, err := db.Open(env.GetDBUrl())\n\tif err != nil {\n\t\te.Logger.Fatalf(\"failed to open the database: %v\", err)\n\t}\n\tdefer database.Close()\n\te.GET(\"/\", func(c echo.Context) error {\n\t\treturn routes.Root(");
            reveal_strlit(".");
            reveal_strlit("{Context: c, Store: store, DB: database})\n\t})\n\te.Logger.Fatal(e.Start(\":8080\"))\n}\n");
        },
        CmdVariant::TursoTailwind => {
            reveal_strlit("package cmd\n\nimport (\n\t\"github.com/labstack/echo/v4\"\n\t\"github.com/labstack/echo/v4/middleware\"\n\n\t\"");
            reveal_strlit("/internal/db\"\n\t\"");
            reveal_strlit("/internal/env\"\n\t\"");
            reveal_strlit("/internal/render\"\n\t\"");
            reveal_strlit("/internal/routes\"\n\t\"");
            reveal_strlit("/internal/");
            reveal_strlit("\"\n)\n\nfunc Run() {\n\te := echo.New()\n\te.Use(middleware.Logger())\n\te.Renderer = render.New(\"public\")\n\tdatabase, err := db.Open(env.GetDBUrl())\n\tif err != nil {\n\t\te.Logger.Fatalf(\"failed to open the database: %v\", err)\n\t}\n\tdefer database.Close()\n\te.Static(\"/css\", \"public/css\")\n\te.GET(\"/\", func(c echo.Context) error {\n\t\treturn routes.Root(");
            reveal_strlit(".");
            reveal_strlit("{Context: c, DB: database})\n\t})\n\te.Logger.Fatal(e.Start(\":8080\"))\n}\n");
        },
        CmdVariant::Full => {
            reveal_strlit("package cmd\n\nimport (\n\t\"github.com/labstack/echo/v4\"\n\t\"github.com/labstack/echo/v4/middleware\"\n\t\"github.com/gorilla/sessions\"\n\n\t\"");
            reveal_strlit("/internal/db\"\n\t\"");
            reveal_strlit("/internal/env\"\n\t\"");
            reveal_strlit("/internal/render\"\n\t\"");
            reveal_strlit("/internal/routes\"\n\t\"");
            reveal_strlit("/internal/");
            reveal_strlit("\"\n)\n\nfunc Run() {\n\te := echo.New()\n\te.Use(middleware.Logger())\n\te.Renderer = render.New(\"public\")\n\tstore := sessions.NewCookieStore([]byte(env.GetSessionSecret()))\n\tdatabase, err := db.Open(env.GetDBUrl())\n\tif err != nil {\n\t\te.Logger.Fatalf(\"failed to open the database: %v\", err)\n\t}\n\tdefer database.Close()\n\te.Static(\"/css\", \"public/css\")\n\te.GET(\"/\", func(c echo.Context) error {\n\t\treturn routes.Root(");
            reveal_strlit(".");
            reveal_strlit("{Context: c, Store: store, DB: database})\n\t})\n\te.Logger.Fatal(e.Start(\":8080\"))\n}\n");
        },
    }
}

} // verus!
