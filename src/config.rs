use vstd::prelude::*;

verus! {

/// The choices that shape a generated project: its name and the opt-in features.
#[derive(Debug)]
pub struct Config {
    pub app_name: String,
    /// Cookie-backed sessions.
    pub sessions: bool,
    /// A hosted database (the "database" flag).
    pub turso: bool,
    /// The htmx script on the landing page.
    pub htmx: bool,
    /// The tailwind stylesheet tool (the "stylesheet" flag).
    pub tailwind: bool,
    /// The air live-reload tool.
    pub air: bool,
}

/// What a builder holds so far: each field is unset or carries a value.
pub ghost struct BuilderState {
    pub app_name: Option<Seq<char>>,
    pub sessions: Option<bool>,
    pub turso: Option<bool>,
    pub htmx: Option<bool>,
    pub tailwind: Option<bool>,
    pub air: Option<bool>,
}

/// Accumulates the fields of a `Config`; unset fields take their defaults in `out`.
pub struct ConfigBuilder {
    app_name: Option<String>,
    sessions: Option<bool>,
    turso: Option<bool>,
    htmx: Option<bool>,
    tailwind: Option<bool>,
    air: Option<bool>,
}

impl View for ConfigBuilder {
    type V = BuilderState;

    closed spec fn view(&self) -> BuilderState {
        BuilderState {
            app_name: match self.app_name {
                Some(s) => Some(s@),
                None => None,
            },
            sessions: self.sessions,
            turso: self.turso,
            htmx: self.htmx,
            tailwind: self.tailwind,
            air: self.air,
        }
    }
}

/// A flag that was never set defaults to `false`.
pub open spec fn flag_or_default(v: Option<bool>) -> bool {
    match v {
        Some(b) => b,
        None => false,
    }
}

/// An app name that was never set defaults to the empty string.
pub open spec fn name_or_default(v: Option<Seq<char>>) -> Seq<char> {
    match v {
        Some(s) => s,
        None => Seq::empty(),
    }
}

impl ConfigBuilder {
    pub fn new() -> (r: Self)
        ensures
            r@ == (BuilderState {
                app_name: None,
                sessions: None,
                turso: None,
                htmx: None,
                tailwind: None,
                air: None,
            }),
    {
        ConfigBuilder {
            app_name: None,
            sessions: None,
            turso: None,
            htmx: None,
            tailwind: None,
            air: None,
        }
    }

    pub fn add_app_name(self, app_name: String) -> (r: Self)
        ensures
            r@ == (BuilderState { app_name: Some(app_name@), ..self@ }),
    {
        ConfigBuilder { app_name: Some(app_name), ..self }
    }

    pub fn add_sessions(self, value: bool) -> (r: Self)
        ensures
            r@ == (BuilderState { sessions: Some(value), ..self@ }),
    {
        ConfigBuilder { sessions: Some(value), ..self }
    }

    pub fn add_turso(self, value: bool) -> (r: Self)
        ensures
            r@ == (BuilderState { turso: Some(value), ..self@ }),
    {
        ConfigBuilder { turso: Some(value), ..self }
    }

    pub fn add_htmx(self, value: bool) -> (r: Self)
        ensures
            r@ == (BuilderState { htmx: Some(value), ..self@ }),
    {
        ConfigBuilder { htmx: Some(value), ..self }
    }

    pub fn add_tailwind(self, value: bool) -> (r: Self)
        ensures
            r@ == (BuilderState { tailwind: Some(value), ..self@ }),
    {
        ConfigBuilder { tailwind: Some(value), ..self }
    }

    pub fn add_air(self, value: bool) -> (r: Self)
        ensures
            r@ == (BuilderState { air: Some(value), ..self@ }),
    {
        ConfigBuilder { air: Some(value), ..self }
    }

    /// The finished configuration: every field that was set, and the defaults
    /// (`false`, the empty name) for the rest.
    pub fn out(self) -> (r: Config)
        ensures
            r.app_name@ == name_or_default(self@.app_name),
            r.sessions == flag_or_default(self@.sessions),
            r.turso == flag_or_default(self@.turso),
            r.htmx == flag_or_default(self@.htmx),
            r.tailwind == flag_or_default(self@.tailwind),
            r.air == flag_or_default(self@.air),
    {
        Config {
            app_name: match self.app_name {
                Some(name) => name,
                None => String::new(),
            },
            sessions: match self.sessions {
                Some(value) => value,
                None => false,
            },
            turso: match self.turso {
                Some(value) => value,
                None => false,
            },
            htmx: match self.htmx {
                Some(value) => value,
                None => false,
            },
            tailwind: match self.tailwind {
                Some(value) => value,
                None => false,
            },
            air: match self.air {
                Some(value) => value,
                None => false,
            },
        }
    }
}

} // verus!
