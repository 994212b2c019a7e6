//! Which logging backend to set up, from what was configured when the agent
//! was built and what its environment says.

use crate::text::opt_view;
use vstd::prelude::*;

verus! {

/// The source named in remote log records where none is configured.
pub open spec fn default_source() -> Seq<char> {
    "orm"@
}

/// One setting: its value from build time and its value from the
/// environment. The value from build time comes first.
pub struct Setting {
    pub built_in: Option<String>,
    pub environment: Option<String>,
}

/// All that the choice of a backend depends on.
pub struct Settings {
    /// The address of the remote log service.
    pub api_url: Setting,
    /// The key for the remote log service.
    pub api_key: Setting,
    /// The tags of remote log records.
    pub tags: Setting,
    /// The service named in remote log records.
    pub service: Setting,
    /// The source named in remote log records.
    pub source: Setting,
    /// The host's name, from the environment.
    pub hostname: Option<String>,
    /// Whether the environment configures the local logger.
    pub rust_log: bool,
    /// Whether the agent is a debug build.
    pub debug_build: bool,
}

/// The least severe level that is logged.
#[derive(Debug, Clone, Copy, PartialEq, Eq, Structural)]
pub enum Level {
    Debug,
    Info,
}

/// The configuration of the remote log service.
#[derive(Debug)]
pub struct Remote {
    pub url: String,
    pub api_key: String,
    pub tags: Option<String>,
    pub service: Option<String>,
    pub source: String,
    pub hostname: Option<String>,
}

/// A logging backend.
#[derive(Debug)]
pub enum Backend {
    /// The remote log service, logging from `Info` on.
    Remote(Remote),
    /// The local logger, configured by the environment.
    Environment,
    /// The local logger at a fixed level.
    Local(Level),
}

/// The mathematical content of a [`Remote`].
pub struct RemoteView {
    pub url: Seq<char>,
    pub api_key: Seq<char>,
    pub tags: Option<Seq<char>>,
    pub service: Option<Seq<char>>,
    pub source: Seq<char>,
    pub hostname: Option<Seq<char>>,
}

/// The mathematical content of a [`Backend`].
pub enum BackendView {
    Remote(RemoteView),
    Environment,
    Local(Level),
}

impl View for Backend {
    type V = BackendView;

    open spec fn view(&self) -> BackendView {
        match self {
            Backend::Remote(r) => BackendView::Remote(
                RemoteView {
                    url: r.url@,
                    api_key: r.api_key@,
                    tags: opt_view(r.tags),
                    service: opt_view(r.service),
                    source: r.source@,
                    hostname: opt_view(r.hostname),
                },
            ),
            Backend::Environment => BackendView::Environment,
            Backend::Local(level) => BackendView::Local(*level),
        }
    }
}

/// The value of a setting: the one from build time if there is one, else the
/// one from the environment.
pub open spec fn value_of(s: Setting) -> Option<Seq<char>> {
    match s.built_in {
        Some(v) => Some(v@),
        None => opt_view(s.environment),
    }
}

/// The backend that the settings call for: the remote log service where both
/// its address and its key are set; else the local logger, configured by the
/// environment where that configures it, and at `Debug` in a debug build and
/// `Info` in any other.
pub open spec fn chosen(s: Settings) -> BackendView {
    if value_of(s.api_url) is Some && value_of(s.api_key) is Some {
        BackendView::Remote(
            RemoteView {
                url: value_of(s.api_url)->0,
                api_key: value_of(s.api_key)->0,
                tags: value_of(s.tags),
                service: value_of(s.service),
                source: match value_of(s.source) {
                    Some(v) => v,
                    None => default_source(),
                },
                hostname: opt_view(s.hostname),
            },
        )
    } else if s.rust_log {
        BackendView::Environment
    } else if s.debug_build {
        BackendView::Local(Level::Debug)
    } else {
        BackendView::Local(Level::Info)
    }
}

impl Setting {
    /// The value of the setting.
    pub fn value(self) -> (v: Option<String>)
        ensures
            opt_view(v) == value_of(self),
    {
        match self.built_in {
            Some(v) => Some(v),
            None => self.environment,
        }
    }
}

/// Chooses the logging backend.
pub fn setup(settings: Settings) -> (backend: Backend)
    ensures
        backend@ == chosen(settings),
{
    let Settings { api_url, api_key, tags, service, source, hostname, rust_log, debug_build } =
        settings;
    match (api_url.value(), api_key.value()) {
        (Some(url), Some(api_key)) => {
            let source = match source.value() {
                Some(v) => v,
                None => String::from_str("orm"),
            };
            Backend::Remote(
                Remote { url, api_key, tags: tags.value(), service: service.value(), source, hostname },
            )
        },
        _ => if rust_log {
            Backend::Environment
        } else if debug_build {
            Backend::Local(Level::Debug)
        } else {
            Backend::Local(Level::Info)
        },
    }
}

} // verus!
