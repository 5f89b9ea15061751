//! Per-host job descriptors. A job is built once per input line from the
//! configuration snapshot taken at startup, is never mutated, and is consumed
//! by exactly one worker.
use vstd::prelude::*;

verus! {

/// The immutable configuration snapshot cloned into every job.
#[derive(Clone, Debug)]
pub struct Config {
    pub body_regex: String,
    pub header_regex: String,
    pub ports: String,
    pub path: String,
    pub display_title: bool,
    pub display_tech: bool,
    pub status_codes: bool,
    pub content_length: bool,
    pub content_type: bool,
    pub server: bool,
}

/// One unit of work: a host plus the flag snapshot it was built under.
#[derive(Clone, Debug)]
pub struct Job {
    pub host: Option<String>,
    pub body_regex: Option<String>,
    pub header_regex: Option<String>,
    pub ports: Option<String>,
    pub display_title: Option<bool>,
    pub display_tech: Option<bool>,
    pub status_codes: Option<bool>,
    pub content_length: Option<bool>,
    pub content_type: Option<bool>,
    pub server: Option<bool>,
    pub path: Option<String>,
}

/// A job's fields as plain mathematical values.
pub ghost struct JobView {
    pub host: Seq<char>,
    pub body_regex: Seq<char>,
    pub header_regex: Seq<char>,
    pub ports: Seq<char>,
    pub display_title: bool,
    pub display_tech: bool,
    pub status_codes: bool,
    pub content_length: bool,
    pub content_type: bool,
    pub server: bool,
    pub path: Seq<char>,
}

impl Job {
    /// Every field is present: what `build` establishes and every consumer
    /// relies on.
    pub open spec fn wf(&self) -> bool {
        &&& self.host is Some
        &&& self.body_regex is Some
        &&& self.header_regex is Some
        &&& self.ports is Some
        &&& self.display_title is Some
        &&& self.display_tech is Some
        &&& self.status_codes is Some
        &&& self.content_length is Some
        &&& self.content_type is Some
        &&& self.server is Some
        &&& self.path is Some
    }

    /// Build one job for `host` under the configuration snapshot `cfg`.
    pub fn build(host: String, cfg: &Config) -> (j: Job)
        ensures
            j.wf(),
            j@ == (JobView {
                host: host@,
                body_regex: cfg.body_regex@,
                header_regex: cfg.header_regex@,
                ports: cfg.ports@,
                display_title: cfg.display_title,
                display_tech: cfg.display_tech,
                status_codes: cfg.status_codes,
                content_length: cfg.content_length,
                content_type: cfg.content_type,
                server: cfg.server,
                path: cfg.path@,
            }),
    {
        Job {
            host: Some(host),
            body_regex: Some(cfg.body_regex.clone()),
            header_regex: Some(cfg.header_regex.clone()),
            ports: Some(cfg.ports.clone()),
            display_title: Some(cfg.display_title),
            display_tech: Some(cfg.display_tech),
            status_codes: Some(cfg.status_codes),
            content_length: Some(cfg.content_length),
            content_type: Some(cfg.content_type),
            server: Some(cfg.server),
            path: Some(cfg.path.clone()),
        }
    }
}

impl View for Job {
    type V = JobView;

    open spec fn view(&self) -> JobView {
        JobView {
            host: self.host.unwrap()@,
            body_regex: self.body_regex.unwrap()@,
            header_regex: self.header_regex.unwrap()@,
            ports: self.ports.unwrap()@,
            display_title: self.display_title.unwrap(),
            display_tech: self.display_tech.unwrap(),
            status_codes: self.status_codes.unwrap(),
            content_length: self.content_length.unwrap(),
            content_type: self.content_type.unwrap(),
            server: self.server.unwrap(),
            path: self.path.unwrap()@,
        }
    }
}

} // verus!
