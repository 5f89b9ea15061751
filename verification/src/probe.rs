//! Per-candidate analysis: the decision whether a probed candidate is
//! reported, and the assembly of its output line. The caller performs the
//! HTTP requests and hands the received data here as plain values; a request
//! that could not be made at all abandons the candidate before this point.
use vstd::prelude::*;

use crate::classify::StatusBucket;
use crate::classify::classify_status;
use crate::classify::spec_classify;
use crate::job::Job;
use crate::job::JobView;
use crate::regexes::regex_capture_group1s;
use crate::regexes::regex_group1s;
use crate::regexes::regex_is_match;
use crate::regexes::regex_match;
use crate::regexes::regex_ok;
use crate::regexes::regex_valid;
use crate::text::bracket;
use crate::text::bracketed;
use crate::text::dec_of;
use crate::text::join_commas;
use crate::text::join_with_commas;
use crate::text::u64_to_dec;
use crate::text::views;

verus! {

/// What one substantive probe of a candidate returned, as received.
pub struct ProbeOutcome {
    /// The HTTP status code.
    pub status: u16,
    /// The response headers, in the order received.
    pub headers: Vec<(String, String)>,
    /// The response body as text.
    pub body: String,
    /// The transport-reported content length, if any.
    pub content_length: Option<u64>,
    /// The Content-Type header's value, if present.
    pub content_type: Option<String>,
    /// The Server header's value, if present.
    pub server: Option<String>,
}

#[verifier::ext_equal]
pub ghost struct OutcomeView {
    pub status: u16,
    pub headers: Seq<(Seq<char>, Seq<char>)>,
    pub body: Seq<char>,
    pub content_length: Option<u64>,
    pub content_type: Option<Seq<char>>,
    pub server: Option<Seq<char>>,
}

impl View for ProbeOutcome {
    type V = OutcomeView;

    open spec fn view(&self) -> OutcomeView {
        OutcomeView {
            status: self.status,
            headers: self.headers@.map_values(|p: (String, String)| (p.0@, p.1@)),
            body: self.body@,
            content_length: self.content_length,
            content_type: match self.content_type {
                Some(s) => Some(s@),
                None => None,
            },
            server: match self.server {
                Some(s) => Some(s@),
                None => None,
            },
        }
    }
}

/// One reported match: the printable fields of a surviving candidate, each
/// already in its final form (bracketed where present, empty where off).
pub struct MatchResult {
    pub url: String,
    pub title: String,
    pub status: String,
    pub tech: String,
    pub content_type: String,
    pub content_length: String,
    pub server: String,
    /// The status class, for presentation; present exactly when status-code
    /// reporting is on.
    pub bucket: Option<StatusBucket>,
}

#[verifier::ext_equal]
pub ghost struct MatchView {
    pub url: Seq<char>,
    pub title: Seq<char>,
    pub status: Seq<char>,
    pub tech: Seq<char>,
    pub content_type: Seq<char>,
    pub content_length: Seq<char>,
    pub server: Seq<char>,
    pub bucket: Option<StatusBucket>,
}

impl View for MatchResult {
    type V = MatchView;

    open spec fn view(&self) -> MatchView {
        MatchView {
            url: self.url@,
            title: self.title@,
            status: self.status@,
            tech: self.tech@,
            content_type: self.content_type@,
            content_length: self.content_length@,
            server: self.server@,
            bucket: self.bucket,
        }
    }
}

/// The fixed pattern the page title is read with.
pub open spec fn title_pattern() -> Seq<char> {
    "<title>(.*)</title>"@
}

/// The first non-empty entry, if any: how the title is picked from the
/// captured groups.
pub open spec fn first_nonempty(gs: Seq<Seq<char>>) -> Option<Seq<char>>
    decreases gs.len(),
{
    if gs.len() == 0 {
        None
    } else if gs[0].len() > 0 {
        Some(gs[0])
    } else {
        first_nonempty(gs.drop_first())
    }
}

/// One header as a "name:value" line, the form the header pattern is applied
/// to.
pub open spec fn header_line_view(p: (Seq<char>, Seq<char>)) -> Seq<char> {
    p.0 + ":"@ + p.1
}

/// Whether any received header line matches the pattern.
pub open spec fn any_header_match(pat: Seq<char>, hs: Seq<(Seq<char>, Seq<char>)>) -> bool {
    exists|i: int| 0 <= i < hs.len() && regex_match(pat, header_line_view(hs[i]))
}

/// Whether the path probe lets the candidate through: no path was configured,
/// or the probe was made and returned neither 404 nor 400.
pub open spec fn path_gate(path: Seq<char>, path_status: Option<u16>) -> bool {
    path.len() == 0 || (path_status matches Some(st) && st != 404 && st != 400)
}

/// The views of a technology-scan result.
pub open spec fn tech_views(t: Option<Vec<String>>) -> Option<Seq<Seq<char>>> {
    match t {
        Some(names) => Some(views(names@)),
        None => None,
    }
}

/// Whether the candidate is reported: the path probe let it through, the
/// header pattern (when given) compiled and matched some header line, the
/// title pattern compiled (when titles are on), the body pattern (when given)
/// compiled and matched the body, the technology scan (when on) succeeded, and
/// the status (when reported) fell in a printable class.
pub open spec fn spec_emits(
    j: JobView,
    path_status: Option<u16>,
    o: OutcomeView,
    t: Option<Seq<Seq<char>>>,
) -> bool {
    &&& path_gate(j.path, path_status)
    &&& j.header_regex.len() > 0 ==> regex_ok(j.header_regex) && any_header_match(
        j.header_regex,
        o.headers,
    )
    &&& j.display_title ==> regex_ok(title_pattern())
    &&& j.body_regex.len() > 0 ==> regex_ok(j.body_regex) && regex_match(j.body_regex, o.body)
    &&& j.display_tech ==> t is Some
    &&& j.status_codes ==> spec_classify(o.status) is Some
}

/// The title field: the first non-empty captured title, bracketed; empty when
/// titles are off or no title was found.
pub open spec fn spec_title_field(flag: bool, body: Seq<char>) -> Seq<char> {
    if flag {
        match first_nonempty(regex_group1s(title_pattern(), body)) {
            Some(t) => bracketed(t),
            None => Seq::empty(),
        }
    } else {
        Seq::empty()
    }
}

/// The status field: the code in brackets when reported, else empty.
pub open spec fn spec_status_field(flag: bool, status: u16) -> Seq<char> {
    if flag {
        bracketed(dec_of(status as nat))
    } else {
        Seq::empty()
    }
}

/// The technology field: the scanned names comma-joined in brackets; empty
/// when detection is off or nothing was found.
pub open spec fn spec_tech_field(flag: bool, t: Option<Seq<Seq<char>>>) -> Seq<char> {
    if flag {
        match t {
            Some(names) => if names.len() == 0 {
                Seq::empty()
            } else {
                bracketed(join_commas(names))
            },
            None => Seq::empty(),
        }
    } else {
        Seq::empty()
    }
}

/// The content-length field: always bracketed when reported, empty brackets
/// where the transport gave no length.
pub open spec fn spec_content_length_field(flag: bool, cl: Option<u64>) -> Seq<char> {
    if flag {
        bracketed(
            match cl {
                Some(n) => dec_of(n as nat),
                None => Seq::empty(),
            },
        )
    } else {
        Seq::empty()
    }
}

/// A verbatim header field (Content-Type or Server): bracketed when reported,
/// present and non-empty; else empty.
pub open spec fn spec_header_field(flag: bool, v: Option<Seq<char>>) -> Seq<char> {
    if flag {
        match v {
            Some(s) => if s.len() > 0 {
                bracketed(s)
            } else {
                Seq::empty()
            },
            None => Seq::empty(),
        }
    } else {
        Seq::empty()
    }
}

/// The status class attached to a report: present exactly when status-code
/// reporting is on.
pub open spec fn spec_bucket(flag: bool, status: u16) -> Option<StatusBucket> {
    if flag {
        spec_classify(status)
    } else {
        None
    }
}

/// The printable fields of a reported candidate.
pub open spec fn spec_fields(
    j: JobView,
    url: Seq<char>,
    o: OutcomeView,
    t: Option<Seq<Seq<char>>>,
) -> MatchView {
    MatchView {
        url: url,
        title: spec_title_field(j.display_title, o.body),
        status: spec_status_field(j.status_codes, o.status),
        tech: spec_tech_field(j.display_tech, t),
        content_type: spec_header_field(j.content_type, o.content_type),
        content_length: spec_content_length_field(j.content_length, o.content_length),
        server: spec_header_field(j.server, o.server),
        bucket: spec_bucket(j.status_codes, o.status),
    }
}

/// The output line: the seven fields in their fixed order, space-separated.
pub open spec fn spec_line(m: MatchView) -> Seq<char> {
    m.url + " "@ + m.title + " "@ + m.status + " "@ + m.tech + " "@ + m.content_type + " "@
        + m.content_length + " "@ + m.server
}

proof fn lemma_first_nonempty_skip(gs: Seq<Seq<char>>, i: int)
    requires
        0 <= i <= gs.len(),
        forall|k: int| 0 <= k < i ==> gs[k].len() == 0,
    ensures
        first_nonempty(gs) == first_nonempty(gs.skip(i)),
    decreases i,
{
    if i > 0 {
        assert(gs.skip(0) =~= gs);
        assert(gs.drop_first() =~= gs.skip(1));
        lemma_first_nonempty_skip(gs.drop_first(), i - 1);
        assert(gs.drop_first().skip(i - 1) =~= gs.skip(i));
    } else {
        assert(gs.skip(0) =~= gs);
    }
}

impl MatchResult {
    /// Render the fields as one output line.
    pub fn format_line(&self) -> (r: String)
        ensures
            r@ == spec_line(self@),
    {
        let mut r = self.url.clone();
        r.append(" ");
        r.append(self.title.as_str());
        r.append(" ");
        r.append(self.status.as_str());
        r.append(" ");
        r.append(self.tech.as_str());
        r.append(" ");
        r.append(self.content_type.as_str());
        r.append(" ");
        r.append(self.content_length.as_str());
        r.append(" ");
        r.append(self.server.as_str());
        proof {
            assert(r@ =~= spec_line(self@));
        }
        r
    }
}

/// Decide whether the probed candidate is reported and, if so, build its
/// printable fields. `path_status` is what the path probe returned, where one
/// was made; a technology scan that failed is `None` and drops the candidate
/// when detection is on.
pub fn analyze_candidate(
    job: &Job,
    url: &str,
    path_status: Option<u16>,
    outcome: &ProbeOutcome,
    tech: Option<Vec<String>>,
) -> (r: Option<MatchResult>)
    requires
        job.wf(),
    ensures
        r is Some <==> spec_emits(job@, path_status, outcome@, tech_views(tech)),
        r matches Some(m) ==> m@ == spec_fields(job@, url@, outcome@, tech_views(tech)),
{
    let ghost jv = job@;
    let ghost ov = outcome@;
    let ghost tv = tech_views(tech);

    // Path gate: a configured path whose probe failed, or answered 404 or
    // 400, abandons the candidate.
    let path = job.path.as_ref().unwrap();
    if !path.as_str().is_empty() {
        match path_status {
            None => {
                return None;
            },
            Some(st) => {
                if st == 404 || st == 400 {
                    return None;
                }
            },
        }
    }

    // Header gate: when a header pattern is given, some received header line
    // must match it.
    let hpat = job.header_regex.as_ref().unwrap();
    if !hpat.as_str().is_empty() {
        if !regex_valid(hpat.as_str()) {
            return None;
        }
        let mut matched = false;
        let mut i: usize = 0;
        while i < outcome.headers.len() && !matched
            invariant
                0 <= i <= outcome.headers@.len(),
                regex_ok(hpat@),
                hpat@ == jv.header_regex,
                ov == outcome@,
                ov.headers == outcome.headers@.map_values(|p: (String, String)| (p.0@, p.1@)),
                matched ==> any_header_match(jv.header_regex, ov.headers),
                !matched ==> forall|k: int|
                    0 <= k < i ==> !regex_match(jv.header_regex, header_line_view(ov.headers[k])),
            decreases outcome.headers@.len() - i,
        {
            let p = &outcome.headers[i];
            let mut line = p.0.clone();
            line.append(":");
            line.append(p.1.as_str());
            proof {
                assert(ov.headers[i as int] == (p.0@, p.1@));
                assert(line@ =~= header_line_view(ov.headers[i as int]));
            }
            if regex_is_match(hpat.as_str(), line.as_str()) {
                matched = true;
                proof {
                    assert(regex_match(jv.header_regex, header_line_view(ov.headers[i as int])));
                }
            }
            i = i + 1;
        }
        if !matched {
            return None;
        }
    }

    // Title: the first non-empty captured title, bracketed.
    let mut title_field = String::new();
    if job.display_title.unwrap() {
        if !regex_valid("<title>(.*)</title>") {
            return None;
        }
        let groups = regex_capture_group1s("<title>(.*)</title>", outcome.body.as_str());
        let ghost gvs = regex_group1s(title_pattern(), ov.body);
        proof {
            assert(groups.deep_view() == gvs);
        }
        let glen = groups.len();
        let mut found = false;
        let mut i: usize = 0;
        while i < glen && !found
            invariant
                0 <= i <= gvs.len(),
                glen == gvs.len(),
                groups.deep_view() == gvs,
                !found ==> forall|k: int| 0 <= k < i ==> gvs[k].len() == 0,
                !found ==> title_field@ == Seq::<char>::empty(),
                found ==> 1 <= i && gvs[i - 1].len() > 0 && title_field@ == bracketed(gvs[i - 1])
                    && (forall|k: int| 0 <= k < i - 1 ==> gvs[k].len() == 0),
            decreases glen - i,
        {
            proof {
                assert(gvs[i as int] == groups@[i as int]@);
            }
            if !groups[i].as_str().is_empty() {
                title_field = bracket(groups[i].as_str());
                found = true;
            }
            i = i + 1;
        }
        proof {
            if found {
                lemma_first_nonempty_skip(gvs, i - 1);
                assert(gvs.skip(i - 1)[0] == gvs[i - 1]);
                assert(first_nonempty(gvs) == Some(gvs[i - 1]));
            } else {
                lemma_first_nonempty_skip(gvs, gvs.len() as int);
                assert(gvs.skip(gvs.len() as int) =~= Seq::<Seq<char>>::empty());
            }
            assert(title_field@ == spec_title_field(jv.display_title, ov.body));
        }
    }

    // Body gate: a given body pattern must compile and match the body.
    let bpat = job.body_regex.as_ref().unwrap();
    if !bpat.as_str().is_empty() {
        if !regex_valid(bpat.as_str()) {
            return None;
        }
        if !regex_is_match(bpat.as_str(), outcome.body.as_str()) {
            return None;
        }
    }

    // Technology detection: a failed scan drops the candidate; an empty scan
    // prints nothing.
    let mut tech_field = String::new();
    if job.display_tech.unwrap() {
        match &tech {
            None => {
                return None;
            },
            Some(names) => {
                if names.len() > 0 {
                    let joined = join_with_commas(names);
                    tech_field = bracket(joined.as_str());
                }
            },
        }
    }

    // Status: when reported, the code must fall in a printable class.
    let mut status_field = String::new();
    let mut bucket: Option<StatusBucket> = None;
    if job.status_codes.unwrap() {
        match classify_status(outcome.status) {
            None => {
                return None;
            },
            Some(b) => {
                bucket = Some(b);
                let s = u64_to_dec(outcome.status as u64);
                status_field = bracket(s.as_str());
            },
        }
    }

    // Content length: always bracketed when reported, empty where absent.
    let mut cl_field = String::new();
    if job.content_length.unwrap() {
        match outcome.content_length {
            Some(n) => {
                let s = u64_to_dec(n);
                cl_field = bracket(s.as_str());
            },
            None => {
                cl_field = bracket("");
                proof {
                    reveal_strlit("");
                    assert(""@ =~= Seq::<char>::empty());
                }
            },
        }
    }

    // Content type and server: verbatim, bracketed when present and non-empty.
    let mut ct_field = String::new();
    if job.content_type.unwrap() {
        match &outcome.content_type {
            Some(s) => {
                if !s.as_str().is_empty() {
                    ct_field = bracket(s.as_str());
                }
            },
            None => {},
        }
    }
    let mut server_field = String::new();
    if job.server.unwrap() {
        match &outcome.server {
            Some(s) => {
                if !s.as_str().is_empty() {
                    server_field = bracket(s.as_str());
                }
            },
            None => {},
        }
    }

    let m = MatchResult {
        url: url.to_owned(),
        title: title_field,
        status: status_field,
        tech: tech_field,
        content_type: ct_field,
        content_length: cl_field,
        server: server_field,
        bucket,
    };
    proof {
        assert(m@ =~= spec_fields(jv, url@, ov, tv));
    }
    Some(m)
}

/// A candidate whose path probe answered 404 or 400 — or whose path probe
/// could not be made — never produces output, whatever the body or headers
/// hold.
pub proof fn lemma_path_probe_blocks(
    j: JobView,
    path_status: Option<u16>,
    o: OutcomeView,
    t: Option<Seq<Seq<char>>>,
)
    requires
        j.path.len() > 0,
        path_status matches Some(st) ==> st == 404 || st == 400,
    ensures
        !spec_emits(j, path_status, o, t),
{
}

/// With an empty body pattern, whether a live candidate is reported does not
/// depend on the body at all: two responses alike in headers and status are
/// reported alike.
pub proof fn lemma_empty_body_regex_eligible(
    j: JobView,
    path_status: Option<u16>,
    o1: OutcomeView,
    o2: OutcomeView,
    t: Option<Seq<Seq<char>>>,
)
    requires
        j.body_regex.len() == 0,
        o1.headers == o2.headers,
        o1.status == o2.status,
    ensures
        spec_emits(j, path_status, o1, t) == spec_emits(j, path_status, o2, t),
{
}

/// A non-empty body pattern that does not match the body drops the candidate.
pub proof fn lemma_body_regex_drops(
    j: JobView,
    path_status: Option<u16>,
    o: OutcomeView,
    t: Option<Seq<Seq<char>>>,
)
    requires
        j.body_regex.len() > 0,
        !regex_match(j.body_regex, o.body),
    ensures
        !spec_emits(j, path_status, o, t),
{
}

/// The analysis is a function of its inputs alone: run twice on the same job,
/// gates, response and scan, it reports the same decision and the same fields.
pub proof fn lemma_analysis_deterministic(
    j1: JobView,
    j2: JobView,
    url1: Seq<char>,
    url2: Seq<char>,
    ps1: Option<u16>,
    ps2: Option<u16>,
    o1: OutcomeView,
    o2: OutcomeView,
    t1: Option<Seq<Seq<char>>>,
    t2: Option<Seq<Seq<char>>>,
)
    requires
        j1 == j2,
        url1 == url2,
        ps1 == ps2,
        o1 == o2,
        t1 == t2,
    ensures
        spec_emits(j1, ps1, o1, t1) == spec_emits(j2, ps2, o2, t2),
        spec_fields(j1, url1, o1, t1) == spec_fields(j2, url2, o2, t2),
{
}

} // verus!
