//! The text of the HAProxy configuration: which services it routes, and what it
//! becomes when one is added or removed.
use crate::text;
use crate::text::{chars_of, join, lines, same_text, slice_text, starts_with, trim, trim_start};
use vstd::prelude::*;

verus! {

/// How long to wait after a reload before the next edit may start, so that the new
/// HAProxy worker can come up.
pub const RELOAD_SETTLE_MS: u64 = 750;

/// What can go wrong while the configuration is edited.
#[derive(Debug)]
pub enum ConfigError {
    /// The file could not be read or written.
    Io(String),
    /// The file has no line before which routing rules could go.
    FrontendNotFound,
    /// HAProxy rejected the new text.
    ValidationFailed(String),
    /// HAProxy could not be told to reload.
    ReloadFailed(String),
}

/// The value of a [`ConfigError`].
pub enum ConfigErrorView {
    /// See [`ConfigError::Io`].
    Io(Seq<char>),
    /// See [`ConfigError::FrontendNotFound`].
    FrontendNotFound,
    /// See [`ConfigError::ValidationFailed`].
    ValidationFailed(Seq<char>),
    /// See [`ConfigError::ReloadFailed`].
    ReloadFailed(Seq<char>),
}

impl View for ConfigError {
    type V = ConfigErrorView;

    open spec fn view(&self) -> ConfigErrorView {
        match *self {
            ConfigError::Io(e) => ConfigErrorView::Io(e@),
            ConfigError::FrontendNotFound => ConfigErrorView::FrontendNotFound,
            ConfigError::ValidationFailed(e) => ConfigErrorView::ValidationFailed(e@),
            ConfigError::ReloadFailed(e) => ConfigErrorView::ReloadFailed(e@),
        }
    }
}

impl ConfigErrorView {
    /// The error in words.
    pub open spec fn text(self) -> Seq<char> {
        match self {
            ConfigErrorView::Io(e) => "io error: "@ + e,
            ConfigErrorView::FrontendNotFound =>
                "frontend section not found in haproxy config — cannot insert ACL"@,
            ConfigErrorView::ValidationFailed(e) => "haproxy config validation failed: "@ + e,
            ConfigErrorView::ReloadFailed(e) => "haproxy reload failed: "@ + e,
        }
    }
}

impl ConfigError {
    /// The error in words.
    pub fn message(&self) -> (text: String)
        ensures
            text@ == self@.text(),
    {
        match self {
            ConfigError::Io(e) => "io error: ".to_owned().concat(e.as_str()),
            ConfigError::FrontendNotFound =>
                "frontend section not found in haproxy config — cannot insert ACL".to_owned(),
            ConfigError::ValidationFailed(e) => "haproxy config validation failed: ".to_owned().concat(
                e.as_str(),
            ),
            ConfigError::ReloadFailed(e) => "haproxy reload failed: ".to_owned().concat(e.as_str()),
        }
    }
}

// ── the text of a service ───────────────────────────────────────────────────
/// The start of the line that matches requests for a service, without its indent.
pub open spec fn marker(service: Seq<char>) -> Seq<char> {
    "acl host_"@ + service + " "@
}

/// The line that opens the backend of a service.
pub open spec fn header(service: Seq<char>) -> Seq<char> {
    "backend "@ + service
}

/// The line that matches requests for a service by their host.
pub open spec fn acl_line(service: Seq<char>, domain: Seq<char>) -> Seq<char> {
    "    acl host_"@ + service + " hdr(host) -i "@ + domain
}

/// The line that routes matched requests to the backend of a service.
pub open spec fn use_line(service: Seq<char>) -> Seq<char> {
    "    use_backend "@ + service + " if host_"@ + service
}

/// The lines of a backend section below its opening line.
pub open spec fn body_lines() -> Seq<Seq<char>> {
    seq![
        "    balance leastconn"@,
        "    option http-server-close"@,
        "    option httpchk GET /"@,
        "    http-check expect rstatus 2[0-9][0-9]"@,
        "    http-response set-header X-Served-By %[srv_name]"@,
    ]
}

/// The backend section of a service, with an empty line before it.
pub open spec fn block(service: Seq<char>) -> Seq<char> {
    "\n"@ + header(service) + "\n"@ + text::joined(body_lines(), "\n"@) + "\n"@
}

/// Builds the backend section of a service.
pub fn backend_block(service_name: &str) -> (section: String)
    ensures
        section@ == block(service_name@),
{
    let mut body: Vec<String> = Vec::new();
    body.push("    balance leastconn".to_owned());
    body.push("    option http-server-close".to_owned());
    body.push("    option httpchk GET /".to_owned());
    body.push("    http-check expect rstatus 2[0-9][0-9]".to_owned());
    body.push("    http-response set-header X-Served-By %[srv_name]".to_owned());
    assert(text::texts(body@) =~= body_lines());
    let mut section = "\n".to_owned();
    section.append(backend_header(service_name).as_str());
    section.append("\n");
    section.append(join(&body, "\n").as_str());
    section.append("\n");
    section
}

/// Builds the two routing lines of a service.
pub fn acl_lines(service_name: &str, domain: &str) -> (pair: [String; 2])
    ensures
        pair@[0]@ == acl_line(service_name@, domain@),
        pair@[1]@ == use_line(service_name@),
{
    let mut acl = "    acl host_".to_owned();
    acl.append(service_name);
    acl.append(" hdr(host) -i ");
    acl.append(domain);
    let mut rule = "    use_backend ".to_owned();
    rule.append(service_name);
    rule.append(" if host_");
    rule.append(service_name);
    [acl, rule]
}

/// Builds the text by which a service is found.
pub fn acl_marker(service_name: &str) -> (text: String)
    ensures
        text@ == marker(service_name@),
{
    let mut text = "acl host_".to_owned();
    text.append(service_name);
    text.append(" ");
    text
}

/// Builds the line that opens the backend of a service.
pub fn backend_header(service_name: &str) -> (text: String)
    ensures
        text@ == header(service_name@),
{
    let mut text = "backend ".to_owned();
    text.append(service_name);
    text
}

// ── reading the file ────────────────────────────────────────────────────────
/// Whether a line matches requests for a service.
pub open spec fn line_lists(line: Seq<char>, service: Seq<char>) -> bool {
    marker(service).is_prefix_of(text::trimmed(line))
}

/// Whether a configuration routes a service.
pub open spec fn lists(content: Seq<char>, service: Seq<char>) -> bool {
    exists|i: int|
        0 <= i < text::lines_of(content).len() && line_lists(#[trigger] text::lines_of(content)[i], service)
}

/// Whether the configuration already routes a service.
pub fn service_exists(content: &str, service_name: &str) -> (exists_already: bool)
    ensures
        exists_already == lists(content@, service_name@),
{
    let marker_text = acl_marker(service_name);
    let all = lines(content);
    let mut i: usize = 0;
    while i < all.len()
        invariant
            text::texts(all@) == text::lines_of(content@),
            marker_text@ == marker(service_name@),
            i <= all@.len(),
            forall|j: int| 0 <= j < i ==> !line_lists(#[trigger] text::texts(all@)[j], service_name@),
        decreases all@.len() - i,
    {
        let bare = trim(all[i].as_str());
        assert(all@[i as int]@ == text::texts(all@)[i as int]);
        if starts_with(bare.as_str(), marker_text.as_str()) {
            assert(line_lists(text::lines_of(content@)[i as int], service_name@));
            return true;
        }
        i = i + 1;
    }
    false
}

/// The backend name that a line opens, where it opens the backend of a service.
pub open spec fn listed_backend(line: Seq<char>) -> Option<Seq<char>> {
    if "backend svc_"@.is_prefix_of(text::trimmed(line)) {
        Some(text::trimmed(line).skip("backend "@.len() as int))
    } else {
        None
    }
}

/// The service backends among the first lines of a configuration, in order.
pub open spec fn backends_in(all: Seq<Seq<char>>, n: nat) -> Seq<Seq<char>>
    decreases n,
{
    if n == 0 {
        Seq::empty()
    } else {
        let before = backends_in(all, (n - 1) as nat);
        match listed_backend(all[n - 1]) {
            Some(name) => before.push(name),
            None => before,
        }
    }
}

/// The service backends of a configuration, in order.
pub open spec fn backends_of(content: Seq<char>) -> Seq<Seq<char>> {
    backends_in(text::lines_of(content), text::lines_of(content).len())
}

/// Lists the service backends of a configuration, in order.
pub fn list_services(content: &str) -> (names: Vec<String>)
    ensures
        text::texts(names@) == backends_of(content@),
{
    let all = lines(content);
    let mut names: Vec<String> = Vec::new();
    let mut i: usize = 0;
    assert(text::texts(names@) =~= backends_in(text::texts(all@), 0));
    while i < all.len()
        invariant
            text::texts(all@) == text::lines_of(content@),
            i <= all@.len(),
            text::texts(names@) == backends_in(text::texts(all@), i as nat),
        decreases all@.len() - i,
    {
        let bare = trim(all[i].as_str());
        let ghost before = text::texts(names@);
        assert(all@[i as int]@ == text::texts(all@)[i as int]);
        if starts_with(bare.as_str(), "backend svc_") {
            proof {
                reveal_strlit("backend svc_");
                reveal_strlit("backend ");
            }
            let from: usize = 8;
            let chars = chars_of(bare.as_str());
            let name = slice_text(&chars, from, chars.len());
            assert(name@ =~= bare@.skip("backend "@.len() as int));
            names.push(name);
            assert(text::texts(names@) =~= before.push(name@));
        }
        i = i + 1;
    }
    names
}

// ── changing the file ───────────────────────────────────────────────────────
/// Whether a line routes requests that no earlier rule took.
pub open spec fn is_rule(line: Seq<char>) -> bool {
    "default_backend"@.is_prefix_of(text::trimmed(line)) || "use_backend"@.is_prefix_of(text::trimmed(line))
}

/// How many lines stand before the first routing rule, or in all where there is
/// none.
pub open spec fn lines_before_rule(all: Seq<Seq<char>>) -> nat
    decreases all.len(),
{
    if all.len() == 0 || is_rule(all[0]) {
        0
    } else {
        1 + lines_before_rule(all.drop_first())
    }
}

/// The lines of a configuration with a service: its two routing lines stand before
/// the first rule, so that they are tried before the catch-all, and its backend
/// stands at the end.
pub open spec fn lines_with(
    all: Seq<Seq<char>>,
    service: Seq<char>,
    domain: Seq<char>,
) -> Seq<Seq<char>> {
    let at = lines_before_rule(all) as int;
    all.take(at) + seq![acl_line(service, domain), use_line(service)] + all.skip(at) + seq![
        block(service),
    ]
}

/// A configuration with a service, or `None` where it has no routing rule.
pub open spec fn with_service(
    content: Seq<char>,
    service: Seq<char>,
    domain: Seq<char>,
) -> Option<Seq<char>> {
    let all = text::lines_of(content);
    if lines_before_rule(all) < all.len() {
        Some(text::joined(lines_with(all, service, domain), "\n"@))
    } else {
        None
    }
}

/// The first routing rule is the one with no rule before it.
pub proof fn lemma_lines_before_rule(all: Seq<Seq<char>>, n: int)
    requires
        0 <= n <= all.len(),
        forall|i: int| 0 <= i < n ==> !is_rule(#[trigger] all[i]),
        n < all.len() ==> is_rule(all[n]),
    ensures
        lines_before_rule(all) == n,
    decreases n,
{
    if n > 0 {
        assert(!is_rule(all[0]));
        assert forall|i: int| 0 <= i < n - 1 implies !is_rule(#[trigger] all.drop_first()[i]) by {
            assert(!is_rule(all[i + 1]));
        }
        lemma_lines_before_rule(all.drop_first(), n - 1);
    }
}

/// How many lines stand before the first routing rule.
fn rule_index(all: &Vec<String>) -> (at: usize)
    ensures
        at == lines_before_rule(text::texts(all@)),
        at <= all@.len(),
{
    let ghost model = text::texts(all@);
    let mut at: usize = 0;
    while at < all.len()
        invariant
            model == text::texts(all@),
            at <= all@.len(),
            forall|j: int| 0 <= j < at ==> !is_rule(#[trigger] model[j]),
        decreases all@.len() - at,
    {
        let bare = trim(all[at].as_str());
        assert(all@[at as int]@ == model[at as int]);
        if starts_with(bare.as_str(), "default_backend") || starts_with(
            bare.as_str(),
            "use_backend",
        ) {
            proof {
                lemma_lines_before_rule(model, at as int);
            }
            return at;
        }
        at = at + 1;
    }
    proof {
        lemma_lines_before_rule(model, at as int);
    }
    at
}

/// Puts a service into the text of a configuration.
pub fn insert_service(content: &str, service_name: &str, domain: &str) -> (updated: Result<
    String,
    ConfigError,
>)
    ensures
        match updated {
            Ok(text) => with_service(content@, service_name@, domain@) == Some(text@),
            Err(e) => e is FrontendNotFound && with_service(content@, service_name@, domain@)
                is None,
        },
{
    let mut all = lines(content);
    let ghost before = text::texts(all@);
    let at: usize = rule_index(&all);
    if at == all.len() {
        return Err(ConfigError::FrontendNotFound);
    }
    let pair = acl_lines(service_name, domain);
    all.insert(at, pair[1].clone());
    all.insert(at, pair[0].clone());
    all.push(backend_block(service_name));
    assert(text::texts(all@) =~= lines_with(before, service_name@, domain@));
    Ok(join(&all, "\n"))
}

/// Whether a line opens a section: it is neither empty nor indented.
pub open spec fn opens_section(line: Seq<char>) -> bool {
    line.len() > 0 && line[0] != ' ' && line[0] != '\t'
}

/// Whether a line belongs to the backend section of a service: the last section
/// that was opened, at the line itself or before it, is that one.
pub open spec fn in_backend(all: Seq<Seq<char>>, service: Seq<char>, n: int) -> bool
    decreases n + 1,
{
    if n < 0 {
        false
    } else if opens_section(all[n]) {
        text::trimmed(all[n]) == header(service)
    } else {
        in_backend(all, service, n - 1)
    }
}

/// The start of a line that routes requests to the backend of a service, without its
/// indent.
pub open spec fn use_marker(service: Seq<char>) -> Seq<char> {
    "use_backend "@ + service + " "@
}

/// Whether a line is one of the routing lines of a service, whatever its indent.
pub open spec fn routes(line: Seq<char>, service: Seq<char>) -> bool {
    marker(service).is_prefix_of(text::trimmed_start(line)) || use_marker(service).is_prefix_of(
        text::trimmed_start(line),
    )
}

/// Whether a line stays when a service is removed: it neither routes the service nor
/// belongs to its backend.
pub open spec fn stays(all: Seq<Seq<char>>, service: Seq<char>, n: int) -> bool {
    !in_backend(all, service, n) && !routes(all[n], service)
}

/// Those of the first lines that stay when a service is removed.
pub open spec fn lines_without(all: Seq<Seq<char>>, service: Seq<char>, n: nat) -> Seq<Seq<char>>
    decreases n,
{
    if n == 0 {
        Seq::empty()
    } else if stays(all, service, n - 1) {
        lines_without(all, service, (n - 1) as nat).push(all[n - 1])
    } else {
        lines_without(all, service, (n - 1) as nat)
    }
}

/// A configuration without a service.
pub open spec fn without_service(content: Seq<char>, service: Seq<char>) -> Seq<char> {
    let all = text::lines_of(content);
    text::joined(lines_without(all, service, all.len()), "\n"@)
}

/// Whether a line opens a section of the file.
fn line_opens_section(line: &str) -> (r: bool)
    ensures
        r == opens_section(line@),
{
    let chars = chars_of(line);
    chars.len() > 0 && chars[0] != ' ' && chars[0] != '\t'
}

/// Takes a service out of the text of a configuration.
pub fn delete_service(content: &str, service_name: &str) -> (updated: String)
    ensures
        updated@ == without_service(content@, service_name@),
{
    let all = lines(content);
    let head = backend_header(service_name);
    let acl = acl_marker(service_name);
    let mut rule = "use_backend ".to_owned();
    rule.append(service_name);
    rule.append(" ");
    let mut kept: Vec<String> = Vec::new();
    let mut in_target = false;
    let mut i: usize = 0;
    assert(text::texts(kept@) =~= lines_without(text::texts(all@), service_name@, 0));
    while i < all.len()
        invariant
            text::texts(all@) == text::lines_of(content@),
            head@ == header(service_name@),
            acl@ == marker(service_name@),
            rule@ == use_marker(service_name@),
            i <= all@.len(),
            in_target == in_backend(text::texts(all@), service_name@, i - 1),
            text::texts(kept@) == lines_without(text::texts(all@), service_name@, i as nat),
        decreases all@.len() - i,
    {
        let line = all[i].as_str();
        let ghost before = text::texts(kept@);
        assert(line@ == text::texts(all@)[i as int]);
        if line_opens_section(line) {
            let bare = trim(line);
            in_target = same_text(bare.as_str(), head.as_str());
        }
        let bare = trim_start(line);
        if !in_target && !starts_with(bare.as_str(), acl.as_str()) && !starts_with(
            bare.as_str(),
            rule.as_str(),
        ) {
            kept.push(all[i].clone());
            assert(text::texts(kept@) =~= before.push(line@));
        }
        i = i + 1;
    }
    join(&kept, "\n")
}

} // verus!
