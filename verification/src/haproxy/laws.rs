//! What adding and removing services does to the configuration as a whole.
use crate::haproxy::config;
use crate::text;
use vstd::prelude::*;

verus! {

/// Whether a text has no line feed.
pub open spec fn one_line(s: Seq<char>) -> bool {
    !s.contains('\n')
}

// ── texts ───────────────────────────────────────────────────────────────────
proof fn lemma_first_line_end(s: Seq<char>)
    ensures
        text::first_line_len(s) <= s.len(),
        forall|i: int| 0 <= i < text::first_line_len(s) ==> s[i] != '\n',
        text::first_line_len(s) < s.len() ==> s[text::first_line_len(s) as int] == '\n',
    decreases s.len(),
{
    if s.len() > 0 && s[0] != '\n' {
        let rest = s.drop_first();
        lemma_first_line_end(rest);
        assert forall|i: int| 0 <= i < text::first_line_len(s) implies s[i] != '\n' by {
            if i > 0 {
                assert(rest[i - 1] == s[i]);
            }
        }
    }
}

proof fn lemma_line_then(a: Seq<char>, b: Seq<char>)
    requires
        one_line(a),
    ensures
        text::lines_of(a + "\n"@ + b) == seq![text::without_return(a)] + text::lines_of(b),
{
    reveal_strlit("\n");
    let s = a + "\n"@ + b;
    let n = a.len() as int;
    assert forall|i: int| 0 <= i < n implies s[i] != '\n' by {
        assert(s[i] == a[i]);
        assert(a.contains(a[i]));
    }
    text::lemma_first_line(s, n);
    assert(s.take(n) =~= a);
    assert(s.skip(n + 1) =~= b);
}

proof fn lemma_lines_split(u: Seq<char>, v: Seq<char>)
    ensures
        text::lines_of(u + "\n"@ + v) == text::lines_of(u + "\n"@) + text::lines_of(v),
    decreases u.len(),
{
    reveal_strlit("\n");
    lemma_first_line_end(u);
    let n = text::first_line_len(u) as int;
    let head = u.take(n);
    assert(one_line(head));
    if n < u.len() {
        let tail = u.skip(n + 1);
        assert(u + "\n"@ + v =~= head + "\n"@ + (tail + "\n"@ + v));
        assert(u + "\n"@ =~= head + "\n"@ + (tail + "\n"@));
        lemma_line_then(head, tail + "\n"@ + v);
        lemma_line_then(head, tail + "\n"@);
        lemma_lines_split(tail, v);
        let first = seq![text::without_return(head)];
        assert(first + (text::lines_of(tail + "\n"@) + text::lines_of(v)) =~= first
            + text::lines_of(tail + "\n"@) + text::lines_of(v));
    } else {
        assert(head =~= u);
        lemma_line_then(u, v);
        assert(u + "\n"@ =~= u + "\n"@ + Seq::<char>::empty());
        lemma_line_then(u, Seq::empty());
    }
}

proof fn lemma_lines_are_single(s: Seq<char>)
    ensures
        forall|i: int| 0 <= i < text::lines_of(s).len() ==> one_line(#[trigger] text::lines_of(s)[i]),
    decreases s.len(),
{
    lemma_first_line_end(s);
    let n = text::first_line_len(s) as int;
    if s.len() == 0 {
    } else if n < s.len() {
        lemma_lines_are_single(s.skip(n + 1));
        let first = text::without_return(s.take(n));
        assert forall|i: int| 0 <= i < text::lines_of(s).len() implies one_line(
            #[trigger] text::lines_of(s)[i],
        ) by {
            if i == 0 {
                assert forall|j: int| 0 <= j < first.len() implies first[j] != '\n' by {
                    assert(first[j] == s[j]);
                }
            } else {
                assert(text::lines_of(s)[i] == text::lines_of(s.skip(n + 1))[i - 1]);
            }
        }
    } else {
        assert(text::lines_of(s)[0] == s);
    }
}

/// The lines, each without the carriage return that may end it.
pub open spec fn without_returns(all: Seq<Seq<char>>) -> Seq<Seq<char>> {
    Seq::new(all.len(), |i: int| text::without_return(all[i]))
}

/// Whether no text of a list has a line feed.
pub open spec fn all_one_line(all: Seq<Seq<char>>) -> bool {
    forall|i: int| 0 <= i < all.len() ==> one_line(#[trigger] all[i])
}

proof fn lemma_joined_then(parts: Seq<Seq<char>>, rest: Seq<char>)
    requires
        parts.len() > 0,
        all_one_line(parts),
    ensures
        text::lines_of(text::joined(parts, "\n"@) + "\n"@ + rest) == without_returns(parts)
            + text::lines_of(rest),
    decreases parts.len(),
{
    assert(one_line(parts[0]));
    if parts.len() == 1 {
        lemma_line_then(parts[0], rest);
        assert(without_returns(parts) =~= seq![text::without_return(parts[0])]);
    } else {
        let tail = parts.drop_first();
        assert(all_one_line(tail)) by {
            assert forall|i: int| 0 <= i < tail.len() implies one_line(#[trigger] tail[i]) by {
                assert(tail[i] == parts[i + 1]);
            }
        }
        lemma_joined_then(tail, rest);
        let more = text::joined(tail, "\n"@) + "\n"@ + rest;
        assert(text::joined(parts, "\n"@) + "\n"@ + rest =~= parts[0] + "\n"@ + more);
        lemma_line_then(parts[0], more);
        assert(without_returns(parts) =~= seq![text::without_return(parts[0])] + without_returns(
            tail,
        ));
        assert(seq![text::without_return(parts[0])] + (without_returns(tail) + text::lines_of(rest))
            =~= without_returns(parts) + text::lines_of(rest));
    }
}

proof fn lemma_joined_split(a: Seq<Seq<char>>, b: Seq<Seq<char>>)
    requires
        a.len() > 0,
        b.len() > 0,
    ensures
        text::joined(a + b, "\n"@) == text::joined(a, "\n"@) + "\n"@ + text::joined(b, "\n"@),
    decreases a.len(),
{
    let all = a + b;
    assert(all.drop_first() =~= a.drop_first() + b);
    assert(all[0] == a[0]);
    if a.len() == 1 {
        assert(a.drop_first() + b =~= b);
    } else {
        lemma_joined_split(a.drop_first(), b);
        assert(a[0] + "\n"@ + (text::joined(a.drop_first(), "\n"@) + "\n"@ + text::joined(b, "\n"@))
            =~= a[0] + "\n"@ + text::joined(a.drop_first(), "\n"@) + "\n"@ + text::joined(b, "\n"@));
    }
}

proof fn lemma_trimmed_start(indent: Seq<char>, core: Seq<char>)
    requires
        forall|i: int| 0 <= i < indent.len() ==> text::white_space(#[trigger] indent[i]),
        core.len() > 0,
        !text::white_space(core[0]),
    ensures
        text::trimmed_start(indent + core) == core,
    decreases indent.len(),
{
    if indent.len() == 0 {
        assert(indent + core =~= core);
    } else {
        assert(text::white_space(indent[0]));
        let fewer = indent.drop_first();
        assert forall|i: int| 0 <= i < fewer.len() implies text::white_space(
            #[trigger] fewer[i],
        ) by {
            assert(fewer[i] == indent[i + 1]);
        }
        lemma_trimmed_start(fewer, core);
        assert((indent + core).drop_first() =~= fewer + core);
    }
}

proof fn lemma_trimmed_end(s: Seq<char>, k: int)
    requires
        0 <= k < s.len(),
        !text::white_space(s[k]),
    ensures
        s.take(k + 1).is_prefix_of(text::trimmed_end(s)),
    decreases s.len(),
{
    if text::white_space(s.last()) {
        lemma_trimmed_end(s.drop_last(), k);
        assert(s.drop_last().take(k + 1) =~= s.take(k + 1));
    }
}

proof fn lemma_white_end(s: Seq<char>)
    requires
        s.len() > 0,
        text::white_space(s.last()),
    ensures
        text::trimmed(s) == text::trimmed(s.drop_last()),
    decreases s.len(),
{
    if text::white_space(s[0]) {
        if s.len() == 1 {
            assert(s.drop_first() =~= s.drop_last());
        } else {
            lemma_white_end(s.drop_first());
            assert(s.drop_first().drop_last() =~= s.drop_last().drop_first());
        }
    }
}

/// A carriage return at the end of a line is white space.
proof fn lemma_trimmed_without_return(s: Seq<char>)
    ensures
        text::trimmed(text::without_return(s)) == text::trimmed(s),
{
    if s.len() > 0 && s.last() == '\r' {
        lemma_white_end(s);
    }
}

// ── adding ──────────────────────────────────────────────────────────────────
/// Where the text with a service is split: before its routing lines, between them
/// and the lines that follow, and before its backend.
proof fn lemma_with_service_text(content: Seq<char>, service: Seq<char>, domain: Seq<char>)
    requires
        config::with_service(content, service, domain) is Some,
    ensures
        ({
            let all = text::lines_of(content);
            let at = config::lines_before_rule(all) as int;
            let after = config::with_service(content, service, domain)->0;
            let routing = config::acl_line(service, domain) + "\n"@ + config::use_line(service);
            let rest = routing + "\n"@ + (text::joined(all.skip(at), "\n"@) + "\n"@ + config::block(
                service,
            ));
            &&& 0 <= at < all.len()
            &&& at == 0 ==> after == rest
            &&& at > 0 ==> after == text::joined(all.take(at), "\n"@) + "\n"@ + rest
        }),
{
    let all = text::lines_of(content);
    let at = config::lines_before_rule(all) as int;
    let after = config::with_service(content, service, domain)->0;
    let pair = seq![config::acl_line(service, domain), config::use_line(service)];
    let routing = config::acl_line(service, domain) + "\n"@ + config::use_line(service);
    let tail = all.skip(at);
    let last = seq![config::block(service)];
    assert(pair.drop_first() =~= seq![config::use_line(service)]);
    reveal_with_fuel(text::joined, 2);
    assert(text::joined(pair, "\n"@) == routing);
    lemma_joined_split(tail, last);
    lemma_joined_split(pair, tail + last);
    let rest = routing + "\n"@ + (text::joined(tail, "\n"@) + "\n"@ + config::block(service));
    assert(text::joined(pair + (tail + last), "\n"@) == rest);
    if at > 0 {
        lemma_joined_split(all.take(at), pair + (tail + last));
        assert(config::lines_with(all, service, domain) =~= all.take(at) + (pair + (tail + last)));
    } else {
        assert(config::lines_with(all, service, domain) =~= pair + (tail + last));
    }
}

/// The lines of the text with a service: those from before, each without a carriage
/// return at its end, with the lines of the service's own text between and after
/// them.
proof fn lemma_with_service_lines(content: Seq<char>, service: Seq<char>, domain: Seq<char>)
    requires
        config::with_service(content, service, domain) is Some,
    ensures
        ({
            let all = text::lines_of(content);
            let at = config::lines_before_rule(all) as int;
            let after = config::with_service(content, service, domain)->0;
            let routing = config::acl_line(service, domain) + "\n"@ + config::use_line(service);
            &&& 0 <= at < all.len()
            &&& text::lines_of(after) == without_returns(all.take(at)) + text::lines_of(
                routing + "\n"@,
            ) + without_returns(all.skip(at)) + text::lines_of(config::block(service))
        }),
{
    let all = text::lines_of(content);
    let at = config::lines_before_rule(all) as int;
    let after = config::with_service(content, service, domain)->0;
    let routing = config::acl_line(service, domain) + "\n"@ + config::use_line(service);
    let block = config::block(service);
    lemma_with_service_text(content, service, domain);
    lemma_lines_are_single(content);
    let front = all.take(at);
    let tail = all.skip(at);
    assert forall|i: int| 0 <= i < front.len() implies one_line(#[trigger] front[i]) by {
        assert(front[i] == all[i]);
    }
    assert forall|i: int| 0 <= i < tail.len() implies one_line(#[trigger] tail[i]) by {
        assert(tail[i] == all[i + at]);
    }
    let back = text::joined(tail, "\n"@) + "\n"@ + block;
    lemma_joined_then(tail, block);
    lemma_lines_split(routing, back);
    let rest = routing + "\n"@ + back;
    if at > 0 {
        lemma_joined_then(front, rest);
    } else {
        assert(without_returns(front) =~= Seq::empty());
    }
    assert(text::lines_of(after) =~= without_returns(front) + text::lines_of(routing + "\n"@)
        + without_returns(tail) + text::lines_of(block));
}

/// What a routing line starts with, whatever its domain.
spec fn acl_start(service: Seq<char>) -> Seq<char> {
    "    acl host_"@ + service + " hdr(host) -i "@
}

proof fn lemma_acl_line_lists(service: Seq<char>, line: Seq<char>)
    requires
        acl_start(service).is_prefix_of(line),
    ensures
        config::line_lists(line, service),
{
    reveal_strlit("    acl host_");
    reveal_strlit("acl host_");
    reveal_strlit(" hdr(host) -i ");
    reveal_strlit(" ");
    let start = acl_start(service);
    let indent = line.take(4);
    let core = line.skip(4);
    assert(line =~= indent + core);
    assert(start =~= line.take(start.len() as int));
    assert forall|i: int| 0 <= i < line.len() && i < start.len() implies line[i] == start[i] by {
        assert(line.take(start.len() as int)[i] == line[i]);
    }
    assert forall|i: int| 0 <= i < indent.len() implies text::white_space(
        #[trigger] indent[i],
    ) by {
        assert(indent[i] == start[i]);
        assert(start[i] == ' ');
    }
    assert(core[0] == start[4]);
    assert(start[4] == 'a');
    lemma_trimmed_start(indent, core);
    let marker = config::marker(service);
    let k = marker.len() as int;
    assert(core[k] == start[k + 4]);
    assert(start[k + 4] == 'h');
    lemma_trimmed_end(core, k);
    assert(core.take(k) =~= marker) by {
        assert forall|i: int| 0 <= i < k implies core[i] == marker[i] by {
            assert(core[i] == start[i + 4]);
        }
    }
    let bare = text::trimmed(line);
    assert(core.take(k + 1).is_prefix_of(bare));
    assert(marker =~= bare.take(k)) by {
        assert(core.take(k + 1) =~= bare.take(k + 1));
        assert forall|i: int| 0 <= i < k implies marker[i] == bare[i] by {
            assert(bare.take(k + 1)[i] == bare[i]);
            assert(core.take(k + 1)[i] == core[i]);
            assert(core.take(k)[i] == core[i]);
        }
    }
}

/// A text that starts with a routing line, up to its domain, lists the service in
/// its first line.
proof fn lemma_routing_lists(service: Seq<char>, domain: Seq<char>)
    requires
        one_line(service),
    ensures
        ({
            let routing = config::acl_line(service, domain) + "\n"@ + config::use_line(service);
            let all = text::lines_of(routing + "\n"@);
            all.len() > 0 && config::line_lists(all[0], service)
        }),
{
    reveal_strlit("    acl host_");
    reveal_strlit(" hdr(host) -i ");
    reveal_strlit("\n");
    let routing = config::acl_line(service, domain) + "\n"@ + config::use_line(service);
    let s = routing + "\n"@;
    let start = acl_start(service);
    lemma_first_line_end(s);
    let n = text::first_line_len(s) as int;
    assert forall|i: int| 0 <= i < start.len() implies s[i] == start[i] by {}
    assert forall|i: int| 0 <= i < start.len() implies start[i] != '\n' by {
        if 13 <= i < 13 + service.len() {
            assert(start[i] == service[i - 13]);
            assert(service.contains(service[i - 13]));
        }
    }
    assert(s[config::acl_line(service, domain).len() as int] == '\n');
    assert(n >= start.len()) by {
        if n < start.len() {
            assert(s[n] == '\n');
        }
    }
    assert(n < s.len()) by {
        if n >= s.len() {
            assert(s[config::acl_line(service, domain).len() as int] != '\n');
        }
    }
    let first = s.take(n);
    let line = text::without_return(first);
    assert(start.last() == ' ');
    assert(start =~= line.take(start.len() as int)) by {
        if line.len() < start.len() {
            assert(first.last() == start.last());
        }
    }
    lemma_acl_line_lists(service, line);
}

/// A service that was added is there, so that adding it again changes nothing.
pub proof fn added_service_exists(content: Seq<char>, service: Seq<char>, domain: Seq<char>)
    requires
        one_line(service),
        config::with_service(content, service, domain) is Some,
    ensures
        config::lists(config::with_service(content, service, domain)->0, service),
{
    lemma_with_service_lines(content, service, domain);
    lemma_routing_lists(service, domain);
    let all = text::lines_of(content);
    let at = config::lines_before_rule(all) as int;
    let after = config::with_service(content, service, domain)->0;
    assert(config::line_lists(text::lines_of(after)[at], service));
}

/// Adding a service takes no other one away.
pub proof fn adding_keeps_services(
    content: Seq<char>,
    service: Seq<char>,
    domain: Seq<char>,
    other: Seq<char>,
)
    requires
        config::with_service(content, service, domain) is Some,
        config::lists(content, other),
    ensures
        config::lists(config::with_service(content, service, domain)->0, other),
{
    lemma_with_service_lines(content, service, domain);
    let all = text::lines_of(content);
    let at = config::lines_before_rule(all) as int;
    let after = config::with_service(content, service, domain)->0;
    let routing = config::acl_line(service, domain) + "\n"@ + config::use_line(service);
    let i = choose|i: int| 0 <= i < all.len() && config::line_lists(#[trigger] all[i], other);
    lemma_trimmed_without_return(all[i]);
    let j = if i < at {
        i
    } else {
        i + text::lines_of(routing + "\n"@).len()
    };
    assert(text::lines_of(after)[j] == text::without_return(all[i])) by {
        if i < at {
            assert(without_returns(all.take(at))[i] == text::without_return(all.take(at)[i]));
        } else {
            assert(without_returns(all.skip(at))[i - at] == text::without_return(
                all.skip(at)[i - at],
            ));
        }
    }
    assert(config::line_lists(text::lines_of(after)[j], other));
}

// ── removing ────────────────────────────────────────────────────────────────
/// Whether a line is one of the first that stay when a service is removed.
spec fn stayed(all: Seq<Seq<char>>, service: Seq<char>, n: nat, line: Seq<char>) -> bool {
    exists|i: int| 0 <= i < n && #[trigger] config::stays(all, service, i) && all[i] == line
}

proof fn lemma_kept_lines(all: Seq<Seq<char>>, service: Seq<char>, n: nat)
    requires
        n <= all.len(),
    ensures
        forall|k: int|
            0 <= k < config::lines_without(all, service, n).len() ==> stayed(
                all,
                service,
                n,
                #[trigger] config::lines_without(all, service, n)[k],
            ),
    decreases n,
{
    if n > 0 {
        let before = (n - 1) as nat;
        let fewer = config::lines_without(all, service, before);
        lemma_kept_lines(all, service, before);
        let now = config::lines_without(all, service, n);
        assert forall|k: int| 0 <= k < now.len() implies stayed(
            all,
            service,
            n,
            #[trigger] now[k],
        ) by {
            if k < fewer.len() {
                assert(now[k] == fewer[k]);
                assert(stayed(all, service, before, fewer[k]));
            } else {
                assert(config::stays(all, service, n - 1) && all[n - 1] == now[k]);
            }
        }
    }
}

/// Every line of joined lines is one of them, but for a carriage return at its end.
proof fn lemma_lines_of_joined(parts: Seq<Seq<char>>)
    requires
        all_one_line(parts),
    ensures
        forall|k: int|
            0 <= k < text::lines_of(text::joined(parts, "\n"@)).len() ==> exists|i: int|
                0 <= i < parts.len() && text::trimmed(parts[i]) == text::trimmed(
                    #[trigger] text::lines_of(text::joined(parts, "\n"@))[k],
                ),
{
    let whole = text::joined(parts, "\n"@);
    let found = text::lines_of(whole);
    if parts.len() == 1 {
        assert(one_line(parts[0]));
        lemma_first_line_end(whole);
        let n = text::first_line_len(whole) as int;
        if n < whole.len() {
            assert(whole.contains(whole[n]));
        }
        assert forall|k: int| 0 <= k < found.len() implies exists|i: int|
            0 <= i < parts.len() && text::trimmed(parts[i]) == text::trimmed(
                #[trigger] found[k],
            ) by {
            assert(found[k] == parts[0]);
        }
    } else if parts.len() > 1 {
        let front = parts.drop_last();
        let last = parts.last();
        assert(front + seq![last] =~= parts);
        lemma_joined_split(front, seq![last]);
        assert forall|i: int| 0 <= i < front.len() implies one_line(#[trigger] front[i]) by {
            assert(front[i] == parts[i]);
        }
        lemma_joined_then(front, last);
        assert(one_line(parts[parts.len() - 1]));
        lemma_first_line_end(last);
        let n = text::first_line_len(last) as int;
        if n < last.len() {
            assert(last.contains(last[n]));
        }
        assert forall|k: int| 0 <= k < found.len() implies exists|i: int|
            0 <= i < parts.len() && text::trimmed(parts[i]) == text::trimmed(
                #[trigger] found[k],
            ) by {
            if k < front.len() {
                assert(found[k] == text::without_return(front[k]));
                lemma_trimmed_without_return(front[k]);
                assert(text::trimmed(parts[k]) == text::trimmed(found[k]));
            } else {
                assert(found[k] == last);
                assert(text::trimmed(parts[parts.len() - 1]) == text::trimmed(found[k]));
            }
        }
    }
}

/// A line by which a service is found is one of its routing lines.
proof fn lemma_lists_routes(line: Seq<char>, service: Seq<char>)
    requires
        config::line_lists(line, service),
    ensures
        config::marker(service).is_prefix_of(text::trimmed_start(line)),
{
    let core = text::trimmed_start(line);
    let bare = text::trimmed(line);
    let m = config::marker(service);
    lemma_end_is_prefix(core);
    assert(m =~= bare.take(m.len() as int));
    assert(core.take(bare.len() as int).take(m.len() as int) =~= core.take(m.len() as int));
}

/// A service that was removed is not there any more, so that removing it again
/// changes nothing.
pub proof fn removed_service_is_gone(content: Seq<char>, service: Seq<char>)
    ensures
        !config::lists(config::without_service(content, service), service),
{
    let all = text::lines_of(content);
    let kept = config::lines_without(all, service, all.len());
    lemma_kept_lines(all, service, all.len());
    lemma_lines_are_single(content);
    assert forall|k: int| 0 <= k < kept.len() implies one_line(#[trigger] kept[k]) by {
        assert(stayed(all, service, all.len(), kept[k]));
        let i = choose|i: int|
            0 <= i < all.len() && #[trigger] config::stays(all, service, i) && all[i] == kept[k];
        assert(one_line(all[i]));
    }
    lemma_lines_of_joined(kept);
    let after = config::without_service(content, service);
    if config::lists(after, service) {
        let found = text::lines_of(after);
        let m = choose|m: int|
            0 <= m < found.len() && config::line_lists(#[trigger] found[m], service);
        let k = choose|k: int|
            0 <= k < kept.len() && text::trimmed(kept[k]) == text::trimmed(found[m]);
        assert(config::line_lists(kept[k], service));
        assert(stayed(all, service, all.len(), kept[k]));
        let i = choose|i: int|
            0 <= i < all.len() && #[trigger] config::stays(all, service, i) && all[i] == kept[k];
        lemma_lists_routes(all[i], service);
    }
}

proof fn lemma_kept_line_is_there(all: Seq<Seq<char>>, service: Seq<char>, n: nat, i: int)
    requires
        0 <= i < n <= all.len(),
        config::stays(all, service, i),
    ensures
        exists|k: int|
            0 <= k < config::lines_without(all, service, n).len() && #[trigger] config::lines_without(
                all,
                service,
                n,
            )[k] == all[i],
    decreases n,
{
    let now = config::lines_without(all, service, n);
    let before = config::lines_without(all, service, (n - 1) as nat);
    if i == n - 1 {
        assert(now[before.len() as int] == all[i]);
    } else {
        lemma_kept_line_is_there(all, service, (n - 1) as nat, i);
        let k = choose|k: int| 0 <= k < before.len() && #[trigger] before[k] == all[i];
        assert(now[k] == all[i]);
    }
}

/// Every part of joined lines that is not empty is one of the lines, but for a
/// carriage return at its end.
proof fn lemma_joined_has(parts: Seq<Seq<char>>, k: int)
    requires
        all_one_line(parts),
        0 <= k < parts.len(),
        parts[k].len() > 0,
    ensures
        exists|m: int|
            0 <= m < text::lines_of(text::joined(parts, "\n"@)).len() && text::trimmed(
                #[trigger] text::lines_of(text::joined(parts, "\n"@))[m],
            ) == text::trimmed(parts[k]),
{
    let whole = text::joined(parts, "\n"@);
    let found = text::lines_of(whole);
    let last = parts.last();
    assert(one_line(parts[parts.len() - 1]));
    lemma_first_line_end(last);
    let n = text::first_line_len(last) as int;
    if n < last.len() {
        assert(last.contains(last[n]));
    }
    if parts.len() == 1 {
        assert(found[0] == parts[0]);
    } else {
        let front = parts.drop_last();
        assert(front + seq![last] =~= parts);
        lemma_joined_split(front, seq![last]);
        assert forall|i: int| 0 <= i < front.len() implies one_line(#[trigger] front[i]) by {
            assert(front[i] == parts[i]);
        }
        lemma_joined_then(front, last);
        if k < front.len() {
            lemma_trimmed_without_return(front[k]);
            assert(found[k] == text::without_return(front[k]));
        } else {
            assert(found[front.len() as int] == last);
        }
    }
}

/// A line that matches requests for two services has the name of both before its first
/// blank: so they are the same service.
proof fn lemma_same_service(line: Seq<char>, service: Seq<char>, other: Seq<char>)
    requires
        !service.contains(' '),
        !other.contains(' '),
        config::line_lists(line, other),
        config::marker(service).is_prefix_of(text::trimmed_start(line)),
    ensures
        service == other,
{
    reveal_strlit("acl host_");
    reveal_strlit(" ");
    lemma_lists_routes(line, other);
    let core = text::trimmed_start(line);
    let p = config::marker(service);
    let m = config::marker(other);
    assert forall|i: int| 0 <= i < p.len() implies core[i] == p[i] by {
        assert(core.take(p.len() as int)[i] == core[i]);
    }
    assert forall|i: int| 0 <= i < m.len() implies core[i] == m[i] by {
        assert(core.take(m.len() as int)[i] == core[i]);
    }
    assert forall|i: int| 0 <= i < service.len() implies core[9 + i] == service[i] by {
        assert(core[9 + i] == p[9 + i]);
    }
    assert forall|i: int| 0 <= i < other.len() implies core[9 + i] == other[i] by {
        assert(core[9 + i] == m[9 + i]);
    }
    assert(core[9int + service.len()] == ' ') by {
        assert(core[9int + service.len()] == p[9int + service.len()]);
    }
    assert(core[9int + other.len()] == ' ') by {
        assert(core[9int + other.len()] == m[9int + other.len()]);
    }
    if service.len() < other.len() {
        assert(other[service.len() as int] == ' ');
        assert(other.contains(other[service.len() as int]));
    }
    if other.len() < service.len() {
        assert(service[other.len() as int] == ' ');
        assert(service.contains(service[other.len() as int]));
    }
    assert(service =~= other);
}

proof fn lemma_end_is_prefix(s: Seq<char>)
    ensures
        text::trimmed_end(s).len() <= s.len(),
        text::trimmed_end(s) == s.take(text::trimmed_end(s).len() as int),
    decreases s.len(),
{
    if s.len() > 0 && text::white_space(s.last()) {
        lemma_end_is_prefix(s.drop_last());
        let k = text::trimmed_end(s).len() as int;
        assert(s.drop_last().take(k) =~= s.take(k));
    } else {
        assert(s.take(s.len() as int) =~= s);
    }
}

/// Removing a service takes no other one away: where their names have no blank, and
/// the other one is routed outside the removed one's backend.
pub proof fn removing_keeps_services(
    content: Seq<char>,
    service: Seq<char>,
    other: Seq<char>,
    i: int,
)
    requires
        service != other,
        !service.contains(' '),
        !other.contains(' '),
        0 <= i < text::lines_of(content).len(),
        config::line_lists(text::lines_of(content)[i], other),
        !config::in_backend(text::lines_of(content), service, i),
    ensures
        config::lists(config::without_service(content, service), other),
{
    let all = text::lines_of(content);
    let line = all[i];
    if config::marker(service).is_prefix_of(text::trimmed_start(line)) {
        lemma_same_service(line, service, other);
    }
    if config::use_marker(service).is_prefix_of(text::trimmed_start(line)) {
        lemma_rule_lists_nothing(line, service, other);
    }
    assert(config::stays(all, service, i));
    let kept = config::lines_without(all, service, all.len());
    lemma_kept_line_is_there(all, service, all.len(), i);
    let k = choose|k: int| 0 <= k < kept.len() && #[trigger] kept[k] == line;
    lemma_lines_are_single(content);
    lemma_kept_lines(all, service, all.len());
    assert forall|j: int| 0 <= j < kept.len() implies one_line(#[trigger] kept[j]) by {
        assert(stayed(all, service, all.len(), kept[j]));
        let x = choose|x: int|
            0 <= x < all.len() && #[trigger] config::stays(all, service, x) && all[x] == kept[j];
        assert(one_line(all[x]));
    }
    assert(line.len() > 0) by {
        reveal_strlit("acl host_");
        if line.len() == 0 {
            assert(text::trimmed(line).len() == 0);
        }
    }
    lemma_joined_has(kept, k);
    let found = text::lines_of(config::without_service(content, service));
    let m = choose|m: int|
        0 <= m < found.len() && text::trimmed(#[trigger] found[m]) == text::trimmed(line);
    assert(config::line_lists(found[m], other));
}

proof fn lemma_rule_lists_nothing(line: Seq<char>, service: Seq<char>, other: Seq<char>)
    requires
        config::use_marker(service).is_prefix_of(text::trimmed_start(line)),
    ensures
        !config::line_lists(line, other),
{
    reveal_strlit("use_backend ");
    reveal_strlit("acl host_");
    let core = text::trimmed_start(line);
    let p = config::use_marker(service);
    let m = config::marker(other);
    assert(core.take(p.len() as int)[0] == core[0]);
    if config::line_lists(line, other) {
        lemma_lists_routes(line, other);
        assert(core.take(m.len() as int)[0] == core[0]);
    }
}

// ── adding, then removing ───────────────────────────────────────────────────
/// Whether a name can stand at the end of a line: it is not empty, has no line feed
/// and does not end in white space.
pub open spec fn ends_a_line(name: Seq<char>) -> bool {
    &&& name.len() > 0
    &&& one_line(name)
    &&& !text::white_space(name.last())
}

/// The lines of a backend section, from the empty line before it on.
pub open spec fn block_lines(service: Seq<char>) -> Seq<Seq<char>> {
    seq![Seq::empty(), config::header(service)] + config::body_lines()
}

proof fn lemma_one_line_sum(a: Seq<char>, b: Seq<char>)
    requires
        one_line(a),
        one_line(b),
    ensures
        one_line(a + b),
{
    assert forall|i: int| 0 <= i < (a + b).len() implies (a + b)[i] != '\n' by {
        if i < a.len() {
            assert(a.contains(a[i]));
        } else {
            assert(b.contains(b[i - a.len()]));
        }
    }
}

proof fn lemma_body_lines()
    ensures
        forall|i: int|
            0 <= i < config::body_lines().len() ==> {
                let line = #[trigger] config::body_lines()[i];
                &&& one_line(line)
                &&& line.len() > 0
                &&& line[0] == ' '
                &&& line.last() != '\r'
            },
{
    reveal_strlit("    balance leastconn");
    reveal_strlit("    option http-server-close");
    reveal_strlit("    option httpchk GET /");
    reveal_strlit("    http-check expect rstatus 2[0-9][0-9]");
    reveal_strlit("    http-response set-header X-Served-By %[srv_name]");
    let all = config::body_lines();
    assert(one_line(all[0]));
    assert(one_line(all[1]));
    assert(one_line(all[2]));
    assert(one_line(all[3]));
    assert(one_line(all[4]));
}

proof fn lemma_block_lines(service: Seq<char>)
    requires
        ends_a_line(service),
    ensures
        text::lines_of(config::block(service)) == block_lines(service),
        text::trimmed(config::header(service)) == config::header(service),
        config::opens_section(config::header(service)),
{
    reveal_strlit("backend ");
    lemma_body_lines();
    let head = config::header(service);
    lemma_one_line_sum("backend "@, service);
    assert(head.last() == service.last());
    let parts = block_lines(service);
    let body = config::body_lines();
    assert forall|i: int| 0 <= i < parts.len() implies one_line(#[trigger] parts[i])
        && text::without_return(parts[i]) == parts[i] by {
        if i >= 2 {
            assert(parts[i] == body[i - 2]);
        }
    }
    lemma_joined_then(parts, Seq::empty());
    assert(without_returns(parts) + text::lines_of(Seq::empty()) =~= parts);
    let front = seq![Seq::<char>::empty(), head];
    lemma_joined_split(front, body);
    reveal_with_fuel(text::joined, 2);
    assert(front.drop_first() =~= seq![head]);
    assert(text::joined(front, "\n"@) =~= "\n"@ + head);
    assert(text::joined(parts, "\n"@) + "\n"@ + Seq::<char>::empty() =~= config::block(service));
}

proof fn lemma_routing_lines(service: Seq<char>, domain: Seq<char>)
    requires
        ends_a_line(service),
        one_line(domain),
    ensures
        ({
            let routing = config::acl_line(service, domain) + "\n"@ + config::use_line(service);
            text::lines_of(routing + "\n"@) == seq![
                text::without_return(config::acl_line(service, domain)),
                config::use_line(service),
            ]
        }),
{
    reveal_strlit("    acl host_");
    reveal_strlit(" hdr(host) -i ");
    reveal_strlit("    use_backend ");
    reveal_strlit(" if host_");
    let acl = config::acl_line(service, domain);
    let rule = config::use_line(service);
    assert(one_line("    acl host_"@));
    assert(one_line(" hdr(host) -i "@));
    assert(one_line("    use_backend "@));
    assert(one_line(" if host_"@));
    lemma_one_line_sum("    acl host_"@, service);
    lemma_one_line_sum("    acl host_"@ + service, " hdr(host) -i "@);
    lemma_one_line_sum("    acl host_"@ + service + " hdr(host) -i "@, domain);
    lemma_one_line_sum("    use_backend "@, service);
    lemma_one_line_sum("    use_backend "@ + service, " if host_"@);
    lemma_one_line_sum("    use_backend "@ + service + " if host_"@, service);
    let routing = acl + "\n"@ + rule;
    assert(routing + "\n"@ =~= acl + "\n"@ + (rule + "\n"@ + Seq::<char>::empty()));
    lemma_line_then(rule, Seq::empty());
    lemma_line_then(acl, rule + "\n"@ + Seq::<char>::empty());
    assert(rule.last() == service.last());
    assert(text::lines_of(routing + "\n"@) =~= seq![text::without_return(acl), rule]);
}

proof fn lemma_kept_run(all: Seq<Seq<char>>, service: Seq<char>, from: nat, to: nat)
    requires
        from <= to <= all.len(),
        forall|i: int| from <= i < to ==> #[trigger] config::stays(all, service, i),
    ensures
        config::lines_without(all, service, to) == config::lines_without(all, service, from)
            + all.subrange(from as int, to as int),
    decreases to - from,
{
    if from < to {
        lemma_kept_run(all, service, from, (to - 1) as nat);
        assert(config::stays(all, service, to - 1));
        assert(all.subrange(from as int, to as int) =~= all.subrange(from as int, to - 1).push(
            all[to - 1],
        ));
    }
    assert(config::lines_without(all, service, to) =~= config::lines_without(all, service, from)
        + all.subrange(from as int, to as int));
}

proof fn lemma_dropped_run(all: Seq<Seq<char>>, service: Seq<char>, from: nat, to: nat)
    requires
        from <= to <= all.len(),
        forall|i: int| from <= i < to ==> !#[trigger] config::stays(all, service, i),
    ensures
        config::lines_without(all, service, to) == config::lines_without(all, service, from),
    decreases to - from,
{
    if from < to {
        lemma_dropped_run(all, service, from, (to - 1) as nat);
        assert(!config::stays(all, service, to - 1));
    }
}

proof fn lemma_outside_backend(all: Seq<Seq<char>>, service: Seq<char>, n: int)
    requires
        n < all.len(),
        forall|i: int|
            0 <= i <= n && config::opens_section(#[trigger] all[i]) ==> text::trimmed(all[i])
                != config::header(service),
    ensures
        !config::in_backend(all, service, n),
    decreases n + 1,
{
    if n >= 0 && !config::opens_section(all[n]) {
        lemma_outside_backend(all, service, n - 1);
    }
}

proof fn lemma_inside_backend(all: Seq<Seq<char>>, service: Seq<char>, head: int, n: int)
    requires
        0 <= head <= n < all.len(),
        config::opens_section(all[head]),
        text::trimmed(all[head]) == config::header(service),
        forall|i: int| head < i <= n ==> !config::opens_section(#[trigger] all[i]),
    ensures
        config::in_backend(all, service, n),
    decreases n,
{
    if n > head {
        lemma_inside_backend(all, service, head, n - 1);
    }
}

/// Whether a configuration has nothing of a service: no routing line and no backend.
pub open spec fn nothing_of(content: Seq<char>, service: Seq<char>) -> bool {
    forall|i: int|
        0 <= i < text::lines_of(content).len() ==> {
            let line = #[trigger] text::lines_of(content)[i];
            &&& !config::routes(line, service)
            &&& config::opens_section(line) ==> text::trimmed(line) != config::header(service)
        }
}

/// Whether no line of a text ends in a carriage return.
pub open spec fn no_return_ends(content: Seq<char>) -> bool {
    forall|i: int|
        0 <= i < text::lines_of(content).len() ==> text::without_return(
            #[trigger] text::lines_of(content)[i],
        ) == text::lines_of(content)[i]
}

proof fn lemma_routing_is_dropped(service: Seq<char>, domain: Seq<char>)
    ensures
        config::routes(text::without_return(config::acl_line(service, domain)), service),
        config::routes(config::use_line(service), service),
        !config::opens_section(text::without_return(config::acl_line(service, domain))),
        !config::opens_section(config::use_line(service)),
{
    reveal_strlit("    acl host_");
    reveal_strlit("acl host_");
    reveal_strlit(" hdr(host) -i ");
    reveal_strlit("    use_backend ");
    reveal_strlit("use_backend ");
    reveal_strlit(" if host_");
    reveal_strlit(" ");
    let line = text::without_return(config::acl_line(service, domain));
    lemma_indented(line);
    let p = config::marker(service);
    assert(p =~= line.skip(4).take(p.len() as int));
    let rule = config::use_line(service);
    lemma_indented(rule);
    let q = config::use_marker(service);
    assert(q =~= rule.skip(4).take(q.len() as int));
}

/// A line with an indent of four blanks, without that indent.
proof fn lemma_indented(line: Seq<char>)
    requires
        line.len() > 4,
        forall|i: int| 0 <= i < 4 ==> line[i] == ' ',
        !text::white_space(line[4]),
    ensures
        text::trimmed_start(line) == line.skip(4),
{
    let indent = line.take(4);
    let core = line.skip(4);
    assert(line =~= indent + core);
    assert(core[0] == line[4]);
    lemma_trimmed_start(indent, core);
}

/// The lines that stay when a service is removed that was just added: those from
/// before, and the empty line before its backend.
proof fn lemma_lines_after_both(
    content: Seq<char>,
    service: Seq<char>,
    domain: Seq<char>,
    now: Seq<Seq<char>>,
)
    requires
        ends_a_line(service),
        one_line(domain),
        config::with_service(content, service, domain) is Some,
        nothing_of(content, service),
        no_return_ends(content),
        now == text::lines_of(config::with_service(content, service, domain)->0),
    ensures
        config::lines_without(now, service, now.len()) == text::lines_of(content).push(
            Seq::empty(),
        ),
{
    let all = text::lines_of(content);
    let at = config::lines_before_rule(all) as int;
    let n = all.len() as int;
    lemma_with_service_lines(content, service, domain);
    lemma_routing_lines(service, domain);
    lemma_routing_is_dropped(service, domain);
    lemma_block_lines(service);
    lemma_body_lines();
    let acl = text::without_return(config::acl_line(service, domain));
    let rule = config::use_line(service);
    let last = block_lines(service);
    assert(without_returns(all.take(at)) =~= all.take(at)) by {
        assert forall|i: int| 0 <= i < at implies text::without_return(all.take(at)[i])
            == all.take(at)[i] by {
            assert(all.take(at)[i] == all[i]);
        }
    }
    assert(without_returns(all.skip(at)) =~= all.skip(at)) by {
        assert forall|i: int| 0 <= i < n - at implies text::without_return(all.skip(at)[i])
            == all.skip(at)[i] by {
            assert(all.skip(at)[i] == all[i + at]);
        }
    }
    assert(now =~= all.take(at) + seq![acl, rule] + all.skip(at) + last);
    let head = n + 3;
    assert(now.len() == n + 9);
    assert forall|i: int| 0 <= i < at implies now[i] == all[i] by {}
    assert(now[at] == acl);
    assert(now[at + 1] == rule);
    assert forall|i: int| at + 2 <= i < n + 2 implies now[i] == all[i - 2] by {}
    assert(now[n + 2] =~= Seq::<char>::empty()) by {
        assert(last[0] =~= Seq::<char>::empty());
    }
    assert(now[head] == config::header(service)) by {
        assert(last[1] == config::header(service));
    }
    assert forall|i: int| head < i < now.len() implies !config::opens_section(
        #[trigger] now[i],
    ) by {
        assert(now[i] == last[i - n - 2]);
        assert(now[i] == config::body_lines()[i - n - 4]);
    }
    assert forall|i: int| 0 <= i < head && config::opens_section(#[trigger] now[i]) implies
        text::trimmed(now[i]) != config::header(service) by {
        if i < at {
            assert(now[i] == all[i]);
        } else if at + 2 <= i < n + 2 {
            assert(now[i] == all[i - 2]);
        }
    }
    reveal_strlit("acl host_");
    reveal_strlit("use_backend ");
    assert forall|i: int|
        0 <= i < at || at + 2 <= i < n + 3 implies #[trigger] config::stays(now, service, i) by {
        lemma_outside_backend(now, service, i);
        if i < at {
            assert(now[i] == all[i]);
        } else if i < n + 2 {
            assert(now[i] == all[i - 2]);
        } else {
            assert(now[i].len() == 0);
        }
    }
    assert forall|i: int|
        at <= i < at + 2 || head <= i < now.len() implies !#[trigger] config::stays(
        now,
        service,
        i,
    ) by {
        if i >= head {
            lemma_inside_backend(now, service, head, i);
        }
    }
    lemma_kept_run(now, service, 0, at as nat);
    lemma_dropped_run(now, service, at as nat, (at + 2) as nat);
    lemma_kept_run(now, service, (at + 2) as nat, head as nat);
    lemma_dropped_run(now, service, head as nat, now.len());
    assert(config::lines_without(now, service, now.len()) =~= all.push(Seq::empty()));
}

/// Removing a service undoes adding it, but for line ends: the lines are those from
/// before, each ends with a line feed, and no carriage return is left before one.
/// Where all lines ended so already, the text is the one from before.
pub proof fn removing_undoes_adding(content: Seq<char>, service: Seq<char>, domain: Seq<char>)
    requires
        ends_a_line(service),
        one_line(domain),
        config::with_service(content, service, domain) is Some,
        nothing_of(content, service),
        no_return_ends(content),
    ensures
        config::without_service(config::with_service(content, service, domain)->0, service)
            == text::joined(text::lines_of(content), "\n"@) + "\n"@,
        !content.contains('\r') && content.last() == '\n' ==> config::without_service(
            config::with_service(content, service, domain)->0,
            service,
        ) == content,
{
    let now = text::lines_of(config::with_service(content, service, domain)->0);
    let all = text::lines_of(content);
    lemma_lines_after_both(content, service, domain, now);
    assert(all.push(Seq::empty()) =~= all + seq![Seq::<char>::empty()]);
    lemma_with_service_text(content, service, domain);
    lemma_joined_split(all, seq![Seq::<char>::empty()]);
    assert(text::joined(all, "\n"@) + "\n"@ + Seq::<char>::empty() =~= text::joined(all, "\n"@)
        + "\n"@);
    if !content.contains('\r') && content.last() == '\n' {
        lemma_rejoined(content);
    }
}

/// Lines put together again give the text back where it has no carriage return and
/// ends with a line feed.
proof fn lemma_rejoined(content: Seq<char>)
    requires
        content.len() > 0,
        !content.contains('\r'),
        content.last() == '\n',
    ensures
        text::joined(text::lines_of(content), "\n"@) + "\n"@ == content,
        text::lines_of(content).len() > 0,
    decreases content.len(),
{
    reveal_strlit("\n");
    lemma_first_line_end(content);
    let n = text::first_line_len(content) as int;
    let head = content.take(n);
    let tail = content.skip(n + 1);
    assert(n < content.len()) by {
        if n == content.len() {
            assert(content[n - 1] != '\n');
        }
    }
    assert(text::without_return(head) == head) by {
        if head.len() > 0 {
            assert(content.contains(content[n - 1]));
        }
    }
    let all = text::lines_of(content);
    assert(all.drop_first() =~= text::lines_of(tail));
    if tail.len() == 0 {
        assert(all =~= seq![head]);
        assert(head + "\n"@ =~= content);
    } else {
        assert(tail.last() == content.last());
        assert(!tail.contains('\r')) by {
            if tail.contains('\r') {
                let i = choose|i: int| 0 <= i < tail.len() && tail[i] == '\r';
                assert(content[i + n + 1] == '\r');
            }
        }
        lemma_rejoined(tail);
        assert(all.len() > 1);
        assert(text::joined(all, "\n"@) == head + "\n"@ + text::joined(
            text::lines_of(tail),
            "\n"@,
        ));
        assert(text::joined(all, "\n"@) + "\n"@ =~= head + "\n"@ + (text::joined(
            text::lines_of(tail),
            "\n"@,
        ) + "\n"@));
        assert(head + "\n"@ + tail =~= content);
    }
}

// ── listing ─────────────────────────────────────────────────────────────────
spec fn backends(all: Seq<Seq<char>>) -> Seq<Seq<char>> {
    config::backends_in(all, all.len())
}

proof fn lemma_backends_same(a: Seq<Seq<char>>, b: Seq<Seq<char>>, n: nat)
    requires
        n <= a.len(),
        n <= b.len(),
        forall|i: int|
            0 <= i < n ==> config::listed_backend(#[trigger] a[i]) == config::listed_backend(b[i]),
    ensures
        config::backends_in(a, n) == config::backends_in(b, n),
    decreases n,
{
    if n > 0 {
        lemma_backends_same(a, b, (n - 1) as nat);
        assert(config::listed_backend(a[n - 1]) == config::listed_backend(b[n - 1]));
    }
}

proof fn lemma_backends_sum(a: Seq<Seq<char>>, b: Seq<Seq<char>>)
    ensures
        backends(a + b) == backends(a) + backends(b),
    decreases b.len(),
{
    if b.len() == 0 {
        assert(a + b =~= a);
        assert(backends(a) + backends(b) =~= backends(a));
    } else {
        let fewer = b.drop_last();
        lemma_backends_sum(a, fewer);
        lemma_backends_same(a + b, a + fewer, (a + fewer).len());
        lemma_backends_same(b, fewer, fewer.len());
        assert((a + b)[(a + b).len() - 1] == b[b.len() - 1]);
        assert(backends(a + b) =~= backends(a) + backends(b));
    }
}

proof fn lemma_backends_without_returns(all: Seq<Seq<char>>)
    ensures
        backends(without_returns(all)) == backends(all),
{
    let bare = without_returns(all);
    assert forall|i: int| 0 <= i < all.len() implies config::listed_backend(#[trigger] bare[i])
        == config::listed_backend(all[i]) by {
        lemma_trimmed_without_return(all[i]);
    }
    lemma_backends_same(bare, all, all.len());
}

/// An indented line whose first letters are not those of a backend opens none.
proof fn lemma_opens_no_backend(line: Seq<char>, k: int)
    requires
        0 <= k < 3,
        line.len() >= 7,
        forall|i: int| 0 <= i < 4 ==> line[i] == ' ',
        forall|i: int| 4 <= i < 7 ==> !text::white_space(#[trigger] line[i]),
        line[4 + k] != "backend svc_"@[k],
    ensures
        config::listed_backend(line) is None,
{
    reveal_strlit("backend svc_");
    let indent = line.take(4);
    let core = line.skip(4);
    assert(line =~= indent + core);
    assert(core[0] == line[4]);
    lemma_trimmed_start(indent, core);
    assert(core[k] == line[4 + k]);
    lemma_trimmed_end(core, k);
    let bare = text::trimmed(line);
    assert(core.take(k + 1) =~= bare.take(k + 1));
    assert(bare[k] == bare.take(k + 1)[k]);
    assert(core[k] == core.take(k + 1)[k]);
    if "backend svc_"@.is_prefix_of(bare) {
        assert(bare.take(12)[k] == bare[k]);
    }
}

proof fn lemma_body_opens_none()
    ensures
        backends(config::body_lines()) == Seq::<Seq<char>>::empty(),
{
    reveal_strlit("    balance leastconn");
    reveal_strlit("    option http-server-close");
    reveal_strlit("    option httpchk GET /");
    reveal_strlit("    http-check expect rstatus 2[0-9][0-9]");
    reveal_strlit("    http-response set-header X-Served-By %[srv_name]");
    reveal_strlit("backend svc_");
    let all = config::body_lines();
    lemma_opens_no_backend(all[0], 2);
    lemma_opens_no_backend(all[1], 0);
    lemma_opens_no_backend(all[2], 0);
    lemma_opens_no_backend(all[3], 0);
    lemma_opens_no_backend(all[4], 0);
    reveal_with_fuel(config::backends_in, 6);
}

/// A backend of a service that was added is listed, behind those that were listed
/// before.
pub proof fn added_service_is_listed(content: Seq<char>, service: Seq<char>, domain: Seq<char>)
    requires
        "svc_"@.is_prefix_of(service),
        ends_a_line(service),
        one_line(domain),
        config::with_service(content, service, domain) is Some,
    ensures
        config::backends_of(config::with_service(content, service, domain)->0)
            == config::backends_of(content).push(service),
{
    reveal_strlit("    acl host_");
    reveal_strlit(" hdr(host) -i ");
    reveal_strlit("    use_backend ");
    reveal_strlit("svc_");
    reveal_strlit("backend ");
    reveal_strlit("backend svc_");
    let all = text::lines_of(content);
    let at = config::lines_before_rule(all) as int;
    let after = config::with_service(content, service, domain)->0;
    lemma_with_service_lines(content, service, domain);
    lemma_routing_lines(service, domain);
    lemma_block_lines(service);
    let acl = text::without_return(config::acl_line(service, domain));
    let rule = config::use_line(service);
    let pair = seq![acl, rule];
    let head = config::header(service);
    let front = without_returns(all.take(at));
    let tail = without_returns(all.skip(at));
    lemma_backends_sum(front + pair + tail, block_lines(service));
    lemma_backends_sum(front + pair, tail);
    lemma_backends_sum(front, pair);
    lemma_backends_without_returns(all.take(at));
    lemma_backends_without_returns(all.skip(at));
    lemma_backends_sum(all.take(at), all.skip(at));
    assert(all.take(at) + all.skip(at) =~= all);
    assert forall|i: int| 0 <= i < 7 implies acl[i] == "    acl host_"@[i] by {}
    assert forall|i: int| 0 <= i < 7 implies rule[i] == "    use_backend "@[i] by {}
    lemma_opens_no_backend(acl, 0);
    lemma_opens_no_backend(rule, 0);
    reveal_with_fuel(config::backends_in, 3);
    assert(backends(pair) == Seq::<Seq<char>>::empty());
    let top = seq![Seq::<char>::empty(), head];
    lemma_backends_sum(top, config::body_lines());
    lemma_body_opens_none();
    assert(config::listed_backend(top[0]) is None);
    assert("svc_"@ =~= service.take(4));
    assert("backend svc_"@ =~= head.take(12)) by {
        assert forall|i: int| 8 <= i < 12 implies head[i] == "backend svc_"@[i] by {
            assert(head[i] == service[i - 8]);
            assert(service[i - 8] == service.take(4)[i - 8]);
        }
    }
    assert(head.skip(8) =~= service);
    assert(config::listed_backend(top[1]) == Some(service));
    assert(backends(top) =~= seq![service]);
    assert(config::backends_of(after) =~= config::backends_of(content).push(service));
}

} // verus!
