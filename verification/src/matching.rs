//! What a query is matched against: the query without case and outer blanks, and
//! the texts that each command offers.
use vstd::prelude::*;

use crate::palette::{
    CommandSources, CommandTemplate, ContextCommandTemplate, PathProposal, RecentCommand,
    ScopedCommand, Snippet,
};
use crate::text;

verus! {

/// A query as it is matched: without outer blanks and in lower case.
pub open spec fn normalized(query: Seq<char>) -> Seq<char> {
    text::lowered(text::trimmed(query))
}

pub fn normalized_query(query: &str) -> (r: String)
    ensures
        r@ == normalized(query@),
{
    text::to_ascii_lowercase(text::trim(query).as_str())
}

/// The contents of a list of texts.
pub open spec fn texts(list: Seq<String>) -> Seq<Seq<char>> {
    list.map_values(|t: String| t@)
}

/// A command that a query is matched against. The palette looks at all of its
/// fields, the autocompletion at its key alone.
pub trait Matched: Sized {
    /// The texts that the palette matches.
    spec fn fields(self) -> Seq<Seq<char>>;

    /// The text that the autocompletion matches.
    spec fn key(self) -> Seq<char>;

    /// The same command with another verdict on how well it matches.
    spec fn with_kind(self, kind: Option<u8>) -> Self;

    fn match_fields(&self) -> (r: Vec<String>)
        ensures
            texts(r@) == self.fields(),
    ;

    fn match_key(&self) -> (r: String)
        ensures
            r@ == self.key(),
    ;

    fn set_match_kind(self, kind: Option<u8>) -> (r: Self)
        ensures
            r == self.with_kind(kind),
    ;
}

impl Matched for ScopedCommand {
    open spec fn fields(self) -> Seq<Seq<char>> {
        seq![text::trimmed(self.command@), self.scope_label@]
    }

    open spec fn key(self) -> Seq<char> {
        text::lowered(text::trimmed(self.command@))
    }

    open spec fn with_kind(self, kind: Option<u8>) -> Self {
        ScopedCommand { match_kind: kind, ..self }
    }

    fn match_fields(&self) -> (r: Vec<String>) {
        let mut r: Vec<String> = Vec::new();
        r.push(text::trim(self.command.as_str()));
        r.push(self.scope_label.clone());
        assert(texts(r@) =~= self.fields());
        r
    }

    fn match_key(&self) -> (r: String) {
        normalized_query(self.command.as_str())
    }

    fn set_match_kind(self, kind: Option<u8>) -> (r: Self) {
        ScopedCommand {
            command: self.command,
            scope_key: self.scope_key,
            scope_label: self.scope_label,
            match_kind: kind,
        }
    }
}

impl Matched for RecentCommand {
    open spec fn fields(self) -> Seq<Seq<char>> {
        seq![text::trimmed(self.command@)]
    }

    open spec fn key(self) -> Seq<char> {
        text::lowered(text::trimmed(self.command@))
    }

    open spec fn with_kind(self, kind: Option<u8>) -> Self {
        RecentCommand { match_kind: kind, ..self }
    }

    fn match_fields(&self) -> (r: Vec<String>) {
        let mut r: Vec<String> = Vec::new();
        r.push(text::trim(self.command.as_str()));
        assert(texts(r@) =~= self.fields());
        r
    }

    fn match_key(&self) -> (r: String) {
        normalized_query(self.command.as_str())
    }

    fn set_match_kind(self, kind: Option<u8>) -> (r: Self) {
        RecentCommand { command: self.command, match_kind: kind }
    }
}

impl Matched for Snippet {
    open spec fn fields(self) -> Seq<Seq<char>> {
        seq![text::trimmed(self.command@), self.display_name@, self.group@]
    }

    open spec fn key(self) -> Seq<char> {
        text::lowered(text::trimmed(self.command@))
    }

    open spec fn with_kind(self, kind: Option<u8>) -> Self {
        Snippet { match_kind: kind, ..self }
    }

    fn match_fields(&self) -> (r: Vec<String>) {
        let mut r: Vec<String> = Vec::new();
        r.push(text::trim(self.command.as_str()));
        r.push(self.display_name.clone());
        r.push(self.group.clone());
        assert(texts(r@) =~= self.fields());
        r
    }

    fn match_key(&self) -> (r: String) {
        normalized_query(self.command.as_str())
    }

    fn set_match_kind(self, kind: Option<u8>) -> (r: Self) {
        Snippet {
            command: self.command,
            display_name: self.display_name,
            group: self.group,
            pinned: self.pinned,
            match_kind: kind,
        }
    }
}

impl Matched for CommandTemplate {
    open spec fn fields(self) -> Seq<Seq<char>> {
        seq![self.command@, self.detail@]
    }

    open spec fn key(self) -> Seq<char> {
        text::lowered(self.command@)
    }

    open spec fn with_kind(self, kind: Option<u8>) -> Self {
        CommandTemplate { match_kind: kind, ..self }
    }

    fn match_fields(&self) -> (r: Vec<String>) {
        let mut r: Vec<String> = Vec::new();
        r.push(self.command.clone());
        r.push(self.detail.clone());
        assert(texts(r@) =~= self.fields());
        r
    }

    fn match_key(&self) -> (r: String) {
        text::to_ascii_lowercase(self.command.as_str())
    }

    fn set_match_kind(self, kind: Option<u8>) -> (r: Self) {
        CommandTemplate {
            command: self.command,
            detail: self.detail,
            source: self.source,
            match_kind: kind,
        }
    }
}

impl Matched for ContextCommandTemplate {
    open spec fn fields(self) -> Seq<Seq<char>> {
        seq![self.command@, self.detail@]
    }

    open spec fn key(self) -> Seq<char> {
        text::lowered(self.command@)
    }

    open spec fn with_kind(self, kind: Option<u8>) -> Self {
        ContextCommandTemplate { match_kind: kind, ..self }
    }

    fn match_fields(&self) -> (r: Vec<String>) {
        let mut r: Vec<String> = Vec::new();
        r.push(self.command.clone());
        r.push(self.detail.clone());
        assert(texts(r@) =~= self.fields());
        r
    }

    fn match_key(&self) -> (r: String) {
        text::to_ascii_lowercase(self.command.as_str())
    }

    fn set_match_kind(self, kind: Option<u8>) -> (r: Self) {
        ContextCommandTemplate {
            command: self.command,
            detail: self.detail,
            rank: self.rank,
            ordinal: self.ordinal,
            match_kind: kind,
        }
    }
}

impl Matched for PathProposal {
    open spec fn fields(self) -> Seq<Seq<char>> {
        seq![self.path@]
    }

    open spec fn key(self) -> Seq<char> {
        self.path@
    }

    open spec fn with_kind(self, kind: Option<u8>) -> Self {
        PathProposal { match_kind: kind, ..self }
    }

    fn match_fields(&self) -> (r: Vec<String>) {
        let mut r: Vec<String> = Vec::new();
        r.push(self.path.clone());
        assert(texts(r@) =~= self.fields());
        r
    }

    fn match_key(&self) -> (r: String) {
        self.path.clone()
    }

    fn set_match_kind(self, kind: Option<u8>) -> (r: Self) {
        PathProposal { path: self.path, scope: self.scope, match_kind: kind }
    }
}

/// A rule by which texts are matched: how well a query matches the texts, if at
/// all; smaller is better.
pub type Rule = spec_fn(Seq<char>, Seq<Seq<char>>) -> Option<u8>;

/// The function answers by the rule, whatever it is asked.
pub open spec fn follows<F: Fn(&str, &Vec<String>) -> Option<u8>>(matcher: F, rule: Rule) -> bool {
    forall|query: &str, list: &Vec<String>, kind: Option<u8>| #[trigger]
        matcher.ensures((query, list), kind) ==> kind == rule(query@, texts(list@))
}

/// What a command offers to a query.
pub open spec fn offered<A: Matched>(item: A, for_palette: bool) -> Seq<Seq<char>> {
    if for_palette {
        item.fields()
    } else {
        seq![item.key()]
    }
}

/// The commands with the verdicts of a rule.
pub open spec fn judged<A: Matched>(
    list: Seq<A>,
    query: Seq<char>,
    for_palette: bool,
    rule: Rule,
) -> Seq<A> {
    list.map_values(|item: A| item.with_kind(rule(query, offered(item, for_palette))))
}

/// The function was asked about a command and `result` is that command with the
/// answer.
pub open spec fn was_judged<A: Matched, F: Fn(&str, &Vec<String>) -> Option<u8>>(
    matcher: F,
    query: Seq<char>,
    item: A,
    for_palette: bool,
    result: A,
) -> bool {
    exists|q: &str, list: &Vec<String>, kind: Option<u8>| #[trigger]
        matcher.ensures((q, list), kind) && q@ == query && texts(list@) == offered(
            item,
            for_palette,
        ) && result == item.with_kind(kind)
}

/// The function was asked about every command of a list.
pub open spec fn list_answered<A: Matched, F: Fn(&str, &Vec<String>) -> Option<u8>>(
    matcher: F,
    query: Seq<char>,
    before: Seq<A>,
    for_palette: bool,
    after: Seq<A>,
) -> bool {
    &&& after.len() == before.len()
    &&& forall|k: int|
        0 <= k < after.len() ==> was_judged(
            matcher,
            query,
            before[k],
            for_palette,
            #[trigger] after[k],
        )
}

/// The answers of a function that follows a rule are those of the rule.
pub proof fn lemma_answers_follow<A: Matched, F: Fn(&str, &Vec<String>) -> Option<u8>>(
    matcher: F,
    query: Seq<char>,
    before: Seq<A>,
    for_palette: bool,
    after: Seq<A>,
    rule: Rule,
)
    requires
        follows(matcher, rule),
        list_answered(matcher, query, before, for_palette, after),
    ensures
        after == judged(before, query, for_palette, rule),
{
    assert forall|k: int| 0 <= k < after.len() implies after[k] == judged(
        before,
        query,
        for_palette,
        rule,
    )[k] by {
        assert(was_judged(matcher, query, before[k], for_palette, after[k]));
    }
    assert(after =~= judged(before, query, for_palette, rule));
}

/// Asks about every command of a list.
pub(crate) fn judge_list<A: Matched, F: Fn(&str, &Vec<String>) -> Option<u8>>(
    list: Vec<A>,
    query: &str,
    for_palette: bool,
    matcher: &F,
) -> (r: Vec<A>)
    requires
        forall|q: &str, list: &Vec<String>| #[trigger] matcher.requires((q, list)),
    ensures
        list_answered(*matcher, query@, list@, for_palette, r@),
{
    let ghost all = list@;
    let mut rest: Vec<A> = list;
    let mut r: Vec<A> = Vec::new();
    assert(all.skip(0) =~= all);
    while rest.len() > 0
        invariant
            rest@.len() <= all.len(),
            rest@ == all.skip(all.len() - rest@.len()),
            r@.len() == all.len() - rest@.len(),
            forall|q: &str, list: &Vec<String>| #[trigger] matcher.requires((q, list)),
            forall|k: int|
                0 <= k < r@.len() ==> was_judged(
                    *matcher,
                    query@,
                    all[k],
                    for_palette,
                    #[trigger] r@[k],
                ),
        decreases rest@.len(),
    {
        let ghost n = all.len() - rest@.len();
        let item: A = rest.remove(0);
        assert(item == all[n]);
        let offer: Vec<String> = if for_palette {
            item.match_fields()
        } else {
            let mut one: Vec<String> = Vec::new();
            one.push(item.match_key());
            assert(texts(one@) =~= seq![item.key()]);
            one
        };
        let kind: Option<u8> = matcher(query, &offer);
        let ghost before = item;
        let judged_item: A = item.set_match_kind(kind);
        assert(was_judged(*matcher, query@, before, for_palette, judged_item));
        r.push(judged_item);
        assert(rest@ =~= all.skip(n + 1));
    }
    r
}

/// The function was asked about every command of the sources.
pub open spec fn sources_answered<F: Fn(&str, &Vec<String>) -> Option<u8>>(
    matcher: F,
    query: Seq<char>,
    before: CommandSources,
    for_palette: bool,
    after: CommandSources,
) -> bool {
    &&& list_answered(matcher, query, before.scoped@, for_palette, after.scoped@)
    &&& list_answered(matcher, query, before.recent@, for_palette, after.recent@)
    &&& list_answered(matcher, query, before.snippets@, for_palette, after.snippets@)
    &&& list_answered(matcher, query, before.templates@, for_palette, after.templates@)
}

/// Asks about every command of the sources, with the query as it is matched.
pub fn judge_sources<F: Fn(&str, &Vec<String>) -> Option<u8>>(
    sources: CommandSources,
    query: &str,
    for_palette: bool,
    matcher: &F,
) -> (r: CommandSources)
    requires
        forall|q: &str, list: &Vec<String>| #[trigger] matcher.requires((q, list)),
    ensures
        sources_answered(*matcher, normalized(query@), sources, for_palette, r),
{
    let plain: String = normalized_query(query);
    CommandSources {
        scoped: judge_list(sources.scoped, plain.as_str(), for_palette, matcher),
        recent: judge_list(sources.recent, plain.as_str(), for_palette, matcher),
        snippets: judge_list(sources.snippets, plain.as_str(), for_palette, matcher),
        templates: judge_list(sources.templates, plain.as_str(), for_palette, matcher),
    }
}

proof fn lemma_lower_keeps_white_space(s: Seq<char>)
    ensures
        text::trimmed(text::lowered(s)) == text::lowered(text::trimmed(s)),
    decreases s.len(),
{
    let l = text::lowered(s);
    if s.len() > 0 {
        assert(text::white_space(l.first()) == text::white_space(s.first()));
        assert(text::white_space(l.last()) == text::white_space(s.last()));
        if text::white_space(s.first()) {
            lemma_lower_keeps_white_space(s.drop_first());
            assert(l.drop_first() =~= text::lowered(s.drop_first()));
        } else if text::white_space(s.last()) {
            lemma_lower_keeps_white_space(s.drop_last());
            assert(l.drop_last() =~= text::lowered(s.drop_last()));
        }
    }
}

proof fn lemma_trimmed_twice(s: Seq<char>)
    ensures
        text::trimmed(text::trimmed(s)) == text::trimmed(s),
    decreases s.len(),
{
    if s.len() > 0 && text::white_space(s.first()) {
        lemma_trimmed_twice(s.drop_first());
    } else if s.len() > 0 && text::white_space(s.last()) {
        lemma_trimmed_twice(s.drop_last());
    }
}

/// Normalizing a query twice is as good as once.
pub proof fn law_query_is_normalized_once(query: Seq<char>)
    ensures
        normalized(normalized(query)) == normalized(query),
{
    let t = text::trimmed(query);
    lemma_lower_keeps_white_space(t);
    lemma_trimmed_twice(query);
    assert(text::lowered(text::lowered(t)) =~= text::lowered(t));
}

/// The palette matches a command by what is shown of it, the completion by the
/// command alone, in small letters.
pub proof fn law_commands_offer_what_is_shown(
    own: ScopedCommand,
    recent: RecentCommand,
    snippet: Snippet,
    template: CommandTemplate,
    context: ContextCommandTemplate,
    path: PathProposal,
)
    ensures
        offered(own, true) == seq![text::trimmed(own.command@), own.scope_label@],
        offered(recent, true) == seq![text::trimmed(recent.command@)],
        offered(snippet, true) == seq![
            text::trimmed(snippet.command@),
            snippet.display_name@,
            snippet.group@,
        ],
        offered(template, true) == seq![template.command@, template.detail@],
        offered(context, true) == seq![context.command@, context.detail@],
        offered(path, true) == seq![path.path@],
        offered(own, false) == seq![text::lowered(text::trimmed(own.command@))],
        offered(recent, false) == seq![text::lowered(text::trimmed(recent.command@))],
        offered(snippet, false) == seq![text::lowered(text::trimmed(snippet.command@))],
        offered(template, false) == seq![text::lowered(template.command@)],
        offered(context, false) == seq![text::lowered(context.command@)],
        offered(path, false) == seq![path.path@],
{
}

/// Judging a command changes how well it matches and nothing else of it.
pub proof fn law_judging_changes_the_verdict_only(
    own: ScopedCommand,
    recent: RecentCommand,
    snippet: Snippet,
    template: CommandTemplate,
    context: ContextCommandTemplate,
    path: PathProposal,
    kind: Option<u8>,
)
    ensures
        own.with_kind(kind).match_kind == kind && own.with_kind(kind).command == own.command
            && own.with_kind(kind).scope_key == own.scope_key && own.with_kind(kind).scope_label
            == own.scope_label,
        recent.with_kind(kind).match_kind == kind && recent.with_kind(kind).command
            == recent.command,
        snippet.with_kind(kind).match_kind == kind && snippet.with_kind(kind).command
            == snippet.command && snippet.with_kind(kind).display_name == snippet.display_name
            && snippet.with_kind(kind).group == snippet.group && snippet.with_kind(kind).pinned
            == snippet.pinned,
        template.with_kind(kind).match_kind == kind && template.with_kind(kind).command
            == template.command && template.with_kind(kind).detail == template.detail
            && template.with_kind(kind).source == template.source,
        context.with_kind(kind).match_kind == kind && context.with_kind(kind).command
            == context.command && context.with_kind(kind).detail == context.detail
            && context.with_kind(kind).rank == context.rank && context.with_kind(kind).ordinal
            == context.ordinal,
        path.with_kind(kind).match_kind == kind && path.with_kind(kind).path == path.path
            && path.with_kind(kind).scope == path.scope,
{
}

/// A judged list keeps its commands in their places, each judged by the rule on
/// what it offers.
pub proof fn law_a_judged_list_keeps_its_commands<A: Matched>(
    list: Seq<A>,
    query: Seq<char>,
    for_palette: bool,
    rule: Rule,
    i: int,
)
    requires
        0 <= i < list.len(),
    ensures
        judged(list, query, for_palette, rule).len() == list.len(),
        judged(list, query, for_palette, rule)[i] == list[i].with_kind(
            rule(
                query,
                if for_palette {
                    list[i].fields()
                } else {
                    seq![list[i].key()]
                },
            ),
        ),
{
}

/// Letter case and outer white space of a query do not count.
pub proof fn law_a_query_is_small_and_trimmed(query: Seq<char>, i: int)
    requires
        0 <= i < normalized(query).len(),
    ensures
        !('A' <= normalized(query)[i] <= 'Z'),
        normalized(query).len() == text::trimmed(query).len(),
        !('A' <= text::trimmed(query)[i] <= 'Z') ==> normalized(query)[i] == text::trimmed(query)[i],
{
    text::law_lowering_moves_capitals_only(text::trimmed(query), i);
}

} // verus!
