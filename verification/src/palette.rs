//! Suggestions for commands: what the palette and the autocompletion propose,
//! in which order, and where the proposals come from.
use vstd::prelude::*;

use crate::ids::HostedSessionId;
use crate::lists;
use crate::matching;
use crate::matching::{judge_list, judge_sources, normalized_query};
use crate::messages::{Atom, AtomView, MessageId, Text, TextView};
use crate::text;

verus! {

#[derive(Clone, Copy, Debug, PartialEq, Eq, Structural)]
pub enum PaletteCategory {
    Attention,
    Sessions,
    Projects,
    Groups,
    Presets,
    Actions,
    Archive,
    Commands,
}

pub open spec fn category_rank(category: PaletteCategory) -> u8 {
    match category {
        PaletteCategory::Attention => 0,
        PaletteCategory::Sessions => 1,
        PaletteCategory::Projects => 2,
        PaletteCategory::Groups => 3,
        PaletteCategory::Presets => 4,
        PaletteCategory::Actions => 5,
        PaletteCategory::Archive => 6,
        PaletteCategory::Commands => 7,
    }
}

impl PaletteCategory {
    pub fn rank(self) -> (r: u8)
        ensures
            r == category_rank(self),
    {
        match self {
            PaletteCategory::Attention => 0,
            PaletteCategory::Sessions => 1,
            PaletteCategory::Projects => 2,
            PaletteCategory::Groups => 3,
            PaletteCategory::Presets => 4,
            PaletteCategory::Actions => 5,
            PaletteCategory::Archive => 6,
            PaletteCategory::Commands => 7,
        }
    }
}

/// Different categories have different ranks.
pub proof fn law_category_rank_is_total(a: PaletteCategory, b: PaletteCategory)
    ensures
        a != b ==> category_rank(a) < category_rank(b) || category_rank(b) < category_rank(a),
        category_rank(a) < 8,
{
}

/// The identity of a palette result; never zero.
#[derive(Clone, Copy, Debug, PartialEq, Eq, Structural)]
pub struct PaletteResultId {
    pub value: u64,
}

/// The FNV-1a hash of bytes from a starting value.
pub open spec fn hashed(bytes: Seq<u8>, start: u64) -> u64
    decreases bytes.len(),
{
    if bytes.len() == 0 {
        start
    } else {
        (hashed(bytes.drop_last(), start) ^ (bytes.last() as u64)).wrapping_mul(0x100000001b3u64)
    }
}

pub open spec fn result_id(namespace: u8, value: Seq<char>) -> PaletteResultId {
    let hash = hashed(
        vstd::utf8::encode_utf8(value),
        0xcbf29ce484222325u64 ^ (namespace as u64),
    );
    PaletteResultId {
        value: if hash == 0 {
            1
        } else {
            hash
        },
    }
}

pub fn command_palette_result_id(namespace: u8, value: &str) -> (r: PaletteResultId)
    ensures
        r == result_id(namespace, value@),
        r.value != 0,
{
    let bytes: &[u8] = value.as_bytes();
    let start: u64 = 0xcbf29ce484222325u64 ^ (namespace as u64);
    let mut hash: u64 = start;
    let mut i: usize = 0;
    assert(bytes@.take(0) =~= Seq::empty());
    while i < bytes.len()
        invariant
            i <= bytes@.len(),
            hash == hashed(bytes@.take(i as int), start),
        decreases bytes@.len() - i,
    {
        assert(bytes@.take(i + 1).drop_last() =~= bytes@.take(i as int));
        hash = (hash ^ (bytes[i] as u64)).wrapping_mul(0x100000001b3u64);
        i += 1;
    }
    assert(bytes@.take(bytes@.len() as int) =~= bytes@);
    PaletteResultId {
        value: if hash == 0 {
            1
        } else {
            hash
        },
    }
}

/// Where a suggestion comes from.
#[derive(Clone, Copy, Debug, PartialEq, Eq, Structural)]
pub enum AutocompleteSource {
    Path,
    Argument,
    Context,
    History,
    Snippet,
    Builtin,
}

/// How well a literal prefix matches, and the place of each source among
/// suggestions that match equally well; smaller comes first.
#[derive(Clone, Copy, Debug, PartialEq, Eq, Structural)]
pub struct SourcePriorities {
    pub prefix_match: u8,
    pub path: u8,
    pub argument: u8,
    pub context: u8,
    pub history: u8,
    pub snippet: u8,
    pub builtin: u8,
}

impl SourcePriorities {
    pub open spec fn place(self, source: AutocompleteSource) -> u8 {
        match source {
            AutocompleteSource::Path => self.path,
            AutocompleteSource::Argument => self.argument,
            AutocompleteSource::Context => self.context,
            AutocompleteSource::History => self.history,
            AutocompleteSource::Snippet => self.snippet,
            AutocompleteSource::Builtin => self.builtin,
        }
    }

    fn of(&self, source: AutocompleteSource) -> (r: u8)
        ensures
            r == self.place(source),
    {
        match source {
            AutocompleteSource::Path => self.path,
            AutocompleteSource::Argument => self.argument,
            AutocompleteSource::Context => self.context,
            AutocompleteSource::History => self.history,
            AutocompleteSource::Snippet => self.snippet,
            AutocompleteSource::Builtin => self.builtin,
        }
    }
}

/// How many suggestions the autocompletion and the palette show at most.
pub const AUTOCOMPLETE_LIMIT: usize = 6;

pub const PALETTE_LIMIT: usize = 10;

#[derive(Debug, PartialEq, Eq)]
pub struct AutocompleteCandidate {
    pub command: String,
    pub source: AutocompleteSource,
    pub scope_label: Option<Text>,
}

pub struct AutocompleteCandidateView {
    pub command: Seq<char>,
    pub source: AutocompleteSource,
    pub scope_label: Option<TextView>,
}

pub open spec fn seen_text(text: Option<Text>) -> Option<TextView> {
    match text {
        Some(t) => Some(t@),
        None => None,
    }
}

impl View for AutocompleteCandidate {
    type V = AutocompleteCandidateView;

    open spec fn view(&self) -> AutocompleteCandidateView {
        AutocompleteCandidateView {
            command: self.command@,
            source: self.source,
            scope_label: seen_text(self.scope_label),
        }
    }
}

/// A command that may be suggested. `match_kind` says how well it matches what
/// was typed, if at all; `tier`, `subtier` and `ordinal` order what matches
/// equally well.
#[derive(Debug)]
pub struct Proposal {
    pub command: String,
    pub title: String,
    pub detail: Option<Text>,
    pub source: AutocompleteSource,
    pub pinned: bool,
    pub match_kind: Option<u8>,
    pub tier: u8,
    pub subtier: u8,
    pub ordinal: usize,
}

pub struct ProposalView {
    pub command: Seq<char>,
    pub title: Seq<char>,
    pub detail: Option<TextView>,
    pub source: AutocompleteSource,
    pub pinned: bool,
    pub match_kind: Option<u8>,
    pub tier: u8,
    pub subtier: u8,
    pub ordinal: int,
}

impl View for Proposal {
    type V = ProposalView;

    open spec fn view(&self) -> ProposalView {
        ProposalView {
            command: self.command@,
            title: self.title@,
            detail: seen_text(self.detail),
            source: self.source,
            pinned: self.pinned,
            match_kind: self.match_kind,
            tier: self.tier,
            subtier: self.subtier,
            ordinal: self.ordinal as int,
        }
    }
}

pub open spec fn seen(list: Seq<Proposal>) -> Seq<ProposalView> {
    list.map_values(|p: Proposal| p@)
}

pub open spec fn is_matched() -> spec_fn(ProposalView) -> bool {
    |p: ProposalView| p.match_kind is Some
}

/// Commands are the same where they differ in case only.
pub open spec fn command_key() -> spec_fn(ProposalView) -> Seq<char> {
    |p: ProposalView| text::lowered(p.command)
}

pub open spec fn match_order(kind: Option<u8>) -> int {
    match kind {
        Some(k) => k as int,
        None => 256,
    }
}

/// Better matches first; then by tier, subtier and ordinal; then by title.
pub open spec fn is_better() -> spec_fn(ProposalView, ProposalView) -> bool {
    |a: ProposalView, b: ProposalView|
        if match_order(a.match_kind) != match_order(b.match_kind) {
            match_order(a.match_kind) < match_order(b.match_kind)
        } else if a.tier != b.tier {
            a.tier < b.tier
        } else if a.subtier != b.subtier {
            a.subtier < b.subtier
        } else if a.ordinal != b.ordinal {
            a.ordinal < b.ordinal
        } else {
            text::text_before(text::lowered(a.title), text::lowered(b.title))
        }
}

/// What is suggested of the proposals: those that match, each command once where
/// `distinct`, the best first, and no more than `limit`.
pub open spec fn choice(proposals: Seq<ProposalView>, distinct: bool, limit: int) -> Seq<
    ProposalView,
> {
    let matching = lists::kept(proposals, is_matched());
    let chosen = if distinct {
        lists::unique(matching, command_key())
    } else {
        matching
    };
    lists::first_of(lists::stable_sort(chosen, is_better()), limit)
}

proof fn lemma_better_is_weak_order()
    ensures
        lists::weak_order(is_better()),
{
    let before = is_better();
    assert forall|a: ProposalView| !#[trigger] before(a, a) by {
        text::lemma_text_before_irreflexive(text::lowered(a.title));
    }
    assert forall|a: ProposalView, b: ProposalView| #[trigger] before(a, b) implies !before(
        b,
        a,
    ) by {
        let x = text::lowered(a.title);
        let y = text::lowered(b.title);
        if text::text_before(x, y) && text::text_before(y, x) {
            text::lemma_text_before_transitive(x, y, x);
            text::lemma_text_before_irreflexive(x);
        }
    }
    assert forall|a: ProposalView, b: ProposalView, c: ProposalView|
        #![trigger before(b, a), before(c, b)]
        !before(b, a) && !before(c, b) implies !before(c, a) by {
        let x = text::lowered(a.title);
        let y = text::lowered(b.title);
        let z = text::lowered(c.title);
        text::lemma_text_before_total(x, y);
        text::lemma_text_before_total(y, z);
        text::lemma_text_before_total(x, z);
        if text::text_before(z, x) {
            text::lemma_text_before_irreflexive(z);
            if text::text_before(x, y) {
                text::lemma_text_before_transitive(z, x, y);
            }
            if text::text_before(y, z) {
                text::lemma_text_before_transitive(y, z, x);
            }
        }
    }
}

/// Suggestions are ordered best first, no command is suggested twice, and there
/// are never more than the limit.
pub proof fn law_suggestions_are_ranked_and_distinct(proposals: Seq<ProposalView>, limit: int)
    requires
        limit >= 0,
    ensures
        lists::ordered(choice(proposals, true, limit), is_better()),
        choice(proposals, true, limit).len() <= limit,
        forall|i: int, j: int|
            0 <= i < j < choice(proposals, true, limit).len() ==> text::lowered(
                (#[trigger] choice(proposals, true, limit)[i]).command,
            ) != text::lowered((#[trigger] choice(proposals, true, limit)[j]).command),
{
    broadcast use vstd::seq_lib::group_to_multiset_ensures;

    lemma_better_is_weak_order();
    let matching = lists::kept(proposals, is_matched());
    let u = lists::unique(matching, command_key());
    let sorted = lists::stable_sort(u, is_better());
    lists::law_stable_sort(u, is_better());
    lists::law_unique(matching, command_key());
    let r = choice(proposals, true, limit);
    assert forall|i: int, j: int| 0 <= i < j < r.len() implies !is_better()(
        #[trigger] r[j],
        #[trigger] r[i],
    ) by {
        assert(r[i] == sorted[i] && r[j] == sorted[j]);
    }
    lemma_distinct_keys_survive_sorting(u, sorted);
    assert forall|i: int, j: int| 0 <= i < j < r.len() implies text::lowered(
        (#[trigger] r[i]).command,
    ) != text::lowered((#[trigger] r[j]).command) by {
        assert(r[i] == sorted[i] && r[j] == sorted[j]);
        assert(command_key()(sorted[i]) != command_key()(sorted[j]));
    }
}

proof fn lemma_distinct_keys_survive_sorting(u: Seq<ProposalView>, sorted: Seq<ProposalView>)
    requires
        u.to_multiset() == sorted.to_multiset(),
        u.len() == sorted.len(),
        forall|i: int, j: int|
            0 <= i < j < u.len() ==> command_key()(#[trigger] u[i]) != command_key()(
                #[trigger] u[j],
            ),
    ensures
        forall|i: int, j: int|
            0 <= i < j < sorted.len() ==> command_key()(#[trigger] sorted[i]) != command_key()(
                #[trigger] sorted[j],
            ),
{
    broadcast use vstd::seq_lib::group_to_multiset_ensures;

    assert forall|i: int, j: int| 0 <= i < j < sorted.len() implies command_key()(
        #[trigger] sorted[i],
    ) != command_key()(#[trigger] sorted[j]) by {
        let key = command_key();
        let a = sorted[i];
        let b = sorted[j];
        if key(a) == key(b) {
            assert(sorted.contains(a) && sorted.contains(b));
            assert(sorted.to_multiset().count(a) > 0);
            assert(sorted.to_multiset().count(b) > 0);
            assert(u.to_multiset().count(a) > 0 && u.to_multiset().count(b) > 0);
            assert(u.contains(a) && u.contains(b));
            let m = choose|m: int| 0 <= m < u.len() && u[m] == a;
            let n = choose|n: int| 0 <= n < u.len() && u[n] == b;
            if m < n {
                assert(key(u[m]) != key(u[n]));
            } else if n < m {
                assert(key(u[n]) != key(u[m]));
            } else {
                assert(a == b);
                assert(u.no_duplicates()) by {
                    assert forall|x: int, y: int|
                        0 <= x < u.len() && 0 <= y < u.len() && x != y implies u[x] != u[y] by {
                        if x < y {
                            assert(key(u[x]) != key(u[y]));
                        } else {
                            assert(key(u[y]) != key(u[x]));
                        }
                    }
                }
                u.lemma_multiset_has_no_duplicates();
                sorted.lemma_multiset_has_no_duplicates_conv();
                assert(sorted.no_duplicates());
            }
        }
    }
}

/// Chooses what is suggested.
pub fn choose_proposals(proposals: Vec<Proposal>, distinct: bool, limit: usize) -> (r: Vec<Proposal>)
    ensures
        seen(r@) == choice(seen(proposals@), distinct, limit as int),
{
    let ghost all = proposals@;
    let ghost look = |p: Proposal| p@;
    let ghost wanted = |p: Proposal| p.match_kind is Some;
    let matches = |p: &Proposal| -> (x: bool)
        ensures
            x == wanted(*p),
        { p.match_kind.is_some() };
    let matching: Vec<Proposal> = lists::keep_list(proposals, matches, Ghost(wanted));
    let ghost key = |p: Proposal| text::lowered(p.command@);
    let name = |p: &Proposal| -> (x: String)
        ensures
            x@ == key(*p),
        { text::to_ascii_lowercase(p.command.as_str()) };
    let ghost before = |a: Proposal, b: Proposal| is_better()(a@, b@);
    let earlier = |a: &Proposal, b: &Proposal| -> (x: bool)
        ensures
            x == before(*a, *b),
        { precedes(a, b) };
    let ghost kept = matching@;
    let chosen: Vec<Proposal> = if distinct {
        lists::keep_unique(matching, name, Ghost(key))
    } else {
        matching
    };
    let ghost few = chosen@;
    let mut r: Vec<Proposal> = lists::sort_list(chosen, earlier, Ghost(before));
    let ghost sorted = r@;
    proof {
        lists::lemma_map_kept(all, look, wanted, is_matched());
        lists::lemma_map_unique(kept, look, key, command_key());
        lists::lemma_map_sort(few, look, before, is_better());
    }
    if r.len() > limit {
        r.truncate(limit);
    }
    assert(seen(r@) =~= lists::first_of(sorted.map_values(look), limit as int));
    r
}

fn precedes(a: &Proposal, b: &Proposal) -> (r: bool)
    ensures
        r == is_better()(a@, b@),
{
    let x: u16 = match a.match_kind {
        Some(kind) => kind as u16,
        None => 256,
    };
    let y: u16 = match b.match_kind {
        Some(kind) => kind as u16,
        None => 256,
    };
    if x != y {
        x < y
    } else if a.tier != b.tier {
        a.tier < b.tier
    } else if a.subtier != b.subtier {
        a.subtier < b.subtier
    } else if a.ordinal != b.ordinal {
        a.ordinal < b.ordinal
    } else {
        text::comes_before(
            text::to_ascii_lowercase(a.title.as_str()).as_str(),
            text::to_ascii_lowercase(b.title.as_str()).as_str(),
        )
    }
}

/// The candidate that a proposal becomes.
pub open spec fn suggestion(p: ProposalView) -> AutocompleteCandidateView {
    AutocompleteCandidateView { command: p.command, source: p.source, scope_label: p.detail }
}

pub open spec fn seen_candidates(list: Seq<AutocompleteCandidate>) -> Seq<
    AutocompleteCandidateView,
> {
    list.map_values(|c: AutocompleteCandidate| c@)
}

pub open spec fn suggestions(list: Seq<ProposalView>) -> Seq<AutocompleteCandidateView> {
    list.map_values(|p: ProposalView| suggestion(p))
}

fn to_candidates(proposals: Vec<Proposal>) -> (r: Vec<AutocompleteCandidate>)
    ensures
        seen_candidates(r@) == suggestions(seen(proposals@)),
{
    let ghost all = proposals@;
    let mut rest: Vec<Proposal> = proposals;
    let mut r: Vec<AutocompleteCandidate> = Vec::new();
    while rest.len() > 0
        invariant
            rest@.len() <= all.len(),
            rest@ == all.skip(all.len() - rest@.len()),
            r@.len() == all.len() - rest@.len(),
            forall|k: int| 0 <= k < r@.len() ==> (#[trigger] r@[k])@ == suggestion(all[k]@),
        decreases rest@.len(),
    {
        let ghost n = all.len() - rest@.len();
        let p: Proposal = rest.remove(0);
        assert(p == all[n]);
        r.push(
            AutocompleteCandidate { command: p.command, source: p.source, scope_label: p.detail },
        );
        assert(rest@ =~= all.skip(n + 1));
    }
    assert(seen_candidates(r@) =~= suggestions(seen(all)));
    r
}

/// A command of the history of one target. `match_kind` says how well it
/// matches what was typed.
#[derive(Debug)]
pub struct ScopedCommand {
    pub command: String,
    pub scope_key: String,
    pub scope_label: String,
    pub match_kind: Option<u8>,
}

#[derive(Debug)]
pub struct RecentCommand {
    pub command: String,
    pub match_kind: Option<u8>,
}

#[derive(Debug)]
pub struct Snippet {
    pub command: String,
    pub display_name: String,
    pub group: String,
    pub pinned: bool,
    pub match_kind: Option<u8>,
}

/// A command that is known without having been typed.
#[derive(Debug)]
pub struct CommandTemplate {
    pub command: String,
    pub detail: String,
    pub source: AutocompleteSource,
    pub match_kind: Option<u8>,
}

/// Where commands are taken from, oldest history first, each already matched
/// against what was typed.
#[derive(Debug)]
pub struct CommandSources {
    pub scoped: Vec<ScopedCommand>,
    pub recent: Vec<RecentCommand>,
    pub snippets: Vec<Snippet>,
    pub templates: Vec<CommandTemplate>,
}

/// A command that recent output suggests.
#[derive(Debug, PartialEq, Eq)]
pub struct ContextCommandTemplate {
    pub command: String,
    pub detail: String,
    pub rank: u8,
    pub ordinal: usize,
    pub match_kind: Option<u8>,
}

pub open spec fn in_scope(scope_key: Seq<char>) -> spec_fn(ScopedCommand) -> bool {
    |entry: ScopedCommand| entry.scope_key@ == scope_key
}

/// The history of one target, newest first.
pub open spec fn scoped_history(entries: Seq<ScopedCommand>, scope_key: Seq<char>) -> Seq<
    ScopedCommand,
> {
    lists::kept(entries.reverse(), in_scope(scope_key))
}

/// How the target of a command is called.
pub open spec fn scope_name(label: Seq<char>) -> AtomView {
    if text::blank(label) {
        AtomView::Message(MessageId::PaletteThisTarget)
    } else {
        AtomView::Characters(label)
    }
}

pub open spec fn scoped_entry(entry: ScopedCommand, i: int) -> ProposalView {
    ProposalView {
        command: text::trimmed(entry.command@),
        title: text::trimmed(entry.command@),
        detail: Some(
            TextView::Filled(MessageId::PaletteHistoryDetail, scope_name(entry.scope_label@)),
        ),
        source: AutocompleteSource::History,
        pinned: false,
        match_kind: entry.match_kind,
        tier: 0,
        subtier: 0,
        ordinal: i,
    }
}

pub open spec fn recent_entry(entry: RecentCommand, i: int) -> ProposalView {
    ProposalView {
        command: text::trimmed(entry.command@),
        title: text::trimmed(entry.command@),
        detail: Some(TextView::Message(MessageId::PaletteRecentCommand)),
        source: AutocompleteSource::History,
        pinned: false,
        match_kind: entry.match_kind,
        tier: 1,
        subtier: 0,
        ordinal: i,
    }
}

pub open spec fn snippet_detail(snippet: Snippet) -> TextView {
    let command = AtomView::Characters(text::trimmed(snippet.command@));
    if text::blank(snippet.group@) {
        TextView::Filled(
            if snippet.pinned {
                MessageId::PalettePinnedSnippetDetail
            } else {
                MessageId::PaletteSnippetDetail
            },
            command,
        )
    } else {
        TextView::FilledTwo(
            if snippet.pinned {
                MessageId::PalettePinnedGroupSnippetDetail
            } else {
                MessageId::PaletteGroupSnippetDetail
            },
            AtomView::Characters(text::trimmed(snippet.group@)),
            command,
        )
    }
}

pub open spec fn snippet_entry(snippet: Snippet, i: int) -> ProposalView {
    ProposalView {
        command: text::trimmed(snippet.command@),
        title: snippet.display_name@,
        detail: Some(snippet_detail(snippet)),
        source: AutocompleteSource::Snippet,
        pinned: snippet.pinned,
        match_kind: snippet.match_kind,
        tier: if snippet.pinned {
            1
        } else {
            2
        },
        subtier: 0,
        ordinal: i,
    }
}

pub open spec fn context_entry(template: ContextCommandTemplate) -> ProposalView {
    ProposalView {
        command: template.command@,
        title: template.command@,
        detail: Some(TextView::Characters(template.detail@)),
        source: AutocompleteSource::Context,
        pinned: false,
        match_kind: template.match_kind,
        tier: if template.rank > 253 {
            255
        } else {
            (template.rank + 2) as u8
        },
        subtier: 0,
        ordinal: template.ordinal as int,
    }
}

pub open spec fn template_entry(template: CommandTemplate, i: int) -> ProposalView {
    ProposalView {
        command: template.command@,
        title: template.command@,
        detail: Some(TextView::Characters(template.detail@)),
        source: template.source,
        pinned: false,
        match_kind: template.match_kind,
        tier: if template.source == AutocompleteSource::Argument {
            3
        } else {
            4
        },
        subtier: 0,
        ordinal: i,
    }
}

/// Everything that the palette proposes: the history of the target, the whole
/// history, the snippets, what recent output suggests, and the known commands.
pub open spec fn palette_commands(
    scoped: Seq<ScopedCommand>,
    recent: Seq<RecentCommand>,
    snippets: Seq<Snippet>,
    context: Seq<ContextCommandTemplate>,
    templates: Seq<CommandTemplate>,
    scope_key: Seq<char>,
) -> Seq<ProposalView> {
    let history = scoped_history(scoped, scope_key);
    let newest = recent.reverse();
    Seq::new(history.len(), |i: int| scoped_entry(history[i], i)) + Seq::new(
        newest.len(),
        |i: int| recent_entry(newest[i], i),
    ) + Seq::new(snippets.len(), |i: int| snippet_entry(snippets[i], i)) + Seq::new(
        context.len(),
        |i: int| context_entry(context[i]),
    ) + Seq::new(templates.len(), |i: int| template_entry(templates[i], i))
}

pub open spec fn palette_proposals(
    sources: CommandSources,
    scope_key: Seq<char>,
    context: Seq<ContextCommandTemplate>,
) -> Seq<ProposalView> {
    palette_commands(
        sources.scoped@,
        sources.recent@,
        sources.snippets@,
        context,
        sources.templates@,
        scope_key,
    )
}

fn scope_atom(label: &String) -> (r: Atom)
    ensures
        r@ == scope_name(label@),
{
    if text::is_blank(label.as_str()) {
        Atom::Message(MessageId::PaletteThisTarget)
    } else {
        Atom::Value(label.clone())
    }
}

/// Adds what stands for the list `part` to what stands for another.
fn append_proposals(list: &mut Vec<Proposal>, part: Vec<Proposal>)
    ensures
        seen(final(list)@) == seen(old(list)@) + seen(part@),
{
    let ghost before = list@;
    let ghost added = part@;
    lists::push_all(list, part);
    assert(seen(list@) =~= seen(before) + seen(added));
}

fn propose_scoped(entries: &Vec<ScopedCommand>, scope_key: &str, for_palette: bool, priority: u8) -> (r:
    Vec<Proposal>)
    ensures
        ({
            let scoped = scoped_history(entries@, scope_key@);
            seen(r@) == Seq::new(
                scoped.len(),
                |i: int|
                    if for_palette {
                        scoped_entry(scoped[i], i)
                    } else {
                        scoped_completion(scoped[i], i, priority)
                    },
            )
        }),
{
    let ghost rev = entries@.reverse();
    let ghost wanted = in_scope(scope_key@);
    let mut r: Vec<Proposal> = Vec::new();
    let mut n: usize = entries.len();
    assert(rev.take(0) =~= Seq::empty());
    while n > 0
        invariant
            n <= entries@.len(),
            rev == entries@.reverse(),
            wanted == in_scope(scope_key@),
            ({
                let done = lists::kept(rev.take(entries@.len() - n), wanted);
                &&& r@.len() == done.len()
                &&& r@.len() <= entries@.len() - n
                &&& forall|k: int|
                    0 <= k < r@.len() ==> (#[trigger] r@[k])@ == if for_palette {
                        scoped_entry(done[k], k)
                    } else {
                        scoped_completion(done[k], k, priority)
                    }
            }),
        decreases n,
    {
        n -= 1;
        let entry = &entries[n];
        proof {
            assert(rev[entries@.len() - n - 1] == entries@[n as int]);
            lists::lemma_kept_step(rev, wanted, entries@.len() - n - 1);
        }
        if text::same_text(entry.scope_key.as_str(), scope_key) {
            let command: String = text::trim(entry.command.as_str());
            let title: String = command.clone();
            let ordinal: usize = r.len();
            let detail: Text = if for_palette {
                Text::Filled(MessageId::PaletteHistoryDetail, scope_atom(&entry.scope_label))
            } else if text::is_blank(entry.scope_label.as_str()) {
                Text::Message(MessageId::PaletteThisTarget)
            } else {
                Text::Value(entry.scope_label.clone())
            };
            r.push(
                Proposal {
                    command,
                    title,
                    detail: Some(detail),
                    source: AutocompleteSource::History,
                    pinned: false,
                    match_kind: entry.match_kind,
                    tier: if for_palette {
                        0
                    } else {
                        priority
                    },
                    subtier: if for_palette {
                        0
                    } else {
                        1
                    },
                    ordinal,
                },
            );
        }
    }
    assert(rev.take(entries@.len() as int) =~= rev);
    proof {
        let scoped = scoped_history(entries@, scope_key@);
        assert(seen(r@) =~= Seq::new(
            scoped.len(),
            |i: int|
                if for_palette {
                    scoped_entry(scoped[i], i)
                } else {
                    scoped_completion(scoped[i], i, priority)
                },
        ));
    }
    r
}

pub open spec fn scoped_completion(entry: ScopedCommand, i: int, priority: u8) -> ProposalView {
    ProposalView {
        command: text::trimmed(entry.command@),
        title: text::trimmed(entry.command@),
        detail: Some(
            if text::blank(entry.scope_label@) {
                TextView::Message(MessageId::PaletteThisTarget)
            } else {
                TextView::Characters(entry.scope_label@)
            },
        ),
        source: AutocompleteSource::History,
        pinned: false,
        match_kind: entry.match_kind,
        tier: priority,
        subtier: 1,
        ordinal: i,
    }
}

pub open spec fn recent_completion(entry: RecentCommand, i: int, offset: int, priority: u8) -> ProposalView {
    ProposalView {
        command: text::trimmed(entry.command@),
        title: text::trimmed(entry.command@),
        detail: None,
        source: AutocompleteSource::History,
        pinned: false,
        match_kind: entry.match_kind,
        tier: priority,
        subtier: 1,
        ordinal: i + offset,
    }
}

pub open spec fn snippet_completion(snippet: Snippet, i: int, offset: int, priority: u8) -> ProposalView {
    ProposalView {
        command: text::trimmed(snippet.command@),
        title: text::trimmed(snippet.command@),
        detail: None,
        source: AutocompleteSource::Snippet,
        pinned: false,
        match_kind: snippet.match_kind,
        tier: priority,
        subtier: if snippet.pinned {
            0
        } else {
            1
        },
        ordinal: i + offset,
    }
}

pub open spec fn template_completion(
    template: CommandTemplate,
    i: int,
    offset: int,
    priorities: SourcePriorities,
) -> ProposalView {
    ProposalView {
        command: template.command@,
        title: template.command@,
        detail: Some(TextView::Characters(template.detail@)),
        source: template.source,
        pinned: false,
        match_kind: template.match_kind,
        tier: priorities.place(template.source),
        subtier: 1,
        ordinal: i + offset,
    }
}

/// A suggestion that another collection has made already.
pub open spec fn given_completion(
    candidate: AutocompleteCandidateView,
    i: int,
    offset: int,
    priorities: SourcePriorities,
) -> ProposalView {
    ProposalView {
        command: candidate.command,
        title: candidate.command,
        detail: candidate.scope_label,
        source: candidate.source,
        pinned: false,
        match_kind: Some(priorities.prefix_match),
        tier: priorities.place(candidate.source),
        subtier: 0,
        ordinal: i + offset,
    }
}

fn propose_recent(
    entries: &Vec<RecentCommand>,
    for_palette: bool,
    offset: usize,
    priority: u8,
) -> (r: Vec<Proposal>)
    requires
        for_palette || entries@.len() + offset <= usize::MAX,
    ensures
        ({
            let recent = entries@.reverse();
            seen(r@) == Seq::new(
                recent.len(),
                |i: int|
                    if for_palette {
                        recent_entry(recent[i], i)
                    } else {
                        recent_completion(recent[i], i, offset as int, priority)
                    },
            )
        }),
{
    let ghost recent = entries@.reverse();
    let mut r: Vec<Proposal> = Vec::new();
    let mut n: usize = entries.len();
    while n > 0
        invariant
            n <= entries@.len(),
            for_palette || entries@.len() + offset <= usize::MAX,
            recent == entries@.reverse(),
            r@.len() == entries@.len() - n,
            forall|k: int|
                0 <= k < r@.len() ==> (#[trigger] r@[k])@ == if for_palette {
                    recent_entry(recent[k], k)
                } else {
                    recent_completion(recent[k], k, offset as int, priority)
                },
        decreases n,
    {
        n -= 1;
        assert(recent[entries@.len() - n - 1] == entries@[n as int]);
        let command: String = text::trim(entries[n].command.as_str());
        let title: String = command.clone();
        let place: usize = r.len();
        r.push(
            Proposal {
                command,
                title,
                detail: if for_palette {
                    Some(Text::Message(MessageId::PaletteRecentCommand))
                } else {
                    None
                },
                source: AutocompleteSource::History,
                pinned: false,
                match_kind: entries[n].match_kind,
                tier: if for_palette {
                    1
                } else {
                    priority
                },
                subtier: if for_palette {
                    0
                } else {
                    1
                },
                ordinal: if for_palette {
                    place
                } else {
                    place + offset
                },
            },
        );
    }
    assert(seen(r@) =~= Seq::new(
        recent.len(),
        |i: int|
            if for_palette {
                recent_entry(recent[i], i)
            } else {
                recent_completion(recent[i], i, offset as int, priority)
            },
    ));
    r
}

fn snippet_text(snippet: &Snippet) -> (r: Text)
    ensures
        r@ == snippet_detail(*snippet),
{
    let command: Atom = Atom::Value(text::trim(snippet.command.as_str()));
    if text::is_blank(snippet.group.as_str()) {
        Text::Filled(
            if snippet.pinned {
                MessageId::PalettePinnedSnippetDetail
            } else {
                MessageId::PaletteSnippetDetail
            },
            command,
        )
    } else {
        Text::FilledTwo(
            if snippet.pinned {
                MessageId::PalettePinnedGroupSnippetDetail
            } else {
                MessageId::PaletteGroupSnippetDetail
            },
            Atom::Value(text::trim(snippet.group.as_str())),
            command,
        )
    }
}

fn propose_snippets(
    snippets: &Vec<Snippet>,
    for_palette: bool,
    offset: usize,
    priority: u8,
) -> (r: Vec<Proposal>)
    requires
        for_palette || snippets@.len() + offset <= usize::MAX,
    ensures
        seen(r@) == Seq::new(
            snippets@.len(),
            |i: int|
                if for_palette {
                    snippet_entry(snippets@[i], i)
                } else {
                    snippet_completion(snippets@[i], i, offset as int, priority)
                },
        ),
{
    let mut r: Vec<Proposal> = Vec::new();
    let mut i: usize = 0;
    while i < snippets.len()
        invariant
            i <= snippets@.len(),
            for_palette || snippets@.len() + offset <= usize::MAX,
            r@.len() == i,
            forall|k: int|
                0 <= k < i ==> (#[trigger] r@[k])@ == if for_palette {
                    snippet_entry(snippets@[k], k)
                } else {
                    snippet_completion(snippets@[k], k, offset as int, priority)
                },
        decreases snippets@.len() - i,
    {
        let snippet = &snippets[i];
        let command: String = text::trim(snippet.command.as_str());
        let title: String = if for_palette {
            snippet.display_name.clone()
        } else {
            command.clone()
        };
        r.push(
            Proposal {
                command,
                title,
                detail: if for_palette {
                    Some(snippet_text(snippet))
                } else {
                    None
                },
                source: AutocompleteSource::Snippet,
                pinned: for_palette && snippet.pinned,
                match_kind: snippet.match_kind,
                tier: if !for_palette {
                    priority
                } else if snippet.pinned {
                    1
                } else {
                    2
                },
                subtier: if for_palette || snippet.pinned {
                    0
                } else {
                    1
                },
                ordinal: if for_palette {
                    i
                } else {
                    i + offset
                },
            },
        );
        i += 1;
    }
    assert(seen(r@) =~= Seq::new(
        snippets@.len(),
        |i: int|
            if for_palette {
                snippet_entry(snippets@[i], i)
            } else {
                snippet_completion(snippets@[i], i, offset as int, priority)
            },
    ));
    r
}

fn propose_context(templates: &Vec<ContextCommandTemplate>) -> (r: Vec<Proposal>)
    ensures
        seen(r@) == Seq::new(templates@.len(), |i: int| context_entry(templates@[i])),
{
    let mut r: Vec<Proposal> = Vec::new();
    let mut i: usize = 0;
    while i < templates.len()
        invariant
            i <= templates@.len(),
            r@.len() == i,
            forall|k: int| 0 <= k < i ==> (#[trigger] r@[k])@ == context_entry(templates@[k]),
        decreases templates@.len() - i,
    {
        let template = &templates[i];
        r.push(
            Proposal {
                command: template.command.clone(),
                title: template.command.clone(),
                detail: Some(Text::Value(template.detail.clone())),
                source: AutocompleteSource::Context,
                pinned: false,
                match_kind: template.match_kind,
                tier: if template.rank > 253 {
                    255
                } else {
                    template.rank + 2
                },
                subtier: 0,
                ordinal: template.ordinal,
            },
        );
        i += 1;
    }
    assert(seen(r@) =~= Seq::new(templates@.len(), |i: int| context_entry(templates@[i])));
    r
}

fn propose_templates(
    templates: &Vec<CommandTemplate>,
    for_palette: bool,
    offset: usize,
    priorities: &SourcePriorities,
) -> (r: Vec<Proposal>)
    requires
        for_palette || templates@.len() + offset <= usize::MAX,
    ensures
        seen(r@) == Seq::new(
            templates@.len(),
            |i: int|
                if for_palette {
                    template_entry(templates@[i], i)
                } else {
                    template_completion(templates@[i], i, offset as int, *priorities)
                },
        ),
{
    let mut r: Vec<Proposal> = Vec::new();
    let mut i: usize = 0;
    while i < templates.len()
        invariant
            i <= templates@.len(),
            for_palette || templates@.len() + offset <= usize::MAX,
            r@.len() == i,
            forall|k: int|
                0 <= k < i ==> (#[trigger] r@[k])@ == if for_palette {
                    template_entry(templates@[k], k)
                } else {
                    template_completion(templates@[k], k, offset as int, *priorities)
                },
        decreases templates@.len() - i,
    {
        let template = &templates[i];
        r.push(
            Proposal {
                command: template.command.clone(),
                title: template.command.clone(),
                detail: Some(Text::Value(template.detail.clone())),
                source: template.source,
                pinned: false,
                match_kind: template.match_kind,
                tier: if !for_palette {
                    priorities.of(template.source)
                } else if template.source == AutocompleteSource::Argument {
                    3
                } else {
                    4
                },
                subtier: if for_palette {
                    0
                } else {
                    1
                },
                ordinal: if for_palette {
                    i
                } else {
                    i + offset
                },
            },
        );
        i += 1;
    }
    assert(seen(r@) =~= Seq::new(
        templates@.len(),
        |i: int|
            if for_palette {
                template_entry(templates@[i], i)
            } else {
                template_completion(templates@[i], i, offset as int, *priorities)
            },
    ));
    r
}

#[derive(Clone, Copy, Debug, PartialEq, Eq, Structural)]
pub enum SearchStatus {
    Attention,
    Busy,
    Running,
    Done,
    Idle,
    Unavailable,
    Unknown,
}

#[derive(Clone, Copy, Debug, PartialEq, Eq, Structural)]
pub enum HighlightField {
    Title,
    Detail,
}

/// A stretch of a text, in bytes, that matched a search.
#[derive(Clone, Copy, Debug, PartialEq, Eq, Structural)]
pub struct TextHighlight {
    pub field: HighlightField,
    pub start: usize,
    pub end: usize,
}

/// What choosing a search result opens: a session, or the document of another
/// category.
#[derive(Clone, Copy, Debug, PartialEq, Eq, Structural)]
pub enum SearchAction {
    OpenSession(HostedSessionId),
    OpenDocument { category: PaletteCategory, document: u128 },
}

/// What choosing a result does: run the command, or open what was searched for.
#[derive(Clone, Copy, Debug, PartialEq, Eq, Structural)]
pub enum PaletteAction {
    Search(SearchAction),
    RunCommand,
}

#[derive(Debug)]
pub struct CommandPaletteCandidate {
    pub id: PaletteResultId,
    pub command: String,
    pub title: String,
    pub detail: Text,
    pub source: AutocompleteSource,
    pub pinned: bool,
    pub category: PaletteCategory,
    pub action: PaletteAction,
    pub status: Option<SearchStatus>,
    pub highlights: Vec<TextHighlight>,
}

pub struct CommandPaletteCandidateView {
    pub id: PaletteResultId,
    pub command: Seq<char>,
    pub title: Seq<char>,
    pub detail: TextView,
    pub source: AutocompleteSource,
    pub pinned: bool,
    pub category: PaletteCategory,
    pub action: PaletteAction,
    pub status: Option<SearchStatus>,
    pub highlights: Seq<TextHighlight>,
}

impl View for CommandPaletteCandidate {
    type V = CommandPaletteCandidateView;

    open spec fn view(&self) -> CommandPaletteCandidateView {
        CommandPaletteCandidateView {
            id: self.id,
            command: self.command@,
            title: self.title@,
            detail: self.detail@,
            source: self.source,
            pinned: self.pinned,
            category: self.category,
            action: self.action,
            status: self.status,
            highlights: self.highlights@,
        }
    }
}

/// The namespace of results that run a command.
pub const COMMAND_NAMESPACE: u8 = 1;

/// The palette result that a proposal becomes.
pub open spec fn command_result(p: ProposalView) -> CommandPaletteCandidateView {
    CommandPaletteCandidateView {
        id: result_id(COMMAND_NAMESPACE, p.command),
        command: p.command,
        title: p.title,
        detail: match p.detail {
            Some(detail) => detail,
            None => TextView::Characters(""@),
        },
        source: p.source,
        pinned: p.pinned,
        category: PaletteCategory::Commands,
        action: PaletteAction::RunCommand,
        status: None,
        highlights: Seq::empty(),
    }
}

pub open spec fn seen_results(list: Seq<CommandPaletteCandidate>) -> Seq<
    CommandPaletteCandidateView,
> {
    list.map_values(|c: CommandPaletteCandidate| c@)
}

pub open spec fn command_results(list: Seq<ProposalView>) -> Seq<CommandPaletteCandidateView> {
    list.map_values(|p: ProposalView| command_result(p))
}

fn to_results(proposals: Vec<Proposal>) -> (r: Vec<CommandPaletteCandidate>)
    ensures
        seen_results(r@) == command_results(seen(proposals@)),
{
    let ghost all = proposals@;
    let mut rest: Vec<Proposal> = proposals;
    let mut r: Vec<CommandPaletteCandidate> = Vec::new();
    while rest.len() > 0
        invariant
            rest@.len() <= all.len(),
            rest@ == all.skip(all.len() - rest@.len()),
            r@.len() == all.len() - rest@.len(),
            forall|k: int| 0 <= k < r@.len() ==> (#[trigger] r@[k])@ == command_result(all[k]@),
        decreases rest@.len(),
    {
        let ghost n = all.len() - rest@.len();
        let p: Proposal = rest.remove(0);
        assert(p == all[n]);
        let id: PaletteResultId = command_palette_result_id(COMMAND_NAMESPACE, p.command.as_str());
        let candidate: CommandPaletteCandidate = CommandPaletteCandidate {
            id,
            command: p.command,
            title: p.title,
            detail: match p.detail {
                Some(detail) => detail,
                None => Text::Literal(""),
            },
            source: p.source,
            pinned: p.pinned,
            category: PaletteCategory::Commands,
            action: PaletteAction::RunCommand,
            status: None,
            highlights: Vec::new(),
        };
        assert(candidate.highlights@ =~= Seq::empty());
        r.push(candidate);
        assert(rest@ =~= all.skip(n + 1));
    }
    assert(seen_results(r@) =~= command_results(seen(all)));
    r
}

/// The commands that the palette shows of sources that were already matched.
pub fn matched_palette_candidates(
    sources: &CommandSources,
    scope_key: &str,
    context: &Vec<ContextCommandTemplate>,
) -> (r: Vec<CommandPaletteCandidate>)
    ensures
        seen_results(r@) == command_results(
            choice(
                palette_proposals(*sources, scope_key@, context@),
                true,
                PALETTE_LIMIT as int,
            ),
        ),
{
    let unused: SourcePriorities = SourcePriorities {
        prefix_match: 0,
        path: 0,
        argument: 0,
        context: 0,
        history: 0,
        snippet: 0,
        builtin: 0,
    };
    let mut proposals: Vec<Proposal> = propose_scoped(&sources.scoped, scope_key, true, 0);
    append_proposals(&mut proposals, propose_recent(&sources.recent, true, 0, 0));
    append_proposals(&mut proposals, propose_snippets(&sources.snippets, true, 0, 0));
    append_proposals(&mut proposals, propose_context(context));
    append_proposals(&mut proposals, propose_templates(&sources.templates, true, 0, &unused));
    assert(seen(proposals@) =~= palette_proposals(*sources, scope_key@, context@));
    to_results(choose_proposals(proposals, true, PALETTE_LIMIT))
}

/// The palette's commands for a query, where commands are matched by a rule.
pub open spec fn palette_list(
    query: Seq<char>,
    scoped: Seq<ScopedCommand>,
    recent: Seq<RecentCommand>,
    snippets: Seq<Snippet>,
    context: Seq<ContextCommandTemplate>,
    templates: Seq<CommandTemplate>,
    scope_key: Seq<char>,
    rule: matching::Rule,
) -> Seq<CommandPaletteCandidateView> {
    let plain = matching::normalized(query);
    command_results(
        choice(
            palette_commands(
                matching::judged(scoped, plain, true, rule),
                matching::judged(recent, plain, true, rule),
                matching::judged(snippets, plain, true, rule),
                matching::judged(context, plain, true, rule),
                matching::judged(templates, plain, true, rule),
                scope_key,
            ),
            true,
            PALETTE_LIMIT as int,
        ),
    )
}

/// The commands that the palette shows for a query, given those that recent
/// output suggests. `matcher` says how well the query, without case and outer
/// blanks, matches what a command offers.
pub fn palette_candidates_with_context<F: Fn(&str, &Vec<String>) -> Option<u8>>(
    query: &str,
    sources: CommandSources,
    scope_key: &str,
    context: Vec<ContextCommandTemplate>,
    matcher: &F,
) -> (r: Vec<CommandPaletteCandidate>)
    requires
        forall|q: &str, list: &Vec<String>| #[trigger] matcher.requires((q, list)),
    ensures
        exists|judged: CommandSources, suggested: Vec<ContextCommandTemplate>|
            {
                &&& #[trigger] matching::sources_answered(
                    *matcher,
                    matching::normalized(query@),
                    sources,
                    true,
                    judged,
                )
                &&& #[trigger] matching::list_answered(
                    *matcher,
                    matching::normalized(query@),
                    context@,
                    true,
                    suggested@,
                )
                &&& seen_results(r@) == command_results(
                    choice(
                        palette_proposals(judged, scope_key@, suggested@),
                        true,
                        PALETTE_LIMIT as int,
                    ),
                )
            },
        forall|rule: matching::Rule| #[trigger]
            matching::follows(*matcher, rule) ==> seen_results(r@) == palette_list(
                query@,
                sources.scoped@,
                sources.recent@,
                sources.snippets@,
                context@,
                sources.templates@,
                scope_key@,
                rule,
            ),
{
    let ghost plain = matching::normalized(query@);
    let ghost given = sources;
    let ghost suggestions = context@;
    let judged: CommandSources = judge_sources(sources, query, true, matcher);
    let suggested: Vec<ContextCommandTemplate> = judge_list(
        context,
        normalized_query(query).as_str(),
        true,
        matcher,
    );
    let r: Vec<CommandPaletteCandidate> = matched_palette_candidates(
        &judged,
        scope_key,
        &suggested,
    );
    proof {
        assert forall|rule: matching::Rule| #[trigger]
            matching::follows(*matcher, rule) implies seen_results(r@) == palette_list(
            query@,
            given.scoped@,
            given.recent@,
            given.snippets@,
            suggestions,
            given.templates@,
            scope_key@,
            rule,
        ) by {
            matching::lemma_answers_follow(*matcher, plain, given.scoped@, true, judged.scoped@, rule);
            matching::lemma_answers_follow(*matcher, plain, given.recent@, true, judged.recent@, rule);
            matching::lemma_answers_follow(
                *matcher,
                plain,
                given.snippets@,
                true,
                judged.snippets@,
                rule,
            );
            matching::lemma_answers_follow(
                *matcher,
                plain,
                given.templates@,
                true,
                judged.templates@,
                rule,
            );
            matching::lemma_answers_follow(*matcher, plain, suggestions, true, suggested@, rule);
        }
    }
    r
}

/// Letter case and outer blanks of the query, and the history of other targets,
/// never change what the palette shows.
pub proof fn law_query_form_and_other_targets_do_not_count(
    query: Seq<char>,
    scoped: Seq<ScopedCommand>,
    recent: Seq<RecentCommand>,
    snippets: Seq<Snippet>,
    context: Seq<ContextCommandTemplate>,
    templates: Seq<CommandTemplate>,
    scope_key: Seq<char>,
    rule: matching::Rule,
)
    ensures
        palette_list(
            text::lowered(text::trimmed(query)),
            lists::kept(scoped, in_scope(scope_key)),
            recent,
            snippets,
            context,
            templates,
            scope_key,
            rule,
        ) == palette_list(
            query,
            scoped,
            recent,
            snippets,
            context,
            templates,
            scope_key,
            rule,
        ),
{
    matching::law_query_is_normalized_once(query);
    let plain = matching::normalized(query);
    let wanted = in_scope(scope_key);
    let own = lists::kept(scoped, wanted);
    let judge = |item: ScopedCommand|
        matching::Matched::with_kind(item, rule(plain, matching::offered(item, true)));
    let all_judged = matching::judged(scoped, plain, true, rule);
    let own_judged = matching::judged(own, plain, true, rule);
    assert(all_judged =~= scoped.map_values(judge));
    assert(own_judged =~= own.map_values(judge));
    assert(all_judged.reverse() =~= scoped.reverse().map_values(judge));
    assert(own_judged.reverse() =~= own.reverse().map_values(judge));
    lists::lemma_map_kept(scoped.reverse(), judge, wanted, wanted);
    lists::lemma_map_kept(own.reverse(), judge, wanted, wanted);
    lists::lemma_kept_reversed(scoped, wanted);
    lists::lemma_kept_reversed(own, wanted);
    lists::lemma_kept_twice(scoped, wanted, wanted, wanted);
}

/// Every command of the palette is in the category of commands, runs, and has
/// neither a status nor highlights.
pub proof fn law_command_results_stay_commands(proposals: Seq<ProposalView>, i: int)
    requires
        0 <= i < command_results(choice(proposals, true, PALETTE_LIMIT as int)).len(),
    ensures
        ({
            let result = command_results(choice(proposals, true, PALETTE_LIMIT as int))[i];
            &&& result.category == PaletteCategory::Commands
            &&& result.action == PaletteAction::RunCommand
            &&& result.status is None
            &&& result.highlights.len() == 0
        }),
{
}

pub open spec fn given(list: Option<Vec<AutocompleteCandidate>>) -> Seq<AutocompleteCandidate> {
    match list {
        Some(candidates) => candidates@,
        None => Seq::empty(),
    }
}

/// How far the ordinals of suggestions from recent output and of arguments are
/// set off from those of paths.
pub const CONTEXT_OFFSET: usize = 100;

pub const ARGUMENT_OFFSET: usize = 200;

pub open spec fn given_part(
    list: Option<Vec<AutocompleteCandidate>>,
    offset: int,
    priorities: SourcePriorities,
) -> Seq<ProposalView> {
    Seq::new(
        given(list).len(),
        |i: int| given_completion(given(list)[i]@, i, offset, priorities),
    )
}

/// Everything that the autocompletion proposes: paths, what recent output
/// suggests, arguments, the history of the target, the whole history, snippets
/// and known commands.
pub open spec fn completion_commands(
    scoped: Seq<ScopedCommand>,
    recent: Seq<RecentCommand>,
    snippets: Seq<Snippet>,
    templates: Seq<CommandTemplate>,
    scope_key: Seq<char>,
    paths: Option<Vec<AutocompleteCandidate>>,
    context: Option<Vec<AutocompleteCandidate>>,
    arguments: Option<Vec<AutocompleteCandidate>>,
    priorities: SourcePriorities,
) -> Seq<ProposalView> {
    let history = scoped_history(scoped, scope_key);
    let newest = recent.reverse();
    let after_scoped = scoped.len() as int;
    let after_recent = after_scoped + recent.len();
    let after_snippets = after_recent + snippets.len();
    given_part(paths, 0, priorities) + given_part(context, CONTEXT_OFFSET as int, priorities)
        + given_part(arguments, ARGUMENT_OFFSET as int, priorities) + Seq::new(
        history.len(),
        |i: int| scoped_completion(history[i], i, priorities.history),
    ) + Seq::new(
        newest.len(),
        |i: int| recent_completion(newest[i], i, after_scoped, priorities.history),
    ) + Seq::new(
        snippets.len(),
        |i: int| snippet_completion(snippets[i], i, after_recent, priorities.snippet),
    ) + Seq::new(
        templates.len(),
        |i: int| template_completion(templates[i], i, after_snippets, priorities),
    )
}

pub open spec fn completion_proposals(
    sources: CommandSources,
    scope_key: Seq<char>,
    paths: Option<Vec<AutocompleteCandidate>>,
    context: Option<Vec<AutocompleteCandidate>>,
    arguments: Option<Vec<AutocompleteCandidate>>,
    priorities: SourcePriorities,
) -> Seq<ProposalView> {
    completion_commands(
        sources.scoped@,
        sources.recent@,
        sources.snippets@,
        sources.templates@,
        scope_key,
        paths,
        context,
        arguments,
        priorities,
    )
}

/// What completes an input, where commands are matched by a rule.
pub open spec fn completion_list(
    input: Seq<char>,
    sources: CommandSources,
    scope_key: Seq<char>,
    paths: Option<Vec<AutocompleteCandidate>>,
    context: Option<Vec<AutocompleteCandidate>>,
    arguments: Option<Vec<AutocompleteCandidate>>,
    priorities: SourcePriorities,
    rule: matching::Rule,
) -> Seq<AutocompleteCandidateView> {
    let plain = matching::normalized(input);
    if text::blank(input) {
        Seq::empty()
    } else {
        suggestions(
            choice(
                completion_commands(
                    matching::judged(sources.scoped@, plain, false, rule),
                    matching::judged(sources.recent@, plain, false, rule),
                    matching::judged(sources.snippets@, plain, false, rule),
                    matching::judged(sources.templates@, plain, false, rule),
                    scope_key,
                    paths,
                    context,
                    arguments,
                    priorities,
                ),
                true,
                AUTOCOMPLETE_LIMIT as int,
            ),
        )
    }
}

fn propose_given(
    list: Option<Vec<AutocompleteCandidate>>,
    offset: usize,
    priorities: &SourcePriorities,
) -> (r: Vec<Proposal>)
    requires
        offset > 0 ==> given(list).len() + offset <= usize::MAX,
    ensures
        seen(r@) == given_part(list, offset as int, *priorities),
{
    let ghost all = given(list);
    let mut rest: Vec<AutocompleteCandidate> = match list {
        Some(candidates) => candidates,
        None => Vec::new(),
    };
    assert(rest@ =~= all);
    let mut r: Vec<Proposal> = Vec::new();
    assert(all.skip(0) =~= all);
    while rest.len() > 0
        invariant
            rest@.len() <= all.len(),
            offset > 0 ==> all.len() + offset <= usize::MAX,
            rest@ == all.skip(all.len() - rest@.len()),
            r@.len() == all.len() - rest@.len(),
            forall|k: int|
                0 <= k < r@.len() ==> (#[trigger] r@[k])@ == given_completion(
                    all[k]@,
                    k,
                    offset as int,
                    *priorities,
                ),
        decreases rest@.len(),
    {
        let ghost n = all.len() - rest@.len();
        let c: AutocompleteCandidate = rest.remove(0);
        assert(c == all[n]);
        let place: usize = r.len();
        let title: String = c.command.clone();
        r.push(
            Proposal {
                command: c.command,
                title,
                detail: c.scope_label,
                source: c.source,
                pinned: false,
                match_kind: Some(priorities.prefix_match),
                tier: priorities.of(c.source),
                subtier: 0,
                ordinal: place + offset,
            },
        );
        assert(rest@ =~= all.skip(n + 1));
    }
    assert(seen(r@) =~= given_part(list, offset as int, *priorities));
    r
}

/// The commands of sources that were already matched that complete what was
/// typed; nothing where nothing was.
pub fn matched_autocomplete_candidates(
    input: &str,
    sources: &CommandSources,
    scope_key: &str,
    paths: Option<Vec<AutocompleteCandidate>>,
    context: Option<Vec<AutocompleteCandidate>>,
    arguments: Option<Vec<AutocompleteCandidate>>,
    priorities: &SourcePriorities,
) -> (r: Vec<AutocompleteCandidate>)
    requires
        sources.scoped@.len() + sources.recent@.len() + sources.snippets@.len()
            + sources.templates@.len() <= usize::MAX,
        given(context).len() + CONTEXT_OFFSET <= usize::MAX,
        given(arguments).len() + ARGUMENT_OFFSET <= usize::MAX,
    ensures
        seen_candidates(r@) == if text::blank(input@) {
            Seq::empty()
        } else {
            suggestions(
                choice(
                    completion_proposals(
                        *sources,
                        scope_key@,
                        paths,
                        context,
                        arguments,
                        *priorities,
                    ),
                    true,
                    AUTOCOMPLETE_LIMIT as int,
                ),
            )
        },
{
    if text::is_blank(input) {
        let none: Vec<AutocompleteCandidate> = Vec::new();
        assert(seen_candidates(none@) =~= Seq::empty());
        return none;
    }
    let after_scoped: usize = sources.scoped.len();
    let after_recent: usize = after_scoped + sources.recent.len();
    let after_snippets: usize = after_recent + sources.snippets.len();
    let mut proposals: Vec<Proposal> = propose_given(paths, 0, priorities);
    append_proposals(&mut proposals, propose_given(context, CONTEXT_OFFSET, priorities));
    append_proposals(&mut proposals, propose_given(arguments, ARGUMENT_OFFSET, priorities));
    append_proposals(
        &mut proposals,
        propose_scoped(&sources.scoped, scope_key, false, priorities.history),
    );
    append_proposals(
        &mut proposals,
        propose_recent(&sources.recent, false, after_scoped, priorities.history),
    );
    append_proposals(
        &mut proposals,
        propose_snippets(&sources.snippets, false, after_recent, priorities.snippet),
    );
    append_proposals(
        &mut proposals,
        propose_templates(&sources.templates, false, after_snippets, priorities),
    );
    assert(seen(proposals@) =~= completion_proposals(
        *sources,
        scope_key@,
        paths,
        context,
        arguments,
        *priorities,
    ));
    to_candidates(choose_proposals(proposals, true, AUTOCOMPLETE_LIMIT))
}

/// The commands that complete what was typed, given the paths, the commands from
/// recent output and the arguments that do. `matcher` says how well the input,
/// without case and outer blanks, matches a command in lower case.
pub fn completions_with_parts<F: Fn(&str, &Vec<String>) -> Option<u8>>(
    input: &str,
    sources: CommandSources,
    scope_key: &str,
    paths: Option<Vec<AutocompleteCandidate>>,
    context: Option<Vec<AutocompleteCandidate>>,
    arguments: Option<Vec<AutocompleteCandidate>>,
    priorities: &SourcePriorities,
    matcher: &F,
) -> (r: Vec<AutocompleteCandidate>)
    requires
        sources.scoped@.len() + sources.recent@.len() + sources.snippets@.len()
            + sources.templates@.len() <= usize::MAX,
        given(context).len() + CONTEXT_OFFSET <= usize::MAX,
        given(arguments).len() + ARGUMENT_OFFSET <= usize::MAX,
        forall|q: &str, list: &Vec<String>| #[trigger] matcher.requires((q, list)),
    ensures
        exists|judged: CommandSources|
            {
                &&& #[trigger] matching::sources_answered(
                    *matcher,
                    matching::normalized(input@),
                    sources,
                    false,
                    judged,
                )
                &&& seen_candidates(r@) == if text::blank(input@) {
                    Seq::empty()
                } else {
                    suggestions(
                        choice(
                            completion_proposals(
                                judged,
                                scope_key@,
                                paths,
                                context,
                                arguments,
                                *priorities,
                            ),
                            true,
                            AUTOCOMPLETE_LIMIT as int,
                        ),
                    )
                }
            },
        forall|rule: matching::Rule| #[trigger]
            matching::follows(*matcher, rule) ==> seen_candidates(r@) == completion_list(
                input@,
                sources,
                scope_key@,
                paths,
                context,
                arguments,
                *priorities,
                rule,
            ),
{
    let ghost plain = matching::normalized(input@);
    let ghost given_sources = sources;
    let judged: CommandSources = judge_sources(sources, input, false, matcher);
    let r: Vec<AutocompleteCandidate> = matched_autocomplete_candidates(
        input,
        &judged,
        scope_key,
        paths,
        context,
        arguments,
        priorities,
    );
    proof {
        assert forall|rule: matching::Rule| #[trigger]
            matching::follows(*matcher, rule) implies seen_candidates(r@) == completion_list(
            input@,
            given_sources,
            scope_key@,
            paths,
            context,
            arguments,
            *priorities,
            rule,
        ) by {
            let before = given_sources;
            matching::lemma_answers_follow(
                *matcher,
                plain,
                before.scoped@,
                false,
                judged.scoped@,
                rule,
            );
            matching::lemma_answers_follow(
                *matcher,
                plain,
                before.recent@,
                false,
                judged.recent@,
                rule,
            );
            matching::lemma_answers_follow(
                *matcher,
                plain,
                before.snippets@,
                false,
                judged.snippets@,
                rule,
            );
            matching::lemma_answers_follow(
                *matcher,
                plain,
                before.templates@,
                false,
                judged.templates@,
                rule,
            );
        }
    }
    r
}

/// A file or directory next to what was typed.
#[derive(Debug)]
pub struct PathEntry {
    pub name: String,
    pub path: String,
    pub is_dir: bool,
}

/// What is known of the directory that a pane is in.
#[derive(Debug)]
pub struct PathSuggestionContext {
    pub current_path: Option<String>,
    pub parent_path: Option<String>,
    pub startup_directory: Option<String>,
    pub entries: Vec<PathEntry>,
}

/// What was typed, split before the path at its end.
#[derive(Debug)]
pub struct PathQuery {
    pub prefix: String,
    pub fragment: String,
}

/// A path that may complete what was typed.
#[derive(Debug)]
pub struct PathProposal {
    pub path: String,
    pub scope: Text,
    pub match_kind: Option<u8>,
}

pub struct PathProposalView {
    pub path: Seq<char>,
    pub scope: TextView,
    pub match_kind: Option<u8>,
}

impl View for PathProposal {
    type V = PathProposalView;

    open spec fn view(&self) -> PathProposalView {
        PathProposalView {
            path: self.path@,
            scope: self.scope@,
            match_kind: self.match_kind,
        }
    }
}

pub open spec fn seen_paths(list: Seq<PathProposal>) -> Seq<PathProposalView> {
    list.map_values(|p: PathProposal| p@)
}

/// Directories end in a slash.
pub open spec fn as_directory(path: Seq<char>) -> Seq<char> {
    if path.len() > 0 && path.last() == '/' {
        path
    } else {
        path.push('/')
    }
}

pub open spec fn path_proposal(path: Seq<char>, is_dir: bool, scope: TextView) -> PathProposalView {
    PathProposalView {
        path: if is_dir {
            as_directory(path)
        } else {
            path
        },
        scope,
        match_kind: None,
    }
}

/// An entry is written the way the typed fragment begins: as a full path, behind
/// `./`, or by its name.
pub open spec fn entry_path(entry: PathEntry, fragment: Seq<char>) -> Seq<char> {
    if text::begins_with(fragment, "/"@) {
        entry.path@
    } else if text::begins_with(fragment, "./"@) {
        "./"@ + entry.name@
    } else {
        entry.name@
    }
}

pub open spec fn files_scope(context: PathSuggestionContext) -> TextView {
    TextView::Filled(
        MessageId::PaletteFilesScope,
        AtomView::Characters(
            match context.current_path {
                Some(path) => path@,
                None => "."@,
            },
        ),
    )
}

pub open spec fn known_directory(path: Option<String>, scope: MessageId) -> Seq<PathProposalView> {
    match path {
        Some(directory) => seq![path_proposal(directory@, true, TextView::Message(scope))],
        None => Seq::empty(),
    }
}

/// The entries of the directory, the startup directory, the directory itself
/// and its parent.
pub open spec fn context_paths(context: PathSuggestionContext, fragment: Seq<char>) -> Seq<
    PathProposalView,
> {
    Seq::new(
        context.entries@.len(),
        |i: int|
            path_proposal(
                entry_path(context.entries@[i], fragment),
                context.entries@[i].is_dir,
                files_scope(context),
            ),
    ) + known_directory(context.startup_directory, MessageId::PaletteStartupPath)
        + known_directory(context.current_path, MessageId::PaletteCurrentDirectory) + (
    if context.current_path is Some {
        known_directory(context.parent_path, MessageId::PaletteParentDirectory)
    } else {
        Seq::empty()
    })
}

/// Every path that may complete the fragment: those of the directory, and those
/// of earlier commands and snippets.
pub open spec fn all_paths(
    fragment: Seq<char>,
    context: Option<PathSuggestionContext>,
    recent: Seq<String>,
) -> Seq<PathProposalView> {
    (match context {
        Some(c) => context_paths(c, fragment),
        None => Seq::empty(),
    }) + Seq::new(
        recent.len(),
        |i: int|
            path_proposal(recent[i]@, false, TextView::Message(MessageId::PaletteRecentPath)),
    )
}

fn directory_path(path: &str) -> (r: String)
    ensures
        r@ == as_directory(path@),
{
    let v: Vec<char> = text::characters(path);
    if v.len() > 0 && v[v.len() - 1] == '/' {
        path.to_owned()
    } else {
        proof {
            reveal_strlit("/");
        }
        let r: String = text::joined(path, "/");
        assert(r@ =~= path@.push('/'));
        r
    }
}

fn propose_path(path: &str, is_dir: bool, scope: Text) -> (r: PathProposal)
    ensures
        r@ == path_proposal(path@, is_dir, scope@),
{
    let shown: String = if is_dir {
        directory_path(path)
    } else {
        path.to_owned()
    };
    PathProposal { path: shown, scope, match_kind: None }
}

fn push_path(list: &mut Vec<PathProposal>, item: PathProposal)
    ensures
        seen_paths(final(list)@) == seen_paths(old(list)@) + seq![item@],
{
    let ghost before = list@;
    list.push(item);
    assert(seen_paths(list@) =~= seen_paths(before) + seq![item@]);
}

fn push_directory(list: &mut Vec<PathProposal>, path: &Option<String>, scope: MessageId)
    ensures
        seen_paths(final(list)@) == seen_paths(old(list)@) + known_directory(*path, scope),
{
    match path {
        Some(directory) => {
            push_path(list, propose_path(directory.as_str(), true, Text::Message(scope)));
        },
        None => {
            assert(seen_paths(list@) =~= seen_paths(list@) + Seq::<PathProposalView>::empty());
        },
    }
}

fn entries_as_paths(context: &PathSuggestionContext, fragment: &str) -> (r: Vec<PathProposal>)
    ensures
        seen_paths(r@) == Seq::new(
            context.entries@.len(),
            |i: int|
                path_proposal(
                    entry_path(context.entries@[i], fragment@),
                    context.entries@[i].is_dir,
                    files_scope(*context),
                ),
        ),
{
    let full: bool = text::has_prefix(fragment, "/");
    let dotted: bool = text::has_prefix(fragment, "./");
    let mut r: Vec<PathProposal> = Vec::new();
    let mut i: usize = 0;
    while i < context.entries.len()
        invariant
            i <= context.entries@.len(),
            full == text::begins_with(fragment@, "/"@),
            dotted == text::begins_with(fragment@, "./"@),
            r@.len() == i,
            forall|k: int|
                0 <= k < i ==> (#[trigger] r@[k])@ == path_proposal(
                    entry_path(context.entries@[k], fragment@),
                    context.entries@[k].is_dir,
                    files_scope(*context),
                ),
        decreases context.entries@.len() - i,
    {
        let entry = &context.entries[i];
        let path: String = if full {
            entry.path.clone()
        } else if dotted {
            text::joined("./", entry.name.as_str())
        } else {
            entry.name.clone()
        };
        let current: Atom = match &context.current_path {
            Some(path) => Atom::Value(path.clone()),
            None => Atom::Literal("."),
        };
        r.push(
            propose_path(
                path.as_str(),
                entry.is_dir,
                Text::Filled(MessageId::PaletteFilesScope, current),
            ),
        );
        i += 1;
    }
    assert(seen_paths(r@) =~= Seq::new(
        context.entries@.len(),
        |i: int|
            path_proposal(
                entry_path(context.entries@[i], fragment@),
                context.entries@[i].is_dir,
                files_scope(*context),
            ),
    ));
    r
}

/// The paths that may complete a fragment, not yet matched against it.
pub fn path_proposals(
    query: &PathQuery,
    context: &Option<PathSuggestionContext>,
    recent: &Vec<String>,
) -> (r: Vec<PathProposal>)
    ensures
        seen_paths(r@) == all_paths(query.fragment@, *context, recent@),
{
    let mut r: Vec<PathProposal> = match context {
        Some(c) => {
            let mut list: Vec<PathProposal> = entries_as_paths(c, query.fragment.as_str());
            push_directory(&mut list, &c.startup_directory, MessageId::PaletteStartupPath);
            push_directory(&mut list, &c.current_path, MessageId::PaletteCurrentDirectory);
            if c.current_path.is_some() {
                push_directory(&mut list, &c.parent_path, MessageId::PaletteParentDirectory);
            }
            assert(seen_paths(list@) =~= context_paths(*c, query.fragment@));
            list
        },
        None => Vec::new(),
    };
    let ghost start = match context {
        Some(c) => context_paths(*c, query.fragment@),
        None => Seq::empty(),
    };
    assert(seen_paths(r@) =~= start);
    let ghost tail = Seq::new(
        recent@.len(),
        |i: int|
            path_proposal(recent@[i]@, false, TextView::Message(MessageId::PaletteRecentPath)),
    );
    let mut i: usize = 0;
    assert(start + tail.take(0) =~= start);
    while i < recent.len()
        invariant
            i <= recent@.len(),
            tail == Seq::new(
                recent@.len(),
                |i: int|
                    path_proposal(
                        recent@[i]@,
                        false,
                        TextView::Message(MessageId::PaletteRecentPath),
                    ),
            ),
            seen_paths(r@) == start + tail.take(i as int),
        decreases recent@.len() - i,
    {
        push_path(
            &mut r,
            propose_path(recent[i].as_str(), false, Text::Message(MessageId::PaletteRecentPath)),
        );
        assert(start + tail.take(i as int) + seq![tail[i as int]] =~= start + tail.take(i + 1));
        i += 1;
    }
    assert(tail.take(recent@.len() as int) =~= tail);
    r
}

pub open spec fn path_completion(p: PathProposalView, prefix: Seq<char>, i: int) -> ProposalView {
    ProposalView {
        command: prefix + p.path,
        title: prefix + p.path,
        detail: Some(p.scope),
        source: AutocompleteSource::Path,
        pinned: false,
        match_kind: p.match_kind,
        tier: 0,
        subtier: 0,
        ordinal: i,
    }
}

/// Suggestions, or nothing where there are none.
pub open spec fn some_suggestions(chosen: Seq<ProposalView>) -> Option<
    Seq<AutocompleteCandidateView>,
> {
    if chosen.len() == 0 {
        None
    } else {
        Some(suggestions(chosen))
    }
}

pub open spec fn seen_list(list: Option<Vec<AutocompleteCandidate>>) -> Option<
    Seq<AutocompleteCandidateView>,
> {
    match list {
        Some(candidates) => Some(seen_candidates(candidates@)),
        None => None,
    }
}

fn suggest_some(proposals: Vec<Proposal>, distinct: bool) -> (r: Option<Vec<AutocompleteCandidate>>)
    ensures
        seen_list(r) == some_suggestions(
            choice(seen(proposals@), distinct, AUTOCOMPLETE_LIMIT as int),
        ),
{
    let chosen: Vec<Proposal> = choose_proposals(proposals, distinct, AUTOCOMPLETE_LIMIT);
    if chosen.len() == 0 {
        None
    } else {
        Some(to_candidates(chosen))
    }
}

/// The commands that end in one of the matching paths; nothing where what was
/// typed does not end in a path.
pub fn candidates_of_paths(
    query: Option<PathQuery>,
    paths: Vec<PathProposal>,
) -> (r: Option<Vec<AutocompleteCandidate>>)
    ensures
        seen_list(r) == match query {
            None => None,
            Some(q) => some_suggestions(
                choice(
                    Seq::new(
                        paths@.len(),
                        |i: int| path_completion(paths@[i]@, q.prefix@, i),
                    ),
                    true,
                    AUTOCOMPLETE_LIMIT as int,
                ),
            ),
        },
{
    let query: PathQuery = match query {
        Some(query) => query,
        None => {
            return None;
        },
    };
    let mut list: Vec<Proposal> = Vec::new();
    let mut i: usize = 0;
    while i < paths.len()
        invariant
            i <= paths@.len(),
            list@.len() == i,
            forall|k: int|
                0 <= k < i ==> (#[trigger] list@[k])@ == path_completion(
                    paths@[k]@,
                    query.prefix@,
                    k,
                ),
        decreases paths@.len() - i,
    {
        let command: String = text::joined(query.prefix.as_str(), paths[i].path.as_str());
        let title: String = command.clone();
        list.push(
            Proposal {
                command,
                title,
                detail: Some(paths[i].scope.duplicate()),
                source: AutocompleteSource::Path,
                pinned: false,
                match_kind: paths[i].match_kind,
                tier: 0,
                subtier: 0,
                ordinal: i,
            },
        );
        i += 1;
    }
    assert(seen(list@) =~= Seq::new(
        paths@.len(),
        |i: int| path_completion(paths@[i]@, query.prefix@, i),
    ));
    suggest_some(list, true)
}

/// A template belongs to the family of a word that it consists of or begins with.
pub open spec fn in_family(template: CommandTemplate, word: Seq<char>) -> bool {
    &&& template.source == AutocompleteSource::Argument
    &&& template.command@ == word || text::begins_with(template.command@, word + " "@)
}

/// Arguments are suggested for one line whose first word has templates.
pub open spec fn arguments_apply(input: Seq<char>, templates: Seq<CommandTemplate>) -> bool {
    let query = text::trimmed(input);
    &&& query.len() > 0
    &&& !query.contains('\n')
    &&& exists|i: int|
        0 <= i < templates.len() && in_family(#[trigger] templates[i], text::leading_word(query))
}

pub open spec fn offers_argument(query: Seq<char>) -> spec_fn(CommandTemplate) -> bool {
    |t: CommandTemplate|
        {
            &&& t.source == AutocompleteSource::Argument
            &&& text::begins_with(
                text::lowered(t.command@),
                text::lowered(text::leading_word(query)),
            )
            &&& text::lowered(t.command@) != text::lowered(query)
        }
}

pub open spec fn argument_completion(t: CommandTemplate) -> ProposalView {
    ProposalView {
        command: t.command@,
        title: t.command@,
        detail: Some(TextView::Characters(t.detail@)),
        source: AutocompleteSource::Argument,
        pinned: false,
        match_kind: t.match_kind,
        tier: 0,
        subtier: 0,
        ordinal: 0,
    }
}

fn has_family(templates: &Vec<CommandTemplate>, word: &str) -> (r: bool)
    ensures
        r == exists|i: int| 0 <= i < templates@.len() && in_family(#[trigger] templates@[i], word@),
{
    let spaced: String = text::joined(word, " ");
    let mut i: usize = 0;
    while i < templates.len()
        invariant
            i <= templates@.len(),
            spaced@ == word@ + " "@,
            forall|k: int| 0 <= k < i ==> !in_family(#[trigger] templates@[k], word@),
        decreases templates@.len() - i,
    {
        let command = templates[i].command.as_str();
        if templates[i].source == AutocompleteSource::Argument && (text::same_text(command, word)
            || text::has_prefix(command, spaced.as_str())) {
            assert(in_family(templates@[i as int], word@));
            return true;
        }
        i += 1;
    }
    false
}

/// The known ways to go on with the command that was begun.
pub fn candidates_of_arguments(
    input: &str,
    templates: &Vec<CommandTemplate>,
) -> (r: Option<Vec<AutocompleteCandidate>>)
    ensures
        seen_list(r) == if arguments_apply(input@, templates@) {
            some_suggestions(
                choice(
                    lists::kept(templates@, offers_argument(text::trimmed(input@))).map_values(
                        |t: CommandTemplate| argument_completion(t),
                    ),
                    true,
                    AUTOCOMPLETE_LIMIT as int,
                ),
            )
        } else {
            None
        },
{
    let query: String = text::trim(input);
    if query.as_str().is_empty() || text::has_char(query.as_str(), '\n') {
        return None;
    }
    let first: String = text::first_word(query.as_str());
    if !has_family(templates, first.as_str()) {
        return None;
    }
    let query_lower: String = text::to_ascii_lowercase(query.as_str());
    let first_lower: String = text::to_ascii_lowercase(first.as_str());
    let ghost all = templates@;
    let ghost wanted = offers_argument(query@);
    let mut list: Vec<Proposal> = Vec::new();
    let mut i: usize = 0;
    assert(all.take(0) =~= Seq::empty());
    while i < templates.len()
        invariant
            i <= templates@.len(),
            all == templates@,
            wanted == offers_argument(query@),
            query_lower@ == text::lowered(query@),
            first_lower@ == text::lowered(text::leading_word(query@)),
            ({
                let done = lists::kept(all.take(i as int), wanted);
                &&& list@.len() == done.len()
                &&& forall|k: int|
                    0 <= k < done.len() ==> (#[trigger] list@[k])@ == argument_completion(done[k])
            }),
        decreases templates@.len() - i,
    {
        let template = &templates[i];
        let lower: String = text::to_ascii_lowercase(template.command.as_str());
        proof {
            lists::lemma_kept_step(all, wanted, i as int);
        }
        if template.source == AutocompleteSource::Argument && text::has_prefix(
            lower.as_str(),
            first_lower.as_str(),
        ) && !text::same_text(lower.as_str(), query_lower.as_str()) {
            list.push(
                Proposal {
                    command: template.command.clone(),
                    title: template.command.clone(),
                    detail: Some(Text::Value(template.detail.clone())),
                    source: AutocompleteSource::Argument,
                    pinned: false,
                    match_kind: template.match_kind,
                    tier: 0,
                    subtier: 0,
                    ordinal: 0,
                },
            );
        }
        i += 1;
    }
    assert(all.take(all.len() as int) =~= all);
    assert(seen(list@) =~= lists::kept(templates@, offers_argument(text::trimmed(input@))).map_values(
        |t: CommandTemplate| argument_completion(t),
    ));
    suggest_some(list, true)
}

/// What recent output is looked through for.
#[derive(Clone, Copy, Debug, PartialEq, Eq, Structural)]
pub enum ContextTarget {
    GitBranch,
    DockerTarget,
    KubernetesPod,
    SystemdUnit,
}

pub open spec fn label_of_target(target: ContextTarget) -> MessageId {
    match target {
        ContextTarget::GitBranch => MessageId::PaletteGitBranch,
        ContextTarget::DockerTarget => MessageId::PaletteDockerTarget,
        ContextTarget::KubernetesPod => MessageId::PaletteKubernetesPod,
        ContextTarget::SystemdUnit => MessageId::PaletteSystemdUnit,
    }
}

impl ContextTarget {
    /// What a target is called where it is explained.
    pub fn label(self) -> (r: MessageId)
        ensures
            r == label_of_target(self),
    {
        match self {
            ContextTarget::GitBranch => MessageId::PaletteGitBranch,
            ContextTarget::DockerTarget => MessageId::PaletteDockerTarget,
            ContextTarget::KubernetesPod => MessageId::PaletteKubernetesPod,
            ContextTarget::SystemdUnit => MessageId::PaletteSystemdUnit,
        }
    }
}

/// A command to be completed from recent output.
#[derive(Clone, Copy, Debug, PartialEq, Eq)]
pub struct ContextFamily {
    pub prefix: &'static str,
    pub target: ContextTarget,
}

/// Which commands that take a target were typed or begun.
#[derive(Clone, Copy, Debug, PartialEq, Eq, Structural)]
pub struct CommandMatches {
    pub git_checkout: bool,
    pub git_switch: bool,
    pub git_diff: bool,
    pub git_log: bool,
    pub docker_logs: bool,
    pub docker_inspect: bool,
    pub docker_stop: bool,
    pub docker_restart: bool,
    pub docker_rm: bool,
    pub docker_exec: bool,
    pub kubectl_logs: bool,
    pub kubectl_describe_pod: bool,
    pub kubectl_exec: bool,
    pub systemctl_status: bool,
    pub systemctl_restart: bool,
    pub systemctl_reload: bool,
    pub journalctl: bool,
    pub journalctl_follow: bool,
}

#[derive(Debug)]
pub struct OutputSuggestionContext {
    pub current_path: Option<String>,
    pub recent_lines: Vec<String>,
}

/// What is looked up in recent output: one line, without line ends and outer
/// white space, in lower case; nothing where there is no output.
pub open spec fn context_query_of(input: Seq<char>, context: Option<OutputSuggestionContext>) -> Option<
    Seq<char>,
> {
    let raw = text::without_line_ends(input);
    let query = text::trimmed(raw);
    match context {
        None => None,
        Some(c) => if query.len() == 0 || raw.contains('\n') || c.recent_lines@.len() == 0 {
            None
        } else {
            Some(text::lowered(query))
        },
    }
}

pub fn context_query(input: &str, context: &Option<OutputSuggestionContext>) -> (r: Option<String>)
    ensures
        match r {
            Some(query) => context_query_of(input@, *context) == Some(query@),
            None => context_query_of(input@, *context) is None,
        },
{
    let context = match context {
        Some(context) => context,
        None => {
            return None;
        },
    };
    let raw: String = text::trim_line_ends(input);
    let query: String = text::trim(raw.as_str());
    if query.as_str().is_empty() || text::has_char(raw.as_str(), '\n')
        || context.recent_lines.len() == 0 {
        return None;
    }
    Some(text::to_ascii_lowercase(query.as_str()))
}

pub open spec fn git_family(matches: CommandMatches) -> Option<&'static str> {
    if matches.git_switch {
        Some("git switch ")
    } else if matches.git_checkout {
        Some("git checkout ")
    } else if matches.git_log {
        Some("git log ")
    } else if matches.git_diff {
        Some("git diff ")
    } else {
        None
    }
}

pub open spec fn docker_family(matches: CommandMatches) -> Option<&'static str> {
    if matches.docker_exec {
        Some("docker exec -it ")
    } else if matches.docker_inspect {
        Some("docker inspect ")
    } else if matches.docker_stop {
        Some("docker stop ")
    } else if matches.docker_restart {
        Some("docker restart ")
    } else if matches.docker_rm {
        Some("docker rm ")
    } else if matches.docker_logs {
        Some("docker logs ")
    } else {
        None
    }
}

pub open spec fn kubernetes_family(matches: CommandMatches) -> Option<&'static str> {
    if matches.kubectl_describe_pod {
        Some("kubectl describe pod ")
    } else if matches.kubectl_exec {
        Some("kubectl exec -it ")
    } else if matches.kubectl_logs {
        Some("kubectl logs ")
    } else {
        None
    }
}

pub open spec fn systemd_family(matches: CommandMatches) -> Option<&'static str> {
    if matches.systemctl_restart {
        Some("systemctl restart ")
    } else if matches.systemctl_reload {
        Some("systemctl reload ")
    } else if matches.journalctl_follow {
        Some("journalctl -f -u ")
    } else if matches.journalctl {
        Some("journalctl -u ")
    } else if matches.systemctl_status {
        Some("systemctl status ")
    } else {
        None
    }
}

/// The command to complete: git before docker before kubernetes before systemd,
/// and the more particular command first within each.
pub open spec fn family_of(matches: CommandMatches) -> Option<ContextFamily> {
    if git_family(matches) is Some {
        Some(
            ContextFamily {
                prefix: git_family(matches)->0,
                target: ContextTarget::GitBranch,
            },
        )
    } else if docker_family(matches) is Some {
        Some(
            ContextFamily {
                prefix: docker_family(matches)->0,
                target: ContextTarget::DockerTarget,
            },
        )
    } else if kubernetes_family(matches) is Some {
        Some(
            ContextFamily {
                prefix: kubernetes_family(matches)->0,
                target: ContextTarget::KubernetesPod,
            },
        )
    } else if systemd_family(matches) is Some {
        Some(
            ContextFamily {
                prefix: systemd_family(matches)->0,
                target: ContextTarget::SystemdUnit,
            },
        )
    } else {
        None
    }
}

pub fn context_family(matches: CommandMatches) -> (r: Option<ContextFamily>)
    ensures
        r == family_of(matches),
{
    if matches.git_checkout || matches.git_switch {
        return Some(
            ContextFamily {
                prefix: if matches.git_switch {
                    "git switch "
                } else {
                    "git checkout "
                },
                target: ContextTarget::GitBranch,
            },
        );
    }
    if matches.git_diff || matches.git_log {
        return Some(
            ContextFamily {
                prefix: if matches.git_log {
                    "git log "
                } else {
                    "git diff "
                },
                target: ContextTarget::GitBranch,
            },
        );
    }
    if matches.docker_logs || matches.docker_inspect || matches.docker_stop
        || matches.docker_restart || matches.docker_rm || matches.docker_exec {
        return Some(
            ContextFamily {
                prefix: if matches.docker_exec {
                    "docker exec -it "
                } else if matches.docker_inspect {
                    "docker inspect "
                } else if matches.docker_stop {
                    "docker stop "
                } else if matches.docker_restart {
                    "docker restart "
                } else if matches.docker_rm {
                    "docker rm "
                } else {
                    "docker logs "
                },
                target: ContextTarget::DockerTarget,
            },
        );
    }
    if matches.kubectl_logs || matches.kubectl_describe_pod || matches.kubectl_exec {
        return Some(
            ContextFamily {
                prefix: if matches.kubectl_describe_pod {
                    "kubectl describe pod "
                } else if matches.kubectl_exec {
                    "kubectl exec -it "
                } else {
                    "kubectl logs "
                },
                target: ContextTarget::KubernetesPod,
            },
        );
    }
    if matches.systemctl_status || matches.systemctl_restart || matches.systemctl_reload
        || matches.journalctl || matches.journalctl_follow {
        return Some(
            ContextFamily {
                prefix: if matches.systemctl_restart {
                    "systemctl restart "
                } else if matches.systemctl_reload {
                    "systemctl reload "
                } else if matches.journalctl_follow {
                    "journalctl -f -u "
                } else if matches.journalctl {
                    "journalctl -u "
                } else {
                    "systemctl status "
                },
                target: ContextTarget::SystemdUnit,
            },
        );
    }
    None
}

/// Every command that is completed was begun: the prefix is the text of a command
/// that was typed or begun, followed by one blank, with targets of its kind. Where
/// one command alone was begun it is that one, and where some command was begun
/// there is one to complete.
pub proof fn law_completed_commands_were_begun(matches: CommandMatches)
    ensures
        family_of(matches) is Some <==> {
            ||| matches.git_checkout
            ||| matches.git_switch
            ||| matches.git_diff
            ||| matches.git_log
            ||| matches.docker_logs
            ||| matches.docker_inspect
            ||| matches.docker_stop
            ||| matches.docker_restart
            ||| matches.docker_rm
            ||| matches.docker_exec
            ||| matches.kubectl_logs
            ||| matches.kubectl_describe_pod
            ||| matches.kubectl_exec
            ||| matches.systemctl_status
            ||| matches.systemctl_restart
            ||| matches.systemctl_reload
            ||| matches.journalctl
            ||| matches.journalctl_follow
        },
        family_of(matches) matches Some(family) ==> {
            let prefix = family.prefix@;
            ||| prefix == "git checkout"@ + " "@ && family.target is GitBranch && matches.git_checkout
            ||| prefix == "git switch"@ + " "@ && family.target is GitBranch && matches.git_switch
            ||| prefix == "git diff"@ + " "@ && family.target is GitBranch && matches.git_diff
            ||| prefix == "git log"@ + " "@ && family.target is GitBranch && matches.git_log
            ||| prefix == "docker logs"@ + " "@ && family.target is DockerTarget && matches.docker_logs
            ||| prefix == "docker inspect"@ + " "@ && family.target is DockerTarget && matches.docker_inspect
            ||| prefix == "docker stop"@ + " "@ && family.target is DockerTarget && matches.docker_stop
            ||| prefix == "docker restart"@ + " "@ && family.target is DockerTarget && matches.docker_restart
            ||| prefix == "docker rm"@ + " "@ && family.target is DockerTarget && matches.docker_rm
            ||| prefix == "docker exec -it"@ + " "@ && family.target is DockerTarget && matches.docker_exec
            ||| prefix == "kubectl logs"@ + " "@ && family.target is KubernetesPod && matches.kubectl_logs
            ||| prefix == "kubectl describe pod"@ + " "@ && family.target is KubernetesPod && matches.kubectl_describe_pod
            ||| prefix == "kubectl exec -it"@ + " "@ && family.target is KubernetesPod && matches.kubectl_exec
            ||| prefix == "systemctl status"@ + " "@ && family.target is SystemdUnit && matches.systemctl_status
            ||| prefix == "systemctl restart"@ + " "@ && family.target is SystemdUnit && matches.systemctl_restart
            ||| prefix == "systemctl reload"@ + " "@ && family.target is SystemdUnit && matches.systemctl_reload
            ||| prefix == "journalctl -u"@ + " "@ && family.target is SystemdUnit && matches.journalctl
            ||| prefix == "journalctl -f -u"@ + " "@ && family.target is SystemdUnit && matches.journalctl_follow
        },
{
    reveal_strlit("git checkout");
    reveal_strlit("git checkout ");
    reveal_strlit("git switch");
    reveal_strlit("git switch ");
    reveal_strlit("git diff");
    reveal_strlit("git diff ");
    reveal_strlit("git log");
    reveal_strlit("git log ");
    reveal_strlit("docker logs");
    reveal_strlit("docker logs ");
    reveal_strlit("docker inspect");
    reveal_strlit("docker inspect ");
    reveal_strlit("docker stop");
    reveal_strlit("docker stop ");
    reveal_strlit("docker restart");
    reveal_strlit("docker restart ");
    reveal_strlit("docker rm");
    reveal_strlit("docker rm ");
    reveal_strlit("docker exec -it");
    reveal_strlit("docker exec -it ");
    reveal_strlit("kubectl logs");
    reveal_strlit("kubectl logs ");
    reveal_strlit("kubectl describe pod");
    reveal_strlit("kubectl describe pod ");
    reveal_strlit("kubectl exec -it");
    reveal_strlit("kubectl exec -it ");
    reveal_strlit("systemctl status");
    reveal_strlit("systemctl status ");
    reveal_strlit("systemctl restart");
    reveal_strlit("systemctl restart ");
    reveal_strlit("systemctl reload");
    reveal_strlit("systemctl reload ");
    reveal_strlit("journalctl -u");
    reveal_strlit("journalctl -u ");
    reveal_strlit("journalctl -f -u");
    reveal_strlit("journalctl -f -u ");
    reveal_strlit(" ");
    assert("git checkout "@ =~= "git checkout"@ + " "@);
    assert("git switch "@ =~= "git switch"@ + " "@);
    assert("git diff "@ =~= "git diff"@ + " "@);
    assert("git log "@ =~= "git log"@ + " "@);
    assert("docker logs "@ =~= "docker logs"@ + " "@);
    assert("docker inspect "@ =~= "docker inspect"@ + " "@);
    assert("docker stop "@ =~= "docker stop"@ + " "@);
    assert("docker restart "@ =~= "docker restart"@ + " "@);
    assert("docker rm "@ =~= "docker rm"@ + " "@);
    assert("docker exec -it "@ =~= "docker exec -it"@ + " "@);
    assert("kubectl logs "@ =~= "kubectl logs"@ + " "@);
    assert("kubectl describe pod "@ =~= "kubectl describe pod"@ + " "@);
    assert("kubectl exec -it "@ =~= "kubectl exec -it"@ + " "@);
    assert("systemctl status "@ =~= "systemctl status"@ + " "@);
    assert("systemctl restart "@ =~= "systemctl restart"@ + " "@);
    assert("systemctl reload "@ =~= "systemctl reload"@ + " "@);
    assert("journalctl -u "@ =~= "journalctl -u"@ + " "@);
    assert("journalctl -f -u "@ =~= "journalctl -f -u"@ + " "@);
}

/// Where several commands were begun, git comes before docker before kubernetes
/// before systemd, and within each the more particular command comes first.
pub proof fn law_particular_commands_come_first(matches: CommandMatches)
    requires
        family_of(matches) is Some,
    ensures
        ({
            let prefix = family_of(matches)->0.prefix@;
            let git = matches.git_switch || matches.git_checkout || matches.git_log || matches.git_diff;
            let docker = matches.docker_exec || matches.docker_inspect || matches.docker_stop || matches.docker_restart || matches.docker_rm || matches.docker_logs;
            let kubectl = matches.kubectl_describe_pod || matches.kubectl_exec || matches.kubectl_logs;
            &&& matches.git_switch ==> prefix == "git switch "@
            &&& matches.git_checkout && !matches.git_switch ==> prefix == "git checkout "@
            &&& matches.git_log && !matches.git_switch && !matches.git_checkout ==> prefix == "git log "@
            &&& matches.git_diff && !matches.git_switch && !matches.git_checkout && !matches.git_log ==> prefix == "git diff "@
            &&& !git && matches.docker_exec ==> prefix == "docker exec -it "@
            &&& !git && matches.docker_inspect && !matches.docker_exec ==> prefix == "docker inspect "@
            &&& !git && matches.docker_stop && !matches.docker_exec && !matches.docker_inspect ==> prefix == "docker stop "@
            &&& !git && matches.docker_restart && !matches.docker_exec && !matches.docker_inspect && !matches.docker_stop ==> prefix == "docker restart "@
            &&& !git && matches.docker_rm && !matches.docker_exec && !matches.docker_inspect && !matches.docker_stop && !matches.docker_restart ==> prefix == "docker rm "@
            &&& !git && matches.docker_logs && !matches.docker_exec && !matches.docker_inspect && !matches.docker_stop && !matches.docker_restart && !matches.docker_rm ==> prefix == "docker logs "@
            &&& !git && !docker && matches.kubectl_describe_pod ==> prefix == "kubectl describe pod "@
            &&& !git && !docker && matches.kubectl_exec && !matches.kubectl_describe_pod ==> prefix == "kubectl exec -it "@
            &&& !git && !docker && matches.kubectl_logs && !matches.kubectl_describe_pod && !matches.kubectl_exec ==> prefix == "kubectl logs "@
            &&& !git && !docker && !kubectl && matches.systemctl_restart ==> prefix == "systemctl restart "@
            &&& !git && !docker && !kubectl && matches.systemctl_reload && !matches.systemctl_restart ==> prefix == "systemctl reload "@
            &&& !git && !docker && !kubectl && matches.journalctl_follow && !matches.systemctl_restart && !matches.systemctl_reload ==> prefix == "journalctl -f -u "@
            &&& !git && !docker && !kubectl && matches.journalctl && !matches.systemctl_restart && !matches.systemctl_reload && !matches.journalctl_follow ==> prefix == "journalctl -u "@
            &&& !git && !docker && !kubectl && matches.systemctl_status && !matches.systemctl_restart && !matches.systemctl_reload && !matches.journalctl_follow && !matches.journalctl ==> prefix == "systemctl status "@
        }),
{
}

/// A name found in recent output, with how near it is to the current directory.
#[derive(Debug)]
pub struct FoundTarget {
    pub name: String,
    pub rank: u8,
}

pub struct ContextTemplateView {
    pub command: Seq<char>,
    pub detail: Seq<char>,
    pub rank: u8,
    pub ordinal: int,
    pub match_kind: Option<u8>,
}

impl View for ContextCommandTemplate {
    type V = ContextTemplateView;

    open spec fn view(&self) -> ContextTemplateView {
        ContextTemplateView {
            command: self.command@,
            detail: self.detail@,
            rank: self.rank,
            ordinal: self.ordinal as int,
            match_kind: self.match_kind,
        }
    }
}

pub open spec fn seen_templates(list: Seq<ContextCommandTemplate>) -> Seq<ContextTemplateView> {
    list.map_values(|t: ContextCommandTemplate| t@)
}

/// A found target behind the command that takes it. All targets match alike, so
/// their rank and their place order them.
pub open spec fn target_proposal(prefix: Seq<char>, target: FoundTarget, i: int) -> ProposalView {
    ProposalView {
        command: prefix + target.name@,
        title: prefix + target.name@,
        detail: None,
        source: AutocompleteSource::Context,
        pinned: false,
        match_kind: Some(0),
        tier: target.rank,
        subtier: 0,
        ordinal: i,
    }
}

pub open spec fn template_of(p: ProposalView, detail: Seq<char>) -> ContextTemplateView {
    ContextTemplateView {
        command: p.command,
        detail,
        rank: p.tier,
        ordinal: p.ordinal,
        match_kind: None,
    }
}

/// The commands that recent output suggests: each once, nearest targets first.
pub open spec fn context_commands(
    prefix: Seq<char>,
    targets: Seq<FoundTarget>,
    detail: Seq<char>,
) -> Seq<ContextTemplateView> {
    choice(
        Seq::new(targets.len(), |i: int| target_proposal(prefix, targets[i], i)),
        true,
        targets.len() as int,
    ).map_values(|p: ProposalView| template_of(p, detail))
}

proof fn lemma_chosen_member(proposals: Seq<ProposalView>, limit: int, i: int)
    requires
        limit >= 0,
        0 <= i < choice(proposals, true, limit).len(),
    ensures
        proposals.contains(choice(proposals, true, limit)[i]),
{
    broadcast use vstd::seq_lib::group_to_multiset_ensures;

    lemma_better_is_weak_order();
    let fitting = lists::kept(proposals, is_matched());
    let u = lists::unique(fitting, command_key());
    let sorted = lists::stable_sort(u, is_better());
    lists::law_stable_sort(u, is_better());
    let x = choice(proposals, true, limit)[i];
    assert(sorted[i] == x);
    assert(sorted.to_multiset().count(x) > 0) by {
        assert(sorted.contains(x));
    }
    assert(u.contains(x));
    lists::lemma_unique_members(fitting, command_key(), x);
    lists::lemma_kept_members(proposals, is_matched(), x);
}

pub proof fn lemma_context_commands(
    prefix: Seq<char>,
    targets: Seq<FoundTarget>,
    detail: Seq<char>,
)
    requires
        targets.len() > 0,
    ensures
        ({
            let list = context_commands(prefix, targets, detail);
            &&& list.len() > 0
            &&& forall|i: int, j: int|
                0 <= i < j < list.len() ==> text::lowered((#[trigger] list[i]).command)
                    != text::lowered((#[trigger] list[j]).command)
            &&& forall|i: int|
                0 <= i < list.len() ==> text::begins_with((#[trigger] list[i]).command, prefix)
            &&& forall|i: int, j: int|
                0 <= i < j < list.len() ==> (#[trigger] list[i]).rank <= (#[trigger] list[j]).rank
            &&& forall|i: int, j: int|
                0 <= i < j < list.len() && (#[trigger] list[i]).rank == (#[trigger] list[j]).rank
                    ==> list[i].ordinal <= list[j].ordinal
        }),
{
    let proposals = Seq::new(targets.len(), |i: int| target_proposal(prefix, targets[i], i));
    let limit = targets.len() as int;
    let chosen = choice(proposals, true, limit);
    let list = context_commands(prefix, targets, detail);
    law_suggestions_are_ranked_and_distinct(proposals, limit);
    let fitting = lists::kept(proposals, is_matched());
    lists::lemma_kept_members(proposals, is_matched(), proposals[0]);
    assert(proposals.contains(proposals[0]));
    let k = choose|k: int| 0 <= k < fitting.len() && fitting[k] == proposals[0];
    lists::law_unique(fitting, command_key());
    assert(lists::has_key(
        lists::unique(fitting, command_key()),
        command_key(),
        command_key()(fitting[k]),
    ));
    lemma_better_is_weak_order();
    lists::law_stable_sort(lists::unique(fitting, command_key()), is_better());
    assert forall|i: int| 0 <= i < chosen.len() implies (#[trigger] chosen[i]).match_kind == Some(
        0u8,
    ) && chosen[i].subtier == 0 && text::begins_with(chosen[i].command, prefix) by {
        lemma_chosen_member(proposals, limit, i);
        let m = choose|m: int| 0 <= m < proposals.len() && proposals[m] == chosen[i];
        assert(chosen[i] == target_proposal(prefix, targets[m], m));
        assert((prefix + targets[m].name@).take(prefix.len() as int) =~= prefix);
    }
    assert forall|i: int, j: int| 0 <= i < j < list.len() implies text::lowered(
        (#[trigger] list[i]).command,
    ) != text::lowered((#[trigger] list[j]).command) by {
        assert(text::lowered(chosen[i].command) != text::lowered(chosen[j].command));
    }
    assert forall|i: int| 0 <= i < list.len() implies text::begins_with(
        (#[trigger] list[i]).command,
        prefix,
    ) by {
        assert(text::begins_with(chosen[i].command, prefix));
    }
    assert forall|i: int, j: int| 0 <= i < j < list.len() implies (#[trigger] list[i]).rank <= (
    #[trigger] list[j]).rank && (list[i].rank == list[j].rank ==> list[i].ordinal
        <= list[j].ordinal) by {
        assert(!is_better()(chosen[j], chosen[i]));
        assert(chosen[i].match_kind == chosen[j].match_kind);
    }
}

/// Turns the targets found in recent output into commands, not yet matched
/// against what was typed; nothing where there is no command to complete or
/// nothing was found.
pub fn templates_of_targets(
    family: Option<ContextFamily>,
    targets: &Vec<FoundTarget>,
    detail: &str,
) -> (r: Option<Vec<ContextCommandTemplate>>)
    ensures
        match family {
            Some(f) => if targets@.len() == 0 {
                r is None
            } else {
                r is Some && seen_templates((r->0)@) == context_commands(
                    f.prefix@,
                    targets@,
                    detail@,
                )
            },
            None => r is None,
        },
{
    let family: ContextFamily = match family {
        Some(family) => family,
        None => {
            return None;
        },
    };
    if targets.len() == 0 {
        return None;
    }
    let mut list: Vec<Proposal> = Vec::new();
    let mut i: usize = 0;
    while i < targets.len()
        invariant
            i <= targets@.len(),
            list@.len() == i,
            forall|k: int|
                0 <= k < i ==> (#[trigger] list@[k])@ == target_proposal(
                    family.prefix@,
                    targets@[k],
                    k,
                ),
        decreases targets@.len() - i,
    {
        let command: String = text::joined(family.prefix, targets[i].name.as_str());
        let title: String = command.clone();
        list.push(
            Proposal {
                command,
                title,
                detail: None,
                source: AutocompleteSource::Context,
                pinned: false,
                match_kind: Some(0),
                tier: targets[i].rank,
                subtier: 0,
                ordinal: i,
            },
        );
        i += 1;
    }
    assert(seen(list@) =~= Seq::new(
        targets@.len(),
        |i: int| target_proposal(family.prefix@, targets@[i], i),
    ));
    let chosen: Vec<Proposal> = choose_proposals(list, true, targets.len());
    let mut r: Vec<ContextCommandTemplate> = Vec::new();
    let mut j: usize = 0;
    while j < chosen.len()
        invariant
            j <= chosen@.len(),
            r@.len() == j,
            forall|k: int|
                0 <= k < j ==> (#[trigger] r@[k])@ == template_of(chosen@[k]@, detail@),
        decreases chosen@.len() - j,
    {
        r.push(
            ContextCommandTemplate {
                command: chosen[j].command.clone(),
                detail: detail.to_owned(),
                rank: chosen[j].tier,
                ordinal: chosen[j].ordinal,
                match_kind: None,
            },
        );
        j += 1;
    }
    assert(seen_templates(r@) =~= context_commands(family.prefix@, targets@, detail@));
    Some(r)
}

pub open spec fn context_completion(template: ContextCommandTemplate) -> ProposalView {
    ProposalView {
        command: template.command@,
        title: template.command@,
        detail: Some(TextView::Characters(template.detail@)),
        source: AutocompleteSource::Context,
        pinned: false,
        match_kind: template.match_kind,
        tier: template.rank,
        subtier: 0,
        ordinal: template.ordinal as int,
    }
}

/// The commands from recent output that complete what was typed.
pub fn candidates_of_templates(
    templates: &Option<Vec<ContextCommandTemplate>>,
) -> (r: Option<Vec<AutocompleteCandidate>>)
    ensures
        seen_list(r) == match *templates {
            None => None,
            Some(list) => some_suggestions(
                choice(
                    Seq::new(list@.len(), |i: int| context_completion(list@[i])),
                    false,
                    AUTOCOMPLETE_LIMIT as int,
                ),
            ),
        },
{
    let templates = match templates {
        Some(templates) => templates,
        None => {
            return None;
        },
    };
    let mut list: Vec<Proposal> = Vec::new();
    let mut i: usize = 0;
    while i < templates.len()
        invariant
            i <= templates@.len(),
            list@.len() == i,
            forall|k: int|
                0 <= k < i ==> (#[trigger] list@[k])@ == context_completion(templates@[k]),
        decreases templates@.len() - i,
    {
        list.push(
            Proposal {
                command: templates[i].command.clone(),
                title: templates[i].command.clone(),
                detail: Some(Text::Value(templates[i].detail.clone())),
                source: AutocompleteSource::Context,
                pinned: false,
                match_kind: templates[i].match_kind,
                tier: templates[i].rank,
                subtier: 0,
                ordinal: templates[i].ordinal,
            },
        );
        i += 1;
    }
    assert(seen(list@) =~= Seq::new(
        templates@.len(),
        |i: int| context_completion(templates@[i]),
    ));
    suggest_some(list, false)
}

pub open spec fn is_not_empty() -> spec_fn(Seq<char>) -> bool {
    |line: Seq<char>| line.len() > 0
}

/// The lines of a pane without outer white space, empty ones left out.
pub open spec fn output_lines(rows: Seq<String>) -> Seq<Seq<char>> {
    lists::kept(rows.map_values(|row: String| text::trimmed(row@)), is_not_empty())
}

/// The last elements of a list, no more than the limit.
pub open spec fn last_of<A>(s: Seq<A>, limit: int) -> Seq<A> {
    if s.len() > limit {
        s.skip(s.len() - limit)
    } else {
        s
    }
}

/// The last lines of a pane's output.
pub fn pane_recent_output_lines(rows: &Vec<String>, limit: usize) -> (r: Vec<String>)
    ensures
        text::have_contents(r@, last_of(output_lines(rows@), limit as int)),
{
    let ghost all = rows@.map_values(|row: String| text::trimmed(row@));
    let mut lines: Vec<String> = Vec::new();
    let mut i: usize = 0;
    assert(all.take(0) =~= Seq::empty());
    while i < rows.len()
        invariant
            i <= rows@.len(),
            all == rows@.map_values(|row: String| text::trimmed(row@)),
            text::have_contents(lines@, lists::kept(all.take(i as int), is_not_empty())),
        decreases rows@.len() - i,
    {
        let line: String = text::trim(rows[i].as_str());
        proof {
            lists::lemma_kept_step(all, is_not_empty(), i as int);
            assert(all[i as int] == line@);
        }
        if !line.as_str().is_empty() {
            lines.push(line);
        }
        i += 1;
    }
    assert(all.take(all.len() as int) =~= all);
    let ghost kept = lines@;
    while lines.len() > limit
        invariant
            lines@.len() <= kept.len(),
            lines@ == kept.skip(kept.len() - lines@.len()),
            lines@.len() == kept.len() || lines@.len() >= limit,
        decreases lines@.len(),
    {
        let ghost n = lines@.len();
        lines.remove(0);
        assert(lines@ =~= kept.skip(kept.len() - n + 1));
    }
    lines
}

/// What is suggested is one of the proposals, and one that fits.
pub proof fn law_only_fitting_proposals_are_suggested(
    proposals: Seq<ProposalView>,
    distinct: bool,
    limit: int,
    i: int,
)
    requires
        0 <= i < choice(proposals, distinct, limit).len(),
        limit >= 0,
    ensures
        proposals.contains(choice(proposals, distinct, limit)[i]),
        choice(proposals, distinct, limit)[i].match_kind is Some,
        choice(proposals, distinct, limit).len() <= limit,
{
    lemma_better_is_weak_order();
    let fitting = lists::kept(proposals, is_matched());
    let chosen = if distinct {
        lists::unique(fitting, command_key())
    } else {
        fitting
    };
    let x = choice(proposals, distinct, limit)[i];
    let sorted = lists::stable_sort(chosen, is_better());
    assert(sorted[i] == x);
    assert(sorted.contains(x));
    lists::lemma_sorted_members(chosen, is_better(), x);
    if distinct {
        lists::lemma_unique_members(fitting, command_key(), x);
    }
    lists::lemma_kept_members(proposals, is_matched(), x);
}

/// A proposal that fits, and is the first to fit with its command, is left out
/// only where the list is full, and then nothing in it is worse.
pub proof fn law_nothing_better_is_left_out(proposals: Seq<ProposalView>, limit: int, k: int)
    requires
        0 <= k < proposals.len(),
        0 <= limit,
        proposals[k].match_kind is Some,
        forall|j: int|
            0 <= j < k && (#[trigger] proposals[j]).match_kind is Some ==> text::lowered(
                proposals[j].command,
            ) != text::lowered(proposals[k].command),
    ensures
        ({
            let list = choice(proposals, true, limit);
            list.contains(proposals[k]) || (list.len() == limit && forall|i: int|
                0 <= i < list.len() ==> !is_better()(proposals[k], #[trigger] list[i]))
        }),
{
    let x = proposals[k];
    lemma_better_is_weak_order();
    lists::lemma_first_with_a_key_survives(proposals, is_matched(), command_key(), k);
    let u = lists::unique(lists::kept(proposals, is_matched()), command_key());
    let sorted = lists::stable_sort(u, is_better());
    lists::law_stable_sort(u, is_better());
    lists::lemma_sorted_members(u, is_better(), x);
    let m = choose|m: int| 0 <= m < sorted.len() && sorted[m] == x;
    let list = choice(proposals, true, limit);
    if m < list.len() {
        assert(list[m] == x);
    } else {
        assert forall|i: int| 0 <= i < list.len() implies !is_better()(x, #[trigger] list[i]) by {
            assert(list[i] == sorted[i]);
        }
    }
}

/// What fits better comes first; among what fits alike the tier decides, then
/// the tier within it, then the place in the source, then the title.
pub proof fn law_the_better_fit_comes_first(a: ProposalView, b: ProposalView)
    ensures
        (a.match_kind matches Some(x) && (b.match_kind matches Some(y) && x < y)) ==> is_better()(
            a,
            b,
        ) && !is_better()(b, a),
        a.match_kind is Some && b.match_kind is None ==> is_better()(a, b) && !is_better()(b, a),
        a.match_kind == b.match_kind && a.tier < b.tier ==> is_better()(a, b) && !is_better()(b, a),
        a.match_kind == b.match_kind && a.tier == b.tier && a.subtier < b.subtier ==> is_better()(
            a,
            b,
        ) && !is_better()(b, a),
        a.match_kind == b.match_kind && a.tier == b.tier && a.subtier == b.subtier && a.ordinal
            < b.ordinal ==> is_better()(a, b) && !is_better()(b, a),
        a.match_kind == b.match_kind && a.tier == b.tier && a.subtier == b.subtier && a.ordinal
            == b.ordinal ==> (is_better()(a, b) <==> text::text_before(
            text::lowered(a.title),
            text::lowered(b.title),
        )),
{
}

/// The palette prefers, among what fits alike: the target's own history, then
/// recent commands and pinned snippets, then other snippets, then arguments,
/// then the rest; what recent output suggests never comes before the own history
/// or recent commands.
pub proof fn law_the_palette_prefers_what_was_used_here(
    own: ScopedCommand,
    recent: RecentCommand,
    snippet: Snippet,
    context: ContextCommandTemplate,
    template: CommandTemplate,
    i: int,
)
    ensures
        scoped_entry(own, i).tier < recent_entry(recent, i).tier,
        snippet.pinned ==> snippet_entry(snippet, i).tier == recent_entry(recent, i).tier,
        !snippet.pinned ==> recent_entry(recent, i).tier < snippet_entry(snippet, i).tier,
        snippet_entry(snippet, i).tier < template_entry(template, i).tier,
        template.source is Argument <==> template_entry(template, i).tier == 3,
        !(template.source is Argument) <==> template_entry(template, i).tier == 4,
        recent_entry(recent, i).tier < context_entry(context).tier,
        context.rank <= 253 ==> context_entry(context).tier == context.rank + 2,
        context.rank > 253 ==> context_entry(context).tier == 255,
{
}

/// A proposal offers the command it stands for, without outer blanks, as it was
/// judged, in the place it has in its source, and says where it comes from.
pub proof fn law_palette_proposals_stand_for_their_command(
    own: ScopedCommand,
    recent: RecentCommand,
    snippet: Snippet,
    context: ContextCommandTemplate,
    template: CommandTemplate,
    i: int,
)
    ensures
        ({
            let p = scoped_entry(own, i);
            &&& p.command == text::trimmed(own.command@) && p.title == p.command
            &&& p.match_kind == own.match_kind && p.ordinal == i && p.source is History
                && !p.pinned && p.subtier == 0
            &&& p.detail == Some(
                TextView::Filled(
                    MessageId::PaletteHistoryDetail,
                    if text::blank(own.scope_label@) {
                        AtomView::Message(MessageId::PaletteThisTarget)
                    } else {
                        AtomView::Characters(own.scope_label@)
                    },
                ),
            )
        }),
        ({
            let p = recent_entry(recent, i);
            &&& p.command == text::trimmed(recent.command@) && p.title == p.command
            &&& p.match_kind == recent.match_kind && p.ordinal == i && p.source is History
                && !p.pinned && p.subtier == 0
            &&& p.detail == Some(TextView::Message(MessageId::PaletteRecentCommand))
        }),
        ({
            let p = snippet_entry(snippet, i);
            &&& p.command == text::trimmed(snippet.command@) && p.title == snippet.display_name@
            &&& p.match_kind == snippet.match_kind && p.ordinal == i && p.source is Snippet
                && p.pinned == snippet.pinned && p.subtier == 0
        }),
        ({
            let p = context_entry(context);
            &&& p.command == context.command@ && p.title == p.command
            &&& p.match_kind == context.match_kind && p.ordinal == context.ordinal && p.source
                is Context && !p.pinned && p.subtier == 0
            &&& p.detail == Some(TextView::Characters(context.detail@))
        }),
        ({
            let p = template_entry(template, i);
            &&& p.command == template.command@ && p.title == p.command
            &&& p.match_kind == template.match_kind && p.ordinal == i && p.source
                == template.source && !p.pinned && p.subtier == 0
            &&& p.detail == Some(TextView::Characters(template.detail@))
        }),
{
}

/// A snippet says that it is pinned exactly where it is, and names its group
/// exactly where it has one; its command is told either way.
pub proof fn law_snippets_tell_their_group_and_pin(snippet: Snippet)
    ensures
        ({
            let told = snippet_detail(snippet);
            let command = AtomView::Characters(text::trimmed(snippet.command@));
            let group = AtomView::Characters(text::trimmed(snippet.group@));
            let grouped = !text::blank(snippet.group@);
            &&& told == TextView::Filled(MessageId::PalettePinnedSnippetDetail, command)
                <==> snippet.pinned && !grouped
            &&& told == TextView::Filled(MessageId::PaletteSnippetDetail, command)
                <==> !snippet.pinned && !grouped
            &&& told == TextView::FilledTwo(
                MessageId::PalettePinnedGroupSnippetDetail,
                group,
                command,
            ) <==> snippet.pinned && grouped
            &&& told == TextView::FilledTwo(MessageId::PaletteGroupSnippetDetail, group, command)
                <==> !snippet.pinned && grouped
        }),
{
}

/// The history of a target holds that target's commands only, the newest first.
pub proof fn law_history_is_newest_first(
    entries: Seq<ScopedCommand>,
    newest: ScopedCommand,
    scope_key: Seq<char>,
)
    ensures
        newest.scope_key@ == scope_key ==> scoped_history(entries.push(newest), scope_key) == seq![
            newest,
        ] + scoped_history(entries, scope_key),
        newest.scope_key@ != scope_key ==> scoped_history(entries.push(newest), scope_key)
            == scoped_history(entries, scope_key),
        scoped_history(Seq::<ScopedCommand>::empty(), scope_key).len() == 0,
{
    let wanted = in_scope(scope_key);
    assert(entries.push(newest).reverse() =~= seq![newest] + entries.reverse());
    lemma_kept_behind_one(newest, entries.reverse(), wanted);
    assert(Seq::<ScopedCommand>::empty().reverse() =~= Seq::empty());
}

proof fn lemma_kept_behind_one(
    first: ScopedCommand,
    rest: Seq<ScopedCommand>,
    wanted: spec_fn(ScopedCommand) -> bool,
)
    ensures
        lists::kept(seq![first] + rest, wanted) == lists::optional(wanted(first), first)
            + lists::kept(rest, wanted),
    decreases rest.len(),
{
    let all = seq![first] + rest;
    if rest.len() == 0 {
        assert(all =~= seq![first]);
        assert(all.drop_last() =~= Seq::empty());
        assert(lists::kept(all.drop_last(), wanted) =~= Seq::empty());
        assert(lists::kept(all, wanted) =~= lists::optional(wanted(first), first) + lists::kept(
            rest,
            wanted,
        ));
    } else {
        assert(all.drop_last() =~= seq![first] + rest.drop_last());
        lemma_kept_behind_one(first, rest.drop_last(), wanted);
        assert(all.last() == rest.last());
        assert(lists::kept(all, wanted) =~= lists::optional(wanted(first), first) + lists::kept(
            rest,
            wanted,
        ));
    }
}

/// Every source has its part in the palette: the target's history, the recent
/// commands from the newest on, the snippets, what recent output suggests and
/// the templates, in this order.
pub proof fn law_the_palette_proposes_every_source(
    scoped: Seq<ScopedCommand>,
    recent: Seq<RecentCommand>,
    snippets: Seq<Snippet>,
    context: Seq<ContextCommandTemplate>,
    templates: Seq<CommandTemplate>,
    scope_key: Seq<char>,
    i: int,
)
    requires
        0 <= i,
    ensures
        ({
            let all = palette_commands(scoped, recent, snippets, context, templates, scope_key);
            let h = scoped_history(scoped, scope_key).len();
            &&& all.len() == h + recent.len() + snippets.len() + context.len() + templates.len()
            &&& i < h ==> all[i] == scoped_entry(scoped_history(scoped, scope_key)[i], i)
            &&& i < recent.len() ==> all[h + i] == recent_entry(recent[recent.len() - 1 - i], i)
            &&& i < snippets.len() ==> all[h + recent.len() + i] == snippet_entry(snippets[i], i)
            &&& i < context.len() ==> all[h + recent.len() + snippets.len() + i] == context_entry(
                context[i],
            )
            &&& i < templates.len() ==> all[h + recent.len() + snippets.len() + context.len() + i]
                == template_entry(templates[i], i)
        }),
{
}

/// A completion offers the command it stands for, in the tier that its source
/// has; a pinned snippet and what was put together before come before the rest
/// of their tier.
pub proof fn law_completions_stand_for_their_command(
    own: ScopedCommand,
    recent: RecentCommand,
    snippet: Snippet,
    template: CommandTemplate,
    candidate: AutocompleteCandidateView,
    i: int,
    offset: int,
    priorities: SourcePriorities,
)
    ensures
        ({
            let p = scoped_completion(own, i, priorities.history);
            &&& p.command == text::trimmed(own.command@) && p.title == p.command
            &&& p.match_kind == own.match_kind && p.ordinal == i && p.source is History
                && p.tier == priorities.history && p.subtier == 1
            &&& p.detail == Some(
                if text::blank(own.scope_label@) {
                    TextView::Message(MessageId::PaletteThisTarget)
                } else {
                    TextView::Characters(own.scope_label@)
                },
            )
        }),
        ({
            let p = recent_completion(recent, i, offset, priorities.history);
            &&& p.command == text::trimmed(recent.command@) && p.title == p.command
            &&& p.match_kind == recent.match_kind && p.ordinal == i + offset && p.source is History
                && p.tier == priorities.history && p.subtier == 1 && p.detail is None
        }),
        ({
            let p = snippet_completion(snippet, i, offset, priorities.snippet);
            &&& p.command == text::trimmed(snippet.command@) && p.title == p.command
            &&& p.match_kind == snippet.match_kind && p.ordinal == i + offset && p.source
                is Snippet && p.tier == priorities.snippet && p.detail is None
            &&& p.subtier == 0 <==> snippet.pinned
            &&& p.subtier == 1 <==> !snippet.pinned
        }),
        ({
            let p = template_completion(template, i, offset, priorities);
            &&& p.command == template.command@ && p.title == p.command
            &&& p.match_kind == template.match_kind && p.ordinal == i + offset && p.source
                == template.source && p.subtier == 1
            &&& p.detail == Some(TextView::Characters(template.detail@))
            &&& template.source is Argument ==> p.tier == priorities.argument
            &&& template.source is Builtin ==> p.tier == priorities.builtin
        }),
        ({
            let p = given_completion(candidate, i, offset, priorities);
            &&& p.command == candidate.command && p.title == p.command
            &&& p.match_kind == Some(priorities.prefix_match) && p.ordinal == i + offset
                && p.source == candidate.source && p.subtier == 0
            &&& p.detail == candidate.scope_label
            &&& candidate.source is Path ==> p.tier == priorities.path
            &&& candidate.source is Context ==> p.tier == priorities.context
            &&& candidate.source is Argument ==> p.tier == priorities.argument
            &&& candidate.source is History ==> p.tier == priorities.history
            &&& candidate.source is Snippet ==> p.tier == priorities.snippet
            &&& candidate.source is Builtin ==> p.tier == priorities.builtin
        }),
{
}

/// Every source has its part in the completion, numbered so that no two sources
/// of one tier mix.
pub proof fn law_the_completion_proposes_every_source(
    scoped: Seq<ScopedCommand>,
    recent: Seq<RecentCommand>,
    snippets: Seq<Snippet>,
    templates: Seq<CommandTemplate>,
    scope_key: Seq<char>,
    priorities: SourcePriorities,
    i: int,
)
    requires
        0 <= i,
    ensures
        ({
            let all = completion_commands(
                scoped,
                recent,
                snippets,
                templates,
                scope_key,
                None,
                None,
                None,
                priorities,
            );
            let h = scoped_history(scoped, scope_key).len();
            &&& all.len() == h + recent.len() + snippets.len() + templates.len()
            &&& i < h ==> all[i] == scoped_completion(
                scoped_history(scoped, scope_key)[i],
                i,
                priorities.history,
            )
            &&& i < recent.len() ==> all[h + i] == recent_completion(
                recent[recent.len() - 1 - i],
                i,
                scoped.len() as int,
                priorities.history,
            )
            &&& i < snippets.len() ==> all[h + recent.len() + i] == snippet_completion(
                snippets[i],
                i,
                (scoped.len() + recent.len()) as int,
                priorities.snippet,
            )
            &&& i < templates.len() ==> all[h + recent.len() + snippets.len() + i]
                == template_completion(
                templates[i],
                i,
                (scoped.len() + recent.len() + snippets.len()) as int,
                priorities,
            )
        }),
{
}

/// What was put together before stands in front: paths, then what recent output
/// suggests, then arguments.
pub proof fn law_parts_stand_in_front_of_the_completion(
    sources: CommandSources,
    scope_key: Seq<char>,
    paths: Option<Vec<AutocompleteCandidate>>,
    context: Option<Vec<AutocompleteCandidate>>,
    arguments: Option<Vec<AutocompleteCandidate>>,
    priorities: SourcePriorities,
    i: int,
)
    requires
        0 <= i,
    ensures
        ({
            let all = completion_proposals(
                sources,
                scope_key,
                paths,
                context,
                arguments,
                priorities,
            );
            let p: int = match paths {
                Some(list) => list@.len() as int,
                None => 0,
            };
            let c: int = match context {
                Some(list) => list@.len() as int,
                None => 0,
            };
            &&& paths matches Some(list) ==> i < list@.len() ==> all[i] == given_completion(
                list@[i]@,
                i,
                0,
                priorities,
            )
            &&& context matches Some(list) ==> i < list@.len() ==> all[p + i] == given_completion(
                list@[i]@,
                i,
                100,
                priorities,
            )
            &&& arguments matches Some(list) ==> i < list@.len() ==> all[p + c + i]
                == given_completion(list@[i]@, i, 200, priorities)
        }),
{
}

/// A result of the palette is the proposal that it stands for.
pub proof fn law_results_show_their_proposal(p: ProposalView)
    ensures
        ({
            let r = command_result(p);
            &&& r.command == p.command
            &&& r.title == p.title
            &&& r.source == p.source
            &&& r.pinned == p.pinned
            &&& p.detail matches Some(detail) ==> r.detail == detail
            &&& p.detail is None ==> r.detail == TextView::Characters(""@)
            &&& r.id == result_id(1, p.command)
        }),
        suggestion(p).command == p.command,
        suggestion(p).source == p.source,
        suggestion(p).scope_label == p.detail,
{
}

/// The palette shows at most ten commands and the completion at most six.
pub proof fn law_lists_are_short(proposals: Seq<ProposalView>, distinct: bool)
    ensures
        choice(proposals, distinct, PALETTE_LIMIT as int).len() <= 10,
        suggestions(choice(proposals, distinct, AUTOCOMPLETE_LIMIT as int)).len() <= 6,
{
}

/// The categories stand in the order in which they press: what needs attention
/// first, commands last.
pub proof fn law_categories_stand_in_order(category: PaletteCategory)
    ensures
        category_rank(category) == 0 <==> category is Attention,
        category_rank(category) == 1 <==> category is Sessions,
        category_rank(category) == 2 <==> category is Projects,
        category_rank(category) == 3 <==> category is Groups,
        category_rank(category) == 4 <==> category is Presets,
        category_rank(category) == 5 <==> category is Actions,
        category_rank(category) == 6 <==> category is Archive,
        category_rank(category) == 7 <==> category is Commands,
{
}

/// A result's identity is the hash of its text, byte by byte, started from its
/// namespace, and never nothing.
pub proof fn law_results_are_identified_by_their_text(bytes: Seq<u8>, byte: u8, start: u64)
    ensures
        hashed(bytes.push(byte), start) == (hashed(bytes, start) ^ (byte as u64)).wrapping_mul(
            1099511628211u64,
        ),
        hashed(Seq::<u8>::empty(), start) == start,
{
    assert(bytes.push(byte).drop_last() =~= bytes);
}

/// A directory's path ends in a slash; a file's stays as it is.
pub proof fn law_directories_end_in_a_slash(path: Seq<char>, scope: TextView)
    ensures
        path_proposal(path, true, scope).path.last() == '/',
        text::begins_with(path_proposal(path, true, scope).path, path),
        path.len() > 0 && path.last() == '/' ==> path_proposal(path, true, scope).path == path,
        !(path.len() > 0 && path.last() == '/') ==> path_proposal(path, true, scope).path.len()
            == path.len() + 1,
        path_proposal(path, false, scope).path == path,
        path_proposal(path, true, scope).scope == scope,
        path_proposal(path, false, scope).scope == scope,
        path_proposal(path, true, scope).match_kind is None,
{
    assert(path.push('/').subrange(0, path.len() as int) =~= path);
    assert(path.subrange(0, path.len() as int) =~= path);
}

/// An entry is proposed in the way in which its path was begun: in full behind a
/// slash, below the dot behind one, and by its name otherwise.
pub proof fn law_entries_are_proposed_as_begun(entry: PathEntry, fragment: Seq<char>)
    ensures
        fragment.len() > 0 && fragment[0] == '/' ==> entry_path(entry, fragment) == entry.path@,
        fragment.len() > 1 && fragment[0] == '.' && fragment[1] == '/' ==> entry_path(
            entry,
            fragment,
        ) == seq!['.', '/'] + entry.name@,
        fragment.len() > 0 && fragment[0] != '/' && fragment[0] != '.' ==> entry_path(
            entry,
            fragment,
        ) == entry.name@,
        fragment.len() > 1 && fragment[0] == '.' && fragment[1] != '/' ==> entry_path(
            entry,
            fragment,
        ) == entry.name@,
        fragment.len() == 0 ==> entry_path(entry, fragment) == entry.name@,
{
    reveal_strlit("/");
    reveal_strlit("./");
    assert("/"@ =~= seq!['/']);
    assert("./"@ =~= seq!['.', '/']);
    if fragment.len() > 0 {
        assert(fragment.subrange(0, 1)[0] == fragment[0]);
        if fragment[0] == '/' {
            assert(fragment.subrange(0, 1) =~= seq!['/']);
        }
    }
    if fragment.len() > 1 {
        assert(fragment.subrange(0, 2)[0] == fragment[0]);
        assert(fragment.subrange(0, 2)[1] == fragment[1]);
        assert(seq!['.', '/'][0] == '.' && seq!['.', '/'][1] == '/');
        if fragment[0] == '.' && fragment[1] == '/' {
            assert(fragment.subrange(0, 2) =~= seq!['.', '/']);
        }
    }
}

/// The paths that are proposed: the entries of the directory, where it started,
/// where it is, what is above, and the recent ones, each called by what it is.
pub proof fn law_paths_are_proposed_from_every_source(
    fragment: Seq<char>,
    context: PathSuggestionContext,
    recent: Seq<String>,
    i: int,
)
    requires
        0 <= i,
    ensures
        ({
            let all = all_paths(fragment, Some(context), recent);
            let n = context.entries@.len();
            &&& i < n ==> all[i] == path_proposal(
                entry_path(context.entries@[i], fragment),
                context.entries@[i].is_dir,
                files_scope(context),
            )
            &&& context.startup_directory matches Some(directory) ==> all[n as int]
                == path_proposal(
                directory@,
                true,
                TextView::Message(MessageId::PaletteStartupPath),
            )
            &&& context.current_path matches Some(directory) ==> ({
                let at = n + if context.startup_directory is Some {
                    1int
                } else {
                    0int
                };
                &&& all[at] == path_proposal(
                    directory@,
                    true,
                    TextView::Message(MessageId::PaletteCurrentDirectory),
                )
                &&& context.parent_path matches Some(above) ==> all[at + 1] == path_proposal(
                    above@,
                    true,
                    TextView::Message(MessageId::PaletteParentDirectory),
                )
            })
            &&& i < recent.len() ==> all[all.len() - recent.len() + i] == path_proposal(
                recent[i]@,
                false,
                TextView::Message(MessageId::PaletteRecentPath),
            )
            &&& context.current_path is None ==> all.len() == n + recent.len() + if context.startup_directory
                is Some {
                1int
            } else {
                0int
            }
        }),
        all_paths(fragment, None, recent).len() == recent.len(),
        i < recent.len() ==> all_paths(fragment, None, recent)[i] == path_proposal(
            recent[i]@,
            false,
            TextView::Message(MessageId::PaletteRecentPath),
        ),
        context.current_path matches Some(path) ==> files_scope(context) == TextView::Filled(
            MessageId::PaletteFilesScope,
            AtomView::Characters(path@),
        ),
{
}

/// A path completes what was typed before it.
pub proof fn law_paths_complete_their_prefix(p: PathProposalView, prefix: Seq<char>, i: int)
    ensures
        path_completion(p, prefix, i).command == prefix + p.path,
        path_completion(p, prefix, i).title == path_completion(p, prefix, i).command,
        path_completion(p, prefix, i).detail == Some(p.scope),
        path_completion(p, prefix, i).source is Path,
        path_completion(p, prefix, i).match_kind == p.match_kind,
        path_completion(p, prefix, i).ordinal == i,
{
}

/// An argument is offered only from a template of arguments that begins with the
/// first word and is not what was typed already, whatever the case.
pub proof fn law_arguments_continue_the_first_word(t: CommandTemplate, query: Seq<char>)
    ensures
        offers_argument(query)(t) ==> t.source is Argument,
        offers_argument(query)(t) ==> text::begins_with(
            text::lowered(t.command@),
            text::lowered(text::leading_word(query)),
        ),
        offers_argument(query)(t) ==> text::lowered(t.command@) != text::lowered(query),
        t.source is Argument && text::begins_with(
            text::lowered(t.command@),
            text::lowered(text::leading_word(query)),
        ) && text::lowered(t.command@) != text::lowered(query) ==> offers_argument(query)(t),
        argument_completion(t).command == t.command@,
        argument_completion(t).match_kind == t.match_kind,
        argument_completion(t).source is Argument,
        argument_completion(t).detail == Some(TextView::Characters(t.detail@)),
{
}

/// Arguments are offered for one line whose first word has a template of
/// arguments: the word itself, or the word and a blank to begin with.
pub proof fn law_arguments_apply_to_known_commands(
    input: Seq<char>,
    templates: Seq<CommandTemplate>,
    k: int,
)
    requires
        0 <= k < templates.len(),
        templates[k].source is Argument,
        text::begins_with(
            templates[k].command@,
            text::leading_word(text::trimmed(input)) + seq![' '],
        ) || templates[k].command@ == text::leading_word(text::trimmed(input)),
    ensures
        arguments_apply(input, templates) <==> text::trimmed(input).len() > 0 && !text::trimmed(
            input,
        ).contains('\n'),
{
    reveal_strlit(" ");
    assert(" "@ =~= seq![' ']);
    assert(in_family(templates[k], text::leading_word(text::trimmed(input))));
}

/// Without a template of arguments nothing applies.
pub proof fn law_arguments_need_a_template(input: Seq<char>, templates: Seq<CommandTemplate>)
    ensures
        arguments_apply(input, templates) ==> exists|i: int|
            0 <= i < templates.len() && (#[trigger] templates[i]).source is Argument,
{
}

/// Recent output is searched for one typed line, where there is output.
pub proof fn law_recent_output_is_searched_for_one_line(
    input: Seq<char>,
    context: Option<OutputSuggestionContext>,
)
    ensures
        context_query_of(input, context) is Some <==> (context matches Some(c)
            && c.recent_lines@.len() > 0) && text::trimmed(text::without_line_ends(input)).len() > 0
            && !text::without_line_ends(input).contains('\n'),
        context_query_of(input, context) matches Some(query) ==> query == text::lowered(
            text::trimmed(text::without_line_ends(input)),
        ),
{
}

/// Each kind of target is called by its own name.
pub proof fn law_each_target_has_its_words(target: ContextTarget)
    ensures
        label_of_target(target) == MessageId::PaletteGitBranch <==> target is GitBranch,
        label_of_target(target) == MessageId::PaletteDockerTarget <==> target is DockerTarget,
        label_of_target(target) == MessageId::PaletteKubernetesPod <==> target is KubernetesPod,
        label_of_target(target) == MessageId::PaletteSystemdUnit <==> target is SystemdUnit,
{
}

/// What recent output suggests is the command's beginning and the name of a
/// target that was found, with that target's rank and place.
pub proof fn law_output_suggestions_name_found_targets(
    prefix: Seq<char>,
    targets: Seq<FoundTarget>,
    detail: Seq<char>,
    i: int,
) -> (k: int)
    requires
        0 <= i < context_commands(prefix, targets, detail).len(),
    ensures
        0 <= k < targets.len(),
        context_commands(prefix, targets, detail)[i].command == prefix + targets[k].name@,
        context_commands(prefix, targets, detail)[i].rank == targets[k].rank,
        context_commands(prefix, targets, detail)[i].ordinal == k,
        context_commands(prefix, targets, detail)[i].detail == detail,
        context_commands(prefix, targets, detail)[i].match_kind is None,
{
    let proposals = Seq::new(targets.len(), |i: int| target_proposal(prefix, targets[i], i));
    lemma_chosen_member(proposals, targets.len() as int, i);
    let x = choice(proposals, true, targets.len() as int)[i];
    let k = choose|k: int| 0 <= k < proposals.len() && proposals[k] == x;
    k
}

/// A suggestion from recent output completes as the command that it is.
pub proof fn law_output_suggestions_complete_as_they_are(template: ContextCommandTemplate)
    ensures
        ({
            let p = context_completion(template);
            &&& p.command == template.command@ && p.title == p.command
            &&& p.detail == Some(TextView::Characters(template.detail@))
            &&& p.source is Context && p.match_kind == template.match_kind && !p.pinned
            &&& p.tier == template.rank && p.subtier == 0 && p.ordinal == template.ordinal
        }),
{
}

/// Of the output the last lines that say something are kept, in their order and
/// without outer blanks.
pub proof fn law_the_last_lines_are_kept(rows: Seq<String>, limit: int, i: int)
    requires
        0 <= limit,
        0 <= i < last_of(output_lines(rows), limit).len(),
    ensures
        ({
            let all = output_lines(rows);
            let last = last_of(all, limit);
            &&& last.len() == if all.len() < limit {
                all.len() as int
            } else {
                limit
            }
            &&& last[last.len() - 1 - i] == all[all.len() - 1 - i]
            &&& last[i].len() > 0
            &&& exists|k: int| 0 <= k < rows.len() && last[i] == text::trimmed(
                (#[trigger] rows[k])@,
            )
        }),
{
    let all = output_lines(rows);
    let last = last_of(all, limit);
    let trimmed = rows.map_values(|row: String| text::trimmed(row@));
    let at = all.len() - last.len() + i;
    assert(last[i] == all[at]);
    assert(all.contains(all[at]));
    lists::lemma_kept_members(trimmed, is_not_empty(), all[at]);
    let k = choose|k: int| 0 <= k < trimmed.len() && trimmed[k] == all[at];
    assert(rows[k]@ == rows[k]@);
}

} // verus!
