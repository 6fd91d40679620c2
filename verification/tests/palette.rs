use termirust_console::ids::HostedSessionId;
use termirust_console::matching::{normalized_query, Matched};
use termirust_console::messages::{Atom, MessageId, Text};
use termirust_console::overlay::{
    category_icon, command_palette_view, palette_title, paste_confirmation, snippet_prompts_panel,
    source_tone, status_tone, BadgeLabel, PaletteScreen, SnippetPrompts,
};
use termirust_console::palette::{
    candidates_of_arguments, candidates_of_paths, candidates_of_templates,
    command_palette_result_id, context_family, context_query, matched_autocomplete_candidates,
    matched_palette_candidates, pane_recent_output_lines, path_proposals, templates_of_targets,
    AutocompleteCandidate, AutocompleteSource, CommandMatches, CommandPaletteCandidate,
    CommandSources, CommandTemplate, ContextTarget, FoundTarget, HighlightField,
    OutputSuggestionContext, PaletteAction, PaletteCategory, PathEntry, PathQuery,
    PathSuggestionContext, RecentCommand, ScopedCommand, SearchAction, SearchStatus, Snippet,
    SourcePriorities, TextHighlight,
};
use termirust_console::suggestions::{
    collect_argument_autocomplete_candidates, collect_autocomplete_candidates,
    collect_command_palette_candidates, collect_context_autocomplete_candidates,
    collect_context_command_templates, collect_path_autocomplete_candidates,
};
use termirust_console::ui::{Icon, Tone};

const EXACT: Option<u8> = Some(0);
const LOOSE: Option<u8> = Some(2);

fn priorities() -> SourcePriorities {
    SourcePriorities {
        prefix_match: 0,
        path: 0,
        argument: 1,
        context: 2,
        history: 3,
        snippet: 4,
        builtin: 5,
    }
}

fn no_sources() -> CommandSources {
    CommandSources {
        scoped: Vec::new(),
        recent: Vec::new(),
        snippets: Vec::new(),
        templates: Vec::new(),
    }
}

fn recent(command: &str, match_kind: Option<u8>) -> RecentCommand {
    RecentCommand { command: command.to_string(), match_kind }
}

fn scoped(command: &str, key: &str, label: &str) -> ScopedCommand {
    ScopedCommand {
        command: command.to_string(),
        scope_key: key.to_string(),
        scope_label: label.to_string(),
        match_kind: EXACT,
    }
}

fn template(command: &str, source: AutocompleteSource, match_kind: Option<u8>) -> CommandTemplate {
    CommandTemplate {
        command: command.to_string(),
        detail: format!("about {command}"),
        source,
        match_kind,
    }
}

fn commands(candidates: &[AutocompleteCandidate]) -> Vec<&str> {
    candidates.iter().map(|candidate| candidate.command.as_str()).collect()
}

/// Matches where the query is part of one of the fields; an exact match is best.
fn part_of(query: &str, fields: &Vec<String>) -> Option<u8> {
    let lower: Vec<String> = fields.iter().map(|field| field.to_ascii_lowercase()).collect();
    if lower.iter().any(|field| field == query) {
        EXACT
    } else if lower.iter().any(|field| field.contains(query)) {
        LOOSE
    } else {
        None
    }
}

/// A query is a command, or the command and what it goes on with.
fn begins(query: &str, command: &str) -> bool {
    query == command || query.starts_with(&format!("{command} "))
}

/// Every line of recent output names a target.
fn lines_of(_target: ContextTarget, context: &OutputSuggestionContext) -> Vec<FoundTarget> {
    context
        .recent_lines
        .iter()
        .map(|line| FoundTarget {
            name: line.trim_start_matches("* ").to_string(),
            rank: if line.starts_with('*') { 0 } else { 1 },
        })
        .collect()
}

fn place_of(target: ContextTarget, path: &Option<String>) -> String {
    format!("{target:?} in {}", path.as_deref().unwrap_or("?"))
}

fn output(lines: &[&str]) -> Option<OutputSuggestionContext> {
    Some(OutputSuggestionContext {
        current_path: Some("/srv".to_string()),
        recent_lines: lines.iter().map(|line| line.to_string()).collect(),
    })
}

#[test]
fn command_candidates_remain_in_the_commands_category() {
    let mut sources = no_sources();
    sources.recent = vec![recent("git status", None)];
    let candidates = collect_command_palette_candidates(
        "git status",
        sources,
        "local:test",
        &None,
        &begins,
        &lines_of,
        &place_of,
        &part_of,
    );
    assert!(!candidates.is_empty());
    assert!(candidates.iter().all(|candidate| {
        candidate.category == PaletteCategory::Commands
            && candidate.action == PaletteAction::RunCommand
            && candidate.status.is_none()
            && candidate.highlights.is_empty()
    }));
}

#[test]
fn category_rank_is_total_and_stable() {
    let categories = [
        PaletteCategory::Attention,
        PaletteCategory::Sessions,
        PaletteCategory::Projects,
        PaletteCategory::Groups,
        PaletteCategory::Presets,
        PaletteCategory::Actions,
        PaletteCategory::Archive,
        PaletteCategory::Commands,
    ];
    assert_eq!(categories.map(PaletteCategory::rank), [0, 1, 2, 3, 4, 5, 6, 7]);
}

#[test]
fn result_ids_are_the_hash_of_namespace_and_text() {
    assert_eq!(command_palette_result_id(0, "").value, 0xcbf29ce484222325);
    assert_eq!(command_palette_result_id(0, "a").value, 0xaf63dc4c8601ec8c);
    assert_ne!(
        command_palette_result_id(1, "git status").value,
        command_palette_result_id(2, "git status").value
    );
}

#[test]
fn palette_orders_by_match_then_source_and_names_each_command_once() {
    let sources = CommandSources {
        scoped: vec![scoped("make", "other", "Other"), scoped(" make test ", "here", "  ")],
        recent: vec![recent("MAKE TEST", EXACT), recent("ls", LOOSE), recent("gone", None)],
        snippets: vec![
            Snippet {
                command: "deploy now".to_string(),
                display_name: "Deploy".to_string(),
                group: " Ops ".to_string(),
                pinned: false,
                match_kind: EXACT,
            },
            Snippet {
                command: "backup".to_string(),
                display_name: "Backup".to_string(),
                group: String::new(),
                pinned: true,
                match_kind: EXACT,
            },
        ],
        templates: vec![template("git log", AutocompleteSource::Builtin, EXACT)],
    };
    let candidates = matched_palette_candidates(&sources, "here", &Vec::new());
    let listed: Vec<&str> =
        candidates.iter().map(|candidate| candidate.command.as_str()).collect();
    assert_eq!(listed, vec!["make test", "backup", "deploy now", "git log", "ls"]);
    assert_eq!(
        candidates[0].detail,
        Text::Filled(
            MessageId::PaletteHistoryDetail,
            Atom::Message(MessageId::PaletteThisTarget)
        )
    );
    assert_eq!(
        candidates[2].detail,
        Text::FilledTwo(
            MessageId::PaletteGroupSnippetDetail,
            Atom::Value("Ops".to_string()),
            Atom::Value("deploy now".to_string())
        )
    );
    assert_eq!(candidates[0].id, command_palette_result_id(1, "make test"));
}

#[test]
fn the_palette_shows_ten_commands_at_most() {
    let mut sources = no_sources();
    sources.recent = (0..14).map(|n| recent(&format!("cmd {n}"), EXACT)).collect();
    let candidates = matched_palette_candidates(&sources, "here", &Vec::new());
    assert_eq!(candidates.len(), 10);
    assert_eq!(candidates[0].command, "cmd 13");
}

#[test]
fn autocompletion_prefers_given_lists_and_stops_at_six() {
    let given = |command: &str, source: AutocompleteSource| AutocompleteCandidate {
        command: command.to_string(),
        source,
        scope_label: None,
    };
    let mut sources = no_sources();
    sources.recent = (0..8).map(|n| recent(&format!("cd {n}"), EXACT)).collect();
    let candidates = matched_autocomplete_candidates(
        "cd",
        &sources,
        "here",
        Some(vec![given("cd src/", AutocompleteSource::Path)]),
        Some(vec![given("cd branch", AutocompleteSource::Context)]),
        Some(vec![
            given("CD SRC/", AutocompleteSource::Argument),
            given("cd -", AutocompleteSource::Argument),
        ]),
        &priorities(),
    );
    assert_eq!(
        commands(&candidates),
        vec!["cd src/", "cd -", "cd branch", "cd 7", "cd 6", "cd 5"]
    );
    assert!(matched_autocomplete_candidates(
        "  ",
        &sources,
        "here",
        None,
        None,
        None,
        &priorities()
    )
    .is_empty());
}

#[test]
fn paths_are_written_the_way_they_were_begun() {
    let context = || {
        Some(PathSuggestionContext {
            current_path: Some("/srv/app".to_string()),
            parent_path: Some("/srv".to_string()),
            startup_directory: None,
            entries: vec![
                PathEntry {
                    name: "src".to_string(),
                    path: "/srv/app/src".to_string(),
                    is_dir: true,
                },
                PathEntry {
                    name: "notes".to_string(),
                    path: "/srv/app/notes".to_string(),
                    is_dir: false,
                },
            ],
        })
    };
    let query = |fragment: &str| PathQuery {
        prefix: "cat ".to_string(),
        fragment: fragment.to_string(),
    };
    let recents = vec!["/tmp/x".to_string()];
    let shown = |fragment: &str| -> Vec<String> {
        path_proposals(&query(fragment), &context(), &recents)
            .into_iter()
            .map(|proposal| proposal.path)
            .collect()
    };
    assert_eq!(shown("/s"), vec!["/srv/app/src/", "/srv/app/notes", "/srv/app/", "/srv/", "/tmp/x"]);
    assert_eq!(shown("./"), vec!["./src/", "./notes", "/srv/app/", "/srv/", "/tmp/x"]);
    assert_eq!(shown("n"), vec!["src/", "notes", "/srv/app/", "/srv/", "/tmp/x"]);

    let mut proposals = path_proposals(&query("n"), &context(), &recents);
    proposals[0].match_kind = LOOSE;
    proposals[1].match_kind = EXACT;
    let found = candidates_of_paths(Some(query("n")), proposals).unwrap();
    assert_eq!(commands(&found), vec!["cat notes", "cat src/"]);
    assert_eq!(
        found[0].scope_label,
        Some(Text::Filled(MessageId::PaletteFilesScope, Atom::Value("/srv/app".to_string())))
    );
    let none = path_proposals(&query("n"), &None, &Vec::new());
    assert!(candidates_of_paths(Some(query("n")), none).is_none());
    assert!(candidates_of_paths(None, Vec::new()).is_none());
}

#[test]
fn arguments_complete_a_known_family_only() {
    let templates = vec![
        template("git checkout", AutocompleteSource::Argument, EXACT),
        template("git commit", AutocompleteSource::Argument, EXACT),
        template("git commit", AutocompleteSource::Builtin, EXACT),
        template("gitk", AutocompleteSource::Argument, LOOSE),
        template("docker ps", AutocompleteSource::Argument, EXACT),
    ];
    let found = candidates_of_arguments(" git commit ", &templates).unwrap();
    assert_eq!(commands(&found), vec!["git checkout", "gitk"]);
    assert!(candidates_of_arguments("gi", &templates).is_none());
    assert!(candidates_of_arguments("git\nx", &templates).is_none());
    assert!(candidates_of_arguments("  ", &templates).is_none());
}

fn nothing_matches() -> CommandMatches {
    CommandMatches {
        git_checkout: false,
        git_switch: false,
        git_diff: false,
        git_log: false,
        docker_logs: false,
        docker_inspect: false,
        docker_stop: false,
        docker_restart: false,
        docker_rm: false,
        docker_exec: false,
        kubectl_logs: false,
        kubectl_describe_pod: false,
        kubectl_exec: false,
        systemctl_status: false,
        systemctl_restart: false,
        systemctl_reload: false,
        journalctl: false,
        journalctl_follow: false,
    }
}

#[test]
fn recent_output_completes_the_most_particular_command() {
    assert!(context_family(nothing_matches()).is_none());
    let both = CommandMatches { git_checkout: true, git_switch: true, ..nothing_matches() };
    assert_eq!(context_family(both).unwrap().prefix, "git switch ");
    let docker = CommandMatches { docker_logs: true, docker_rm: true, ..nothing_matches() };
    assert_eq!(context_family(docker).unwrap().prefix, "docker rm ");
    assert_eq!(context_family(docker).unwrap().target.label(), MessageId::PaletteDockerTarget);
    let unit = CommandMatches { journalctl: true, systemctl_status: true, ..nothing_matches() };
    let family = context_family(unit).unwrap();
    assert_eq!((family.prefix, family.target), ("journalctl -u ", ContextTarget::SystemdUnit));
    let pods = CommandMatches { kubectl_logs: true, kubectl_exec: true, ..nothing_matches() };
    assert_eq!(context_family(pods).unwrap().prefix, "kubectl exec -it ");
}

#[test]
fn targets_are_ranked_and_named_once() {
    let target = |name: &str, rank: u8| FoundTarget { name: name.to_string(), rank };
    let family =
        context_family(CommandMatches { git_checkout: true, ..nothing_matches() });
    let targets = vec![target("main", 1), target("fix", 0), target("MAIN", 0)];
    let mut templates = templates_of_targets(family, &targets, "branch").unwrap();
    let listed: Vec<&str> = templates.iter().map(|t| t.command.as_str()).collect();
    assert_eq!(listed, vec!["git checkout fix", "git checkout main"]);
    assert_eq!(templates[0].ordinal, 1);
    assert_eq!(templates[0].detail, "branch");
    templates[1].match_kind = EXACT;
    let found = candidates_of_templates(&Some(templates)).unwrap();
    assert_eq!(commands(&found), vec!["git checkout main"]);
    assert!(templates_of_targets(family, &Vec::new(), "branch").is_none());
    assert!(templates_of_targets(None, &targets, "branch").is_none());
    assert!(candidates_of_templates(&None).is_none());
}

#[test]
fn output_is_searched_for_one_line_only() {
    let context = |lines: Vec<String>| {
        Some(OutputSuggestionContext { current_path: None, recent_lines: lines })
    };
    let some = || context(vec!["* main".to_string()]);
    assert_eq!(context_query(" Git Log \r\n", &some()).as_deref(), Some("git log"));
    assert_eq!(context_query("a\nb", &some()), None);
    assert_eq!(context_query(" \n", &some()), None);
    assert_eq!(context_query("git", &context(Vec::new())), None);
    assert_eq!(context_query("git", &None), None);
}

#[test]
fn recent_lines_are_trimmed_and_limited() {
    let rows: Vec<String> =
        [" one ", "", "two", "   ", "three"].iter().map(|row| row.to_string()).collect();
    assert_eq!(pane_recent_output_lines(&rows, 2), vec!["two", "three"]);
    assert_eq!(pane_recent_output_lines(&rows, 9), vec!["one", "two", "three"]);
    assert!(pane_recent_output_lines(&rows, 0).is_empty());
}

fn title_mark(start: usize, end: usize) -> TextHighlight {
    TextHighlight { field: HighlightField::Title, start, end }
}

#[test]
fn highlighting_keeps_the_title() {
    let highlights = vec![
        title_mark(6, 9),
        title_mark(0, 4),
        title_mark(2, 8),
        title_mark(0, 4),
        title_mark(4, 4),
        title_mark(1, 99),
        TextHighlight { field: HighlightField::Detail, start: 9, end: 10 },
    ];
    let segments = palette_title("Build retained", &highlights);
    let drawn: Vec<(&str, bool)> =
        segments.iter().map(|segment| (segment.text.as_str(), segment.highlighted)).collect();
    assert_eq!(
        drawn,
        vec![("Buil", true), ("d ", false), ("ret", true), ("ained", false)]
    );
    let whole: String = segments.iter().map(|segment| segment.text.as_str()).collect();
    assert_eq!(whole, "Build retained");
}

#[test]
fn highlights_never_cut_a_character() {
    let segments = palette_title("äb", &vec![title_mark(1, 3), title_mark(2, 3)]);
    let drawn: Vec<(&str, bool)> =
        segments.iter().map(|segment| (segment.text.as_str(), segment.highlighted)).collect();
    assert_eq!(drawn, vec![("ä", false), ("b", true)]);
    let empty = palette_title("", &vec![title_mark(0, 1)]);
    assert_eq!(empty.len(), 1);
    assert_eq!(empty[0].text, "");
}

fn candidate(category: PaletteCategory, action: PaletteAction) -> CommandPaletteCandidate {
    CommandPaletteCandidate {
        id: command_palette_result_id(3, "x"),
        command: String::new(),
        title: "Parser".to_string(),
        detail: Text::Value(String::new()),
        source: AutocompleteSource::Snippet,
        pinned: true,
        category,
        action,
        status: Some(SearchStatus::Unknown),
        highlights: Vec::new(),
    }
}

fn screen(candidates: Vec<CommandPaletteCandidate>, query: &str) -> PaletteScreen {
    PaletteScreen {
        candidates,
        selected: 1,
        query: query.to_string(),
        searching: true,
        archived_fallback: false,
        failure: None,
        shortcut: "Ctrl".to_string(),
    }
}

#[test]
fn the_palette_heads_each_category_once() {
    let search = PaletteAction::Search(SearchAction::OpenSession(HostedSessionId { value: 4 }));
    let view = command_palette_view(&screen(
        vec![
            candidate(PaletteCategory::Sessions, search),
            candidate(PaletteCategory::Sessions, search),
            candidate(PaletteCategory::Commands, PaletteAction::RunCommand),
        ],
        "pa",
    ));
    let headers: Vec<Option<PaletteCategory>> = view.rows.iter().map(|row| row.header).collect();
    assert_eq!(
        headers,
        vec![Some(PaletteCategory::Sessions), None, Some(PaletteCategory::Commands)]
    );
    assert_eq!(view.rows[1].border, Tone::Accent);
    assert_eq!(view.rows[0].border, Tone::Border);
    assert!(view.rows[0].detail.is_none());
    assert_eq!(view.rows[0].badges.len(), 1);
    assert_eq!(view.rows[2].badges[1].label, BadgeLabel::Source(AutocompleteSource::Snippet));
    assert_eq!(
        view.position,
        Some(Text::FilledTwo(
            MessageId::GlobalPalettePosition,
            Atom::Number(2),
            Atom::Number(3)
        ))
    );
    assert_eq!(view.notices, vec![Text::Message(MessageId::GlobalPaletteSearching)]);
    assert!(view.empty.is_none());
}

#[test]
fn an_empty_palette_says_why() {
    let blank = command_palette_view(&screen(Vec::new(), ""));
    assert_eq!(blank.empty.unwrap().title, MessageId::GlobalPaletteEmpty);
    let unmatched = command_palette_view(&screen(Vec::new(), "zz"));
    assert_eq!(unmatched.empty.unwrap().detail, MessageId::GlobalPaletteNoMatchDetail);
    assert!(unmatched.position.is_none());
}

#[test]
fn tones_and_icons_of_results() {
    assert_eq!(source_tone(AutocompleteSource::Argument), Tone::Warning);
    assert_eq!(source_tone(AutocompleteSource::Builtin), Tone::Slate);
    assert_eq!(category_icon(PaletteCategory::Archive), Icon::Inbox);
    assert_eq!(status_tone(SearchStatus::Unavailable), Tone::Danger);
}

#[test]
fn pasting_several_lines_is_asked_about() {
    let view = paste_confirmation(&Some("first\nsecond\nthird".to_string())).unwrap();
    assert_eq!(view.question, "Paste 3 lines into the active pane?");
    assert_eq!(view.first_line, "First line: first…");
    assert_eq!(view.buttons[0].id, "paste-confirm");
    assert!(paste_confirmation(&None).is_none());
    let long = "x".repeat(200);
    let view = paste_confirmation(&Some(long)).unwrap();
    assert_eq!(view.first_line.chars().count(), 12 + 80 + 1);
}

#[test]
fn snippet_prompts_show_the_first_line() {
    let view = snippet_prompts_panel(&Some(SnippetPrompts {
        command: "deploy {host}\nrm".to_string(),
        fields: vec!["host".to_string()],
    }))
    .unwrap();
    assert_eq!(view.preview, "Command: deploy {host}");
    assert_eq!(view.fields, vec!["host"]);
    assert_eq!(view.buttons[1].id, "snippet-prompts-cancel");
}

fn searched(query: &str, scoped_commands: Vec<ScopedCommand>) -> Vec<CommandPaletteCandidate> {
    let sources = CommandSources {
        scoped: scoped_commands,
        recent: vec![recent("cargo Test", None), recent("ls", None)],
        snippets: vec![Snippet {
            command: " deploy ".to_string(),
            display_name: "Ship it".to_string(),
            group: "Tests".to_string(),
            pinned: false,
            match_kind: None,
        }],
        templates: vec![template("git log", AutocompleteSource::Builtin, None)],
    };
    collect_command_palette_candidates(
        query,
        sources,
        "here",
        &None,
        &begins,
        &lines_of,
        &place_of,
        &part_of,
    )
}

#[test]
fn case_and_outer_blanks_of_the_query_do_not_count() {
    let history = || vec![scoped("make test", "here", "Here"), scoped("test", "other", "Other")];
    let plain = searched("test", vec![scoped("make test", "here", "Here")]);
    let loud = searched("  TEST\n", history());
    let commands_of = |list: &[CommandPaletteCandidate]| -> Vec<String> {
        list.iter().map(|candidate| candidate.command.clone()).collect()
    };
    assert_eq!(commands_of(&plain), vec!["make test", "cargo Test", "deploy"]);
    assert_eq!(commands_of(&loud), commands_of(&plain));
    assert_eq!(normalized_query("  Git LOG "), "git log");
    assert_eq!(normalized_query(&normalized_query("  Git LOG ")), "git log");
}

#[test]
fn each_source_offers_its_own_fields() {
    assert_eq!(scoped(" make ", "here", "Here").match_fields(), vec!["make", "Here"]);
    assert_eq!(recent(" Make ", None).match_fields(), vec!["Make"]);
    assert_eq!(recent(" Make ", None).match_key(), "make");
    let snippet = Snippet {
        command: " x ".to_string(),
        display_name: "Name".to_string(),
        group: " G ".to_string(),
        pinned: false,
        match_kind: None,
    };
    assert_eq!(snippet.match_fields(), vec!["x", "Name", " G "]);
    let known = template("Git log", AutocompleteSource::Builtin, None);
    assert_eq!(known.match_fields(), vec!["Git log", "about Git log"]);
    assert_eq!(known.match_key(), "git log");
}

#[test]
fn the_autocompletion_matches_commands_in_lower_case() {
    let mut sources = no_sources();
    sources.recent = vec![recent("Git Push", None), recent("ls", None)];
    let found = collect_autocomplete_candidates(
        " GIT ",
        sources,
        "here",
        None,
        &None,
        &Vec::new(),
        &None,
        &priorities(),
        &begins,
        &lines_of,
        &place_of,
        &part_of,
        &part_of,
    );
    assert_eq!(commands(&found), vec!["Git Push"]);
}

#[test]
fn recent_output_suggests_how_a_command_goes_on() {
    let branches = output(&["main", "* fix", "MAIN"]);
    let suggested = |input: &str, context: &Option<OutputSuggestionContext>| {
        collect_context_command_templates(input, context, &begins, &lines_of, &place_of)
    };
    let templates = suggested(" Git Checkout \n", &branches).unwrap();
    let listed: Vec<&str> = templates.iter().map(|t| t.command.as_str()).collect();
    assert_eq!(listed, vec!["git checkout fix", "git checkout main"]);
    assert_eq!(templates[0].detail, "GitBranch in /srv");
    let pods = suggested("kubectl logs api", &output(&["api-1"])).unwrap();
    assert_eq!(pods[0].command, "kubectl logs api-1");
    assert_eq!(pods[0].detail, "KubernetesPod in /srv");
    assert!(suggested("ls", &branches).is_none());
    assert!(suggested("git checkout", &None).is_none());
    assert!(suggested("git checkout", &output(&[])).is_none());
    assert!(suggested("git checkout\nls", &branches).is_none());
    assert!(suggested("  ", &branches).is_none());

    let completed = collect_context_autocomplete_candidates(
        "git checkout ma",
        &branches,
        &begins,
        &lines_of,
        &place_of,
        &part_of,
    )
    .unwrap();
    assert_eq!(commands(&completed), vec!["git checkout main"]);
    assert_eq!(completed[0].source, AutocompleteSource::Context);
    assert!(collect_context_autocomplete_candidates(
        "git checkout zz",
        &branches,
        &begins,
        &lines_of,
        &place_of,
        &part_of,
    )
    .is_none());
}

fn folder() -> Option<PathSuggestionContext> {
    Some(PathSuggestionContext {
        current_path: Some("/srv/app".to_string()),
        parent_path: Some("/srv".to_string()),
        startup_directory: None,
        entries: vec![
            PathEntry {
                name: "src".to_string(),
                path: "/srv/app/src".to_string(),
                is_dir: true,
            },
            PathEntry {
                name: "notes".to_string(),
                path: "/srv/app/notes".to_string(),
                is_dir: false,
            },
        ],
    })
}

fn path_query(fragment: &str) -> Option<PathQuery> {
    Some(PathQuery { prefix: "cat ".to_string(), fragment: fragment.to_string() })
}

#[test]
fn matching_paths_complete_a_command() {
    let found = collect_path_autocomplete_candidates(
        path_query("s"),
        &folder(),
        &vec!["/tmp/x".to_string()],
        &part_of,
    )
    .unwrap();
    assert_eq!(
        commands(&found),
        vec!["cat src/", "cat notes", "cat /srv/app/", "cat /srv/"]
    );
    assert!(found.iter().all(|candidate| candidate.source == AutocompleteSource::Path));
    let none =
        collect_path_autocomplete_candidates(path_query("zz"), &folder(), &Vec::new(), &part_of);
    assert!(none.is_none());
    assert!(
        collect_path_autocomplete_candidates(None, &folder(), &Vec::new(), &part_of).is_none()
    );
}

#[test]
fn matching_arguments_complete_a_command() {
    let templates = || {
        vec![
            template("git checkout", AutocompleteSource::Argument, None),
            template("git commit", AutocompleteSource::Argument, None),
            template("docker ps", AutocompleteSource::Argument, None),
        ]
    };
    let found =
        collect_argument_autocomplete_candidates(" git C", templates(), &part_of).unwrap();
    assert_eq!(commands(&found), vec!["git checkout", "git commit"]);
    assert_eq!(found[0].source, AutocompleteSource::Argument);
    assert!(collect_argument_autocomplete_candidates("Git c", templates(), &part_of).is_none());
    assert!(collect_argument_autocomplete_candidates("git zz", templates(), &part_of).is_none());
    assert!(collect_argument_autocomplete_candidates("git\nc", templates(), &part_of).is_none());
}

#[test]
fn the_palette_lists_what_recent_output_suggests() {
    let mut sources = no_sources();
    sources.recent = vec![recent("git checkout main", None)];
    let found = collect_command_palette_candidates(
        "git checkout",
        sources,
        "here",
        &output(&["main", "* fix"]),
        &begins,
        &lines_of,
        &place_of,
        &part_of,
    );
    let listed: Vec<&str> = found.iter().map(|candidate| candidate.command.as_str()).collect();
    assert_eq!(listed, vec!["git checkout main", "git checkout fix"]);
    assert!(found.iter().all(|candidate| candidate.category == PaletteCategory::Commands));
}

#[test]
fn the_autocompletion_joins_paths_output_and_commands() {
    let mut sources = no_sources();
    sources.recent = vec![recent("git log -p", None), recent("ls", None)];
    sources.templates = vec![template("git log --oneline", AutocompleteSource::Argument, None)];
    let found = collect_autocomplete_candidates(
        "git log",
        sources,
        "here",
        Some(PathQuery { prefix: "git log ".to_string(), fragment: "s".to_string() }),
        &folder(),
        &Vec::new(),
        &output(&["* fix"]),
        &priorities(),
        &begins,
        &lines_of,
        &place_of,
        &part_of,
        &part_of,
    );
    assert_eq!(
        commands(&found),
        vec![
            "git log src/",
            "git log notes",
            "git log /srv/app/",
            "git log /srv/",
            "git log --oneline",
            "git log fix",
        ]
    );
}

#[test]
fn a_search_result_keeps_what_it_opens() {
    let session = SearchAction::OpenSession(HostedSessionId { value: 4 });
    let project =
        SearchAction::OpenDocument { category: PaletteCategory::Projects, document: 4 };
    assert_ne!(PaletteAction::Search(session), PaletteAction::Search(project));
    let shown = candidate(PaletteCategory::Sessions, PaletteAction::Search(session));
    assert_eq!(shown.action, PaletteAction::Search(session));
}
