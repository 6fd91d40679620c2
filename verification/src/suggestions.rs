//! Suggestions from what was typed: the pieces of the palette and of the
//! autocompletion put together. What is known only outside (how well texts
//! match, whether a command was begun, which names recent output holds) is asked
//! of functions that are handed in.
use vstd::prelude::*;

use crate::lists;
use crate::matching;
use crate::matching::{judge_list, normalized_query};
use crate::palette;
use crate::palette::{
    candidates_of_arguments, candidates_of_paths, candidates_of_templates, completions_with_parts,
    context_family, context_query, palette_candidates_with_context, path_proposals,
    templates_of_targets, AutocompleteCandidate, AutocompleteCandidateView, CommandMatches,
    CommandPaletteCandidate, CommandSources, CommandTemplate, ContextCommandTemplate,
    ContextFamily, ContextTarget, FoundTarget, OutputSuggestionContext, PathProposal,
    PathProposalView, PathQuery, PathSuggestionContext, SourcePriorities,
};
use crate::text;

verus! {

/// `begins` was asked whether a query is a command or begins with it.
pub open spec fn answered<B: Fn(&str, &str) -> bool>(
    begins: B,
    query: Seq<char>,
    command: Seq<char>,
    answer: bool,
) -> bool {
    exists|q: &str, c: &str| #[trigger] begins.ensures((q, c), answer) && q@ == query && c@ == command
}

/// `begins` was asked about every command that takes a target.
pub open spec fn commands_answered<B: Fn(&str, &str) -> bool>(
    begins: B,
    query: Seq<char>,
    matches: CommandMatches,
) -> bool {
    &&& answered(begins, query, "git checkout"@, matches.git_checkout)
    &&& answered(begins, query, "git switch"@, matches.git_switch)
    &&& answered(begins, query, "git diff"@, matches.git_diff)
    &&& answered(begins, query, "git log"@, matches.git_log)
    &&& answered(begins, query, "docker logs"@, matches.docker_logs)
    &&& answered(begins, query, "docker inspect"@, matches.docker_inspect)
    &&& answered(begins, query, "docker stop"@, matches.docker_stop)
    &&& answered(begins, query, "docker restart"@, matches.docker_restart)
    &&& answered(begins, query, "docker rm"@, matches.docker_rm)
    &&& answered(begins, query, "docker exec -it"@, matches.docker_exec)
    &&& answered(begins, query, "kubectl logs"@, matches.kubectl_logs)
    &&& answered(begins, query, "kubectl describe pod"@, matches.kubectl_describe_pod)
    &&& answered(begins, query, "kubectl exec -it"@, matches.kubectl_exec)
    &&& answered(begins, query, "systemctl status"@, matches.systemctl_status)
    &&& answered(begins, query, "systemctl restart"@, matches.systemctl_restart)
    &&& answered(begins, query, "systemctl reload"@, matches.systemctl_reload)
    &&& answered(begins, query, "journalctl -u"@, matches.journalctl)
    &&& answered(begins, query, "journalctl -f -u"@, matches.journalctl_follow)
}

/// Which commands that take a target were typed or begun.
pub fn command_matches<B: Fn(&str, &str) -> bool>(query: &str, begins: &B) -> (r: CommandMatches)
    requires
        forall|q: &str, c: &str| #[trigger] begins.requires((q, c)),
    ensures
        commands_answered(*begins, query@, r),
{
    CommandMatches {
        git_checkout: begins(query, "git checkout"),
        git_switch: begins(query, "git switch"),
        git_diff: begins(query, "git diff"),
        git_log: begins(query, "git log"),
        docker_logs: begins(query, "docker logs"),
        docker_inspect: begins(query, "docker inspect"),
        docker_stop: begins(query, "docker stop"),
        docker_restart: begins(query, "docker restart"),
        docker_rm: begins(query, "docker rm"),
        docker_exec: begins(query, "docker exec -it"),
        kubectl_logs: begins(query, "kubectl logs"),
        kubectl_describe_pod: begins(query, "kubectl describe pod"),
        kubectl_exec: begins(query, "kubectl exec -it"),
        systemctl_status: begins(query, "systemctl status"),
        systemctl_restart: begins(query, "systemctl restart"),
        systemctl_reload: begins(query, "systemctl reload"),
        journalctl: begins(query, "journalctl -u"),
        journalctl_follow: begins(query, "journalctl -f -u"),
    }
}

/// The commands are those that the targets found in recent output give for a
/// family; nothing where none was found.
pub open spec fn are_of_family<
    X: Fn(ContextTarget, &OutputSuggestionContext) -> Vec<FoundTarget>,
    D: Fn(ContextTarget, &Option<String>) -> String,
>(
    r: Option<Vec<ContextCommandTemplate>>,
    family: ContextFamily,
    context: OutputSuggestionContext,
    extract: X,
    explain: D,
) -> bool {
    exists|targets: Vec<FoundTarget>, detail: String|
        {
            &&& #[trigger] extract.ensures((family.target, &context), targets)
            &&& #[trigger] explain.ensures((family.target, &context.current_path), detail)
            &&& if targets@.len() == 0 {
                r is None
            } else {
                r is Some && palette::seen_templates((r->0)@) == palette::context_commands(
                    family.prefix@,
                    targets@,
                    detail@,
                )
            }
        }
}

/// The commands that recent output suggests for an input: none without output,
/// for blank input, for several lines, or where no command that takes a target
/// was begun.
pub open spec fn suggested_by_output<
    B: Fn(&str, &str) -> bool,
    X: Fn(ContextTarget, &OutputSuggestionContext) -> Vec<FoundTarget>,
    D: Fn(ContextTarget, &Option<String>) -> String,
>(
    r: Option<Vec<ContextCommandTemplate>>,
    input: Seq<char>,
    context: Option<OutputSuggestionContext>,
    begins: B,
    extract: X,
    explain: D,
) -> bool {
    match palette::context_query_of(input, context) {
        None => r is None,
        Some(query) => exists|matches: CommandMatches|
            {
                &&& #[trigger] commands_answered(begins, query, matches)
                &&& match palette::family_of(matches) {
                    None => r is None,
                    Some(family) => are_of_family(r, family, context->0, extract, explain),
                }
            },
    }
}

/// The commands that recent output suggests for an input, not yet matched against
/// it. `begins` says whether the query begins with a command, `extract` finds
/// names in the output, `explain` describes them.
pub fn collect_context_command_templates<
    B: Fn(&str, &str) -> bool,
    X: Fn(ContextTarget, &OutputSuggestionContext) -> Vec<FoundTarget>,
    D: Fn(ContextTarget, &Option<String>) -> String,
>(
    input: &str,
    context: &Option<OutputSuggestionContext>,
    begins: &B,
    extract: &X,
    explain: &D,
) -> (r: Option<Vec<ContextCommandTemplate>>)
    requires
        forall|q: &str, c: &str| #[trigger] begins.requires((q, c)),
        forall|t: ContextTarget, c: &OutputSuggestionContext| #[trigger] extract.requires((t, c)),
        forall|t: ContextTarget, p: &Option<String>| #[trigger] explain.requires((t, p)),
    ensures
        suggested_by_output(r, input@, *context, *begins, *extract, *explain),
{
    let query: String = match context_query(input, context) {
        Some(query) => query,
        None => {
            return None;
        },
    };
    let output: &OutputSuggestionContext = match context {
        Some(output) => output,
        None => {
            return None;
        },
    };
    let matches: CommandMatches = command_matches(query.as_str(), begins);
    assert(commands_answered(*begins, palette::context_query_of(input@, *context)->0, matches));
    match context_family(matches) {
        None => None,
        Some(family) => {
            let targets: Vec<FoundTarget> = extract(family.target, output);
            let detail: String = explain(family.target, &output.current_path);
            let r: Option<Vec<ContextCommandTemplate>> = templates_of_targets(
                Some(family),
                &targets,
                detail.as_str(),
            );
            assert(are_of_family(r, family, *output, *extract, *explain));
            r
        },
    }
}

/// Commands that recent output suggests are never an empty list; no two differ
/// in case only; all begin with the command that was begun; and they are ordered
/// by rank, then by where they were found.
pub proof fn law_output_suggestions_are_ranked(
    prefix: Seq<char>,
    targets: Seq<FoundTarget>,
    detail: Seq<char>,
)
    requires
        targets.len() > 0,
    ensures
        ({
            let list = palette::context_commands(prefix, targets, detail);
            &&& list.len() > 0
            &&& forall|i: int, j: int|
                0 <= i < j < list.len() ==> text::lowered((#[trigger] list[i]).command)
                    != text::lowered((#[trigger] list[j]).command)
            &&& forall|i: int|
                0 <= i < list.len() ==> text::begins_with((#[trigger] list[i]).command, prefix)
            &&& forall|i: int, j: int|
                0 <= i < j < list.len() ==> (#[trigger] list[i]).rank <= (#[trigger] list[j]).rank
            &&& forall|i: int, j: int|
                0 <= i < j < list.len() && (#[trigger] list[i]).rank == (#[trigger] list[j]).rank
                    ==> list[i].ordinal <= list[j].ordinal
        }),
{
    palette::lemma_context_commands(prefix, targets, detail);
}

/// Whatever recent output suggests goes on with a command that the input is or
/// begins with: the suggestion begins with that command and a blank.
pub proof fn law_output_suggestions_continue_the_input<
    B: Fn(&str, &str) -> bool,
    X: Fn(ContextTarget, &OutputSuggestionContext) -> Vec<FoundTarget>,
    D: Fn(ContextTarget, &Option<String>) -> String,
>(
    r: Option<Vec<ContextCommandTemplate>>,
    input: Seq<char>,
    context: Option<OutputSuggestionContext>,
    begins: B,
    extract: X,
    explain: D,
    i: int,
)
    requires
        suggested_by_output(r, input, context, begins, extract, explain),
        r is Some,
        0 <= i < (r->0)@.len(),
    ensures
        ({
            let query = palette::context_query_of(input, context)->0;
            let command = (r->0)@[i].command@;
            ||| text::begins_with(command, "git checkout "@) && answered(begins, query, "git checkout"@, true)
            ||| text::begins_with(command, "git switch "@) && answered(begins, query, "git switch"@, true)
            ||| text::begins_with(command, "git diff "@) && answered(begins, query, "git diff"@, true)
            ||| text::begins_with(command, "git log "@) && answered(begins, query, "git log"@, true)
            ||| text::begins_with(command, "docker logs "@) && answered(begins, query, "docker logs"@, true)
            ||| text::begins_with(command, "docker inspect "@) && answered(begins, query, "docker inspect"@, true)
            ||| text::begins_with(command, "docker stop "@) && answered(begins, query, "docker stop"@, true)
            ||| text::begins_with(command, "docker restart "@) && answered(begins, query, "docker restart"@, true)
            ||| text::begins_with(command, "docker rm "@) && answered(begins, query, "docker rm"@, true)
            ||| text::begins_with(command, "docker exec -it "@) && answered(begins, query, "docker exec -it"@, true)
            ||| text::begins_with(command, "kubectl logs "@) && answered(begins, query, "kubectl logs"@, true)
            ||| text::begins_with(command, "kubectl describe pod "@) && answered(begins, query, "kubectl describe pod"@, true)
            ||| text::begins_with(command, "kubectl exec -it "@) && answered(begins, query, "kubectl exec -it"@, true)
            ||| text::begins_with(command, "systemctl status "@) && answered(begins, query, "systemctl status"@, true)
            ||| text::begins_with(command, "systemctl restart "@) && answered(begins, query, "systemctl restart"@, true)
            ||| text::begins_with(command, "systemctl reload "@) && answered(begins, query, "systemctl reload"@, true)
            ||| text::begins_with(command, "journalctl -u "@) && answered(begins, query, "journalctl -u"@, true)
            ||| text::begins_with(command, "journalctl -f -u "@) && answered(begins, query, "journalctl -f -u"@, true)
        }),
{
    let query = palette::context_query_of(input, context)->0;
    let matches = choose|matches: CommandMatches|
        {
            &&& #[trigger] commands_answered(begins, query, matches)
            &&& match palette::family_of(matches) {
                None => r is None,
                Some(family) => are_of_family(r, family, context->0, extract, explain),
            }
        };
    let family = palette::family_of(matches)->0;
    let (targets, detail) = choose|targets: Vec<FoundTarget>, detail: String|
        {
            &&& #[trigger] extract.ensures((family.target, &context->0), targets)
            &&& #[trigger] explain.ensures((family.target, &context->0.current_path), detail)
            &&& if targets@.len() == 0 {
                r is None
            } else {
                r is Some && palette::seen_templates((r->0)@) == palette::context_commands(
                    family.prefix@,
                    targets@,
                    detail@,
                )
            }
        };
    law_output_suggestions_are_ranked(family.prefix@, targets@, detail@);
    let list = palette::context_commands(family.prefix@, targets@, detail@);
    assert(palette::seen_templates((r->0)@)[i] == list[i]);
    assert(text::begins_with(list[i].command, family.prefix@));
    palette::law_completed_commands_were_begun(matches);
    reveal_strlit("git checkout");
    reveal_strlit("git checkout ");
    reveal_strlit("git switch");
    reveal_strlit("git switch ");
    reveal_strlit("git diff");
    reveal_strlit("git diff ");
    reveal_strlit("git log");
    reveal_strlit("git log ");
    reveal_strlit("docker logs");
    reveal_strlit("docker logs ");
    reveal_strlit("docker inspect");
    reveal_strlit("docker inspect ");
    reveal_strlit("docker stop");
    reveal_strlit("docker stop ");
    reveal_strlit("docker restart");
    reveal_strlit("docker restart ");
    reveal_strlit("docker rm");
    reveal_strlit("docker rm ");
    reveal_strlit("docker exec -it");
    reveal_strlit("docker exec -it ");
    reveal_strlit("kubectl logs");
    reveal_strlit("kubectl logs ");
    reveal_strlit("kubectl describe pod");
    reveal_strlit("kubectl describe pod ");
    reveal_strlit("kubectl exec -it");
    reveal_strlit("kubectl exec -it ");
    reveal_strlit("systemctl status");
    reveal_strlit("systemctl status ");
    reveal_strlit("systemctl restart");
    reveal_strlit("systemctl restart ");
    reveal_strlit("systemctl reload");
    reveal_strlit("systemctl reload ");
    reveal_strlit("journalctl -u");
    reveal_strlit("journalctl -u ");
    reveal_strlit("journalctl -f -u");
    reveal_strlit("journalctl -f -u ");
    reveal_strlit(" ");
    assert("git checkout "@ =~= "git checkout"@ + " "@);
    assert("git switch "@ =~= "git switch"@ + " "@);
    assert("git diff "@ =~= "git diff"@ + " "@);
    assert("git log "@ =~= "git log"@ + " "@);
    assert("docker logs "@ =~= "docker logs"@ + " "@);
    assert("docker inspect "@ =~= "docker inspect"@ + " "@);
    assert("docker stop "@ =~= "docker stop"@ + " "@);
    assert("docker restart "@ =~= "docker restart"@ + " "@);
    assert("docker rm "@ =~= "docker rm"@ + " "@);
    assert("docker exec -it "@ =~= "docker exec -it"@ + " "@);
    assert("kubectl logs "@ =~= "kubectl logs"@ + " "@);
    assert("kubectl describe pod "@ =~= "kubectl describe pod"@ + " "@);
    assert("kubectl exec -it "@ =~= "kubectl exec -it"@ + " "@);
    assert("systemctl status "@ =~= "systemctl status"@ + " "@);
    assert("systemctl restart "@ =~= "systemctl restart"@ + " "@);
    assert("systemctl reload "@ =~= "systemctl reload"@ + " "@);
    assert("journalctl -u "@ =~= "journalctl -u"@ + " "@);
    assert("journalctl -f -u "@ =~= "journalctl -f -u"@ + " "@);
}

/// The candidates are those of the suggested commands that the matcher lets
/// through.
pub open spec fn completes_from_output<
    B: Fn(&str, &str) -> bool,
    X: Fn(ContextTarget, &OutputSuggestionContext) -> Vec<FoundTarget>,
    D: Fn(ContextTarget, &Option<String>) -> String,
    F: Fn(&str, &Vec<String>) -> Option<u8>,
>(
    r: Option<Vec<AutocompleteCandidate>>,
    input: Seq<char>,
    context: Option<OutputSuggestionContext>,
    begins: B,
    extract: X,
    explain: D,
    matcher: F,
) -> bool {
    exists|found: Option<Vec<ContextCommandTemplate>>|
        {
            &&& #[trigger] suggested_by_output(found, input, context, begins, extract, explain)
            &&& match found {
                None => r is None,
                Some(list) => exists|judged: Vec<ContextCommandTemplate>|
                    {
                        &&& #[trigger] matching::list_answered(
                            matcher,
                            matching::normalized(input),
                            list@,
                            false,
                            judged@,
                        )
                        &&& palette::seen_list(r) == palette::some_suggestions(
                            palette::choice(
                                Seq::new(
                                    judged@.len(),
                                    |i: int| palette::context_completion(judged@[i]),
                                ),
                                false,
                                palette::AUTOCOMPLETE_LIMIT as int,
                            ),
                        )
                    },
            }
        }
}

/// The commands from recent output that complete what was typed.
pub fn collect_context_autocomplete_candidates<
    B: Fn(&str, &str) -> bool,
    X: Fn(ContextTarget, &OutputSuggestionContext) -> Vec<FoundTarget>,
    D: Fn(ContextTarget, &Option<String>) -> String,
    F: Fn(&str, &Vec<String>) -> Option<u8>,
>(
    input: &str,
    context: &Option<OutputSuggestionContext>,
    begins: &B,
    extract: &X,
    explain: &D,
    matcher: &F,
) -> (r: Option<Vec<AutocompleteCandidate>>)
    requires
        forall|q: &str, c: &str| #[trigger] begins.requires((q, c)),
        forall|t: ContextTarget, c: &OutputSuggestionContext| #[trigger] extract.requires((t, c)),
        forall|t: ContextTarget, p: &Option<String>| #[trigger] explain.requires((t, p)),
        forall|q: &str, list: &Vec<String>| #[trigger] matcher.requires((q, list)),
    ensures
        completes_from_output(r, input@, *context, *begins, *extract, *explain, *matcher),
        given_limit(r),
{
    let found: Option<Vec<ContextCommandTemplate>> = collect_context_command_templates(
        input,
        context,
        begins,
        extract,
        explain,
    );
    let ghost seen = found;
    match found {
        None => {
            assert(suggested_by_output(seen, input@, *context, *begins, *extract, *explain));
            None
        },
        Some(list) => {
            let judged: Vec<ContextCommandTemplate> = judge_list(
                list,
                normalized_query(input).as_str(),
                false,
                matcher,
            );
            let held: Option<Vec<ContextCommandTemplate>> = Some(judged);
            let r: Option<Vec<AutocompleteCandidate>> = candidates_of_templates(&held);
            proof {
                assert(suggested_by_output(seen, input@, *context, *begins, *extract, *explain));
                assert(matching::list_answered(
                    *matcher,
                    matching::normalized(input@),
                    list@,
                    false,
                    (held->0)@,
                ));
                lemma_limited(r);
            }
            r
        },
    }
}

/// No list of suggestions is longer than the limit.
pub open spec fn given_limit(r: Option<Vec<AutocompleteCandidate>>) -> bool {
    r matches Some(list) ==> list@.len() <= palette::AUTOCOMPLETE_LIMIT
}

proof fn lemma_limited(r: Option<Vec<AutocompleteCandidate>>)
    requires
        exists|proposals: Seq<palette::ProposalView>, distinct: bool|
            palette::seen_list(r) == palette::some_suggestions(
                #[trigger] palette::choice(
                    proposals,
                    distinct,
                    palette::AUTOCOMPLETE_LIMIT as int,
                ),
            ),
    ensures
        given_limit(r),
{
    if r is Some {
        assert(palette::seen_candidates((r->0)@).len() == (r->0)@.len());
    }
}

/// The commands end in paths that the matcher lets through.
pub open spec fn completes_paths<F: Fn(&str, &Vec<String>) -> Option<u8>>(
    r: Option<Vec<AutocompleteCandidate>>,
    query: Option<PathQuery>,
    context: Option<PathSuggestionContext>,
    recent: Seq<String>,
    matcher: F,
) -> bool {
    match query {
        None => r is None,
        Some(q) => exists|paths: Vec<PathProposal>, judged: Vec<PathProposal>|
            {
                &&& palette::seen_paths(paths@) == palette::all_paths(q.fragment@, context, recent)
                &&& #[trigger] matching::list_answered(
                    matcher,
                    q.fragment@,
                    paths@,
                    true,
                    judged@,
                )
                &&& palette::seen_list(r) == palette::some_suggestions(
                    palette::choice(
                        Seq::new(
                            judged@.len(),
                            |i: int| palette::path_completion(judged@[i]@, q.prefix@, i),
                        ),
                        true,
                        palette::AUTOCOMPLETE_LIMIT as int,
                    ),
                )
            },
    }
}

/// A path with the verdict of a rule on it.
pub open spec fn judged_path(
    path: PathProposalView,
    fragment: Seq<char>,
    rule: matching::Rule,
) -> PathProposalView {
    PathProposalView { match_kind: rule(fragment, seq![path.path]), ..path }
}

/// What completes a path, where paths are matched by a rule.
pub open spec fn path_list(
    query: PathQuery,
    context: Option<PathSuggestionContext>,
    recent: Seq<String>,
    rule: matching::Rule,
) -> Option<Seq<AutocompleteCandidateView>> {
    let paths = palette::all_paths(query.fragment@, context, recent);
    palette::some_suggestions(
        palette::choice(
            Seq::new(
                paths.len(),
                |i: int|
                    palette::path_completion(
                        judged_path(paths[i], query.fragment@, rule),
                        query.prefix@,
                        i,
                    ),
            ),
            true,
            palette::AUTOCOMPLETE_LIMIT as int,
        ),
    )
}

/// The commands that end in a path which completes the typed one; nothing where
/// what was typed does not end in a path. `recent` are the paths of earlier
/// commands and snippets, `matcher` says how well a fragment matches a path.
pub fn collect_path_autocomplete_candidates<F: Fn(&str, &Vec<String>) -> Option<u8>>(
    query: Option<PathQuery>,
    context: &Option<PathSuggestionContext>,
    recent: &Vec<String>,
    matcher: &F,
) -> (r: Option<Vec<AutocompleteCandidate>>)
    requires
        forall|q: &str, list: &Vec<String>| #[trigger] matcher.requires((q, list)),
    ensures
        completes_paths(r, query, *context, recent@, *matcher),
        forall|rule: matching::Rule| #[trigger]
            matching::follows(*matcher, rule) ==> palette::seen_list(r) == match query {
                None => None,
                Some(q) => path_list(q, *context, recent@, rule),
            },
        given_limit(r),
{
    match query {
        None => None,
        Some(q) => {
            let ghost typed = q;
            let paths: Vec<PathProposal> = path_proposals(&q, context, recent);
            let ghost all = paths@;
            let ghost given_paths = paths;
            let judged: Vec<PathProposal> = judge_list(paths, q.fragment.as_str(), true, matcher);
            let ghost done = judged@;
            let ghost given_judged = judged;
            let r: Option<Vec<AutocompleteCandidate>> = candidates_of_paths(Some(q), judged);
            proof {
                assert(matching::list_answered(
                    *matcher,
                    typed.fragment@,
                    given_paths@,
                    true,
                    given_judged@,
                ));
                assert(completes_paths(r, Some(typed), *context, recent@, *matcher));
                lemma_limited(r);
                assert forall|rule: matching::Rule| #[trigger]
                    matching::follows(*matcher, rule) implies palette::seen_list(r) == path_list(
                    typed,
                    *context,
                    recent@,
                    rule,
                ) by {
                    matching::lemma_answers_follow(*matcher, typed.fragment@, all, true, done, rule);
                    let seen = palette::all_paths(typed.fragment@, *context, recent@);
                    assert forall|i: int| 0 <= i < all.len() implies (#[trigger] done[i])@
                        == judged_path(seen[i], typed.fragment@, rule) by {
                        assert(palette::seen_paths(all)[i] == all[i]@);
                    }
                    assert(Seq::new(
                        done.len(),
                        |i: int| palette::path_completion(done[i]@, typed.prefix@, i),
                    ) =~= Seq::new(
                        seen.len(),
                        |i: int|
                            palette::path_completion(
                                judged_path(seen[i], typed.fragment@, rule),
                                typed.prefix@,
                                i,
                            ),
                    ));
                }
            }
            r
        },
    }
}

/// What goes on with a command, of templates that were already matched.
pub open spec fn argument_list(
    input: Seq<char>,
    templates: Seq<CommandTemplate>,
) -> Option<Seq<AutocompleteCandidateView>> {
    if palette::arguments_apply(input, templates) {
        palette::some_suggestions(
            palette::choice(
                lists::kept(templates, palette::offers_argument(text::trimmed(input))).map_values(
                    |t: CommandTemplate| palette::argument_completion(t),
                ),
                true,
                palette::AUTOCOMPLETE_LIMIT as int,
            ),
        )
    } else {
        None
    }
}

/// The candidates are the known ways to go on that the matcher lets through.
pub open spec fn completes_arguments<F: Fn(&str, &Vec<String>) -> Option<u8>>(
    r: Option<Vec<AutocompleteCandidate>>,
    input: Seq<char>,
    templates: Seq<CommandTemplate>,
    matcher: F,
) -> bool {
    exists|judged: Vec<CommandTemplate>|
        {
            &&& #[trigger] matching::list_answered(
                matcher,
                matching::normalized(input),
                templates,
                false,
                judged@,
            )
            &&& palette::seen_list(r) == argument_list(input, judged@)
        }
}

/// The known ways to go on with the command that was begun.
pub fn collect_argument_autocomplete_candidates<F: Fn(&str, &Vec<String>) -> Option<u8>>(
    input: &str,
    templates: Vec<CommandTemplate>,
    matcher: &F,
) -> (r: Option<Vec<AutocompleteCandidate>>)
    requires
        forall|q: &str, list: &Vec<String>| #[trigger] matcher.requires((q, list)),
    ensures
        completes_arguments(r, input@, templates@, *matcher),
        forall|rule: matching::Rule| #[trigger]
            matching::follows(*matcher, rule) ==> palette::seen_list(r) == argument_list(
                input@,
                matching::judged(templates@, matching::normalized(input@), false, rule),
            ),
        given_limit(r),
{
    let ghost before = templates@;
    let judged: Vec<CommandTemplate> = judge_list(
        templates,
        normalized_query(input).as_str(),
        false,
        matcher,
    );
    let r: Option<Vec<AutocompleteCandidate>> = candidates_of_arguments(input, &judged);
    proof {
        if palette::arguments_apply(input@, judged@) {
            lemma_limited(r);
        }
        assert(matching::list_answered(
            *matcher,
            matching::normalized(input@),
            before,
            false,
            judged@,
        ));
        assert forall|rule: matching::Rule| #[trigger]
            matching::follows(*matcher, rule) implies palette::seen_list(r) == argument_list(
            input@,
            matching::judged(before, matching::normalized(input@), false, rule),
        ) by {
            matching::lemma_answers_follow(
                *matcher,
                matching::normalized(input@),
                before,
                false,
                judged@,
                rule,
            );
        }
    }
    r
}

/// The commands that were found, none where nothing was.
pub open spec fn found_list(found: Option<Vec<ContextCommandTemplate>>) -> Seq<
    ContextCommandTemplate,
> {
    match found {
        Some(list) => list@,
        None => Seq::empty(),
    }
}

/// The palette shows the matching commands of the sources and of a list that
/// recent output suggests.
pub open spec fn shows_palette<F: Fn(&str, &Vec<String>) -> Option<u8>>(
    r: Seq<CommandPaletteCandidate>,
    query: Seq<char>,
    sources: CommandSources,
    scope_key: Seq<char>,
    context: Seq<ContextCommandTemplate>,
    matcher: F,
) -> bool {
    &&& exists|judged: CommandSources, suggested: Vec<ContextCommandTemplate>|
        {
            &&& #[trigger] matching::sources_answered(
                matcher,
                matching::normalized(query),
                sources,
                true,
                judged,
            )
            &&& #[trigger] matching::list_answered(
                matcher,
                matching::normalized(query),
                context,
                true,
                suggested@,
            )
            &&& palette::seen_results(r) == palette::command_results(
                palette::choice(
                    palette::palette_proposals(judged, scope_key, suggested@),
                    true,
                    palette::PALETTE_LIMIT as int,
                ),
            )
        }
    &&& forall|rule: matching::Rule| #[trigger]
        matching::follows(matcher, rule) ==> palette::seen_results(r) == palette::palette_list(
            query,
            sources.scoped@,
            sources.recent@,
            sources.snippets@,
            context,
            sources.templates@,
            scope_key,
            rule,
        )
}

/// The commands that the palette shows for a query: those of the sources, and
/// those that recent output suggests for the query without case and outer blanks.
pub fn collect_command_palette_candidates<
    B: Fn(&str, &str) -> bool,
    X: Fn(ContextTarget, &OutputSuggestionContext) -> Vec<FoundTarget>,
    D: Fn(ContextTarget, &Option<String>) -> String,
    F: Fn(&str, &Vec<String>) -> Option<u8>,
>(
    query: &str,
    sources: CommandSources,
    scope_key: &str,
    output: &Option<OutputSuggestionContext>,
    begins: &B,
    extract: &X,
    explain: &D,
    matcher: &F,
) -> (r: Vec<CommandPaletteCandidate>)
    requires
        forall|q: &str, c: &str| #[trigger] begins.requires((q, c)),
        forall|t: ContextTarget, c: &OutputSuggestionContext| #[trigger] extract.requires((t, c)),
        forall|t: ContextTarget, p: &Option<String>| #[trigger] explain.requires((t, p)),
        forall|q: &str, list: &Vec<String>| #[trigger] matcher.requires((q, list)),
    ensures
        exists|found: Option<Vec<ContextCommandTemplate>>|
            {
                &&& #[trigger] suggested_by_output(
                    found,
                    matching::normalized(query@),
                    *output,
                    *begins,
                    *extract,
                    *explain,
                )
                &&& shows_palette(
                    r@,
                    query@,
                    sources,
                    scope_key@,
                    found_list(found),
                    *matcher,
                )
            },
{
    let plain: String = normalized_query(query);
    let found: Option<Vec<ContextCommandTemplate>> = collect_context_command_templates(
        plain.as_str(),
        output,
        begins,
        extract,
        explain,
    );
    let ghost seen = found;
    let context: Vec<ContextCommandTemplate> = match found {
        Some(list) => list,
        None => Vec::new(),
    };
    assert(context@ =~= found_list(seen));
    let r: Vec<CommandPaletteCandidate> = palette_candidates_with_context(
        query,
        sources,
        scope_key,
        context,
        matcher,
    );
    assert(suggested_by_output(
        seen,
        matching::normalized(query@),
        *output,
        *begins,
        *extract,
        *explain,
    ));
    r
}

fn duplicate_templates(list: &Vec<CommandTemplate>) -> (r: Vec<CommandTemplate>)
    ensures
        r@ == list@,
{
    let mut r: Vec<CommandTemplate> = Vec::new();
    let mut i: usize = 0;
    while i < list.len()
        invariant
            i <= list@.len(),
            r@ =~= list@.take(i as int),
        decreases list@.len() - i,
    {
        let template = &list[i];
        r.push(
            CommandTemplate {
                command: template.command.clone(),
                detail: template.detail.clone(),
                source: template.source,
                match_kind: template.match_kind,
            },
        );
        i += 1;
    }
    assert(list@.take(list@.len() as int) =~= list@);
    r
}

/// What was typed is completed by the matching commands of the sources, given the
/// other parts.
pub open spec fn completes_commands<F: Fn(&str, &Vec<String>) -> Option<u8>>(
    r: Seq<AutocompleteCandidate>,
    input: Seq<char>,
    sources: CommandSources,
    scope_key: Seq<char>,
    paths: Option<Vec<AutocompleteCandidate>>,
    context: Option<Vec<AutocompleteCandidate>>,
    arguments: Option<Vec<AutocompleteCandidate>>,
    priorities: SourcePriorities,
    matcher: F,
) -> bool {
    &&& exists|judged: CommandSources|
        {
            &&& #[trigger] matching::sources_answered(
                matcher,
                matching::normalized(input),
                sources,
                false,
                judged,
            )
            &&& palette::seen_candidates(r) == palette::suggestions(
                palette::choice(
                    palette::completion_proposals(
                        judged,
                        scope_key,
                        paths,
                        context,
                        arguments,
                        priorities,
                    ),
                    true,
                    palette::AUTOCOMPLETE_LIMIT as int,
                ),
            )
        }
    &&& forall|rule: matching::Rule| #[trigger]
        matching::follows(matcher, rule) ==> palette::seen_candidates(r)
            == palette::completion_list(
            input,
            sources,
            scope_key,
            paths,
            context,
            arguments,
            priorities,
            rule,
        )
}

/// The commands that complete what was typed: nothing for blank input, else the
/// best of the paths, of what recent output suggests, of the arguments and of the
/// sources.
pub fn collect_autocomplete_candidates<
    B: Fn(&str, &str) -> bool,
    X: Fn(ContextTarget, &OutputSuggestionContext) -> Vec<FoundTarget>,
    D: Fn(ContextTarget, &Option<String>) -> String,
    F: Fn(&str, &Vec<String>) -> Option<u8>,
    P: Fn(&str, &Vec<String>) -> Option<u8>,
>(
    input: &str,
    sources: CommandSources,
    scope_key: &str,
    path_query: Option<PathQuery>,
    path_context: &Option<PathSuggestionContext>,
    recent_paths: &Vec<String>,
    output: &Option<OutputSuggestionContext>,
    priorities: &SourcePriorities,
    begins: &B,
    extract: &X,
    explain: &D,
    matcher: &F,
    path_matcher: &P,
) -> (r: Vec<AutocompleteCandidate>)
    requires
        sources.scoped@.len() + sources.recent@.len() + sources.snippets@.len()
            + sources.templates@.len() <= usize::MAX,
        forall|q: &str, c: &str| #[trigger] begins.requires((q, c)),
        forall|t: ContextTarget, c: &OutputSuggestionContext| #[trigger] extract.requires((t, c)),
        forall|t: ContextTarget, p: &Option<String>| #[trigger] explain.requires((t, p)),
        forall|q: &str, list: &Vec<String>| #[trigger] matcher.requires((q, list)),
        forall|q: &str, list: &Vec<String>| #[trigger] path_matcher.requires((q, list)),
    ensures
        text::blank(input@) ==> r@.len() == 0,
        !text::blank(input@) ==> exists|
            paths: Option<Vec<AutocompleteCandidate>>,
            context: Option<Vec<AutocompleteCandidate>>,
            arguments: Option<Vec<AutocompleteCandidate>>,
        |
            {
                &&& #[trigger] completes_paths(
                    paths,
                    path_query,
                    *path_context,
                    recent_paths@,
                    *path_matcher,
                )
                &&& #[trigger] completes_from_output(
                    context,
                    input@,
                    *output,
                    *begins,
                    *extract,
                    *explain,
                    *matcher,
                )
                &&& #[trigger] completes_arguments(arguments, input@, sources.templates@, *matcher)
                &&& completes_commands(
                    r@,
                    input@,
                    sources,
                    scope_key@,
                    paths,
                    context,
                    arguments,
                    *priorities,
                    *matcher,
                )
            },
{
    if text::is_blank(input) {
        return Vec::new();
    }
    let paths: Option<Vec<AutocompleteCandidate>> = collect_path_autocomplete_candidates(
        path_query,
        path_context,
        recent_paths,
        path_matcher,
    );
    let context: Option<Vec<AutocompleteCandidate>> = collect_context_autocomplete_candidates(
        input,
        output,
        begins,
        extract,
        explain,
        matcher,
    );
    let arguments: Option<Vec<AutocompleteCandidate>> = collect_argument_autocomplete_candidates(
        input,
        duplicate_templates(&sources.templates),
        matcher,
    );
    let ghost parts = (paths, context, arguments);
    let ghost before = sources;
    let r: Vec<AutocompleteCandidate> = completions_with_parts(
        input,
        sources,
        scope_key,
        paths,
        context,
        arguments,
        priorities,
        matcher,
    );
    proof {
        assert(completes_paths(parts.0, path_query, *path_context, recent_paths@, *path_matcher));
        assert(completes_from_output(
            parts.1,
            input@,
            *output,
            *begins,
            *extract,
            *explain,
            *matcher,
        ));
        assert(completes_arguments(parts.2, input@, before.templates@, *matcher));
        assert(completes_commands(
            r@,
            input@,
            before,
            scope_key@,
            parts.0,
            parts.1,
            parts.2,
            *priorities,
            *matcher,
        ));
    }
    r
}

/// Paths are judged by the fragment that was typed, and completed behind what
/// stands before it.
pub proof fn law_judged_paths_stay_what_they_are(
    path: PathProposalView,
    fragment: Seq<char>,
    rule: matching::Rule,
)
    ensures
        judged_path(path, fragment, rule).path == path.path,
        judged_path(path, fragment, rule).scope == path.scope,
        judged_path(path, fragment, rule).match_kind == rule(fragment, seq![path.path]),
{
}

/// Every path that is suggested is one that was proposed, behind the prefix, and
/// one that the rule lets pass.
pub proof fn law_suggested_paths_were_proposed(
    query: PathQuery,
    context: Option<PathSuggestionContext>,
    recent: Seq<String>,
    rule: matching::Rule,
    i: int,
)
    requires
        path_list(query, context, recent, rule) is Some,
        0 <= i < path_list(query, context, recent, rule)->0.len(),
    ensures
        ({
            let list = path_list(query, context, recent, rule)->0;
            let paths = palette::all_paths(query.fragment@, context, recent);
            &&& list.len() <= 6
            &&& list[i].source is Path
            &&& exists|k: int|
                0 <= k < paths.len() && list[i].command == query.prefix@ + (
                #[trigger] paths[k]).path && rule(query.fragment@, seq![paths[k].path]) is Some
        }),
{
    let paths = palette::all_paths(query.fragment@, context, recent);
    let proposals = Seq::new(
        paths.len(),
        |i: int|
            palette::path_completion(
                judged_path(paths[i], query.fragment@, rule),
                query.prefix@,
                i,
            ),
    );
    palette::law_only_fitting_proposals_are_suggested(
        proposals,
        true,
        palette::AUTOCOMPLETE_LIMIT as int,
        i,
    );
    let x = palette::choice(proposals, true, palette::AUTOCOMPLETE_LIMIT as int)[i];
    let k = choose|k: int| 0 <= k < proposals.len() && proposals[k] == x;
    assert(paths[k].path == paths[k].path);
}

/// Every argument that is suggested is a template of arguments that continues
/// the first word of what was typed.
pub proof fn law_suggested_arguments_continue_the_command(
    input: Seq<char>,
    templates: Seq<CommandTemplate>,
    i: int,
)
    requires
        argument_list(input, templates) is Some,
        0 <= i < argument_list(input, templates)->0.len(),
    ensures
        ({
            let list = argument_list(input, templates)->0;
            &&& list.len() <= 6
            &&& list[i].source is Argument
            &&& text::begins_with(
                text::lowered(list[i].command),
                text::lowered(text::leading_word(text::trimmed(input))),
            )
            &&& text::lowered(list[i].command) != text::lowered(text::trimmed(input))
            &&& exists|k: int|
                0 <= k < templates.len() && (#[trigger] templates[k]).command@ == list[i].command
                    && templates[k].match_kind is Some
        }),
{
    let wanted = palette::offers_argument(text::trimmed(input));
    let kept = lists::kept(templates, wanted);
    let proposals = kept.map_values(|t: CommandTemplate| palette::argument_completion(t));
    palette::law_only_fitting_proposals_are_suggested(
        proposals,
        true,
        palette::AUTOCOMPLETE_LIMIT as int,
        i,
    );
    let x = palette::choice(proposals, true, palette::AUTOCOMPLETE_LIMIT as int)[i];
    let j = choose|j: int| 0 <= j < proposals.len() && proposals[j] == x;
    assert(kept.contains(kept[j]));
    lists::lemma_kept_members(templates, wanted, kept[j]);
    let k = choose|k: int| 0 <= k < templates.len() && templates[k] == kept[j];
    assert(templates[k].command@ == x.command);
}

/// Without suggestions from recent output nothing is added by it.
pub proof fn law_found_suggestions_are_those_found(found: Option<Vec<ContextCommandTemplate>>)
    ensures
        found is None ==> found_list(found).len() == 0,
        found matches Some(list) ==> found_list(found) == list@,
{
}

} // verus!
