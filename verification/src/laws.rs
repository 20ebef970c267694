use vstd::prelude::*;

use crate::agent_identity::{
    AccountInfoResponse, AgentIdentityAuthView, AgentIdentityRuntimeStateView, account_info_of,
    account_info_url_of, base_url_or_default, with_runtime_installed,
};
use crate::environment_context::{
    EnvironmentContextEnvironment, EnvironmentContextView, EnvironmentView, NetworkView,
    diff_context_view, environment_views, item_context_view, item_environments,
    item_network, listed_environments, same_environment, same_environment_list, same_except_shell, same_fields_except_shell,
    same_optional_environments, turn_context_view, turn_environments, turn_network,
};
use crate::path::same_path;
use crate::shell::{ShellType, ShellView, same_shell, shell_type_name};
use crate::text::{texts, join_lines, lemma_split_at_newlines_nonempty, split_at_newlines, text_lines};
use crate::turn_context::{TurnContext, TurnContextItem, TurnEnvironment};
use crate::xml::{
    all_environment_lines, environment_context_xml, environment_lines, environments_section, network_section, optional_line,
    subagents_section, xml_lines,
};

verus! {

/// Two contexts that hold the same values in every field but the shell,
/// and whose shells are of the same kind, have the same XML rendering.
pub proof fn lemma_xml_depends_on_shell_kind_only(a: EnvironmentContextView, b: EnvironmentContextView)
    requires
        same_fields_except_shell(a, b),
        a.shell.shell_type == b.shell.shell_type,
    ensures
        environment_context_xml(a) == environment_context_xml(b),
{
}

/// Of the environments listed for a live turn, only the first can be the
/// primary one, and it is so exactly when the turn's first environment has
/// an id.
pub proof fn lemma_only_first_listed_environment_is_primary(envs: Seq<TurnEnvironment>)
    ensures
        listed_environments(envs).len() <= envs.len(),
        forall|i: int|
            0 < i < listed_environments(envs).len() ==> !(#[trigger] listed_environments(envs)[i]).primary,
        envs.len() > 0 ==> ((listed_environments(envs).len() > 0 && listed_environments(envs)[0].primary)
            <==> envs[0].environment_id is Some),
    decreases envs.len(),
{
    if envs.len() > 0 {
        lemma_only_first_listed_environment_is_primary(envs.drop_last());
        if envs.len() > 1 {
            assert(envs.drop_last()[0] == envs[0]);
        }
    }
}

/// Of the environments recorded for a past turn, exactly the first is the
/// primary one.
pub proof fn lemma_only_first_recorded_environment_is_primary(item: TurnContextItem)
    ensures
        item_environments(item) matches Some(envs) ==> (envs.len() > 0 && envs[0].primary
            && forall|i: int| 0 < i < envs.len() ==> !(#[trigger] envs[i]).primary),
{
}

/// A diff carries the live turn's shell, date, time zone and network policy,
/// as the live turn's own context does, and names either no environments or
/// those of the live turn's context.
pub proof fn lemma_diff_agrees_with_live_context(
    before: TurnContextItem,
    after: TurnContext,
    shell: ShellView,
)
    ensures
        diff_context_view(before, after, shell).shell == turn_context_view(after, shell).shell,
        diff_context_view(before, after, shell).current_date == turn_context_view(
            after,
            shell,
        ).current_date,
        diff_context_view(before, after, shell).timezone == turn_context_view(after, shell).timezone,
        diff_context_view(before, after, shell).network == turn_context_view(after, shell).network,
        diff_context_view(before, after, shell).environments is None || diff_context_view(
            before,
            after,
            shell,
        ).environments == turn_context_view(after, shell).environments,
{
}

/// A diff names the live working directory exactly when it is not the same
/// path as the recorded one, and names environments exactly when the live
/// turn has some and they are not the same as the recorded ones.
pub proof fn lemma_diff_names_only_changes(
    before: TurnContextItem,
    after: TurnContext,
    shell: ShellView,
)
    ensures
        (diff_context_view(before, after, shell).cwd is None) == same_path(before.cwd@, after.cwd@),
        (diff_context_view(before, after, shell).environments is None) == (same_optional_environments(
            item_environments(before),
            turn_environments(after),
        ) || turn_environments(after) is None),
{
}

/// Where a record holds what a live turn has (the working directory of its
/// default environment, its environments, date, time zone and network
/// policy), the two contexts hold the same values in every field but the
/// shell.
pub proof fn lemma_record_of_same_turn_matches(
    item: TurnContextItem,
    turn: TurnContext,
    item_shell: ShellView,
    turn_shell: ShellView,
)
    requires
        item.cwd@ == turn.default_environment_cwd@,
        item_environments(item) == turn_environments(turn),
        item.current_date matches Some(d) ==> turn.current_date matches Some(e) && d@ == e@,
        item.current_date is None ==> turn.current_date is None,
        item.timezone matches Some(t) ==> turn.timezone matches Some(u) && t@ == u@,
        item.timezone is None ==> turn.timezone is None,
        item_network(item) == turn_network(turn),
    ensures
        same_fields_except_shell(item_context_view(item, item_shell), turn_context_view(turn, turn_shell)),
{
}

/// The runtime state of an agent identity is set once: after a state has
/// been installed, the identity has one, and installing another changes
/// nothing.
pub proof fn lemma_runtime_installed_once(
    auth: AgentIdentityAuthView,
    first: AgentIdentityRuntimeStateView,
    second: AgentIdentityRuntimeStateView,
)
    ensures
        with_runtime_installed(auth, first).runtime is Some,
        auth.runtime is None ==> with_runtime_installed(auth, first).runtime == Some(first),
        auth.runtime is Some ==> with_runtime_installed(auth, first) == auth,
        with_runtime_installed(auth, first).record == auth.record,
        with_runtime_installed(with_runtime_installed(auth, first), second)
            == with_runtime_installed(auth, first),
{
}

/// Trailing slashes of a base URL do not change its account endpoint.
pub proof fn lemma_account_info_url_ignores_trailing_slash(base_url: Seq<char>)
    ensures
        account_info_url_of(base_url.push('/')) == account_info_url_of(base_url),
{
    assert(base_url.push('/').drop_last() =~= base_url);
}

/// The network section of the XML rendering lists every allowed domain and
/// then every denied domain, one line each and in order, between its
/// opening and closing lines; neither list is cut short by the other.
pub proof fn lemma_xml_lists_every_network_domain(c: EnvironmentContextView)
    requires
        c.network is Some,
    ensures
        ({
            let n = c.network.unwrap();
            let lines = xml_lines(c);
            let na = n.allowed_domains.len() as int;
            let nd = n.denied_domains.len() as int;
            exists|p: int|
                #![trigger lines[p]]
                0 <= p && p + na + nd + 2 <= lines.len() && lines[p]
                    == "  <network enabled=\"true\">"@ && (forall|k: int|
                    0 <= k < na ==> lines[p + 1 + k] == "    <allowed>"@ + n.allowed_domains[k]
                        + "</allowed>"@) && (forall|k: int|
                    0 <= k < nd ==> lines[p + 1 + na + k] == "    <denied>"@ + n.denied_domains[k]
                        + "</denied>"@) && lines[p + 1 + na + nd] == "  </network>"@
        }),
{
    let n = c.network.unwrap();
    let lines = xml_lines(c);
    let na = n.allowed_domains.len() as int;
    let nd = n.denied_domains.len() as int;
    let before = optional_line(c.cwd, "  <cwd>"@, "</cwd>"@) + (match c.environments {
        Some(envs) => environments_section(envs),
        None => Seq::<Seq<char>>::empty(),
    }) + seq!["  <shell>"@ + shell_type_name(c.shell.shell_type) + "</shell>"@] + optional_line(
        c.current_date,
        "  <current_date>"@,
        "</current_date>"@,
    ) + optional_line(c.timezone, "  <timezone>"@, "</timezone>"@);
    let section = network_section(n);
    let after = match c.subagents {
        Some(sub) => subagents_section(sub),
        None => Seq::<Seq<char>>::empty(),
    };
    assert(lines =~= before + section + after);
    let p = before.len() as int;
    assert(section.len() == na + nd + 2);
    assert forall|k: int| 0 <= k < na implies lines[p + 1 + k] == "    <allowed>"@
        + n.allowed_domains[k] + "</allowed>"@ by {
        assert(lines[p + 1 + k] == section[1 + k]);
    }
    assert forall|k: int| 0 <= k < nd implies lines[p + 1 + na + k] == "    <denied>"@
        + n.denied_domains[k] + "</denied>"@ by {
        assert(lines[p + 1 + na + k] == section[1 + na + k]);
    }
    assert(lines[p] == section[0]);
    assert(lines[p + 1 + na + nd] == section[1 + na + nd]);
}

/// Two lists of environments count as the same exactly when they are equally
/// long and, position by position, have the same id, the same directory
/// (as paths) and the same primary mark; two absent lists are the same, and
/// an absent list is never the same as a present one.
pub proof fn lemma_same_environments_compare_every_field(
    a: Option<Seq<EnvironmentView>>,
    b: Option<Seq<EnvironmentView>>,
)
    ensures
        same_optional_environments(a, b) <==> ((a is None && b is None) || (a is Some && b is Some
            && a.unwrap().len() == b.unwrap().len() && forall|i: int|
            0 <= i < a.unwrap().len() ==> (#[trigger] a.unwrap()[i]).id == b.unwrap()[i].id
                && same_path(a.unwrap()[i].cwd, b.unwrap()[i].cwd) && a.unwrap()[i].primary
                == b.unwrap()[i].primary)),
{
    if a is Some && b is Some {
        let x = a.unwrap();
        let y = b.unwrap();
        if same_environment_list(x, y) {
            assert forall|i: int| 0 <= i < x.len() implies x[i].id == y[i].id && same_path(
                x[i].cwd,
                y[i].cwd,
            ) && x[i].primary == y[i].primary by {
                assert(same_environment(x[i], y[i]));
            }
        }
        if x.len() == y.len() && forall|i: int|
            0 <= i < x.len() ==> (#[trigger] x[i]).id == y[i].id && same_path(x[i].cwd, y[i].cwd)
                && x[i].primary == y[i].primary {
            assert forall|i: int| 0 <= i < x.len() implies #[trigger] same_environment(x[i], y[i]) by {
                assert(x[i].id == y[i].id);
            }
        }
    }
}

/// Where a live environment differs from the recorded one at the same
/// position (another id, a directory that is not the same path, or another
/// primary mark), or the two lists differ in length, the diff names the live
/// environments.
pub proof fn lemma_diff_names_changed_environments(
    before: TurnContextItem,
    after: TurnContext,
    shell: ShellView,
    i: int,
)
    ensures
        ({
            let recorded = item_environments(before);
            let live = turn_environments(after);
            (recorded is Some && live is Some && (recorded.unwrap().len() != live.unwrap().len() || (
            0 <= i < recorded.unwrap().len() && i < live.unwrap().len() && (recorded.unwrap()[i].id
                != live.unwrap()[i].id || !same_path(recorded.unwrap()[i].cwd, live.unwrap()[i].cwd)
                || recorded.unwrap()[i].primary != live.unwrap()[i].primary))))
                ==> diff_context_view(before, after, shell).environments == live
        }),
        (item_environments(before) is None && turn_environments(after) is Some)
            ==> diff_context_view(before, after, shell).environments == turn_environments(after),
{
    let recorded = item_environments(before);
    let live = turn_environments(after);
    if recorded is Some && live is Some && 0 <= i < recorded.unwrap().len() && i < live.unwrap().len() {
        if !same_environment(recorded.unwrap()[i], live.unwrap()[i]) {
            assert(!same_environment_list(recorded.unwrap(), live.unwrap()));
        }
    }
}

/// The network policy of a live turn's context holds the configured lists:
/// each list is the configured one where it is given and empty where it is
/// not, whatever the other list is; without network requirements there is no
/// policy. The diff carries the same policy.
pub proof fn lemma_live_network_holds_configured_lists(tc: TurnContext, shell: ShellView)
    ensures
        tc.network is None ==> turn_context_view(tc, shell).network is None,
        tc.network matches Some(req) ==> ({
            let n = turn_context_view(tc, shell).network;
            &&& n is Some
            &&& req.domains is None ==> n.unwrap().allowed_domains.len() == 0
                && n.unwrap().denied_domains.len() == 0
            &&& req.domains matches Some(d) ==> {
                &&& d.allowed_domains matches Some(v) ==> n.unwrap().allowed_domains.len() == v@.len()
                    && forall|k: int|
                    0 <= k < v@.len() ==> #[trigger] n.unwrap().allowed_domains[k] == v@[k]@
                &&& d.allowed_domains is None ==> n.unwrap().allowed_domains.len() == 0
                &&& d.denied_domains matches Some(v) ==> n.unwrap().denied_domains.len() == v@.len()
                    && forall|k: int|
                    0 <= k < v@.len() ==> #[trigger] n.unwrap().denied_domains[k] == v@[k]@
                &&& d.denied_domains is None ==> n.unwrap().denied_domains.len() == 0
            }
        }),
        forall|before: TurnContextItem|
            #[trigger] diff_context_view(before, tc, shell).network == turn_context_view(
                tc,
                shell,
            ).network,
{
}

/// Two contexts are equal but for the shell exactly when their working
/// directories are both absent or the same path, their environment lists are
/// the same, and their dates, time zones, network policies and subagents
/// hold the same values.
pub proof fn lemma_equals_except_shell_compares_each_field(
    a: EnvironmentContextView,
    b: EnvironmentContextView,
)
    ensures
        same_except_shell(a, b) <==> ({
            &&& (a.cwd is None && b.cwd is None) || (a.cwd is Some && b.cwd is Some && same_path(
                a.cwd.unwrap(),
                b.cwd.unwrap(),
            ))
            &&& same_optional_environments(a.environments, b.environments)
            &&& a.current_date == b.current_date
            &&& a.timezone == b.timezone
            &&& a.network == b.network
            &&& a.subagents == b.subagents
        }),
        a.current_date != b.current_date ==> !same_except_shell(a, b),
        a.timezone != b.timezone ==> !same_except_shell(a, b),
        a.network != b.network ==> !same_except_shell(a, b),
        a.subagents != b.subagents ==> !same_except_shell(a, b),
{
}

/// The account info takes the FedRAMP flag's value where the response gives
/// one and is not FedRAMP where it does not; the account id is the response's
/// account id, or else its ChatGPT account id; the user id is the ChatGPT
/// user id, or else the plain user id; the email is the response's.
pub proof fn lemma_account_info_follows_response(response: AccountInfoResponse)
    ensures
        account_info_of(response).is_fedramp_account == (response.chatgpt_account_is_fedramp
            == Some(true)),
        response.account_id matches Some(id) ==> account_info_of(response).account_id == Some(id@),
        response.account_id is None ==> (account_info_of(response).account_id is Some
            <==> response.chatgpt_account_id is Some),
        response.account_id is None ==> (response.chatgpt_account_id matches Some(id)
            ==> account_info_of(response).account_id == Some(id@)),
        response.chatgpt_user_id matches Some(id) ==> account_info_of(response).chatgpt_user_id
            == Some(id@),
        response.chatgpt_user_id is None ==> (account_info_of(response).chatgpt_user_id is Some
            <==> response.user_id is Some),
        response.chatgpt_user_id is None ==> (response.user_id matches Some(id)
            ==> account_info_of(response).chatgpt_user_id == Some(id@)),
        response.email matches Some(e) ==> account_info_of(response).email == Some(e@),
        response.email is None ==> account_info_of(response).email is None,
{
}

/// Joining the pieces of a text cut at its line feeds, with a line feed
/// between each two, gives the text back; no piece holds a line feed.
pub proof fn lemma_split_at_newlines_rejoins(s: Seq<char>)
    ensures
        join_lines(split_at_newlines(s), seq!['\n']) == s,
        forall|i: int|
            0 <= i < split_at_newlines(s).len() ==> !(#[trigger] split_at_newlines(s)[i]).contains(
                '\n',
            ),
    decreases s.len(),
{
    lemma_split_at_newlines_nonempty(s);
    if s.len() > 0 {
        let t = s.drop_last();
        let c = s.last();
        let p = split_at_newlines(t);
        lemma_split_at_newlines_rejoins(t);
        lemma_split_at_newlines_nonempty(t);
        let q = split_at_newlines(s);
        if c == '\n' {
            assert(q == p.push(Seq::<char>::empty()));
            assert(q.drop_last() =~= p);
            assert(s =~= t + seq!['\n'] + Seq::<char>::empty());
            assert forall|i: int| 0 <= i < q.len() implies !(#[trigger] q[i]).contains('\n') by {
                if i < p.len() {
                    assert(q[i] == p[i]);
                }
            }
        } else {
            assert(q == p.update(p.len() - 1, p.last().push(c)));
            if p.len() == 1 {
                assert(t == p[0]);
                assert(q[0] =~= s);
            } else {
                assert(q.drop_last() =~= p.drop_last());
                assert(join_lines(p, seq!['\n']) == join_lines(p.drop_last(), seq!['\n']) + seq!['\n']
                    + p.last());
                assert(join_lines(q, seq!['\n']) == join_lines(q.drop_last(), seq!['\n']) + seq!['\n']
                    + q.last());
                assert(q.last() == p.last().push(c));
                assert(s =~= t.push(c));
                assert(join_lines(q, seq!['\n']) =~= (join_lines(p.drop_last(), seq!['\n']) + seq!['\n']
                    + p.last()).push(c));
            }
            assert forall|i: int| 0 <= i < q.len() implies !(#[trigger] q[i]).contains('\n') by {
                if i < p.len() - 1 {
                    assert(q[i] == p[i]);
                } else {
                    assert(q[i] == p.last().push(c));
                    assert(!p[p.len() - 1].contains('\n'));
                    if q[i].contains('\n') {
                        let k = choose|k: int| 0 <= k < q[i].len() && q[i][k] == '\n';
                        if k < p.last().len() {
                            assert(p.last()[k] == '\n');
                        }
                    }
                }
            }
        }
    }
}

/// The lines of a text are the pieces between its line feeds: each piece
/// that a line feed ends gives one line, without a `'\r'` just before that
/// line feed; the piece after the last line feed gives a line, as it is,
/// unless it is empty.
pub proof fn lemma_text_lines_are_the_pieces(s: Seq<char>)
    ensures
        ({
            let pieces = split_at_newlines(s);
            let lines = text_lines(s);
            let ended = pieces.len() - 1;
            &&& lines.len() == if pieces.last().len() == 0 {
                ended
            } else {
                ended + 1
            }
            &&& forall|i: int|
                #![trigger lines[i]]
                0 <= i < ended ==> if pieces[i].len() > 0 && pieces[i].last() == '\r' {
                    lines[i] + seq!['\r'] == pieces[i]
                } else {
                    lines[i] == pieces[i]
                }
            &&& pieces.last().len() > 0 ==> lines[ended] == pieces.last()
        }),
{
    lemma_split_at_newlines_nonempty(s);
    let pieces = split_at_newlines(s);
    let lines = text_lines(s);
    assert forall|i: int| 0 <= i < pieces.len() - 1 implies (if pieces[i].len() > 0 && pieces[i].last()
        == '\r' {
        #[trigger] lines[i] + seq!['\r'] == pieces[i]
    } else {
        lines[i] == pieces[i]
    }) by {
        if pieces[i].len() > 0 && pieces[i].last() == '\r' {
            assert(lines[i] + seq!['\r'] =~= pieces[i]);
        }
    }
}

/// The opening line of an environment in the XML rendering.
pub open spec fn environment_opening(e: EnvironmentView) -> Seq<char> {
    "    <environment id=\""@ + e.id + if e.primary {
        "\" primary=\"true\">"@
    } else {
        "\">"@
    }
}

/// The lines for a list of environments are three per environment, in order:
/// its opening line with its id (and the primary mark where it has one), its
/// directory, and its closing line.
pub proof fn lemma_environment_lines_layout(envs: Seq<EnvironmentView>)
    ensures
        all_environment_lines(envs).len() == 3 * envs.len(),
        forall|k: int|
            #![trigger envs[k]]
            0 <= k < envs.len() ==> all_environment_lines(envs)[3 * k] == environment_opening(envs[k])
                && all_environment_lines(envs)[3 * k + 1] == "      <cwd>"@ + envs[k].cwd + "</cwd>"@
                && all_environment_lines(envs)[3 * k + 2] == "    </environment>"@,
    decreases envs.len(),
{
    if envs.len() > 0 {
        let init = envs.drop_last();
        lemma_environment_lines_layout(init);
        let all = all_environment_lines(envs);
        assert(all == all_environment_lines(init) + environment_lines(envs.last()));
        assert forall|k: int| #![trigger envs[k]] 0 <= k < envs.len() implies all[3 * k]
            == environment_opening(envs[k]) && all[3 * k + 1] == "      <cwd>"@ + envs[k].cwd
            + "</cwd>"@ && all[3 * k + 2] == "    </environment>"@ by {
            if k < init.len() {
                assert(init[k] == envs[k]);
            }
        }
    }
}

/// The lines of the XML rendering, part by part and in this order: the
/// working directory (where there is one), the environments (where there
/// are some listed), the shell, the date, the time zone, the network policy
/// and the subagents, each where it is present, and nothing else.
#[verifier::rlimit(80)]
#[verifier::spinoff_prover]
pub proof fn lemma_xml_layout(c: EnvironmentContextView)
    ensures
        ({
            let lines = xml_lines(c);
            let o_env: int = if c.cwd is Some {
                1
            } else {
                0
            };
            let n_env: int = match c.environments {
                Some(e) => (3 * e.len() + 2) as int,
                None => 0,
            };
            let o_shell = o_env + n_env;
            let o_date = o_shell + 1;
            let o_tz = o_date + if c.current_date is Some {
                1int
            } else {
                0int
            };
            let o_net = o_tz + if c.timezone is Some {
                1int
            } else {
                0int
            };
            let n_net: int = match c.network {
                Some(n) => (n.allowed_domains.len() + n.denied_domains.len() + 2) as int,
                None => 0,
            };
            let o_sub = o_net + n_net;
            let n_sub: int = match c.subagents {
                Some(sub) => (text_lines(sub).len() + 2) as int,
                None => 0,
            };
            &&& lines.len() == o_sub + n_sub
            &&& c.cwd is Some ==> lines[0] == "  <cwd>"@ + c.cwd.unwrap() + "</cwd>"@
            &&& c.environments is Some ==> {
                let e = c.environments.unwrap();
                &&& lines[o_env] == "  <environments>"@
                &&& forall|k: int|
                    #![trigger e[k]]
                    0 <= k < e.len() ==> lines[o_env + 1 + 3 * k] == environment_opening(e[k])
                        && lines[o_env + 2 + 3 * k] == "      <cwd>"@ + e[k].cwd + "</cwd>"@
                        && lines[o_env + 3 + 3 * k] == "    </environment>"@
                &&& lines[o_env + 1 + 3 * e.len()] == "  </environments>"@
            }
            &&& lines[o_shell] == "  <shell>"@ + shell_type_name(c.shell.shell_type) + "</shell>"@
            &&& c.current_date is Some ==> lines[o_date] == "  <current_date>"@
                + c.current_date.unwrap() + "</current_date>"@
            &&& c.timezone is Some ==> lines[o_tz] == "  <timezone>"@ + c.timezone.unwrap()
                + "</timezone>"@
            &&& c.network is Some ==> {
                let n = c.network.unwrap();
                let na = n.allowed_domains.len() as int;
                let nd = n.denied_domains.len() as int;
                &&& lines[o_net] == "  <network enabled=\"true\">"@
                &&& forall|k: int|
                    #![trigger n.allowed_domains[k]]
                    0 <= k < na ==> lines[o_net + 1 + k] == "    <allowed>"@ + n.allowed_domains[k]
                        + "</allowed>"@
                &&& forall|k: int|
                    #![trigger n.denied_domains[k]]
                    0 <= k < nd ==> lines[o_net + 1 + na + k] == "    <denied>"@
                        + n.denied_domains[k] + "</denied>"@
                &&& lines[o_net + 1 + na + nd] == "  </network>"@
            }
            &&& c.subagents is Some ==> {
                let l = text_lines(c.subagents.unwrap());
                &&& lines[o_sub] == "  <subagents>"@
                &&& forall|k: int| #![trigger l[k]] 0 <= k < l.len() ==> lines[o_sub + 1 + k] == "    "@ + l[k]
                &&& lines[o_sub + 1 + l.len()] == "  </subagents>"@
            }
        }),
{
    let lines = xml_lines(c);
    let a = optional_line(c.cwd, "  <cwd>"@, "</cwd>"@);
    let b = match c.environments {
        Some(envs) => environments_section(envs),
        None => Seq::<Seq<char>>::empty(),
    };
    let sh = seq!["  <shell>"@ + shell_type_name(c.shell.shell_type) + "</shell>"@];
    let d = optional_line(c.current_date, "  <current_date>"@, "</current_date>"@);
    let t = optional_line(c.timezone, "  <timezone>"@, "</timezone>"@);
    let n = match c.network {
        Some(n) => network_section(n),
        None => Seq::<Seq<char>>::empty(),
    };
    let g = match c.subagents {
        Some(sub) => subagents_section(sub),
        None => Seq::<Seq<char>>::empty(),
    };
    assert(lines =~= a + b + sh + d + t + n + g);
    let o_env = a.len() as int;
    let o_shell = o_env + b.len();
    let o_date = o_shell + 1;
    let o_tz = o_date + d.len();
    let o_net = o_tz + t.len();
    let o_sub = o_net + n.len();
    if c.environments is Some {
        let e = c.environments.unwrap();
        lemma_environment_lines_layout(e);
        assert(b.len() == 3 * e.len() + 2);
        assert(lines[o_env] == b[0]);
        assert forall|k: int| #![trigger e[k]] 0 <= k < e.len() implies lines[o_env + 1 + 3 * k]
            == environment_opening(e[k]) && lines[o_env + 2 + 3 * k] == "      <cwd>"@ + e[k].cwd
            + "</cwd>"@ && lines[o_env + 3 + 3 * k] == "    </environment>"@ by {
            assert(lines[o_env + 1 + 3 * k] == b[1 + 3 * k]);
            assert(lines[o_env + 2 + 3 * k] == b[2 + 3 * k]);
            assert(lines[o_env + 3 + 3 * k] == b[3 + 3 * k]);
            assert(b[1 + 3 * k] == all_environment_lines(e)[3 * k]);
            assert(b[2 + 3 * k] == all_environment_lines(e)[3 * k + 1]);
            assert(b[3 + 3 * k] == all_environment_lines(e)[3 * k + 2]);
        }
        assert(lines[o_env + 1 + 3 * e.len()] == b[1 + 3 * e.len() as int]);
    }
    assert(lines[o_shell] == sh[0]);
    if c.current_date is Some {
        assert(lines[o_date] == d[0]);
    }
    if c.timezone is Some {
        assert(lines[o_tz] == t[0]);
    }
    if c.network is Some {
        let nv = c.network.unwrap();
        let na = nv.allowed_domains.len() as int;
        let nd = nv.denied_domains.len() as int;
        assert(lines[o_net] == n[0]);
        assert forall|k: int| #![trigger nv.allowed_domains[k]] 0 <= k < na implies lines[o_net + 1 + k]
            == "    <allowed>"@ + nv.allowed_domains[k] + "</allowed>"@ by {
            assert(lines[o_net + 1 + k] == n[1 + k]);
        }
        assert forall|k: int| #![trigger nv.denied_domains[k]] 0 <= k < nd implies lines[o_net + 1 + na
            + k] == "    <denied>"@ + nv.denied_domains[k] + "</denied>"@ by {
            assert(lines[o_net + 1 + na + k] == n[1 + na + k]);
        }
        assert(lines[o_net + 1 + na + nd] == n[1 + na + nd]);
    }
    if c.subagents is Some {
        let l = text_lines(c.subagents.unwrap());
        assert(lines[o_sub] == g[0]);
        assert forall|k: int| #![trigger l[k]] 0 <= k < l.len() implies lines[o_sub + 1 + k] == "    "@
            + l[k] by {
            assert(lines[o_sub + 1 + k] == g[1 + k]);
        }
        assert(lines[o_sub + 1 + l.len()] == g[1 + l.len() as int]);
    }
}

/// The XML rendering is the start marker line, the lines of the context
/// joined by line feeds, and the end marker line.
pub proof fn lemma_xml_is_wrapped_lines(c: EnvironmentContextView)
    ensures
        environment_context_xml(c) == "<environment_context>"@ + seq!['\n'] + join_lines(
            xml_lines(c),
            seq!['\n'],
        ) + seq!['\n'] + "</environment_context>"@,
{
}

/// The name of each kind of shell.
pub proof fn lemma_shell_names()
    ensures
        forall|t: ShellType|
            #[trigger] shell_type_name(t) == match t {
                ShellType::Zsh => "zsh"@,
                ShellType::Bash => "bash"@,
                ShellType::PowerShell => "powershell"@,
                ShellType::Sh => "sh"@,
                ShellType::Cmd => "cmd"@,
            },
{
}

/// Two shells are equal exactly when they are of the same kind and their
/// executables are the same path.
pub proof fn lemma_shells_equal_by_kind_and_path(a: ShellView, b: ShellView)
    ensures
        same_shell(a, b) <==> (a.shell_type == b.shell_type && same_path(a.shell_path, b.shell_path)),
{
}

/// The text of each string in a list, in order.
pub proof fn lemma_texts_keep_each_string(v: Seq<String>)
    ensures
        texts(v).len() == v.len(),
        forall|i: int| 0 <= i < v.len() ==> #[trigger] texts(v)[i] == v[i]@,
{
}

/// Every environment listed for a live turn is one of the turn's
/// environments that has an id, with that id and directory, and is primary
/// exactly when it is the turn's first environment.
pub proof fn lemma_listed_environments_come_from_turn(envs: Seq<TurnEnvironment>, k: int)
    requires
        0 <= k < listed_environments(envs).len(),
    ensures
        exists|j: int|
            0 <= j < envs.len() && (#[trigger] envs[j]).environment_id is Some
                && listed_environments(envs)[k] == (EnvironmentView {
                id: envs[j].environment_id.unwrap()@,
                cwd: envs[j].cwd@,
                primary: j == 0,
            }),
    decreases envs.len(),
{
    let init = envs.drop_last();
    if k < listed_environments(init).len() {
        lemma_listed_environments_come_from_turn(init, k);
        let j = choose|j: int|
            0 <= j < init.len() && (#[trigger] init[j]).environment_id is Some
                && listed_environments(init)[k] == (EnvironmentView {
                id: init[j].environment_id.unwrap()@,
                cwd: init[j].cwd@,
                primary: j == 0,
            });
        assert(envs[j] == init[j]);
        assert(listed_environments(envs)[k] == listed_environments(init)[k]);
    } else {
        let j = envs.len() - 1;
        assert(envs[j] == envs.last());
    }
}

/// Where every environment of a live turn has an id, each is listed, in
/// order, with its id and directory, and only the first is primary; an
/// environment without an id adds nothing to the list.
pub proof fn lemma_listed_environments_follow_turn(envs: Seq<TurnEnvironment>)
    ensures
        (forall|j: int| 0 <= j < envs.len() ==> (#[trigger] envs[j]).environment_id is Some) ==> {
            &&& listed_environments(envs).len() == envs.len()
            &&& forall|j: int|
                #![trigger listed_environments(envs)[j]]
                0 <= j < envs.len() ==> listed_environments(envs)[j] == (EnvironmentView {
                    id: envs[j].environment_id.unwrap()@,
                    cwd: envs[j].cwd@,
                    primary: j == 0,
                })
        },
        forall|e: TurnEnvironment|
            e.environment_id is None ==> #[trigger] listed_environments(envs.push(e))
                == listed_environments(envs),
    decreases envs.len(),
{
    if envs.len() > 0 {
        let init = envs.drop_last();
        lemma_listed_environments_follow_turn(init);
        if forall|j: int| 0 <= j < envs.len() ==> (#[trigger] envs[j]).environment_id is Some {
            assert forall|j: int| 0 <= j < init.len() implies (#[trigger] init[j]).environment_id is Some by {
                assert(init[j] == envs[j]);
            }
            assert(envs[envs.len() - 1].environment_id is Some);
            assert forall|j: int|
                #![trigger listed_environments(envs)[j]]
                0 <= j < envs.len() implies listed_environments(envs)[j] == (EnvironmentView {
                id: envs[j].environment_id.unwrap()@,
                cwd: envs[j].cwd@,
                primary: j == 0,
            }) by {
                if j < init.len() {
                    assert(init[j] == envs[j]);
                    assert(listed_environments(envs)[j] == listed_environments(init)[j]);
                }
            }
        }
    }
    assert forall|e: TurnEnvironment| e.environment_id is None implies #[trigger] listed_environments(
        envs.push(e),
    ) == listed_environments(envs) by {
        assert(envs.push(e).drop_last() =~= envs);
    }
}

/// The environments named for a live turn: none while the multi-environment
/// tools are off or the turn has no environments, else the listed ones.
pub proof fn lemma_turn_environments_when_tools_on(tc: TurnContext)
    ensures
        !tc.multi_environment_tools ==> turn_environments(tc) is None,
        tc.environments@.len() == 0 ==> turn_environments(tc) is None,
        tc.multi_environment_tools && tc.environments@.len() > 0 ==> turn_environments(tc) == Some(
            listed_environments(tc.environments@),
        ),
{
}

/// The environments recorded for a past turn: none where the record has no
/// list or an empty one; otherwise one for each recorded environment, in
/// order, with its id and directory, the first one primary.
pub proof fn lemma_recorded_environments_follow_record(item: TurnContextItem)
    ensures
        item.environments is None ==> item_environments(item) is None,
        item.environments matches Some(v) ==> (v@.len() == 0 ==> item_environments(item) is None),
        item.environments matches Some(v) ==> (v@.len() > 0 ==> {
            &&& item_environments(item) is Some
            &&& item_environments(item).unwrap().len() == v@.len()
            &&& forall|j: int|
                #![trigger item_environments(item).unwrap()[j]]
                0 <= j < v@.len() ==> item_environments(item).unwrap()[j].id == v@[j].environment_id@
                    && item_environments(item).unwrap()[j].cwd == v@[j].cwd@
                    && item_environments(item).unwrap()[j].primary == (j == 0)
        }),
{
}

/// The context of a record, of a live turn, and of a diff: which field comes
/// from where. A record gives its working directory, date, time zone and
/// network policy; a live turn gives the working directory of its default
/// environment; a diff gives the live directory only where it is not the
/// same path as the recorded one; none of them has subagents, and each has
/// the given shell.
pub proof fn lemma_context_fields_come_from_turn(
    item: TurnContextItem,
    tc: TurnContext,
    shell: ShellView,
)
    ensures
        item_context_view(item, shell).cwd == Some(item.cwd@),
        item_context_view(item, shell).shell == shell,
        item_context_view(item, shell).subagents is None,
        item.current_date matches Some(d) ==> item_context_view(item, shell).current_date == Some(d@),
        item.current_date is None ==> item_context_view(item, shell).current_date is None,
        item.timezone matches Some(t) ==> item_context_view(item, shell).timezone == Some(t@),
        item.timezone is None ==> item_context_view(item, shell).timezone is None,
        item.network is None ==> item_context_view(item, shell).network is None,
        item.network matches Some(n) ==> item_context_view(item, shell).network == Some(
            NetworkView {
                allowed_domains: n.allowed_domains@.map_values(|d: String| d@),
                denied_domains: n.denied_domains@.map_values(|d: String| d@),
            },
        ),
        turn_context_view(tc, shell).cwd == Some(tc.default_environment_cwd@),
        turn_context_view(tc, shell).shell == shell,
        turn_context_view(tc, shell).subagents is None,
        turn_context_view(tc, shell).environments == turn_environments(tc),
        tc.current_date matches Some(d) ==> turn_context_view(tc, shell).current_date == Some(d@),
        tc.current_date is None ==> turn_context_view(tc, shell).current_date is None,
        tc.timezone matches Some(t) ==> turn_context_view(tc, shell).timezone == Some(t@),
        tc.timezone is None ==> turn_context_view(tc, shell).timezone is None,
        diff_context_view(item, tc, shell).cwd == if same_path(item.cwd@, tc.cwd@) {
            None
        } else {
            Some(tc.cwd@)
        },
        diff_context_view(item, tc, shell).shell == shell,
        diff_context_view(item, tc, shell).subagents is None,
        diff_context_view(item, tc, shell).current_date == turn_context_view(tc, shell).current_date,
        diff_context_view(item, tc, shell).timezone == turn_context_view(tc, shell).timezone,
{
}

/// The base URL against which an identity is set up: the configured one, or
/// else the ChatGPT backend.
pub proof fn lemma_base_url_defaults_to_chatgpt_backend(url: Option<Seq<char>>)
    ensures
        url matches Some(u) ==> base_url_or_default(url) == u,
        url is None ==> base_url_or_default(url) == "https://chatgpt.com/backend-api"@,
{
}

/// The account endpoint is the base URL cut after its last character that
/// is not a `'/'`, followed by `/me`.
pub proof fn lemma_account_info_url_trims_only_trailing_slashes(base_url: Seq<char>)
    ensures
        exists|k: int|
            #![trigger base_url.take(k)]
            0 <= k <= base_url.len() && (k == 0 || base_url[k - 1] != '/') && (forall|j: int|
                k <= j < base_url.len() ==> #[trigger] base_url[j] == '/') && account_info_url_of(
                base_url,
            ) == base_url.take(k) + "/me"@,
    decreases base_url.len(),
{
    if base_url.len() > 0 && base_url.last() == '/' {
        let init = base_url.drop_last();
        lemma_account_info_url_trims_only_trailing_slashes(init);
        let k = choose|k: int|
            #![trigger init.take(k)]
            0 <= k <= init.len() && (k == 0 || init[k - 1] != '/') && (forall|j: int|
                k <= j < init.len() ==> #[trigger] init[j] == '/') && account_info_url_of(init)
                == init.take(k) + "/me"@;
        assert(init.take(k) =~= base_url.take(k));
        assert(forall|j: int| k <= j < base_url.len() ==> #[trigger] base_url[j] == '/') by {
            assert forall|j: int| k <= j < base_url.len() implies #[trigger] base_url[j] == '/' by {
                if j < init.len() {
                    assert(base_url[j] == init[j]);
                }
            }
        }
        assert(k > 0 ==> base_url[k - 1] == init[k - 1]);
    } else {
        assert(base_url.take(base_url.len() as int) =~= base_url);
    }
}

/// The view of a list of environments is the view of each, in order.
pub proof fn lemma_environment_views_keep_each(v: Seq<EnvironmentContextEnvironment>)
    ensures
        environment_views(v).len() == v.len(),
        forall|i: int|
            0 <= i < v.len() ==> #[trigger] environment_views(v)[i] == (EnvironmentView {
                id: v[i].id@,
                cwd: v[i].cwd@,
                primary: v[i].primary,
            }),
{
}

} // verus!
