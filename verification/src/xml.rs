use vstd::prelude::*;

use crate::environment_context::{
    EnvironmentContext, EnvironmentContextEnvironment, EnvironmentContextView, EnvironmentView,
    NetworkContext, NetworkView, environment_views,
};
use crate::fragment::environment_context_fragment;
use crate::shell::shell_type_name;
use crate::text::{enclose, option_text, join, join_lines, split_lines, text_lines, texts};

verus! {

/// The line that names a working directory.
pub open spec fn cwd_line(cwd: Seq<char>) -> Seq<char> {
    "  <cwd>"@ + cwd + "</cwd>"@
}

/// The lines that describe one environment.
pub open spec fn environment_lines(e: EnvironmentView) -> Seq<Seq<char>> {
    seq![
        "    <environment id=\""@ + e.id + (if e.primary {
            "\" primary=\"true\">"@
        } else {
            "\">"@
        }),
        "      <cwd>"@ + e.cwd + "</cwd>"@,
        "    </environment>"@,
    ]
}

/// The lines that describe each environment, in order.
pub open spec fn all_environment_lines(envs: Seq<EnvironmentView>) -> Seq<Seq<char>>
    decreases envs.len(),
{
    if envs.len() == 0 {
        Seq::<Seq<char>>::empty()
    } else {
        all_environment_lines(envs.drop_last()) + environment_lines(envs.last())
    }
}

pub open spec fn environments_section(envs: Seq<EnvironmentView>) -> Seq<Seq<char>> {
    seq!["  <environments>"@] + all_environment_lines(envs) + seq!["  </environments>"@]
}

pub open spec fn allowed_line(domain: Seq<char>) -> Seq<char> {
    "    <allowed>"@ + domain + "</allowed>"@
}

pub open spec fn denied_line(domain: Seq<char>) -> Seq<char> {
    "    <denied>"@ + domain + "</denied>"@
}

pub open spec fn network_section(n: NetworkView) -> Seq<Seq<char>> {
    seq!["  <network enabled=\"true\">"@] + n.allowed_domains.map_values(
        |d: Seq<char>| allowed_line(d),
    ) + n.denied_domains.map_values(|d: Seq<char>| denied_line(d)) + seq!["  </network>"@]
}

pub open spec fn subagent_line(line: Seq<char>) -> Seq<char> {
    "    "@ + line
}

pub open spec fn subagents_section(subagents: Seq<char>) -> Seq<Seq<char>> {
    seq!["  <subagents>"@] + text_lines(subagents).map_values(|l: Seq<char>| subagent_line(l))
        + seq!["  </subagents>"@]
}

pub open spec fn optional_line(o: Option<Seq<char>>, open: Seq<char>, close: Seq<char>) -> Seq<
    Seq<char>,
> {
    match o {
        Some(v) => seq![open + v + close],
        None => Seq::<Seq<char>>::empty(),
    }
}

/// The lines of the XML rendering of an environment context, in order: the
/// working directory, the environments, the shell, the date, the time zone,
/// the network policy and the subagents, each where it is present.
pub open spec fn xml_lines(c: EnvironmentContextView) -> Seq<Seq<char>> {
    optional_line(c.cwd, "  <cwd>"@, "</cwd>"@) + (match c.environments {
        Some(envs) => environments_section(envs),
        None => Seq::<Seq<char>>::empty(),
    }) + seq!["  <shell>"@ + shell_type_name(c.shell.shell_type) + "</shell>"@] + optional_line(
        c.current_date,
        "  <current_date>"@,
        "</current_date>"@,
    ) + optional_line(c.timezone, "  <timezone>"@, "</timezone>"@) + (match c.network {
        Some(n) => network_section(n),
        None => Seq::<Seq<char>>::empty(),
    }) + (match c.subagents {
        Some(s) => subagents_section(s),
        None => Seq::<Seq<char>>::empty(),
    })
}

/// The XML rendering of an environment context: its lines joined by line
/// feeds, between the start and the end marker lines.
pub open spec fn environment_context_xml(c: EnvironmentContextView) -> Seq<char> {
    "<environment_context>"@ + seq!['\n'] + join_lines(xml_lines(c), seq!['\n']) + seq!['\n']
        + "</environment_context>"@
}

fn push_line(lines: &mut Vec<String>, line: String)
    ensures
        texts(final(lines)@) == texts(old(lines)@).push(line@),
{
    let ghost before = lines@;
    lines.push(line);
    assert(texts(lines@) =~= texts(before).push(line@));
}

fn push_environment_lines(lines: &mut Vec<String>, environments: &Vec<EnvironmentContextEnvironment>)
    ensures
        texts(final(lines)@) == texts(old(lines)@) + environments_section(
            environment_views(environments@),
        ),
{
    let ghost start = texts(lines@);
    let ghost envs = environment_views(environments@);
    push_line(lines, String::from_str("  <environments>"));
    let mut i: usize = 0;
    assert(envs.take(0) =~= Seq::<EnvironmentView>::empty());
    assert(texts(lines@) =~= start + seq!["  <environments>"@] + all_environment_lines(envs.take(0)));
    while i < environments.len()
        invariant
            i <= environments.len(),
            envs == environment_views(environments@),
            texts(lines@) == start + seq!["  <environments>"@] + all_environment_lines(
                envs.take(i as int),
            ),
        decreases environments.len() - i,
    {
        let environment = &environments[i];
        let ghost before = texts(lines@);
        let closing = if environment.primary {
            "\" primary=\"true\">"
        } else {
            "\">"
        };
        push_line(lines, enclose("    <environment id=\"", environment.id.as_str(), closing));
        push_line(lines, enclose("      <cwd>", environment.cwd.as_str(), "</cwd>"));
        push_line(lines, String::from_str("    </environment>"));
        assert(envs.take(i + 1).drop_last() =~= envs.take(i as int));
        assert(texts(lines@) =~= before + environment_lines(envs[i as int]));
        i = i + 1;
    }
    assert(envs.take(environments.len() as int) =~= envs);
    push_line(lines, String::from_str("  </environments>"));
    assert(texts(lines@) =~= start + environments_section(envs));
}

fn push_network_lines(lines: &mut Vec<String>, network: &NetworkContext)
    ensures
        texts(final(lines)@) == texts(old(lines)@) + network_section(network@),
{
    let ghost start = texts(lines@);
    let ghost allowed = texts(network.allowed_domains@);
    let ghost denied = texts(network.denied_domains@);
    push_line(lines, String::from_str("  <network enabled=\"true\">"));
    let mut i: usize = 0;
    while i < network.allowed_domains.len()
        invariant
            i <= network.allowed_domains.len(),
            allowed == texts(network.allowed_domains@),
            texts(lines@) == start + seq!["  <network enabled=\"true\">"@] + allowed.take(
                i as int,
            ).map_values(|d: Seq<char>| allowed_line(d)),
        decreases network.allowed_domains.len() - i,
    {
        let ghost before = texts(lines@);
        push_line(lines, enclose("    <allowed>", network.allowed_domains[i].as_str(), "</allowed>"));
        assert(allowed.take(i + 1).map_values(|d: Seq<char>| allowed_line(d)) =~= allowed.take(
            i as int,
        ).map_values(|d: Seq<char>| allowed_line(d)).push(allowed_line(allowed[i as int])));
        i = i + 1;
    }
    assert(allowed.take(i as int) =~= allowed);
    let ghost middle = texts(lines@);
    let mut j: usize = 0;
    while j < network.denied_domains.len()
        invariant
            j <= network.denied_domains.len(),
            denied == texts(network.denied_domains@),
            texts(lines@) == middle + denied.take(j as int).map_values(
                |d: Seq<char>| denied_line(d),
            ),
        decreases network.denied_domains.len() - j,
    {
        push_line(lines, enclose("    <denied>", network.denied_domains[j].as_str(), "</denied>"));
        assert(denied.take(j + 1).map_values(|d: Seq<char>| denied_line(d)) =~= denied.take(
            j as int,
        ).map_values(|d: Seq<char>| denied_line(d)).push(denied_line(denied[j as int])));
        j = j + 1;
    }
    assert(denied.take(j as int) =~= denied);
    push_line(lines, String::from_str("  </network>"));
    assert(texts(lines@) =~= start + network_section(network@));
}

fn push_subagent_lines(lines: &mut Vec<String>, subagents: &String)
    ensures
        texts(final(lines)@) == texts(old(lines)@) + subagents_section(subagents@),
{
    let ghost start = texts(lines@);
    push_line(lines, String::from_str("  <subagents>"));
    let listed = split_lines(subagents.as_str());
    let ghost all = text_lines(subagents@);
    let mut i: usize = 0;
    while i < listed.len()
        invariant
            i <= listed.len(),
            texts(listed@) == all,
            texts(lines@) == start + seq!["  <subagents>"@] + all.take(i as int).map_values(
                |l: Seq<char>| subagent_line(l),
            ),
        decreases listed.len() - i,
    {
        push_line(lines, enclose("    ", listed[i].as_str(), ""));
        proof {
            reveal_strlit("");
        }
        assert(all.take(i + 1).map_values(|l: Seq<char>| subagent_line(l)) =~= all.take(
            i as int,
        ).map_values(|l: Seq<char>| subagent_line(l)).push(subagent_line(all[i as int])));
        i = i + 1;
    }
    assert(all.take(i as int) =~= all);
    push_line(lines, String::from_str("  </subagents>"));
    assert(texts(lines@) =~= start + subagents_section(subagents@));
}

fn push_optional_line(lines: &mut Vec<String>, value: &Option<String>, open: &str, close: &str)
    ensures
        texts(final(lines)@) == texts(old(lines)@) + optional_line(option_text(*value), open@, close@),
{
    let ghost before = texts(lines@);
    if let Some(v) = value {
        push_line(lines, enclose(open, v.as_str(), close));
    }
    assert(texts(lines@) =~= before + optional_line(option_text(*value), open@, close@));
}

/// The lines of the XML rendering, in order.
fn xml_body_lines(ec: &EnvironmentContext) -> (lines: Vec<String>)
    ensures
        texts(lines@) == xml_lines(ec@),
{
    let ghost c = ec@;
    let mut lines: Vec<String> = Vec::new();
    push_optional_line(&mut lines, &ec.cwd, "  <cwd>", "</cwd>");
    let ghost s1 = texts(lines@);
    if let Some(environments) = &ec.environments {
        push_environment_lines(&mut lines, environments);
    }
    let ghost s2 = texts(lines@);
    assert(s2 =~= s1 + (match c.environments {
        Some(envs) => environments_section(envs),
        None => Seq::<Seq<char>>::empty(),
    }));
    let shell_name = ec.shell.name();
    push_line(&mut lines, enclose("  <shell>", shell_name, "</shell>"));
    push_optional_line(&mut lines, &ec.current_date, "  <current_date>", "</current_date>");
    push_optional_line(&mut lines, &ec.timezone, "  <timezone>", "</timezone>");
    let ghost s3 = texts(lines@);
    if let Some(network) = &ec.network {
        push_network_lines(&mut lines, network);
    }
    let ghost s4 = texts(lines@);
    assert(s4 =~= s3 + (match c.network {
        Some(n) => network_section(n),
        None => Seq::<Seq<char>>::empty(),
    }));
    if let Some(subagents) = &ec.subagents {
        push_subagent_lines(&mut lines, subagents);
    }
    assert(texts(lines@) =~= s4 + (match c.subagents {
        Some(s) => subagents_section(s),
        None => Seq::<Seq<char>>::empty(),
    }));
    assert(texts(lines@) =~= xml_lines(c));
    lines
}

impl EnvironmentContext {
    /// Serializes the environment context to XML. Output looks like:
    ///
    /// ```xml
    /// <environment_context>
    ///   <cwd>...</cwd>
    ///   <shell>...</shell>
    /// </environment_context>
    /// ```
    pub fn serialize_to_xml(self) -> (xml: String)
        ensures
            xml@ == environment_context_xml(self@),
    {
        let lines = xml_body_lines(&self);
        let newline = "\n";
        proof {
            reveal_strlit("\n");
        }
        assert(newline@ =~= seq!['\n']);
        let body = join(&lines, newline);
        environment_context_fragment().wrap(body)
    }
}

} // verus!
