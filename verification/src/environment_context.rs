use vstd::prelude::*;

use crate::path::{paths_eq, same_path};
use crate::shell::{Shell, ShellView, same_shell};
use crate::text::{clone_option_string, clone_strings, option_string_eq, option_text, strings_eq, texts};
use crate::turn_context::{TurnContext, TurnContextItem, TurnEnvironment};

verus! {

/// The environment context of a turn: what the model is told about where
/// and how its commands run. Working directories are held as the text of
/// their paths.
#[derive(Debug)]
pub struct EnvironmentContext {
    pub cwd: Option<String>,
    pub environments: Option<Vec<EnvironmentContextEnvironment>>,
    pub shell: Shell,
    pub current_date: Option<String>,
    pub timezone: Option<String>,
    pub network: Option<NetworkContext>,
    pub subagents: Option<String>,
}

/// One execution environment named in the environment context.
#[derive(Debug)]
pub struct EnvironmentContextEnvironment {
    pub id: String,
    pub cwd: String,
    pub primary: bool,
}

/// The network policy named in the environment context.
#[derive(Debug, PartialEq, Eq)]
pub struct NetworkContext {
    pub allowed_domains: Vec<String>,
    pub denied_domains: Vec<String>,
}

/// An environment seen as the texts of its id and working directory.
#[verifier::ext_equal]
pub struct EnvironmentView {
    pub id: Seq<char>,
    pub cwd: Seq<char>,
    pub primary: bool,
}

/// A network policy seen as its two lists of domains.
#[verifier::ext_equal]
pub struct NetworkView {
    pub allowed_domains: Seq<Seq<char>>,
    pub denied_domains: Seq<Seq<char>>,
}

/// An environment context seen as plain values.
#[verifier::ext_equal]
pub struct EnvironmentContextView {
    pub cwd: Option<Seq<char>>,
    pub environments: Option<Seq<EnvironmentView>>,
    pub shell: ShellView,
    pub current_date: Option<Seq<char>>,
    pub timezone: Option<Seq<char>>,
    pub network: Option<NetworkView>,
    pub subagents: Option<Seq<char>>,
}

impl View for EnvironmentContextEnvironment {
    type V = EnvironmentView;

    open spec fn view(&self) -> EnvironmentView {
        EnvironmentView { id: self.id@, cwd: self.cwd@, primary: self.primary }
    }
}

impl View for NetworkContext {
    type V = NetworkView;

    open spec fn view(&self) -> NetworkView {
        NetworkView {
            allowed_domains: texts(self.allowed_domains@),
            denied_domains: texts(self.denied_domains@),
        }
    }
}

/// The views of a list of environments.
pub open spec fn environment_views(v: Seq<EnvironmentContextEnvironment>) -> Seq<EnvironmentView> {
    v.map_values(|e: EnvironmentContextEnvironment| e@)
}

pub open spec fn option_environment_views(
    o: Option<Vec<EnvironmentContextEnvironment>>,
) -> Option<Seq<EnvironmentView>> {
    match o {
        Some(v) => Some(environment_views(v@)),
        None => None,
    }
}

pub open spec fn option_network_view(o: Option<NetworkContext>) -> Option<NetworkView> {
    match o {
        Some(n) => Some(n@),
        None => None,
    }
}

impl View for EnvironmentContext {
    type V = EnvironmentContextView;

    open spec fn view(&self) -> EnvironmentContextView {
        EnvironmentContextView {
            cwd: option_text(self.cwd),
            environments: option_environment_views(self.environments),
            shell: self.shell@,
            current_date: option_text(self.current_date),
            timezone: option_text(self.timezone),
            network: option_network_view(self.network),
            subagents: option_text(self.subagents),
        }
    }
}

impl Clone for EnvironmentContextEnvironment {
    fn clone(&self) -> (r: Self)
        ensures
            r@ == self@,
    {
        EnvironmentContextEnvironment { id: self.id.clone(), cwd: self.cwd.clone(), primary: self.primary }
    }
}

impl Clone for NetworkContext {
    fn clone(&self) -> (r: Self)
        ensures
            r@ == self@,
    {
        NetworkContext {
            allowed_domains: clone_strings(&self.allowed_domains),
            denied_domains: clone_strings(&self.denied_domains),
        }
    }
}

/// A copy of a list of environments.
fn clone_environments(v: &Vec<EnvironmentContextEnvironment>) -> (r: Vec<EnvironmentContextEnvironment>)
    ensures
        environment_views(r@) == environment_views(v@),
{
    let mut r: Vec<EnvironmentContextEnvironment> = Vec::new();
    let mut i: usize = 0;
    while i < v.len()
        invariant
            i <= v.len(),
            environment_views(r@) == environment_views(v@).take(i as int),
        decreases v.len() - i,
    {
        let item = v[i].clone();
        let ghost before = r@;
        r.push(item);
        assert(environment_views(r@) =~= environment_views(before).push(item@));
        i = i + 1;
        assert(environment_views(r@) =~= environment_views(v@).take(i as int));
    }
    assert(environment_views(v@).take(v.len() as int) =~= environment_views(v@));
    r
}

impl Clone for EnvironmentContext {
    fn clone(&self) -> (r: Self)
        ensures
            r@ == self@,
    {
        let environments = match &self.environments {
            Some(list) => Some(clone_environments(list)),
            None => None,
        };
        let network = match &self.network {
            Some(n) => Some(n.clone()),
            None => None,
        };
        EnvironmentContext {
            cwd: clone_option_string(&self.cwd),
            environments,
            shell: self.shell.clone(),
            current_date: clone_option_string(&self.current_date),
            timezone: clone_option_string(&self.timezone),
            network,
            subagents: clone_option_string(&self.subagents),
        }
    }
}

impl Default for NetworkContext {
    fn default() -> (n: NetworkContext)
        ensures
            n@.allowed_domains.len() == 0,
            n@.denied_domains.len() == 0,
    {
        NetworkContext { allowed_domains: Vec::new(), denied_domains: Vec::new() }
    }
}

/// Whether two optional path texts are both absent, or both present and
/// the same path.
pub open spec fn same_optional_path(a: Option<Seq<char>>, b: Option<Seq<char>>) -> bool {
    match (a, b) {
        (Some(x), Some(y)) => same_path(x, y),
        (None, None) => true,
        _ => false,
    }
}

/// Whether two environments have the same id, the same directory (as paths)
/// and the same primary mark.
pub open spec fn same_environment(a: EnvironmentView, b: EnvironmentView) -> bool {
    a.id == b.id && same_path(a.cwd, b.cwd) && a.primary == b.primary
}

/// Whether two lists of environments are the same, element by element.
pub open spec fn same_environment_list(a: Seq<EnvironmentView>, b: Seq<EnvironmentView>) -> bool {
    a.len() == b.len() && forall|i: int| 0 <= i < a.len() ==> #[trigger] same_environment(a[i], b[i])
}

/// Whether two optional lists of environments are both absent, or both
/// present and the same.
pub open spec fn same_optional_environments(
    a: Option<Seq<EnvironmentView>>,
    b: Option<Seq<EnvironmentView>>,
) -> bool {
    match (a, b) {
        (Some(x), Some(y)) => same_environment_list(x, y),
        (None, None) => true,
        _ => false,
    }
}

fn option_path_eq(a: &Option<String>, b: &Option<String>) -> (r: bool)
    ensures
        r == same_optional_path(option_text(*a), option_text(*b)),
        r == same_optional_path(option_text(*b), option_text(*a)),
        option_text(*a) == option_text(*b) ==> r,
        r ==> forall|c: Option<Seq<char>>|
            #![trigger same_optional_path(option_text(*a), c)]
            #![trigger same_optional_path(option_text(*b), c)]
            same_optional_path(option_text(*b), c) == same_optional_path(option_text(*a), c),
{
    match (a, b) {
        (Some(x), Some(y)) => paths_eq(x.as_str(), y.as_str()),
        (None, None) => true,
        _ => false,
    }
}

/// Whether two environments have the same id, directory and primary mark.
fn environment_eq(a: &EnvironmentContextEnvironment, b: &EnvironmentContextEnvironment) -> (r: bool)
    ensures
        r == same_environment(a@, b@),
        r == same_environment(b@, a@),
        a@ == b@ ==> r,
        r ==> forall|e: EnvironmentView|
            #![trigger same_environment(a@, e)]
            #![trigger same_environment(b@, e)]
            same_environment(b@, e) == same_environment(a@, e),
{
    a.id == b.id && paths_eq(a.cwd.as_str(), b.cwd.as_str()) && a.primary == b.primary
}

/// Whether two lists of environments are the same, element by element.
fn environments_eq(a: &Vec<EnvironmentContextEnvironment>, b: &Vec<EnvironmentContextEnvironment>) -> (r: bool)
    ensures
        r == same_environment_list(environment_views(a@), environment_views(b@)),
        r == same_environment_list(environment_views(b@), environment_views(a@)),
        environment_views(a@) == environment_views(b@) ==> r,
        r ==> forall|c: Seq<EnvironmentView>|
            #![trigger same_environment_list(environment_views(a@), c)]
            #![trigger same_environment_list(environment_views(b@), c)]
            same_environment_list(environment_views(b@), c) == same_environment_list(
                environment_views(a@),
                c,
            ),
{
    let ghost va = environment_views(a@);
    let ghost vb = environment_views(b@);
    if a.len() != b.len() {
        assert(va.len() != vb.len());
        return false;
    }
    let mut i: usize = 0;
    while i < a.len()
        invariant
            i <= a.len() == b.len(),
            va == environment_views(a@),
            vb == environment_views(b@),
            forall|j: int| 0 <= j < i ==> same_environment(#[trigger] va[j], vb[j]),
            forall|j: int| 0 <= j < i ==> same_environment(#[trigger] vb[j], va[j]),
            forall|j: int, e: EnvironmentView|
                #![trigger same_environment(va[j], e)]
                #![trigger same_environment(vb[j], e)]
                0 <= j < i ==> same_environment(vb[j], e) == same_environment(va[j], e),
        decreases a.len() - i,
    {
        if !environment_eq(&a[i], &b[i]) {
            assert(!same_environment(va[i as int], vb[i as int]));
            assert(!same_environment(vb[i as int], va[i as int]));
            assert(va[i as int] != vb[i as int]);
            return false;
        }
        i = i + 1;
    }
    assert forall|c: Seq<EnvironmentView>|
        #![trigger same_environment_list(va, c)]
        #![trigger same_environment_list(vb, c)]
        same_environment_list(vb, c) == same_environment_list(va, c) by {
        if c.len() == va.len() {
            assert forall|j: int| 0 <= j < c.len() implies same_environment(vb[j], c[j])
                == same_environment(va[j], c[j]) by {}
        }
    }
    true
}

fn option_environments_eq(
    a: &Option<Vec<EnvironmentContextEnvironment>>,
    b: &Option<Vec<EnvironmentContextEnvironment>>,
) -> (r: bool)
    ensures
        r == same_optional_environments(option_environment_views(*a), option_environment_views(*b)),
        r == same_optional_environments(option_environment_views(*b), option_environment_views(*a)),
        option_environment_views(*a) == option_environment_views(*b) ==> r,
        r ==> forall|c: Option<Seq<EnvironmentView>>|
            #![trigger same_optional_environments(option_environment_views(*a), c)]
            #![trigger same_optional_environments(option_environment_views(*b), c)]
            same_optional_environments(option_environment_views(*b), c)
                == same_optional_environments(option_environment_views(*a), c),
{
    match (a, b) {
        (Some(x), Some(y)) => environments_eq(x, y),
        (None, None) => true,
        _ => false,
    }
}

impl PartialEq for EnvironmentContextEnvironment {
    fn eq(&self, other: &EnvironmentContextEnvironment) -> (r: bool) {
        environment_eq(self, other)
    }
}

impl vstd::std_specs::cmp::PartialEqSpecImpl for EnvironmentContextEnvironment {
    open spec fn obeys_eq_spec() -> bool {
        true
    }

    open spec fn eq_spec(&self, other: &EnvironmentContextEnvironment) -> bool {
        same_environment(self@, other@)
    }
}

fn network_eq(a: &NetworkContext, b: &NetworkContext) -> (r: bool)
    ensures
        r == (a@ == b@),
{
    strings_eq(&a.allowed_domains, &b.allowed_domains) && strings_eq(&a.denied_domains, &b.denied_domains)
}

fn option_network_eq(a: &Option<NetworkContext>, b: &Option<NetworkContext>) -> (r: bool)
    ensures
        r == (option_network_view(*a) == option_network_view(*b)),
{
    match (a, b) {
        (Some(x), Some(y)) => network_eq(x, y),
        (None, None) => true,
        _ => false,
    }
}


/// The domains of an optional list, none where the list is absent.
pub open spec fn domains_or_empty(o: Option<Vec<String>>) -> Seq<Seq<char>> {
    match o {
        Some(v) => texts(v@),
        None => Seq::<Seq<char>>::empty(),
    }
}

/// The network policy of a live turn: present where the configuration has
/// network requirements, with the domain lists it gives (empty where it
/// gives none).
pub open spec fn turn_network(tc: TurnContext) -> Option<NetworkView> {
    match tc.network {
        None => None,
        Some(req) => Some(
            match req.domains {
                Some(d) => NetworkView {
                    allowed_domains: domains_or_empty(d.allowed_domains),
                    denied_domains: domains_or_empty(d.denied_domains),
                },
                None => NetworkView {
                    allowed_domains: Seq::<Seq<char>>::empty(),
                    denied_domains: Seq::<Seq<char>>::empty(),
                },
            },
        ),
    }
}

/// The network policy recorded for a past turn.
pub open spec fn item_network(item: TurnContextItem) -> Option<NetworkView> {
    match item.network {
        None => None,
        Some(n) => Some(
            NetworkView {
                allowed_domains: texts(n.allowed_domains@),
                denied_domains: texts(n.denied_domains@),
            },
        ),
    }
}

/// The environments of a live turn that have an id, in order; the one at
/// position 0 of the turn's list is the primary one.
pub open spec fn listed_environments(envs: Seq<TurnEnvironment>) -> Seq<EnvironmentView>
    decreases envs.len(),
{
    if envs.len() == 0 {
        Seq::<EnvironmentView>::empty()
    } else {
        let earlier = listed_environments(envs.drop_last());
        match envs.last().environment_id {
            Some(id) => earlier.push(
                EnvironmentView { id: id@, cwd: envs.last().cwd@, primary: envs.len() == 1 },
            ),
            None => earlier,
        }
    }
}

/// The environments named for a live turn: none unless the multi-environment
/// tools are on and the turn has environments.
pub open spec fn turn_environments(tc: TurnContext) -> Option<Seq<EnvironmentView>> {
    if !tc.multi_environment_tools || tc.environments@.len() == 0 {
        None
    } else {
        Some(listed_environments(tc.environments@))
    }
}

/// The environments recorded for a past turn: none where the record has no
/// list or an empty one; the first is the primary one.
pub open spec fn item_environments(item: TurnContextItem) -> Option<Seq<EnvironmentView>> {
    match item.environments {
        None => None,
        Some(v) => if v@.len() == 0 {
            None
        } else {
            Some(
                Seq::new(
                    v@.len(),
                    |i: int|
                        EnvironmentView {
                            id: v@[i].environment_id@,
                            cwd: v@[i].cwd@,
                            primary: i == 0,
                        },
                ),
            )
        },
    }
}

/// The environments that a diff names: those of the live turn, where they
/// are not the same as the recorded ones.
pub open spec fn diff_environments(before: TurnContextItem, after: TurnContext) -> Option<
    Seq<EnvironmentView>,
> {
    if same_optional_environments(item_environments(before), turn_environments(after)) {
        None
    } else {
        turn_environments(after)
    }
}

/// Whether two contexts agree on everything but the shell, comparing
/// working directories as paths.
pub open spec fn same_except_shell(a: EnvironmentContextView, b: EnvironmentContextView) -> bool {
    &&& same_optional_path(a.cwd, b.cwd)
    &&& same_optional_environments(a.environments, b.environments)
    &&& a.current_date == b.current_date
    &&& a.timezone == b.timezone
    &&& a.network == b.network
    &&& a.subagents == b.subagents
}

/// Whether two contexts hold the same values in every field but the shell.
pub open spec fn same_fields_except_shell(a: EnvironmentContextView, b: EnvironmentContextView) -> bool {
    &&& a.cwd == b.cwd
    &&& a.environments == b.environments
    &&& a.current_date == b.current_date
    &&& a.timezone == b.timezone
    &&& a.network == b.network
    &&& a.subagents == b.subagents
}

/// The context of a live turn: the working directory of its default
/// environment, its environments, the shell, its date and time zone and its
/// network policy; no subagents.
pub open spec fn turn_context_view(tc: TurnContext, shell: ShellView) -> EnvironmentContextView {
    EnvironmentContextView {
        cwd: Some(tc.default_environment_cwd@),
        environments: turn_environments(tc),
        shell: shell,
        current_date: option_text(tc.current_date),
        timezone: option_text(tc.timezone),
        network: turn_network(tc),
        subagents: None,
    }
}

/// The context recorded for a past turn.
pub open spec fn item_context_view(item: TurnContextItem, shell: ShellView) -> EnvironmentContextView {
    EnvironmentContextView {
        cwd: Some(item.cwd@),
        environments: item_environments(item),
        shell: shell,
        current_date: option_text(item.current_date),
        timezone: option_text(item.timezone),
        network: item_network(item),
        subagents: None,
    }
}

/// The context that tells a live turn what changed since a recorded one:
/// the turn's working directory where it is not the same path as the
/// recorded one, its environments where they differ, and its date, time zone and network policy; no subagents.
pub open spec fn diff_context_view(
    before: TurnContextItem,
    after: TurnContext,
    shell: ShellView,
) -> EnvironmentContextView {
    EnvironmentContextView {
        cwd: if !same_path(before.cwd@, after.cwd@) {
            Some(after.cwd@)
        } else {
            None
        },
        environments: diff_environments(before, after),
        shell: shell,
        current_date: option_text(after.current_date),
        timezone: option_text(after.timezone),
        network: turn_network(after),
        subagents: None,
    }
}

impl EnvironmentContext {
    /// A context with the given fields and no environments.
    pub fn new(
        cwd: Option<String>,
        shell: Shell,
        current_date: Option<String>,
        timezone: Option<String>,
        network: Option<NetworkContext>,
        subagents: Option<String>,
    ) -> (ec: Self)
        ensures
            ec@ == (EnvironmentContextView {
                cwd: option_text(cwd),
                environments: None,
                shell: shell@,
                current_date: option_text(current_date),
                timezone: option_text(timezone),
                network: option_network_view(network),
                subagents: option_text(subagents),
            }),
    {
        Self::new_with_environments(cwd, None, shell, current_date, timezone, network, subagents)
    }

    pub fn new_with_environments(
        cwd: Option<String>,
        environments: Option<Vec<EnvironmentContextEnvironment>>,
        shell: Shell,
        current_date: Option<String>,
        timezone: Option<String>,
        network: Option<NetworkContext>,
        subagents: Option<String>,
    ) -> (ec: Self)
        ensures
            ec@ == (EnvironmentContextView {
                cwd: option_text(cwd),
                environments: option_environment_views(environments),
                shell: shell@,
                current_date: option_text(current_date),
                timezone: option_text(timezone),
                network: option_network_view(network),
                subagents: option_text(subagents),
            }),
    {
        Self { cwd, environments, shell, current_date, timezone, network, subagents }
    }

    /// Compares two environment contexts, ignoring the shell. Useful when
    /// comparing turn to turn, since the initial environment_context will
    /// include the shell, and then it is not configurable from turn to turn.
    pub fn equals_except_shell(&self, other: &EnvironmentContext) -> (r: bool)
        ensures
            r == same_except_shell(self@, other@),
            r == same_except_shell(other@, self@),
            same_fields_except_shell(self@, other@) ==> r,
            r ==> forall|c: EnvironmentContextView|
                #![trigger same_except_shell(self@, c)]
                #![trigger same_except_shell(other@, c)]
                same_except_shell(other@, c) == same_except_shell(self@, c),
    {
        option_path_eq(&self.cwd, &other.cwd) && option_environments_eq(
            &self.environments,
            &other.environments,
        ) && option_string_eq(&self.current_date, &other.current_date) && option_string_eq(
            &self.timezone,
            &other.timezone,
        ) && option_network_eq(&self.network, &other.network) && option_string_eq(
            &self.subagents,
            &other.subagents,
        )
    }

    /// The context for a live turn that tells what changed since a recorded
    /// one: the working directory where it moved, the environments where they
    /// differ, and the live date, time zone and network policy.
    pub fn diff_from_turn_context_item(
        before: &TurnContextItem,
        after: &TurnContext,
        shell: &Shell,
    ) -> (ec: Self)
        ensures
            ec@ == diff_context_view(*before, *after, shell@),
    {
        let before_network = Self::network_from_turn_context_item(before);
        let after_network = Self::network_from_turn_context(after);
        let cwd = if !paths_eq(before.cwd.as_str(), after.cwd.as_str()) {
            Some(after.cwd.clone())
        } else {
            None
        };
        let current_date = clone_option_string(&after.current_date);
        let timezone = clone_option_string(&after.timezone);
        let network = if !option_network_eq(&before_network, &after_network) {
            after_network
        } else {
            before_network
        };
        EnvironmentContext::new_with_environments(
            cwd,
            Self::environments_for_diff(before, after),
            shell.clone(),
            current_date,
            timezone,
            network,
            None,
        )
    }

    /// The context of a live turn.
    pub fn from_turn_context(turn_context: &TurnContext, shell: &Shell) -> (ec: Self)
        ensures
            ec@ == turn_context_view(*turn_context, shell@),
    {
        let cwd = turn_context.default_environment_cwd.clone();
        Self::new_with_environments(
            Some(cwd),
            Self::environments_from_turn_context(turn_context),
            shell.clone(),
            clone_option_string(&turn_context.current_date),
            clone_option_string(&turn_context.timezone),
            Self::network_from_turn_context(turn_context),
            None,
        )
    }

    /// The context recorded for a past turn.
    pub fn from_turn_context_item(turn_context_item: &TurnContextItem, shell: &Shell) -> (ec: Self)
        ensures
            ec@ == item_context_view(*turn_context_item, shell@),
    {
        Self::new_with_environments(
            Some(turn_context_item.cwd.clone()),
            Self::environments_from_turn_context_item(turn_context_item),
            shell.clone(),
            clone_option_string(&turn_context_item.current_date),
            clone_option_string(&turn_context_item.timezone),
            Self::network_from_turn_context_item(turn_context_item),
            None,
        )
    }

    /// The context with the given subagents listing; an empty listing leaves
    /// the context as it is.
    pub fn with_subagents(self, subagents: String) -> (ec: Self)
        ensures
            ec@ == (if subagents@.len() == 0 {
                self@
            } else {
                EnvironmentContextView {
                    cwd: self@.cwd,
                    environments: self@.environments,
                    shell: self@.shell,
                    current_date: self@.current_date,
                    timezone: self@.timezone,
                    network: self@.network,
                    subagents: Some(subagents@),
                }
            }),
    {
        let mut ec = self;
        if !subagents.as_str().is_empty() {
            ec.subagents = Some(subagents);
        }
        ec
    }

    fn network_from_turn_context(turn_context: &TurnContext) -> (n: Option<NetworkContext>)
        ensures
            option_network_view(n) == turn_network(*turn_context),
    {
        let network = match &turn_context.network {
            Some(network) => network,
            None => return None,
        };
        let allowed_domains = match &network.domains {
            Some(domains) => match &domains.allowed_domains {
                Some(list) => clone_strings(list),
                None => Vec::new(),
            },
            None => Vec::new(),
        };
        let denied_domains = match &network.domains {
            Some(domains) => match &domains.denied_domains {
                Some(list) => clone_strings(list),
                None => Vec::new(),
            },
            None => Vec::new(),
        };
        let n = NetworkContext { allowed_domains, denied_domains };
        assert(n@ =~= turn_network(*turn_context).unwrap());
        Some(n)
    }

    fn network_from_turn_context_item(turn_context_item: &TurnContextItem) -> (n: Option<NetworkContext>)
        ensures
            option_network_view(n) == item_network(*turn_context_item),
    {
        match &turn_context_item.network {
            Some(network) => Some(
                NetworkContext {
                    allowed_domains: clone_strings(&network.allowed_domains),
                    denied_domains: clone_strings(&network.denied_domains),
                },
            ),
            None => None,
        }
    }

    pub fn environments_from_turn_context(turn_context: &TurnContext) -> (envs: Option<
        Vec<EnvironmentContextEnvironment>,
    >)
        ensures
            option_environment_views(envs) == turn_environments(*turn_context),
    {
        if !turn_context.multi_environment_tools {
            return None;
        }
        if turn_context.environments.len() == 0 {
            return None;
        }
        let ghost all = turn_context.environments@;
        let mut listed: Vec<EnvironmentContextEnvironment> = Vec::new();
        let mut index: usize = 0;
        assert(all.take(0) =~= Seq::<TurnEnvironment>::empty());
        while index < turn_context.environments.len()
            invariant
                all == turn_context.environments@,
                index <= all.len(),
                environment_views(listed@) == listed_environments(all.take(index as int)),
            decreases all.len() - index,
        {
            let environment = &turn_context.environments[index];
            let ghost before = listed@;
            assert(all.take(index + 1).drop_last() =~= all.take(index as int));
            match &environment.environment_id {
                Some(id) => {
                    let entry = EnvironmentContextEnvironment {
                        id: id.clone(),
                        cwd: environment.cwd.clone(),
                        primary: index == 0,
                    };
                    listed.push(entry);
                    assert(environment_views(listed@) =~= environment_views(before).push(entry@));
                },
                None => {},
            }
            index = index + 1;
        }
        assert(all.take(all.len() as int) =~= all);
        Some(listed)
    }

    fn environments_from_turn_context_item(turn_context_item: &TurnContextItem) -> (envs: Option<
        Vec<EnvironmentContextEnvironment>,
    >)
        ensures
            option_environment_views(envs) == item_environments(*turn_context_item),
    {
        let environments = match &turn_context_item.environments {
            Some(environments) => environments,
            None => return None,
        };
        if environments.len() == 0 {
            return None;
        }
        let mut listed: Vec<EnvironmentContextEnvironment> = Vec::new();
        let mut index: usize = 0;
        while index < environments.len()
            invariant
                index <= environments.len(),
                listed@.len() == index,
                forall|j: int|
                    0 <= j < index ==> #[trigger] listed@[j]@ == (EnvironmentView {
                        id: environments@[j].environment_id@,
                        cwd: environments@[j].cwd@,
                        primary: j == 0,
                    }),
            decreases environments.len() - index,
        {
            let environment = &environments[index];
            listed.push(
                EnvironmentContextEnvironment {
                    id: environment.environment_id.clone(),
                    cwd: environment.cwd.clone(),
                    primary: index == 0,
                },
            );
            index = index + 1;
        }
        assert(environment_views(listed@) =~= item_environments(*turn_context_item).unwrap());
        Some(listed)
    }

    fn environments_for_diff(before: &TurnContextItem, after: &TurnContext) -> (envs: Option<
        Vec<EnvironmentContextEnvironment>,
    >)
        ensures
            option_environment_views(envs) == diff_environments(*before, *after),
    {
        let before_environments = Self::environments_from_turn_context_item(before);
        let after_environments = Self::environments_from_turn_context(after);
        if option_environments_eq(&before_environments, &after_environments) {
            None
        } else {
            after_environments
        }
    }
}

impl PartialEq for EnvironmentContext {
    fn eq(&self, other: &EnvironmentContext) -> (r: bool) {
        self.equals_except_shell(other) && self.shell == other.shell
    }
}

impl vstd::std_specs::cmp::PartialEqSpecImpl for EnvironmentContext {
    open spec fn obeys_eq_spec() -> bool {
        true
    }

    open spec fn eq_spec(&self, other: &EnvironmentContext) -> bool {
        same_except_shell(self@, other@) && same_shell(self.shell@, other.shell@)
    }
}

} // verus!
