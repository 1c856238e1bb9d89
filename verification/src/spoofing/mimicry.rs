//! Detection of tools that imitate the tools of trusted servers, and of
//! tool names that two servers both claim.

use crate::gateway::{Tool, ToolView};
use crate::spoofing::config::{GuardConfig, WhitelistEntry, WhitelistEntryView};
use crate::spoofing::fingerprint::{compute_tool_fingerprint, tool_fingerprint};
use crate::spoofing::state::{FingerprintMap, RegistryView, ToolRegistry};
use crate::text::{
    chars_eq, entry_keys, first_index, inserted, lemma_first_index_finds, lemma_inserted_holds,
    lemma_inserted_keeps_keys, lowercase_chars, lowercased, to_chars,
};
use vstd::prelude::*;

verus! {

/// How a tool matches a trusted tool.
#[derive(Clone, Copy, Debug, PartialEq, Eq, Structural)]
pub enum MatchType {
    /// The tool has the fingerprint recorded for a trusted tool.
    ExactFingerprint,
    /// The tool has the name of a trusted tool, letter case aside.
    NameCollision,
}

/// The mathematical content of a [`MimicryFinding`].
pub struct MimicryFindingView {
    pub tool_name: Seq<char>,
    pub mimics_server: Seq<char>,
    pub mimics_tool: Seq<char>,
    pub match_type: MatchType,
}

/// A tool that imitates a tool of a whitelisted server.
#[derive(Debug, Clone)]
pub struct MimicryFinding {
    pub tool_name: String,
    pub mimics_server: String,
    pub mimics_tool: String,
    pub match_type: MatchType,
}

impl View for MimicryFinding {
    type V = MimicryFindingView;

    open spec fn view(&self) -> MimicryFindingView {
        MimicryFindingView {
            tool_name: self.tool_name@,
            mimics_server: self.mimics_server@,
            mimics_tool: self.mimics_tool@,
            match_type: self.match_type,
        }
    }
}

impl DeepView for MimicryFinding {
    type V = MimicryFindingView;

    open spec fn deep_view(&self) -> MimicryFindingView {
        self.view()
    }
}

/// The mathematical content of a [`CollisionFinding`].
pub struct CollisionFindingView {
    pub tool_name: Seq<char>,
    pub this_server: Seq<char>,
    pub other_server: Seq<char>,
}

/// A tool name that another registered server already uses.
#[derive(Debug, Clone)]
pub struct CollisionFinding {
    pub tool_name: String,
    pub this_server: String,
    pub other_server: String,
}

impl View for CollisionFinding {
    type V = CollisionFindingView;

    open spec fn view(&self) -> CollisionFindingView {
        CollisionFindingView {
            tool_name: self.tool_name@,
            this_server: self.this_server@,
            other_server: self.other_server@,
        }
    }
}

impl DeepView for CollisionFinding {
    type V = CollisionFindingView;

    open spec fn deep_view(&self) -> CollisionFindingView {
        self.view()
    }
}

/// The index of the first trusted tool, from index `k` on, whose recorded
/// fingerprint is `fingerprint`.
pub open spec fn fingerprint_index(
    trusted: Seq<(Seq<char>, Seq<char>)>,
    fingerprint: Seq<char>,
    k: int,
) -> Option<int>
    decreases trusted.len() - k,
{
    if k < 0 || k >= trusted.len() {
        None
    } else if trusted[k].1 == fingerprint {
        Some(k)
    } else {
        fingerprint_index(trusted, fingerprint, k + 1)
    }
}

/// The index of the first trusted tool, from index `k` on, whose name
/// equals `name`, letter case aside.
pub open spec fn name_index(
    trusted: Seq<(Seq<char>, Seq<char>)>,
    name: Seq<char>,
    k: int,
) -> Option<int>
    decreases trusted.len() - k,
{
    if k < 0 || k >= trusted.len() {
        None
    } else if lowercased(trusted[k].0) == lowercased(name) {
        Some(k)
    } else {
        name_index(trusted, name, k + 1)
    }
}

/// What a tool with the given fingerprint imitates in one whitelist entry:
/// a trusted tool with the same fingerprint, else a trusted tool with the
/// same name.
pub open spec fn entry_finding(
    tool: ToolView,
    fingerprint: Seq<char>,
    entry: WhitelistEntryView,
) -> Option<MimicryFindingView> {
    match fingerprint_index(entry.tool_fingerprints, fingerprint, 0) {
        Some(k) => Some(
            MimicryFindingView {
                tool_name: tool.name,
                mimics_server: entry.name,
                mimics_tool: entry.tool_fingerprints[k].0,
                match_type: MatchType::ExactFingerprint,
            },
        ),
        None => match name_index(entry.tool_fingerprints, tool.name, 0) {
            Some(k) => Some(
                MimicryFindingView {
                    tool_name: tool.name,
                    mimics_server: entry.name,
                    mimics_tool: entry.tool_fingerprints[k].0,
                    match_type: MatchType::NameCollision,
                },
            ),
            None => None,
        },
    }
}

/// The first finding for one tool among the whitelist entries from index
/// `k` on. Entries with the server's own name, letter case aside, are
/// passed over.
pub open spec fn tool_finding(
    server_name: Seq<char>,
    tool: ToolView,
    fingerprint: Seq<char>,
    whitelist: Seq<WhitelistEntryView>,
    k: int,
) -> Option<MimicryFindingView>
    decreases whitelist.len() - k,
{
    if k < 0 || k >= whitelist.len() {
        None
    } else if lowercased(whitelist[k].name) == lowercased(server_name) {
        tool_finding(server_name, tool, fingerprint, whitelist, k + 1)
    } else {
        match entry_finding(tool, fingerprint, whitelist[k]) {
            Some(finding) => Some(finding),
            None => tool_finding(server_name, tool, fingerprint, whitelist, k + 1),
        }
    }
}

/// The first finding among the tools from index `t` on: tools in order, for
/// each tool the whitelist entries in order.
pub open spec fn mimicry_finding(
    server_name: Seq<char>,
    tools: Seq<ToolView>,
    whitelist: Seq<WhitelistEntryView>,
    t: int,
) -> Option<MimicryFindingView>
    decreases tools.len() - t,
{
    if t < 0 || t >= tools.len() {
        None
    } else {
        match tool_finding(server_name, tools[t], tool_fingerprint(tools[t]), whitelist, 0) {
            Some(finding) => Some(finding),
            None => mimicry_finding(server_name, tools, whitelist, t + 1),
        }
    }
}

/// The index of the first registered server, from index `k` on, that is
/// not `server_name` (letter case aside) and has a tool called
/// `tool_name`.
pub open spec fn colliding_server(
    registry: RegistryView,
    server_name: Seq<char>,
    tool_name: Seq<char>,
    k: int,
) -> Option<int>
    decreases registry.len() - k,
{
    if k < 0 || k >= registry.len() {
        None
    } else if lowercased(registry[k].0) != lowercased(server_name) && first_index(
        entry_keys(registry[k].1),
        tool_name,
        0,
    ) is Some {
        Some(k)
    } else {
        colliding_server(registry, server_name, tool_name, k + 1)
    }
}

/// The first collision among the tools from index `t` on: tools in order,
/// for each tool the registered servers in order.
pub open spec fn namespace_collision(
    registry: RegistryView,
    server_name: Seq<char>,
    tools: Seq<ToolView>,
    t: int,
) -> Option<CollisionFindingView>
    decreases tools.len() - t,
{
    if t < 0 || t >= tools.len() {
        None
    } else {
        match colliding_server(registry, server_name, tools[t].name, 0) {
            Some(k) => Some(
                CollisionFindingView {
                    tool_name: tools[t].name,
                    this_server: server_name,
                    other_server: registry[k].0,
                },
            ),
            None => namespace_collision(registry, server_name, tools, t + 1),
        }
    }
}

/// The fingerprints of a list of tools by tool name; of two tools with one
/// name the later one counts.
pub open spec fn fingerprints_of(tools: Seq<ToolView>) -> Seq<(Seq<char>, Seq<char>)>
    decreases tools.len(),
{
    if tools.len() == 0 {
        Seq::empty()
    } else {
        inserted(
            fingerprints_of(tools.drop_last()),
            tools.last().name,
            tool_fingerprint(tools.last()),
        )
    }
}

/// The registry after a server has listed its tools: that server's entry
/// is replaced as a whole (or added), every other entry is unchanged.
pub open spec fn registered(
    registry: RegistryView,
    server_name: Seq<char>,
    tools: Seq<ToolView>,
) -> RegistryView {
    inserted(registry, server_name, fingerprints_of(tools))
}

/// A tool whose fingerprint is recorded for a trusted tool of a whitelist
/// entry under another name than the server's is reported, with that
/// entry, by an exact match of fingerprints.
pub proof fn lemma_fingerprint_match_is_found(
    tool: ToolView,
    fingerprint: Seq<char>,
    entry: WhitelistEntryView,
    k: int,
)
    requires
        0 <= k < entry.tool_fingerprints.len(),
        entry.tool_fingerprints[k].1 == fingerprint,
    ensures
        entry_finding(tool, fingerprint, entry) matches Some(finding) && finding.match_type
            == MatchType::ExactFingerprint && finding.mimics_server == entry.name,
{
    lemma_fingerprint_index(entry.tool_fingerprints, fingerprint, 0, k);
}

proof fn lemma_fingerprint_index(
    trusted: Seq<(Seq<char>, Seq<char>)>,
    fingerprint: Seq<char>,
    from: int,
    k: int,
)
    requires
        0 <= from <= k < trusted.len(),
        trusted[k].1 == fingerprint,
    ensures
        fingerprint_index(trusted, fingerprint, from) is Some,
    decreases k - from,
{
    if trusted[from].1 != fingerprint {
        lemma_fingerprint_index(trusted, fingerprint, from + 1, k);
    }
}

/// If some whitelist entry at or after `from`, under another name than the
/// server's, yields a finding for a tool, the whitelist as a whole does.
pub proof fn lemma_tool_finding_exists(
    server_name: Seq<char>,
    tool: ToolView,
    fingerprint: Seq<char>,
    whitelist: Seq<WhitelistEntryView>,
    from: int,
    e: int,
)
    requires
        0 <= from <= e < whitelist.len(),
        lowercased(whitelist[e].name) != lowercased(server_name),
        entry_finding(tool, fingerprint, whitelist[e]) is Some,
    ensures
        tool_finding(server_name, tool, fingerprint, whitelist, from) is Some,
    decreases e - from,
{
    if from < e {
        lemma_tool_finding_exists(server_name, tool, fingerprint, whitelist, from + 1, e);
    }
}

/// If some tool at or after `from` has a finding, the list as a whole has
/// one.
pub proof fn lemma_mimicry_finding_exists(
    server_name: Seq<char>,
    tools: Seq<ToolView>,
    whitelist: Seq<WhitelistEntryView>,
    from: int,
    t: int,
)
    requires
        0 <= from <= t < tools.len(),
        tool_finding(server_name, tools[t], tool_fingerprint(tools[t]), whitelist, 0) is Some,
    ensures
        mimicry_finding(server_name, tools, whitelist, from) is Some,
    decreases t - from,
{
    if from < t {
        lemma_mimicry_finding_exists(server_name, tools, whitelist, from + 1, t);
    }
}

/// If some registered server at or after `from`, other than the server
/// itself, has a tool of the given name, a colliding server is found.
pub proof fn lemma_colliding_server_exists(
    registry: RegistryView,
    server_name: Seq<char>,
    tool_name: Seq<char>,
    from: int,
    p: int,
)
    requires
        0 <= from <= p < registry.len(),
        lowercased(registry[p].0) != lowercased(server_name),
        first_index(entry_keys(registry[p].1), tool_name, 0) is Some,
    ensures
        colliding_server(registry, server_name, tool_name, from) is Some,
    decreases p - from,
{
    if from < p {
        lemma_colliding_server_exists(registry, server_name, tool_name, from + 1, p);
    }
}

/// If some tool at or after `from` collides with a registered server, a
/// collision is found.
pub proof fn lemma_namespace_collision_exists(
    registry: RegistryView,
    server_name: Seq<char>,
    tools: Seq<ToolView>,
    from: int,
    t: int,
)
    requires
        0 <= from <= t < tools.len(),
        colliding_server(registry, server_name, tools[t].name, 0) is Some,
    ensures
        namespace_collision(registry, server_name, tools, from) is Some,
    decreases t - from,
{
    if from < t {
        lemma_namespace_collision_exists(registry, server_name, tools, from + 1, t);
    }
}

/// The fingerprints of a list of tools hold an entry for the name of
/// every tool of the list.
pub proof fn lemma_fingerprints_hold_names(tools: Seq<ToolView>, i: int)
    requires
        0 <= i < tools.len(),
    ensures
        first_index(entry_keys(fingerprints_of(tools)), tools[i].name, 0) is Some,
    decreases tools.len(),
{
    let before = fingerprints_of(tools.drop_last());
    let last = tools.last();
    if i == tools.len() - 1 {
        lemma_inserted_holds(before, last.name, tool_fingerprint(last));
        let after = inserted(before, last.name, tool_fingerprint(last));
        let p = choose|p: int|
            0 <= p < after.len() && #[trigger] after[p] == (last.name, tool_fingerprint(last));
        assert(entry_keys(after)[p] == last.name);
        lemma_first_index_finds(entry_keys(after), last.name);
    } else {
        lemma_fingerprints_hold_names(tools.drop_last(), i);
        assert(tools.drop_last()[i] == tools[i]);
        lemma_inserted_keeps_keys(before, last.name, tool_fingerprint(last), tools[i].name);
    }
}

/// Looks in one whitelist entry for a trusted tool that the tool imitates.
fn check_entry(tool: &Tool, fingerprint: &Vec<char>, entry: &WhitelistEntry) -> (r: Option<
    MimicryFinding,
>)
    ensures
        r.deep_view() == entry_finding(tool@, fingerprint@, entry@),
{
    let ghost trusted = entry@.tool_fingerprints;
    let recorded_tools = entry.tool_fingerprints.entries();
    let mut k: usize = 0;
    while k < recorded_tools.len()
        invariant
            k <= recorded_tools@.len(),
            recorded_tools.deep_view() == trusted,
            trusted == entry@.tool_fingerprints,
            fingerprint_index(trusted, fingerprint@, 0) == fingerprint_index(
                trusted,
                fingerprint@,
                k as int,
            ),
        decreases recorded_tools.len() - k,
    {
        assert(trusted[k as int] == recorded_tools@[k as int].deep_view());
        let recorded = to_chars(recorded_tools[k].1.as_str());
        if chars_eq(&recorded, fingerprint) {
            return Some(
                MimicryFinding {
                    tool_name: tool.name.clone(),
                    mimics_server: entry.name.clone(),
                    mimics_tool: recorded_tools[k].0.clone(),
                    match_type: MatchType::ExactFingerprint,
                },
            );
        }
        k += 1;
    }
    let tool_lower = lowercase_chars(tool.name.as_str());
    let mut k: usize = 0;
    while k < recorded_tools.len()
        invariant
            k <= recorded_tools@.len(),
            recorded_tools.deep_view() == trusted,
            trusted == entry@.tool_fingerprints,
            tool_lower@ == lowercased(tool@.name),
            fingerprint_index(trusted, fingerprint@, 0) is None,
            name_index(trusted, tool@.name, 0) == name_index(trusted, tool@.name, k as int),
        decreases recorded_tools.len() - k,
    {
        assert(trusted[k as int] == recorded_tools@[k as int].deep_view());
        let trusted_lower = lowercase_chars(recorded_tools[k].0.as_str());
        if chars_eq(&trusted_lower, &tool_lower) {
            return Some(
                MimicryFinding {
                    tool_name: tool.name.clone(),
                    mimics_server: entry.name.clone(),
                    mimics_tool: recorded_tools[k].0.clone(),
                    match_type: MatchType::NameCollision,
                },
            );
        }
        k += 1;
    }
    None
}

/// Looks in the whole whitelist for a trusted tool that the tool imitates.
/// `server_lower` is the lowercase form of the server's name.
fn check_tool(
    Ghost(server_name): Ghost<Seq<char>>,
    server_lower: &Vec<char>,
    tool: &Tool,
    whitelist: &Vec<WhitelistEntry>,
) -> (r: Option<MimicryFinding>)
    requires
        server_lower@ == lowercased(server_name),
    ensures
        r.deep_view() == tool_finding(
            server_name,
            tool@,
            tool_fingerprint(tool@),
            whitelist.deep_view(),
            0,
        ),
{
    let ghost entries = whitelist.deep_view();
    let ghost fp = tool_fingerprint(tool@);
    let fingerprint = to_chars(compute_tool_fingerprint(tool).as_str());
    let mut k: usize = 0;
    while k < whitelist.len()
        invariant
            k <= whitelist.len(),
            entries == whitelist.deep_view(),
            fingerprint@ == fp,
            fp == tool_fingerprint(tool@),
            server_lower@ == lowercased(server_name),
            tool_finding(server_name, tool@, fp, entries, 0) == tool_finding(
                server_name,
                tool@,
                fp,
                entries,
                k as int,
            ),
        decreases whitelist.len() - k,
    {
        assert(entries[k as int] == whitelist@[k as int]@);
        let entry = &whitelist[k];
        let entry_lower = lowercase_chars(entry.name.as_str());
        if !chars_eq(&entry_lower, server_lower) {
            match check_entry(tool, &fingerprint, entry) {
                Some(finding) => {
                    return Some(finding);
                },
                None => {},
            }
        }
        k += 1;
    }
    None
}

/// Checks whether any of the tools imitates a tool of a whitelisted
/// server other than `server_name`, and returns the first finding.
pub fn check_tool_mimicry(config: &GuardConfig, server_name: &str, tools: &[Tool]) -> (r: Option<
    MimicryFinding,
>)
    ensures
        r.deep_view() == mimicry_finding(server_name@, tools.deep_view(), config@.whitelist, 0),
{
    let ghost listed = tools.deep_view();
    let ghost whitelist = config@.whitelist;
    let server_lower = lowercase_chars(server_name);
    let mut t: usize = 0;
    while t < tools.len()
        invariant
            t <= tools.len(),
            listed == tools.deep_view(),
            whitelist == config.whitelist.deep_view(),
            server_lower@ == lowercased(server_name@),
            mimicry_finding(server_name@, listed, whitelist, 0) == mimicry_finding(
                server_name@,
                listed,
                whitelist,
                t as int,
            ),
        decreases tools.len() - t,
    {
        assert(listed[t as int] == tools@[t as int]@);
        match check_tool(Ghost(server_name@), &server_lower, &tools[t], &config.whitelist) {
            Some(finding) => {
                return Some(finding);
            },
            None => {},
        }
        t += 1;
    }
    None
}

/// Looks for a registered server other than the given one that has a tool
/// with the given name. `server_lower` is the lowercase form of the
/// server's name.
fn find_colliding_server(
    registry: &ToolRegistry,
    Ghost(server_name): Ghost<Seq<char>>,
    server_lower: &Vec<char>,
    tool_name: &str,
) -> (r: Option<usize>)
    requires
        server_lower@ == lowercased(server_name),
    ensures
        match r {
            Some(k) => k < registry@.len() && colliding_server(
                registry@,
                server_name,
                tool_name@,
                0,
            ) == Some(k as int),
            None => colliding_server(registry@, server_name, tool_name@, 0) is None,
        },
{
    let ghost view = registry@;
    let servers = registry.servers.entries();
    let mut k: usize = 0;
    while k < servers.len()
        invariant
            k <= servers@.len(),
            servers.deep_view() == view,
            view == registry@,
            server_lower@ == lowercased(server_name),
            colliding_server(view, server_name, tool_name@, 0) == colliding_server(
                view,
                server_name,
                tool_name@,
                k as int,
            ),
        decreases servers.len() - k,
    {
        assert(view[k as int] == servers@[k as int].deep_view());
        let other_lower = lowercase_chars(servers[k].0.as_str());
        let other_tools = &servers[k].1;
        if !chars_eq(&other_lower, server_lower) && other_tools.contains_key(tool_name) {
            return Some(k);
        }
        k += 1;
    }
    None
}

/// Checks whether any of the tools has the name of a tool that another
/// registered server already has, and returns the first such collision.
pub fn check_namespace_collision(registry: &ToolRegistry, server_name: &str, tools: &[Tool]) -> (r:
    Option<CollisionFinding>)
    ensures
        r.deep_view() == namespace_collision(registry@, server_name@, tools.deep_view(), 0),
{
    let ghost listed = tools.deep_view();
    let server_lower = lowercase_chars(server_name);
    let mut t: usize = 0;
    while t < tools.len()
        invariant
            t <= tools.len(),
            listed == tools.deep_view(),
            server_lower@ == lowercased(server_name@),
            namespace_collision(registry@, server_name@, listed, 0) == namespace_collision(
                registry@,
                server_name@,
                listed,
                t as int,
            ),
        decreases tools.len() - t,
    {
        assert(listed[t as int] == tools@[t as int]@);
        match find_colliding_server(
            registry,
            Ghost(server_name@),
            &server_lower,
            tools[t].name.as_str(),
        ) {
            Some(k) => {
                let servers = registry.servers.entries();
                assert(registry@[k as int] == servers@[k as int].deep_view());
                return Some(
                    CollisionFinding {
                        tool_name: tools[t].name.clone(),
                        this_server: crate::text::from_chars(&to_chars(server_name)),
                        other_server: servers[k].0.clone(),
                    },
                );
            },
            None => {},
        }
        t += 1;
    }
    None
}

/// Computes the fingerprint of every tool, by tool name.
pub fn fingerprint_tools(tools: &[Tool]) -> (map: FingerprintMap)
    ensures
        map.deep_view() == fingerprints_of(tools.deep_view()),
{
    let ghost listed = tools.deep_view();
    let mut map = FingerprintMap::new();
    assert(map.deep_view() =~= fingerprints_of(listed.take(0)));
    let mut t: usize = 0;
    while t < tools.len()
        invariant
            t <= tools.len(),
            listed == tools.deep_view(),
            map.deep_view() == fingerprints_of(listed.take(t as int)),
        decreases tools.len() - t,
    {
        proof {
            assert(listed.take(t + 1).drop_last() == listed.take(t as int));
            assert(listed.take(t + 1).last() == tools@[t as int]@);
        }
        let fingerprint = compute_tool_fingerprint(&tools[t]);
        map.insert(tools[t].name.clone(), fingerprint);
        t += 1;
    }
    assert(listed.take(listed.len() as int) == listed);
    map
}

/// Registers the tools of a server: computes each tool's fingerprint and
/// replaces that server's entry in the registry as a whole.
pub fn register_tools(registry: &mut ToolRegistry, server_name: &str, tools: &[Tool])
    ensures
        final(registry)@ == registered(old(registry)@, server_name@, tools.deep_view()),
{
    let fingerprints = fingerprint_tools(tools);
    let name = crate::text::from_chars(&to_chars(server_name));
    crate::spoofing::state::update_tool_registry(registry, name, fingerprints);
}

} // verus!
