//! The agents (characters) that can be shown: the bundled ones and those the
//! user installed.

use vstd::prelude::*;
use vstd::string::*;
use crate::text::str_eq;

verus! {

/// Known bundled agents (shipped with the app).
pub const BUNDLED_AGENTS: [&'static str; 10] = [
    "Bonzi", "Clippy", "F1", "Genie", "Genius", "Links", "Merlin", "Peedy", "Rocky", "Rover",
];

/// The names of the bundled agents, in the order of `BUNDLED_AGENTS`.
pub open spec fn bundled_agent_names() -> Seq<Seq<char>> {
    seq![
        "Bonzi"@, "Clippy"@, "F1"@, "Genie"@, "Genius"@,
        "Links"@, "Merlin"@, "Peedy"@, "Rocky"@, "Rover"@,
    ]
}

/// Whether `name` is the name of a bundled agent.
pub open spec fn is_bundled_agent_name(name: Seq<char>) -> bool {
    bundled_agent_names().contains(name)
}

/// An available agent: its name and where it comes from (`"bundled"` or `"user"`).
pub struct AgentInfo {
    pub name: String,
    pub source: String,
}

impl View for AgentInfo {
    type V = (Seq<char>, Seq<char>);

    open spec fn view(&self) -> (Seq<char>, Seq<char>) {
        (self.name@, self.source@)
    }
}

/// The entries for the bundled agents, in order, each marked `"bundled"`.
pub open spec fn bundled_entries() -> Seq<(Seq<char>, Seq<char>)> {
    bundled_agent_names().map_values(|n: Seq<char>| (n, "bundled"@))
}

/// The entries for user agents found on disk, in order, each marked `"user"`;
/// a user agent with the name of a bundled agent is left out.
pub open spec fn user_entries(names: Seq<Seq<char>>) -> Seq<(Seq<char>, Seq<char>)>
    decreases names.len(),
{
    if names.len() == 0 {
        seq![]
    } else {
        let rest = user_entries(names.drop_last());
        if is_bundled_agent_name(names.last()) {
            rest
        } else {
            rest.push((names.last(), "user"@))
        }
    }
}

/// All available agents: the bundled ones first, then the user ones.
pub open spec fn available_agents(user_names: Seq<Seq<char>>) -> Seq<(Seq<char>, Seq<char>)> {
    bundled_entries() + user_entries(user_names)
}

/// Whether `name` is the name of a bundled agent.
pub fn is_bundled_agent(name: &str) -> (r: bool)
    ensures
        r == is_bundled_agent_name(name@),
{
    let names = BUNDLED_AGENTS;
    assert(names@.map_values(|s: &str| s@) =~= bundled_agent_names());
    let mut i: usize = 0;
    while i < 10
        invariant
            names@.map_values(|s: &str| s@) == bundled_agent_names(),
            i <= 10,
            forall|j: int| 0 <= j < i ==> bundled_agent_names()[j] != name@,
        decreases 10 - i,
    {
        if str_eq(names[i], name) {
            assert(bundled_agent_names()[i as int] == name@);
            return true;
        }
        i = i + 1;
    }
    false
}

/// List all available agents: the bundled agents, then each agent found in the
/// user agents directory (`user_agent_names`, the directories that hold both
/// `agent.js` and `map.png`, in the order found) whose name is not bundled.
pub fn list_available_agents(user_agent_names: &Vec<String>) -> (r: Vec<AgentInfo>)
    ensures
        r@.map_values(|a: AgentInfo| a@) == available_agents(
            user_agent_names@.map_values(|s: String| s@),
        ),
{
    let ghost users = user_agent_names@.map_values(|s: String| s@);
    let names = BUNDLED_AGENTS;
    let mut r: Vec<AgentInfo> = Vec::new();
    let mut i: usize = 0;
    while i < 10
        invariant
            names@.map_values(|s: &str| s@) == bundled_agent_names(),
            i <= 10,
            r@.map_values(|a: AgentInfo| a@) == bundled_entries().take(i as int),
        decreases 10 - i,
    {
        let info = AgentInfo { name: String::from_str(names[i]), source: String::from_str("bundled") };
        assert(names@.map_values(|s: &str| s@)[i as int] == names@[i as int]@);
        assert(info@ == bundled_entries()[i as int]);
        let ghost before = r@;
        r.push(info);
        assert(r@.map_values(|a: AgentInfo| a@) =~= before.map_values(|a: AgentInfo| a@).push(
            bundled_entries()[i as int],
        ));
        assert(r@.map_values(|a: AgentInfo| a@) =~= bundled_entries().take(i + 1));
        i = i + 1;
    }
    assert(bundled_entries().take(10) =~= bundled_entries());
    let mut k: usize = 0;
    assert(users.take(0) =~= Seq::<Seq<char>>::empty());
    while k < user_agent_names.len()
        invariant
            users == user_agent_names@.map_values(|s: String| s@),
            k <= user_agent_names.len(),
            r@.map_values(|a: AgentInfo| a@) == bundled_entries() + user_entries(users.take(k as int)),
        decreases user_agent_names.len() - k,
    {
        let name = &user_agent_names[k];
        assert(users.take(k + 1).drop_last() =~= users.take(k as int));
        assert(users.take(k + 1).last() == name@);
        if !is_bundled_agent(name.as_str()) {
            let info = AgentInfo { name: name.clone(), source: String::from_str("user") };
            assert(user_entries(users.take(k + 1)) == user_entries(users.take(k as int)).push(
                (name@, "user"@),
            ));
            let ghost before = r@;
            r.push(info);
            assert(r@.map_values(|a: AgentInfo| a@) =~= before.map_values(|a: AgentInfo| a@).push(
                (name@, "user"@),
            ));
            assert(r@.map_values(|a: AgentInfo| a@) =~= bundled_entries() + user_entries(
                users.take(k + 1),
            ));
        }
        k = k + 1;
    }
    assert(users.take(user_agent_names.len() as int) =~= users);
    r
}


/// Each user entry is marked `"user"`, names a found agent, and never a bundled one.
proof fn lemma_user_entries(names: Seq<Seq<char>>)
    ensures
        user_entries(names).len() <= names.len(),
        forall|j: int| 0 <= j < user_entries(names).len() ==> {
            &&& !is_bundled_agent_name(#[trigger] user_entries(names)[j].0)
            &&& user_entries(names)[j].1 == "user"@
            &&& names.contains(user_entries(names)[j].0)
        },
    decreases names.len(),
{
    if names.len() > 0 {
        lemma_user_entries(names.drop_last());
        let rest = user_entries(names.drop_last());
        assert forall|j: int| 0 <= j < user_entries(names).len() implies
            names.contains(#[trigger] user_entries(names)[j].0) by {
            if j < rest.len() {
                let k = choose|k: int| 0 <= k < names.drop_last().len() && names.drop_last()[k] == rest[j].0;
                assert(names[k] == rest[j].0);
            } else {
                assert(names[names.len() - 1] == names.last());
            }
        }
    }
}

/// The available agents start with the bundled agents, in order and marked
/// `"bundled"`; every later entry is a user agent marked `"user"` whose name is
/// not bundled and was found on disk. So every bundled name is listed as bundled,
/// and no bundled agent is listed twice.
pub proof fn lemma_available_agents(user_names: Seq<Seq<char>>)
    ensures
        available_agents(user_names).len() >= 10,
        forall|i: int| 0 <= i < 10 ==> #[trigger] available_agents(user_names)[i] == (
            bundled_agent_names()[i],
            "bundled"@,
        ),
        forall|i: int| 10 <= i < available_agents(user_names).len() ==> {
            &&& !is_bundled_agent_name(#[trigger] available_agents(user_names)[i].0)
            &&& available_agents(user_names)[i].1 == "user"@
            &&& user_names.contains(available_agents(user_names)[i].0)
        },
        forall|i: int| 0 <= i < available_agents(user_names).len() && is_bundled_agent_name(
            #[trigger] available_agents(user_names)[i].0,
        ) ==> available_agents(user_names)[i].1 == "bundled"@,
{
    lemma_user_entries(user_names);
    let a = available_agents(user_names);
    let u = user_entries(user_names);
    assert forall|i: int| 10 <= i < a.len() implies a[i] == u[i - 10] by {}
    assert forall|i: int| 0 <= i < a.len() && is_bundled_agent_name(#[trigger] a[i].0)
        implies a[i].1 == "bundled"@ by {
        if i >= 10 {
            assert(u[i - 10] == a[i]);
        }
    }
}


/// The names of a list of agent entries.
pub open spec fn entry_names(entries: Seq<(Seq<char>, Seq<char>)>) -> Seq<Seq<char>> {
    entries.map_values(|e: (Seq<char>, Seq<char>)| e.0)
}

/// No two bundled agents share a name.
proof fn lemma_bundled_names_distinct()
    ensures
        bundled_agent_names().no_duplicates(),
{
    reveal_strlit("Bonzi");
    reveal_strlit("Clippy");
    reveal_strlit("F1");
    reveal_strlit("Genie");
    reveal_strlit("Genius");
    reveal_strlit("Links");
    reveal_strlit("Merlin");
    reveal_strlit("Peedy");
    reveal_strlit("Rocky");
    reveal_strlit("Rover");
    let b = bundled_agent_names();
    assert forall|i: int, j: int| 0 <= i < b.len() && 0 <= j < b.len() && i != j implies b[i]
        != b[j] by {
        if b[i] == b[j] {
            assert(b[i].len() == b[j].len());
            assert(b[i][0] == b[j][0]);
            assert(b[i].len() > 2 ==> b[i][2] == b[j][2]);
        }
    }
}

/// The user entries of distinct names have distinct names.
proof fn lemma_user_entries_distinct(names: Seq<Seq<char>>)
    requires
        names.no_duplicates(),
    ensures
        entry_names(user_entries(names)).no_duplicates(),
    decreases names.len(),
{
    if names.len() > 0 {
        let t = names.drop_last();
        assert(t.no_duplicates()) by {
            assert forall|i: int, j: int| 0 <= i < t.len() && 0 <= j < t.len() && i != j implies t[i]
                != t[j] by {
                assert(t[i] == names[i] && t[j] == names[j]);
            }
        }
        lemma_user_entries_distinct(t);
        lemma_user_entries(t);
        let rest = user_entries(t);
        if !is_bundled_agent_name(names.last()) {
            let e = entry_names(user_entries(names));
            let er = entry_names(rest);
            assert(e =~= er.push(names.last()));
            assert forall|i: int| 0 <= i < er.len() implies er[i] != names.last() by {
                assert(t.contains(rest[i].0));
                let k = choose|k: int| 0 <= k < t.len() && t[k] == rest[i].0;
                assert(names[k] == t[k]);
                assert(names[names.len() - 1] == names.last());
            }
        }
    }
}

/// When the user agents found have distinct names (as the entries of one
/// directory do), no name appears twice among the available agents.
pub proof fn lemma_available_agent_names_distinct(user_names: Seq<Seq<char>>)
    requires
        user_names.no_duplicates(),
    ensures
        entry_names(available_agents(user_names)).no_duplicates(),
{
    lemma_bundled_names_distinct();
    lemma_user_entries_distinct(user_names);
    lemma_available_agents(user_names);
    let a = available_agents(user_names);
    let n = entry_names(a);
    let u = user_entries(user_names);
    assert forall|i: int, j: int| 0 <= i < n.len() && 0 <= j < n.len() && i != j implies n[i] != n[j] by {
        if i < 10 && j < 10 {
            assert(n[i] == bundled_agent_names()[i] && n[j] == bundled_agent_names()[j]);
        } else if i >= 10 && j >= 10 {
            assert(n[i] == entry_names(u)[i - 10] && n[j] == entry_names(u)[j - 10]);
        } else if i < 10 {
            assert(n[i] == bundled_agent_names()[i]);
            assert(is_bundled_agent_name(n[i]));
            assert(!is_bundled_agent_name(a[j].0));
        } else {
            assert(n[j] == bundled_agent_names()[j]);
            assert(is_bundled_agent_name(n[j]));
            assert(!is_bundled_agent_name(a[i].0));
        }
    }
}

} // verus!
