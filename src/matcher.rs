//! Matching programs against a roster of groups, members and aliases.

use vstd::prelude::*;
use crate::program::ProgramRecord;
use crate::text::{contains, is_infix, opt_view};

verus! {

#[derive(Clone, Debug)]
/// A member of a group and the strings that name them.
pub struct RosterMember {
    pub name: String,
    pub aliases: Vec<String>,
}

#[derive(Clone, Debug)]
/// A group and its members.
pub struct RosterGroup {
    pub name: String,
    pub members: Vec<RosterMember>,
}

#[derive(Clone, Debug)]
/// Groups, in the order in which they are searched.
pub struct Roster {
    pub groups: Vec<RosterGroup>,
}

/// The group key that holds former members: its members are matched, its
/// own name never is.
pub open spec fn reserved_group() -> Seq<char> {
    "OG"@
}

/// The one member whose aliases are ignored where the longer name below also
/// occurs.
pub open spec fn guarded_member() -> Seq<char> {
    "高橋愛"@
}

/// The name that contains the guarded member's name without being theirs.
pub open spec fn guarded_collision() -> Seq<char> {
    "高橋愛子"@
}

/// `s` occurs in the title, the description, the info or the performers of
/// `p`; an absent field holds nothing.
pub open spec fn mentions(p: ProgramRecord, s: Seq<char>) -> bool {
    ||| is_infix(s, p.title@)
    ||| (opt_view(p.description) matches Some(t) && is_infix(s, t))
    ||| (opt_view(p.info) matches Some(t) && is_infix(s, t))
    ||| (opt_view(p.performers) matches Some(t) && is_infix(s, t))
}

/// One of the first `k` aliases is mentioned in `p`.
pub open spec fn any_alias(p: ProgramRecord, aliases: Seq<String>, k: int) -> bool
    decreases k,
{
    if k <= 0 || k > aliases.len() {
        false
    } else {
        any_alias(p, aliases, k - 1) || mentions(p, aliases[k - 1]@)
    }
}

proof fn lemma_any_alias_grows(p: ProgramRecord, aliases: Seq<String>, j: int, k: int)
    requires
        0 <= j <= k <= aliases.len(),
        any_alias(p, aliases, j),
    ensures
        any_alias(p, aliases, k),
    decreases k - j,
{
    if j < k {
        lemma_any_alias_grows(p, aliases, j, k - 1);
    }
}

/// `m` matches `p`: one of their aliases is mentioned, unless `m` is the
/// guarded member and the colliding name is mentioned too.
pub open spec fn member_matches(p: ProgramRecord, m: RosterMember) -> bool {
    any_alias(p, m.aliases@, m.aliases@.len() as int) && !(m.name@ == guarded_member() && mentions(
        p,
        guarded_collision(),
    ))
}

/// The names of the first `k` members of `ms` that match `p`, in order.
pub open spec fn matched_members(p: ProgramRecord, ms: Seq<RosterMember>, k: int) -> Seq<Seq<char>>
    decreases k,
{
    if k <= 0 || k > ms.len() {
        Seq::empty()
    } else {
        matched_members(p, ms, k - 1) + if member_matches(p, ms[k - 1]) {
            seq![ms[k - 1].name@]
        } else {
            Seq::empty()
        }
    }
}

/// The group's own name where it is not reserved and is mentioned in `p`.
pub open spec fn matched_group_name(p: ProgramRecord, g: RosterGroup) -> Seq<Seq<char>> {
    if g.name@ != reserved_group() && mentions(p, g.name@) {
        seq![g.name@]
    } else {
        Seq::empty()
    }
}

/// The matches of the first `k` groups of `gs`: for each group its own name,
/// then its matching members.
pub open spec fn matched_groups(p: ProgramRecord, gs: Seq<RosterGroup>, k: int) -> Seq<Seq<char>>
    decreases k,
{
    if k <= 0 || k > gs.len() {
        Seq::empty()
    } else {
        matched_groups(p, gs, k - 1) + matched_group_name(p, gs[k - 1]) + matched_members(
            p,
            gs[k - 1].members@,
            gs[k - 1].members@.len() as int,
        )
    }
}

/// All the names of `roster` that `p` matches, in roster order.
pub open spec fn matches(p: ProgramRecord, roster: Roster) -> Seq<Seq<char>> {
    matched_groups(p, roster.groups@, roster.groups@.len() as int)
}

fn mentioned(program: &ProgramRecord, s: &str) -> (r: bool)
    ensures
        r == mentions(*program, s@),
{
    if contains(program.title.as_str(), s) {
        return true;
    }
    if let Some(t) = &program.description {
        if contains(t.as_str(), s) {
            return true;
        }
    }
    if let Some(t) = &program.info {
        if contains(t.as_str(), s) {
            return true;
        }
    }
    if let Some(t) = &program.performers {
        if contains(t.as_str(), s) {
            return true;
        }
    }
    false
}

fn member_found(program: &ProgramRecord, member: &RosterMember) -> (r: bool)
    ensures
        r == member_matches(*program, *member),
{
    let mut i: usize = 0;
    let mut hit = false;
    while i < member.aliases.len() && !hit
        invariant
            i <= member.aliases.len(),
            hit == any_alias(*program, member.aliases@, i as int),
        decreases member.aliases.len() - i,
    {
        if mentioned(program, member.aliases[i].as_str()) {
            hit = true;
        }
        i = i + 1;
    }
    proof {
        if hit {
            lemma_any_alias_grows(*program, member.aliases@, i as int, member.aliases@.len() as int);
        }
    }
    if !hit {
        return false;
    }
    let guarded = String::from_str("高橋愛");
    !(member.name == guarded && mentioned(program, "高橋愛子"))
}

/// The names of `roster` that `program` matches: each group whose name is
/// mentioned (the reserved group excepted), then each of its members with a
/// mentioned alias (the guarded member excepted where the colliding name is
/// mentioned), group after group.
pub fn search_artist(program: &ProgramRecord, roster: &Roster) -> (r: Vec<String>)
    ensures
        r@.map_values(|s: String| s@) == matches(*program, *roster),
{
    let mut found: Vec<String> = Vec::new();
    let reserved = String::from_str("OG");
    let mut g: usize = 0;
    while g < roster.groups.len()
        invariant
            g <= roster.groups.len(),
            reserved@ == reserved_group(),
            found@.map_values(|s: String| s@) == matched_groups(*program, roster.groups@, g as int),
        decreases roster.groups.len() - g,
    {
        let group = &roster.groups[g];
        let ghost before = found@.map_values(|s: String| s@);
        if group.name != reserved && mentioned(program, group.name.as_str()) {
            found.push(group.name.clone());
        }
        assert(found@.map_values(|s: String| s@) =~= before + matched_group_name(*program, *group));
        let ghost middle = found@.map_values(|s: String| s@);
        let mut m: usize = 0;
        while m < group.members.len()
            invariant
                m <= group.members.len(),
                g < roster.groups.len(),
                group == &roster.groups[g as int],
                found@.map_values(|s: String| s@) == middle + matched_members(
                    *program,
                    group.members@,
                    m as int,
                ),
            decreases group.members.len() - m,
        {
            let member = &group.members[m];
            let ghost prev = found@.map_values(|s: String| s@);
            if member_found(program, member) {
                found.push(member.name.clone());
            }
            assert(found@.map_values(|s: String| s@) =~= prev + if member_matches(*program, *member) {
                seq![member.name@]
            } else {
                Seq::<Seq<char>>::empty()
            });
            m = m + 1;
        }
        g = g + 1;
    }
    found
}

/// The guarded member is not matched by a program that mentions the
/// colliding name, whichever of their aliases it mentions.
pub proof fn lemma_guarded_member_not_matched(p: ProgramRecord, m: RosterMember)
    requires
        m.name@ == guarded_member(),
        mentions(p, guarded_collision()),
    ensures
        !member_matches(p, m),
{
}

/// No member named like the reserved group means the reserved group's name
/// is never among the matches, whatever the program mentions.
pub proof fn lemma_reserved_group_never_matched(p: ProgramRecord, roster: Roster)
    requires
        forall|i: int, j: int|
            0 <= i < roster.groups@.len() && 0 <= j < roster.groups@[i].members@.len()
                ==> #[trigger] roster.groups@[i].members@[j].name@ != reserved_group(),
    ensures
        !matches(p, roster).contains(reserved_group()),
{
    lemma_groups_skip_reserved(p, roster.groups@, roster.groups@.len() as int);
}

proof fn lemma_groups_skip_reserved(p: ProgramRecord, gs: Seq<RosterGroup>, k: int)
    requires
        forall|i: int, j: int|
            0 <= i < gs.len() && 0 <= j < gs[i].members@.len() ==> #[trigger] gs[i].members@[j].name@
                != reserved_group(),
    ensures
        !matched_groups(p, gs, k).contains(reserved_group()),
    decreases k,
{
    if k > 0 && k <= gs.len() {
        lemma_groups_skip_reserved(p, gs, k - 1);
        let g = gs[k - 1];
        lemma_members_skip_reserved(p, g.members@, g.members@.len() as int, k - 1, gs);
        let a = matched_groups(p, gs, k - 1);
        let b = matched_group_name(p, g);
        let c = matched_members(p, g.members@, g.members@.len() as int);
        assert(!b.contains(reserved_group()));
        assert forall|i: int| 0 <= i < (a + b + c).len() implies (a + b + c)[i] != reserved_group() by {
            if i < a.len() {
                assert((a + b + c)[i] == a[i]);
            } else if i < a.len() + b.len() {
                assert((a + b + c)[i] == b[i - a.len()]);
            } else {
                assert((a + b + c)[i] == c[i - a.len() - b.len()]);
            }
        }
    }
}

proof fn lemma_members_skip_reserved(
    p: ProgramRecord,
    ms: Seq<RosterMember>,
    k: int,
    gi: int,
    gs: Seq<RosterGroup>,
)
    requires
        0 <= gi < gs.len(),
        ms == gs[gi].members@,
        forall|i: int, j: int|
            0 <= i < gs.len() && 0 <= j < gs[i].members@.len() ==> #[trigger] gs[i].members@[j].name@
                != reserved_group(),
    ensures
        !matched_members(p, ms, k).contains(reserved_group()),
    decreases k,
{
    if k > 0 && k <= ms.len() {
        lemma_members_skip_reserved(p, ms, k - 1, gi, gs);
        assert(gs[gi].members@[k - 1].name@ != reserved_group());
        let a = matched_members(p, ms, k - 1);
        let b: Seq<Seq<char>> = if member_matches(p, ms[k - 1]) {
            seq![ms[k - 1].name@]
        } else {
            Seq::empty()
        };
        assert forall|i: int| 0 <= i < (a + b).len() implies (a + b)[i] != reserved_group() by {
            if i < a.len() {
                assert((a + b)[i] == a[i]);
            } else {
                assert((a + b)[i] == b[i - a.len()]);
            }
        }
    }
}

} // verus!
