use vstd::prelude::*;
use crate::state::AppState;
use crate::text::{contains, str_contains, texts};

verus! {

/// CPU capping runs while it is enabled, the automation runs, the limit is
/// positive and no action is in flight.
pub open spec fn capping_wanted(s: AppState) -> bool {
    s.fps_capper && s.running && s.fps_limit > 0 && !s.action_active
}

pub fn should_cap(state: &AppState) -> (b: bool)
    ensures
        b ==> state.running && state.fps_capper,
        b == capping_wanted(*state),
{
    state.fps_capper && state.running && state.fps_limit > 0 && !state.action_active
}

/// The focused window matters only while capping runs with "Unlock at Focus".
pub fn focus_matters(state: &AppState) -> (b: bool)
    ensures
        b == (capping_wanted(*state) && state.stop_limit_on_focus),
{
    should_cap(state) && state.stop_limit_on_focus
}

/// What the FPS capper does in one round.
#[derive(Clone, Copy, Debug, PartialEq, Eq, Structural)]
pub enum CapPlan {
    /// Clear every quota that is set.
    Release,
    /// Bring the game's scopes to this quota in percent.
    Limit(u32),
}

/// The round of the FPS capper: limit the game's scopes to the quota of the
/// FPS limit while capping runs, except while the game has the focus and
/// "Unlock at Focus" is on; otherwise release every quota.
pub fn cap_plan(state: &AppState, game_focused: bool) -> (plan: CapPlan)
    ensures
        !state.running ==> plan == CapPlan::Release,
        !state.fps_capper ==> plan == CapPlan::Release,
        plan == cap_plan_of(*state, game_focused),
        plan == (if capping_wanted(*state) && !(state.stop_limit_on_focus && game_focused) {
            CapPlan::Limit(quota_for(state.fps_limit))
        } else {
            CapPlan::Release
        }),
{
    if should_cap(state) && !(state.stop_limit_on_focus && game_focused) {
        CapPlan::Limit(cpu_quota(state.fps_limit))
    } else {
        CapPlan::Release
    }
}

/// The plan of a capper round, as `cap_plan` computes it.
pub open spec fn cap_plan_of(s: AppState, game_focused: bool) -> CapPlan {
    if capping_wanted(s) && !(s.stop_limit_on_focus && game_focused) {
        CapPlan::Limit(quota_for(s.fps_limit))
    } else {
        CapPlan::Release
    }
}

/// The CPU quota in percent for an FPS limit: the limit kept within 3..=99.
pub open spec fn quota_for(fps_limit: u32) -> u32 {
    if fps_limit < 3 {
        3
    } else if fps_limit > 99 {
        99
    } else {
        fps_limit
    }
}

pub fn cpu_quota(fps_limit: u32) -> (q: u32)
    ensures
        q == quota_for(fps_limit),
        3 <= q <= 99,
{
    if fps_limit < 3 {
        3
    } else if fps_limit > 99 {
        99
    } else {
        fps_limit
    }
}

/// A systemd scope that belongs to the game: its name holds `app` or `sober`.
pub open spec fn target_scope(scope: Seq<char>) -> bool {
    contains(scope, "app"@) || contains(scope, "sober"@)
}

pub fn is_target_scope(scope: &str) -> (b: bool)
    ensures
        b == target_scope(scope@),
{
    str_contains(scope, "app") || str_contains(scope, "sober")
}

/// The scopes among `found` that belong to the game, in order.
pub open spec fn game_scopes(found: Seq<Seq<char>>) -> Seq<Seq<char>>
    decreases found.len(),
{
    if found.len() == 0 {
        Seq::empty()
    } else if target_scope(found.last()) {
        game_scopes(found.drop_last()).push(found.last())
    } else {
        game_scopes(found.drop_last())
    }
}

pub fn target_scopes(found: &Vec<String>) -> (r: Vec<String>)
    ensures
        texts(r@) == game_scopes(texts(found@)),
{
    let mut r: Vec<String> = Vec::new();
    let mut i: usize = 0;
    while i < found.len()
        invariant
            i <= found@.len(),
            texts(r@) == game_scopes(texts(found@).take(i as int)),
        decreases found@.len() - i,
    {
        proof {
            assert(texts(found@).take(i + 1).drop_last() =~= texts(found@).take(i as int));
        }
        let ghost r0 = r@;
        if is_target_scope(found[i].as_str()) {
            r.push(found[i].clone());
            assert(texts(r@) =~= texts(r0).push(found@[i as int]@));
        }
        i = i + 1;
    }
    assert(texts(found@).take(found@.len() as int) =~= texts(found@));
    r
}

/// The limit map that a list of (scope, quota) entries stands for.
pub open spec fn entries_map(es: Seq<(String, u32)>) -> Map<Seq<char>, u32>
    decreases es.len(),
{
    if es.len() == 0 {
        Map::empty()
    } else {
        entries_map(es.drop_last()).insert(es.last().0@, es.last().1)
    }
}

pub open spec fn keys_distinct(es: Seq<(String, u32)>) -> bool {
    forall|i: int, j: int| 0 <= i < j < es.len() ==> es[i].0@ != es[j].0@
}

/// Some entry among the first `i` has key `k`.
pub open spec fn key_among(es: Seq<(String, u32)>, i: int, k: Seq<char>) -> bool {
    exists|n: int| 0 <= n < i && #[trigger] es[n].0@ == k
}

pub open spec fn entry_keys(es: Seq<(String, u32)>) -> Seq<Seq<char>> {
    es.map_values(|e: (String, u32)| e.0@)
}

pub proof fn lemma_entries_map(es: Seq<(String, u32)>)
    ensures
        forall|k: Seq<char>|
            entries_map(es).dom().contains(k) <==> key_among(es, es.len() as int, k),
        keys_distinct(es) ==> forall|i: int|
            0 <= i < es.len() ==> #[trigger] entries_map(es)[es[i].0@] == es[i].1,
    decreases es.len(),
{
    if es.len() > 0 {
        let init = es.drop_last();
        let last = es.last();
        lemma_entries_map(init);
        assert(entries_map(es) == entries_map(init).insert(last.0@, last.1));
        assert forall|k: Seq<char>|
            entries_map(es).dom().contains(k) <==> key_among(es, es.len() as int, k) by {
            if entries_map(es).dom().contains(k) {
                if k == last.0@ {
                    assert(es[es.len() - 1].0@ == k);
                } else {
                    assert(entries_map(init).dom().contains(k));
                    let i = choose|i: int| 0 <= i < init.len() && #[trigger] init[i].0@ == k;
                    assert(es[i].0@ == k);
                }
            }
            if key_among(es, es.len() as int, k) {
                let i = choose|i: int| 0 <= i < es.len() && #[trigger] es[i].0@ == k;
                if i < es.len() - 1 {
                    assert(init[i].0@ == k);
                    assert(key_among(init, init.len() as int, k));
                }
            }
        }
        if keys_distinct(es) {
            assert(keys_distinct(init));
            assert forall|i: int| 0 <= i < es.len() implies #[trigger] entries_map(es)[es[i].0@]
                == es[i].1 by {
                if i < es.len() - 1 {
                    assert(init[i] == es[i]);
                    assert(es[i].0@ != last.0@);
                    assert(entries_map(init)[init[i].0@] == init[i].1);
                }
            }
        }
    }
}

pub proof fn lemma_entries_map_update(es: Seq<(String, u32)>, i: int, e: (String, u32))
    requires
        keys_distinct(es),
        0 <= i < es.len(),
        es[i].0@ == e.0@,
    ensures
        entries_map(es.update(i, e)) == entries_map(es).insert(e.0@, e.1),
        keys_distinct(es.update(i, e)),
    decreases es.len(),
{
    let es2 = es.update(i, e);
    if i == es.len() - 1 {
        assert(es2.drop_last() =~= es.drop_last());
        assert(entries_map(es2) =~= entries_map(es).insert(e.0@, e.1));
    } else {
        lemma_entries_map_update(es.drop_last(), i, e);
        assert(es2.drop_last() =~= es.drop_last().update(i, e));
        assert(es.last().0@ != e.0@);
        assert(entries_map(es2) =~= entries_map(es).insert(e.0@, e.1));
    }
}

/// The CPU quotas that the FPS capper has set, by scope.
pub struct ScopeLimits {
    entries: Vec<(String, u32)>,
}

impl ScopeLimits {
    #[verifier::type_invariant]
    closed spec fn keys_unique(self) -> bool {
        keys_distinct(self.entries@)
    }

    /// The quota set on each scope.
    pub closed spec fn limits(self) -> Map<Seq<char>, u32> {
        entries_map(self.entries@)
    }

    /// No scope is limited.
    pub fn new() -> (s: ScopeLimits)
        ensures
            s@ == Map::<Seq<char>, u32>::empty(),
    {
        ScopeLimits { entries: Vec::new() }
    }

    /// The quota set on a scope, if any.
    pub fn get(&self, scope: &str) -> (q: Option<u32>)
        ensures
            q == (if self@.contains_key(scope@) {
                Some(self@[scope@])
            } else {
                None
            }),
    {
        proof {
            use_type_invariant(self);
            lemma_entries_map(self.entries@);
        }
        let mut j: usize = 0;
        while j < self.entries.len()
            invariant
                j <= self.entries@.len(),
                forall|m: int| 0 <= m < j ==> self.entries@[m].0@ != scope@,
            decreases self.entries@.len() - j,
        {
            if crate::text::str_eq(self.entries[j].0.as_str(), scope) {
                proof {
                    use_type_invariant(self);
                    lemma_entries_map(self.entries@);
                    assert(self@[self.entries@[j as int].0@] == self.entries@[j as int].1);
                    assert(key_among(self.entries@, self.entries@.len() as int, scope@));
                }
                return Some(self.entries[j].1);
            }
            j = j + 1;
        }
        proof {
            if self@.contains_key(scope@) {
                let m = choose|m: int|
                    0 <= m < self.entries@.len() && #[trigger] self.entries@[m].0@ == scope@;
                assert(self.entries@[m].0@ == scope@);
            }
        }
        None
    }
}

impl View for ScopeLimits {
    type V = Map<Seq<char>, u32>;

    open spec fn view(&self) -> Map<Seq<char>, u32> {
        self.limits()
    }
}

fn position(es: &Vec<(String, u32)>, k: &String) -> (r: Option<usize>)
    ensures
        r matches Some(i) ==> i < es@.len() && es@[i as int].0@ == k@,
        r is None ==> forall|i: int| 0 <= i < es@.len() ==> es@[i].0@ != k@,
{
    let mut j: usize = 0;
    while j < es.len()
        invariant
            j <= es@.len(),
            forall|m: int| 0 <= m < j ==> es@[m].0@ != k@,
        decreases es@.len() - j,
    {
        if es[j].0 == *k {
            return Some(j);
        }
        j = j + 1;
    }
    None
}

fn contains_text(ts: &Vec<String>, k: &String) -> (b: bool)
    ensures
        b == texts(ts@).contains(k@),
{
    let mut j: usize = 0;
    while j < ts.len()
        invariant
            j <= ts@.len(),
            forall|m: int| 0 <= m < j ==> ts@[m]@ != k@,
        decreases ts@.len() - j,
    {
        if ts[j] == *k {
            assert(texts(ts@)[j as int] == k@);
            return true;
        }
        j = j + 1;
    }
    assert(!texts(ts@).contains(k@)) by {
        if texts(ts@).contains(k@) {
            let m = choose|m: int| 0 <= m < texts(ts@).len() && texts(ts@)[m] == k@;
            assert(ts@[m]@ == k@);
        }
    }
    false
}

/// Forgets every quota and hands back the scopes that had one, each once, so
/// that their quota can be cleared.
pub fn reset_scopes(scopes: &mut ScopeLimits) -> (cleared: Vec<String>)
    ensures
        final(scopes)@ == Map::<Seq<char>, u32>::empty(),
        texts(cleared@).to_set() == old(scopes)@.dom(),
        texts(cleared@).no_duplicates(),
{
    proof {
        use_type_invariant(&*scopes);
    }
    let mut es: Vec<(String, u32)> = Vec::new();
    std::mem::swap(&mut es, &mut scopes.entries);
    proof {
        lemma_entries_map(es@);
    }
    let mut cleared: Vec<String> = Vec::new();
    let mut i: usize = 0;
    while i < es.len()
        invariant
            i <= es@.len(),
            keys_distinct(es@),
            texts(cleared@) == entry_keys(es@).take(i as int),
        decreases es@.len() - i,
    {
        let ghost c0 = cleared@;
        cleared.push(es[i].0.clone());
        assert(texts(cleared@) =~= texts(c0).push(es@[i as int].0@));
        assert(entry_keys(es@).take(i + 1) =~= entry_keys(es@).take(i as int).push(es@[i as int].0@));
        i = i + 1;
    }
    proof {
        assert(texts(cleared@) =~= entry_keys(es@));
        assert(texts(cleared@).to_set() =~= entries_map(es@).dom()) by {
            assert forall|k: Seq<char>| texts(cleared@).to_set().contains(k) implies entries_map(
                es@,
            ).dom().contains(k) by {
                let m = choose|m: int| 0 <= m < texts(cleared@).len() && texts(cleared@)[m] == k;
                assert(es@[m].0@ == k);
            }
            assert forall|k: Seq<char>| entries_map(es@).dom().contains(k) implies texts(
                cleared@,
            ).to_set().contains(k) by {
                let m = choose|m: int| 0 <= m < es@.len() && #[trigger] es@[m].0@ == k;
                assert(texts(cleared@)[m] == k);
            }
        }
        assert(scopes@ =~= Map::<Seq<char>, u32>::empty());
    }
    cleared
}

/// The scopes whose quota must be set, in the order of `targets`: a target
/// whose quota differs (or is missing) gets it set, and then counts as set.
pub open spec fn quota_updates(m: Map<Seq<char>, u32>, targets: Seq<Seq<char>>, q: u32) -> Seq<
    Seq<char>,
>
    decreases targets.len(),
{
    if targets.len() == 0 {
        Seq::empty()
    } else if m.contains_key(targets[0]) && m[targets[0]] == q {
        quota_updates(m, targets.drop_first(), q)
    } else {
        seq![targets[0]] + quota_updates(m.insert(targets[0], q), targets.drop_first(), q)
    }
}

/// Every target at quota `q`, and nothing else.
pub open spec fn all_at(targets: Seq<Seq<char>>, q: u32) -> Map<Seq<char>, u32> {
    Map::new(|k: Seq<char>| targets.contains(k), |k: Seq<char>| q)
}

pub proof fn lemma_union_step(retained: Map<Seq<char>, u32>, ts: Seq<Seq<char>>, t: int, q: u32)
    requires
        0 <= t < ts.len(),
    ensures
        retained.union_prefer_right(all_at(ts.take(t + 1), q)) == retained.union_prefer_right(
            all_at(ts.take(t), q),
        ).insert(ts[t], q),
{
    assert forall|k: Seq<char>| ts.take(t + 1).contains(k) <==> (ts.take(t).contains(k) || k == ts[t]) by {
        if ts.take(t + 1).contains(k) {
            let pre = ts.take(t + 1);
            let i = choose|i: int| 0 <= i < pre.len() && #[trigger] pre[i] == k;
            if i < t {
                assert(ts.take(t)[i] == k);
            }
        }
        if ts.take(t).contains(k) {
            let pre = ts.take(t);
            let i = choose|i: int| 0 <= i < pre.len() && #[trigger] pre[i] == k;
            assert(ts.take(t + 1)[i] == k);
        }
        if k == ts[t] {
            assert(ts.take(t + 1)[t] == k);
        }
    }
    let a = retained.union_prefer_right(all_at(ts.take(t + 1), q));
    let b = retained.union_prefer_right(all_at(ts.take(t), q)).insert(ts[t], q);
    assert forall|k: Seq<char>| #[trigger] a.dom().contains(k) <==> b.dom().contains(k) by {
        assert(all_at(ts.take(t + 1), q).dom().contains(k) == ts.take(t + 1).contains(k));
        assert(all_at(ts.take(t), q).dom().contains(k) == ts.take(t).contains(k));
    }
    assert forall|k: Seq<char>| #[trigger] a.dom().contains(k) implies a[k] == b[k] by {
        assert(all_at(ts.take(t + 1), q).dom().contains(k) == ts.take(t + 1).contains(k));
        assert(all_at(ts.take(t), q).dom().contains(k) == ts.take(t).contains(k));
        if ts.take(t + 1).contains(k) {
            assert(all_at(ts.take(t + 1), q)[k] == q);
        }
        if ts.take(t).contains(k) {
            assert(all_at(ts.take(t), q)[k] == q);
        }
    }
    assert(a =~= b);
}

/// The commands that bring the game's scopes to one quota.
pub struct QuotaPlan {
    /// Scopes that are no longer the game's: clear their quota.
    pub clear: Vec<String>,
    /// Scopes to set to `quota`, in this order.
    pub set: Vec<String>,
    pub quota: u32,
}

impl ScopeLimits {
    /// Brings the game's scopes to `quota`: scopes that left the target list
    /// are dropped (and listed to be cleared), targets whose quota differs are
    /// listed to be set; afterwards exactly the targets are limited, at `quota`.
    pub fn apply_quota(&mut self, targets: &Vec<String>, quota: u32) -> (plan: QuotaPlan)
        ensures
            final(self)@ == all_at(texts(targets@), quota),
            plan.quota == quota,
            texts(plan.clear@).to_set() == old(self)@.dom().difference(texts(targets@).to_set()),
            texts(plan.clear@).no_duplicates(),
            texts(plan.set@) == quota_updates(
                old(self)@.restrict(texts(targets@).to_set()),
                texts(targets@),
                quota,
            ),
    {
        proof {
            use_type_invariant(&*self);
        }
        let ghost tset = texts(targets@).to_set();
        let mut es: Vec<(String, u32)> = Vec::new();
        std::mem::swap(&mut es, &mut self.entries);
        let ghost old_map = entries_map(es@);
        proof {
            lemma_entries_map(es@);
        }
        let mut kept: Vec<(String, u32)> = Vec::new();
        let mut clear: Vec<String> = Vec::new();
        let mut i: usize = 0;
        while i < es.len()
            invariant
                i <= es@.len(),
                keys_distinct(es@),
                keys_distinct(kept@),
                old_map == entries_map(es@),
                tset == texts(targets@).to_set(),
                entries_map(kept@) == entries_map(es@.take(i as int)).restrict(tset),
                forall|m: int| 0 <= m < kept@.len() ==> key_among(es@, i as int, #[trigger] kept@[m].0@),
                forall|m: int| 0 <= m < clear@.len() ==> key_among(es@, i as int, #[trigger] clear@[m]@),
                texts(clear@).no_duplicates(),
                texts(clear@).to_set() == entries_map(es@.take(i as int)).dom().difference(tset),
            decreases es@.len() - i,
        {
            let ghost pre = es@.take(i as int);
            proof {
                assert(es@.take(i + 1).drop_last() =~= pre);
                lemma_entries_map(pre);
                lemma_entries_map(es@.take(i + 1));
            }
            let key = es[i].0.clone();
            if contains_text(targets, &key) {
                let ghost kept0 = kept@;
                kept.push((key, es[i].1));
                proof {
                    assert(kept@.drop_last() =~= kept0);
                    assert forall|a: int, b: int| 0 <= a < b < kept@.len() implies kept@[a].0@
                        != kept@[b].0@ by {
                        if b == kept@.len() - 1 {
                            let n = choose|n: int| 0 <= n < i && es@[n].0@ == kept@[a].0@;
                            assert(es@[n].0@ != es@[i as int].0@);
                        }
                    }
                    assert(entries_map(kept@) =~= entries_map(es@.take(i + 1)).restrict(tset));
                    assert forall|m: int| 0 <= m < kept@.len() implies key_among(es@, i + 1, #[trigger] kept@[m].0@) by {
                        if m < kept@.len() - 1 {
                            let n = choose|n: int| 0 <= n < i && es@[n].0@ == kept0[m].0@;
                            assert(es@[n].0@ == kept@[m].0@);
                        } else {
                            assert(es@[i as int].0@ == kept@[m].0@);
                        }
                    }
                    assert(texts(clear@).to_set() =~= entries_map(es@.take(i + 1)).dom().difference(
                        tset,
                    ));
                }
            } else {
                let ghost clear0 = clear@;
                clear.push(key);
                proof {
                    let k = es@[i as int].0@;
                    assert(entries_map(es@.take(i + 1)) == entries_map(pre).insert(k, es@[i as int].1));
                    assert(!tset.contains(k));
                    assert(texts(clear@).to_set() =~= texts(clear0).to_set().insert(k)) by {
                        assert forall|x: Seq<char>| texts(clear@).to_set().contains(x) implies texts(clear0).to_set().insert(k).contains(x) by {
                            let m = choose|m: int| 0 <= m < texts(clear@).len() && #[trigger] texts(clear@)[m] == x;
                            if m < texts(clear0).len() {
                                assert(texts(clear0)[m] == x);
                            }
                        }
                        assert forall|x: Seq<char>| texts(clear0).to_set().insert(k).contains(x) implies texts(clear@).to_set().contains(x) by {
                            if x == k {
                                assert(texts(clear@)[texts(clear0).len() as int] == x);
                            } else {
                                let m = choose|m: int| 0 <= m < texts(clear0).len() && #[trigger] texts(clear0)[m] == x;
                                assert(texts(clear@)[m] == x);
                            }
                        }
                    }
                    assert(texts(clear@) =~= texts(clear0).push(es@[i as int].0@));
                    assert forall|a: int, b: int|
                        0 <= a < texts(clear@).len() && 0 <= b < texts(clear@).len() && a
                            != b implies texts(clear@)[a] != texts(clear@)[b] by {
                        if a == texts(clear@).len() - 1 {
                            let n = choose|n: int| 0 <= n < i && es@[n].0@ == clear@[b]@;
                            assert(es@[n].0@ != es@[i as int].0@);
                        } else if b == texts(clear@).len() - 1 {
                            let n = choose|n: int| 0 <= n < i && es@[n].0@ == clear@[a]@;
                            assert(es@[n].0@ != es@[i as int].0@);
                        }
                    }
                    assert(entries_map(kept@) =~= entries_map(es@.take(i + 1)).restrict(tset));
                    assert forall|m: int| 0 <= m < clear@.len() implies key_among(es@, i + 1, #[trigger] clear@[m]@) by {
                        if m < clear@.len() - 1 {
                            let n = choose|n: int| 0 <= n < i && es@[n].0@ == clear0[m]@;
                            assert(es@[n].0@ == clear@[m]@);
                        } else {
                            assert(es@[i as int].0@ == clear@[m]@);
                        }
                    }
                    assert(texts(clear@).to_set() =~= entries_map(es@.take(i + 1)).dom().difference(
                        tset,
                    ));
                }
            }
            i = i + 1;
        }
        proof {
            assert(es@.take(es@.len() as int) =~= es@);
        }
        let ghost retained = entries_map(kept@);
        let ghost ts = texts(targets@);
        proof {
            assert(retained == old_map.restrict(tset));
            assert(ts.skip(0) =~= ts);
            assert(ts.take(0) =~= Seq::<Seq<char>>::empty());
            assert(retained.union_prefer_right(all_at(ts.take(0), quota)) =~= retained);
        }
        let mut set: Vec<String> = Vec::new();
        proof {
            assert(texts(set@) + quota_updates(retained, ts.skip(0), quota) =~= quota_updates(
                retained,
                ts,
                quota,
            ));
        }
        let mut t: usize = 0;
        while t < targets.len()
            invariant
                t <= targets@.len(),
                ts == texts(targets@),
                tset == ts.to_set(),
                keys_distinct(kept@),
                texts(set@) + quota_updates(entries_map(kept@), ts.skip(t as int), quota)
                    == quota_updates(retained, ts, quota),
                entries_map(kept@) == retained.union_prefer_right(all_at(ts.take(t as int), quota)),
            decreases targets@.len() - t,
        {
            let ghost cur = entries_map(kept@);
            let ghost x = ts[t as int];
            let ghost s0 = texts(set@);
            proof {
                assert(ts.skip(t as int).drop_first() =~= ts.skip(t + 1));
                assert(ts.skip(t as int)[0] == x);
                assert(x == targets@[t as int]@);
                lemma_entries_map(kept@);
                lemma_union_step(retained, ts, t as int, quota);
            }
            match position(&kept, &targets[t]) {
                Some(p) => {
                    proof {
                        assert(cur[kept@[p as int].0@] == kept@[p as int].1);
                        assert(key_among(kept@, kept@.len() as int, x));
                    }
                    if kept[p].1 != quota {
                        let ghost k0 = kept@;
                        let name = targets[t].clone();
                        kept.set(p, (name, quota));
                        proof {
                            lemma_entries_map_update(k0, p as int, (targets@[t as int], quota));
                            assert(kept@ == k0.update(p as int, (targets@[t as int], quota)));
                        }
                        set.push(targets[t].clone());
                        proof {
                            assert(texts(set@) =~= s0.push(x));
                            assert(s0.push(x) + quota_updates(cur.insert(x, quota), ts.skip(t + 1), quota)
                                =~= s0 + (seq![x] + quota_updates(cur.insert(x, quota), ts.skip(t + 1), quota)));
                        }
                    } else {
                        proof {
                            assert(cur.insert(x, quota) =~= cur);
                        }
                    }
                },
                None => {
                    proof {
                        assert(!cur.dom().contains(x)) by {
                            if cur.dom().contains(x) {
                                let m = choose|m: int| 0 <= m < kept@.len() && #[trigger] kept@[m].0@ == x;
                                assert(kept@[m].0@ == x);
                            }
                        }
                    }
                    let ghost k0 = kept@;
                    kept.push((targets[t].clone(), quota));
                    proof {
                        assert(kept@.drop_last() =~= k0);
                        assert(entries_map(kept@) == cur.insert(x, quota));
                        assert forall|a: int, b: int| 0 <= a < b < kept@.len() implies kept@[a].0@
                            != kept@[b].0@ by {
                            if b == kept@.len() - 1 {
                                assert(k0[a].0@ != x);
                            }
                        }
                    }
                    set.push(targets[t].clone());
                    proof {
                        assert(texts(set@) =~= s0.push(x));
                        assert(s0.push(x) + quota_updates(cur.insert(x, quota), ts.skip(t + 1), quota)
                            =~= s0 + (seq![x] + quota_updates(cur.insert(x, quota), ts.skip(t + 1), quota)));
                    }
                },
            }
            t = t + 1;
        }
        proof {
            assert(ts.skip(ts.len() as int) =~= Seq::<Seq<char>>::empty());
            assert(texts(set@) =~= texts(set@) + quota_updates(entries_map(kept@), ts.skip(ts.len() as int), quota));
            assert(ts.take(ts.len() as int) =~= ts);
            assert(entries_map(kept@) =~= all_at(ts, quota));
            assert(old_map.dom().difference(tset) =~= entries_map(es@.take(es@.len() as int)).dom().difference(tset));
        }
        self.entries = kept;
        QuotaPlan { clear, set, quota }
    }
}

/// Bringing the scopes to a quota a second time, with the same targets,
/// clears nothing and sets nothing.
pub proof fn lemma_apply_quota_idempotent(targets: Seq<Seq<char>>, q: u32)
    ensures
        all_at(targets, q).dom().difference(targets.to_set()) == Set::<Seq<char>>::empty(),
        quota_updates(all_at(targets, q).restrict(targets.to_set()), targets, q) == Seq::<
            Seq<char>,
        >::empty(),
{
    let m = all_at(targets, q).restrict(targets.to_set());
    assert(all_at(targets, q).dom().difference(targets.to_set()) =~= Set::<Seq<char>>::empty());
    lemma_updates_none_when_set(m, targets, q);
}

proof fn lemma_updates_none_when_set(m: Map<Seq<char>, u32>, ts: Seq<Seq<char>>, q: u32)
    requires
        forall|k: Seq<char>| #[trigger] ts.contains(k) ==> (m.contains_key(k) && m[k] == q),
    ensures
        quota_updates(m, ts, q) == Seq::<Seq<char>>::empty(),
    decreases ts.len(),
{
    if ts.len() > 0 {
        let tail = ts.drop_first();
        assert(ts.contains(ts[0]));
        assert forall|k: Seq<char>| #[trigger] tail.contains(k) implies (m.contains_key(k) && m[k]
            == q) by {
            let i = choose|i: int| 0 <= i < tail.len() && tail[i] == k;
            assert(ts[i + 1] == k);
            assert(ts.contains(k));
        }
        lemma_updates_none_when_set(m, tail, q);
    }
}


/// The capper limits the game only while Anti-AFK runs with the capper on, a
/// positive FPS limit and no action in flight; in every other state the round
/// releases every quota. A limit is always the FPS limit kept within 3..=99.
pub proof fn lemma_capping_needs_running(s: AppState, game_focused: bool)
    ensures
        !s.running ==> !capping_wanted(s),
        !s.fps_capper ==> !capping_wanted(s),
        s.fps_limit == 0 ==> !capping_wanted(s),
        s.action_active ==> !capping_wanted(s),
        s.running && s.fps_capper && s.fps_limit > 0 && !s.action_active ==> capping_wanted(s),
        3 <= quota_for(s.fps_limit) <= 99,
        3 <= s.fps_limit <= 99 ==> quota_for(s.fps_limit) == s.fps_limit,
{
}


/// A capper round limits the game only while Anti-AFK runs with the capper on
/// and no action in flight, never while the game has the focus and "Unlock at
/// Focus" is on, and always to the FPS limit kept within 3..=99 percent.
pub proof fn lemma_cap_plan_rules(s: AppState, game_focused: bool)
    ensures
        !s.running ==> cap_plan_of(s, game_focused) == CapPlan::Release,
        !s.fps_capper ==> cap_plan_of(s, game_focused) == CapPlan::Release,
        s.action_active ==> cap_plan_of(s, game_focused) == CapPlan::Release,
        s.fps_limit == 0 ==> cap_plan_of(s, game_focused) == CapPlan::Release,
        s.stop_limit_on_focus && game_focused ==> cap_plan_of(s, game_focused) == CapPlan::Release,
        cap_plan_of(s, game_focused) matches CapPlan::Limit(q) ==> {
            &&& 3 <= q <= 99
            &&& 3 <= s.fps_limit <= 99 ==> q == s.fps_limit
            &&& s.fps_limit > 99 ==> q == 99
            &&& s.fps_limit < 3 ==> q == 3
        },
        s.running && s.fps_capper && s.fps_limit > 0 && !s.action_active && !(s.stop_limit_on_focus
            && game_focused) ==> cap_plan_of(s, game_focused) is Limit,
        !s.stop_limit_on_focus ==> cap_plan_of(s, true) == cap_plan_of(s, false),
{
}

} // verus!
