//! What holds of the counts and of the calls that destroy, whatever is
//! created, copied and dropped.

use vstd::prelude::*;
use crate::caps::Capabilities;
use crate::factory::State;
use crate::factory::all_looked_up;
use crate::factory::initial;
use crate::factory::looked_up;
use crate::factory::registered;
use crate::factory::sampler_name;
use crate::factory::surface_refusal;
use crate::factory::texture_refusal;
use crate::factory::unregistered;
use crate::handle::Counts;
use crate::handle::Handle;
use crate::handle::batch;
use crate::handle::deletions;
use crate::handle::destruction;
use crate::handle::nothing;
use crate::handle::singly;
use crate::handle::swept;
use crate::info::SurfaceError;
use crate::info::SurfaceInfo;
use crate::info::TextureError;
use crate::info::TextureInfo;
use crate::native::Call;
use crate::native::Name;
use crate::native::ResourceKind;
use crate::table::Entry;
use crate::table::acquired;
use crate::table::dead;
use crate::table::distinct;
use crate::table::lemma_dead_empty;
use crate::table::lemma_dead_push;
use crate::table::live;
use crate::table::recorded;
use crate::table::refs_of;
use crate::table::released;
use crate::table::tracks;

verus! {

/// A count with one more handle: it stops at the machine's limit.
pub open spec fn more(n: nat) -> nat {
    if n < usize::MAX {
        n + 1
    } else {
        n
    }
}

/// A count with one handle less: it stops at zero, and one at the machine's
/// limit stays there.
pub open spec fn less(n: nat) -> nat {
    if 0 < n < usize::MAX {
        (n - 1) as nat
    } else {
        n
    }
}

proof fn lemma_refs_of_push(s: Seq<Entry>, e: Entry, name: Name)
    ensures
        refs_of(s.push(e), name) == if e.name == name {
            e.refs as nat
        } else {
            refs_of(s, name)
        },
        tracks(s.push(e), name) == (e.name == name || tracks(s, name)),
{
    let t = s.push(e);
    assert(t.drop_last() =~= s);
    if tracks(s, name) {
        let i = choose|i: int| 0 <= i < s.len() && (#[trigger] s[i]).name == name;
        assert(t[i].name == name);
    }
    if e.name == name {
        assert(t[s.len() as int].name == name);
    }
    if tracks(t, name) {
        let i = choose|i: int| 0 <= i < t.len() && (#[trigger] t[i]).name == name;
        if i < s.len() {
            assert(s[i].name == name);
        }
    }
}

proof fn lemma_untracked(s: Seq<Entry>, name: Name)
    requires
        !tracks(s, name),
    ensures
        refs_of(s, name) == 0,
    decreases s.len(),
{
    if s.len() > 0 {
        assert(s[s.len() - 1].name != name);
        assert forall|i: int| 0 <= i < s.drop_last().len() implies (#[trigger] s.drop_last()[i]).name
            != name by {
            assert(s[i].name != name);
        }
        lemma_untracked(s.drop_last(), name);
    }
}

proof fn lemma_refs_bounded(s: Seq<Entry>, name: Name)
    ensures
        refs_of(s, name) <= usize::MAX,
    decreases s.len(),
{
    if s.len() > 0 {
        lemma_refs_bounded(s.drop_last(), name);
    }
}

proof fn lemma_refs_at(s: Seq<Entry>, i: int, name: Name)
    requires
        distinct(s),
        0 <= i < s.len(),
        s[i].name == name,
    ensures
        refs_of(s, name) == s[i].refs,
    decreases s.len(),
{
    if i < s.len() - 1 {
        assert(s[i].name != s[s.len() - 1].name);
        assert forall|a: int, b: int| 0 <= a < b < s.drop_last().len() implies (
        #[trigger] s.drop_last()[a]).name != (#[trigger] s.drop_last()[b]).name by {
            assert(s[a].name != s[b].name);
        }
        lemma_refs_at(s.drop_last(), i, name);
    }
}

/// Entry by entry, `t` has the names of `s`.
spec fn same_names(s: Seq<Entry>, t: Seq<Entry>) -> bool {
    s.len() == t.len() && forall|i: int| 0 <= i < s.len() ==> (#[trigger] s[i]).name == t[i].name
}

proof fn lemma_same_names(s: Seq<Entry>, t: Seq<Entry>, name: Name)
    requires
        same_names(s, t),
    ensures
        tracks(s, name) == tracks(t, name),
        distinct(s) == distinct(t),
{
    if tracks(s, name) {
        let i = choose|i: int| 0 <= i < s.len() && (#[trigger] s[i]).name == name;
        assert(t[i].name == name);
    }
    if tracks(t, name) {
        let i = choose|i: int| 0 <= i < t.len() && (#[trigger] t[i]).name == name;
        assert(s[i].name == name);
    }
    if distinct(s) {
        assert forall|i: int, j: int| 0 <= i < j < t.len() implies (#[trigger] t[i]).name != (
        #[trigger] t[j]).name by {
            assert(s[i].name != s[j].name);
        }
    }
    if distinct(t) {
        assert forall|i: int, j: int| 0 <= i < j < s.len() implies (#[trigger] s[i]).name != (
        #[trigger] s[j]).name by {
            assert(t[i].name != t[j].name);
        }
    }
}

/// A handle given out is counted: the object's count goes up by one, it has
/// an entry, and no other object's count or entry changes.
pub proof fn law_acquire(s: Seq<Entry>, name: Name, other: Name)
    requires
        distinct(s),
    ensures
        distinct(acquired(s, name)),
        tracks(acquired(s, name), name),
        refs_of(acquired(s, name), name) == more(refs_of(s, name)),
        other != name ==> refs_of(acquired(s, name), other) == refs_of(s, other),
        other != name ==> tracks(acquired(s, name), other) == tracks(s, other),
{
    let t = acquired(s, name);
    if tracks(s, name) {
        assert(same_names(s, t));
        lemma_same_names(s, t, name);
        lemma_same_names(s, t, other);
        let i = choose|i: int| 0 <= i < s.len() && (#[trigger] s[i]).name == name;
        lemma_refs_at(s, i, name);
        lemma_refs_at(t, i, name);
        if other != name {
            if tracks(s, other) {
                let j = choose|j: int| 0 <= j < s.len() && (#[trigger] s[j]).name == other;
                lemma_refs_at(s, j, other);
                lemma_refs_at(t, j, other);
            } else {
                lemma_untracked(s, other);
                lemma_untracked(t, other);
            }
        }
    } else {
        let e = Entry { name, refs: 1 };
        lemma_refs_of_push(s, e, name);
        lemma_refs_of_push(s, e, other);
        lemma_untracked(s, name);
        assert forall|i: int, j: int| 0 <= i < j < t.len() implies (#[trigger] t[i]).name != (
        #[trigger] t[j]).name by {
            if j < s.len() {
                assert(s[i].name != s[j].name);
            } else {
                assert(s[i].name != name);
            }
        }
    }
}

/// A handle taken back is counted: the object's count goes down by one, its
/// entry stays, and no other object's count or entry changes.
pub proof fn law_release(s: Seq<Entry>, name: Name, other: Name)
    requires
        distinct(s),
    ensures
        distinct(released(s, name)),
        tracks(released(s, name), other) == tracks(s, other),
        refs_of(released(s, name), name) == less(refs_of(s, name)),
        other != name ==> refs_of(released(s, name), other) == refs_of(s, other),
{
    let t = released(s, name);
    assert(same_names(s, t));
    lemma_same_names(s, t, name);
    lemma_same_names(s, t, other);
    if tracks(s, name) {
        let i = choose|i: int| 0 <= i < s.len() && (#[trigger] s[i]).name == name;
        lemma_refs_at(s, i, name);
        lemma_refs_at(t, i, name);
    } else {
        lemma_untracked(s, name);
        lemma_untracked(t, name);
    }
    if other != name {
        if tracks(s, other) {
            let j = choose|j: int| 0 <= j < s.len() && (#[trigger] s[j]).name == other;
            lemma_refs_at(s, j, other);
            lemma_refs_at(t, j, other);
        } else {
            lemma_untracked(s, other);
            lemma_untracked(t, other);
        }
    }
}

/// Looking a name up changes no count.
pub proof fn law_record(s: Seq<Entry>, name: Name, other: Name)
    requires
        distinct(s),
    ensures
        distinct(recorded(s, name)),
        tracks(recorded(s, name), name),
        refs_of(recorded(s, name), other) == refs_of(s, other),
        other != name ==> tracks(recorded(s, name), other) == tracks(s, other),
{
    let t = recorded(s, name);
    if !tracks(s, name) {
        let e = Entry { name, refs: 0 };
        lemma_refs_of_push(s, e, name);
        lemma_refs_of_push(s, e, other);
        lemma_untracked(s, name);
        assert forall|i: int, j: int| 0 <= i < j < t.len() implies (#[trigger] t[i]).name != (
        #[trigger] t[j]).name by {
            if j < s.len() {
                assert(s[i].name != s[j].name);
            } else {
                assert(s[i].name != name);
            }
        }
    }
}

/// How often `name` stands in `names`.
pub open spec fn occurrences(names: Seq<Name>, name: Name) -> nat
    decreases names.len(),
{
    if names.len() == 0 {
        0
    } else {
        occurrences(names.drop_last(), name) + if names.last() == name {
            1nat
        } else {
            0nat
        }
    }
}

/// How often the calls ask for the deletion of an object.
pub open spec fn times_deleted(calls: Seq<Call>, kind: ResourceKind, name: Name) -> nat
    decreases calls.len(),
{
    if calls.len() == 0 {
        0
    } else {
        times_deleted(calls.drop_last(), kind, name) + match calls.last() {
            Call::Delete { kind: k, names } => if k == kind {
                occurrences(names, name)
            } else {
                0
            },
            _ => 0,
        }
    }
}

/// Cleaning takes out the objects without a handle, and only those: each
/// is named once among the dead, and none of them is left; an object with a
/// handle is not named, and stays with its count.
pub proof fn law_sweep(s: Seq<Entry>, name: Name)
    requires
        distinct(s),
    ensures
        distinct(live(s)),
        occurrences(dead(s), name) == if tracks(s, name) && refs_of(s, name) == 0 {
            1nat
        } else {
            0nat
        },
        tracks(live(s), name) == (tracks(s, name) && refs_of(s, name) > 0),
        refs_of(live(s), name) == refs_of(s, name),
        forall|i: int| 0 <= i < live(s).len() ==> (#[trigger] live(s)[i]).refs > 0,
        forall|i: int| 0 <= i < live(s).len() ==> tracks(s, (#[trigger] live(s)[i]).name),
    decreases s.len(),
{
    if s.len() == 0 {
        lemma_dead_empty();
        assert(s =~= Seq::<Entry>::empty());
    } else {
        let r = s.drop_last();
        let e = s.last();
        assert(s =~= r.push(e));
        assert forall|a: int, b: int| 0 <= a < b < r.len() implies (#[trigger] r[a]).name != (
        #[trigger] r[b]).name by {
            assert(s[a].name != s[b].name);
        }
        law_sweep(r, name);
        law_sweep(r, e.name);
        lemma_dead_push(r, e);
        lemma_refs_of_push(r, e, name);
        assert(!tracks(r, e.name)) by {
            if tracks(r, e.name) {
                let i = choose|i: int| 0 <= i < r.len() && (#[trigger] r[i]).name == e.name;
                assert(s[i].name != s[s.len() - 1].name);
            }
        }
        if e.refs == 0 {
            assert(dead(s) == dead(r).push(e.name));
            assert(dead(s).drop_last() =~= dead(r));
            if e.name != name {
            } else {
                lemma_untracked(r, name);
            }
            assert forall|i: int| 0 <= i < live(s).len() implies tracks(
                s,
                (#[trigger] live(s)[i]).name,
            ) by {
                let n = live(r)[i].name;
                lemma_refs_of_push(r, e, n);
            }
        } else {
            let t = live(r).push(e);
            assert(live(s) == t);
            lemma_refs_of_push(live(r), e, name);
            assert forall|a: int, b: int| 0 <= a < b < t.len() implies (#[trigger] t[a]).name != (
            #[trigger] t[b]).name by {
                if b < live(r).len() {
                    assert(live(r)[a].name != live(r)[b].name);
                } else {
                    assert(tracks(r, live(r)[a].name));
                }
            }
            assert forall|i: int| 0 <= i < t.len() implies tracks(s, (#[trigger] t[i]).name) by {
                if i < live(r).len() {
                    lemma_refs_of_push(r, e, live(r)[i].name);
                } else {
                    lemma_refs_of_push(r, e, e.name);
                }
            }
        }
    }
}

/// After a cleaning nothing is left to destroy: a second one names nothing.
pub proof fn law_sweep_twice(s: Seq<Entry>)
    requires
        distinct(s),
    ensures
        dead(live(s)) == Seq::<Name>::empty(),
        live(live(s)) == live(s),
{
    let t = live(s);
    assert forall|i: int| 0 <= i < t.len() implies (#[trigger] t[i]).refs > 0 by {
        law_sweep(s, 0);
    }
    lemma_all_live(t);
}

proof fn lemma_all_live(t: Seq<Entry>)
    requires
        forall|i: int| 0 <= i < t.len() ==> (#[trigger] t[i]).refs > 0,
    ensures
        dead(t) == Seq::<Name>::empty(),
        live(t) == t,
    decreases t.len(),
{
    if t.len() == 0 {
        lemma_dead_empty();
        assert(t =~= Seq::<Entry>::empty());
    } else {
        let r = t.drop_last();
        assert(t =~= r.push(t.last()));
        assert forall|i: int| 0 <= i < r.len() implies (#[trigger] r[i]).refs > 0 by {
            assert(t[i].refs > 0);
        }
        lemma_all_live(r);
        lemma_dead_push(r, t.last());
        assert(t[t.len() - 1].refs > 0);
    }
}

/// What the holder of a handle does with it: copy it, or give one back.
pub enum Step {
    Clone,
    Drop,
}

/// The entries after the steps were taken on handles of `name`, in order.
pub open spec fn after(s: Seq<Entry>, name: Name, steps: Seq<Step>) -> Seq<Entry>
    decreases steps.len(),
{
    if steps.len() == 0 {
        s
    } else {
        match steps.last() {
            Step::Clone => acquired(after(s, name, steps.drop_last()), name),
            Step::Drop => released(after(s, name, steps.drop_last()), name),
        }
    }
}

/// The number of handles in hand after the steps, for one in hand before
/// them.
pub open spec fn held(steps: Seq<Step>) -> int
    decreases steps.len(),
{
    if steps.len() == 0 {
        1
    } else {
        match steps.last() {
            Step::Clone => held(steps.drop_last()) + 1,
            Step::Drop => held(steps.drop_last()) - 1,
        }
    }
}

/// Steps that can be taken: a handle is copied or given back only while one
/// is in hand.
pub open spec fn possible(steps: Seq<Step>) -> bool
    decreases steps.len(),
{
    steps.len() == 0 || (possible(steps.drop_last()) && 0 < held(steps.drop_last()))
}

/// Steps during which the handles in hand stay below the machine's limit.
pub open spec fn countable(steps: Seq<Step>) -> bool
    decreases steps.len(),
{
    held(steps) < usize::MAX && (steps.len() == 0 || countable(steps.drop_last()))
}

/// From the creation of an object on, its count is the number of handles in
/// hand, whatever order they are copied and given back in.
pub proof fn law_count_is_handles_held(s: Seq<Entry>, name: Name, steps: Seq<Step>)
    requires
        distinct(s),
        !tracks(s, name),
        possible(steps),
        countable(steps),
    ensures
        distinct(after(acquired(s, name), name, steps)),
        tracks(after(acquired(s, name), name, steps), name),
        refs_of(after(acquired(s, name), name, steps), name) == held(steps),
    decreases steps.len(),
{
    if steps.len() == 0 {
        law_acquire(s, name, name);
        lemma_untracked(s, name);
    } else {
        let before = after(acquired(s, name), name, steps.drop_last());
        law_count_is_handles_held(s, name, steps.drop_last());
        match steps.last() {
            Step::Clone => {
                law_acquire(before, name, name);
            },
            Step::Drop => {
                law_release(before, name, name);
            },
        }
    }
}

/// An object is not destroyed while a handle to it is in hand, however many
/// there are: the next cleaning does not name it, and it stays.
pub proof fn law_kept_while_in_hand(s: Seq<Entry>, name: Name, steps: Seq<Step>)
    requires
        distinct(s),
        !tracks(s, name),
        possible(steps),
    ensures
        distinct(after(acquired(s, name), name, steps)),
        tracks(after(acquired(s, name), name, steps), name),
        refs_of(after(acquired(s, name), name, steps), name) == held(steps) || refs_of(
            after(acquired(s, name), name, steps),
            name,
        ) == usize::MAX,
        held(steps) > 0 ==> occurrences(dead(after(acquired(s, name), name, steps)), name) == 0
            && tracks(live(after(acquired(s, name), name, steps)), name),
    decreases steps.len(),
{
    let t = after(acquired(s, name), name, steps);
    if steps.len() == 0 {
        law_acquire(s, name, name);
        lemma_untracked(s, name);
    } else {
        let before = after(acquired(s, name), name, steps.drop_last());
        law_kept_while_in_hand(s, name, steps.drop_last());
        lemma_refs_bounded(before, name);
        match steps.last() {
            Step::Clone => {
                law_acquire(before, name, name);
            },
            Step::Drop => {
                law_release(before, name, name);
            },
        }
    }
    law_sweep(t, name);
}

/// An object is destroyed once, and only when every handle to it has been
/// given back: the next cleaning names it once if none is in hand, and then
/// it is gone; and it does not name it while one is in hand, and then it
/// stays.
pub proof fn law_destroyed_once_after_last_drop(s: Seq<Entry>, name: Name, steps: Seq<Step>)
    requires
        distinct(s),
        !tracks(s, name),
        possible(steps),
        countable(steps),
    ensures
        occurrences(dead(after(acquired(s, name), name, steps)), name) == if held(steps) == 0 {
            1nat
        } else {
            0nat
        },
        tracks(live(after(acquired(s, name), name, steps)), name) == (held(steps) > 0),
        occurrences(dead(live(after(acquired(s, name), name, steps))), name) == 0,
{
    let t = after(acquired(s, name), name, steps);
    law_count_is_handles_held(s, name, steps);
    law_sweep(t, name);
    law_sweep_twice(t);
}

/// What is done with the handles of one object changes no other object's
/// count.
pub proof fn law_steps_leave_others(s: Seq<Entry>, name: Name, steps: Seq<Step>, other: Name)
    requires
        distinct(s),
        other != name,
    ensures
        distinct(after(s, name, steps)),
        refs_of(after(s, name, steps), other) == refs_of(s, other),
        tracks(after(s, name, steps), other) == tracks(s, other),
    decreases steps.len(),
{
    if steps.len() > 0 {
        let before = after(s, name, steps.drop_last());
        law_steps_leave_others(s, name, steps.drop_last(), other);
        match steps.last() {
            Step::Clone => {
                law_acquire(before, name, other);
            },
            Step::Drop => {
                law_release(before, name, other);
            },
        }
    }
}

proof fn lemma_times_deleted_add(a: Seq<Call>, b: Seq<Call>, kind: ResourceKind, name: Name)
    ensures
        times_deleted(a + b, kind, name) == times_deleted(a, kind, name) + times_deleted(
            b,
            kind,
            name,
        ),
    decreases b.len(),
{
    if b.len() == 0 {
        assert(a + b =~= a);
    } else {
        assert((a + b).drop_last() =~= a + b.drop_last());
        assert((a + b).last() == b.last());
        lemma_times_deleted_add(a, b.drop_last(), kind, name);
    }
}

proof fn lemma_occurrences_one(n: Name, name: Name)
    ensures
        occurrences(seq![n], name) == if n == name {
            1nat
        } else {
            0nat
        },
{
    assert(seq![n].drop_last() =~= Seq::<Name>::empty());
    assert(seq![n].last() == n);
    assert(occurrences(Seq::<Name>::empty(), name) == 0);
}

proof fn lemma_times_deleted_deletions(
    k: ResourceKind,
    names: Seq<Name>,
    kind: ResourceKind,
    name: Name,
)
    ensures
        times_deleted(deletions(k, names), kind, name) == if k == kind {
            occurrences(names, name)
        } else {
            0
        },
    decreases names.len(),
{
    if k == ResourceKind::Shader || k == ResourceKind::Program {
        if names.len() == 0 {
            assert(singly(k, names) =~= Seq::<Call>::empty());
        } else {
            let call = Call::Delete { kind: k, names: seq![names.last()] };
            assert(singly(k, names).drop_last() =~= singly(k, names.drop_last()));
            assert(singly(k, names).last() == call);
            lemma_times_deleted_deletions(k, names.drop_last(), kind, name);
            lemma_occurrences_one(names.last(), name);
        }
    } else {
        assert(times_deleted(Seq::<Call>::empty(), kind, name) == 0);
        if names.len() > 0 {
            assert(batch(k, names).drop_last() =~= Seq::<Call>::empty());
            assert(batch(k, names).last() == Call::Delete { kind: k, names });
        }
    }
}

/// A cleaning asks for the deletion of an object once if it has an entry
/// and no handle, and not at all otherwise.
pub proof fn law_destruction(m: Counts, kind: ResourceKind, name: Name)
    requires
        distinct(m[kind]),
    ensures
        times_deleted(destruction(m), kind, name) == if tracks(m[kind], name) && refs_of(
            m[kind],
            name,
        ) == 0 {
            1nat
        } else {
            0nat
        },
{
    let d0 = deletions(ResourceKind::Buffer, dead(m[ResourceKind::Buffer]));
    let d1 = deletions(ResourceKind::ArrayBuffer, dead(m[ResourceKind::ArrayBuffer]));
    let d2 = deletions(ResourceKind::Shader, dead(m[ResourceKind::Shader]));
    let d3 = deletions(ResourceKind::Program, dead(m[ResourceKind::Program]));
    let d4 = deletions(ResourceKind::FrameBuffer, dead(m[ResourceKind::FrameBuffer]));
    let d5 = deletions(ResourceKind::Surface, dead(m[ResourceKind::Surface]));
    let d6 = deletions(ResourceKind::Texture, dead(m[ResourceKind::Texture]));
    let d7 = deletions(ResourceKind::Sampler, dead(m[ResourceKind::Sampler]));
    assert(destruction(m) == d0 + d1 + d2 + d3 + d4 + d5 + d6 + d7);
    lemma_times_deleted_add(d0 + d1 + d2 + d3 + d4 + d5 + d6, d7, kind, name);
    lemma_times_deleted_add(d0 + d1 + d2 + d3 + d4 + d5, d6, kind, name);
    lemma_times_deleted_add(d0 + d1 + d2 + d3 + d4, d5, kind, name);
    lemma_times_deleted_add(d0 + d1 + d2 + d3, d4, kind, name);
    lemma_times_deleted_add(d0 + d1 + d2, d3, kind, name);
    lemma_times_deleted_add(d0 + d1, d2, kind, name);
    lemma_times_deleted_add(d0, d1, kind, name);
    lemma_times_deleted_deletions(ResourceKind::Buffer, dead(m[ResourceKind::Buffer]), kind, name);
    lemma_times_deleted_deletions(
        ResourceKind::ArrayBuffer,
        dead(m[ResourceKind::ArrayBuffer]),
        kind,
        name,
    );
    lemma_times_deleted_deletions(ResourceKind::Shader, dead(m[ResourceKind::Shader]), kind, name);
    lemma_times_deleted_deletions(
        ResourceKind::Program,
        dead(m[ResourceKind::Program]),
        kind,
        name,
    );
    lemma_times_deleted_deletions(
        ResourceKind::FrameBuffer,
        dead(m[ResourceKind::FrameBuffer]),
        kind,
        name,
    );
    lemma_times_deleted_deletions(
        ResourceKind::Surface,
        dead(m[ResourceKind::Surface]),
        kind,
        name,
    );
    lemma_times_deleted_deletions(
        ResourceKind::Texture,
        dead(m[ResourceKind::Texture]),
        kind,
        name,
    );
    lemma_times_deleted_deletions(
        ResourceKind::Sampler,
        dead(m[ResourceKind::Sampler]),
        kind,
        name,
    );
    law_sweep(m[kind], name);
}

/// No name has two entries, in any kind.
pub open spec fn all_distinct(m: Counts) -> bool {
    forall|kind: ResourceKind| distinct(#[trigger] m[kind])
}

/// A factory's counts and its names looked up hold each name once.
pub open spec fn consistent(s: State) -> bool {
    all_distinct(s.counts) && all_distinct(s.resolved)
}

/// A new factory is consistent, and every step of a factory keeps it so.
pub proof fn law_consistent(caps: Capabilities, s: State, kind: ResourceKind, name: Name)
    requires
        consistent(s),
    ensures
        consistent(initial(caps)),
        consistent(registered(s, kind, name)),
        consistent(unregistered(s, kind, name)),
        consistent(looked_up(s, kind, name)),
        consistent(State { counts: swept(s.counts), resolved: nothing(), ..s }),
{
    lemma_dead_empty();
    assert(all_distinct(nothing()));
    assert(all_distinct(initial(caps).counts));
    law_acquire(s.counts[kind], name, name);
    law_release(s.counts[kind], name, name);
    law_record(s.resolved[kind], name, name);
    assert(all_distinct(registered(s, kind, name).counts)) by {
        assert forall|k: ResourceKind| distinct(#[trigger] registered(s, kind, name).counts[k]) by {
            assert(distinct(s.counts[k]));
        }
    }
    assert(all_distinct(unregistered(s, kind, name).counts)) by {
        assert forall|k: ResourceKind| distinct(#[trigger] unregistered(s, kind, name).counts[k]) by {
            assert(distinct(s.counts[k]));
        }
    }
    assert(all_distinct(looked_up(s, kind, name).resolved)) by {
        assert forall|k: ResourceKind| distinct(#[trigger] looked_up(s, kind, name).resolved[k]) by {
            assert(distinct(s.resolved[k]));
        }
    }
    assert(all_distinct(swept(s.counts))) by {
        assert forall|k: ResourceKind| distinct(#[trigger] swept(s.counts)[k]) by {
            assert(distinct(s.counts[k]));
            law_sweep(s.counts[k], name);
        }
    }
}

/// Looking names up changes no count of the factory, and keeps it
/// consistent.
pub proof fn law_lookups<I>(s: State, handles: Seq<Handle<I>>)
    requires
        consistent(s),
    ensures
        consistent(all_looked_up(s, handles)),
        all_looked_up(s, handles).counts == s.counts,
        all_looked_up(s, handles).caps == s.caps,
        all_looked_up(s, handles).main == s.main,
        all_looked_up(s, handles).mapping == s.mapping,
    decreases handles.len(),
{
    if handles.len() > 0 {
        law_lookups(s, handles.drop_last());
        law_consistent(
            s.caps,
            all_looked_up(s, handles.drop_last()),
            handles.last()@.kind,
            handles.last()@.name,
        );
    }
}

/// A cleanup destroys what has no handle, once: an object that the calls of
/// one cleanup delete is not deleted by those of the next, and one that has
/// a handle is not deleted at all and keeps its count.
pub proof fn law_cleanup(m: Counts, kind: ResourceKind, name: Name)
    requires
        all_distinct(m),
    ensures
        all_distinct(swept(m)),
        times_deleted(destruction(m), kind, name) <= 1,
        times_deleted(destruction(swept(m)), kind, name) == 0,
        refs_of(m[kind], name) > 0 ==> times_deleted(destruction(m), kind, name) == 0 && refs_of(
            swept(m)[kind],
            name,
        ) == refs_of(m[kind], name),
{
    assert(distinct(m[kind]));
    assert forall|k: ResourceKind| distinct(#[trigger] swept(m)[k]) by {
        assert(distinct(m[k]));
        law_sweep(m[k], name);
    }
    law_destruction(m, kind, name);
    law_destruction(swept(m), kind, name);
    law_sweep(m[kind], name);
    if tracks(live(m[kind]), name) {
        let i = choose|i: int| 0 <= i < live(m[kind]).len() && (#[trigger] live(m[kind])[i]).name
            == name;
        lemma_refs_at(live(m[kind]), i, name);
    }
}

/// A surface or texture with a dimension or a number of levels of zero is
/// refused as invalid, whatever the device can do.
pub proof fn law_zero_size_is_invalid(caps: Capabilities, surface: SurfaceInfo, texture: TextureInfo)
    ensures
        surface.width == 0 || surface.height == 0 || surface.levels == 0 ==> surface_refusal(
            caps,
            surface,
        ) == Some(SurfaceError::InvalidInfo(surface)),
        texture.width == 0 || texture.height == 0 || texture.levels == 0 ==> texture_refusal(
            caps,
            texture,
        ) == Some(TextureError::InvalidInfo(texture)),
{
}

/// A device without gamma-encoded formats refuses them, and the refusal for
/// gamma is given for no other reason. A description that is invalid is
/// refused as that first.
pub proof fn law_gamma_needs_support(caps: Capabilities, surface: SurfaceInfo, texture: TextureInfo)
    ensures
        surface.width != 0 && surface.height != 0 && surface.levels != 0 ==> ((
        surface.format.converts_gamma() && !caps.srgb_color_supported) ==> surface_refusal(
            caps,
            surface,
        ) == Some(SurfaceError::UnsupportedGamma)),
        texture.width != 0 && texture.height != 0 && texture.levels != 0 ==> ((
        texture.format.converts_gamma() && !caps.srgb_color_supported) ==> texture_refusal(
            caps,
            texture,
        ) == Some(TextureError::UnsupportedGamma)),
        surface_refusal(caps, surface) == Some(SurfaceError::UnsupportedGamma)
            ==> surface.format.converts_gamma() && !caps.srgb_color_supported,
        texture_refusal(caps, texture) == Some(TextureError::UnsupportedGamma)
            ==> texture.format.converts_gamma() && !caps.srgb_color_supported,
{
}

/// Without sampler objects every sampler names none.
pub proof fn law_sampler_without_objects(caps: Capabilities, made: Option<Name>)
    requires
        !caps.sampler_objects_supported,
    ensures
        sampler_name(caps, made) == 0,
{
}

} // verus!
