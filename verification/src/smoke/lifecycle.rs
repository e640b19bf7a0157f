//! The report of the full-lifecycle diagnostic: what the resource manager
//! held after each insert, which source it evicted, what survived, how the
//! evicted source came back, and how every source was finally released.
use vstd::prelude::*;

use super::names::{thread_target_name, thread_target_text, ThreadTarget};
use super::snapshot::bool_text;
use crate::text::{append_str, append_u64, decimal};

verus! {

/// The texts of `items` joined by " | ".
pub open spec fn bar_joined(items: Seq<Seq<char>>) -> Seq<char>
    decreases items.len(),
{
    if items.len() == 0 {
        Seq::empty()
    } else if items.len() == 1 {
        items[0]
    } else {
        bar_joined(items.drop_last()) + " | "@ + items.last()
    }
}

/// A per-source entry of the report: the source id, a colon, the value.
pub open spec fn entry_text(source_id: u64, value: Seq<char>) -> Seq<char> {
    decimal(source_id as nat) + ":"@ + value
}

/// The views of some strings.
pub open spec fn texts(items: Seq<String>) -> Seq<Seq<char>> {
    items.map_values(|s: String| s@)
}

/// `items` joined by " | ".
pub fn join_bar(items: &Vec<String>) -> (s: String)
    ensures
        s@ == bar_joined(texts(items@)),
{
    let ghost all = texts(items@);
    let mut s = String::new();
    if items.len() == 0 {
        return s;
    }
    append_str(&mut s, items[0].as_str());
    assert(all.take(1) =~= seq![all[0]]);
    let mut i: usize = 1;
    while i < items.len()
        invariant
            1 <= i <= items@.len(),
            all == texts(items@),
            s@ == bar_joined(all.take(i as int)),
        decreases items@.len() - i,
    {
        append_str(&mut s, " | ");
        append_str(&mut s, items[i].as_str());
        assert(all.take(i + 1).drop_last() =~= all.take(i as int));
        i = i + 1;
    }
    assert(all.take(items@.len() as int) =~= all);
    s
}

fn entry(source_id: u64, value: &str) -> (s: String)
    ensures
        s@ == entry_text(source_id, value@),
{
    let mut s = String::new();
    append_u64(&mut s, source_id);
    append_str(&mut s, ":");
    append_str(&mut s, value);
    s
}

fn count_text(n: u64) -> (s: String)
    ensures
        s@ == decimal(n as nat),
{
    let mut s = String::new();
    append_u64(&mut s, n);
    s
}

/// The entries "id:bytes" of the cache sizes after each insert.
pub open spec fn cache_entries(items: Seq<(u64, usize)>) -> Seq<Seq<char>> {
    items.map_values(|p: (u64, usize)| entry_text(p.0, decimal(p.1 as nat)))
}

/// The entries "id:available" of the sources that survived.
pub open spec fn availability_entries(items: Seq<(u64, bool)>) -> Seq<Seq<char>> {
    items.map_values(|p: (u64, bool)| entry_text(p.0, bool_text(p.1)))
}

/// The entries "id:status" of the final releases.
pub open spec fn release_entries(items: Seq<(u64, String)>) -> Seq<Seq<char>> {
    items.map_values(|p: (u64, String)| entry_text(p.0, p.1@))
}

fn cache_lines(items: &Vec<(u64, usize)>) -> (v: Vec<String>)
    ensures
        texts(v@) == cache_entries(items@),
{
    let mut v: Vec<String> = Vec::new();
    let mut i: usize = 0;
    while i < items.len()
        invariant
            0 <= i <= items@.len(),
            v@.len() == i,
            forall|j: int| 0 <= j < i ==> #[trigger] v@[j]@ == entry_text(items@[j].0, decimal(items@[j].1 as nat)),
        decreases items@.len() - i,
    {
        let (id, bytes) = items[i];
        let text = count_text(bytes as u64);
        v.push(entry(id, text.as_str()));
        i = i + 1;
    }
    assert(texts(v@) =~= cache_entries(items@));
    v
}

fn availability_lines(items: &Vec<(u64, bool)>) -> (v: Vec<String>)
    ensures
        texts(v@) == availability_entries(items@),
{
    let mut v: Vec<String> = Vec::new();
    let mut i: usize = 0;
    while i < items.len()
        invariant
            0 <= i <= items@.len(),
            v@.len() == i,
            forall|j: int| 0 <= j < i ==> #[trigger] v@[j]@ == entry_text(items@[j].0, bool_text(items@[j].1)),
        decreases items@.len() - i,
    {
        let (id, available) = items[i];
        v.push(entry(id, if available { "true" } else { "false" }));
        i = i + 1;
    }
    assert(texts(v@) =~= availability_entries(items@));
    v
}

fn release_lines(items: &Vec<(u64, String)>) -> (v: Vec<String>)
    ensures
        texts(v@) == release_entries(items@),
{
    let mut v: Vec<String> = Vec::new();
    let mut i: usize = 0;
    while i < items.len()
        invariant
            0 <= i <= items@.len(),
            v@.len() == i,
            forall|j: int| 0 <= j < i ==> #[trigger] v@[j]@ == entry_text(items@[j].0, items@[j].1@),
        decreases items@.len() - i,
    {
        let id = items[i].0;
        v.push(entry(id, items[i].1.as_str()));
        i = i + 1;
    }
    assert(texts(v@) =~= release_entries(items@));
    v
}

/// What the full-lifecycle diagnostic observed. The lifecycle state and
/// the release statuses arrive rendered by the resource manager.
pub struct LifecycleObservations {
    pub byte_budget: usize,
    pub cache_bytes_after_insert: Vec<(u64, usize)>,
    pub evicted_source_id: u64,
    pub evicted_state: Option<String>,
    pub evicted_acquire_available: bool,
    pub surviving_sources: Vec<(u64, bool)>,
    pub reloaded_generation: u32,
    pub reloaded_acquire_available: bool,
    pub cache_bytes_after_reload: usize,
    pub evicted_cleanup_target: Option<ThreadTarget>,
    pub final_release: Vec<(u64, String)>,
}

/// A lifecycle state as the report shows it: "-" when unknown.
pub open spec fn state_text(state: Option<String>) -> Seq<char> {
    match state {
        Some(s) => s@,
        None => "-"@,
    }
}

/// The thread on which the evicted source's deferred drop runs: the one
/// its cleaner named, the platform thread when none was recorded.
pub open spec fn cleanup_target(target: Option<ThreadTarget>) -> ThreadTarget {
    match target {
        Some(t) => t,
        None => ThreadTarget::Platform,
    }
}

pub open spec fn lifecycle_report_text(o: LifecycleObservations) -> Seq<char> {
    "p1_full_lifecycle=PASS\nbyte_budget="@ + decimal(o.byte_budget as nat) + "\ncache_bytes_after_insert="@
        + bar_joined(cache_entries(o.cache_bytes_after_insert@)) + "\nevicted_source_id="@ + decimal(
        o.evicted_source_id as nat,
    ) + "\nevicted_state="@ + state_text(o.evicted_state) + "\nevicted_acquire_available="@ + bool_text(
        o.evicted_acquire_available,
    ) + "\nsurviving_sources="@ + bar_joined(availability_entries(o.surviving_sources@))
        + "\nreloaded_source_id="@ + decimal(o.evicted_source_id as nat) + "\nreloaded_generation="@
        + decimal(o.reloaded_generation as nat) + "\nreloaded_acquire_available="@ + bool_text(
        o.reloaded_acquire_available,
    ) + "\ncache_bytes_after_reload="@ + decimal(o.cache_bytes_after_reload as nat)
        + "\ndeferred_drop_target="@ + thread_target_text(cleanup_target(o.evicted_cleanup_target))
        + "\nfinal_release="@ + bar_joined(release_entries(o.final_release@))
        + "\nnotes=This host diagnostic proves LRU eviction and reload at the resource-manager/shared-source boundary; pair it with the live preview path for visible render checks."@
}

/// The report of a full-lifecycle diagnostic that ran to its end.
pub fn lifecycle_report(o: &LifecycleObservations) -> (s: String)
    ensures
        s@ == lifecycle_report_text(*o),
{
    let mut s = String::from_str("p1_full_lifecycle=PASS\nbyte_budget=");
    append_u64(&mut s, o.byte_budget as u64);
    append_str(&mut s, "\ncache_bytes_after_insert=");
    let inserts = join_bar(&cache_lines(&o.cache_bytes_after_insert));
    append_str(&mut s, inserts.as_str());
    append_str(&mut s, "\nevicted_source_id=");
    append_u64(&mut s, o.evicted_source_id);
    append_str(&mut s, "\nevicted_state=");
    match &o.evicted_state {
        Some(state) => append_str(&mut s, state.as_str()),
        None => append_str(&mut s, "-"),
    }
    append_str(&mut s, "\nevicted_acquire_available=");
    append_str(&mut s, if o.evicted_acquire_available { "true" } else { "false" });
    append_str(&mut s, "\nsurviving_sources=");
    let surviving = join_bar(&availability_lines(&o.surviving_sources));
    append_str(&mut s, surviving.as_str());
    append_str(&mut s, "\nreloaded_source_id=");
    append_u64(&mut s, o.evicted_source_id);
    append_str(&mut s, "\nreloaded_generation=");
    append_u64(&mut s, o.reloaded_generation as u64);
    append_str(&mut s, "\nreloaded_acquire_available=");
    append_str(&mut s, if o.reloaded_acquire_available { "true" } else { "false" });
    append_str(&mut s, "\ncache_bytes_after_reload=");
    append_u64(&mut s, o.cache_bytes_after_reload as u64);
    append_str(&mut s, "\ndeferred_drop_target=");
    let target = match o.evicted_cleanup_target {
        Some(t) => t,
        None => ThreadTarget::Platform,
    };
    append_str(&mut s, thread_target_name(target));
    append_str(&mut s, "\nfinal_release=");
    let releases = join_bar(&release_lines(&o.final_release));
    append_str(&mut s, releases.as_str());
    append_str(
        &mut s,
        "\nnotes=This host diagnostic proves LRU eviction and reload at the resource-manager/shared-source boundary; pair it with the live preview path for visible render checks.",
    );
    s
}

/// A lifecycle source must carry a platform cleaner, whose thread its
/// deferred drop targets.
pub fn require_cleaner(source_id: u64, target: Option<ThreadTarget>) -> (r: Result<ThreadTarget, String>)
    ensures
        target matches Some(t) ==> r == Ok::<ThreadTarget, String>(t),
        target is None ==> (r matches Err(m) && m@ == "full lifecycle diagnostic source "@ + decimal(
            source_id as nat,
        ) + " is missing a platform cleaner"@),
{
    match target {
        Some(t) => Ok(t),
        None => {
            let mut s = String::from_str("full lifecycle diagnostic source ");
            append_u64(&mut s, source_id);
            append_str(&mut s, " is missing a platform cleaner");
            Err(s)
        },
    }
}

} // verus!
