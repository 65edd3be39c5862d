//! The per-exporter descriptor cache and the outcome handling of remote
//! descriptor creation.
//!
//! States per metric name run unknown → creating → cached. A name not yet
//! cached gets one creation attempt per export cycle: success and "already
//! exists" both commit the locally built descriptor; permission denial
//! abandons the cycle without caching, so the name is retried next cycle;
//! any other error skips just this metric for the cycle. Entries are never
//! evicted or updated afterwards. Two concurrent cycles may race to create
//! the same name: whichever outcome each of them sees, the cache ends up
//! holding exactly one entry for that name.

use vstd::prelude::*;

use crate::wire::{MetricDescriptor, MetricDescriptorV};

verus! {

/// The outcome the remote service reports for one descriptor creation call.
#[derive(Clone, Copy, PartialEq, Eq, Structural, Debug)]
pub enum CreateDescriptorOutcome {
    /// The descriptor was created.
    Created,
    /// A descriptor of that type already exists; treated as success.
    AlreadyExists,
    /// The caller lacks the monitoring-writer permission.
    PermissionDenied,
    /// Any other error.
    OtherError,
}

/// What the export cycle does next after one descriptor creation attempt.
#[derive(Clone, Copy, PartialEq, Eq, Structural, Debug)]
pub enum ResolveAction {
    /// The descriptor is cached; convert this metric's points.
    Proceed,
    /// Skip this metric for the cycle; retry next cycle.
    SkipMetric,
    /// Abandon the whole export cycle.
    AbortCycle,
}

/// The number of entries of a cache sequence carrying the given type string.
pub open spec fn key_count(entries: Seq<(String, MetricDescriptor)>, key: Seq<char>) -> int
    decreases entries.len(),
{
    if entries.len() == 0 {
        0
    } else {
        key_count(entries.drop_last(), key) + if entries.last().0@ == key {
            1int
        } else {
            0int
        }
    }
}

/// A cache mapping descriptor type strings to the descriptors created under
/// them, exclusively owned by one exporter instance.
#[derive(Debug)]
pub struct DescriptorCache {
    /// The cached entries; at most one per type string.
    pub entries: Vec<(String, MetricDescriptor)>,
}

impl DescriptorCache {
    /// Well-formed: no two entries share a type string.
    pub open spec fn wf(self) -> bool {
        forall|i: int, j: int|
            0 <= i < j < self.entries@.len() ==> (#[trigger] self.entries@[i]).0@ != (
            #[trigger] self.entries@[j]).0@
    }

    /// Whether an entry for the given type string is cached.
    pub open spec fn spec_contains(self, key: Seq<char>) -> bool {
        exists|i: int| 0 <= i < self.entries@.len() && (#[trigger] self.entries@[i]).0@ == key
    }

    /// The descriptor cached under the given type string.
    pub open spec fn spec_at(self, key: Seq<char>) -> MetricDescriptorV {
        let i = choose|i: int|
            0 <= i < self.entries@.len() && (#[trigger] self.entries@[i]).0@ == key;
        self.entries@[i].1@
    }

    /// In a well-formed cache the entry of a present key is the one at any
    /// index carrying that key.
    pub proof fn lemma_at(self, key: Seq<char>, i: int)
        requires
            self.wf(),
            0 <= i < self.entries@.len(),
            self.entries@[i].0@ == key,
        ensures
            self.spec_contains(key),
            self.spec_at(key) == self.entries@[i].1@,
    {
        let j = choose|j: int|
            0 <= j < self.entries@.len() && (#[trigger] self.entries@[j]).0@ == key;
        if i != j {
            assert(false);
        }
    }

    /// A well-formed cache holds exactly one entry for a present type string
    /// and none for an absent one — so however many export cycles raced to
    /// create a descriptor, at most one entry of its name exists.
    pub proof fn lemma_single_entry(self, key: Seq<char>)
        requires
            self.wf(),
        ensures
            key_count(self.entries@, key) == if self.spec_contains(key) {
                1int
            } else {
                0int
            },
    {
        lemma_key_count_distinct(self.entries@, key);
    }

    /// An empty cache.
    pub fn new() -> (r: DescriptorCache)
        ensures
            r.wf(),
            forall|k: Seq<char>| !r.spec_contains(k),
            r.entries@.len() == 0,
    {
        DescriptorCache { entries: Vec::new() }
    }

    /// The number of cached entries.
    pub fn len(&self) -> (r: usize)
        ensures
            r == self.entries@.len(),
    {
        self.entries.len()
    }

    /// Look up the descriptor cached under a type string.
    pub fn lookup(&self, descriptor_type: &String) -> (r: Option<MetricDescriptor>)
        requires
            self.wf(),
        ensures
            match r {
                Some(d) => self.spec_contains(descriptor_type@) && d@ == self.spec_at(
                    descriptor_type@,
                ),
                None => !self.spec_contains(descriptor_type@),
            },
    {
        let mut i: usize = 0;
        while i < self.entries.len()
            invariant
                self.wf(),
                i <= self.entries@.len(),
                forall|j: int| 0 <= j < i ==> (#[trigger] self.entries@[j]).0@
                    != descriptor_type@,
            decreases self.entries@.len() - i,
        {
            if self.entries[i].0 == *descriptor_type {
                let d = self.entries[i].1.clone();
                proof {
                    self.lemma_at(descriptor_type@, i as int);
                }
                return Some(d);
            }
            i = i + 1;
        }
        None
    }

    /// Commit a descriptor under its type string: replace the entry if the
    /// type string is already cached — a concurrent cycle may have won the
    /// race — and append it otherwise. Every other entry is untouched.
    pub fn insert(&mut self, descriptor_type: String, descriptor: MetricDescriptor)
        requires
            old(self).wf(),
        ensures
            final(self).wf(),
            final(self).spec_contains(descriptor_type@),
            final(self).spec_at(descriptor_type@) == descriptor@,
            forall|k: Seq<char>| k != descriptor_type@ ==> (#[trigger] final(self).spec_contains(
                k,
            ) <==> old(self).spec_contains(k)),
            forall|k: Seq<char>| k != descriptor_type@ && old(self).spec_contains(k) ==> (
            #[trigger] final(self).spec_at(k)) == old(self).spec_at(k),
            final(self).entries@.len() == old(self).entries@.len() + (if old(self).spec_contains(
                descriptor_type@,
            ) {
                0int
            } else {
                1int
            }),
    {
        let ghost pre = *self;
        let mut i: usize = 0;
        while i < self.entries.len()
            invariant
                *self == pre,
                pre == *old(self),
                pre.wf(),
                i <= self.entries@.len(),
                forall|j: int| 0 <= j < i ==> (#[trigger] self.entries@[j]).0@
                    != descriptor_type@,
            decreases self.entries@.len() - i,
        {
            if self.entries[i].0 == *(&descriptor_type) {
                let ghost key = descriptor_type@;
                let _removed = self.entries.remove(i);
                self.entries.push((descriptor_type, descriptor));
                proof {
                    pre.entries@.remove_ensures(i as int);
                    lemma_replace_entry(pre.entries@, self.entries@, i as int);
                    self.lemma_at(key, self.entries@.len() - 1);
                    assert forall|k: Seq<char>| k != key implies ((#[trigger] self.spec_contains(
                        k,
                    )) <==> pre.spec_contains(k)) by {
                        if pre.spec_contains(k) {
                            let j = choose|j: int|
                                0 <= j < pre.entries@.len() && (#[trigger] pre.entries@[j]).0@
                                    == k;
                            if j < i {
                                self.lemma_at(k, j);
                            } else {
                                self.lemma_at(k, j - 1);
                            }
                        }
                        if self.spec_contains(k) {
                            let j = choose|j: int|
                                0 <= j < self.entries@.len() && (#[trigger] self.entries@[j]).0@
                                    == k;
                            if j < i {
                                pre.lemma_at(k, j);
                            } else if j < self.entries@.len() - 1 {
                                pre.lemma_at(k, j + 1);
                            }
                        }
                    }
                    assert forall|k: Seq<char>| k != key && pre.spec_contains(k) implies (
                    #[trigger] self.spec_at(k)) == pre.spec_at(k) by {
                        let j = choose|j: int|
                            0 <= j < pre.entries@.len() && (#[trigger] pre.entries@[j]).0@ == k;
                        pre.lemma_at(k, j);
                        if j < i {
                            self.lemma_at(k, j);
                        } else {
                            self.lemma_at(k, j - 1);
                        }
                    }
                }
                return ;
            }
            i = i + 1;
        }
        let ghost key = descriptor_type@;
        self.entries.push((descriptor_type, descriptor));
        proof {
            let post = *self;
            assert(!pre.spec_contains(key));
            assert(post.entries@.last().0@ == key);
            assert forall|x: int, y: int|
                0 <= x < y < post.entries@.len() implies (#[trigger] post.entries@[x]).0@ != (
            #[trigger] post.entries@[y]).0@ by {
                if y < post.entries@.len() - 1 {
                    assert(pre.entries@[x].0@ != pre.entries@[y].0@);
                } else {
                    assert(post.entries@[x] == pre.entries@[x]);
                    pre.lemma_at_absent(key, x);
                }
            }
            post.lemma_at(key, post.entries@.len() - 1);
            assert forall|k: Seq<char>| k != key implies ((#[trigger] post.spec_contains(k))
                <==> pre.spec_contains(k)) by {
                if pre.spec_contains(k) {
                    let j = choose|j: int|
                        0 <= j < pre.entries@.len() && (#[trigger] pre.entries@[j]).0@ == k;
                    assert(post.entries@[j].0@ == k);
                }
                if post.spec_contains(k) {
                    let j = choose|j: int|
                        0 <= j < post.entries@.len() && (#[trigger] post.entries@[j]).0@ == k;
                    assert(pre.entries@[j].0@ == k);
                }
            }
            assert forall|k: Seq<char>| k != key && pre.spec_contains(k) implies (
            #[trigger] post.spec_at(k)) == pre.spec_at(k) by {
                let j = choose|j: int|
                    0 <= j < pre.entries@.len() && (#[trigger] pre.entries@[j]).0@ == k;
                pre.lemma_at(k, j);
                post.lemma_at(k, j);
            }
        }
    }

    /// In a well-formed cache an absent key matches no entry.
    pub proof fn lemma_at_absent(self, key: Seq<char>, i: int)
        requires
            !self.spec_contains(key),
            0 <= i < self.entries@.len(),
        ensures
            self.entries@[i].0@ != key,
    {
    }
}

/// Removing the entry at one index and appending a pair with the same key
/// keeps the keys distinct.
proof fn lemma_replace_entry(
    pre: Seq<(String, MetricDescriptor)>,
    post: Seq<(String, MetricDescriptor)>,
    i: int,
)
    requires
        0 <= i < pre.len(),
        post.len() == pre.len(),
        post.last().0@ == pre[i].0@,
        forall|j: int| 0 <= j < i ==> post[j] == pre[j],
        forall|j: int| i <= j < pre.len() - 1 ==> post[j] == pre[j + 1],
        forall|x: int, y: int| 0 <= x < y < pre.len() ==> (#[trigger] pre[x]).0@ != (
        #[trigger] pre[y]).0@,
    ensures
        forall|x: int, y: int| 0 <= x < y < post.len() ==> (#[trigger] post[x]).0@ != (
        #[trigger] post[y]).0@,
{
    assert forall|x: int, y: int|
        0 <= x < y < post.len() implies (#[trigger] post[x]).0@ != (#[trigger] post[y]).0@ by {
        let px = if x < i {
            x
        } else {
            x + 1
        };
        let py = if y < i {
            y
        } else {
            y + 1
        };
        if y < post.len() - 1 {
            assert(post[x] == pre[px]);
            assert(post[y] == pre[py]);
        } else {
            assert(post[y].0@ == pre[i].0@);
            assert(post[x] == pre[px]);
            if px < i {
                assert(pre[px].0@ != pre[i].0@);
            } else {
                assert(pre[i].0@ != pre[px].0@);
            }
        }
    }
}

/// A well-formed cache sequence holds each key at most once.
proof fn lemma_key_count_distinct(entries: Seq<(String, MetricDescriptor)>, key: Seq<char>)
    requires
        forall|i: int, j: int| 0 <= i < j < entries.len() ==> (#[trigger] entries[i]).0@ != (
        #[trigger] entries[j]).0@,
    ensures
        key_count(entries, key) == if (exists|i: int|
            0 <= i < entries.len() && (#[trigger] entries[i]).0@ == key) {
            1int
        } else {
            0int
        },
    decreases entries.len(),
{
    if entries.len() > 0 {
        let prefix = entries.drop_last();
        lemma_key_count_distinct(prefix, key);
        if entries.last().0@ == key {
            assert(entries[entries.len() - 1].0@ == key);
            if exists|i: int| 0 <= i < prefix.len() && (#[trigger] prefix[i]).0@ == key {
                let i = choose|i: int| 0 <= i < prefix.len() && (#[trigger] prefix[i]).0@ == key;
                assert(entries[i].0@ != entries[entries.len() - 1].0@);
                assert(false);
            }
        } else {
            if exists|i: int| 0 <= i < entries.len() && (#[trigger] entries[i]).0@ == key {
                let i = choose|i: int|
                    0 <= i < entries.len() && (#[trigger] entries[i]).0@ == key;
                assert(prefix[i].0@ == key);
            }
            if exists|i: int| 0 <= i < prefix.len() && (#[trigger] prefix[i]).0@ == key {
                let i = choose|i: int| 0 <= i < prefix.len() && (#[trigger] prefix[i]).0@ == key;
                assert(entries[i].0@ == key);
            }
        }
    }
}

/// Apply the outcome of one remote descriptor creation attempt to the cache
/// and decide how the export cycle goes on: success and "already exists"
/// commit the locally built descriptor and proceed; permission denial leaves
/// the cache untouched and abandons the cycle; any other error leaves the
/// cache untouched and skips just this metric.
pub fn apply_create_outcome(
    cache: &mut DescriptorCache,
    descriptor_type: String,
    descriptor: MetricDescriptor,
    outcome: CreateDescriptorOutcome,
) -> (r: ResolveAction)
    requires
        old(cache).wf(),
    ensures
        final(cache).wf(),
        (outcome == CreateDescriptorOutcome::Created || outcome
            == CreateDescriptorOutcome::AlreadyExists) ==> {
            &&& r == ResolveAction::Proceed
            &&& final(cache).spec_contains(descriptor_type@)
            &&& final(cache).spec_at(descriptor_type@) == descriptor@
            &&& key_count(final(cache).entries@, descriptor_type@) == 1
            &&& forall|k: Seq<char>| k != descriptor_type@ ==> (#[trigger] final(cache).spec_contains(k) <==> old(cache).spec_contains(k))
            &&& forall|k: Seq<char>| k != descriptor_type@ && old(cache).spec_contains(k) ==> (
                #[trigger] final(cache).spec_at(k)) == old(cache).spec_at(k)
        },
        outcome == CreateDescriptorOutcome::PermissionDenied ==> r == ResolveAction::AbortCycle
            && *final(cache) == *old(cache),
        outcome == CreateDescriptorOutcome::OtherError ==> r == ResolveAction::SkipMetric
            && *final(cache) == *old(cache),
{
    match outcome {
        CreateDescriptorOutcome::Created | CreateDescriptorOutcome::AlreadyExists => {
            let ghost key = descriptor_type@;
            cache.insert(descriptor_type, descriptor);
            proof {
                cache.lemma_single_entry(key);
            }
            ResolveAction::Proceed
        },
        CreateDescriptorOutcome::PermissionDenied => ResolveAction::AbortCycle,
        CreateDescriptorOutcome::OtherError => ResolveAction::SkipMetric,
    }
}

/// Two export cycles racing to create the same previously-unseen descriptor
/// both end with the cache well-formed and holding exactly one entry for
/// that type string, whichever of them the remote let win: each cycle's
/// outcome is success or "already exists", and applying the second commit on
/// top of the first still leaves a single entry.
pub proof fn lemma_create_race_single_entry(
    cache: DescriptorCache,
    after_first: DescriptorCache,
    after_second: DescriptorCache,
    descriptor_type: Seq<char>,
    first: MetricDescriptorV,
    second: MetricDescriptorV,
)
    requires
        cache.wf(),
        !cache.spec_contains(descriptor_type),
        after_first.wf(),
        after_first.spec_contains(descriptor_type),
        after_first.spec_at(descriptor_type) == first,
        forall|k: Seq<char>| k != descriptor_type ==> (#[trigger] after_first.spec_contains(k)
            <==> cache.spec_contains(k)),
        after_second.wf(),
        after_second.spec_contains(descriptor_type),
        after_second.spec_at(descriptor_type) == second,
        forall|k: Seq<char>| k != descriptor_type ==> (#[trigger] after_second.spec_contains(k)
            <==> after_first.spec_contains(k)),
    ensures
        key_count(after_second.entries@, descriptor_type) == 1,
        forall|k: Seq<char>| k != descriptor_type ==> (#[trigger] after_second.spec_contains(k)
            <==> cache.spec_contains(k)),
{
    after_second.lemma_single_entry(descriptor_type);
}

} // verus!
