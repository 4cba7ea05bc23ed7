//! Resolution of a routing key to its directive, out of a loaded corpus.
//!
//! Lookup latency stays bounded so command-line binaries can emit
//! directives without making resolver overhead visible to the calling
//! workflow: entries are grouped by routing key once, when the corpus is
//! loaded.

use std::collections::BTreeMap;

use vstd::prelude::*;

use crate::error::BsuiteCoreError;
use crate::manifest_overlay::ManifestOverlay;
use crate::routing_key::{spec_routing_slot, RoutingKey, ROUTING_KEY_COUNT};

verus! {

/// One directive of the corpus, routed to one binary.
#[derive(Debug, PartialEq, Eq)]
pub struct CorpusEntry {
    pub routing_key: RoutingKey,
    pub directive: String,
}

impl Clone for CorpusEntry {
    fn clone(&self) -> (copy: Self)
        ensures
            copy == *self,
    {
        CorpusEntry { routing_key: self.routing_key, directive: self.directive.clone() }
    }
}

/// A corpus whose signature has already been checked.
#[derive(Debug, Clone, PartialEq, Eq)]
pub struct CorpusFile {
    pub schema_version: u32,
    pub signature: String,
    pub canonical_key_id: String,
    pub entries: Vec<CorpusEntry>,
}

/// A directive handed back to the caller.
#[derive(Debug, Clone, PartialEq, Eq, PartialOrd, Ord, Hash)]
pub struct DirectiveString(String);

impl View for DirectiveString {
    type V = Seq<char>;

    closed spec fn view(&self) -> Seq<char> {
        self.0@
    }
}

impl DirectiveString {
    /// Wraps `value`.
    pub fn new(value: String) -> (directive: DirectiveString)
        ensures
            directive@ == value@,
    {
        DirectiveString(value)
    }

    /// The directive text.
    pub fn as_str(&self) -> (text: &str)
        ensures
            text@ == self@,
    {
        self.0.as_str()
    }

    /// The directive text, owned.
    pub fn into_inner(self) -> (text: String)
        ensures
            text@ == self@,
    {
        self.0
    }
}

/// Evidence gathered by a binary before it asks for a directive.
pub type EvidenceMap = BTreeMap<String, String>;

/// Something that answers a routing key with a directive.
pub trait PromptResolver {
    /// The directive for `key`, or the error that prevents it.
    fn resolve(
        &self,
        key: RoutingKey,
        evidence: EvidenceMap,
        overlay: Option<ManifestOverlay>,
    ) -> Result<DirectiveString, BsuiteCoreError>;
}

/// The entries of `entries` routed to `key`, in corpus order.
pub open spec fn entries_routed_to(entries: Seq<CorpusEntry>, key: RoutingKey) -> Seq<CorpusEntry>
    decreases entries.len(),
{
    if entries.len() == 0 {
        Seq::empty()
    } else {
        let earlier = entries_routed_to(entries.drop_last(), key);
        if entries.last().routing_key == key {
            earlier.push(entries.last())
        } else {
            earlier
        }
    }
}

/// Extending a corpus by one entry extends the entries of its key by that entry.
pub proof fn lemma_routed_push(entries: Seq<CorpusEntry>, entry: CorpusEntry, key: RoutingKey)
    ensures
        entries_routed_to(entries.push(entry), key) == if entry.routing_key == key {
            entries_routed_to(entries, key).push(entry)
        } else {
            entries_routed_to(entries, key)
        },
{
    assert(entries.push(entry).drop_last() =~= entries);
}

/// The entries routed to `key` are the corpus filtered to that key, kept
/// in corpus order.
pub proof fn lemma_routed_is_filter(entries: Seq<CorpusEntry>, key: RoutingKey)
    ensures
        entries_routed_to(entries, key) == entries.filter(
            |entry: CorpusEntry| entry.routing_key == key,
        ),
    decreases entries.len(),
{
    reveal(Seq::filter);
    if entries.len() > 0 {
        lemma_routed_is_filter(entries.drop_last(), key);
    }
}

/// How many entries are routed to some key, summed over every key.
pub open spec fn routed_total(entries: Seq<CorpusEntry>) -> nat {
    entries_routed_to(entries, RoutingKey::BGround).len() + entries_routed_to(
        entries,
        RoutingKey::BAnchor,
    ).len() + entries_routed_to(entries, RoutingKey::BSmell).len() + entries_routed_to(
        entries,
        RoutingKey::BRatch,
    ).len() + entries_routed_to(entries, RoutingKey::BWatch).len() + entries_routed_to(
        entries,
        RoutingKey::BSpector,
    ).len()
}

/// The groups of the routing keys partition the corpus: every entry is in
/// the group of its own key and of no other, so the group sizes add up to
/// the number of entries.
pub proof fn lemma_routed_groups_partition(entries: Seq<CorpusEntry>)
    ensures
        routed_total(entries) == entries.len(),
    decreases entries.len(),
{
    if entries.len() > 0 {
        let earlier = entries.drop_last();
        let entry = entries.last();
        lemma_routed_groups_partition(earlier);
        assert(earlier.push(entry) =~= entries);
        lemma_routed_push(earlier, entry, RoutingKey::BGround);
        lemma_routed_push(earlier, entry, RoutingKey::BAnchor);
        lemma_routed_push(earlier, entry, RoutingKey::BSmell);
        lemma_routed_push(earlier, entry, RoutingKey::BRatch);
        lemma_routed_push(earlier, entry, RoutingKey::BWatch);
        lemma_routed_push(earlier, entry, RoutingKey::BSpector);
    }
}

/// A routing key has no entries exactly when no entry of the corpus is routed to it.
pub proof fn lemma_no_routed_entries_iff_key_absent(entries: Seq<CorpusEntry>, key: RoutingKey)
    ensures
        entries_routed_to(entries, key).len() == 0 <==> forall|i: int|
            0 <= i < entries.len() ==> #[trigger] entries[i].routing_key != key,
    decreases entries.len(),
{
    if entries.len() > 0 {
        let earlier = entries.drop_last();
        lemma_no_routed_entries_iff_key_absent(earlier, key);
        assert forall|i: int| 0 <= i < earlier.len() implies earlier[i] == entries[i] by {}
        if entries.last().routing_key != key && entries_routed_to(entries, key).len() == 0 {
            assert forall|i: int| 0 <= i < entries.len() implies #[trigger] entries[i].routing_key
                != key by {
                if i < earlier.len() {
                    assert(earlier[i] == entries[i]);
                }
            }
        }
    }
}

/// The first entry routed to a key is the earliest entry of the corpus with
/// that key: duplicates resolve by corpus order.
pub proof fn lemma_first_routed_is_earliest(entries: Seq<CorpusEntry>, key: RoutingKey)
    requires
        entries_routed_to(entries, key).len() > 0,
    ensures
        exists|i: int|
            0 <= i < entries.len() && #[trigger] entries[i] == entries_routed_to(entries, key)[0]
                && entries[i].routing_key == key && forall|j: int|
                0 <= j < i ==> #[trigger] entries[j].routing_key != key,
    decreases entries.len(),
{
    let earlier = entries.drop_last();
    assert forall|i: int| 0 <= i < earlier.len() implies earlier[i] == entries[i] by {}
    if entries_routed_to(earlier, key).len() > 0 {
        lemma_first_routed_is_earliest(earlier, key);
        let i = choose|i: int|
            0 <= i < earlier.len() && #[trigger] earlier[i] == entries_routed_to(earlier, key)[0]
                && earlier[i].routing_key == key && forall|j: int|
                0 <= j < i ==> #[trigger] earlier[j].routing_key != key;
        assert(entries[i] == earlier[i]);
        assert forall|j: int| 0 <= j < i implies #[trigger] entries[j].routing_key != key by {
            assert(earlier[j] == entries[j]);
        }
    } else {
        lemma_no_routed_entries_iff_key_absent(earlier, key);
        let i = entries.len() - 1;
        assert forall|j: int| 0 <= j < i implies #[trigger] entries[j].routing_key != key by {
            assert(earlier[j] == entries[j]);
        }
        assert(entries[i] == entries_routed_to(entries, key)[0]);
    }
}

/// Entries of the corpus, grouped by routing key in corpus order.
struct CorpusEntryIndex {
    by_routing_key: Vec<Vec<CorpusEntry>>,
    total_entries: usize,
    all_entries: Ghost<Seq<CorpusEntry>>,
}

impl CorpusEntryIndex {
    /// Each group holds exactly the entries of its key, in corpus order.
    spec fn wf(&self) -> bool {
        &&& self.by_routing_key@.len() == ROUTING_KEY_COUNT
        &&& self.total_entries == self.all_entries@.len()
        &&& forall|key: RoutingKey| #[trigger]
            self.by_routing_key@[spec_routing_slot(key)]@ == entries_routed_to(
                self.all_entries@,
                key,
            )
    }

    fn from_entries(entries: Vec<CorpusEntry>) -> (index: CorpusEntryIndex)
        ensures
            index.wf(),
            index.all_entries@ == entries@,
    {
        let total_entries = entries.len();
        let mut by_routing_key: Vec<Vec<CorpusEntry>> = Vec::new();
        let mut k: usize = 0;
        while k < ROUTING_KEY_COUNT
            invariant
                k <= ROUTING_KEY_COUNT,
                by_routing_key@.len() == k,
                forall|j: int| 0 <= j < k ==> #[trigger] by_routing_key@[j]@.len() == 0,
            decreases ROUTING_KEY_COUNT - k,
        {
            by_routing_key.push(Vec::new());
            k = k + 1;
        }
        let mut i: usize = 0;
        while i < entries.len()
            invariant
                i <= entries@.len(),
                total_entries == entries@.len(),
                by_routing_key@.len() == ROUTING_KEY_COUNT,
                forall|key: RoutingKey| #[trigger]
                    by_routing_key@[spec_routing_slot(key)]@ == entries_routed_to(
                        entries@.take(i as int),
                        key,
                    ),
            decreases entries@.len() - i,
        {
            let entry = entries[i].clone();
            let slot = entry.routing_key.slot();
            proof {
                assert(entries@.take(i + 1) =~= entries@.take(i as int).push(entries@[i as int]));
                assert forall|key: RoutingKey| true implies entries_routed_to(
                    entries@.take(i + 1),
                    key,
                ) == if entries@[i as int].routing_key == key {
                    entries_routed_to(entries@.take(i as int), key).push(entries@[i as int])
                } else {
                    entries_routed_to(entries@.take(i as int), key)
                } by {
                    lemma_routed_push(entries@.take(i as int), entries@[i as int], key);
                }
            }
            let mut group = by_routing_key.remove(slot);
            group.push(entry);
            by_routing_key.insert(slot, group);
            i = i + 1;
        }
        assert(entries@.take(entries@.len() as int) =~= entries@);
        CorpusEntryIndex { by_routing_key, total_entries, all_entries: Ghost(entries@) }
    }

    fn entries_for(&self, key: RoutingKey) -> (group: &[CorpusEntry])
        requires
            self.wf(),
        ensures
            group@ == entries_routed_to(self.all_entries@, key),
    {
        self.by_routing_key[key.slot()].as_slice()
    }

    fn first_for(&self, key: RoutingKey) -> (first: Option<&CorpusEntry>)
        requires
            self.wf(),
        ensures
            entries_routed_to(self.all_entries@, key).len() == 0 ==> first is None,
            entries_routed_to(self.all_entries@, key).len() > 0 ==> first == Some(
                &entries_routed_to(self.all_entries@, key)[0],
            ),
    {
        self.entries_for(key).first()
    }

    fn len(&self) -> (count: usize)
        requires
            self.wf(),
        ensures
            count == self.all_entries@.len(),
    {
        self.total_entries
    }
}

/// Resolves routing keys against a loaded corpus.
pub struct CorpusResolver {
    entries: CorpusEntryIndex,
    schema_version: u32,
    canonical_key_id: String,
}

impl CorpusResolver {
    #[verifier::type_invariant]
    spec fn index_is_sound(self) -> bool {
        self.entries.wf()
    }

    /// The corpus entries the resolver was loaded with, in corpus order.
    pub closed spec fn corpus(self) -> Seq<CorpusEntry> {
        self.entries.all_entries@
    }

    /// The schema version of the loaded corpus.
    pub closed spec fn spec_schema_version(self) -> u32 {
        self.schema_version
    }

    /// The id of the key that signed the loaded corpus.
    pub closed spec fn spec_canonical_key_id(self) -> Seq<char> {
        self.canonical_key_id@
    }

    /// A resolver over a corpus whose signature has been checked.
    pub fn from_verified_corpus_file(corpus: CorpusFile) -> (resolver: CorpusResolver)
        ensures
            resolver.corpus() == corpus.entries@,
            resolver.spec_schema_version() == corpus.schema_version,
            resolver.spec_canonical_key_id() == corpus.canonical_key_id@,
    {
        CorpusResolver {
            entries: CorpusEntryIndex::from_entries(corpus.entries),
            schema_version: corpus.schema_version,
            canonical_key_id: corpus.canonical_key_id,
        }
    }

    /// How many entries the corpus holds, over all routing keys.
    pub fn entry_count(&self) -> (count: usize)
        ensures
            count == self.corpus().len(),
    {
        proof {
            use_type_invariant(self);
        }
        self.entries.len()
    }

    /// The schema version of the loaded corpus.
    pub fn schema_version(&self) -> (version: u32)
        ensures
            version == self.spec_schema_version(),
    {
        self.schema_version
    }

    /// The id of the key that signed the loaded corpus.
    pub fn canonical_key_id(&self) -> (id: &str)
        ensures
            id@ == self.spec_canonical_key_id(),
    {
        self.canonical_key_id.as_str()
    }

    /// The entries routed to `key`, in corpus order.
    pub fn entries_for(&self, key: RoutingKey) -> (group: &[CorpusEntry])
        ensures
            group@ == entries_routed_to(self.corpus(), key),
    {
        proof {
            use_type_invariant(self);
        }
        self.entries.entries_for(key)
    }
}

impl PromptResolver for CorpusResolver {
    /// The directive of the first entry routed to `key`; neither the
    /// evidence nor the overlay changes the choice.
    fn resolve(
        &self,
        key: RoutingKey,
        evidence: EvidenceMap,
        overlay: Option<ManifestOverlay>,
    ) -> (directive: Result<DirectiveString, BsuiteCoreError>)
        ensures
            entries_routed_to(self.corpus(), key).len() == 0 ==> directive == Err::<
                DirectiveString,
                BsuiteCoreError,
            >(BsuiteCoreError::CorpusKeyMissing(key)),
            entries_routed_to(self.corpus(), key).len() > 0 ==> (directive matches Ok(d) && d@
                == entries_routed_to(self.corpus(), key)[0].directive@),
    {
        proof {
            use_type_invariant(self);
        }
        match self.entries.first_for(key) {
            Some(entry) => Ok(DirectiveString::new(entry.directive.clone())),
            None => Err(BsuiteCoreError::CorpusKeyMissing(key)),
        }
    }
}

} // verus!
