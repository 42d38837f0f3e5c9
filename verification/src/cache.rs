use vstd::prelude::*;
use vstd::seq_lib::*;
use crate::dns::{ObservedRecord, ObservedRecordV, RecordConfig, RecordConfigV};

verus! {

/// Whether an observed record answers a configured record: same zone
/// identifier and same name.
pub open spec fn record_matches(r: ObservedRecordV, c: RecordConfigV) -> bool {
    r.zone_id == c.zone_id && r.name == c.name
}

/// The first record in fetch order that answers the configured record, if
/// any. When a listing holds several records under the same zone and name,
/// the first one fetched wins; that tie-break is documented policy.
pub open spec fn spec_find(records: Seq<ObservedRecordV>, c: RecordConfigV) -> Option<
    ObservedRecordV,
>
    decreases records.len(),
{
    if records.len() == 0 {
        None
    } else if record_matches(records[0], c) {
        Some(records[0])
    } else {
        spec_find(records.drop_first(), c)
    }
}

proof fn lemma_find_skip(records: Seq<ObservedRecordV>, c: RecordConfigV, i: int)
    requires
        0 <= i <= records.len(),
        forall|k: int| 0 <= k < i ==> !record_matches(records[k], c),
    ensures
        spec_find(records, c) == spec_find(records.skip(i), c),
    decreases i,
{
    if i > 0 {
        lemma_find_skip(records.drop_first(), c, i - 1);
        assert(records.drop_first().skip(i - 1) =~= records.skip(i));
    } else {
        assert(records.skip(0) =~= records);
    }
}

/// Whatever the cache answers for a configured record does answer it: the
/// zone identifier and the name both match.
pub proof fn lemma_find_matches(records: Seq<ObservedRecordV>, c: RecordConfigV)
    ensures
        spec_find(records, c) matches Some(r) ==> record_matches(r, c),
    decreases records.len(),
{
    if records.len() > 0 && !record_matches(records[0], c) {
        lemma_find_matches(records.drop_first(), c);
    }
}

/// The documented tie-break: when a record at position `i` matches and none
/// before it does, the cache answers exactly that record — the first match
/// in fetch order wins.
pub proof fn lemma_find_first_match(records: Seq<ObservedRecordV>, c: RecordConfigV, i: int)
    requires
        0 <= i < records.len(),
        record_matches(records[i], c),
        forall|k: int| 0 <= k < i ==> !record_matches(records[k], c),
    ensures
        spec_find(records, c) == Some(records[i]),
{
    lemma_find_skip(records, c, i);
    assert(records.skip(i)[0] == records[i]);
}

/// When no cached record matches a configured record, the cache answers
/// nothing.
pub proof fn lemma_find_none(records: Seq<ObservedRecordV>, c: RecordConfigV)
    requires
        forall|k: int| 0 <= k < records.len() ==> !record_matches(records[k], c),
    ensures
        spec_find(records, c) is None,
{
    lemma_find_skip(records, c, records.len() as int);
    assert(records.skip(records.len() as int) =~= Seq::<ObservedRecordV>::empty());
}

/// The distinct zone identifiers the configured records name, in order of
/// first appearance: the zones for which one listing call each is issued.
pub open spec fn spec_zones_to_fetch(records: Seq<RecordConfigV>) -> Seq<Seq<char>>
    decreases records.len(),
{
    if records.len() == 0 {
        Seq::empty()
    } else {
        let rest = spec_zones_to_fetch(records.drop_last());
        if rest.contains(records.last().zone_id) {
            rest
        } else {
            rest.push(records.last().zone_id)
        }
    }
}

/// Zone fetch dedup: the fetch list names each distinct configured zone
/// exactly once, so its length is the number of distinct zone identifiers,
/// however many configured records share them.
pub proof fn lemma_zone_fetch_dedup(records: Seq<RecordConfigV>)
    ensures
        spec_zones_to_fetch(records).no_duplicates(),
        spec_zones_to_fetch(records).to_set() == records.map_values(
            |c: RecordConfigV| c.zone_id,
        ).to_set(),
        spec_zones_to_fetch(records).len() == records.map_values(
            |c: RecordConfigV| c.zone_id,
        ).to_set().len(),
    decreases records.len(),
{
    let zs = records.map_values(|c: RecordConfigV| c.zone_id);
    if records.len() == 0 {
        assert(spec_zones_to_fetch(records).to_set() =~= zs.to_set());
    } else {
        let prefix = records.drop_last();
        lemma_zone_fetch_dedup(prefix);
        let rest = spec_zones_to_fetch(prefix);
        let z_last = records.last().zone_id;
        let zsp = prefix.map_values(|c: RecordConfigV| c.zone_id);
        assert(zs =~= zsp.push(z_last));
        zsp.lemma_push_to_set_commute(z_last);
        if rest.contains(z_last) {
            assert(rest.to_set().contains(z_last));
            assert(zsp.to_set().insert(z_last) =~= zsp.to_set());
        } else {
            rest.lemma_push_to_set_commute(z_last);
            let result = rest.push(z_last);
            assert forall|i: int, j: int| 0 <= i < j < result.len() implies result[i]
                != result[j] by {
                if j == result.len() - 1 {
                    assert(result[i] == rest[i]);
                    if rest[i] == z_last {
                        assert(rest.contains(z_last));
                    }
                }
            }
        }
    }
    spec_zones_to_fetch(records).unique_seq_to_set();
}

fn vec_contains_string(v: &Vec<String>, s: &String) -> (b: bool)
    ensures
        b == v.deep_view().contains(s@),
{
    let mut j: usize = 0;
    while j < v.len()
        invariant
            j <= v.len(),
            forall|k: int| 0 <= k < j ==> v.deep_view()[k] != s@,
        decreases v.len() - j,
    {
        if v[j] == *s {
            assert(v.deep_view()[j as int] == s@);
            return true;
        }
        j += 1;
    }
    assert(!v.deep_view().contains(s@));
    false
}

/// The zones one listing call each must fetch for this configuration:
/// every configured zone identifier once, in order of first appearance.
pub fn zones_to_fetch(records: &Vec<RecordConfig>) -> (zones: Vec<String>)
    ensures
        zones.deep_view() == spec_zones_to_fetch(records.deep_view()),
{
    let mut zones: Vec<String> = Vec::new();
    let mut i: usize = 0;
    proof {
        assert(records.deep_view().take(0) =~= Seq::<RecordConfigV>::empty());
        assert(zones.deep_view() =~= Seq::<Seq<char>>::empty());
    }
    while i < records.len()
        invariant
            i <= records.len(),
            records.deep_view().len() == records.len(),
            zones.deep_view() == spec_zones_to_fetch(records.deep_view().take(i as int)),
        decreases records.len() - i,
    {
        let ghost cur = records.deep_view().take(i as int + 1);
        proof {
            assert(cur.drop_last() =~= records.deep_view().take(i as int));
            assert(cur.last() == records.deep_view()[i as int]);
        }
        if !vec_contains_string(&zones, &records[i].zone_id) {
            let ghost before = zones.deep_view();
            zones.push(records[i].zone_id.clone());
            proof {
                assert(zones.deep_view() =~= before.push(records.deep_view()[i as int].zone_id));
            }
        }
        i += 1;
    }
    proof {
        assert(records.deep_view().take(records.len() as int) =~= records.deep_view());
    }
    zones
}

/// All records fetched for this run, in fetch order, across every distinct
/// zone the configuration references.
pub struct DnsZones {
    records: Vec<ObservedRecord>,
}

impl View for DnsZones {
    type V = Seq<ObservedRecordV>;

    closed spec fn view(&self) -> Seq<ObservedRecordV> {
        self.records.deep_view()
    }
}

impl DnsZones {
    /// An empty cache: no zone listed yet.
    pub fn new() -> (z: DnsZones)
        ensures
            z@ == Seq::<ObservedRecordV>::empty(),
    {
        let z = DnsZones { records: Vec::new() };
        proof {
            assert(z.records.deep_view() =~= Seq::<ObservedRecordV>::empty());
        }
        z
    }

    /// Appends one zone's full listing to the cache, keeping the
    /// provider-returned order.
    pub fn add_zone_listing(&mut self, listing: Vec<ObservedRecord>)
        ensures
            final(self)@ == old(self)@ + listing.deep_view(),
    {
        let ghost added = listing.deep_view();
        let mut l = listing;
        self.records.append(&mut l);
        proof {
            assert(self.records.deep_view() =~= old(self).records.deep_view() + added);
        }
    }

    /// The first cached record with the configured zone and name, if any;
    /// on duplicate listings the first record in fetch order wins.
    pub fn find(&self, config: &RecordConfig) -> (r: Option<&ObservedRecord>)
        ensures
            match r {
                Some(rec) => spec_find(self@, config@) == Some(rec@),
                None => spec_find(self@, config@) is None,
            },
    {
        let mut i: usize = 0;
        while i < self.records.len()
            invariant
                i <= self.records.len(),
                self@.len() == self.records.len(),
                forall|k: int| 0 <= k < i ==> !record_matches(self@[k], config@),
            decreases self.records.len() - i,
        {
            let rec = &self.records[i];
            if rec.zone_id == config.zone_id && rec.name == config.name {
                proof {
                    lemma_find_skip(self@, config@, i as int);
                    assert(self@.skip(i as int)[0] == self@[i as int]);
                }
                return Some(rec);
            }
            i += 1;
        }
        proof {
            lemma_find_skip(self@, config@, self@.len() as int);
            assert(self@.skip(self@.len() as int) =~= Seq::<ObservedRecordV>::empty());
        }
        None
    }
}

} // verus!
