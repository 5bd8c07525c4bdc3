//! A small map keyed by video format, as the capability probes fill it.
use vstd::prelude::*;

use crate::pipeline::VideoFormat;

verus! {

/// The map that a sequence of distinct-key entries describes.
pub open spec fn entries_map<V>(s: Seq<(VideoFormat, V)>) -> Map<VideoFormat, V>
    decreases s.len(),
{
    if s.len() == 0 {
        Map::empty()
    } else {
        entries_map(s.drop_last()).insert(s.last().0, s.last().1)
    }
}

/// No key occurs twice.
pub open spec fn distinct_keys<V>(s: Seq<(VideoFormat, V)>) -> bool {
    forall|i: int, j: int| 0 <= i < s.len() && 0 <= j < s.len() && i != j ==> s[i].0 != s[j].0
}

pub proof fn lemma_entries_map<V>(s: Seq<(VideoFormat, V)>)
    requires
        distinct_keys(s),
    ensures
        entries_map(s).dom().finite(),
        entries_map(s).dom().len() == s.len(),
        forall|k: VideoFormat|
            entries_map(s).contains_key(k) <==> exists|i: int| 0 <= i < s.len() && s[i].0 == k,
        forall|i: int| 0 <= i < s.len() ==> #[trigger] entries_map(s)[s[i].0] == s[i].1,
    decreases s.len(),
{
    if s.len() > 0 {
        let d = s.drop_last();
        assert(distinct_keys(d));
        lemma_entries_map(d);
        let k = s.last().0;
        assert(!entries_map(d).contains_key(k)) by {
            if entries_map(d).contains_key(k) {
                let i = choose|i: int| 0 <= i < d.len() && d[i].0 == k;
                assert(s[i].0 == s[s.len() - 1].0);
            }
        }
        assert(entries_map(s).dom() == entries_map(d).dom().insert(k));
        assert forall|kk: VideoFormat|
            entries_map(s).contains_key(kk) <==> exists|i: int| 0 <= i < s.len() && s[i].0 == kk by {
            if entries_map(s).contains_key(kk) && kk != k {
                let i = choose|i: int| 0 <= i < d.len() && d[i].0 == kk;
                assert(s[i].0 == kk);
            }
            if exists|i: int| 0 <= i < s.len() && s[i].0 == kk {
                let i = choose|i: int| 0 <= i < s.len() && s[i].0 == kk;
                if i < s.len() - 1 {
                    assert(d[i].0 == kk);
                }
            }
        }
        assert forall|i: int| 0 <= i < s.len() implies #[trigger] entries_map(s)[s[i].0] == s[i].1 by {
            if i < s.len() - 1 {
                assert(d[i] == s[i]);
                assert(s[i].0 != k);
            }
        }
    }
}

pub proof fn lemma_entries_map_update<V>(s: Seq<(VideoFormat, V)>, i: int, v: V)
    requires
        distinct_keys(s),
        0 <= i < s.len(),
    ensures
        distinct_keys(s.update(i, (s[i].0, v))),
        entries_map(s.update(i, (s[i].0, v))) == entries_map(s).insert(s[i].0, v),
{
    let t = s.update(i, (s[i].0, v));
    assert(distinct_keys(t));
    lemma_entries_map(s);
    lemma_entries_map(t);
    assert forall|k: VideoFormat| #[trigger] entries_map(t).contains_key(k) <==> entries_map(
        s,
    ).insert(s[i].0, v).contains_key(k) by {
        if exists|j: int| 0 <= j < s.len() && s[j].0 == k {
            let j = choose|j: int| 0 <= j < s.len() && s[j].0 == k;
            assert(t[j].0 == k);
        }
        if exists|j: int| 0 <= j < t.len() && t[j].0 == k {
            let j = choose|j: int| 0 <= j < t.len() && t[j].0 == k;
            assert(s[j].0 == k);
        }
    }
    assert forall|k: VideoFormat| #[trigger] entries_map(t).contains_key(k) implies entries_map(
        t,
    )[k] == entries_map(s).insert(s[i].0, v)[k] by {
        let j = choose|j: int| 0 <= j < t.len() && t[j].0 == k;
        assert(entries_map(t)[t[j].0] == t[j].1);
        if j != i {
            assert(entries_map(s)[s[j].0] == s[j].1);
        }
    }
    assert(entries_map(t) =~= entries_map(s).insert(s[i].0, v));
}

/// Every video format.
pub open spec fn all_formats() -> Set<VideoFormat> {
    set![
        VideoFormat::Av1,
        VideoFormat::H264,
        VideoFormat::Hevc,
        VideoFormat::Mpeg2Video,
        VideoFormat::Vc1,
        VideoFormat::Vp9,
    ]
}

pub proof fn lemma_all_formats()
    ensures
        all_formats().finite(),
        all_formats().len() == 6,
        forall|f: VideoFormat| all_formats().contains(f),
{
    assert forall|f: VideoFormat| all_formats().contains(f) by {
        match f {
            VideoFormat::Av1 => {},
            VideoFormat::H264 => {},
            VideoFormat::Hevc => {},
            VideoFormat::Mpeg2Video => {},
            VideoFormat::Vc1 => {},
            VideoFormat::Vp9 => {},
        }
    }
}

/// A map from video format to `V`, kept as a list of entries with distinct keys.
#[derive(Debug)]
pub struct FormatMap<V> {
    entries: Vec<(VideoFormat, V)>,
}

impl<V> FormatMap<V> {
    #[verifier::type_invariant]
    spec fn inv(self) -> bool {
        distinct_keys(self.entries@)
    }

    /// The mathematical map.
    pub closed spec fn view(&self) -> Map<VideoFormat, V> {
        entries_map(self.entries@)
    }

    /// An empty map.
    pub fn new() -> (m: Self)
        ensures
            m.view() == Map::<VideoFormat, V>::empty(),
            m.view().dom().finite(),
    {
        FormatMap { entries: Vec::new() }
    }

    /// Associates `value` with `key`, replacing any earlier value.
    pub fn insert(&mut self, key: VideoFormat, value: V)
        ensures
            final(self).view() == old(self).view().insert(key, value),
    {
        proof {
            use_type_invariant(&*self);
            lemma_entries_map(self.entries@);
        }
        let mut i: usize = 0;
        while i < self.entries.len()
            invariant
                0 <= i <= self.entries@.len(),
                distinct_keys(self.entries@),
                self.entries@ == old(self).entries@,
                forall|j: int| 0 <= j < i ==> self.entries@[j].0 != key,
            decreases self.entries@.len() - i,
        {
            if self.entries[i].0 == key {
                proof {
                    lemma_entries_map_update(self.entries@, i as int, value);
                }
                let ghost old_entries = self.entries@;
                let mut entries = Vec::new();
                std::mem::swap(&mut entries, &mut self.entries);
                entries.set(i, (key, value));
                assert(old_entries[i as int].0 == key);
                assert(entries@ == old_entries.update(i as int, (old_entries[i as int].0, value)));
                assert(entries_map(entries@) == entries_map(old_entries).insert(key, value));
                self.entries = entries;
                return;
            }
            i = i + 1;
        }
        let ghost old_entries = self.entries@;
        let mut entries = Vec::new();
        std::mem::swap(&mut entries, &mut self.entries);
        entries.push((key, value));
        assert(entries@.drop_last() == old_entries);
        assert(entries@.last() == (key, value));
        assert(entries_map(entries@) == entries_map(old_entries).insert(key, value));
        assert(distinct_keys(entries@));
        self.entries = entries;
    }

    /// The value associated with `key`, if any.
    pub fn get(&self, key: &VideoFormat) -> (r: Option<&V>)
        ensures
            r matches Some(v) ==> self.view().contains_key(*key) && *v == self.view()[*key],
            r is None ==> !self.view().contains_key(*key),
    {
        proof {
            use_type_invariant(self);
            lemma_entries_map(self.entries@);
        }
        let mut i: usize = 0;
        while i < self.entries.len()
            invariant
                0 <= i <= self.entries@.len(),
                forall|j: int| 0 <= j < i ==> self.entries@[j].0 != *key,
            decreases self.entries@.len() - i,
        {
            if self.entries[i].0 == *key {
                proof {
                    use_type_invariant(self);
                    lemma_entries_map(self.entries@);
                }
                assert(entries_map(self.entries@)[self.entries@[i as int].0] == self.entries@[i as int].1);
                assert(entries_map(self.entries@).contains_key(self.entries@[i as int].0));
                return Some(&self.entries[i].1);
            }
            i = i + 1;
        }
        None
    }

    /// The number of keys.
    pub fn len(&self) -> (n: usize)
        ensures
            self.view().dom().finite(),
            n == self.view().dom().len(),
            n <= 6,
    {
        proof {
            use_type_invariant(self);
            lemma_entries_map(self.entries@);
            lemma_all_formats();
            vstd::set_lib::lemma_len_subset(self.view().dom(), all_formats());
        }
        self.entries.len()
    }
}

} // verus!
