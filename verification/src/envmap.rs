use vstd::prelude::*;
use vstd::string::StringExecFns;
use crate::catalog::{catalog, get_additional_binary_paths, lemma_catalog_nonempty, seq_views};
use crate::platform::{path_separator, path_separator_spec, PlatformProfile};

verus! {

/// The entries of `parts` joined by `sep`, with no leading or trailing
/// separator.
pub open spec fn join_paths(parts: Seq<Seq<char>>, sep: Seq<char>) -> Seq<char>
    decreases parts.len(),
{
    if parts.len() == 0 {
        Seq::empty()
    } else if parts.len() == 1 {
        parts[0]
    } else {
        join_paths(parts.drop_last(), sep) + sep + parts.last()
    }
}

/// The inherited PATH value appended after the catalog directories; an
/// empty value is omitted, so no trailing separator appears.
pub open spec fn with_current(parts: Seq<Seq<char>>, current: Seq<char>) -> Seq<Seq<char>> {
    if current.len() == 0 {
        parts
    } else {
        parts.push(current)
    }
}

/// The enhanced PATH value: the platform's catalog directories, in order,
/// followed by the inherited PATH value, joined by the platform separator.
pub open spec fn enhanced_path_spec(profile: PlatformProfile, current: Seq<char>) -> Seq<char> {
    join_paths(with_current(catalog(profile), current), path_separator_spec(profile))
}

/// Joins the additional directories and the current PATH value into one
/// PATH string: the directories in order, then the current value unless it
/// is empty, separated by the platform separator.
pub fn enhance_path_variable(
    profile: PlatformProfile,
    current_path: &str,
    additional_paths: &[String],
) -> (r: String)
    ensures
        r@ == join_paths(
            with_current(seq_views(additional_paths@), current_path@),
            path_separator_spec(profile),
        ),
{
    let ghost parts = seq_views(additional_paths@);
    let ghost sep_spec = path_separator_spec(profile);
    let sep = path_separator(profile);
    let mut out = String::new();
    let mut i: usize = 0;
    while i < additional_paths.len()
        invariant
            i <= parts.len(),
            parts == seq_views(additional_paths@),
            sep@ == sep_spec,
            out@ == join_paths(parts.take(i as int), sep_spec),
        decreases parts.len() - i,
    {
        if i > 0 {
            out.append(sep);
        }
        out.append(additional_paths[i].as_str());
        proof {
            if i == 0 {
                assert(out@ =~= parts[0]);
                assert(parts.take(1)[0] == parts[0]);
            } else {
                assert(parts.take(i + 1).drop_last() =~= parts.take(i as int));
                assert(parts.take(i + 1).last() == parts[i as int]);
            }
        }
        i += 1;
    }
    proof {
        assert(parts.take(parts.len() as int) =~= parts);
    }
    if !current_path.is_empty() {
        if additional_paths.len() > 0 {
            out.append(sep);
        }
        out.append(current_path);
        proof {
            let whole = with_current(parts, current_path@);
            if parts.len() == 0 {
                assert(out@ =~= current_path@);
                assert(whole[0] == current_path@);
            } else {
                assert(whole.drop_last() =~= parts);
                assert(whole.last() == current_path@);
            }
        }
    }
    out
}

struct EnvEntry {
    key: String,
    value: String,
}

/// A mapping from environment-variable names to values, with unique keys.
/// Its view is the sequence of (key, value) pairs in insertion order.
pub struct EnvironmentMap {
    entries: Vec<EnvEntry>,
}

impl View for EnvironmentMap {
    type V = Seq<(Seq<char>, Seq<char>)>;

    closed spec fn view(&self) -> Seq<(Seq<char>, Seq<char>)> {
        Seq::new(self.entries@.len(), |i: int| (self.entries@[i].key@, self.entries@[i].value@))
    }
}

/// Whether some entry of `m` has the key `k`.
pub open spec fn has_key(m: Seq<(Seq<char>, Seq<char>)>, k: Seq<char>) -> bool {
    exists|i: int| 0 <= i < m.len() && m[i].0 == k
}

impl EnvironmentMap {
    /// Keys are unique: no variable name occurs twice.
    pub open spec fn wf(&self) -> bool {
        forall|i: int, j: int|
            0 <= i < j < self@.len() ==> (#[trigger] self@[i]).0 != (#[trigger] self@[j]).0
    }

    pub fn new() -> (r: EnvironmentMap)
        ensures
            r@.len() == 0,
            r.wf(),
    {
        EnvironmentMap { entries: Vec::new() }
    }

    fn index_of_key(&self, key: &String) -> (r: Option<usize>)
        ensures
            match r {
                Some(i) => i < self@.len() && self@[i as int].0 == key@,
                None => !has_key(self@, key@),
            },
    {
        let mut i: usize = 0;
        while i < self.entries.len()
            invariant
                i <= self@.len(),
                self@.len() == self.entries@.len(),
                forall|j: int| 0 <= j < i ==> (#[trigger] self@[j]).0 != key@,
        decreases self@.len() - i,
        {
            if self.entries[i].key == *key {
                return Some(i);
            }
            i += 1;
        }
        None
    }

    /// Binds `key` to `value`: replaces the value of an existing entry with
    /// that key, or appends a new entry.
    pub fn insert(&mut self, key: String, value: String)
        requires
            old(self).wf(),
        ensures
            final(self).wf(),
            has_key(old(self)@, key@) ==> final(self)@.len() == old(self)@.len(),
            !has_key(old(self)@, key@) ==> final(self)@ == old(self)@.push((key@, value@)),
            forall|i: int|
                0 <= i < old(self)@.len() ==> (#[trigger] final(self)@[i]).0 == old(self)@[i].0,
            forall|i: int|
                0 <= i < old(self)@.len() && old(self)@[i].0 != key@
                    ==> (#[trigger] final(self)@[i]).1 == old(self)@[i].1,
            forall|i: int|
                0 <= i < old(self)@.len() && old(self)@[i].0 == key@
                    ==> (#[trigger] final(self)@[i]).1 == value@,
    {
        match self.index_of_key(&key) {
            Some(i) => {
                self.entries[i] = EnvEntry { key, value };
                proof {
                    assert forall|a: int, b: int|
                        0 <= a < b < self@.len() implies (#[trigger] self@[a]).0 != (
                    #[trigger] self@[b]).0 by {
                        assert(old(self)@[a].0 != old(self)@[b].0);
                    }
                }
            },
            None => {
                self.entries.push(EnvEntry { key, value });
                proof {
                    assert(self@ =~~= old(self)@.push((key@, value@)));
                    assert forall|a: int, b: int|
                        0 <= a < b < self@.len() implies (#[trigger] self@[a]).0 != (
                    #[trigger] self@[b]).0 by {
                        if b < old(self)@.len() {
                            assert(old(self)@[a].0 != old(self)@[b].0);
                        } else {
                            assert(self@[b].0 == key@);
                            assert(!(0 <= a < old(self)@.len() && old(self)@[a].0 == key@));
                        }
                    }
                }
            },
        }
    }

    /// Looks up the value bound to `key`, if any.
    pub fn get<'a>(&'a self, key: &String) -> (r: Option<&'a String>)
        ensures
            match r {
                Some(v) => exists|i: int|
                    0 <= i < self@.len() && (#[trigger] self@[i]).0 == key@ && self@[i].1 == v@,
                None => !has_key(self@, key@),
            },
    {
        match self.index_of_key(key) {
            Some(i) => Some(&self.entries[i].value),
            None => None,
        }
    }

    pub fn len(&self) -> (r: usize)
        ensures
            r == self@.len(),
    {
        self.entries.len()
    }

    pub fn key_at(&self, i: usize) -> (r: &String)
        requires
            i < self@.len(),
        ensures
            r@ == self@[i as int].0,
    {
        &self.entries[i].key
    }

    pub fn value_at(&self, i: usize) -> (r: &String)
        requires
            i < self@.len(),
        ensures
            r@ == self@[i as int].1,
    {
        &self.entries[i].value
    }
}

/// Builds the enriched environment: every entry of `inherited` is kept,
/// with the value of the PATH entry replaced by the catalog directories
/// followed by the inherited PATH value, joined by the platform separator.
/// A map without a PATH entry gains one, whose value treats the inherited
/// PATH as empty. The caller's map is not changed.
pub fn build_enhanced_environment(profile: PlatformProfile, inherited: &EnvironmentMap) -> (r:
    EnvironmentMap)
    requires
        inherited.wf(),
    ensures
        r.wf(),
        has_key(inherited@, "PATH"@) ==> r@.len() == inherited@.len(),
        !has_key(inherited@, "PATH"@) ==> r@ == inherited@.push(
            ("PATH"@, enhanced_path_spec(profile, Seq::<char>::empty())),
        ),
        forall|i: int|
            0 <= i < inherited@.len() ==> (#[trigger] r@[i]).0 == inherited@[i].0,
        forall|i: int|
            0 <= i < inherited@.len() && inherited@[i].0 != "PATH"@ ==> (#[trigger] r@[i]).1
                == inherited@[i].1,
        forall|i: int|
            0 <= i < inherited@.len() && inherited@[i].0 == "PATH"@ ==> (#[trigger] r@[i]).1
                == enhanced_path_spec(profile, inherited@[i].1),
{
    let path_key: String = "PATH".to_owned();
    let dirs = get_additional_binary_paths(profile);
    let had_path: bool;
    let current: String = match inherited.get(&path_key) {
        Some(v) => {
            had_path = true;
            v.clone()
        },
        None => {
            had_path = false;
            String::new()
        },
    };
    let enhanced = enhance_path_variable(profile, current.as_str(), dirs.as_slice());
    let mut entries: Vec<EnvEntry> = Vec::new();
    let mut i: usize = 0;
    while i < inherited.len()
        invariant
            i <= inherited@.len(),
            entries@.len() == i,
            inherited.wf(),
            path_key@ == "PATH"@,
            enhanced@ == enhanced_path_spec(profile, current@),
            had_path ==> has_key(inherited@, "PATH"@),
            !had_path ==> !has_key(inherited@, "PATH"@) && current@ == Seq::<char>::empty(),
            had_path ==> exists|k: int|
                0 <= k < inherited@.len() && (#[trigger] inherited@[k]).0 == "PATH"@
                    && inherited@[k].1 == current@,
            forall|j: int|
                0 <= j < i ==> (#[trigger] entries@[j]).key@ == inherited@[j].0,
            forall|j: int|
                0 <= j < i && inherited@[j].0 != "PATH"@ ==> (#[trigger] entries@[j]).value@
                    == inherited@[j].1,
            forall|j: int|
                0 <= j < i && inherited@[j].0 == "PATH"@ ==> (#[trigger] entries@[j]).value@
                    == enhanced_path_spec(profile, inherited@[j].1),
        decreases inherited@.len() - i,
    {
        let key_i = inherited.key_at(i).clone();
        if key_i == path_key {
            proof {
                assert(inherited@[i as int].0 == "PATH"@);
                assert(has_key(inherited@, "PATH"@));
                let k = choose|k: int|
                    0 <= k < inherited@.len() && (#[trigger] inherited@[k]).0 == "PATH"@
                        && inherited@[k].1 == current@;
                assert(k == i as int);
            }
            entries.push(EnvEntry { key: key_i, value: enhanced.clone() });
        } else {
            let value_i = inherited.value_at(i).clone();
            entries.push(EnvEntry { key: key_i, value: value_i });
        }
        i += 1;
    }
    if !had_path {
        entries.push(EnvEntry { key: path_key, value: enhanced });
    }
    let r = EnvironmentMap { entries };
    proof {
        if !has_key(inherited@, "PATH"@) {
            assert(r@ =~~= inherited@.push(
                ("PATH"@, enhanced_path_spec(profile, Seq::<char>::empty())),
            ));
        }
        assert forall|i2: int, j2: int| 0 <= i2 < j2 < r@.len() implies (#[trigger] r@[i2]).0 != (
        #[trigger] r@[j2]).0 by {
            if j2 < inherited@.len() {
                assert(inherited@[i2].0 != inherited@[j2].0);
            } else {
                assert(r@[j2].0 == "PATH"@);
                assert(!has_key(inherited@, "PATH"@));
            }
        }
    }
    r
}

/// Two or more joined parts contain at least one separator.
proof fn lemma_join_len(parts: Seq<Seq<char>>, sep: Seq<char>)
    ensures
        parts.len() >= 2 ==> join_paths(parts, sep).len() >= sep.len(),
{
}

/// Enhancing a PATH value is not idempotent: the enhanced value is strictly
/// longer than the value it was built from, so applying the enhancement
/// again changes the PATH again.
pub proof fn lemma_enhance_changes_path(profile: PlatformProfile, current: Seq<char>)
    ensures
        enhanced_path_spec(profile, current).len() > current.len(),
        enhanced_path_spec(profile, current) != current,
{
    reveal_strlit(";");
    reveal_strlit(":");
    lemma_catalog_nonempty(profile);
    let cat = catalog(profile);
    let sep = path_separator_spec(profile);
    if current.len() == 0 {
        assert(cat.len() >= 2);
        lemma_join_len(cat, sep);
    } else {
        let whole = cat.push(current);
        assert(whole.drop_last() =~= cat);
        assert(whole.last() == current);
    }
}

/// Enhancing a non-empty PATH value prepends the joined catalog and one
/// separator before it; in particular, enhancing twice leaves the catalog
/// prefix in front of the once-enhanced value once more.
pub proof fn lemma_enhance_prepends_catalog(profile: PlatformProfile, current: Seq<char>)
    requires
        current.len() > 0,
    ensures
        enhanced_path_spec(profile, current) == join_paths(
            catalog(profile),
            path_separator_spec(profile),
        ) + path_separator_spec(profile) + current,
{
    lemma_catalog_nonempty(profile);
    let whole = catalog(profile).push(current);
    assert(whole.drop_last() =~= catalog(profile));
    assert(whole.last() == current);
}

/// Enhancing twice prepends the catalog twice: the second enhancement
/// starts with the joined catalog and a separator, followed by the whole
/// once-enhanced value.
pub proof fn lemma_enhance_twice(profile: PlatformProfile, current: Seq<char>)
    ensures
        enhanced_path_spec(profile, enhanced_path_spec(profile, current)) == join_paths(
            catalog(profile),
            path_separator_spec(profile),
        ) + path_separator_spec(profile) + enhanced_path_spec(profile, current),
        enhanced_path_spec(profile, enhanced_path_spec(profile, current)) != enhanced_path_spec(
            profile,
            current,
        ),
{
    lemma_enhance_changes_path(profile, current);
    lemma_enhance_prepends_catalog(profile, enhanced_path_spec(profile, current));
    lemma_enhance_changes_path(profile, enhanced_path_spec(profile, current));
}

} // verus!
