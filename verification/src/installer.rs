use vstd::prelude::*;
use vstd::multiset::Multiset;
use crate::adapter::AdapterVersion;

verus! {

broadcast use vstd::seq_lib::group_to_multiset_ensures;

/// The abstract state of the managed install area for one backend: the set
/// of release tags with a complete, published install, and a multiset
/// counting the staged (downloaded or partially extracted, not yet
/// published) copies of each tag.
#[verifier::ext_equal]
pub ghost struct InstallState {
    pub installed: Set<Seq<char>>,
    pub staged: Multiset<Seq<char>>,
}

/// Staging a version adds one staged copy and publishes nothing.
pub open spec fn spec_begin_install(s: InstallState, tag: Seq<char>) -> InstallState {
    InstallState { installed: s.installed, staged: s.staged.insert(tag) }
}

/// Publishing atomically turns one staged copy into the (single) complete
/// install of its tag; a tag already published stays published once.
pub open spec fn spec_publish(s: InstallState, tag: Seq<char>) -> InstallState {
    InstallState { installed: s.installed.insert(tag), staged: s.staged.remove(tag) }
}

/// Abandoning discards one staged copy without publishing anything.
pub open spec fn spec_abandon(s: InstallState, tag: Seq<char>) -> InstallState {
    InstallState { installed: s.installed, staged: s.staged.remove(tag) }
}

/// The record of the managed install area that the library's installer
/// drives. The host mirrors each transition on the filesystem: staging
/// extracts into a fresh temporary directory, publishing atomically renames
/// it over the final location, abandoning deletes it. A staged copy is never
/// visible as installed.
pub struct InstallStore {
    /// Tags with a complete install; no tag appears twice.
    pub installed: Vec<String>,
    /// Tags with a staged copy, one entry per copy.
    pub staged: Vec<String>,
}

impl InstallStore {
    /// The abstract install-area state.
    pub open spec fn abs(self) -> InstallState {
        InstallState {
            installed: self.installed.deep_view().to_set(),
            staged: self.staged.deep_view().to_multiset(),
        }
    }

    /// No tag is installed twice.
    pub open spec fn wf(self) -> bool {
        forall|p: int, q: int|
            0 <= p < q < self.installed@.len() ==> self.installed@[p]@ != self.installed@[q]@
    }

    /// Whether `tag` has a complete install.
    pub open spec fn is_installed(self, tag: Seq<char>) -> bool {
        self.abs().installed.contains(tag)
    }

    /// How many staged copies of `tag` exist.
    pub open spec fn staged_count(self, tag: Seq<char>) -> nat {
        self.abs().staged.count(tag)
    }

    /// An empty install area.
    pub fn new() -> (r: InstallStore)
        ensures
            r.wf(),
            r.abs() == (InstallState {
                installed: Set::<Seq<char>>::empty(),
                staged: Multiset::<Seq<char>>::empty(),
            }),
    {
        let r = InstallStore { installed: Vec::new(), staged: Vec::new() };
        proof {
            assert(r.installed.deep_view().to_set() =~= Set::<Seq<char>>::empty());
            assert(r.staged.deep_view().to_multiset().len() == 0);
            assert(r.staged.deep_view().to_multiset() =~= Multiset::<Seq<char>>::empty());
        }
        r
    }

    /// Records one staged copy of the version.
    pub fn begin_install(&mut self, version: &AdapterVersion)
        requires
            old(self).wf(),
        ensures
            final(self).wf(),
            final(self).abs() == spec_begin_install(old(self).abs(), version.tag_name@),
    {
        self.staged.push(version.tag_name.clone());
        proof {
            assert(self.staged.deep_view() =~= old(self).staged.deep_view().push(
                version.tag_name@,
            ));
            assert(self.abs() =~= spec_begin_install(old(self).abs(), version.tag_name@));
        }
    }

    /// Atomically publishes one staged copy of the version: afterwards the
    /// version is installed (exactly once, by well-formedness) and one
    /// staged copy is gone.
    pub fn publish(&mut self, version: &AdapterVersion)
        requires
            old(self).wf(),
            old(self).staged_count(version.tag_name@) >= 1,
        ensures
            final(self).wf(),
            final(self).abs() == spec_publish(old(self).abs(), version.tag_name@),
            final(self).is_installed(version.tag_name@),
    {
        proof {
            assert(old(self).staged.deep_view().contains(version.tag_name@));
        }
        let i = index_of_string(&self.staged, &version.tag_name);
        let ghost staged_before = self.staged.deep_view();
        self.staged.remove(i);
        proof {
            assert(self.staged.deep_view() =~= staged_before.remove(i as int));
            assert(self.staged.deep_view().to_multiset() =~= staged_before.to_multiset().remove(
                version.tag_name@,
            ));
        }
        let already = contains_string(&self.installed, &version.tag_name);
        if !already {
            let ghost inst_before = self.installed.deep_view();
            self.installed.push(version.tag_name.clone());
            proof {
                let inst_after = self.installed.deep_view();
                assert(inst_after =~= inst_before.push(version.tag_name@));
                assert forall|a: Seq<char>|
                    inst_after.to_set().contains(a) <==> inst_before.to_set().insert(
                        version.tag_name@,
                    ).contains(a) by {
                    if inst_after.contains(a) {
                        let j = choose|j: int| 0 <= j < inst_after.len() && inst_after[j] == a;
                        if j < inst_before.len() {
                            assert(inst_before[j] == a);
                        }
                    }
                    if inst_before.contains(a) {
                        let j = choose|j: int| 0 <= j < inst_before.len() && inst_before[j] == a;
                        assert(inst_after[j] == a);
                    }
                    if a == version.tag_name@ {
                        assert(inst_after[inst_before.len() as int] == a);
                    }
                }
                assert(inst_after.to_set() =~= inst_before.to_set().insert(version.tag_name@));
                assert(forall|j: int|
                    0 <= j < inst_before.len() ==> inst_before[j] != version.tag_name@);
                assert(forall|j: int|
                    0 <= j < old(self).installed@.len() ==> self.installed@[j] == old(
                        self,
                    ).installed@[j]);
                assert(self.installed@[old(self).installed@.len() as int]@ == version.tag_name@);
                assert forall|p: int, q: int|
                    0 <= p < q < self.installed@.len() implies self.installed@[p]@
                    != self.installed@[q]@ by {
                    if q < old(self).installed@.len() {
                        assert(old(self).installed@[p]@ != old(self).installed@[q]@);
                    } else {
                        assert(inst_before[p] == old(self).installed@[p]@);
                        assert(self.installed@[q]@ == version.tag_name@);
                    }
                }
            }
        } else {
            proof {
                assert(old(self).installed.deep_view().to_set().contains(version.tag_name@));
                assert(self.installed.deep_view().to_set() =~= old(
                    self,
                ).installed.deep_view().to_set().insert(version.tag_name@));
            }
        }
        proof {
            assert(self.abs() =~= spec_publish(old(self).abs(), version.tag_name@));
        }
    }

    /// Discards one staged copy of the version, publishing nothing; used
    /// when a download or extraction fails or the session is torn down.
    pub fn abandon_install(&mut self, version: &AdapterVersion)
        requires
            old(self).wf(),
            old(self).staged_count(version.tag_name@) >= 1,
        ensures
            final(self).wf(),
            final(self).abs() == spec_abandon(old(self).abs(), version.tag_name@),
    {
        proof {
            assert(old(self).staged.deep_view().contains(version.tag_name@));
        }
        let i = index_of_string(&self.staged, &version.tag_name);
        let ghost staged_before = self.staged.deep_view();
        self.staged.remove(i);
        proof {
            assert(self.staged.deep_view() =~= staged_before.remove(i as int));
            assert(self.staged.deep_view().to_multiset() =~= staged_before.to_multiset().remove(
                version.tag_name@,
            ));
            assert(self.abs() =~= spec_abandon(old(self).abs(), version.tag_name@));
        }
    }
}

/// Law: installing one version twice leaves exactly one complete install and
/// no staged copy behind, whether the two installs run concurrently (both
/// staged before either publishes) or back-to-back — publishing is atomic,
/// so no interleaving corrupts the install area.
pub proof fn lemma_concurrent_install_once(s: InstallState, tag: Seq<char>)
    ensures
        ({
            let interleaved = spec_publish(
                spec_publish(spec_begin_install(spec_begin_install(s, tag), tag), tag),
                tag,
            );
            let sequential = spec_publish(
                spec_begin_install(spec_publish(spec_begin_install(s, tag), tag), tag),
                tag,
            );
            &&& interleaved == sequential
            &&& interleaved.installed == s.installed.insert(tag)
            &&& interleaved.staged == s.staged
        }),
{
    let interleaved = spec_publish(
        spec_publish(spec_begin_install(spec_begin_install(s, tag), tag), tag),
        tag,
    );
    let sequential = spec_publish(
        spec_begin_install(spec_publish(spec_begin_install(s, tag), tag), tag),
        tag,
    );
    assert(interleaved.staged =~= s.staged);
    assert(sequential.staged =~= s.staged);
    assert(interleaved.installed =~= s.installed.insert(tag));
    assert(sequential.installed =~= s.installed.insert(tag));
    assert(interleaved =~= sequential);
}

/// Law: a failed install changes nothing — staging and then abandoning a
/// version restores the install area exactly.
pub proof fn lemma_abandon_restores(s: InstallState, tag: Seq<char>)
    ensures
        spec_abandon(spec_begin_install(s, tag), tag) == s,
{
    assert(spec_abandon(spec_begin_install(s, tag), tag).staged =~= s.staged);
    assert(spec_abandon(spec_begin_install(s, tag), tag) =~= s);
}

/// The position of a string known to occur in the vector.
fn index_of_string(v: &Vec<String>, needle: &String) -> (r: usize)
    requires
        v.deep_view().contains(needle@),
    ensures
        r < v@.len(),
        v@[r as int]@ == needle@,
{
    let n = v.len();
    let mut i: usize = 0;
    while i < n
        invariant
            i <= n,
            n == v@.len(),
            v.deep_view().contains(needle@),
            forall|j: int| 0 <= j < i ==> v@[j]@ != needle@,
        decreases n - i,
    {
        if v[i] == *needle {
            return i;
        }
        i += 1;
    }
    proof {
        let j = choose|j: int| 0 <= j < v.deep_view().len() && v.deep_view()[j] == needle@;
        assert(v@[j]@ == needle@);
        assert(false);
    }
    0
}

/// Whether the vector holds a string with this value.
fn contains_string(v: &Vec<String>, needle: &String) -> (r: bool)
    ensures
        r == v.deep_view().contains(needle@),
{
    let n = v.len();
    let mut i: usize = 0;
    while i < n
        invariant
            i <= n,
            n == v@.len(),
            forall|j: int| 0 <= j < i ==> v@[j]@ != needle@,
        decreases n - i,
    {
        if v[i] == *needle {
            proof {
                assert(v.deep_view()[i as int] == needle@);
            }
            return true;
        }
        i += 1;
    }
    proof {
        if v.deep_view().contains(needle@) {
            let j = choose|j: int| 0 <= j < v.deep_view().len() && v.deep_view()[j] == needle@;
            assert(v@[j]@ == needle@);
            assert(false);
        }
    }
    false
}

} // verus!
