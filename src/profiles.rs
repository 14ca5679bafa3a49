use vstd::prelude::*;

verus! {

/// True when no two entries carry the same name.
pub open spec fn names_unique<P>(s: Seq<(String, P)>) -> bool {
    forall|i: int, j: int|
        0 <= i < s.len() && 0 <= j < s.len() && i != j ==> s[i].0@ != s[j].0@
}

/// True when some entry is named `name`.
pub open spec fn has_name<P>(s: Seq<(String, P)>, name: Seq<char>) -> bool {
    exists|i: int| 0 <= i < s.len() && s[i].0@ == name
}

/// The mapping from name to profile that a list of named entries stands for.
pub open spec fn map_of<P>(s: Seq<(String, P)>) -> Map<Seq<char>, P> {
    Map::new(
        |name: Seq<char>| has_name(s, name),
        |name: Seq<char>| s[choose|i: int| 0 <= i < s.len() && s[i].0@ == name].1,
    )
}

/// With unique names, the entry at `j` is what the mapping holds for its name.
pub proof fn lemma_map_of_entry<P>(s: Seq<(String, P)>, j: int)
    requires
        names_unique(s),
        0 <= j < s.len(),
    ensures
        map_of(s).contains_key(s[j].0@),
        map_of(s)[s[j].0@] == s[j].1,
{
    let name = s[j].0@;
    assert(has_name(s, name));
    let i = choose|i: int| 0 <= i < s.len() && s[i].0@ == name;
    assert(i == j);
}

/// The profiles that one subcommand has, each under a unique name.
pub struct ProfileMap<P> {
    entries: Vec<(String, P)>,
}

impl<P> View for ProfileMap<P> {
    type V = Map<Seq<char>, P>;

    closed spec fn view(&self) -> Map<Seq<char>, P> {
        map_of(self.entries@)
    }
}

impl<P> ProfileMap<P> {
    #[verifier::type_invariant]
    spec fn unique(&self) -> bool {
        names_unique(self.entries@)
    }

    /// A map that holds no profile.
    pub fn new() -> (r: Self)
        ensures
            r@ == Map::<Seq<char>, P>::empty(),
    {
        let r = ProfileMap { entries: Vec::new() };
        assert(r@ =~= Map::<Seq<char>, P>::empty());
        r
    }

    /// The index of the entry named `name`, if there is one.
    fn position(&self, name: &String) -> (r: Option<usize>)
        ensures
            match r {
                Some(i) => i < self.entries@.len() && self.entries@[i as int].0@ == name@,
                None => !has_name(self.entries@, name@),
            },
    {
        let mut i: usize = 0;
        while i < self.entries.len()
            invariant
                0 <= i <= self.entries@.len(),
                forall|j: int| 0 <= j < i ==> self.entries@[j].0@ != name@,
            decreases self.entries@.len() - i,
        {
            if self.entries[i].0 == *name {
                return Some(i);
            }
            i += 1;
        }
        None
    }

    /// The profile named `name`, if the map holds one.
    pub fn get(&self, name: &String) -> (r: Option<&P>)
        ensures
            match r {
                Some(p) => self@.contains_key(name@) && *p == self@[name@],
                None => !self@.contains_key(name@),
            },
    {
        proof {
            use_type_invariant(self);
        }
        match self.position(name) {
            Some(i) => {
                proof {
                    lemma_map_of_entry(self.entries@, i as int);
                }
                Some(&self.entries[i].1)
            },
            None => None,
        }
    }

    /// The map with `profile` stored under `name`, in place of any profile of
    /// that name.
    pub fn insert(self, name: String, profile: P) -> (r: Self)
        ensures
            r@ == self@.insert(name@, profile),
    {
        proof {
            use_type_invariant(&self);
        }
        let ghost old_entries = self.entries@;
        let ghost key = name@;
        let pos = self.position(&name);
        let ProfileMap { mut entries } = self;
        match pos {
            Some(i) => {
                entries.set(i, (name, profile));
                proof {
                    let s = entries@;
                    assert(s == old_entries.update(i as int, (s[i as int].0, profile)));
                    assert(names_unique(s));
                    lemma_map_of_entry(s, i as int);
                    assert forall|k: Seq<char>| #[trigger] has_name(s, k) == has_name(old_entries, k) by {
                        if has_name(old_entries, k) {
                            let j = choose|j: int| 0 <= j < old_entries.len() && old_entries[j].0@ == k;
                            assert(s[j].0@ == k);
                        }
                        if has_name(s, k) {
                            let j = choose|j: int| 0 <= j < s.len() && s[j].0@ == k;
                            assert(old_entries[j].0@ == k);
                        }
                    }
                    assert forall|k: Seq<char>| k != key && has_name(s, k) implies
                        #[trigger] map_of(s)[k] == map_of(old_entries)[k] by {
                        let j = choose|j: int| 0 <= j < s.len() && s[j].0@ == k;
                        lemma_map_of_entry(s, j);
                        lemma_map_of_entry(old_entries, j);
                    }
                    assert(map_of(s) =~= map_of(old_entries).insert(key, profile));
                }
            },
            None => {
                entries.push((name, profile));
                proof {
                    let s = entries@;
                    let n = old_entries.len() as int;
                    assert(s == old_entries.push(s[n]));
                    assert(names_unique(s));
                    lemma_map_of_entry(s, n);
                    assert forall|k: Seq<char>| #[trigger] has_name(s, k) == (has_name(old_entries, k) || k == key) by {
                        if has_name(old_entries, k) {
                            let j = choose|j: int| 0 <= j < old_entries.len() && old_entries[j].0@ == k;
                            assert(s[j].0@ == k);
                        }
                        if has_name(s, k) && k != key {
                            let j = choose|j: int| 0 <= j < s.len() && s[j].0@ == k;
                            assert(j != n);
                            assert(old_entries[j].0@ == k);
                        }
                    }
                    assert forall|k: Seq<char>| k != key && has_name(s, k) implies
                        #[trigger] map_of(s)[k] == map_of(old_entries)[k] by {
                        let j = choose|j: int| 0 <= j < s.len() && s[j].0@ == k;
                        assert(j != n);
                        lemma_map_of_entry(s, j);
                        lemma_map_of_entry(old_entries, j);
                    }
                    assert(map_of(s) =~= map_of(old_entries).insert(key, profile));
                }
            },
        }
        ProfileMap { entries }
    }
}

/// The profiles configured for one subcommand; `None` when its section is absent.
pub type Profiles<P> = Option<ProfileMap<P>>;

/// What a lookup of `name` in `profiles` finds.
pub open spec fn lookup<P>(profiles: Profiles<P>, name: Seq<char>) -> Option<P> {
    match profiles {
        Some(m) => if m@.contains_key(name) {
            Some(m@[name])
        } else {
            None
        },
        None => None,
    }
}

/// A profile was asked for by a name that its subcommand's profiles do not hold.
pub struct ProfileMissing {
    pub name: String,
}

/// Finds the profile named `name`: it fails with `ProfileMissing` when the
/// section is absent or holds no such name.
pub fn resolve<'a, P>(name: &String, profiles: &'a Profiles<P>) -> (r: Result<&'a P, ProfileMissing>)
    ensures
        match r {
            Ok(p) => lookup(*profiles, name@) == Some(*p),
            Err(e) => lookup(*profiles, name@) is None && e.name@ == name@,
        },
{
    match profiles {
        Some(m) => match m.get(name) {
            Some(p) => Ok(p),
            None => Err(ProfileMissing { name: name.clone() }),
        },
        None => Err(ProfileMissing { name: name.clone() }),
    }
}

} // verus!
