use vstd::hash_map::StringHashMap;
use vstd::prelude::*;

verus! {

/// The abstract store: each bound name with its value.
pub type Bindings = Map<Seq<char>, u64>;

/// The variable environment: a map from names to `u64` values.
///
/// Besides the hash map it keeps the list of bound names, so that two
/// environments can be compared entry by entry.
pub struct Env {
    map: StringHashMap<u64>,
    names: Vec<String>,
}

/// `k` is the view of one of `names`.
spec fn is_listed(names: Seq<String>, k: Seq<char>) -> bool {
    exists|i: int| 0 <= i < names.len() && names[i]@ == k
}

impl View for Env {
    type V = Bindings;

    closed spec fn view(&self) -> Bindings {
        self.map@
    }
}

impl Env {
    /// Every listed name is bound, and every bound name is listed.
    #[verifier::type_invariant]
    spec fn names_cover_map(&self) -> bool {
        &&& forall|i: int| 0 <= i < self.names.len() ==> self.map@.contains_key(#[trigger] self.names[i]@)
        &&& forall|k: Seq<char>| #[trigger] self.map@.contains_key(k) ==> is_listed(self.names@, k)
    }

    /// An environment with no bindings.
    pub fn new() -> (r: Env)
        ensures
            r@ == Map::<Seq<char>, u64>::empty(),
    {
        Env { map: StringHashMap::new(), names: Vec::new() }
    }

    /// Binds `name` to `value`, replacing any earlier binding of `name`.
    pub fn insert(&mut self, name: String, value: u64)
        ensures
            final(self)@ == old(self)@.insert(name@, value),
    {
        let mut cur = Env::new();
        std::mem::swap(self, &mut cur);
        proof { use_type_invariant(&cur); }
        let Env { mut map, mut names } = cur;
        let ghost old_names = names@;
        let ghost old_map = map@;
        if !map.contains_key(name.as_str()) {
            names.push(name.clone());
        }
        map.insert(name, value);
        assert forall|i: int| 0 <= i < names.len() implies map@.contains_key(#[trigger] names[i]@) by {
            if i < old_names.len() {
                assert(old_names[i] == names[i]);
            }
        };
        assert forall|k: Seq<char>| #[trigger] map@.contains_key(k) implies is_listed(names@, k) by {
            if names.len() > old_names.len() && k == name@ {
                assert(names[names.len() - 1]@ == k);
            } else {
                assert(old_map.contains_key(k));
                assert(is_listed(old_names, k));
                let i = choose|i: int| 0 <= i < old_names.len() && old_names[i]@ == k;
                assert(names[i]@ == k);
            }
        };
        *self = Env { map, names };
    }

    /// The value bound to `name`, if any.
    pub fn get(&self, name: &str) -> (r: Option<u64>)
        ensures
            r == (if self@.contains_key(name@) { Some(self@[name@]) } else { None::<u64> }),
    {
        match self.map.get(name) {
            Some(v) => Some(*v),
            None => None,
        }
    }
}

impl PartialEq for Env {
    fn eq(&self, other: &Env) -> (r: bool) {
        proof {
            use_type_invariant(self);
            use_type_invariant(other);
        }
        let mut i: usize = 0;
        while i < self.names.len()
            invariant
                0 <= i <= self.names.len(),
                forall|j: int| 0 <= j < i ==> {
                    &&& self@.contains_key(#[trigger] self.names[j]@)
                    &&& other@.contains_key(self.names[j]@)
                    &&& other@[self.names[j]@] == self@[self.names[j]@]
                },
            decreases self.names.len() - i,
        {
            proof {
                use_type_invariant(self);
                assert(self@.contains_key(self.names[i as int]@));
            }
            let name = self.names[i].as_str();
            let mine = self.get(name);
            match other.get(name) {
                Some(v) => {
                    if mine != Some(v) {
                        return false;
                    }
                },
                None => return false,
            }
            i = i + 1;
        }
        let mut i: usize = 0;
        while i < other.names.len()
            invariant
                0 <= i <= other.names.len(),
                forall|j: int| 0 <= j < i ==> self@.contains_key(#[trigger] other.names[j]@),
            decreases other.names.len() - i,
        {
            proof {
                use_type_invariant(other);
                assert(other@.contains_key(other.names[i as int]@));
            }
            if self.get(other.names[i].as_str()).is_none() {
                return false;
            }
            i = i + 1;
        }
        proof {
            use_type_invariant(self);
            use_type_invariant(other);
        }
        assert forall|k: Seq<char>| self@.contains_key(k) implies #[trigger] other@.contains_key(k)
            && other@[k] == self@[k] by {
            assert(is_listed(self.names@, k));
            let j = choose|j: int| 0 <= j < self.names.len() && self.names[j]@ == k;
            assert(other@.contains_key(self.names[j]@));
        };
        assert forall|k: Seq<char>| other@.contains_key(k) implies #[trigger] self@.contains_key(k) by {
            assert(is_listed(other.names@, k));
            let j = choose|j: int| 0 <= j < other.names.len() && other.names[j]@ == k;
            assert(self@.contains_key(other.names[j]@));
        };
        assert(self@ =~= other@);
        true
    }
}

impl vstd::std_specs::cmp::PartialEqSpecImpl for Env {
    open spec fn obeys_eq_spec() -> bool {
        true
    }

    open spec fn eq_spec(&self, other: &Env) -> bool {
        self@ == other@
    }
}

} // verus!
