//! The person records: a small keyed store of `name -> (name, age)` pairs
//! kept by the same host, with validated insertion, lookup, listing,
//! removal, and snapshot restore.

use vstd::prelude::*;
use vstd::string::StrSliceExecFns;
use vstd::string::StringExecFns;
use crate::text;

verus! {

/// A person record.
#[derive(Debug)]
pub struct Person {
    pub name: String,
    pub age: u32,
}

impl Clone for Person {
    fn clone(&self) -> (r: Self)
        ensures
            r == *self,
    {
        Person { name: self.name.clone(), age: self.age }
    }
}

impl Person {
    /// Builds the record as given.
    pub fn new(name: String, age: u32) -> (p: Person)
        ensures
            p == (Person { name, age }),
    {
        Person { name, age }
    }
}

/// Whether `c` counts as blank space in a name: the Unicode characters with
/// the White_Space property, exactly those that `str::trim` strips.
pub open spec fn is_space_char(c: char) -> bool {
    ||| c == '\t'
    ||| c == '\n'
    ||| c == '\u{b}'
    ||| c == '\u{c}'
    ||| c == '\r'
    ||| c == ' '
    ||| c == '\u{85}'
    ||| c == '\u{a0}'
    ||| c == '\u{1680}'
    ||| ('\u{2000}' <= c && c <= '\u{200a}')
    ||| c == '\u{2028}'
    ||| c == '\u{2029}'
    ||| c == '\u{202f}'
    ||| c == '\u{205f}'
    ||| c == '\u{3000}'
}

/// Whether `c` is blank space, as `is_space_char` says.
fn is_space_exec(c: char) -> (r: bool)
    ensures
        r == is_space_char(c),
{
    c == '\t' || c == '\n' || c == '\u{b}' || c == '\u{c}' || c == '\r' || c == ' '
        || c == '\u{85}' || c == '\u{a0}' || c == '\u{1680}' || ('\u{2000}' <= c && c
        <= '\u{200a}') || c == '\u{2028}' || c == '\u{2029}' || c == '\u{202f}' || c
        == '\u{205f}' || c == '\u{3000}'
}

/// Whether a name is effectively empty: nothing but blank space (an empty
/// string included).
pub open spec fn is_blank(s: Seq<char>) -> bool {
    forall|j: int| 0 <= j < s.len() ==> is_space_char(#[trigger] s[j])
}

/// The position of the first record named `name`, if any.
pub open spec fn spec_find(s: Seq<Person>, name: Seq<char>) -> Option<int>
    decreases s.len(),
{
    if s.len() == 0 {
        None
    } else if s[0].name@ == name {
        Some(0)
    } else {
        match spec_find(s.skip(1), name) {
            Some(i) => Some(i + 1),
            None => None,
        }
    }
}

/// `spec_find` returns the first matching position, or `None` exactly when
/// no record carries the name.
pub proof fn lemma_spec_find(s: Seq<Person>, name: Seq<char>)
    ensures
        match spec_find(s, name) {
            Some(i) => 0 <= i < s.len() && s[i].name@ == name && (forall|j: int|
                0 <= j < i ==> (#[trigger] s[j]).name@ != name),
            None => forall|j: int| 0 <= j < s.len() ==> (#[trigger] s[j]).name@ != name,
        },
    decreases s.len(),
{
    if s.len() > 0 && s[0].name@ != name {
        let tail = s.skip(1);
        lemma_spec_find(tail, name);
        assert(forall|j: int| 0 <= j < s.len() - 1 ==> #[trigger] tail[j] == s[j + 1]);
        match spec_find(tail, name) {
            Some(i) => {
                assert(spec_find(s, name) == Some(i + 1));
                assert(s[i + 1].name@ == name);
                assert forall|j: int| 0 <= j < i + 1 implies (#[trigger] s[j]).name@ != name by {
                    if j > 0 {
                        assert(s[j] == tail[j - 1]);
                    }
                }
            },
            None => {
                assert forall|j: int| 0 <= j < s.len() implies (#[trigger] s[j]).name@ != name by {
                    if j > 0 {
                        assert(s[j] == tail[j - 1]);
                    }
                }
            },
        }
    }
}

/// Storing a record: replace the record of the same name, else append.
pub open spec fn spec_store(s: Seq<Person>, p: Person) -> Seq<Person> {
    match spec_find(s, p.name@) {
        Some(i) => s.update(i, p),
        None => s.push(p),
    }
}

/// Restoring a snapshot: store each record in turn, later duplicates
/// overriding earlier ones.
pub open spec fn spec_restore(rs: Seq<Person>) -> Seq<Person>
    decreases rs.len(),
{
    if rs.len() == 0 {
        Seq::<Person>::empty()
    } else {
        spec_store(spec_restore(rs.drop_last()), rs.last())
    }
}

/// The first rejection `store_person` raises for its inputs, if any.
pub open spec fn store_validation(name: Seq<char>, age: u32) -> Option<Seq<char>> {
    if is_blank(name) {
        Some("Name cannot be empty"@)
    } else if age > 150 {
        Some("Age seems unrealistic (> 150)"@)
    } else {
        None
    }
}

/// Whether `s` consists of blank space only.
fn is_blank_exec(s: &String) -> (r: bool)
    ensures
        r == is_blank(s@),
{
    let n = s.as_str().unicode_len();
    let mut i: usize = 0;
    while i < n
        invariant
            i <= n,
            n == s@.len(),
            forall|j: int| 0 <= j < i ==> is_space_char(#[trigger] s@[j]),
        decreases n - i,
    {
        let c = s.as_str().get_char(i);
        if !is_space_exec(c) {
            return false;
        }
        i = i + 1;
    }
    true
}

/// The store of person records, names unique.
pub struct PeopleStore {
    people: Vec<Person>,
}

impl View for PeopleStore {
    type V = Seq<Person>;

    closed spec fn view(&self) -> Seq<Person> {
        self.people@
    }
}

impl PeopleStore {
    /// No two records carry the same name.
    pub open spec fn wf(&self) -> bool {
        forall|a: int, b: int|
            0 <= a < b < self@.len() ==> (#[trigger] self@[a]).name@ != (#[trigger] self@[b]).name@
    }

    /// An empty store.
    pub fn new() -> (s: Self)
        ensures
            s.wf(),
            s@ == Seq::<Person>::empty(),
    {
        let s = PeopleStore { people: Vec::new() };
        proof {
            assert(s@ =~= Seq::<Person>::empty());
        }
        s
    }

    /// The position of the record named `name`, if any.
    fn find_by_name(&self, name: &String) -> (r: Option<usize>)
        ensures
            match r {
                Some(i) => spec_find(self@, name@) == Some(i as int),
                None => spec_find(self@, name@) is None,
            },
    {
        let mut i: usize = 0;
        while i < self.people.len()
            invariant
                i <= self@.len(),
                forall|j: int| 0 <= j < i ==> (#[trigger] self@[j]).name@ != name@,
            decreases self@.len() - i,
        {
            if self.people[i].name == *name {
                proof {
                    lemma_spec_find(self@, name@);
                }
                return Some(i);
            }
            i = i + 1;
        }
        proof {
            lemma_spec_find(self@, name@);
        }
        None
    }

    /// Stores `p`, replacing the record of the same name if one exists and
    /// appending otherwise.  No validation: `store_person` is the validated
    /// entry, this is also the path a snapshot restore takes.
    fn upsert(&mut self, p: Person)
        requires
            old(self).wf(),
        ensures
            final(self).wf(),
            final(self)@ == spec_store(old(self)@, p),
    {
        proof {
            lemma_spec_find(self@, p.name@);
        }
        match self.find_by_name(&p.name) {
            Some(i) => {
                self.people.set(i, p);
            },
            None => {
                self.people.push(p);
            },
        }
    }

    /// Validates and stores a person: a blank name and an age above 150 are
    /// rejected with the exact messages of `store_validation`; otherwise the
    /// record is stored (replacing any record of the same name) and a
    /// confirmation naming the person and age is returned.
    pub fn store_person(&mut self, name: String, age: u32) -> (r: Result<String, String>)
        requires
            old(self).wf(),
        ensures
            final(self).wf(),
            match r {
                Err(m) => store_validation(name@, age) == Some(m@) && final(self)@ == old(self)@,
                Ok(m) => {
                    &&& store_validation(name@, age) is None
                    &&& final(self)@ == spec_store(old(self)@, (Person { name, age }))
                    &&& m@ == "Successfully stored person: "@ + name@ + " (age: "@ + text::dec_str(
                        age as nat,
                    ) + ")"@
                },
            },
    {
        if is_blank_exec(&name) {
            return Err(String::from_str("Name cannot be empty"));
        }
        if age > 150 {
            return Err(String::from_str("Age seems unrealistic (> 150)"));
        }
        let mut m = String::from_str("Successfully stored person: ");
        m.append(name.as_str());
        m.append(" (age: ");
        let d = text::u64_to_dec(age as u64);
        m.append(d.as_str());
        m.append(")");
        self.upsert(Person { name, age });
        Ok(m)
    }

    /// The age of the person named `name`, if stored.
    pub fn get_age_by_name(&self, name: String) -> (r: Option<u32>)
        ensures
            match r {
                Some(a) => spec_find(self@, name@) matches Some(i) && self@[i].age == a,
                None => spec_find(self@, name@) is None,
            },
    {
        match self.find_by_name(&name) {
            Some(i) => {
                proof {
                    lemma_spec_find(self@, name@);
                }
                Some(self.people[i].age)
            },
            None => None,
        }
    }

    /// The full record of the person named `name`, if stored.
    pub fn get_person_by_name(&self, name: String) -> (r: Option<Person>)
        ensures
            match r {
                Some(p) => spec_find(self@, name@) matches Some(i) && self@[i] == p,
                None => spec_find(self@, name@) is None,
            },
    {
        match self.find_by_name(&name) {
            Some(i) => {
                proof {
                    lemma_spec_find(self@, name@);
                }
                Some(self.people[i].clone())
            },
            None => None,
        }
    }

    /// Every stored record, in storage order.
    pub fn list_all_people(&self) -> (r: Vec<Person>)
        ensures
            r@ == self@,
    {
        let mut r: Vec<Person> = Vec::new();
        let mut i: usize = 0;
        while i < self.people.len()
            invariant
                i <= self@.len(),
                r@ == self@.take(i as int),
            decreases self@.len() - i,
        {
            r.push(self.people[i].clone());
            proof {
                assert(self@.take(i + 1) =~= self@.take(i as int).push(self@[i as int]));
            }
            i = i + 1;
        }
        proof {
            assert(self@.take(self@.len() as int) =~= self@);
        }
        r
    }

    /// Removes the record named `name`; returns whether one existed.
    pub fn remove_person(&mut self, name: String) -> (r: bool)
        requires
            old(self).wf(),
        ensures
            final(self).wf(),
            match spec_find(old(self)@, name@) {
                Some(i) => r == true && final(self)@ == old(self)@.remove(i),
                None => r == false && final(self)@ == old(self)@,
            },
    {
        proof {
            lemma_spec_find(self@, name@);
        }
        match self.find_by_name(&name) {
            Some(i) => {
                self.people.remove(i);
                proof {
                    assert forall|a: int, b: int| 0 <= a < b < self@.len() implies (
                    #[trigger] self@[a]).name@ != (#[trigger] self@[b]).name@ by {
                        assert(self@[a] == if a < i {
                            old(self)@[a]
                        } else {
                            old(self)@[a + 1]
                        });
                        assert(self@[b] == if b < i {
                            old(self)@[b]
                        } else {
                            old(self)@[b + 1]
                        });
                    }
                }
                true
            },
            None => false,
        }
    }

    /// How many records are stored.
    pub fn get_people_count(&self) -> (r: usize)
        ensures
            r == self@.len(),
    {
        self.people.len()
    }

    /// Removes every record and reports how many were removed.
    pub fn clear_all_people(&mut self) -> (r: String)
        ensures
            final(self)@ == Seq::<Person>::empty(),
            r@ == "Cleared "@ + text::dec_str(old(self)@.len()) + " people from storage"@,
    {
        let count = self.people.len();
        self.people.clear();
        let mut m = String::from_str("Cleared ");
        let d = text::u64_to_dec(count as u64);
        m.append(d.as_str());
        m.append(" people from storage");
        m
    }

    /// Rebuilds a store from snapshot records, storing them in order (later
    /// duplicates override earlier ones, as `spec_restore` says).
    pub fn from_records(records: Vec<Person>) -> (s: PeopleStore)
        ensures
            s.wf(),
            s@ == spec_restore(records@),
    {
        let mut s = PeopleStore::new();
        let mut i: usize = 0;
        while i < records.len()
            invariant
                i <= records@.len(),
                s.wf(),
                s@ == spec_restore(records@.take(i as int)),
            decreases records@.len() - i,
        {
            s.upsert(records[i].clone());
            proof {
                assert(records@.take(i + 1).drop_last() =~= records@.take(i as int));
                assert(records@.take(i + 1).last() == records@[i as int]);
            }
            i = i + 1;
        }
        proof {
            assert(records@.take(records@.len() as int) =~= records@);
        }
        s
    }
}

/// Stores the person and acknowledges the linked Bitcoin address: the same
/// validation and storage as `store_person`, with a message naming the user
/// and the address.
pub fn create_user_with_bitcoin_context(
    store: &mut PeopleStore,
    name: String,
    age: u32,
    bitcoin_address: String,
) -> (r: Result<String, String>)
    requires
        old(store).wf(),
    ensures
        final(store).wf(),
        match r {
            Err(m) => store_validation(name@, age) == Some(m@) && final(store)@ == old(store)@,
            Ok(m) => {
                &&& store_validation(name@, age) is None
                &&& final(store)@ == spec_store(old(store)@, (Person { name, age }))
                &&& m@ == "Created user "@ + name@ + " with Bitcoin address "@ + bitcoin_address@
            },
        },
{
    match store.store_person(name.clone(), age) {
        Ok(_) => {
            let mut m = String::from_str("Created user ");
            m.append(name.as_str());
            m.append(" with Bitcoin address ");
            m.append(bitcoin_address.as_str());
            Ok(m)
        },
        Err(e) => Err(e),
    }
}

} // verus!
