//! The greeting roster: a fixed set of seeded people, one renaming pass,
//! and a greeting line for each person.
//!
//! The host schedules the passes and prints the lines on its timer; the
//! roster itself — who is seeded, who the renaming pass touches, and what
//! each greeting says — is decided here.

use vstd::prelude::*;
use vstd::string::StringExecFns;

verus! {

/// A person on the greeting roster.
pub struct Person {
    /// The person's name.
    pub name: String,
}

/// The greeting flow's state: the people seeded so far.
pub struct GreetPlugin {
    /// The roster, in seeding order.
    pub people: Vec<Person>,
}

/// The position of the first person in `people` carrying `name`, or -1 if
/// nobody does.
pub open spec fn find_first(people: Seq<Person>, name: Seq<char>) -> int
    decreases people.len(),
{
    if people.len() == 0 {
        -1
    } else if people[0].name@ == name {
        0
    } else {
        let r = find_first(people.drop_first(), name);
        if r == -1 {
            -1
        } else {
            r + 1
        }
    }
}

/// `find_first` returns -1 exactly when nobody carries the name, and
/// otherwise the position of the first carrier.
proof fn lemma_find_first(people: Seq<Person>, name: Seq<char>)
    ensures
        find_first(people, name) == -1 ==> forall|k: int|
            0 <= k < people.len() ==> (#[trigger] people[k]).name@ != name,
        find_first(people, name) != -1 ==> {
            let i = find_first(people, name);
            &&& 0 <= i < people.len()
            &&& people[i].name@ == name
            &&& forall|k: int| 0 <= k < i ==> (#[trigger] people[k]).name@ != name
        },
    decreases people.len(),
{
    if people.len() > 0 && people[0].name@ != name {
        let rest = people.drop_first();
        lemma_find_first(rest, name);
        assert(forall|k: int| 0 <= k < rest.len() ==> rest[k] == #[trigger] people[k + 1]);
        let r = find_first(rest, name);
        if r == -1 {
            assert forall|k: int|
                0 <= k < people.len() implies (#[trigger] people[k]).name@ != name by {
                if k > 0 {
                    assert(people[k] == rest[k - 1]);
                }
            }
        } else {
            assert(find_first(people, name) == r + 1);
            assert(people[r + 1] == rest[r]);
            assert forall|k: int| 0 <= k < r + 1 implies (#[trigger] people[k]).name@ != name by {
                if k > 0 {
                    assert(people[k] == rest[k - 1]);
                }
            }
        }
    }
}

impl GreetPlugin {
    /// An empty roster.
    pub fn new() -> (r: GreetPlugin)
        ensures
            r.people@.len() == 0,
    {
        GreetPlugin { people: Vec::new() }
    }

    /// Seed the roster with its three people, in this order, leaving
    /// anyone already present untouched.
    pub fn add_people(&mut self)
        ensures
            final(self).people@.len() == old(self).people@.len() + 3,
            forall|k: int|
                0 <= k < old(self).people@.len() ==> final(self).people@[k] == old(
                    self,
                ).people@[k],
            final(self).people@[old(self).people@.len() as int].name@ == "Elaina Proctor"@,
            final(self).people@[old(self).people@.len() as int + 1].name@ == "Renzo Hume"@,
            final(self).people@[old(self).people@.len() as int + 2].name@ == "Zayna Nieves"@,
    {
        self.people.push(Person { name: String::from_str("Elaina Proctor") });
        self.people.push(Person { name: String::from_str("Renzo Hume") });
        self.people.push(Person { name: String::from_str("Zayna Nieves") });
    }

    /// The renaming pass: the first person named "Elaina Proctor", if
    /// any, becomes "Elaina Hume"; everyone else is untouched.
    pub fn update_people(&mut self)
        ensures
            final(self).people@.len() == old(self).people@.len(),
            ({
                let i = find_first(old(self).people@, "Elaina Proctor"@);
                if i == -1 {
                    *final(self) == *old(self)
                } else {
                    final(self).people@[i].name@ == "Elaina Hume"@ && forall|k: int|
                        0 <= k < old(self).people@.len() && k != i ==> final(self).people@[k]
                            == old(self).people@[k]
                }
            }),
    {
        proof {
            lemma_find_first(self.people@, "Elaina Proctor"@);
        }
        let target = String::from_str("Elaina Proctor");
        let mut i: usize = 0;
        while i < self.people.len()
            invariant
                *self == *old(self),
                target@ == "Elaina Proctor"@,
                i <= self.people@.len(),
                forall|k: int|
                    0 <= k < i ==> (#[trigger] self.people@[k]).name@ != "Elaina Proctor"@,
            decreases self.people@.len() - i,
        {
            if self.people[i].name == target {
                proof {
                    lemma_find_first(self.people@, "Elaina Proctor"@);
                    assert(find_first(self.people@, "Elaina Proctor"@) == i as int);
                }
                self.people.set(i, Person { name: String::from_str("Elaina Hume") });
                return ;
            }
            i += 1;
        }
        proof {
            lemma_find_first(self.people@, "Elaina Proctor"@);
        }
    }

    /// The greeting lines, one per person in roster order: "Hello "
    /// followed by the person's name.
    pub fn greet_people(&self) -> (r: Vec<String>)
        ensures
            r@.len() == self.people@.len(),
            forall|k: int|
                0 <= k < r@.len() ==> (#[trigger] r@[k])@ == "Hello "@ + self.people@[k].name@,
    {
        let mut r: Vec<String> = Vec::new();
        let mut i: usize = 0;
        while i < self.people.len()
            invariant
                i <= self.people@.len(),
                r@.len() == i,
                forall|k: int|
                    0 <= k < i ==> (#[trigger] r@[k])@ == "Hello "@ + self.people@[k].name@,
            decreases self.people@.len() - i,
        {
            let mut line = String::from_str("Hello ");
            line.append(self.people[i].name.as_str());
            r.push(line);
            i += 1;
        }
        r
    }
}

} // verus!
