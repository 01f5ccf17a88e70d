use vstd::prelude::*;

verus! {

/// Values stored under names, such as snapshots of runtime activity that a
/// test captures under one name and later dumps, compares or deletes.
/// At most one value is held per name.
pub struct TestData<T> {
    entries: Vec<(String, T)>,
    contents: Ghost<Map<Seq<char>, T>>,
}

impl<T> View for TestData<T> {
    type V = Map<Seq<char>, T>;

    /// The value held under each name.
    closed spec fn view(&self) -> Map<Seq<char>, T> {
        self.contents@
    }
}

impl<T> TestData<T> {
    /// The entries hold each name at most once, and are exactly the map
    /// that the view gives.
    pub closed spec fn wf(&self) -> bool {
        &&& forall|i: int, j: int|
            0 <= i < j < self.entries@.len() ==> #[trigger] self.entries@[i].0@
                != #[trigger] self.entries@[j].0@
        &&& forall|i: int|
            0 <= i < self.entries@.len() ==> {
                &&& self.contents@.contains_key(#[trigger] self.entries@[i].0@)
                &&& self.contents@[self.entries@[i].0@] == self.entries@[i].1
            }
        &&& forall|k: Seq<char>|
            #[trigger] self.contents@.contains_key(k) ==> exists|i: int|
                0 <= i < self.entries@.len() && #[trigger] self.entries@[i].0@ == k
    }

    /// A store with nothing in it.
    pub fn new() -> (r: TestData<T>)
        ensures
            r.wf(),
            r@ == Map::<Seq<char>, T>::empty(),
    {
        TestData { entries: Vec::new(), contents: Ghost(Map::empty()) }
    }

    /// The position of the entry that holds `name`, if there is one.
    fn find(&self, name: &String) -> (r: Option<usize>)
        requires
            self.wf(),
        ensures
            match r {
                Some(i) => i < self.entries@.len() && self.entries@[i as int].0@ == name@,
                None => !self@.contains_key(name@),
            },
    {
        let mut i: usize = 0;
        while i < self.entries.len()
            invariant
                self.wf(),
                i <= self.entries@.len(),
                forall|j: int| 0 <= j < i ==> #[trigger] self.entries@[j].0@ != name@,
            decreases self.entries@.len() - i,
        {
            if self.entries[i].0 == *name {
                return Some(i);
            }
            i = i + 1;
        }
        None
    }

    /// Whether a value is held under `name`.
    pub fn contains(&self, name: &String) -> (r: bool)
        requires
            self.wf(),
        ensures
            r == self@.contains_key(name@),
    {
        match self.find(name) {
            Some(_) => true,
            None => false,
        }
    }

    /// Stores `data` under `name`, replacing what was held there.
    pub fn insert(&mut self, name: String, data: T)
        requires
            old(self).wf(),
        ensures
            final(self).wf(),
            final(self)@ == old(self)@.insert(name@, data),
    {
        let ghost key = name@;
        let ghost new_contents = self.contents@.insert(key, data);
        match self.find(&name) {
            Some(i) => {
                self.entries.set(i, (name, data));
                self.contents = Ghost(new_contents);
                assert forall|k: Seq<char>| #[trigger] self.contents@.contains_key(k) implies exists|
                    j: int,
                | 0 <= j < self.entries@.len() && #[trigger] self.entries@[j].0@ == k by {
                    if k != key {
                        let j = choose|j: int|
                            0 <= j < old(self).entries@.len() && #[trigger] old(
                                self,
                            ).entries@[j].0@ == k;
                        assert(self.entries@[j].0@ == k);
                    } else {
                        assert(self.entries@[i as int].0@ == k);
                    }
                }
            },
            None => {
                self.entries.push((name, data));
                self.contents = Ghost(new_contents);
                let ghost last: int = self.entries@.len() - 1;
                assert(self.entries@[last].0@ == key);
                assert forall|k: Seq<char>| #[trigger] self.contents@.contains_key(k) implies exists|
                    j: int,
                | 0 <= j < self.entries@.len() && #[trigger] self.entries@[j].0@ == k by {
                    if k != key {
                        let j = choose|j: int|
                            0 <= j < old(self).entries@.len() && #[trigger] old(
                                self,
                            ).entries@[j].0@ == k;
                        assert(self.entries@[j].0@ == k);
                    } else {
                        assert(self.entries@[last].0@ == k);
                    }
                }
            },
        }
    }

    /// The value held under `name`.
    pub fn get(&self, name: String) -> (r: &T)
        requires
            self.wf(),
            self@.contains_key(name@),
        ensures
            *r == self@[name@],
    {
        match self.find(&name) {
            Some(i) => &self.entries[i].1,
            None => {
                proof {
                    assert(false);
                }
                &self.entries[0].1
            },
        }
    }

    /// Removes the value held under `name` and hands it back.
    pub fn take(&mut self, name: String) -> (r: T)
        requires
            old(self).wf(),
            old(self)@.contains_key(name@),
        ensures
            final(self).wf(),
            r == old(self)@[name@],
            final(self)@ == old(self)@.remove(name@),
    {
        let ghost key = name@;
        let i = match self.find(&name) {
            Some(i) => i,
            None => {
                proof {
                    assert(false);
                }
                0
            },
        };
        let ghost before = self.entries@;
        let (_, data) = self.entries.remove(i);
        self.contents = Ghost(self.contents@.remove(key));
        assert forall|j: int| 0 <= j < self.entries@.len() implies #[trigger] self.entries@[j]
            == if j < i {
            before[j]
        } else {
            before[j + 1]
        } by {}
        assert forall|k: Seq<char>| #[trigger] self.contents@.contains_key(k) implies exists|
            j: int,
        | 0 <= j < self.entries@.len() && #[trigger] self.entries@[j].0@ == k by {
            let j = choose|j: int| 0 <= j < before.len() && #[trigger] before[j].0@ == k;
            assert(j != i);
            if j < i {
                assert(self.entries@[j].0@ == k);
            } else {
                assert(self.entries@[j - 1].0@ == k);
            }
        }
        data
    }
}

/// Keeps the statistics captured for a test under `name`, replacing any
/// captured earlier under the same name.
pub fn op_stats_capture<T>(name: String, data: T, test_data: &mut TestData<T>)
    requires
        old(test_data).wf(),
    ensures
        final(test_data).wf(),
        final(test_data)@ == old(test_data)@.insert(name@, data),
{
    test_data.insert(name, data);
}

/// The statistics captured under `name`, for the caller to dump.
pub fn op_stats_dump<T>(name: String, test_data: &TestData<T>) -> (r: &T)
    requires
        test_data.wf(),
        test_data@.contains_key(name@),
    ensures
        *r == test_data@[name@],
{
    test_data.get(name)
}

/// The statistics captured under `before` and under `after`, in that order,
/// for the caller to compare.
pub fn op_stats_diff<T>(before: String, after: String, test_data: &TestData<T>) -> (r: (&T, &T))
    requires
        test_data.wf(),
        test_data@.contains_key(before@),
        test_data@.contains_key(after@),
    ensures
        *r.0 == test_data@[before@],
        *r.1 == test_data@[after@],
{
    let b = test_data.get(before);
    let a = test_data.get(after);
    (b, a)
}

/// Drops the statistics captured under `name`.
pub fn op_stats_delete<T>(name: String, test_data: &mut TestData<T>)
    requires
        old(test_data).wf(),
        old(test_data)@.contains_key(name@),
    ensures
        final(test_data).wf(),
        final(test_data)@ == old(test_data)@.remove(name@),
{
    let _ = test_data.take(name);
}

/// What is captured under a name is what a later dump of that name reads,
/// and capturing under one name leaves every other name as it was.
pub proof fn law_read_after_capture<T>(store: TestData<T>, name: Seq<char>, data: T, other: Seq<char>)
    requires
        other != name,
    ensures
        store@.insert(name, data).contains_key(name),
        store@.insert(name, data)[name] == data,
        store@.insert(name, data).contains_key(other) == store@.contains_key(other),
        store@.contains_key(other) ==> store@.insert(name, data)[other] == store@[other],
{
}

/// A second capture under the same name replaces the first.
pub proof fn law_capture_replaces<T>(store: TestData<T>, name: Seq<char>, first: T, second: T)
    ensures
        store@.insert(name, first).insert(name, second) == store@.insert(name, second),
{
    assert(store@.insert(name, first).insert(name, second) =~= store@.insert(name, second));
}

/// Deleting a name removes it and nothing else; deleting what was just
/// captured under a new name gives back the store as it was before.
pub proof fn law_delete_removes_only_that_name<T>(
    store: TestData<T>,
    name: Seq<char>,
    data: T,
    other: Seq<char>,
)
    requires
        other != name,
    ensures
        !store@.remove(name).contains_key(name),
        store@.remove(name).contains_key(other) == store@.contains_key(other),
        store@.contains_key(other) ==> store@.remove(name)[other] == store@[other],
        !store@.contains_key(name) ==> store@.insert(name, data).remove(name) == store@,
{
    if !store@.contains_key(name) {
        assert(store@.insert(name, data).remove(name) =~= store@);
    }
}

} // verus!
