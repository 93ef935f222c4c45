use vstd::prelude::*;

verus! {

/// How the list of application names is read: the applications to mute, or
/// the only applications not to mute.
#[derive(Clone, Copy, Debug, PartialEq, Eq, Structural)]
pub enum FilterListMode {
    BlackList,
    WhiteList,
}

impl FilterListMode {
    /// The number under which the mode is stored.
    pub open spec fn spec_code(self) -> i32 {
        match self {
            FilterListMode::BlackList => 0,
            FilterListMode::WhiteList => 1,
        }
    }

    /// The number under which the mode is stored.
    pub fn code(self) -> (c: i32)
        ensures
            c == self.spec_code(),
    {
        match self {
            FilterListMode::BlackList => 0,
            FilterListMode::WhiteList => 1,
        }
    }

    /// The mode stored under `c`, if any.
    pub fn from_code(c: i32) -> (m: Option<FilterListMode>)
        ensures
            m matches Some(mode) ==> mode.spec_code() == c,
            m is None <==> (c != 0 && c != 1),
    {
        if c == 0 {
            Some(FilterListMode::BlackList)
        } else if c == 1 {
            Some(FilterListMode::WhiteList)
        } else {
            None
        }
    }
}

/// Whether to mute, given the stored mode and whether the active application
/// is on the list: mode 0 mutes listed applications, mode 1 mutes the others,
/// any other stored number mutes nothing.
pub open spec fn mute_decision(mode: i32, is_in_list: bool) -> bool {
    if mode == 0 {
        is_in_list
    } else if mode == 1 {
        !is_in_list
    } else {
        false
    }
}

/// Whether to mute, given the stored mode and whether the active application
/// is on the list.
pub fn should_mute(mode: i32, is_in_list: bool) -> (mute: bool)
    ensures
        mute == mute_decision(mode, is_in_list),
{
    match mode {
        0 => is_in_list,
        1 => !is_in_list,
        _ => false,
    }
}

/// The list after adding `name` unless it is there already.
pub open spec fn add_name(names: Seq<Seq<char>>, name: Seq<char>) -> Seq<Seq<char>> {
    if names.contains(name) {
        names
    } else {
        names.push(name)
    }
}

/// The list after adding each of `added` in order, each unless it is there
/// already.
pub open spec fn add_names(names: Seq<Seq<char>>, added: Seq<Seq<char>>) -> Seq<Seq<char>>
    decreases added.len(),
{
    if added.len() == 0 {
        names
    } else {
        add_name(add_names(names, added.drop_last()), added.last())
    }
}

/// No name occurs twice.
pub open spec fn no_duplicates(names: Seq<Seq<char>>) -> bool {
    forall|i: int, j: int| 0 <= i < j < names.len() ==> names[i] != names[j]
}

/// The names of the applications that the filter mode applies to, in the
/// order they were added.
pub struct FilterList {
    names: Vec<String>,
}

impl View for FilterList {
    type V = Seq<Seq<char>>;

    closed spec fn view(&self) -> Seq<Seq<char>> {
        self.names@.map_values(|s: String| s@)
    }
}

impl FilterList {
    /// An empty list.
    pub fn new() -> (l: FilterList)
        ensures
            l@ == Seq::<Seq<char>>::empty(),
    {
        let l = FilterList { names: Vec::new() };
        assert(l@ =~= Seq::<Seq<char>>::empty());
        l
    }

    /// The stored list, or an empty one when none is stored.
    pub fn from_stored(stored: Option<Vec<String>>) -> (l: FilterList)
        ensures
            match stored {
                Some(v) => l@ == v@.map_values(|s: String| s@),
                None => l@ == Seq::<Seq<char>>::empty(),
            },
    {
        match stored {
            Some(v) => FilterList { names: v },
            None => FilterList::new(),
        }
    }

    /// The names, for storing.
    pub fn names(&self) -> (names: &Vec<String>)
        ensures
            names@.map_values(|s: String| s@) == self@,
    {
        &self.names
    }

    /// The number of names.
    pub fn len(&self) -> (n: usize)
        ensures
            n == self@.len(),
    {
        self.names.len()
    }

    /// The name at `row`.
    pub fn get(&self, row: usize) -> (name: &String)
        requires
            row < self@.len(),
        ensures
            name@ == self@[row as int],
    {
        &self.names[row]
    }

    /// Whether `name` is on the list.
    pub fn contains(&self, name: &String) -> (found: bool)
        ensures
            found == self@.contains(name@),
    {
        let ghost v = self@;
        let mut i: usize = 0;
        while i < self.names.len()
            invariant
                v == self@,
                v == self.names@.map_values(|s: String| s@),
                i <= self.names.len(),
                forall|j: int| 0 <= j < i ==> v[j] != name@,
            decreases self.names.len() - i,
        {
            if self.names[i] == *name {
                assert(v[i as int] == name@);
                return true;
            }
            i = i + 1;
        }
        assert(!v.contains(name@)) by {
            if v.contains(name@) {
                let k = choose|k: int| 0 <= k < v.len() && v[k] == name@;
                assert(v[k] != name@);
            }
        }
        false
    }

    /// Adds `name` at the end unless it is on the list already.
    pub fn add(&mut self, name: String)
        ensures
            final(self)@ == add_name(old(self)@, name@),
    {
        if !self.contains(&name) {
            let ghost before = self@;
            self.names.push(name);
            assert(self@ =~= before.push(name@));
        }
    }

    /// Adds each of `added`, in order, unless it is on the list already
    /// (so a name picked twice is added once).
    pub fn add_all(&mut self, added: Vec<String>)
        ensures
            final(self)@ == add_names(old(self)@, added@.map_values(|s: String| s@)),
    {
        let ghost start = self@;
        let ghost all = added@.map_values(|s: String| s@);
        let mut i: usize = 0;
        while i < added.len()
            invariant
                i <= added.len(),
                all == added@.map_values(|s: String| s@),
                self@ == add_names(start, all.subrange(0, i as int)),
            decreases added.len() - i,
        {
            let name = added[i].clone();
            self.add(name);
            assert(all.subrange(0, i + 1).drop_last() =~= all.subrange(0, i as int));
            i = i + 1;
        }
        assert(all.subrange(0, added.len() as int) =~= all);
    }

    /// Removes the selected row, if one is selected (`row` is negative when
    /// none is). Returns whether a name was removed.
    pub fn remove_selected(&mut self, row: i32) -> (removed: bool)
        requires
            row < old(self)@.len(),
        ensures
            removed == (row >= 0),
            row >= 0 ==> final(self)@ == old(self)@.remove(row as int),
            row < 0 ==> final(self)@ == old(self)@,
    {
        if row >= 0 {
            let ghost before = self.names@;
            let index: usize = row as usize;
            self.names.remove(index);
            assert(self@ =~= old(self)@.remove(row as int));
            true
        } else {
            false
        }
    }

    /// Whether to mute the application `app_name`, given the stored mode.
    pub fn should_mute_app(&self, mode: i32, app_name: &String) -> (mute: bool)
        ensures
            mute == mute_decision(mode, self@.contains(app_name@)),
    {
        let is_in_list = self.contains(app_name);
        should_mute(mode, is_in_list)
    }
}

/// The two list modes decide oppositely for every application: what the
/// black list mutes the white list plays, and the other way round.
pub proof fn lemma_modes_are_opposite(names: Seq<Seq<char>>, app_name: Seq<char>)
    ensures
        mute_decision(FilterListMode::BlackList.spec_code(), names.contains(app_name))
            == !mute_decision(FilterListMode::WhiteList.spec_code(), names.contains(app_name)),
{
}

/// Adding a name puts it on the list, and adding it again changes nothing.
pub proof fn lemma_add_is_idempotent(names: Seq<Seq<char>>, name: Seq<char>)
    ensures
        add_name(names, name).contains(name),
        add_name(add_name(names, name), name) == add_name(names, name),
{
    if !names.contains(name) {
        assert(names.push(name)[names.len() as int] == name);
    }
}

/// A list without repeated names keeps none after names are added, however
/// often a name is picked.
pub proof fn lemma_add_names_keeps_names_distinct(names: Seq<Seq<char>>, added: Seq<Seq<char>>)
    requires
        no_duplicates(names),
    ensures
        no_duplicates(add_names(names, added)),
    decreases added.len(),
{
    if added.len() > 0 {
        lemma_add_names_keeps_names_distinct(names, added.drop_last());
        let prev = add_names(names, added.drop_last());
        let name = added.last();
        if !prev.contains(name) {
            let next = prev.push(name);
            assert forall|i: int, j: int| 0 <= i < j < next.len() implies next[i] != next[j] by {
                if j == prev.len() {
                    assert(prev[i] == next[i]);
                    if next[i] == next[j] {
                        assert(prev.contains(name));
                    }
                }
            }
        }
    }
}

/// Removing a row keeps a list free of repeated names.
pub proof fn lemma_remove_keeps_names_distinct(names: Seq<Seq<char>>, row: int)
    requires
        no_duplicates(names),
        0 <= row < names.len(),
    ensures
        no_duplicates(names.remove(row)),
{
    let r = names.remove(row);
    assert forall|i: int, j: int| 0 <= i < j < r.len() implies r[i] != r[j] by {
        let oi = if i < row { i } else { i + 1 };
        let oj = if j < row { j } else { j + 1 };
        assert(r[i] == names[oi]);
        assert(r[j] == names[oj]);
    }
}

/// Adding names keeps every name already listed, in its place, and puts
/// every added name on the list; nothing else is added.
pub proof fn lemma_add_names_adds_every_name(names: Seq<Seq<char>>, added: Seq<Seq<char>>)
    ensures
        add_names(names, added).len() >= names.len(),
        add_names(names, added).subrange(0, names.len() as int) == names,
        forall|k: int| 0 <= k < added.len() ==> add_names(names, added).contains(#[trigger] added[k]),
        forall|x: Seq<char>|
            add_names(names, added).contains(x) ==> names.contains(x) || added.contains(x),
    decreases added.len(),
{
    if added.len() > 0 {
        let init = added.drop_last();
        lemma_add_names_adds_every_name(names, init);
        let prev = add_names(names, init);
        let name = added.last();
        let next = add_names(names, added);
        assert(next == add_name(prev, name));
        if !prev.contains(name) {
            assert(next[prev.len() as int] == name);
            assert(next.subrange(0, prev.len() as int) =~= prev);
        }
        assert(next.subrange(0, names.len() as int) =~= prev.subrange(0, names.len() as int));
        assert(next.contains(name)) by {
            if prev.contains(name) {
            } else {
                assert(next[prev.len() as int] == name);
            }
        }
        assert forall|k: int| 0 <= k < added.len() implies next.contains(#[trigger] added[k]) by {
            if k < added.len() - 1 {
                assert(init[k] == added[k]);
                assert(prev.contains(init[k]));
                let j = choose|j: int| 0 <= j < prev.len() && prev[j] == init[k];
                if !prev.contains(name) {
                    assert(next[j] == prev[j]);
                }
            }
        }
        assert forall|x: Seq<char>| next.contains(x) implies names.contains(x) || added.contains(x) by {
            let j = choose|j: int| 0 <= j < next.len() && next[j] == x;
            if j < prev.len() {
                if !prev.contains(name) {
                    assert(prev[j] == next[j]);
                }
                assert(prev.contains(x));
                if init.contains(x) {
                    let m = choose|m: int| 0 <= m < init.len() && init[m] == x;
                    assert(added[m] == x);
                }
            } else {
                assert(added[added.len() - 1] == x);
            }
        }
    }
}

} // verus!
