use vstd::multiset::Multiset;
use vstd::prelude::*;

verus! {

/// Relies on chrono::Utc::now and DateTime::timestamp: the current time in
/// whole seconds since the Unix epoch.
#[verifier::external_body]
fn now_timestamp() -> (r: i64) {
    chrono::Utc::now().timestamp()
}

/// What a to-do item holds, as plain values.
pub struct TodoModel {
    pub title: Seq<char>,
    pub body: Option<Seq<char>>,
    pub creation_date: i64,
    pub last_edit_date: i64,
    pub completed: bool,
}

pub open spec fn opt_view(o: Option<String>) -> Option<Seq<char>> {
    match o {
        Some(s) => Some(s@),
        None => None,
    }
}

/// A fresh item made at time `now`.
pub open spec fn fresh_item(title: Seq<char>, body: Option<Seq<char>>, now: i64) -> TodoModel {
    TodoModel { title, body, creation_date: now, last_edit_date: now, completed: false }
}

/// `m` with its completion flag flipped.
pub open spec fn toggled(m: TodoModel) -> TodoModel {
    TodoModel { completed: !m.completed, ..m }
}

/// `m` after an edit at time `now` that sets whichever of title and body are given.
pub open spec fn edited(
    m: TodoModel,
    title: Option<Seq<char>>,
    body: Option<Seq<char>>,
    now: i64,
) -> TodoModel {
    TodoModel {
        title: match title {
            Some(t) => t,
            None => m.title,
        },
        body: match body {
            Some(b) => Some(b),
            None => m.body,
        },
        last_edit_date: now,
        ..m
    }
}

/// Whether some item of `items` has exactly this title.
pub open spec fn has_title(items: Seq<TodoModel>, title: Seq<char>) -> bool {
    exists|i: int| 0 <= i < items.len() && #[trigger] items[i].title == title
}

/// Whether `add` would take an item with this title into `items`.
pub open spec fn accepts_title(items: Seq<TodoModel>, title: Seq<char>) -> bool {
    title.len() > 0 && !has_title(items, title)
}

/// `items` after `add` of `title` and `body` at time `now`.
pub open spec fn after_add(
    items: Seq<TodoModel>,
    title: Seq<char>,
    body: Option<Seq<char>>,
    now: i64,
) -> Seq<TodoModel> {
    if accepts_title(items, title) {
        seq![fresh_item(title, body, now)] + items
    } else {
        items
    }
}

/// The items of `s` that are completed, in order.
pub open spec fn completed_items(s: Seq<TodoModel>) -> Seq<TodoModel> {
    s.filter(|m: TodoModel| m.completed)
}

/// The items of `s` that are not completed, in order.
pub open spec fn uncompleted_items(s: Seq<TodoModel>) -> Seq<TodoModel> {
    s.filter(|m: TodoModel| !m.completed)
}

/// Whether `s` runs from the newest creation date to the oldest.
pub open spec fn newest_first(s: Seq<TodoModel>) -> bool {
    forall|i: int, j: int|
        0 <= i < j < s.len() ==> #[trigger] s[i].creation_date >= #[trigger] s[j].creation_date
}

#[derive(Debug)]
pub struct TodoItem {
    title: String,
    body: Option<String>,
    creation_date: i64,
    last_edit_date: i64,
    completed: bool,
}

impl View for TodoItem {
    type V = TodoModel;

    closed spec fn view(&self) -> TodoModel {
        TodoModel {
            title: self.title@,
            body: opt_view(self.body),
            creation_date: self.creation_date,
            last_edit_date: self.last_edit_date,
            completed: self.completed,
        }
    }
}

impl TodoItem {
    /// A new, uncompleted item stamped with the current time.
    pub fn new(title: String, body: Option<String>) -> (r: TodoItem)
        ensures
            r@ == fresh_item(title@, opt_view(body), r@.creation_date),
    {
        TodoItem::new_at(title, body, now_timestamp())
    }

    /// A new, uncompleted item stamped with time `now`.
    pub fn new_at(title: String, body: Option<String>, now: i64) -> (r: TodoItem)
        ensures
            r@ == fresh_item(title@, opt_view(body), now),
    {
        TodoItem { title, body, creation_date: now, last_edit_date: now, completed: false }
    }

    /// An item with every field given, as when read back from storage.
    pub fn from_parts(
        title: String,
        body: Option<String>,
        creation_date: i64,
        last_edit_date: i64,
        completed: bool,
    ) -> (r: TodoItem)
        ensures
            r@ == (TodoModel {
                title: title@,
                body: opt_view(body),
                creation_date,
                last_edit_date,
                completed,
            }),
    {
        TodoItem { title, body, creation_date, last_edit_date, completed }
    }

    /// Flips the completion flag.
    pub fn complete(&mut self)
        ensures
            final(self)@ == toggled(old(self)@),
    {
        if !self.completed {
            self.completed = true;
        } else {
            self.completed = false;
        }
    }

    pub fn title(&self) -> (r: &str)
        ensures
            r@ == self@.title,
    {
        self.title.as_str()
    }

    pub fn body(&self) -> (r: Option<&str>)
        ensures
            match r {
                Some(b) => self@.body == Some(b@),
                None => self@.body is None,
            },
    {
        match &self.body {
            Some(b) => Some(b.as_str()),
            None => None,
        }
    }

    /// Creation time, in seconds since the Unix epoch (UTC).
    pub fn creation_date(&self) -> (r: i64)
        ensures
            r == self@.creation_date,
    {
        self.creation_date
    }

    /// Time of the last edit, in seconds since the Unix epoch (UTC).
    pub fn last_edit_date(&self) -> (r: i64)
        ensures
            r == self@.last_edit_date,
    {
        self.last_edit_date
    }

    pub fn completed(&self) -> (r: bool)
        ensures
            r == self@.completed,
    {
        self.completed
    }

    fn apply_edit(&mut self, title: Option<String>, body: Option<String>, now: i64)
        ensures
            final(self)@ == edited(old(self)@, opt_view(title), opt_view(body), now),
    {
        if let Some(new_title) = title {
            self.title = new_title;
        }
        if let Some(new_body) = body {
            self.body = Some(new_body);
        }
        self.last_edit_date = now;
    }
}

/// The ordered store of to-do items, newest first.
#[derive(Debug)]
pub struct TodoList {
    todos: Vec<TodoItem>,
}

impl View for TodoList {
    type V = Seq<TodoModel>;

    closed spec fn view(&self) -> Seq<TodoModel> {
        self.todos@.map_values(|t: TodoItem| t@)
    }
}

impl TodoList {
    pub fn new() -> (r: TodoList)
        ensures
            r@ == Seq::<TodoModel>::empty(),
    {
        TodoList { todos: Vec::new() }
    }

    /// A store holding `todos` in the order given.
    pub fn from_items(todos: Vec<TodoItem>) -> (r: TodoList)
        ensures
            r@ == todos@.map_values(|t: TodoItem| t@),
    {
        TodoList { todos }
    }

    /// Whether an item has exactly this title.
    pub fn contains_title(&self, title: &String) -> (r: bool)
        ensures
            r == has_title(self@, title@),
    {
        let mut i: usize = 0;
        while i < self.todos.len()
            invariant
                i <= self.todos.len(),
                forall|j: int| 0 <= j < i ==> self@[j].title != title@,
            decreases self.todos.len() - i,
        {
            if self.todos[i].title == *title {
                assert(self@[i as int].title == title@);
                return true;
            }
            i = i + 1;
        }
        false
    }

    /// Adds a new item at the front, stamped with the current time, unless
    /// the title is empty or already present.
    pub fn add_todo(&mut self, title: String, body: Option<String>)
        ensures
            !accepts_title(old(self)@, title@) ==> final(self)@ == old(self)@,
            accepts_title(old(self)@, title@) ==> final(self)@ == after_add(
                old(self)@,
                title@,
                opt_view(body),
                final(self)@[0].creation_date,
            ),
    {
        let now = now_timestamp();
        self.add_todo_at(title, body, now);
    }

    /// Adds a new item at the front, stamped with time `now`, unless the
    /// title is empty or already present.
    pub fn add_todo_at(&mut self, title: String, body: Option<String>, now: i64)
        ensures
            final(self)@ == after_add(old(self)@, title@, opt_view(body), now),
    {
        if title.as_str().is_empty() || self.contains_title(&title) {
            return;
        }
        let ghost pre = self@;
        let new_todo = TodoItem::new_at(title, body, now);
        self.todos.insert(0, new_todo);
        assert(self@ =~= seq![new_todo@] + pre);
    }

    /// Takes out the item at `idx`, or returns `None` when there is none.
    pub fn remove_todo(&mut self, idx: usize) -> (r: Option<TodoItem>)
        ensures
            idx < old(self)@.len() ==> r is Some && r->0@ == old(self)@[idx as int]
                && final(self)@ == old(self)@.remove(idx as int),
            idx >= old(self)@.len() ==> r is None && final(self)@ == old(self)@,
    {
        if idx < self.todos.len() {
            let ghost pre = self@;
            let t = self.todos.remove(idx);
            assert(self@ =~= pre.remove(idx as int));
            Some(t)
        } else {
            None
        }
    }

    /// Flips the completion flag of the item at `idx`; false when there is none.
    pub fn complete_todo(&mut self, idx: usize) -> (r: bool)
        ensures
            r == (idx < old(self)@.len()),
            r ==> final(self)@ == old(self)@.update(idx as int, toggled(old(self)@[idx as int])),
            !r ==> final(self)@ == old(self)@,
    {
        if idx < self.todos.len() {
            let ghost pre = self@;
            let mut todo = self.todos.remove(idx);
            todo.complete();
            self.todos.insert(idx, todo);
            assert(self@ =~= pre.update(idx as int, toggled(pre[idx as int])));
            true
        } else {
            false
        }
    }

    pub fn get_todo(&self, idx: usize) -> (r: Option<&TodoItem>)
        ensures
            idx < self@.len() ==> r is Some && r->0@ == self@[idx as int],
            idx >= self@.len() ==> r is None,
    {
        if idx < self.todos.len() {
            Some(&self.todos[idx])
        } else {
            None
        }
    }

    pub fn get_todos(&self) -> (r: &[TodoItem])
        ensures
            r@.map_values(|t: TodoItem| t@) == self@,
    {
        self.todos.as_slice()
    }

    pub fn len(&self) -> (r: usize)
        ensures
            r == self@.len(),
    {
        self.todos.len()
    }

    pub fn is_empty(&self) -> (r: bool)
        ensures
            r == (self@.len() == 0),
    {
        self.todos.is_empty()
    }

    /// Sets whichever of title and body are given on the item at `idx` and
    /// stamps it with the current time; false when there is no such item.
    pub fn update_todo(&mut self, idx: usize, title: Option<String>, body: Option<String>) -> (r:
        bool)
        ensures
            r == (idx < old(self)@.len()),
            r ==> final(self)@ == old(self)@.update(
                idx as int,
                edited(
                    old(self)@[idx as int],
                    opt_view(title),
                    opt_view(body),
                    final(self)@[idx as int].last_edit_date,
                ),
            ),
            !r ==> final(self)@ == old(self)@,
    {
        let now = now_timestamp();
        self.update_todo_at(idx, title, body, now)
    }

    /// Sets whichever of title and body are given on the item at `idx` and
    /// stamps it with time `now`; false when there is no such item.
    pub fn update_todo_at(
        &mut self,
        idx: usize,
        title: Option<String>,
        body: Option<String>,
        now: i64,
    ) -> (r: bool)
        ensures
            r == (idx < old(self)@.len()),
            r ==> final(self)@ == old(self)@.update(
                idx as int,
                edited(old(self)@[idx as int], opt_view(title), opt_view(body), now),
            ),
            !r ==> final(self)@ == old(self)@,
    {
        if idx < self.todos.len() {
            let ghost pre = self@;
            let mut todo = self.todos.remove(idx);
            todo.apply_edit(title, body, now);
            self.todos.insert(idx, todo);
            assert(self@ =~= pre.update(
                idx as int,
                edited(pre[idx as int], opt_view(title), opt_view(body), now),
            ));
            true
        } else {
            false
        }
    }
    /// Reorders the store from the newest creation date to the oldest.
    pub fn sort_by_date(&mut self)
        ensures
            final(self)@.to_multiset() == old(self)@.to_multiset(),
            newest_first(final(self)@),
    {
        broadcast use vstd::multiset::group_multiset_axioms;
        broadcast use vstd::seq_lib::group_to_multiset_ensures;
        broadcast use vstd::multiset::lemma_multiset_empty_len;

        let ghost orig = self@;
        let mut sorted: Vec<TodoItem> = Vec::new();
        proof {
            let e = sorted@.map_values(|t: TodoItem| t@);
            assert(e.to_multiset().len() == 0);
            assert(orig.to_multiset() =~= orig.to_multiset().add(e.to_multiset()));
        }
        while self.todos.len() > 0
            invariant
                orig.to_multiset() == self@.to_multiset().add(
                    sorted@.map_values(|t: TodoItem| t@).to_multiset(),
                ),
                newest_first(sorted@.map_values(|t: TodoItem| t@)),
            decreases self.todos.len(),
        {
            let ghost before = self@;
            let ghost sv = sorted@.map_values(|t: TodoItem| t@);
            let x = match self.todos.pop() {
                Some(x) => x,
                None => {
                    return ;
                },
            };
            proof {
                assert(before =~= self@.push(x@));
                vstd::seq_lib::to_multiset_build(self@, x@);
            }
            let mut p: usize = 0;
            while p < sorted.len() && sorted[p].creation_date > x.creation_date
                invariant
                    p <= sorted@.len(),
                    sv == sorted@.map_values(|t: TodoItem| t@),
                    forall|k: int| 0 <= k < p ==> sv[k].creation_date > x@.creation_date,
                decreases sorted.len() - p,
            {
                p = p + 1;
            }
            sorted.insert(p, x);
            proof {
                let nv = sorted@.map_values(|t: TodoItem| t@);
                assert(nv =~= sv.insert(p as int, x@));
                vstd::seq_lib::to_multiset_insert(sv, p as int, x@);
                assert forall|i: int, j: int| 0 <= i < j < nv.len() implies #[trigger] nv[i].creation_date
                    >= #[trigger] nv[j].creation_date by {
                    if p < sv.len() {
                        assert(sv[p as int].creation_date <= x@.creation_date);
                    }
                    if j < p {
                        assert(sv[i].creation_date >= sv[j].creation_date);
                    } else if i < p && j == p {
                    } else if i < p && j > p {
                        assert(sv[i].creation_date >= sv[j - 1].creation_date);
                    } else if i == p {
                        assert(sv[p as int].creation_date >= sv[j - 1].creation_date);
                    } else {
                        assert(sv[i - 1].creation_date >= sv[j - 1].creation_date);
                    }
                }
            }
        }
        proof {
            assert(self@.to_multiset().len() == 0);
            assert(self@.to_multiset() =~= Multiset::empty());
        }
        self.todos = sorted;
        proof {
            assert(orig.to_multiset() =~= self@.to_multiset());
        }
    }

    /// The completed items, in store order.
    pub fn filter_completed(&self) -> (r: Vec<&TodoItem>)
        ensures
            r@.map_values(|t: &TodoItem| t@) == completed_items(self@),
    {
        let mut r: Vec<&TodoItem> = Vec::new();
        let mut i: usize = 0;
        while i < self.todos.len()
            invariant
                i <= self.todos.len(),
                r@.map_values(|t: &TodoItem| t@) == completed_items(self@.take(i as int)),
            decreases self.todos.len() - i,
        {
            let ghost rv = r@.map_values(|t: &TodoItem| t@);
            proof {
                assert(self@.take(i + 1) =~= self@.take(i as int).push(self@[i as int]));
                self@.take(i as int).lemma_filter_push(self@[i as int], |m: TodoModel| m.completed);
            }
            if self.todos[i].completed {
                r.push(&self.todos[i]);
                assert(r@.map_values(|t: &TodoItem| t@) =~= rv.push(self@[i as int]));
            }
            i = i + 1;
        }
        assert(self@.take(self@.len() as int) =~= self@);
        r
    }

    /// The items not yet completed, in store order.
    pub fn filter_uncompleted(&self) -> (r: Vec<&TodoItem>)
        ensures
            r@.map_values(|t: &TodoItem| t@) == uncompleted_items(self@),
    {
        let mut r: Vec<&TodoItem> = Vec::new();
        let mut i: usize = 0;
        while i < self.todos.len()
            invariant
                i <= self.todos.len(),
                r@.map_values(|t: &TodoItem| t@) == uncompleted_items(self@.take(i as int)),
            decreases self.todos.len() - i,
        {
            let ghost rv = r@.map_values(|t: &TodoItem| t@);
            proof {
                assert(self@.take(i + 1) =~= self@.take(i as int).push(self@[i as int]));
                self@.take(i as int).lemma_filter_push(self@[i as int], |m: TodoModel| !m.completed);
            }
            if !self.todos[i].completed {
                r.push(&self.todos[i]);
                assert(r@.map_values(|t: &TodoItem| t@) =~= rv.push(self@[i as int]));
            }
            i = i + 1;
        }
        assert(self@.take(self@.len() as int) =~= self@);
        r
    }
}

} // verus!
