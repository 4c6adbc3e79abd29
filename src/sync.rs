use vstd::prelude::*;
use crate::todo::{Todo, TodoError};

verus! {

/// An addition submitted from the view. `resolved_at` is the add version that
/// its completion produced, or `None` while the call is in flight.
#[derive(Clone, Debug, PartialEq, Eq)]
pub struct Submission {
    pub token: u64,
    pub title: String,
    pub resolved_at: Option<u64>,
}

/// The last listing the view received.
#[derive(Clone, Debug, PartialEq, Eq)]
pub enum Listing {
    /// No listing has arrived yet.
    Loading,
    /// The listing call failed.
    Failed(TodoError),
    /// The listing call returned these items.
    Loaded(Vec<Todo>),
}

/// What the view asks its host to do next.
#[derive(Clone, Debug, PartialEq, Eq)]
pub enum Action {
    /// Call the add operation with `title`; report completion with `token`.
    CallAdd { token: u64, title: String },
    /// Call the list operation; report its result with these versions.
    CallList { add_version: u64, delete_version: u64 },
}

/// One line of the rendered list.
#[derive(Clone, Debug, PartialEq, Eq)]
pub enum Row {
    /// The listing failed with this error.
    Failure(TodoError),
    /// The listing holds no items.
    NoTasks,
    /// A confirmed item with its delete target (empty where it has no id).
    Item { title: String, id: String },
    /// A submitted addition not yet confirmed by a listing.
    Placeholder { title: String },
}

pub enum RowModel {
    Failure(Seq<char>),
    NoTasks,
    Item { title: Seq<char>, id: Seq<char> },
    Placeholder { title: Seq<char> },
}

impl View for Row {
    type V = RowModel;

    open spec fn view(&self) -> RowModel {
        match self {
            Row::Failure(e) => RowModel::Failure(e.message_spec()),
            Row::NoTasks => RowModel::NoTasks,
            Row::Item { title, id } => RowModel::Item { title: title@, id: id@ },
            Row::Placeholder { title } => RowModel::Placeholder { title: title@ },
        }
    }
}

pub open spec fn row_models(s: Seq<Row>) -> Seq<RowModel> {
    s.map_values(|r: Row| r@)
}

pub open spec fn item_row(t: Todo) -> RowModel {
    RowModel::Item {
        title: t.title@,
        id: match t.id {
            Some(i) => i@,
            None => Seq::empty(),
        },
    }
}

/// The rows that a listing renders as.
pub open spec fn listing_rows(l: Listing) -> Seq<RowModel> {
    match l {
        Listing::Loading => Seq::empty(),
        Listing::Failed(e) => seq![RowModel::Failure(e.message_spec())],
        Listing::Loaded(v) => if v@.len() == 0 {
            seq![RowModel::NoTasks]
        } else {
            v@.map_values(|t: Todo| item_row(t))
        },
    }
}

/// A submission still shows as a placeholder while it is in flight, and after
/// it resolved until a listing that reflects its completion has arrived.
pub open spec fn shown(s: Submission, listed_add: u64) -> bool {
    s.resolved_at is None || s.resolved_at->Some_0 > listed_add
}

pub open spec fn placeholder_rows(subs: Seq<Submission>, listed_add: u64) -> Seq<RowModel>
    decreases subs.len(),
{
    if subs.len() == 0 {
        Seq::empty()
    } else {
        let before = placeholder_rows(subs.drop_last(), listed_add);
        if shown(subs.last(), listed_add) {
            before.push(RowModel::Placeholder { title: subs.last().title@ })
        } else {
            before
        }
    }
}

/// The placeholders of the submissions still in flight.
pub open spec fn pending_rows(subs: Seq<Submission>) -> Seq<RowModel>
    decreases subs.len(),
{
    if subs.len() == 0 {
        Seq::empty()
    } else {
        let before = pending_rows(subs.drop_last());
        if subs.last().resolved_at is None {
            before.push(RowModel::Placeholder { title: subs.last().title@ })
        } else {
            before
        }
    }
}

/// The submission after the add call for `token` resolved at `version`.
pub open spec fn resolve_if(s: Submission, token: u64, version: u64) -> Submission {
    if s.token == token {
        Submission { token: s.token, title: s.title, resolved_at: Some(version) }
    } else {
        s
    }
}

/// The submissions whose call is still in flight, in their order.
pub open spec fn in_flight(subs: Seq<Submission>) -> Seq<Submission>
    decreases subs.len(),
{
    if subs.len() == 0 {
        Seq::empty()
    } else {
        let before = in_flight(subs.drop_last());
        if subs.last().resolved_at is None {
            before.push(subs.last())
        } else {
            before
        }
    }
}

/// The submissions in flight are submissions of `subs`, none resolved, and
/// they show exactly the placeholders of the pending ones.
pub proof fn lemma_in_flight(subs: Seq<Submission>, listed_add: u64)
    ensures
        forall|i: int|
            0 <= i < in_flight(subs).len() ==> (#[trigger] in_flight(subs)[i]).resolved_at is None
                && exists|j: int| 0 <= j < subs.len() && in_flight(subs)[i] == subs[j],
        placeholder_rows(in_flight(subs), listed_add) == pending_rows(subs),
    decreases subs.len(),
{
    if subs.len() > 0 {
        let rest = subs.drop_last();
        lemma_in_flight(rest, listed_add);
        let f = in_flight(subs);
        assert forall|i: int| 0 <= i < f.len() implies (#[trigger] f[i]).resolved_at is None
            && exists|j: int| 0 <= j < subs.len() && f[i] == subs[j] by {
            if i < in_flight(rest).len() {
                assert(f[i] == in_flight(rest)[i]);
                let j = choose|j: int| 0 <= j < rest.len() && in_flight(rest)[i] == rest[j];
                assert(f[i] == subs[j]);
            } else {
                assert(f[i] == subs[subs.len() - 1]);
            }
        }
        if subs.last().resolved_at is None {
            assert(f.drop_last() == in_flight(rest));
        }
    }
}

/// Once a listing reflects the version of every resolved submission, the
/// placeholders are those of the submissions still in flight.
pub proof fn lemma_placeholders_are_pending(subs: Seq<Submission>, listed_add: u64)
    requires
        forall|i: int|
            0 <= i < subs.len() && (#[trigger] subs[i]).resolved_at is Some
                ==> subs[i].resolved_at->Some_0 <= listed_add,
    ensures
        placeholder_rows(subs, listed_add) == pending_rows(subs),
    decreases subs.len(),
{
    if subs.len() > 0 {
        let rest = subs.drop_last();
        assert forall|i: int|
            0 <= i < rest.len() && (#[trigger] rest[i]).resolved_at is Some implies rest[i].resolved_at->Some_0
            <= listed_add by {
            assert(rest[i] == subs[i]);
        }
        lemma_placeholders_are_pending(rest, listed_add);
        assert(subs.last() == subs[subs.len() - 1]);
    }
}

/// The client side of the todo list: a version counter for each mutating
/// operation, the last listing with the add and delete versions it reflects,
/// and the additions submitted so far.
pub struct TodoSync {
    pub add_version: u64,
    pub delete_version: u64,
    pub next_token: u64,
    pub listed_add: u64,
    pub listed_delete: u64,
    pub listing: Listing,
    pub submissions: Vec<Submission>,
}

impl TodoSync {
    /// Versions only grow: a listing never reflects a later version than the
    /// current one, nor has a submission resolved at one; every token handed
    /// out is below the next one.
    pub open spec fn wf(&self) -> bool {
        &&& self.listed_add <= self.add_version
        &&& self.listed_delete <= self.delete_version
        &&& forall|i: int|
            0 <= i < self.submissions@.len() ==> {
                &&& (#[trigger] self.submissions@[i]).token < self.next_token
                &&& self.submissions@[i].resolved_at is Some
                    ==> self.submissions@[i].resolved_at->Some_0 <= self.add_version
            }
    }

    /// What the view shows: the rows of the last listing, then a placeholder
    /// for each submission that the listing does not reflect yet.
    pub open spec fn rows_spec(&self) -> Seq<RowModel> {
        listing_rows(self.listing) + placeholder_rows(self.submissions@, self.listed_add)
    }

    pub fn new() -> (s: TodoSync)
        ensures
            s.wf(),
            s.add_version == 0 && s.delete_version == 0,
            s.next_token == 0,
            s.listed_add == 0 && s.listed_delete == 0,
            s.listing == Listing::Loading,
            s.submissions@.len() == 0,
            s.rows_spec() == Seq::<RowModel>::empty(),
    {
        let s = TodoSync {
            add_version: 0,
            delete_version: 0,
            next_token: 0,
            listed_add: 0,
            listed_delete: 0,
            listing: Listing::Loading,
            submissions: Vec::new(),
        };
        assert(s.rows_spec() =~= Seq::<RowModel>::empty());
        s
    }

    /// The listing call that brings the view up to date with the current
    /// versions.
    pub fn refresh(&self) -> (a: Action)
        ensures
            a == (Action::CallList {
                add_version: self.add_version,
                delete_version: self.delete_version,
            }),
    {
        Action::CallList { add_version: self.add_version, delete_version: self.delete_version }
    }

    /// Submits an addition of `title`: it shows at once as a placeholder
    /// after the rows already shown, and the host is asked to make the call.
    pub fn submit_add(&mut self, title: String) -> (a: Action)
        requires
            old(self).wf(),
            old(self).next_token < u64::MAX,
        ensures
            final(self).wf(),
            a == (Action::CallAdd { token: old(self).next_token, title }),
            final(self).submissions@ == old(self).submissions@.push(
                Submission { token: old(self).next_token, title, resolved_at: None },
            ),
            final(self).next_token == old(self).next_token + 1,
            final(self).add_version == old(self).add_version,
            final(self).delete_version == old(self).delete_version,
            final(self).listed_add == old(self).listed_add,
            final(self).listed_delete == old(self).listed_delete,
            final(self).listing == old(self).listing,
            final(self).rows_spec() == old(self).rows_spec().push(
                RowModel::Placeholder { title: title@ },
            ),
    {
        let token = self.next_token;
        let sub = Submission { token, title: title.clone(), resolved_at: None };
        let ghost subs = self.submissions@;
        self.submissions.push(sub);
        self.next_token = token + 1;
        assert(self.submissions@.drop_last() == subs);
        assert(self.rows_spec() =~= old(self).rows_spec().push(
            RowModel::Placeholder { title: title@ },
        ));
        Action::CallAdd { token, title }
    }

    /// The add call for `token` returned, successfully or not: the add version
    /// grows, the submission records that version, and the view asks for a
    /// fresh listing.
    pub fn add_resolved(&mut self, token: u64) -> (a: Action)
        requires
            old(self).wf(),
            old(self).add_version < u64::MAX,
        ensures
            final(self).wf(),
            final(self).add_version == old(self).add_version + 1,
            a == (Action::CallList {
                add_version: final(self).add_version,
                delete_version: old(self).delete_version,
            }),
            final(self).submissions@.len() == old(self).submissions@.len(),
            forall|i: int|
                0 <= i < old(self).submissions@.len() ==> (#[trigger] final(self).submissions@[i])
                    == resolve_if(old(self).submissions@[i], token, final(self).add_version),
            final(self).next_token == old(self).next_token,
            final(self).delete_version == old(self).delete_version,
            final(self).listed_add == old(self).listed_add,
            final(self).listed_delete == old(self).listed_delete,
            final(self).listing == old(self).listing,
    {
        let version = self.add_version + 1;
        let mut subs: Vec<Submission> = Vec::new();
        let mut i: usize = 0;
        while i < self.submissions.len()
            invariant
                i <= self.submissions@.len(),
                subs@.len() == i,
                forall|j: int|
                    0 <= j < i ==> (#[trigger] subs@[j]) == resolve_if(
                        self.submissions@[j],
                        token,
                        version,
                    ),
            decreases self.submissions@.len() - i,
        {
            let old_sub = &self.submissions[i];
            let resolved_at = if old_sub.token == token {
                Some(version)
            } else {
                old_sub.resolved_at
            };
            subs.push(Submission { token: old_sub.token, title: old_sub.title.clone(), resolved_at });
            i = i + 1;
        }
        self.submissions = subs;
        self.add_version = version;
        Action::CallList { add_version: version, delete_version: self.delete_version }
    }

    /// The delete call returned, successfully or not: the delete version grows
    /// and the view asks for a fresh listing.
    pub fn delete_resolved(&mut self) -> (a: Action)
        requires
            old(self).wf(),
            old(self).delete_version < u64::MAX,
        ensures
            final(self).wf(),
            final(self).delete_version == old(self).delete_version + 1,
            final(self).add_version == old(self).add_version,
            final(self).next_token == old(self).next_token,
            final(self).listed_add == old(self).listed_add,
            final(self).listed_delete == old(self).listed_delete,
            final(self).listing == old(self).listing,
            final(self).submissions == old(self).submissions,
            a == (Action::CallList {
                add_version: old(self).add_version,
                delete_version: final(self).delete_version,
            }),
    {
        self.delete_version = self.delete_version + 1;
        Action::CallList { add_version: self.add_version, delete_version: self.delete_version }
    }

    /// A listing made at `add_version` and `delete_version` arrived. If those
    /// are the current versions it replaces the shown listing, and from then on
    /// only the submissions still in flight show as placeholders; a listing for
    /// older versions is stale and changes nothing.
    pub fn list_arrived(
        &mut self,
        add_version: u64,
        delete_version: u64,
        result: Result<Vec<Todo>, TodoError>,
    )
        requires
            old(self).wf(),
        ensures
            final(self).wf(),
            add_version != old(self).add_version || delete_version != old(self).delete_version
                ==> *final(self) == *old(self),
            add_version == old(self).add_version && delete_version == old(self).delete_version
                ==> {
                &&& final(self).listing == match result {
                    Ok(v) => Listing::Loaded(v),
                    Err(e) => Listing::Failed(e),
                }
                &&& final(self).listed_add == add_version
                &&& final(self).listed_delete == delete_version
                &&& final(self).submissions@ == in_flight(old(self).submissions@)
                &&& final(self).rows_spec() == listing_rows(final(self).listing) + pending_rows(
                    old(self).submissions@,
                )
            },
            final(self).add_version == old(self).add_version,
            final(self).delete_version == old(self).delete_version,
            final(self).next_token == old(self).next_token,
    {
        if add_version != self.add_version || delete_version != self.delete_version {
            return;
        }
        self.listing = match result {
            Ok(v) => Listing::Loaded(v),
            Err(e) => Listing::Failed(e),
        };
        self.listed_add = add_version;
        self.listed_delete = delete_version;
        let mut kept: Vec<Submission> = Vec::new();
        let mut k: usize = 0;
        while k < self.submissions.len()
            invariant
                k <= self.submissions@.len(),
                kept@ == in_flight(self.submissions@.take(k as int)),
            decreases self.submissions@.len() - k,
        {
            let sub = &self.submissions[k];
            if sub.resolved_at.is_none() {
                kept.push(Submission { token: sub.token, title: sub.title.clone(), resolved_at: None });
            }
            assert(self.submissions@.take(k + 1).drop_last() == self.submissions@.take(k as int));
            assert(self.submissions@.take(k + 1).last() == self.submissions@[k as int]);
            k = k + 1;
        }
        assert(self.submissions@.take(k as int) == self.submissions@);
        let ghost all = self.submissions@;
        self.submissions = kept;
        proof {
            lemma_in_flight(all, add_version);
            assert forall|i: int| 0 <= i < self.submissions@.len() implies (#[trigger] self.submissions@[i]).token
                < self.next_token by {
                let j = choose|j: int| 0 <= j < all.len() && in_flight(all)[i] == all[j];
            }
        }
    }

    /// The rows that the view shows.
    pub fn rows(&self) -> (r: Vec<Row>)
        ensures
            row_models(r@) == self.rows_spec(),
    {
        let mut r: Vec<Row> = Vec::new();
        match &self.listing {
            Listing::Loading => {},
            Listing::Failed(e) => {
                r.push(Row::Failure(e.clone_error()));
            },
            Listing::Loaded(v) => {
                if v.len() == 0 {
                    r.push(Row::NoTasks);
                } else {
                    let mut i: usize = 0;
                    while i < v.len()
                        invariant
                            i <= v@.len(),
                            r@.len() == i,
                            forall|j: int| 0 <= j < i ==> (#[trigger] r@[j])@ == item_row(v@[j]),
                        decreases v@.len() - i,
                    {
                        let t = &v[i];
                        let id = match &t.id {
                            Some(k) => k.clone(),
                            None => String::new(),
                        };
                        r.push(Row::Item { title: t.title.clone(), id });
                        i = i + 1;
                    }
                }
            },
        }
        let ghost shown_listing = r@;
        assert(row_models(shown_listing) =~= listing_rows(self.listing));
        let mut k: usize = 0;
        while k < self.submissions.len()
            invariant
                k <= self.submissions@.len(),
                row_models(shown_listing) == listing_rows(self.listing),
                row_models(r@) == listing_rows(self.listing) + placeholder_rows(
                    self.submissions@.take(k as int),
                    self.listed_add,
                ),
            decreases self.submissions@.len() - k,
        {
            let sub = &self.submissions[k];
            let ghost before = r@;
            let is_shown = match sub.resolved_at {
                None => true,
                Some(v) => v > self.listed_add,
            };
            assert(is_shown == shown(self.submissions@[k as int], self.listed_add));
            if is_shown {
                r.push(Row::Placeholder { title: sub.title.clone() });
                assert(row_models(r@) =~= row_models(before).push(
                    RowModel::Placeholder { title: self.submissions@[k as int].title@ },
                ));
            }
            assert(self.submissions@.take(k + 1).drop_last() == self.submissions@.take(k as int));
            assert(self.submissions@.take(k + 1).last() == self.submissions@[k as int]);
            k = k + 1;
            assert(row_models(r@) =~= listing_rows(self.listing) + placeholder_rows(
                self.submissions@.take(k as int),
                self.listed_add,
            ));
        }
        assert(self.submissions@.take(k as int) == self.submissions@);
        r
    }
}

} // verus!
