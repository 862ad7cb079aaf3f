//! Directory listing: the accumulation loop over single-entry reads.
//!
//! The single-entry directory read yields one (name, status) pair per
//! call and reports the reserved "no more entries" code when the
//! directory is exhausted.  The listing loop joins each name onto the
//! directory path, skips the self and parent pseudo-entries, stops
//! successfully on the reserved code, and aborts on any other error,
//! discarding what it had accumulated.  This is the one place that
//! reinterprets the reserved code as success; the single-entry read
//! itself still surfaces it as an error.
//!
//! Paths and names are byte strings; a separator is the single byte
//! `/`, a pseudo-entry name is `.` or `..`.

use vstd::prelude::*;

use crate::errors::{ProtoError, NO_MORE_ENTRIES_CODE};
use crate::stat::FileStat;

verus! {

/// The raw outcome of one single-entry directory read, after the
/// bridge has absorbed any would-block turns: an entry, or a terminal
/// error (possibly the reserved end-of-entries code).
pub type DirEvent = Result<(Vec<u8>, FileStat), ProtoError>;

/// Whether a name is one of the two pseudo-entries every directory
/// reports about itself: `.` or `..`.
pub open spec fn is_pseudo_name(name: Seq<u8>) -> bool {
    name == seq![46u8] || name == seq![46u8, 46u8]
}

/// Decide whether a name is a pseudo-entry.
pub fn name_is_pseudo(name: &Vec<u8>) -> (r: bool)
    ensures
        r == is_pseudo_name(name@),
{
    let r = if name.len() == 1 {
        name[0] == 46
    } else if name.len() == 2 {
        name[0] == 46 && name[1] == 46
    } else {
        false
    };
    proof {
        if name@.len() == 1 && name@[0] == 46 {
            assert(name@ =~= seq![46u8]);
        }
        if name@.len() == 2 && name@[0] == 46 && name@[1] == 46 {
            assert(name@ =~= seq![46u8, 46u8]);
        }
        assert(seq![46u8].len() == 1);
        assert(seq![46u8, 46u8].len() == 2);
    }
    r
}

/// A directory path joined with an entry name: an absolute name
/// stands alone; otherwise the name is appended to the directory,
/// with a separator unless the directory is empty or already ends in
/// one.
pub open spec fn join_spec(dir: Seq<u8>, name: Seq<u8>) -> Seq<u8> {
    if name.len() > 0 && name[0] == 47 {
        name
    } else if dir.len() == 0 {
        name
    } else if dir.last() == 47 {
        dir + name
    } else {
        dir + seq![47u8] + name
    }
}

/// Join a directory path and an entry name.
#[verifier::loop_isolation(false)]
pub fn join_path(dir: &Vec<u8>, name: &Vec<u8>) -> (r: Vec<u8>)
    ensures
        r@ == join_spec(dir@, name@),
{
    let mut out: Vec<u8> = Vec::new();
    let absolute = name.len() > 0 && name[0] == 47;
    if !absolute && dir.len() > 0 {
        let mut i: usize = 0;
        while i < dir.len()
            invariant
                i <= dir@.len(),
                out@ == dir@.take(i as int),
            decreases dir@.len() - i,
        {
            out.push(dir[i]);
            proof {
                assert(dir@.take(i + 1) =~= dir@.take(i as int).push(dir@[i as int]));
            }
            i = i + 1;
        }
        proof {
            assert(dir@.take(dir@.len() as int) =~= dir@);
        }
        if dir[dir.len() - 1] != 47 {
            out.push(47);
        }
    }
    let ghost base = out@;
    let mut j: usize = 0;
    while j < name.len()
        invariant
            j <= name@.len(),
            out@ == base + name@.take(j as int),
        decreases name@.len() - j,
    {
        proof {
            assert(base + name@.take(j + 1) =~= (base + name@.take(j as int)).push(
                name@[j as int],
            ));
        }
        out.push(name[j]);
        j = j + 1;
    }
    proof {
        assert(name@.take(name@.len() as int) =~= name@);
        if absolute || dir@.len() == 0 {
            assert(out@ =~= name@);
        } else if dir@.last() == 47 {
            assert(out@ =~= dir@ + name@);
        } else {
            assert(base =~= dir@.push(47u8));
            assert(out@ =~= dir@ + seq![47u8] + name@);
        }
    }
    out
}

/// The ghost value of an accumulated listing: joined paths and
/// statuses.
pub open spec fn entry_views(entries: Seq<(Vec<u8>, FileStat)>) -> Seq<(Seq<u8>, FileStat)> {
    entries.map_values(|e: (Vec<u8>, FileStat)| (e.0@, e.1))
}

/// The ghost state a listing ends in.
pub enum ListingView {
    /// The reserved end-of-entries code was reached: the listing is
    /// these entries, in the order the directory reported them.
    Complete(Seq<(Seq<u8>, FileStat)>),
    /// Another error aborted the listing; whatever had accumulated is
    /// discarded.
    Failed(ProtoError),
    /// The events ran out before any terminal event.
    Incomplete,
}

/// The state a listing ends in.
#[derive(Clone, Debug, PartialEq, Eq)]
pub enum Listing {
    /// The reserved end-of-entries code was reached.
    Complete(Vec<(Vec<u8>, FileStat)>),
    /// Another error aborted the listing.
    Failed(ProtoError),
    /// The events ran out before any terminal event.
    Incomplete,
}

/// The ghost value of a listing state.
pub open spec fn listing_view(l: Listing) -> ListingView {
    match l {
        Listing::Complete(entries) => ListingView::Complete(entry_views(entries@)),
        Listing::Failed(e) => ListingView::Failed(e),
        Listing::Incomplete => ListingView::Incomplete,
    }
}

/// The listing the events determine, carried out from an accumulated
/// prefix: entries are joined and kept unless pseudo, the reserved
/// end-of-entries code completes with the accumulation, and any other
/// error discards it.
pub open spec fn listing_from(
    dir: Seq<u8>,
    events: Seq<DirEvent>,
    acc: Seq<(Seq<u8>, FileStat)>,
) -> ListingView
    decreases events.len(),
{
    if events.len() == 0 {
        ListingView::Incomplete
    } else {
        match events[0] {
            Ok(p) => if is_pseudo_name(p.0@) {
                listing_from(dir, events.drop_first(), acc)
            } else {
                listing_from(dir, events.drop_first(), acc.push((join_spec(dir, p.0@), p.1)))
            },
            Err(e) => if e.code == NO_MORE_ENTRIES_CODE {
                ListingView::Complete(acc)
            } else {
                ListingView::Failed(e)
            },
        }
    }
}

/// The listing a directory's events determine.
pub open spec fn listing_spec(dir: Seq<u8>, events: Seq<DirEvent>) -> ListingView {
    listing_from(dir, events, Seq::empty())
}

/// The decision the listing loop takes on one directory event.
#[derive(Clone, Debug, PartialEq, Eq)]
pub enum DirStep {
    /// A real entry: append this joined path and status.
    Keep(Vec<u8>, FileStat),
    /// A pseudo-entry: accumulate nothing.
    Skip,
    /// The reserved end-of-entries code: stop, successfully.
    End,
    /// Any other error: abort the listing and propagate it.
    Abort(ProtoError),
}

/// Decide what the listing loop does with one directory event.
pub fn readdir_step(dir: &Vec<u8>, event: DirEvent) -> (s: DirStep)
    ensures
        match event {
            Ok(p) => if is_pseudo_name(p.0@) {
                s is Skip
            } else {
                s matches DirStep::Keep(q, st) && q@ == join_spec(dir@, p.0@) && st == p.1
            },
            Err(e) => if e.code == NO_MORE_ENTRIES_CODE {
                s is End
            } else {
                s == DirStep::Abort(e)
            },
        },
{
    match event {
        Ok((name, st)) => {
            if name_is_pseudo(&name) {
                DirStep::Skip
            } else {
                DirStep::Keep(join_path(dir, &name), st)
            }
        },
        Err(e) => {
            if e.is_no_more_entries() {
                DirStep::End
            } else {
                DirStep::Abort(e)
            }
        },
    }
}

/// Run the whole listing loop over a script of directory events.
#[verifier::loop_isolation(false)]
pub fn collect_entries(dir: &Vec<u8>, events: Vec<DirEvent>) -> (r: Listing)
    ensures
        listing_view(r) == listing_spec(dir@, events@),
{
    let ghost all = events@;
    let mut rest = events;
    let mut acc: Vec<(Vec<u8>, FileStat)> = Vec::new();
    proof {
        assert(entry_views(acc@) =~= Seq::<(Seq<u8>, FileStat)>::empty());
    }
    while rest.len() > 0
        invariant
            listing_from(dir@, all, Seq::empty()) == listing_from(
                dir@,
                rest@,
                entry_views(acc@),
            ),
        decreases rest@.len(),
    {
        let ghost before = rest@;
        let ghost acc_before = acc@;
        let ev = rest.remove(0);
        proof {
            assert(before.remove(0) =~= before.drop_first());
        }
        match readdir_step(dir, ev) {
            DirStep::Keep(path, st) => {
                let ghost path_view = path@;
                acc.push((path, st));
                proof {
                    assert(entry_views(acc@) =~= entry_views(acc_before).push((path_view, st)));
                    assert(listing_from(dir@, before, entry_views(acc_before)) == listing_from(
                        dir@,
                        rest@,
                        entry_views(acc@),
                    ));
                }
            },
            DirStep::Skip => {
                proof {
                    assert(listing_from(dir@, before, entry_views(acc_before)) == listing_from(
                        dir@,
                        rest@,
                        entry_views(acc@),
                    ));
                }
            },
            DirStep::End => {
                proof {
                    assert(listing_from(dir@, before, entry_views(acc_before))
                        == ListingView::Complete(entry_views(acc@)));
                }
                return Listing::Complete(acc);
            },
            DirStep::Abort(e) => {
                proof {
                    assert(listing_from(dir@, before, entry_views(acc_before))
                        == ListingView::Failed(e));
                }
                return Listing::Failed(e);
            },
        }
    }
    Listing::Incomplete
}

/// Whether one directory event is a real entry that yields exactly
/// this listing entry.
pub open spec fn event_yields(dir: Seq<u8>, event: DirEvent, entry: (Seq<u8>, FileStat)) -> bool {
    event matches Ok(p) && !is_pseudo_name(p.0@) && entry == (join_spec(dir, p.0@), p.1)
}

/// Whether a listing entry arises from one of the directory's events.
pub open spec fn from_dir_event(
    dir: Seq<u8>,
    events: Seq<DirEvent>,
    entry: (Seq<u8>, FileStat),
) -> bool {
    exists|j: int| 0 <= j < events.len() && #[trigger] event_yields(dir, events[j], entry)
}

proof fn lemma_from_dir_event_lift(
    dir: Seq<u8>,
    events: Seq<DirEvent>,
    entry: (Seq<u8>, FileStat),
)
    requires
        events.len() > 0,
        from_dir_event(dir, events.drop_first(), entry),
    ensures
        from_dir_event(dir, events, entry),
{
    let j = choose|j: int|
        0 <= j < events.drop_first().len() && #[trigger] event_yields(
            dir,
            events.drop_first()[j],
            entry,
        );
    assert(events.drop_first()[j] == events[j + 1]);
    assert(event_yields(dir, events[j + 1], entry));
}

proof fn lemma_listing_from_provenance(
    dir: Seq<u8>,
    events: Seq<DirEvent>,
    acc: Seq<(Seq<u8>, FileStat)>,
)
    ensures
        listing_from(dir, events, acc) matches ListingView::Complete(es) ==> {
            &&& acc.len() <= es.len()
            &&& forall|i: int| 0 <= i < acc.len() ==> es[i] == acc[i]
            &&& forall|i: int| acc.len() <= i < es.len() ==> from_dir_event(dir, events, #[trigger] es[i])
        },
    decreases events.len(),
{
    if events.len() == 0 {
    } else {
        match events[0] {
            Ok(p) => {
                if is_pseudo_name(p.0@) {
                    lemma_listing_from_provenance(dir, events.drop_first(), acc);
                    match listing_from(dir, events, acc) {
                        ListingView::Complete(es) => {
                            assert forall|i: int|
                                acc.len() <= i < es.len() implies from_dir_event(
                                dir,
                                events,
                                #[trigger] es[i],
                            ) by {
                                lemma_from_dir_event_lift(dir, events, es[i]);
                            }
                        },
                        _ => {},
                    }
                } else {
                    let acc2 = acc.push((join_spec(dir, p.0@), p.1));
                    lemma_listing_from_provenance(dir, events.drop_first(), acc2);
                    match listing_from(dir, events, acc) {
                        ListingView::Complete(es) => {
                            assert forall|i: int|
                                acc.len() <= i < es.len() implies from_dir_event(
                                dir,
                                events,
                                #[trigger] es[i],
                            ) by {
                                if i == acc.len() {
                                    assert(es[i] == acc2[i]);
                                    assert(event_yields(dir, events[0], es[i]));
                                } else {
                                    lemma_from_dir_event_lift(dir, events, es[i]);
                                }
                            }
                        },
                        _ => {},
                    }
                }
            },
            Err(e) => {},
        }
    }
}

/// Law: every entry of a complete listing arises from a directory
/// event whose name is neither `.` nor `..` — the pseudo-entries are
/// skipped and never appear in the result.
pub proof fn lemma_complete_listing_provenance(dir: Seq<u8>, events: Seq<DirEvent>)
    ensures
        listing_spec(dir, events) matches ListingView::Complete(es) ==> forall|i: int|
            0 <= i < es.len() ==> from_dir_event(dir, events, #[trigger] es[i]),
{
    lemma_listing_from_provenance(dir, events, Seq::empty());
}

/// Law: the first event that is neither an entry nor the reserved
/// end-of-entries code aborts the whole listing with exactly that
/// error, whatever had accumulated before it — partial results are
/// discarded, never returned.
pub proof fn lemma_listing_aborts_on_error(
    dir: Seq<u8>,
    events: Seq<DirEvent>,
    acc: Seq<(Seq<u8>, FileStat)>,
    k: int,
)
    requires
        0 <= k < events.len(),
        events[k] matches Err(e) && e.code != NO_MORE_ENTRIES_CODE,
        forall|j: int| 0 <= j < k ==> events[j] is Ok,
    ensures
        events[k] matches Err(e) ==> listing_from(dir, events, acc) == ListingView::Failed(e),
    decreases k,
{
    if k == 0 {
    } else {
        assert(events[0] is Ok);
        assert(events.drop_first()[k - 1] == events[k]);
        assert(forall|j: int| 0 <= j < k - 1 ==> events.drop_first()[j] == events[j + 1]);
        let p = events[0]->Ok_0;
        if is_pseudo_name(p.0@) {
            lemma_listing_aborts_on_error(dir, events.drop_first(), acc, k - 1);
        } else {
            lemma_listing_aborts_on_error(
                dir,
                events.drop_first(),
                acc.push((join_spec(dir, p.0@), p.1)),
                k - 1,
            );
        }
    }
}

proof fn lemma_pseudo_only_keeps_acc(
    dir: Seq<u8>,
    events: Seq<DirEvent>,
    acc: Seq<(Seq<u8>, FileStat)>,
    k: int,
)
    requires
        0 <= k < events.len(),
        forall|j: int| 0 <= j < k ==> ((#[trigger] events[j]) matches Ok(p) && is_pseudo_name(p.0@)),
        events[k] matches Err(e) && e.code == NO_MORE_ENTRIES_CODE,
    ensures
        listing_from(dir, events, acc) == ListingView::Complete(acc),
    decreases k,
{
    if k == 0 {
    } else {
        assert(events[0] matches Ok(p) && is_pseudo_name(p.0@));
        assert(events.drop_first()[k - 1] == events[k]);
        assert(forall|j: int| 0 <= j < k - 1 ==> events.drop_first()[j] == events[j + 1]);
        lemma_pseudo_only_keeps_acc(dir, events.drop_first(), acc, k - 1);
    }
}

/// Law: a directory that reports no real entry — only pseudo-entries
/// followed by the reserved end-of-entries code — lists as the empty
/// sequence, not as an error.  An empty directory, whose very first
/// event is the reserved code, is the simplest instance.
pub proof fn lemma_no_entries_lists_empty(dir: Seq<u8>, events: Seq<DirEvent>, k: int)
    requires
        0 <= k < events.len(),
        forall|j: int| 0 <= j < k ==> ((#[trigger] events[j]) matches Ok(p) && is_pseudo_name(p.0@)),
        events[k] matches Err(e) && e.code == NO_MORE_ENTRIES_CODE,
    ensures
        listing_spec(dir, events) == ListingView::Complete(Seq::<(Seq<u8>, FileStat)>::empty()),
{
    lemma_pseudo_only_keeps_acc(dir, events, Seq::empty(), k);
}

} // verus!
